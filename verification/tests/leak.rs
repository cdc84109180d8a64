use drippy::leak::{decide, AllowanceTracker, Decision};

#[test]
fn open_tap_is_no_leak_and_clears_the_allowance() {
    assert_eq!(
        decide(false, 50, false, 7, 10, 1),
        Decision { leak: false, allowance: 0, actuate: false }
    );
    assert_eq!(
        decide(false, 0, true, 255, 10, 1),
        Decision { leak: false, allowance: 0, actuate: false }
    );
}

#[test]
fn flow_within_threshold_leaves_the_allowance_alone() {
    assert_eq!(
        decide(true, 10, false, 1, 10, 1),
        Decision { leak: false, allowance: 1, actuate: false }
    );
    assert_eq!(
        decide(true, 0, false, 0, 10, 1),
        Decision { leak: false, allowance: 0, actuate: false }
    );
}

#[test]
fn flow_just_over_threshold_is_a_candidate() {
    assert_eq!(
        decide(true, 11, false, 0, 10, 1),
        Decision { leak: false, allowance: 1, actuate: false }
    );
}

#[test]
fn bypassed_candidate_is_reported_and_not_actuated() {
    assert_eq!(
        decide(true, 50, true, 0, 10, 1),
        Decision { leak: true, allowance: 0, actuate: false }
    );
    assert_eq!(
        decide(true, 50, true, 4, 10, 1),
        Decision { leak: true, allowance: 4, actuate: false }
    );
}

#[test]
fn candidate_within_tolerance_is_let_pass() {
    assert_eq!(
        decide(true, 50, false, 0, 10, 1),
        Decision { leak: false, allowance: 1, actuate: false }
    );
    assert_eq!(
        decide(true, 50, false, 2, 10, 3),
        Decision { leak: false, allowance: 3, actuate: false }
    );
}

#[test]
fn candidate_beyond_tolerance_shuts_the_valve() {
    assert_eq!(
        decide(true, 50, false, 1, 10, 1),
        Decision { leak: true, allowance: 2, actuate: true }
    );
    assert_eq!(
        decide(true, 50, false, 3, 10, 3),
        Decision { leak: true, allowance: 4, actuate: true }
    );
}

#[test]
fn zero_tolerance_shuts_on_the_first_candidate() {
    assert_eq!(
        decide(true, 50, false, 0, 10, 0),
        Decision { leak: true, allowance: 1, actuate: true }
    );
}

#[test]
fn allowance_stays_at_its_bound() {
    assert_eq!(
        decide(true, 50, false, 254, 10, 1),
        Decision { leak: true, allowance: 255, actuate: true }
    );
    assert_eq!(
        decide(true, 50, false, 255, 10, 1),
        Decision { leak: true, allowance: 255, actuate: true }
    );
}

#[test]
fn full_tolerance_is_never_exceeded() {
    assert_eq!(
        decide(true, 50, false, 255, 10, 255),
        Decision { leak: false, allowance: 255, actuate: false }
    );
}

#[test]
fn same_inputs_give_the_same_decision() {
    for tap_closed in [false, true] {
        for bypassed in [false, true] {
            for flow_count in [0u16, 10, 11, 50, 65535] {
                for allowance in [0u8, 1, 2, 254, 255] {
                    for tolerance in [0u8, 1, 255] {
                        let first = decide(tap_closed, flow_count, bypassed, allowance, 10, tolerance);
                        let second = decide(tap_closed, flow_count, bypassed, allowance, 10, tolerance);
                        assert_eq!(first, second);
                    }
                }
            }
        }
    }
}

#[test]
fn three_excess_ticks_without_bypass() {
    // threshold 10, tolerance 1, tap closed, 50 pulses per tick.
    let first = decide(true, 50, false, 0, 10, 1);
    assert_eq!(first, Decision { leak: false, allowance: 1, actuate: false });
    let second = decide(true, 50, false, first.allowance, 10, 1);
    assert_eq!(second, Decision { leak: true, allowance: 2, actuate: true });
    let third = decide(true, 50, false, second.allowance, 10, 1);
    assert_eq!(third, Decision { leak: true, allowance: 3, actuate: true });
}

#[test]
fn three_excess_ticks_under_bypass() {
    let mut allowance: u8 = 0;
    for _ in 0..3 {
        let outcome = decide(true, 50, true, allowance, 10, 1);
        assert_eq!(outcome, Decision { leak: true, allowance: 0, actuate: false });
        allowance = outcome.allowance;
    }
}

#[test]
fn open_tap_ends_a_run_of_any_length() {
    for streak in [0u8, 1, 2, 100, 255] {
        let open = decide(false, 50, false, streak, 10, 1);
        assert_eq!(open.allowance, 0);
        let following = decide(true, 50, false, open.allowance, 10, 1);
        assert_eq!(following, Decision { leak: false, allowance: 1, actuate: false });
    }
}

#[test]
fn tracker_starts_empty() {
    let tracker = AllowanceTracker::new();
    assert_eq!(tracker.allowance(), 0);
}

#[test]
fn tracker_records_each_sample() {
    let mut tracker = AllowanceTracker::new();
    let first = tracker.observe(true, 50, false, 10, 1);
    assert_eq!(first, Decision { leak: false, allowance: 1, actuate: false });
    assert_eq!(tracker.allowance(), 1);
    let second = tracker.observe(true, 50, false, 10, 1);
    assert_eq!(second, Decision { leak: true, allowance: 2, actuate: true });
    assert_eq!(tracker.allowance(), 2);
    let calm = tracker.observe(true, 3, false, 10, 1);
    assert_eq!(calm, Decision { leak: false, allowance: 2, actuate: false });
    assert_eq!(tracker.allowance(), 2);
    let open = tracker.observe(false, 50, false, 10, 1);
    assert_eq!(open, Decision { leak: false, allowance: 0, actuate: false });
    assert_eq!(tracker.allowance(), 0);
}

#[test]
fn tracker_reset_forgets_the_run() {
    let mut tracker = AllowanceTracker::new();
    tracker.observe(true, 50, false, 10, 5);
    tracker.observe(true, 50, false, 10, 5);
    assert_eq!(tracker.allowance(), 2);
    tracker.reset();
    assert_eq!(tracker.allowance(), 0);
}
