use drippy::flow::{take_ticks, FlowCounter};

#[test]
fn new_counter_holds_nothing() {
    let mut counter = FlowCounter::new();
    assert_eq!(counter.drain(), 0);
}

#[test]
fn drain_hands_out_the_pulses_recorded() {
    let mut counter = FlowCounter::new();
    for _ in 0..50 {
        counter.record_pulse();
    }
    assert_eq!(counter.drain(), 50);
}

#[test]
fn drain_starts_over_from_zero() {
    let mut counter = FlowCounter::new();
    counter.record_pulse();
    counter.record_pulse();
    assert_eq!(counter.drain(), 2);
    assert_eq!(counter.drain(), 0);
}

#[test]
fn every_pulse_is_handed_out_by_exactly_one_drain() {
    // Producer and drainer interleave: 3 pulses, drain, 1 pulse, drain, no
    // pulse, drain, 4 pulses, drain.
    let mut counter = FlowCounter::new();
    let mut handed_out: Vec<u16> = Vec::new();
    for burst in [3u16, 1, 0, 4] {
        for _ in 0..burst {
            counter.record_pulse();
        }
        handed_out.push(counter.drain());
    }
    assert_eq!(handed_out, vec![3, 1, 0, 4]);
    let total: u32 = handed_out.iter().map(|&ticks| u32::from(ticks)).sum();
    assert_eq!(total, 8);
}

#[test]
fn take_ticks_takes_what_was_recorded_since_the_last_take() {
    let mut counter = FlowCounter::new();
    for _ in 0..7 {
        counter.record_pulse();
    }
    assert_eq!(take_ticks(&mut counter), 7);
    assert_eq!(take_ticks(&mut counter), 0);
    counter.record_pulse();
    assert_eq!(take_ticks(&mut counter), 1);
}

#[test]
fn count_reaches_the_largest_value() {
    let mut counter = FlowCounter::new();
    for _ in 0..65535u32 {
        counter.record_pulse();
    }
    assert_eq!(counter.drain(), 65535);
}

#[test]
fn count_wraps_after_the_largest_value() {
    let mut counter = FlowCounter::new();
    for _ in 0..65536u32 {
        counter.record_pulse();
    }
    assert_eq!(counter.drain(), 0);
    for _ in 0..65539u32 {
        counter.record_pulse();
    }
    assert_eq!(counter.drain(), 3);
}

#[test]
fn long_interleaving_loses_and_duplicates_nothing() {
    // A fixed pseudo-random interleaving of pulses and drains.
    let mut counter = FlowCounter::new();
    let mut seed: u32 = 0x2F6E_2B1D;
    let mut on_hold: u32 = 0;
    let mut recorded: u32 = 0;
    let mut handed_out: u32 = 0;
    for _ in 0..20_000 {
        seed = seed.wrapping_mul(1_664_525).wrapping_add(1_013_904_223);
        if (seed >> 24) % 7 == 0 {
            let ticks = u32::from(counter.drain());
            assert_eq!(ticks, on_hold);
            handed_out += ticks;
            on_hold = 0;
        } else {
            counter.record_pulse();
            recorded += 1;
            on_hold += 1;
        }
    }
    handed_out += u32::from(counter.drain());
    assert_eq!(handed_out, recorded);
}
