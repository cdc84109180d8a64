use drippy::bypass::{deactivate_bypass_mode, BypassGrant, WatcherAction};

#[test]
fn grant_starts_as_given() {
    assert!(BypassGrant::new(true).is_granted());
    assert!(!BypassGrant::new(false).is_granted());
}

#[test]
fn grant_sets_and_tells_what_was() {
    let mut grant = BypassGrant::new(false);
    assert!(!grant.grant());
    assert!(grant.is_granted());
    assert!(grant.grant());
    assert!(grant.is_granted());
}

#[test]
fn cancel_clears_and_tells_what_was() {
    let mut grant = BypassGrant::new(true);
    assert!(grant.cancel());
    assert!(!grant.is_granted());
    assert!(!grant.cancel());
    assert!(!grant.is_granted());
}

#[test]
fn press_cancels_a_standing_grant() {
    let mut grant = BypassGrant::new(true);
    assert_eq!(deactivate_bypass_mode(&mut grant), WatcherAction::NotifyCancelled);
    assert!(!grant.is_granted());
}

#[test]
fn press_without_grant_does_nothing() {
    let mut grant = BypassGrant::new(false);
    assert_eq!(deactivate_bypass_mode(&mut grant), WatcherAction::Nothing);
    assert!(!grant.is_granted());
}

#[test]
fn repeated_presses_notify_once() {
    let mut grant = BypassGrant::new(true);
    assert_eq!(deactivate_bypass_mode(&mut grant), WatcherAction::NotifyCancelled);
    for _ in 0..5 {
        assert_eq!(deactivate_bypass_mode(&mut grant), WatcherAction::Nothing);
        assert!(!grant.is_granted());
    }
}
