use drippy::tap::{is_on, TapSwitch, DEBOUNCE_SECONDS};

#[test]
fn switch_starts_as_its_input_shows() {
    assert!(is_on(&TapSwitch::new(true)));
    assert!(!is_on(&TapSwitch::new(false)));
}

#[test]
fn press_flips_the_switch_and_tells_what_was() {
    let mut tap = TapSwitch::new(false);
    assert!(!tap.toggle());
    assert!(is_on(&tap));
    assert!(tap.toggle());
    assert!(!is_on(&tap));
}

#[test]
fn two_presses_restore_the_switch() {
    for start in [false, true] {
        let mut tap = TapSwitch::new(start);
        tap.toggle();
        tap.toggle();
        assert_eq!(is_on(&tap), start);
    }
}

#[test]
fn debounce_lasts_three_seconds() {
    assert_eq!(DEBOUNCE_SECONDS, 3);
}
