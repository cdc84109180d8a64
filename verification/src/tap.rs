//! The tap switch.
//!
//! The tap is worked by a push button: each press flips it between on and off.
//! After a press the button is left alone for the debounce time, so that the
//! valve's solenoid is not switched faster than it can take.

use vstd::prelude::*;

verus! {

/// Seconds during which presses are ignored after one was taken.
pub const DEBOUNCE_SECONDS: u64 = 3;

/// Whether the tap is on, as toggled by its button.
pub struct TapSwitch {
    on: bool,
}

impl View for TapSwitch {
    type V = bool;

    closed spec fn view(&self) -> bool {
        self.on
    }
}

impl TapSwitch {
    /// A switch that starts in the state its input shows.
    pub fn new(on: bool) -> (tap: Self)
        ensures
            tap@ == on,
    {
        TapSwitch { on }
    }

    /// Takes one press of the button: flips the switch and returns the state
    /// it had before.
    pub fn toggle(&mut self) -> (before: bool)
        ensures
            before == old(self)@,
            final(self)@ == !old(self)@,
    {
        let before = self.on;
        self.on = !before;
        before
    }
}

/// Whether the tap has been toggled on.
pub fn is_on(tap: &TapSwitch) -> (on: bool)
    ensures
        on == tap@,
{
    tap.on
}

} // verus!
