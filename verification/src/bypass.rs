//! The bypass grant and the button that cancels it.
//!
//! While bypass is granted the valve is never shut automatically. The grant is
//! shared between the reporting loop, which sets it on a remote directive, and
//! the button watcher, which cancels it. Both go through the operations below,
//! each a single exchange on the flag.

use vstd::prelude::*;

verus! {

/// Flag that suspends automatic shutoff.
pub struct BypassGrant {
    granted: bool,
}

impl View for BypassGrant {
    type V = bool;

    closed spec fn view(&self) -> bool {
        self.granted
    }
}

impl BypassGrant {
    /// A grant in the given state.
    pub fn new(granted: bool) -> (grant: Self)
        ensures
            grant@ == granted,
    {
        BypassGrant { granted }
    }

    /// Whether bypass is granted.
    pub fn is_granted(&self) -> (granted: bool)
        ensures
            granted == self@,
    {
        self.granted
    }

    /// Grants bypass and returns whether it was granted before.
    pub fn grant(&mut self) -> (before: bool)
        ensures
            before == old(self)@,
            final(self)@,
    {
        let before = self.granted;
        self.granted = true;
        before
    }

    /// Cancels bypass and returns whether it was granted before.
    pub fn cancel(&mut self) -> (before: bool)
        ensures
            before == old(self)@,
            !final(self)@,
    {
        let before = self.granted;
        self.granted = false;
        before
    }
}

/// What the button watcher does after a press.
#[derive(Clone, Copy, Debug, PartialEq, Eq, Structural)]
pub enum WatcherAction {
    /// A standing grant was cancelled: tell the service, and do not mind if
    /// the notice is lost.
    NotifyCancelled,
    /// No grant was standing: nothing to do, nothing to send.
    Nothing,
}

/// Handles one press of the bypass button.
///
/// A standing grant is cancelled and the service is to be told. Without a
/// grant the press changes nothing, so noise on the button is harmless. The
/// valve is out of reach here: the press touches the grant alone.
pub fn deactivate_bypass_mode(grant: &mut BypassGrant) -> (action: WatcherAction)
    ensures
        !final(grant)@,
        action == if old(grant)@ {
            WatcherAction::NotifyCancelled
        } else {
            WatcherAction::Nothing
        },
{
    if grant.cancel() {
        WatcherAction::NotifyCancelled
    } else {
        WatcherAction::Nothing
    }
}

} // verus!
