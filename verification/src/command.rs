//! What a directive of the service does to the device.

use vstd::prelude::*;
use crate::bypass::BypassGrant;
use crate::leak::AllowanceTracker;
use crate::protocol::Command;
use crate::valve::{PinWrite, ValveModel, ValveState, ValveSystem};

verus! {

/// The part of the device that a directive acts on.
pub struct DeviceModel {
    /// Whether bypass is granted.
    pub granted: bool,
    /// The allowance used up by leak candidates.
    pub allowance: u8,
    /// The valve actuator.
    pub valve: ValveModel,
}

/// The valve state that a directive asks for, if it asks for one.
pub open spec fn target(command: Command) -> Option<ValveState> {
    match command {
        Command::NoAction => None,
        Command::RemoteOpen => Some(ValveState::Flowing),
        Command::RemoteClose => Some(ValveState::Shut),
    }
}

/// The write that carrying out a directive begins with, if it moves the valve.
pub open spec fn opening_write(command: Command) -> Option<PinWrite> {
    match target(command) {
        None => None,
        Some(state) => Some(ValveModel::first_write(state)),
    }
}

/// The device after a directive was taken in.
///
/// - No action: nothing changes.
/// - Remote open: bypass is granted, the allowance cleared, and the valve
///   begins to open.
/// - Remote close: the allowance is cleared and the valve begins to shut. The
///   grant is left as it is, unless the device is set up to let a remote close
///   cancel it.
pub open spec fn directed(
    device: DeviceModel,
    command: Command,
    close_clears_bypass: bool,
) -> DeviceModel {
    match command {
        Command::NoAction => device,
        Command::RemoteOpen => DeviceModel {
            granted: true,
            allowance: 0,
            valve: device.valve.begin(ValveState::Flowing),
        },
        Command::RemoteClose => DeviceModel {
            granted: device.granted && !close_clears_bypass,
            allowance: 0,
            valve: device.valve.begin(ValveState::Shut),
        },
    }
}

/// Takes in a directive: updates the grant and the allowance, begins the valve
/// transition that the directive asks for, and returns its first write.
pub fn interpret(
    command: Command,
    close_clears_bypass: bool,
    grant: &mut BypassGrant,
    tracker: &mut AllowanceTracker,
    valve: &mut ValveSystem,
) -> (write: Option<PinWrite>)
    ensures
        (DeviceModel { granted: final(grant)@, allowance: final(tracker)@, valve: final(valve)@ })
            == directed(
            DeviceModel { granted: old(grant)@, allowance: old(tracker)@, valve: old(valve)@ },
            command,
            close_clears_bypass,
        ),
        write == opening_write(command),
{
    match command {
        Command::NoAction => None,
        Command::RemoteOpen => {
            grant.grant();
            tracker.reset();
            Some(valve.start_flow())
        },
        Command::RemoteClose => {
            if close_clears_bypass {
                grant.cancel();
            }
            tracker.reset();
            Some(valve.stop_flow())
        },
    }
}

/// A second remote close changes nothing. Once the valve has settled after a
/// remote close, another one leaves the grant, the allowance and both outputs
/// of the valve as they are, however the writes of the second one go.
pub proof fn lemma_remote_close_twice_is_remote_close_once(
    device: DeviceModel,
    close_clears_bypass: bool,
    control_ok: bool,
    indicator_ok: bool,
)
    ensures
        ({
            let first = directed(device, Command::RemoteClose, close_clears_bypass);
            let once = DeviceModel { valve: first.valve.written(true).written(true), ..first };
            let second = directed(once, Command::RemoteClose, close_clears_bypass);
            let twice = DeviceModel {
                valve: second.valve.written(control_ok).written(indicator_ok),
                ..second
            };
            &&& once.valve.state() == ValveState::Shut
            &&& twice == once
        }),
{
}

/// Only a remote open grants bypass, and a remote close takes a grant away
/// only where the device is set up for it.
pub proof fn lemma_directives_and_the_grant(
    device: DeviceModel,
    command: Command,
    close_clears_bypass: bool,
)
    ensures
        ({
            let after = directed(device, command, close_clears_bypass);
            &&& after.granted && !device.granted ==> command == Command::RemoteOpen
            &&& device.granted && !after.granted ==> command == Command::RemoteClose
                && close_clears_bypass
            &&& command != Command::NoAction ==> after.allowance == 0
        }),
{
}

} // verus!
