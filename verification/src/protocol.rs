//! The remote service's protocol, at the level of meaning.
//!
//! The device posts its identity to register, posts a report every period, and
//! posts a notice when a bypass is cancelled. The service answers a
//! registration or a report with one of three directives, told apart by the
//! status of the response. Status codes are read here and nowhere else.

use vstd::prelude::*;

verus! {

/// Status that carries no directive; also the acknowledgement of a notice.
pub const STATUS_NO_ACTION: u16 = 201;

/// Status that tells the device to shut the valve.
pub const STATUS_REMOTE_CLOSE: u16 = 204;

/// Status that tells the device to open the valve and stand by under bypass.
pub const STATUS_REMOTE_OPEN: u16 = 205;

/// Directive of the service, riding on the response to a registration or a report.
#[derive(Clone, Copy, Debug, PartialEq, Eq, Structural)]
pub enum Command {
    /// Do nothing.
    NoAction,
    /// Open the valve and grant bypass.
    RemoteOpen,
    /// Shut the valve.
    RemoteClose,
}

impl Command {
    /// The directive that a response status stands for, if it stands for one.
    pub open spec fn of_status(status: u16) -> Option<Command> {
        if status == STATUS_NO_ACTION {
            Some(Command::NoAction)
        } else if status == STATUS_REMOTE_CLOSE {
            Some(Command::RemoteClose)
        } else if status == STATUS_REMOTE_OPEN {
            Some(Command::RemoteOpen)
        } else {
            None
        }
    }

    /// The status that stands for this directive.
    pub open spec fn status_of(self) -> u16 {
        match self {
            Command::NoAction => STATUS_NO_ACTION,
            Command::RemoteClose => STATUS_REMOTE_CLOSE,
            Command::RemoteOpen => STATUS_REMOTE_OPEN,
        }
    }

    /// Reads the directive out of a response status. Any status but the three
    /// of the protocol is a violation and yields `None`.
    pub fn from_status(status: u16) -> (command: Option<Command>)
        ensures
            command == Self::of_status(status),
    {
        if status == STATUS_NO_ACTION {
            Some(Command::NoAction)
        } else if status == STATUS_REMOTE_CLOSE {
            Some(Command::RemoteClose)
        } else if status == STATUS_REMOTE_OPEN {
            Some(Command::RemoteOpen)
        } else {
            None
        }
    }

    /// The status that the service sends for this directive.
    pub fn status(self) -> (status: u16)
        ensures
            status == self.status_of(),
    {
        match self {
            Command::NoAction => STATUS_NO_ACTION,
            Command::RemoteClose => STATUS_REMOTE_CLOSE,
            Command::RemoteOpen => STATUS_REMOTE_OPEN,
        }
    }
}

/// Whether a response status acknowledges a bypass-cancelled notice.
pub fn notice_acknowledged(status: u16) -> (acknowledged: bool)
    ensures
        acknowledged == (status == STATUS_NO_ACTION),
{
    status == STATUS_NO_ACTION
}

/// Hardware address of the device, fixed when it joins the network and sent
/// with every request.
#[derive(Clone, Copy, Debug, PartialEq, Eq)]
pub struct DeviceIdentity {
    pub address: [u8; 6],
}

/// What the device tells the service once per sampling period.
#[derive(Clone, Copy, Debug, PartialEq, Eq)]
pub struct Report {
    /// Who reports.
    pub identity: DeviceIdentity,
    /// Whether the period's sample was judged a leak.
    pub leak: bool,
    /// Pulses per second over the period, rounded down.
    pub flow_rate: u16,
}

/// Status and directive name each other: reading the status of a directive
/// gives the directive back, and a status that reads as a directive is that
/// directive's status.
pub proof fn lemma_status_names_directive(command: Command, status: u16)
    ensures
        Command::of_status(command.status_of()) == Some(command),
        Command::of_status(status) == Some(command) ==> status == command.status_of(),
        Command::of_status(status) is None <==> status != STATUS_NO_ACTION && status
            != STATUS_REMOTE_CLOSE && status != STATUS_REMOTE_OPEN,
{
}

} // verus!
