//! The reporting loop.
//!
//! Once per sampling period the loop drains the flow counter, samples the tap,
//! decides whether the period's flow is a leak, reports to the service, and
//! carries out the directive that comes back. Before its first period it
//! registers with the service and carries out the directive of that answer, so
//! that the device starts in the state the service last meant it to have.
//!
//! The loop performs no I/O. It is a state machine: it is given an event, and
//! answers with the next action for its caller to perform. The outcome of that
//! action is the next event.

use vstd::prelude::*;
use crate::bypass::BypassGrant;
use crate::command::{directed, interpret, opening_write, target, DeviceModel};
use crate::flow::FlowCounter;
use crate::leak::{decision, AllowanceTracker};
use crate::policy::{flow_rate, Policy, PolicyModel};
use crate::protocol::{Command, DeviceIdentity, Report};
use crate::valve::{Level, PinWrite, Progress, ValveFault, ValveModel, ValveState, ValveSystem};

verus! {

/// Why the loop came to a halt. Every fault is fatal: the device keeps no
/// state worth saving, and starts over from registration.
#[derive(Clone, Copy, Debug, PartialEq, Eq, Structural)]
pub enum Fault {
    /// A write to an output of the valve failed.
    Actuator(ValveFault),
    /// The service could not be reached, or the exchange broke down.
    Transport,
    /// The service answered with a status that the protocol does not know.
    Protocol { status: u16 },
    /// An event arrived that the loop was not waiting for.
    OutOfTurn,
}

/// Where the loop stands.
#[derive(Clone, Copy, Debug, PartialEq, Eq, Structural)]
pub enum Phase {
    /// The registration is on its way; its answer is awaited.
    Registering,
    /// The next period has not begun; the timer is awaited.
    Sleeping,
    /// The period's sample is being taken: the tap is awaited, or the writes
    /// that shut the valve on a leak.
    Sampling,
    /// The report is on its way; its answer is awaited.
    Reporting,
    /// The directive of the answer is being carried out; its writes are awaited.
    Applying,
    /// The loop has stopped for good.
    Halted(Fault),
}

/// What the caller tells the loop.
#[derive(Clone, Copy, Debug, PartialEq, Eq, Structural)]
pub enum Event {
    /// The sampling period is over.
    TimerFired,
    /// The tap was sampled, and found closed or open.
    TapSampled { closed: bool },
    /// The write last asked for was done, or failed.
    PinWritten { ok: bool },
    /// The service answered the request last sent with this status.
    Responded { status: u16 },
    /// The request last sent got no answer.
    TransportFailed,
}

/// What the loop asks of its caller.
#[derive(Clone, Copy, Debug, PartialEq, Eq)]
pub enum Action {
    /// Post the identity to register, then report the answer.
    Register(DeviceIdentity),
    /// Wait for the sampling period to pass.
    AwaitTimer,
    /// Sample the tap.
    SampleTap,
    /// Perform this write on an output of the valve.
    Write(PinWrite),
    /// Post this report, then report the answer.
    Send(Report),
    /// Stop: the loop has met this fault.
    Halt(Fault),
}

/// The loop, as plain values.
pub struct LoopModel {
    /// The identity sent with every request.
    pub identity: DeviceIdentity,
    /// The parameters in force.
    pub policy: PolicyModel,
    /// Where the loop stands.
    pub phase: Phase,
    /// The allowance used up by leak candidates.
    pub allowance: u8,
    /// The valve actuator.
    pub valve: ValveModel,
    /// The report of this period, held back while the valve is being shut.
    pub outbox: Option<Report>,
}

/// The loop together with the two cells it shares with the other tasks.
pub struct SystemModel {
    /// The loop itself.
    pub task: LoopModel,
    /// The pulses on hold in the flow counter.
    pub ticks: u16,
    /// Whether bypass is granted.
    pub granted: bool,
}

/// A step of the loop: the system after it, and the action it asks for.
pub struct Transition {
    pub system: SystemModel,
    pub action: Action,
}

impl SystemModel {
    /// The system with the loop in another phase.
    pub open spec fn enter(self, phase: Phase) -> SystemModel {
        SystemModel { task: LoopModel { phase, ..self.task }, ..self }
    }

    /// The system with the valve actuator replaced.
    pub open spec fn with_valve(self, valve: ValveModel) -> SystemModel {
        SystemModel { task: LoopModel { valve, ..self.task }, ..self }
    }

    /// The loop stops on a fault.
    pub open spec fn halt(self, fault: Fault) -> Transition {
        Transition { system: self.enter(Phase::Halted(fault)), action: Action::Halt(fault) }
    }

    /// The part of the system that directives act on.
    pub open spec fn device(self) -> DeviceModel {
        DeviceModel { granted: self.granted, allowance: self.task.allowance, valve: self.task.valve }
    }

    /// The report of a period in which `ticks` pulses were counted.
    pub open spec fn report_of(self, leak: bool, ticks: u16) -> Report {
        Report {
            identity: self.task.identity,
            leak,
            flow_rate: flow_rate(ticks, self.task.policy.period_seconds),
        }
    }

    /// The tap was sampled. The counter is drained and the sample decided. On
    /// a leak that calls for it the valve begins to shut and the report waits
    /// for the valve; otherwise the report goes out at once.
    pub open spec fn sample(self, closed: bool) -> Transition {
        let outcome = decision(
            closed,
            self.ticks,
            self.granted,
            self.task.allowance,
            self.task.policy.threshold,
            self.task.policy.tolerance,
        );
        let report = self.report_of(outcome.leak, self.ticks);
        if outcome.actuate {
            Transition {
                system: SystemModel {
                    task: LoopModel {
                        allowance: outcome.allowance,
                        valve: self.task.valve.begin(ValveState::Shut),
                        outbox: Some(report),
                        ..self.task
                    },
                    ticks: 0,
                    granted: self.granted,
                },
                action: Action::Write(ValveModel::first_write(ValveState::Shut)),
            }
        } else {
            Transition {
                system: SystemModel {
                    task: LoopModel {
                        allowance: outcome.allowance,
                        phase: Phase::Reporting,
                        ..self.task
                    },
                    ticks: 0,
                    granted: self.granted,
                },
                action: Action::Send(report),
            }
        }
    }

    /// A write of the transition under way was reported. The transition goes
    /// on with its next write; once it has settled, the loop enters `then` and
    /// asks for `action`; a failed write halts the loop.
    pub open spec fn written(self, ok: bool, then: Phase, action: Action) -> Transition {
        let moved = self.with_valve(self.task.valve.written(ok));
        match self.task.valve.progress(ok) {
            Progress::Write(write) => Transition { system: moved, action: Action::Write(write) },
            Progress::Settled => Transition {
                system: SystemModel {
                    task: LoopModel { phase: then, outbox: None, ..moved.task },
                    ..moved
                },
                action,
            },
            Progress::Failed(fault) => moved.halt(Fault::Actuator(fault)),
        }
    }

    /// The service answered a registration or a report. A status outside the
    /// protocol halts the loop. A directive is taken in; if it moves the valve
    /// the loop carries it out, otherwise it goes to sleep.
    pub open spec fn respond(self, status: u16) -> Transition {
        match Command::of_status(status) {
            None => self.halt(Fault::Protocol { status }),
            Some(command) => {
                let device = directed(self.device(), command, self.task.policy.close_clears_bypass);
                let taken = SystemModel {
                    task: LoopModel {
                        allowance: device.allowance,
                        valve: device.valve,
                        ..self.task
                    },
                    ticks: self.ticks,
                    granted: device.granted,
                };
                match opening_write(command) {
                    None => Transition {
                        system: taken.enter(Phase::Sleeping),
                        action: Action::AwaitTimer,
                    },
                    Some(write) => Transition {
                        system: taken.enter(Phase::Applying),
                        action: Action::Write(write),
                    },
                }
            },
        }
    }

    /// The step that the loop takes on an event.
    ///
    /// Each phase waits for its own events. Any other event halts the loop, and
    /// a halted loop answers every event with the fault it halted on.
    pub open spec fn next(self, event: Event) -> Transition {
        match self.task.phase {
            Phase::Halted(fault) => Transition { system: self, action: Action::Halt(fault) },
            Phase::Registering => match event {
                Event::Responded { status } => self.respond(status),
                Event::TransportFailed => self.halt(Fault::Transport),
                _ => self.halt(Fault::OutOfTurn),
            },
            Phase::Sleeping => match event {
                Event::TimerFired => Transition {
                    system: self.enter(Phase::Sampling),
                    action: Action::SampleTap,
                },
                _ => self.halt(Fault::OutOfTurn),
            },
            Phase::Sampling => match (event, self.task.outbox) {
                (Event::TapSampled { closed }, None) => self.sample(closed),
                (Event::PinWritten { ok }, Some(report)) => self.written(
                    ok,
                    Phase::Reporting,
                    Action::Send(report),
                ),
                _ => self.halt(Fault::OutOfTurn),
            },
            Phase::Reporting => match event {
                Event::Responded { status } => self.respond(status),
                Event::TransportFailed => self.halt(Fault::Transport),
                _ => self.halt(Fault::OutOfTurn),
            },
            Phase::Applying => match event {
                Event::PinWritten { ok } => self.written(ok, Phase::Sleeping, Action::AwaitTimer),
                _ => self.halt(Fault::OutOfTurn),
            },
        }
    }
}

/// The reporting loop of one device.
///
/// The loop owns the valve actuator and the allowance. The flow counter and
/// the bypass grant belong to no single task and are lent to each step.
pub struct ReportingLoop {
    identity: DeviceIdentity,
    policy: Policy,
    phase: Phase,
    tracker: AllowanceTracker,
    valve: ValveSystem,
    outbox: Option<Report>,
}

impl View for ReportingLoop {
    type V = LoopModel;

    closed spec fn view(&self) -> LoopModel {
        LoopModel {
            identity: self.identity,
            policy: self.policy@,
            phase: self.phase,
            allowance: self.tracker@,
            valve: self.valve@,
            outbox: self.outbox,
        }
    }
}

impl ReportingLoop {
    /// The loop of a device that has just joined the network under
    /// `identity`, together with its first action: to register.
    pub fn join(identity: DeviceIdentity, policy: Policy, valve: ValveSystem) -> (start: (
        Self,
        Action,
    ))
        ensures
            start.0@ == (LoopModel {
                identity,
                policy: policy@,
                phase: Phase::Registering,
                allowance: 0,
                valve: valve@,
                outbox: None,
            }),
            start.1 == Action::Register(identity),
    {
        let task = ReportingLoop {
            identity,
            policy,
            phase: Phase::Registering,
            tracker: AllowanceTracker::new(),
            valve,
            outbox: None,
        };
        (task, Action::Register(identity))
    }

    /// Where the loop stands.
    pub fn phase(&self) -> (phase: Phase)
        ensures
            phase == self@.phase,
    {
        self.phase
    }

    /// The state of the valve, as the control line holds it.
    pub fn valve_state(&self) -> (state: ValveState)
        ensures
            state == self@.valve.state(),
    {
        self.valve.state()
    }

    /// Whether the indicator of the valve is lit.
    pub fn indicator_lit(&self) -> (lit: bool)
        ensures
            lit == (self@.valve.indicator == Level::High),
    {
        self.valve.indicator_lit()
    }

    /// The allowance used up by leak candidates so far.
    pub fn allowance(&self) -> (allowance: u8)
        ensures
            allowance == self@.allowance,
    {
        self.tracker.allowance()
    }

    /// Stops the loop on a fault.
    fn halt(&mut self, fault: Fault) -> (action: Action)
        ensures
            final(self)@ == (LoopModel { phase: Phase::Halted(fault), ..old(self)@ }),
            action == Action::Halt(fault),
    {
        self.phase = Phase::Halted(fault);
        Action::Halt(fault)
    }

    /// Takes the period's sample.
    fn sample(&mut self, closed: bool, counter: &mut FlowCounter, grant: &BypassGrant) -> (action:
        Action)
        ensures
            (Transition {
                system: SystemModel {
                    task: final(self)@,
                    ticks: final(counter)@,
                    granted: grant@,
                },
                action,
            }) == (SystemModel { task: old(self)@, ticks: old(counter)@, granted: grant@ }).sample(
                closed,
            ),
    {
        let ticks: u16 = counter.drain();
        let outcome = self.tracker.observe(
            closed,
            ticks,
            grant.is_granted(),
            self.policy.threshold(),
            self.policy.tolerance(),
        );
        let report = Report {
            identity: self.identity,
            leak: outcome.leak,
            flow_rate: self.policy.flow_rate(ticks),
        };
        if outcome.actuate {
            self.outbox = Some(report);
            Action::Write(self.valve.stop_flow())
        } else {
            self.phase = Phase::Reporting;
            Action::Send(report)
        }
    }

    /// Takes note of a write of the transition under way.
    fn written(&mut self, ok: bool, then: Phase, action: Action) -> (next: Action)
        ensures
            forall|ticks: u16, granted: bool|
                #![trigger (SystemModel { task: old(self)@, ticks, granted }).written(ok, then, action)]
                (Transition { system: SystemModel { task: final(self)@, ticks, granted }, action: next })
                    == (SystemModel { task: old(self)@, ticks, granted }).written(ok, then, action),
    {
        match self.valve.written(ok) {
            Progress::Write(write) => Action::Write(write),
            Progress::Settled => {
                self.phase = then;
                self.outbox = None;
                action
            },
            Progress::Failed(fault) => self.halt(Fault::Actuator(fault)),
        }
    }

    /// Takes in the answer to a registration or a report.
    fn respond(&mut self, status: u16, grant: &mut BypassGrant) -> (action: Action)
        ensures
            forall|ticks: u16|
                #![trigger (SystemModel { task: old(self)@, ticks, granted: old(grant)@ }).respond(status)]
                (Transition {
                    system: SystemModel { task: final(self)@, ticks, granted: final(grant)@ },
                    action,
                }) == (SystemModel { task: old(self)@, ticks, granted: old(grant)@ }).respond(status),
    {
        match Command::from_status(status) {
            None => self.halt(Fault::Protocol { status }),
            Some(command) => {
                let write = interpret(
                    command,
                    self.policy.close_clears_bypass(),
                    grant,
                    &mut self.tracker,
                    &mut self.valve,
                );
                match write {
                    None => {
                        self.phase = Phase::Sleeping;
                        Action::AwaitTimer
                    },
                    Some(write) => {
                        self.phase = Phase::Applying;
                        Action::Write(write)
                    },
                }
            },
        }
    }

    /// Advances the loop by one event and returns the action to perform next.
    ///
    /// The flow counter is drained when, and only when, the tap sample of a
    /// period comes in. The grant is read for that sample and written when a
    /// directive says so.
    pub fn step(&mut self, event: Event, counter: &mut FlowCounter, grant: &mut BypassGrant) -> (action:
        Action)
        ensures
            (Transition {
                system: SystemModel {
                    task: final(self)@,
                    ticks: final(counter)@,
                    granted: final(grant)@,
                },
                action,
            }) == (SystemModel {
                task: old(self)@,
                ticks: old(counter)@,
                granted: old(grant)@,
            }).next(event),
    {
        match self.phase {
            Phase::Halted(fault) => Action::Halt(fault),
            Phase::Registering | Phase::Reporting => match event {
                Event::Responded { status } => self.respond(status, grant),
                Event::TransportFailed => self.halt(Fault::Transport),
                _ => self.halt(Fault::OutOfTurn),
            },
            Phase::Sleeping => match event {
                Event::TimerFired => {
                    self.phase = Phase::Sampling;
                    Action::SampleTap
                },
                _ => self.halt(Fault::OutOfTurn),
            },
            Phase::Sampling => match (event, self.outbox) {
                (Event::TapSampled { closed }, None) => self.sample(closed, counter, grant),
                (Event::PinWritten { ok }, Some(report)) => self.written(
                    ok,
                    Phase::Reporting,
                    Action::Send(report),
                ),
                _ => self.halt(Fault::OutOfTurn),
            },
            Phase::Applying => match event {
                Event::PinWritten { ok } => self.written(ok, Phase::Sleeping, Action::AwaitTimer),
                _ => self.halt(Fault::OutOfTurn),
            },
        }
    }
}

impl LoopModel {
    /// The report on hold and the valve agree with the phase: a write is
    /// awaited exactly while the valve is being shut on a leak, with the report
    /// on hold, or while a directive is being carried out.
    pub open spec fn consistent(self) -> bool {
        match self.phase {
            Phase::Registering | Phase::Sleeping | Phase::Reporting => self.outbox is None
                && self.valve.idle(),
            Phase::Sampling => (self.outbox is Some) == !self.valve.idle(),
            Phase::Applying => self.outbox is None && !self.valve.idle(),
            Phase::Halted(_) => true,
        }
    }

    /// Whether a period has begun whose report has not gone out.
    pub open spec fn owes_report(self) -> bool {
        self.phase is Sampling
    }
}

/// Every step keeps the loop consistent, and unless it halts the loop it asks
/// for a write exactly when it leaves the valve in the middle of a transition.
pub proof fn lemma_step_keeps_consistency(system: SystemModel, event: Event)
    requires
        system.task.consistent(),
    ensures
        system.next(event).system.task.consistent(),
        !(system.next(event).system.task.phase is Halted) ==> (system.next(event).action is Write
            <==> !system.next(event).system.task.valve.idle()),
{
}

/// A freshly joined loop is consistent if its valve is at rest.
pub proof fn lemma_joined_loop_is_consistent(task: LoopModel)
    requires
        task.phase == Phase::Registering,
        task.outbox is None,
        task.valve.idle(),
    ensures
        task.consistent(),
{
}

/// A halted loop stays halted: it changes nothing and keeps answering with
/// the fault it halted on.
pub proof fn lemma_halt_is_final(system: SystemModel, fault: Fault, event: Event)
    requires
        system.task.phase == Phase::Halted(fault),
    ensures
        system.next(event).system == system,
        system.next(event).action == Action::Halt(fault),
{
}

/// The phases follow one another in a fixed order. A period begins on the
/// timer and in no other way; a report goes out exactly when the loop passes
/// from sampling to reporting; the counter is drained exactly when the tap
/// sample of the period comes in.
pub proof fn lemma_phases_follow_in_order(system: SystemModel, event: Event)
    ensures
        ({
            let before = system.task.phase;
            let step = system.next(event);
            let after = step.system.task.phase;
            &&& step.action is SampleTap <==> before is Sleeping && after is Sampling
            &&& step.action is SampleTap <==> before is Sleeping && event is TimerFired
            &&& step.action is Send <==> before is Sampling && after is Reporting
            &&& step.action is AwaitTimer <==> !(before is Sleeping) && after is Sleeping
            &&& after is Sampling ==> before is Sleeping || before is Sampling
            &&& after is Reporting ==> before is Sampling
            &&& after is Applying ==> before is Registering || before is Reporting || before
                is Applying
            &&& after is Sleeping ==> before is Registering || before is Reporting || before
                is Applying
            &&& after is Registering ==> false
            &&& step.action is Register ==> false
            &&& step.system.ticks != system.ticks ==> before is Sampling && event is TapSampled
                && step.system.ticks == 0
            &&& before is Sampling && event is TapSampled && system.task.outbox is None
                ==> step.system.ticks == 0
        }),
{
}

/// The report of a period carries the identity of the device, the decision on
/// the period's sample, and the drained pulses as a rate.
pub proof fn lemma_report_carries_the_sample(system: SystemModel, closed: bool)
    requires
        system.task.phase is Sampling,
        system.task.outbox is None,
    ensures
        ({
            let outcome = decision(
                closed,
                system.ticks,
                system.granted,
                system.task.allowance,
                system.task.policy.threshold,
                system.task.policy.tolerance,
            );
            let report = system.report_of(outcome.leak, system.ticks);
            let step = system.next(Event::TapSampled { closed });
            &&& step.system.task.allowance == outcome.allowance
            &&& !outcome.actuate ==> step.action == Action::Send(report) && step.system.task.valve
                == system.task.valve
            &&& outcome.actuate ==> step.action == Action::Write(
                ValveModel::first_write(ValveState::Shut),
            ) && step.system.task.outbox == Some(report)
            &&& system.granted ==> !(step.action is Write)
        }),
{
}

/// A directive that moves the valve is carried out in two writes. If both
/// succeed the valve has settled in the state that the directive asks for,
/// with the indicator in step and the allowance cleared, and the loop goes to
/// sleep, whatever the valve was doing before. A remote open leaves bypass
/// granted on top.
pub proof fn lemma_directive_settles_the_valve(system: SystemModel, command: Command)
    requires
        system.task.phase is Registering || system.task.phase is Reporting,
        command != Command::NoAction,
    ensures
        ({
            let taken = system.next(Event::Responded { status: command.status_of() });
            let moved = taken.system.next(Event::PinWritten { ok: true });
            let settled = moved.system.next(Event::PinWritten { ok: true });
            &&& taken.action is Write
            &&& moved.action is Write
            &&& settled.action == Action::AwaitTimer
            &&& settled.system.task.phase == Phase::Sleeping
            &&& settled.system.task.allowance == 0
            &&& Some(settled.system.task.valve.state()) == target(command)
            &&& settled.system.task.valve.mirrored()
            &&& settled.system.task.valve.idle()
            &&& command == Command::RemoteOpen ==> settled.system.granted
        }),
{
}

} // verus!
