//! The shutoff valve and its indicator, moved as one logical unit.
//!
//! The actuator owns two outputs: the control line of the valve and the
//! indicator that shows its state. A transition writes the control line first
//! and the indicator second. The writes themselves are performed by the
//! caller: the actuator hands out one write at a time and is told how it went.

use vstd::prelude::*;

verus! {

/// Electrical level of an output.
#[derive(Clone, Copy, Debug, PartialEq, Eq, Structural)]
pub enum Level {
    Low,
    High,
}

/// Logical state of the valve.
#[derive(Clone, Copy, Debug, PartialEq, Eq, Structural)]
pub enum ValveState {
    /// Water passes.
    Flowing,
    /// Water is cut off.
    Shut,
}

/// One of the two outputs of the actuator.
#[derive(Clone, Copy, Debug, PartialEq, Eq, Structural)]
pub enum Output {
    /// The line that drives the valve.
    Control,
    /// The light that shows a shut valve.
    Indicator,
}

/// A level to put on one output.
#[derive(Clone, Copy, Debug, PartialEq, Eq, Structural)]
pub struct PinWrite {
    pub output: Output,
    pub level: Level,
}

/// The output whose write failed.
#[derive(Clone, Copy, Debug, PartialEq, Eq, Structural)]
pub enum ValveFault {
    /// The control line could not be written; the valve did not move.
    Control,
    /// The valve moved, but the indicator could not follow.
    Indicator,
}

/// Where a transition stands after a write was reported.
#[derive(Clone, Copy, Debug, PartialEq, Eq, Structural)]
pub enum Progress {
    /// The transition goes on with this write.
    Write(PinWrite),
    /// Both outputs were written, or no transition was under way.
    Settled,
    /// A write failed and the transition was abandoned.
    Failed(ValveFault),
}

impl ValveState {
    /// The control level that holds the valve in this state: high lets water pass.
    pub open spec fn control_level(self) -> Level {
        match self {
            ValveState::Flowing => Level::High,
            ValveState::Shut => Level::Low,
        }
    }

    /// The indicator level that shows this state: lit exactly when shut.
    pub open spec fn indicator_level(self) -> Level {
        match self {
            ValveState::Flowing => Level::Low,
            ValveState::Shut => Level::High,
        }
    }

    /// The state that a control level holds the valve in.
    pub open spec fn of_control(level: Level) -> ValveState {
        match level {
            Level::High => ValveState::Flowing,
            Level::Low => ValveState::Shut,
        }
    }
}

/// What the actuator knows of its outputs.
pub struct ValveModel {
    /// Level last written to the control line.
    pub control: Level,
    /// Level last written to the indicator.
    pub indicator: Level,
    /// The write handed out and not yet reported, if a transition is under way.
    pub pending: Option<PinWrite>,
}

impl ValveModel {
    /// The state of the valve. The control line alone decides it.
    pub open spec fn state(self) -> ValveState {
        ValveState::of_control(self.control)
    }

    /// The indicator shows the state of the valve.
    pub open spec fn mirrored(self) -> bool {
        self.indicator == self.state().indicator_level()
    }

    /// No transition is under way.
    pub open spec fn idle(self) -> bool {
        self.pending is None
    }

    /// The first write of a transition towards `target`.
    pub open spec fn first_write(target: ValveState) -> PinWrite {
        PinWrite { output: Output::Control, level: target.control_level() }
    }

    /// The actuator after a transition towards `target` has begun. A transition
    /// that was under way is dropped.
    pub open spec fn begin(self, target: ValveState) -> ValveModel {
        ValveModel { pending: Some(Self::first_write(target)), ..self }
    }

    /// The actuator after the pending write was reported as done (`ok`) or failed.
    pub open spec fn written(self, ok: bool) -> ValveModel {
        match self.pending {
            None => self,
            Some(write) => if !ok {
                ValveModel { pending: None, ..self }
            } else {
                match write.output {
                    Output::Control => ValveModel {
                        control: write.level,
                        indicator: self.indicator,
                        pending: Some(
                            PinWrite {
                                output: Output::Indicator,
                                level: ValveState::of_control(write.level).indicator_level(),
                            },
                        ),
                    },
                    Output::Indicator => ValveModel {
                        control: self.control,
                        indicator: write.level,
                        pending: None,
                    },
                }
            },
        }
    }

    /// What the actuator answers when the pending write is reported.
    pub open spec fn progress(self, ok: bool) -> Progress {
        match self.pending {
            None => Progress::Settled,
            Some(write) => if ok {
                match self.written(true).pending {
                    Some(next) => Progress::Write(next),
                    None => Progress::Settled,
                }
            } else {
                match write.output {
                    Output::Control => Progress::Failed(ValveFault::Control),
                    Output::Indicator => Progress::Failed(ValveFault::Indicator),
                }
            },
        }
    }

    /// The actuator after a whole transition towards `target` in which both
    /// writes succeeded.
    pub open spec fn settled(self, target: ValveState) -> ValveModel {
        self.begin(target).written(true).written(true)
    }
}

/// The valve actuator: the control line, the indicator, and the transition
/// between them that is under way.
pub struct ValveSystem {
    control: Level,
    indicator: Level,
    pending: Option<PinWrite>,
}

impl View for ValveSystem {
    type V = ValveModel;

    closed spec fn view(&self) -> ValveModel {
        ValveModel { control: self.control, indicator: self.indicator, pending: self.pending }
    }
}

impl ValveSystem {
    /// An actuator whose outputs are at rest, both low, as they are before the
    /// first write.
    pub fn new() -> (valve: Self)
        ensures
            valve@ == (ValveModel { control: Level::Low, indicator: Level::Low, pending: None }),
    {
        ValveSystem { control: Level::Low, indicator: Level::Low, pending: None }
    }

    /// Begins to open the valve and returns the first write to perform.
    pub fn start_flow(&mut self) -> (write: PinWrite)
        ensures
            final(self)@ == old(self)@.begin(ValveState::Flowing),
            write == ValveModel::first_write(ValveState::Flowing),
    {
        let write = PinWrite { output: Output::Control, level: Level::High };
        self.pending = Some(write);
        write
    }

    /// Begins to shut the valve and returns the first write to perform.
    pub fn stop_flow(&mut self) -> (write: PinWrite)
        ensures
            final(self)@ == old(self)@.begin(ValveState::Shut),
            write == ValveModel::first_write(ValveState::Shut),
    {
        let write = PinWrite { output: Output::Control, level: Level::Low };
        self.pending = Some(write);
        write
    }

    /// Takes note of how the write last handed out went, and says how the
    /// transition goes on.
    ///
    /// A failed control write leaves both outputs as they were. A failed
    /// indicator write leaves the valve moved and the indicator behind: the
    /// control line stays authoritative.
    pub fn written(&mut self, ok: bool) -> (progress: Progress)
        ensures
            final(self)@ == old(self)@.written(ok),
            progress == old(self)@.progress(ok),
    {
        match self.pending {
            None => Progress::Settled,
            Some(write) => {
                if !ok {
                    self.pending = None;
                    match write.output {
                        Output::Control => Progress::Failed(ValveFault::Control),
                        Output::Indicator => Progress::Failed(ValveFault::Indicator),
                    }
                } else {
                    match write.output {
                        Output::Control => {
                            let level = match write.level {
                                Level::High => Level::Low,
                                Level::Low => Level::High,
                            };
                            let next = PinWrite { output: Output::Indicator, level };
                            self.control = write.level;
                            self.pending = Some(next);
                            Progress::Write(next)
                        },
                        Output::Indicator => {
                            self.indicator = write.level;
                            self.pending = None;
                            Progress::Settled
                        },
                    }
                }
            },
        }
    }

    /// The state of the valve, as the control line holds it.
    pub fn state(&self) -> (state: ValveState)
        ensures
            state == self@.state(),
    {
        match self.control {
            Level::High => ValveState::Flowing,
            Level::Low => ValveState::Shut,
        }
    }

    /// Whether the indicator is lit.
    pub fn indicator_lit(&self) -> (lit: bool)
        ensures
            lit == (self@.indicator == Level::High),
    {
        match self.indicator {
            Level::High => true,
            Level::Low => false,
        }
    }

    /// Whether a transition is under way.
    pub fn is_busy(&self) -> (busy: bool)
        ensures
            busy == !self@.idle(),
    {
        self.pending.is_some()
    }
}

/// A transition in which both writes succeed ends in the target state with the
/// indicator in step, whatever the outputs were before.
pub proof fn lemma_settled_transition_mirrors(valve: ValveModel, target: ValveState)
    ensures
        valve.settled(target).state() == target,
        valve.settled(target).mirrored(),
        valve.settled(target).idle(),
        valve.begin(target).progress(true) == Progress::Write(
            PinWrite { output: Output::Indicator, level: target.indicator_level() },
        ),
        valve.begin(target).written(true).progress(true) == Progress::Settled,
{
}

/// A failed control write leaves the valve where it was; a failed indicator
/// write leaves the valve moved and the indicator untouched.
pub proof fn lemma_failed_write_keeps_control_authoritative(valve: ValveModel, target: ValveState)
    ensures
        valve.begin(target).progress(false) == Progress::Failed(ValveFault::Control),
        valve.begin(target).written(false).control == valve.control,
        valve.begin(target).written(false).indicator == valve.indicator,
        valve.begin(target).written(true).progress(false) == Progress::Failed(ValveFault::Indicator),
        valve.begin(target).written(true).written(false).state() == target,
        valve.begin(target).written(true).written(false).indicator == valve.indicator,
{
}

/// Repeating a transition changes nothing: once the valve has settled in
/// `target`, a second transition towards `target` leaves both outputs as they
/// are, however its writes go.
pub proof fn lemma_repeated_transition_is_idempotent(
    valve: ValveModel,
    target: ValveState,
    control_ok: bool,
    indicator_ok: bool,
)
    ensures
        ({
            let once = valve.settled(target);
            let twice = once.begin(target).written(control_ok).written(indicator_ok);
            twice == once
        }),
{
}

} // verus!
