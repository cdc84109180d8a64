//! The device as a whole.
//!
//! Three tasks run side by side: the flow sensor's task records pulses, the
//! button watcher cancels bypass, and the reporting loop does the rest. They
//! share the flow counter and the bypass grant and nothing else. Each task
//! acts in single indivisible steps; how the steps of different tasks
//! interleave is left open. What is stated here holds for every interleaving.

use vstd::prelude::*;
use crate::flow::{count_after, drained, pulsed, CounterEvent};
use crate::leak::{decision, next_allowance};
use crate::protocol::{Command, STATUS_REMOTE_CLOSE, STATUS_REMOTE_OPEN};
use crate::reporting::{
    lemma_directive_settles_the_valve, lemma_phases_follow_in_order, lemma_step_keeps_consistency,
    Event, SystemModel,
};
use crate::valve::{ValveModel, ValveState};

verus! {

/// One step of one task.
pub enum Stimulus {
    /// The flow sensor's task records a pulse.
    Pulse,
    /// The button watcher takes a press of the bypass button.
    Press,
    /// The reporting loop takes an event.
    Loop(Event),
}

/// The system after one step of one task.
pub open spec fn react(system: SystemModel, stimulus: Stimulus) -> SystemModel {
    match stimulus {
        Stimulus::Pulse => SystemModel { ticks: pulsed(system.ticks), ..system },
        Stimulus::Press => SystemModel { granted: false, ..system },
        Stimulus::Loop(event) => system.next(event).system,
    }
}

/// Whether a step begins a sampling period.
pub open spec fn begins_period(system: SystemModel, stimulus: Stimulus) -> bool {
    stimulus matches Stimulus::Loop(event) && system.next(event).action is SampleTap
}

/// Whether a step sends a report.
pub open spec fn sends_report(system: SystemModel, stimulus: Stimulus) -> bool {
    stimulus matches Stimulus::Loop(event) && system.next(event).action is Send
}

/// The system after a history of steps, in the order they took place.
pub open spec fn run(system: SystemModel, history: Seq<Stimulus>) -> SystemModel
    decreases history.len(),
{
    if history.len() == 0 {
        system
    } else {
        react(run(system, history.drop_last()), history.last())
    }
}

/// The number of sampling periods begun in the course of a history.
pub open spec fn periods_begun(system: SystemModel, history: Seq<Stimulus>) -> nat
    decreases history.len(),
{
    if history.len() == 0 {
        0
    } else {
        let earlier = periods_begun(system, history.drop_last());
        if begins_period(run(system, history.drop_last()), history.last()) {
            earlier + 1
        } else {
            earlier
        }
    }
}

/// The number of reports sent in the course of a history.
pub open spec fn reports_sent(system: SystemModel, history: Seq<Stimulus>) -> nat
    decreases history.len(),
{
    if history.len() == 0 {
        0
    } else {
        let earlier = reports_sent(system, history.drop_last());
        if sends_report(run(system, history.drop_last()), history.last()) {
            earlier + 1
        } else {
            earlier
        }
    }
}

/// One if a period is under way whose report has not gone out, else zero.
pub open spec fn reports_owed(system: SystemModel) -> nat {
    if system.task.owes_report() {
        1
    } else {
        0
    }
}

/// The valve, the allowance and the phase belong to the reporting loop: a
/// pulse or a press of the button leaves the loop and its valve untouched, a
/// pulse leaves the grant alone, and a press leaves the counter alone.
pub proof fn lemma_other_tasks_leave_the_loop_alone(system: SystemModel)
    ensures
        react(system, Stimulus::Pulse).task == system.task,
        react(system, Stimulus::Pulse).granted == system.granted,
        react(system, Stimulus::Press).task == system.task,
        react(system, Stimulus::Press).ticks == system.ticks,
{
}

/// A press of the button with no grant standing changes nothing, and a second
/// press right after a first changes nothing either.
pub proof fn lemma_press_without_grant_changes_nothing(system: SystemModel)
    ensures
        !system.granted ==> react(system, Stimulus::Press) == system,
        react(react(system, Stimulus::Press), Stimulus::Press) == react(system, Stimulus::Press),
{
}

/// A standing grant falls only to a press of the button, unless the device
/// is set up to let a remote close cancel it; then it also falls to the
/// answer that carries a remote close.
pub proof fn lemma_grant_falls_only_to_cancellation(system: SystemModel, stimulus: Stimulus)
    requires
        system.granted,
        !react(system, stimulus).granted,
    ensures
        stimulus is Press || (system.task.policy.close_clears_bypass && stimulus
            == Stimulus::Loop(Event::Responded { status: STATUS_REMOTE_CLOSE })),
{
}

/// However the tasks interleave, the loop stays consistent.
pub proof fn lemma_run_keeps_consistency(system: SystemModel, history: Seq<Stimulus>)
    requires
        system.task.consistent(),
    ensures
        run(system, history).task.consistent(),
    decreases history.len(),
{
    if history.len() > 0 {
        lemma_run_keeps_consistency(system, history.drop_last());
        let before = run(system, history.drop_last());
        match history.last() {
            Stimulus::Loop(event) => {
                lemma_step_keeps_consistency(before, event);
            },
            _ => {},
        }
    }
}

/// However the tasks interleave, every period yields one report and no more.
/// The reports sent and the periods begun go in step: they differ by the one
/// period that is under way, if one is, and a loop that halts in the middle
/// of a period leaves that one period without its report.
pub proof fn lemma_one_report_per_period(system: SystemModel, history: Seq<Stimulus>)
    ensures
        ({
            let end = run(system, history);
            let begun = periods_begun(system, history) + reports_owed(system);
            let sent = reports_sent(system, history);
            &&& sent <= begun <= sent + 1
            &&& !(end.task.phase is Halted) ==> begun == sent + reports_owed(end)
        }),
    decreases history.len(),
{
    if history.len() > 0 {
        lemma_one_report_per_period(system, history.drop_last());
        let before = run(system, history.drop_last());
        match history.last() {
            Stimulus::Loop(event) => {
                lemma_phases_follow_in_order(before, event);
            },
            _ => {},
        }
    }
}

/// A loop that was halted at the start of a history is halted at its end.
pub proof fn lemma_halted_run_stays_halted(system: SystemModel, history: Seq<Stimulus>)
    requires
        system.task.phase is Halted,
    ensures
        run(system, history).task == system.task,
    decreases history.len(),
{
    if history.len() > 0 {
        lemma_halted_run_stays_halted(system, history.drop_last());
    }
}

/// Whether an event makes the loop drain the flow counter: whether it is the
/// tap sample that a period is waiting for.
pub open spec fn drains(system: SystemModel, event: Event) -> bool {
    system.task.phase is Sampling && system.task.outbox is None && event is TapSampled
}

/// What a history of the system looks like from the flow counter: the pulses
/// of the sensor's task and the drains of the reporting loop, in their order.
pub open spec fn counter_events(system: SystemModel, history: Seq<Stimulus>) -> Seq<CounterEvent>
    decreases history.len(),
{
    if history.len() == 0 {
        Seq::empty()
    } else {
        let earlier = counter_events(system, history.drop_last());
        match history.last() {
            Stimulus::Pulse => earlier.push(CounterEvent::Pulse),
            Stimulus::Press => earlier,
            Stimulus::Loop(event) => if drains(run(system, history.drop_last()), event) {
                earlier.push(CounterEvent::Drain)
            } else {
                earlier
            },
        }
    }
}

/// Within the system the flow counter sees pulses and drains and nothing
/// else: however the tasks interleave, it holds what a counter holds after the
/// pulses of the sensor's task and the drains of the loop. So each sample of
/// the loop takes the pulses recorded since the sample before it.
pub proof fn lemma_counter_sees_pulses_and_drains(system: SystemModel, history: Seq<Stimulus>)
    ensures
        run(system, history).ticks == count_after(system.ticks, counter_events(system, history)),
    decreases history.len(),
{
    if history.len() > 0 {
        lemma_counter_sees_pulses_and_drains(system, history.drop_last());
        let earlier = counter_events(system, history.drop_last());
        let before = run(system, history.drop_last());
        match history.last() {
            Stimulus::Pulse => {
                assert(earlier.push(CounterEvent::Pulse).drop_last() =~= earlier);
            },
            Stimulus::Press => {},
            Stimulus::Loop(event) => {
                lemma_phases_follow_in_order(before, event);
                if drains(before, event) {
                    assert(earlier.push(CounterEvent::Drain).drop_last() =~= earlier);
                }
            },
        }
    }
}

/// Whether the service tells the device to open the valve nowhere in a history.
pub open spec fn without_remote_open(history: Seq<Stimulus>) -> bool {
    forall|at: int|
        0 <= at < history.len() ==> #[trigger] history[at] != Stimulus::Loop(
            Event::Responded { status: STATUS_REMOTE_OPEN },
        )
}

/// The valve is shut, and is not about to open.
pub open spec fn shut_to_stay(valve: ValveModel) -> bool {
    valve.state() == ValveState::Shut && valve.pending != Some(
        ValveModel::first_write(ValveState::Flowing),
    )
}

/// A shut valve stays shut until the service opens it. Whatever the tasks do
/// and however they interleave, nothing but a remote open moves a shut valve:
/// no sample, no press of the button, no failed write, no other directive.
pub proof fn lemma_shut_valve_stays_shut(system: SystemModel, history: Seq<Stimulus>)
    requires
        shut_to_stay(system.task.valve),
        without_remote_open(history),
    ensures
        shut_to_stay(run(system, history).task.valve),
    decreases history.len(),
{
    if history.len() > 0 {
        let earlier = history.drop_last();
        assert forall|at: int| 0 <= at < earlier.len() implies #[trigger] earlier[at]
            != Stimulus::Loop(Event::Responded { status: STATUS_REMOTE_OPEN }) by {
            assert(earlier[at] == history[at]);
        }
        lemma_shut_valve_stays_shut(system, earlier);
        assert(history.last() == history[history.len() - 1]);
    }
}

/// The system after the loop has taken in a remote close and both writes of
/// it have succeeded.
pub open spec fn after_remote_close(system: SystemModel) -> SystemModel {
    system.next(Event::Responded { status: STATUS_REMOTE_CLOSE }).system.next(
        Event::PinWritten { ok: true },
    ).system.next(Event::PinWritten { ok: true }).system
}

/// Two remote closes leave the valve as one does. After the first the valve
/// is shut with its indicator lit; it stays shut through whatever happens
/// before the second, short of a remote open; and the second leaves the
/// actuator exactly as the first left it.
pub proof fn lemma_second_remote_close_changes_nothing(
    system: SystemModel,
    between: Seq<Stimulus>,
)
    requires
        system.task.phase is Registering || system.task.phase is Reporting,
        without_remote_open(between),
        run(after_remote_close(system), between).task.phase is Reporting,
    ensures
        ({
            let once = after_remote_close(system);
            let later = run(once, between);
            let twice = after_remote_close(later);
            &&& once.task.valve.state() == ValveState::Shut
            &&& once.task.valve.mirrored()
            &&& later.task.valve.state() == ValveState::Shut
            &&& twice.task.valve == once.task.valve
        }),
{
    let once = after_remote_close(system);
    lemma_directive_settles_the_valve(system, Command::RemoteClose);
    lemma_shut_valve_stays_shut(once, between);
    lemma_directive_settles_the_valve(run(once, between), Command::RemoteClose);
}

/// The allowance belongs to the loop and moves in three ways only: a sample
/// with the tap open or a directive clears it, and a leak candidate adds one.
/// It grows on no other occasion than a sample.
pub proof fn lemma_allowance_grows_only_on_samples(system: SystemModel, stimulus: Stimulus)
    ensures
        ({
            let before = system.task.allowance;
            let after = react(system, stimulus).task.allowance;
            ||| after == before
            ||| after == 0
            ||| stimulus matches Stimulus::Loop(event) && drains(system, event) && after
                == next_allowance(before)
        }),
        stimulus matches Stimulus::Loop(Event::TapSampled { closed }) && drains(
            system,
            Event::TapSampled { closed },
        ) && !closed ==> react(system, stimulus).task.allowance == 0,
{
}

/// Once cleared, the allowance is still clear when the next sample is taken,
/// whatever happens in between. A sample with the tap open clears it; so the
/// sample that follows one with the tap open starts from zero, however long
/// the run of leak candidates was before.
pub proof fn lemma_cleared_allowance_lasts_until_the_next_sample(
    system: SystemModel,
    history: Seq<Stimulus>,
)
    requires
        system.task.allowance == 0,
        !drained(counter_events(system, history)),
    ensures
        run(system, history).task.allowance == 0,
    decreases history.len(),
{
    if history.len() > 0 {
        let earlier = history.drop_last();
        let before = run(system, earlier);
        let seen = counter_events(system, earlier);
        match history.last() {
            Stimulus::Pulse => {
                assert(seen.push(CounterEvent::Pulse).drop_last() =~= seen);
            },
            Stimulus::Press => {},
            Stimulus::Loop(event) => {
                if drains(before, event) {
                    assert(seen.push(CounterEvent::Drain).last() is Drain);
                }
            },
        }
        lemma_cleared_allowance_lasts_until_the_next_sample(system, earlier);
        lemma_allowance_grows_only_on_samples(before, history.last());
    }
}

/// The valve begins to shut on two occasions only: the service says so, or a
/// sample finds a leak that exceeds the tolerance while no bypass is granted.
/// Under bypass nothing but the service shuts the valve.
pub proof fn lemma_valve_shuts_only_on_leak_or_remote_close(system: SystemModel, stimulus: Stimulus)
    requires
        !(system.task.phase is Halted),
        react(system, stimulus).task.valve.pending == Some(
            ValveModel::first_write(ValveState::Shut),
        ),
        system.task.valve.pending != Some(ValveModel::first_write(ValveState::Shut)),
    ensures
        ({
            ||| stimulus == Stimulus::Loop(Event::Responded { status: STATUS_REMOTE_CLOSE })
            ||| stimulus matches Stimulus::Loop(Event::TapSampled { closed }) && drains(
                system,
                Event::TapSampled { closed },
            ) && !system.granted && decision(
                closed,
                system.ticks,
                system.granted,
                system.task.allowance,
                system.task.policy.threshold,
                system.task.policy.tolerance,
            ).actuate
        }),
{
}

} // verus!
