//! Pulse accumulation for the flow sensor.
//!
//! The sensor's task records one pulse per edge; the reporting loop drains the
//! count once per sampling period. The two tasks interleave freely, and the
//! counter makes sure that every pulse is handed out by exactly one drain.

use vstd::prelude::*;

verus! {

/// Number of distinct values of the pulse count. The count wraps at this
/// bound: periods are short enough that wrapping is of no concern.
pub open spec fn modulus() -> int {
    0x1_0000
}

/// The count after one more pulse.
pub open spec fn pulsed(count: u16) -> u16 {
    ((count + 1) % modulus()) as u16
}

/// Accumulator of flow-sensor pulses.
///
/// Every operation takes the counter by exclusive borrow, so each is one
/// indivisible exchange: a pulse lands before a drain or after it, never in
/// its middle.
pub struct FlowCounter {
    ticks: u16,
}

impl View for FlowCounter {
    type V = u16;

    /// The pulses on hold: those recorded since the last drain.
    closed spec fn view(&self) -> u16 {
        self.ticks
    }
}

impl FlowCounter {
    /// A counter that has seen no pulse.
    pub fn new() -> (counter: Self)
        ensures
            counter@ == 0,
    {
        FlowCounter { ticks: 0 }
    }

    /// Counts one pulse. Never blocks, never fails; the count wraps.
    pub fn record_pulse(&mut self)
        ensures
            final(self)@ == pulsed(old(self)@),
    {
        self.ticks = self.ticks.wrapping_add(1);
    }

    /// Hands out the pulses on hold and starts over from zero, in one exchange.
    pub fn drain(&mut self) -> (ticks: u16)
        ensures
            ticks == old(self)@,
            final(self)@ == 0,
    {
        let ticks: u16 = self.ticks;
        self.ticks = 0;
        ticks
    }
}

/// Takes the pulses recorded since they were last taken.
pub fn take_ticks(counter: &mut FlowCounter) -> (ticks: u16)
    ensures
        ticks == old(counter)@,
        final(counter)@ == 0,
{
    counter.drain()
}

/// One step in the life of the counter: the producer records a pulse, or the
/// drainer drains.
#[derive(Clone, Copy, Debug, PartialEq, Eq, Structural)]
pub enum CounterEvent {
    Pulse,
    Drain,
}

/// The pulses on hold after a history of events, in the order they took
/// place, on a counter that held `count` before.
pub open spec fn count_after(count: u16, history: Seq<CounterEvent>) -> u16
    decreases history.len(),
{
    if history.len() == 0 {
        count
    } else {
        match history.last() {
            CounterEvent::Pulse => pulsed(count_after(count, history.drop_last())),
            CounterEvent::Drain => 0,
        }
    }
}

/// Whether anything was drained in the course of a history.
pub open spec fn drained(history: Seq<CounterEvent>) -> bool
    decreases history.len(),
{
    history.len() > 0 && (history.last() is Drain || drained(history.drop_last()))
}

/// The number of pulses recorded after the last drain of a history, or in the
/// whole of it if nothing was drained.
pub open spec fn pulses_since_drain(history: Seq<CounterEvent>) -> nat
    decreases history.len(),
{
    if history.len() == 0 {
        0
    } else {
        match history.last() {
            CounterEvent::Pulse => pulses_since_drain(history.drop_last()) + 1,
            CounterEvent::Drain => 0,
        }
    }
}

/// However pulses and drains interleave, the counter holds the pulses recorded
/// since the last drain, and so the next drain hands out those and no others:
/// none is lost, none is handed out twice. The count is kept modulo
/// `modulus()`, so it is the exact number as long as fewer pulses than that
/// arrive between two drains. Before the first drain the pulses add to what
/// the counter held at the start.
pub proof fn lemma_drain_hands_out_pulses_since_last_drain(count: u16, history: Seq<CounterEvent>)
    ensures
        drained(history) ==> count_after(count, history) == pulses_since_drain(history) as int
            % modulus(),
        !drained(history) ==> count_after(count, history) == (count + pulses_since_drain(history))
            % modulus(),
        drained(history) && pulses_since_drain(history) < modulus() ==> count_after(count, history)
            == pulses_since_drain(history),
    decreases history.len(),
{
    if history.len() > 0 {
        lemma_drain_hands_out_pulses_since_last_drain(count, history.drop_last());
    }
}

/// A drain splits a history in two: what the counter holds afterwards depends
/// on the events after the drain alone, whatever came before it.
pub proof fn lemma_drain_forgets_the_past(
    count: u16,
    before: Seq<CounterEvent>,
    after: Seq<CounterEvent>,
)
    ensures
        count_after(count, before.push(CounterEvent::Drain) + after) == count_after(0, after),
    decreases after.len(),
{
    let whole = before.push(CounterEvent::Drain) + after;
    if after.len() == 0 {
        assert(whole =~= before.push(CounterEvent::Drain));
    } else {
        assert(whole.drop_last() =~= before.push(CounterEvent::Drain) + after.drop_last());
        assert(whole.last() == after.last());
        lemma_drain_forgets_the_past(count, before, after.drop_last());
    }
}

/// The pulses recorded in the whole of a history.
pub open spec fn pulses_recorded(history: Seq<CounterEvent>) -> nat
    decreases history.len(),
{
    if history.len() == 0 {
        0
    } else {
        match history.last() {
            CounterEvent::Pulse => pulses_recorded(history.drop_last()) + 1,
            CounterEvent::Drain => pulses_recorded(history.drop_last()),
        }
    }
}

/// The pulses handed out by all the drains of a history together, on a counter
/// that held `count` before.
pub open spec fn pulses_handed_out(count: u16, history: Seq<CounterEvent>) -> nat
    decreases history.len(),
{
    if history.len() == 0 {
        0
    } else {
        match history.last() {
            CounterEvent::Pulse => pulses_handed_out(count, history.drop_last()),
            CounterEvent::Drain => pulses_handed_out(count, history.drop_last()) + count_after(
                count,
                history.drop_last(),
            ) as nat,
        }
    }
}

/// Whether the count wrapped in the course of a history: whether a pulse came
/// in while the counter was full.
pub open spec fn wrapped(count: u16, history: Seq<CounterEvent>) -> bool
    decreases history.len(),
{
    history.len() > 0 && (wrapped(count, history.drop_last()) || (history.last() is Pulse
        && count_after(count, history.drop_last()) == u16::MAX))
}

/// Pulses are neither lost nor handed out twice: what the drains of a history
/// have handed out, together with what is still on hold, is what the counter
/// held at the start and what was recorded since. This is exact as long as the
/// count never wrapped, and holds modulo `modulus()` in any case.
pub proof fn lemma_no_pulse_lost_or_duplicated(count: u16, history: Seq<CounterEvent>)
    ensures
        !wrapped(count, history) ==> pulses_handed_out(count, history) + count_after(count, history)
            == count + pulses_recorded(history),
        (pulses_handed_out(count, history) + count_after(count, history)) as int % modulus() == (
        count + pulses_recorded(history)) as int % modulus(),
    decreases history.len(),
{
    if history.len() > 0 {
        lemma_no_pulse_lost_or_duplicated(count, history.drop_last());
    }
}

} // verus!
