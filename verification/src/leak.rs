//! The leak decision.
//!
//! Flow with the tap closed is a leak candidate. A short run of candidates is
//! tolerated; a run longer than the tolerance shuts the valve. Any sample with
//! the tap open ends the run.

use vstd::prelude::*;

verus! {

/// The outcome of one sample.
#[derive(Clone, Copy, Debug, PartialEq, Eq, Structural)]
pub struct Decision {
    /// Whether the sample is reported as a leak.
    pub leak: bool,
    /// The allowance after the sample.
    pub allowance: u8,
    /// Whether the valve is to be shut.
    pub actuate: bool,
}

/// The allowance after one more leak candidate. The counter is bounded: it
/// stays at its maximum once there.
pub open spec fn next_allowance(allowance: u8) -> u8 {
    if allowance < u8::MAX {
        (allowance + 1) as u8
    } else {
        u8::MAX
    }
}

/// A sample with the tap closed and more flow than the threshold allows.
pub open spec fn leak_candidate(tap_closed: bool, flow_count: u16, threshold: u16) -> bool {
    tap_closed && flow_count > threshold
}

/// The decision for one sample.
///
/// - Tap open: no leak, and the allowance starts over.
/// - Tap closed and flow within the threshold: no leak, allowance untouched.
/// - Leak candidate under bypass: reported as a leak, valve left alone.
/// - Leak candidate otherwise: the allowance grows by one; once it exceeds the
///   tolerance the valve is shut and the leak reported.
pub open spec fn decision(
    tap_closed: bool,
    flow_count: u16,
    bypassed: bool,
    allowance: u8,
    threshold: u16,
    tolerance: u8,
) -> Decision {
    if !tap_closed {
        Decision { leak: false, allowance: 0, actuate: false }
    } else if flow_count <= threshold {
        Decision { leak: false, allowance, actuate: false }
    } else if bypassed {
        Decision { leak: true, allowance, actuate: false }
    } else {
        let exceeded = next_allowance(allowance) > tolerance;
        Decision { leak: exceeded, allowance: next_allowance(allowance), actuate: exceeded }
    }
}

/// Decides one sample. The result depends on the arguments alone.
pub fn decide(
    tap_closed: bool,
    flow_count: u16,
    bypassed: bool,
    allowance: u8,
    threshold: u16,
    tolerance: u8,
) -> (outcome: Decision)
    ensures
        outcome == decision(tap_closed, flow_count, bypassed, allowance, threshold, tolerance),
{
    if !tap_closed {
        Decision { leak: false, allowance: 0, actuate: false }
    } else if flow_count <= threshold {
        Decision { leak: false, allowance, actuate: false }
    } else if bypassed {
        Decision { leak: true, allowance, actuate: false }
    } else {
        let streak: u8 = allowance.saturating_add(1);
        let exceeded = streak > tolerance;
        Decision { leak: exceeded, allowance: streak, actuate: exceeded }
    }
}

/// The run of leak candidates seen so far with the tap closed.
pub struct AllowanceTracker {
    allowance: u8,
}

impl View for AllowanceTracker {
    type V = u8;

    closed spec fn view(&self) -> u8 {
        self.allowance
    }
}

impl AllowanceTracker {
    /// A tracker with no candidate on record.
    pub fn new() -> (tracker: Self)
        ensures
            tracker@ == 0,
    {
        AllowanceTracker { allowance: 0 }
    }

    /// The allowance used up so far.
    pub fn allowance(&self) -> (allowance: u8)
        ensures
            allowance == self@,
    {
        self.allowance
    }

    /// Forgets the run.
    pub fn reset(&mut self)
        ensures
            final(self)@ == 0,
    {
        self.allowance = 0;
    }

    /// Decides one sample against the run on record, and records the sample.
    pub fn observe(
        &mut self,
        tap_closed: bool,
        flow_count: u16,
        bypassed: bool,
        threshold: u16,
        tolerance: u8,
    ) -> (outcome: Decision)
        ensures
            outcome == decision(tap_closed, flow_count, bypassed, old(self)@, threshold, tolerance),
            final(self)@ == outcome.allowance,
    {
        let outcome = decide(tap_closed, flow_count, bypassed, self.allowance, threshold, tolerance);
        self.allowance = outcome.allowance;
        outcome
    }
}

/// The allowance after a run of samples, each given as the pair of tap state
/// and flow count, under a fixed bypass.
pub open spec fn allowance_after(
    samples: Seq<(bool, u16)>,
    bypassed: bool,
    allowance: u8,
    threshold: u16,
    tolerance: u8,
) -> u8
    decreases samples.len(),
{
    if samples.len() == 0 {
        allowance
    } else {
        let earlier = allowance_after(samples.drop_last(), bypassed, allowance, threshold, tolerance);
        decision(samples.last().0, samples.last().1, bypassed, earlier, threshold, tolerance).allowance
    }
}

/// A sample with the tap open clears the allowance, however long the run
/// before it was: the sample that follows starts from zero, so it can at most
/// bring the allowance to one.
pub proof fn lemma_tap_open_clears_allowance(
    flow_count: u16,
    bypassed: bool,
    allowance: u8,
    threshold: u16,
    tolerance: u8,
    next_tap_closed: bool,
    next_flow_count: u16,
    next_bypassed: bool,
)
    ensures
        ({
            let open = decision(false, flow_count, bypassed, allowance, threshold, tolerance);
            let next = decision(
                next_tap_closed,
                next_flow_count,
                next_bypassed,
                open.allowance,
                threshold,
                tolerance,
            );
            &&& open.allowance == 0
            &&& !open.leak
            &&& !open.actuate
            &&& next == decision(next_tap_closed, next_flow_count, next_bypassed, 0, threshold, tolerance)
            &&& next.allowance <= 1
            &&& next.actuate ==> tolerance == 0
        }),
{
}

/// However long the history of samples, one with the tap open at its end
/// leaves the allowance at zero.
pub proof fn lemma_tap_open_ends_any_run(
    samples: Seq<(bool, u16)>,
    flow_count: u16,
    bypassed: bool,
    allowance: u8,
    threshold: u16,
    tolerance: u8,
)
    ensures
        allowance_after(samples.push((false, flow_count)), bypassed, allowance, threshold, tolerance) == 0,
{
    let run = samples.push((false, flow_count));
    assert(run.drop_last() =~= samples);
    assert(run.last() == (false, flow_count));
}

/// The valve is shut only on a leak candidate without bypass, and exactly when
/// the run then exceeds the tolerance; a shut valve is always reported as a leak.
pub proof fn lemma_actuation_needs_exceeded_tolerance(
    tap_closed: bool,
    flow_count: u16,
    bypassed: bool,
    allowance: u8,
    threshold: u16,
    tolerance: u8,
)
    ensures
        ({
            let outcome = decision(tap_closed, flow_count, bypassed, allowance, threshold, tolerance);
            &&& outcome.actuate <==> leak_candidate(tap_closed, flow_count, threshold) && !bypassed
                && next_allowance(allowance) > tolerance
            &&& outcome.actuate ==> outcome.leak
            &&& outcome.leak ==> leak_candidate(tap_closed, flow_count, threshold)
            &&& bypassed ==> !outcome.actuate
        }),
{
}

} // verus!
