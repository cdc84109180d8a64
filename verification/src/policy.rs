//! The tunable parameters of the controller.

use vstd::prelude::*;

verus! {

/// The parameters, as plain values.
pub struct PolicyModel {
    /// Pulses per period above which flow with the tap closed is excess flow.
    pub threshold: u16,
    /// Allowance that a run of leak candidates must exceed before the valve is shut.
    pub tolerance: u8,
    /// Length of the sampling period, in seconds.
    pub period_seconds: u64,
    /// Whether a remote close also cancels a standing bypass grant.
    pub close_clears_bypass: bool,
}

impl PolicyModel {
    /// The sampling period is not empty.
    pub open spec fn valid(self) -> bool {
        self.period_seconds >= 1
    }
}

/// Pulses per second over a period: the pulses of the period divided by its
/// length in seconds, rounded down.
pub open spec fn flow_rate(ticks: u16, period_seconds: u64) -> u16
    recommends
        period_seconds >= 1,
{
    (ticks as int / period_seconds as int) as u16
}

/// Parameters that have been checked: the sampling period is at least one second.
#[derive(Clone, Copy, Debug)]
pub struct Policy {
    threshold: u16,
    tolerance: u8,
    period_seconds: u64,
    close_clears_bypass: bool,
}

impl View for Policy {
    type V = PolicyModel;

    closed spec fn view(&self) -> PolicyModel {
        PolicyModel {
            threshold: self.threshold,
            tolerance: self.tolerance,
            period_seconds: self.period_seconds,
            close_clears_bypass: self.close_clears_bypass,
        }
    }
}

impl Policy {
    #[verifier::type_invariant]
    spec fn checked(self) -> bool {
        self.period_seconds >= 1
    }

    /// Checks the parameters. A period of zero seconds is refused; everything
    /// else is taken as given.
    pub fn new(
        threshold: u16,
        tolerance: u8,
        period_seconds: u64,
        close_clears_bypass: bool,
    ) -> (policy: Option<Policy>)
        ensures
            policy is None <==> period_seconds == 0,
            policy matches Some(checked) ==> checked@ == (PolicyModel {
                threshold,
                tolerance,
                period_seconds,
                close_clears_bypass,
            }),
    {
        if period_seconds == 0 {
            None
        } else {
            Some(Policy { threshold, tolerance, period_seconds, close_clears_bypass })
        }
    }

    /// Pulses per period above which flow with the tap closed is excess flow.
    pub fn threshold(&self) -> (threshold: u16)
        ensures
            threshold == self@.threshold,
    {
        self.threshold
    }

    /// Allowance that a run of leak candidates must exceed before the valve is shut.
    pub fn tolerance(&self) -> (tolerance: u8)
        ensures
            tolerance == self@.tolerance,
    {
        self.tolerance
    }

    /// Length of the sampling period in seconds, never zero.
    pub fn period_seconds(&self) -> (seconds: u64)
        ensures
            seconds == self@.period_seconds,
            self@.valid(),
    {
        proof {
            use_type_invariant(self);
        }
        self.period_seconds
    }

    /// Whether a remote close also cancels a standing bypass grant.
    pub fn close_clears_bypass(&self) -> (clears: bool)
        ensures
            clears == self@.close_clears_bypass,
    {
        self.close_clears_bypass
    }

    /// Pulses per second, given the pulses of one period.
    pub fn flow_rate(&self, ticks: u16) -> (rate: u16)
        ensures
            rate == flow_rate(ticks, self@.period_seconds),
            rate <= ticks,
    {
        proof {
            use_type_invariant(self);
        }
        let period: u64 = self.period_seconds;
        let wide: u64 = ticks as u64;
        let rate: u64 = wide / period;
        assert(rate <= wide) by (nonlinear_arith)
            requires
                rate == wide / period,
                period >= 1,
        ;
        rate as u16
    }
}

} // verus!
