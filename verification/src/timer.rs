//! A repeating interval timer, driven by the tick's time delta.
//!
//! The stuck-state corrector and other slow-cadence work run only on the
//! ticks where the timer fires. The timer is explicit state, not a hidden
//! process-wide static, so a pipeline built on it is testable.

use vstd::prelude::*;

use crate::movement::DELTA_LIMIT;

verus! {

/// Longest period a timer may have, in milliseconds.
pub const PERIOD_LIMIT: u64 = 1_000_000_000;

/// A repeating timer: fires whenever the accumulated elapsed time reaches the
/// period, then keeps the remainder.
#[derive(Clone, Copy, Debug, PartialEq, Eq, Structural)]
pub struct IntervalTimer {
    pub period_ms: u64,
    pub elapsed_ms: u64,
}

impl IntervalTimer {
    /// The period is positive and bounded, and the accumulator never reaches it.
    pub open spec fn wf(self) -> bool {
        &&& 1 <= self.period_ms <= PERIOD_LIMIT
        &&& self.elapsed_ms < self.period_ms
    }

    /// A fresh timer that first fires once `period_ms` has accumulated.
    pub fn new(period_ms: u64) -> (t: Self)
        requires
            1 <= period_ms <= PERIOD_LIMIT,
        ensures
            t == (IntervalTimer { period_ms, elapsed_ms: 0 }),
            t.wf(),
    {
        IntervalTimer { period_ms, elapsed_ms: 0 }
    }

    /// Advance the timer by one tick's delta. Fires (returns true) iff the
    /// accumulated time reaches the period; the overshoot is kept.
    pub fn tick(&mut self, delta_ms: u64) -> (fired: bool)
        requires
            old(self).wf(),
            delta_ms <= DELTA_LIMIT,
        ensures
            final(self).period_ms == old(self).period_ms,
            final(self).elapsed_ms == (old(self).elapsed_ms + delta_ms) % (
            old(self).period_ms as int),
            fired == (old(self).elapsed_ms + delta_ms >= old(self).period_ms),
            final(self).wf(),
    {
        let sum = self.elapsed_ms + delta_ms;
        if sum >= self.period_ms {
            self.elapsed_ms = sum % self.period_ms;
            true
        } else {
            proof {
                vstd::arithmetic::div_mod::lemma_small_mod(sum as nat, old(self).period_ms as nat);
            }
            self.elapsed_ms = sum;
            false
        }
    }
}

} // verus!
