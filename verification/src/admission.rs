//! Admission control: a token budget of `max_events_per_sec` permits,
//! consumed one per admitted event and refilled to capacity once per
//! second.  No credit accumulates across periods, so the long-run
//! admitted rate never exceeds the configured maximum.

use vstd::prelude::*;

verus! {

/// The token-budget gate in front of the batch accumulator.
///
/// With backpressure enabled, `try_admit` takes a permit or reports a
/// drop; with it disabled admission always succeeds and the budget is
/// never consulted (the configured rate is advisory only).
pub struct AdmissionController {
    /// Permits granted per refill period (`max_events_per_sec`).
    pub capacity: u64,
    /// Permits still available in the current period.
    pub tokens: u64,
    /// Admissions charged against the current period's budget.
    pub admitted_this_period: u64,
    /// Whether the budget is enforced.
    pub backpressure: bool,
}

impl AdmissionController {
    /// Permits never outnumber the capacity, and every permit of the
    /// period is either still available or was spent on an admission.
    pub open spec fn wf(self) -> bool {
        &&& self.tokens <= self.capacity
        &&& self.admitted_this_period + self.tokens == self.capacity
    }

    /// Whether the next admission attempt will succeed: always with
    /// backpressure off, and exactly while a permit is left otherwise.
    pub open spec fn grants(self) -> bool {
        !self.backpressure || self.tokens > 0
    }

    /// A fresh controller with a full budget.
    pub fn new(max_events_per_sec: u64, enable_backpressure: bool) -> (r: AdmissionController)
        ensures
            r.wf(),
            r.capacity == max_events_per_sec,
            r.tokens == max_events_per_sec,
            r.admitted_this_period == 0,
            r.backpressure == enable_backpressure,
    {
        AdmissionController {
            capacity: max_events_per_sec,
            tokens: max_events_per_sec,
            admitted_this_period: 0,
            backpressure: enable_backpressure,
        }
    }

    /// Non-blocking admission.  With backpressure enabled the call takes
    /// a permit when one is left and reports a drop otherwise; with it
    /// disabled the call always admits and changes nothing.
    pub fn try_admit(&mut self) -> (admitted: bool)
        requires
            old(self).wf(),
        ensures
            final(self).wf(),
            final(self).capacity == old(self).capacity,
            final(self).backpressure == old(self).backpressure,
            !old(self).backpressure ==> admitted && *final(self) == *old(self),
            old(self).backpressure ==> (admitted <==> old(self).tokens > 0),
            old(self).backpressure && admitted ==> final(self).tokens == old(self).tokens - 1
                && final(self).admitted_this_period == old(self).admitted_this_period + 1,
            old(self).backpressure && !admitted ==> *final(self) == *old(self),
    {
        if !self.backpressure {
            return true;
        }
        if self.tokens > 0 {
            self.tokens = self.tokens - 1;
            self.admitted_this_period = self.admitted_this_period + 1;
            true
        } else {
            false
        }
    }

    /// The once-per-second replenishment: the budget returns to full
    /// capacity and no more — unused permits of the old period do not
    /// carry over, so there is no bursting beyond one second's budget.
    pub fn refill(&mut self)
        ensures
            final(self).wf(),
            final(self).capacity == old(self).capacity,
            final(self).backpressure == old(self).backpressure,
            final(self).tokens == old(self).capacity,
            final(self).admitted_this_period == 0,
    {
        self.tokens = self.capacity;
        self.admitted_this_period = 0;
    }

    /// Rate bound: however the calls interleave, the admissions charged
    /// against one period's budget never exceed the configured capacity.
    pub proof fn lemma_rate_bound(self)
        requires
            self.wf(),
        ensures
            self.admitted_this_period <= self.capacity,
    {
    }
}

} // verus!
