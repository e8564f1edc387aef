//! Batching of admitted events.
//!
//! The accumulator keeps one open batch in insertion order and flushes it
//! when it reaches the configured size, or — for a non-empty batch only —
//! when the configured time has passed since its first event.  Two ghost
//! records, `history` (everything ever pushed) and `emitted` (everything
//! flushed so far, in order), carry the conservation law: every pushed
//! event is either already emitted in some batch or still sits in the
//! open batch.  Nothing is lost and nothing is duplicated.

use vstd::assert_seqs_equal;
use vstd::prelude::*;

use crate::event::Event;

verus! {

/// The batch accumulator.  Owned by a single consumer task; time reaches
/// it only through the `now_us` arguments, so its behaviour is a pure
/// function of the calls made on it.
pub struct BatchAccumulator {
    /// The open batch, in insertion order.
    pub batch: Vec<Event>,
    /// Flush threshold: the batch never grows past this size.
    pub capacity: usize,
    /// Flush deadline in microseconds, measured from the first event of
    /// the open batch.
    pub timeout_us: u64,
    /// When the open batch's first event arrived; meaningful only while
    /// the batch is non-empty.
    pub first_at_us: u64,
    /// Ghost: every event ever pushed, in order.
    pub history: Ghost<Seq<Event>>,
    /// Ghost: the concatenation of all flushed batches, in order.
    pub emitted: Ghost<Seq<Event>>,
}

impl BatchAccumulator {
    /// Conservation: what was emitted, followed by what is still open,
    /// is exactly what was pushed — no admitted event is lost or
    /// duplicated.  The open batch is always strictly below capacity,
    /// since reaching it flushes at once.
    pub open spec fn wf(self) -> bool {
        &&& self.capacity >= 1
        &&& self.batch@.len() < self.capacity
        &&& self.emitted@ + self.batch@ == self.history@
    }

    /// The size-based flush settings never change after construction.
    pub open spec fn same_config(self, other: BatchAccumulator) -> bool {
        self.capacity == other.capacity && self.timeout_us == other.timeout_us
    }

    /// The timer trigger: a non-empty open batch whose first event is at
    /// least `timeout_us` old.  An empty accumulator is never due — no
    /// empty batch is ever emitted.
    pub open spec fn timer_due(self, now_us: u64) -> bool {
        &&& self.batch@.len() > 0
        &&& now_us >= self.first_at_us
        &&& now_us - self.first_at_us >= self.timeout_us
    }

    /// An empty accumulator with the given flush thresholds.
    pub fn new(capacity: usize, timeout_us: u64) -> (r: BatchAccumulator)
        requires
            capacity >= 1,
        ensures
            r.wf(),
            r.capacity == capacity,
            r.timeout_us == timeout_us,
            r.batch@.len() == 0,
            r.history@.len() == 0,
            r.emitted@.len() == 0,
    {
        let r = BatchAccumulator {
            batch: Vec::new(),
            capacity,
            timeout_us,
            first_at_us: 0,
            history: Ghost(Seq::empty()),
            emitted: Ghost(Seq::empty()),
        };
        proof {
            assert_seqs_equal!(r.emitted@ + r.batch@ == r.history@);
        }
        r
    }

    pub fn len(&self) -> (r: usize)
        ensures
            r == self.batch@.len(),
    {
        self.batch.len()
    }

    /// Append an admitted event to the open batch; when that fills the
    /// batch to capacity, flush it immediately.  The returned batch holds
    /// the accumulated events in insertion order, ending with `e`.
    pub fn push(&mut self, e: Event, now_us: u64) -> (flushed: Option<Vec<Event>>)
        requires
            old(self).wf(),
        ensures
            final(self).wf(),
            final(self).same_config(*old(self)),
            final(self).history@ == old(self).history@.push(e),
            old(self).batch@.len() + 1 == old(self).capacity ==> {
                &&& flushed matches Some(b) && b@ == old(self).batch@.push(e)
                &&& final(self).batch@.len() == 0
                &&& final(self).emitted@ == old(self).emitted@ + old(self).batch@.push(e)
            },
            old(self).batch@.len() + 1 < old(self).capacity ==> {
                &&& flushed is None
                &&& final(self).batch@ == old(self).batch@.push(e)
                &&& final(self).emitted@ == old(self).emitted@
                &&& final(self).first_at_us == (if old(self).batch@.len() == 0 {
                    now_us
                } else {
                    old(self).first_at_us
                })
            },
    {
        if self.batch.len() == 0 {
            self.first_at_us = now_us;
        }
        self.history = Ghost(self.history@.push(e));
        self.batch.push(e);
        if self.batch.len() == self.capacity {
            let mut out: Vec<Event> = Vec::new();
            core::mem::swap(&mut out, &mut self.batch);
            self.emitted = Ghost(self.emitted@ + out@);
            proof {
                assert_seqs_equal!(self.emitted@ + self.batch@ == self.history@);
            }
            Some(out)
        } else {
            proof {
                assert_seqs_equal!(self.emitted@ + self.batch@ == self.history@);
            }
            None
        }
    }

    /// Flush on the timer: emit the open batch when it is non-empty and
    /// its first event is at least `timeout_us` old; otherwise do
    /// nothing.  An empty accumulator never flushes.
    pub fn check_timeout(&mut self, now_us: u64) -> (flushed: Option<Vec<Event>>)
        requires
            old(self).wf(),
        ensures
            final(self).wf(),
            final(self).same_config(*old(self)),
            final(self).history@ == old(self).history@,
            old(self).timer_due(now_us) ==> {
                &&& flushed matches Some(b) && b@ == old(self).batch@
                &&& final(self).batch@.len() == 0
                &&& final(self).emitted@ == old(self).emitted@ + old(self).batch@
            },
            !old(self).timer_due(now_us) ==> flushed is None && *final(self) == *old(self),
    {
        if self.batch.len() > 0 && now_us >= self.first_at_us && now_us - self.first_at_us
            >= self.timeout_us {
            let mut out: Vec<Event> = Vec::new();
            core::mem::swap(&mut out, &mut self.batch);
            self.emitted = Ghost(self.emitted@ + out@);
            proof {
                assert_seqs_equal!(self.emitted@ + self.batch@ == self.history@);
            }
            Some(out)
        } else {
            None
        }
    }

    /// Drain for clean shutdown: emit whatever the open batch holds,
    /// regardless of size or timer.  Afterwards everything ever pushed
    /// has been emitted.
    pub fn drain(&mut self) -> (flushed: Option<Vec<Event>>)
        requires
            old(self).wf(),
        ensures
            final(self).wf(),
            final(self).same_config(*old(self)),
            final(self).history@ == old(self).history@,
            final(self).batch@.len() == 0,
            final(self).emitted@ == final(self).history@,
            old(self).batch@.len() > 0 ==> {
                &&& flushed matches Some(b) && b@ == old(self).batch@
                &&& final(self).emitted@ == old(self).emitted@ + old(self).batch@
            },
            old(self).batch@.len() == 0 ==> flushed is None && *final(self) == *old(self),
    {
        if self.batch.len() > 0 {
            let mut out: Vec<Event> = Vec::new();
            core::mem::swap(&mut out, &mut self.batch);
            self.emitted = Ghost(self.emitted@ + out@);
            proof {
                assert_seqs_equal!(self.emitted@ + self.batch@ == self.history@);
                assert_seqs_equal!(self.emitted@ == self.history@);
            }
            Some(out)
        } else {
            proof {
                assert_seqs_equal!(self.emitted@ == self.history@);
            }
            None
        }
    }

    /// Forced stop: discard the open batch without emitting it, and
    /// report how many admitted events that cost.  The ghost record is
    /// reset to what was actually emitted, so the conservation law then
    /// speaks only of the events that survived the forced stop.
    pub fn discard_open(&mut self) -> (discarded: usize)
        requires
            old(self).wf(),
        ensures
            final(self).wf(),
            final(self).same_config(*old(self)),
            discarded == old(self).batch@.len(),
            final(self).batch@.len() == 0,
            final(self).emitted@ == old(self).emitted@,
            final(self).history@ == old(self).emitted@,
    {
        let n = self.batch.len();
        self.batch = Vec::new();
        self.history = Ghost(self.emitted@);
        proof {
            assert_seqs_equal!(self.emitted@ + self.batch@ == self.history@);
        }
        n
    }
}

} // verus!
