//! Live pipeline counters.
//!
//! Counters are kept per producer path as plain values and merged into a
//! point-in-time snapshot; merging commutes with the accounting the
//! pipeline maintains, so the merged snapshot satisfies the same balance
//! equations as each path's own counters.

use vstd::prelude::*;

verus! {

/// The pipeline's counters.  A snapshot is a copy, not a live view;
/// every counter is monotonically non-decreasing over a path's lifetime.
#[derive(Clone, Copy, Debug, PartialEq, Eq, Structural)]
pub struct Metrics {
    /// Raw records taken off the event source.
    pub events_received: u64,
    /// Records decoded into a typed event.
    pub events_parsed: u64,
    /// Records rejected for an unknown length.
    pub parse_errors: u64,
    /// Parsed events dropped by admission control.
    pub events_rate_limited: u64,
    /// Parsed events admitted and handed to the accumulator.
    pub events_forwarded: u64,
    /// Batches flushed downstream.
    pub batches_flushed: u64,
    /// Events carried by those flushed batches.
    pub batched_events: u64,
}

/// The balance the pipeline maintains: every received record was parsed
/// or counted as a parse error; every parsed event was forwarded or
/// rate-limited; batched events never outnumber forwarded ones, and
/// every flushed batch was non-empty.
pub open spec fn counters_consistent(m: Metrics) -> bool {
    &&& m.events_received == m.events_parsed + m.parse_errors
    &&& m.events_parsed == m.events_forwarded + m.events_rate_limited
    &&& m.batched_events <= m.events_forwarded
    &&& m.batches_flushed <= m.batched_events
}

impl Metrics {
    /// All counters at zero.
    pub open spec fn new_spec() -> Metrics {
        Metrics {
            events_received: 0,
            events_parsed: 0,
            parse_errors: 0,
            events_rate_limited: 0,
            events_forwarded: 0,
            batches_flushed: 0,
            batched_events: 0,
        }
    }

    /// All counters at zero.
    pub fn new() -> (r: Metrics)
        ensures
            r.events_received == 0,
            r.events_parsed == 0,
            r.parse_errors == 0,
            r.events_rate_limited == 0,
            r.events_forwarded == 0,
            r.batches_flushed == 0,
            r.batched_events == 0,
    {
        Metrics {
            events_received: 0,
            events_parsed: 0,
            parse_errors: 0,
            events_rate_limited: 0,
            events_forwarded: 0,
            batches_flushed: 0,
            batched_events: 0,
        }
    }

    /// A point-in-time copy of the counters.
    pub fn snapshot(&self) -> (r: Metrics)
        ensures
            r == *self,
    {
        *self
    }

    pub fn inc_received(&mut self)
        requires
            old(self).events_received < u64::MAX,
        ensures
            *final(self) == (Metrics { events_received: (old(self).events_received + 1) as u64, ..*old(self) }),
    {
        self.events_received = self.events_received + 1;
    }

    pub fn inc_parsed(&mut self)
        requires
            old(self).events_parsed < u64::MAX,
        ensures
            *final(self) == (Metrics { events_parsed: (old(self).events_parsed + 1) as u64, ..*old(self) }),
    {
        self.events_parsed = self.events_parsed + 1;
    }

    pub fn inc_parse_errors(&mut self)
        requires
            old(self).parse_errors < u64::MAX,
        ensures
            *final(self) == (Metrics { parse_errors: (old(self).parse_errors + 1) as u64, ..*old(self) }),
    {
        self.parse_errors = self.parse_errors + 1;
    }

    pub fn inc_rate_limited(&mut self)
        requires
            old(self).events_rate_limited < u64::MAX,
        ensures
            *final(self) == (Metrics {
                events_rate_limited: (old(self).events_rate_limited + 1) as u64,
                ..*old(self)
            }),
    {
        self.events_rate_limited = self.events_rate_limited + 1;
    }

    pub fn inc_forwarded(&mut self)
        requires
            old(self).events_forwarded < u64::MAX,
        ensures
            *final(self) == (Metrics {
                events_forwarded: (old(self).events_forwarded + 1) as u64,
                ..*old(self)
            }),
    {
        self.events_forwarded = self.events_forwarded + 1;
    }

    /// Account one flushed batch of `n` events.
    pub fn record_flush(&mut self, n: usize)
        requires
            old(self).batches_flushed < u64::MAX,
            old(self).batched_events + n <= u64::MAX,
        ensures
            *final(self) == (Metrics {
                batches_flushed: (old(self).batches_flushed + 1) as u64,
                batched_events: (old(self).batched_events + n as u64) as u64,
                ..*old(self)
            }),
    {
        self.batches_flushed = self.batches_flushed + 1;
        self.batched_events = self.batched_events + (n as u64);
    }

    /// The flush-weighted mean batch size, rounded down; zero before the
    /// first flush.  It may rise or fall between snapshots.
    pub fn average_batch_size(&self) -> (r: u64)
        ensures
            self.batches_flushed == 0 ==> r == 0,
            self.batches_flushed > 0 ==> r == self.batched_events / self.batches_flushed,
    {
        if self.batches_flushed == 0 {
            0
        } else {
            self.batched_events / self.batches_flushed
        }
    }

    /// Merge two paths' counters into one snapshot, counter by counter.
    pub fn merge(&self, other: &Metrics) -> (r: Metrics)
        requires
            self.events_received + other.events_received <= u64::MAX,
            self.events_parsed + other.events_parsed <= u64::MAX,
            self.parse_errors + other.parse_errors <= u64::MAX,
            self.events_rate_limited + other.events_rate_limited <= u64::MAX,
            self.events_forwarded + other.events_forwarded <= u64::MAX,
            self.batches_flushed + other.batches_flushed <= u64::MAX,
            self.batched_events + other.batched_events <= u64::MAX,
        ensures
            r.events_received == self.events_received + other.events_received,
            r.events_parsed == self.events_parsed + other.events_parsed,
            r.parse_errors == self.parse_errors + other.parse_errors,
            r.events_rate_limited == self.events_rate_limited + other.events_rate_limited,
            r.events_forwarded == self.events_forwarded + other.events_forwarded,
            r.batches_flushed == self.batches_flushed + other.batches_flushed,
            r.batched_events == self.batched_events + other.batched_events,
    {
        Metrics {
            events_received: self.events_received + other.events_received,
            events_parsed: self.events_parsed + other.events_parsed,
            parse_errors: self.parse_errors + other.parse_errors,
            events_rate_limited: self.events_rate_limited + other.events_rate_limited,
            events_forwarded: self.events_forwarded + other.events_forwarded,
            batches_flushed: self.batches_flushed + other.batches_flushed,
            batched_events: self.batched_events + other.batched_events,
        }
    }
}

/// Merging per-path counters preserves the accounting: when each path's
/// counters balance, so do their counter-by-counter sums.  With this,
/// the balance equations hold across arbitrarily many concurrent
/// producer paths merged at snapshot time.
pub proof fn lemma_merge_preserves_consistency(a: Metrics, b: Metrics, m: Metrics)
    requires
        counters_consistent(a),
        counters_consistent(b),
        m.events_received == a.events_received + b.events_received,
        m.events_parsed == a.events_parsed + b.events_parsed,
        m.parse_errors == a.parse_errors + b.parse_errors,
        m.events_rate_limited == a.events_rate_limited + b.events_rate_limited,
        m.events_forwarded == a.events_forwarded + b.events_forwarded,
        m.batches_flushed == a.batches_flushed + b.batches_flushed,
        m.batched_events == a.batched_events + b.batched_events,
    ensures
        counters_consistent(m),
{
}

} // verus!
