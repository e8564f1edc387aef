//! Pipeline configuration, immutable once the pipeline starts.
//!
//! The coarse settings cover the common case; the optional fine-grained
//! overrides take precedence when present.

use vstd::prelude::*;

verus! {

/// Configuration for one pipeline.
pub struct EbpfConfig {
    /// Ring buffer size in bytes; passed through to the event source,
    /// with no effect on the pipeline's own behaviour.
    pub ring_buffer_size: u64,
    /// Coarse batch-size threshold.
    pub event_batch_size: usize,
    /// Event-source poll granularity in milliseconds; also the basis of
    /// the default batch flush deadline.
    pub poll_timeout_ms: u64,
    /// Admission budget per second.
    pub max_events_per_sec: u64,
    /// Enforce the admission budget by dropping over-rate events.
    pub enable_backpressure: bool,
    /// Restart a failed path instead of stopping the whole pipeline.
    pub auto_recovery: bool,
    /// Seconds between metrics snapshots.
    pub metrics_interval_sec: u64,
    /// Fine-grained override of the poll granularity, in microseconds.
    pub ring_buffer_poll_timeout_us: Option<u64>,
    /// Fine-grained override of the batch-size threshold.
    pub batch_size: Option<usize>,
    /// Fine-grained override of the batch flush deadline, in microseconds.
    pub batch_timeout_us: Option<u64>,
}

impl EbpfConfig {
    /// The batch size in effect: the override when present, else the
    /// coarse setting.
    pub open spec fn spec_effective_batch_size(self) -> usize {
        match self.batch_size {
            Some(n) => n,
            None => self.event_batch_size,
        }
    }

    pub fn effective_batch_size(&self) -> (r: usize)
        ensures
            r == self.spec_effective_batch_size(),
    {
        match self.batch_size {
            Some(n) => n,
            None => self.event_batch_size,
        }
    }

    /// The batch flush deadline in effect: the override when present,
    /// else the poll granularity expressed in microseconds (saturated at
    /// the largest representable value).
    pub open spec fn spec_effective_batch_timeout_us(self) -> u64 {
        match self.batch_timeout_us {
            Some(t) => t,
            None => if self.poll_timeout_ms <= u64::MAX / 1000 {
                (self.poll_timeout_ms * 1000) as u64
            } else {
                u64::MAX
            },
        }
    }

    pub fn effective_batch_timeout_us(&self) -> (r: u64)
        ensures
            r == self.spec_effective_batch_timeout_us(),
    {
        match self.batch_timeout_us {
            Some(t) => t,
            None => {
                if self.poll_timeout_ms <= u64::MAX / 1000 {
                    self.poll_timeout_ms * 1000
                } else {
                    u64::MAX
                }
            },
        }
    }

    /// The event-source poll granularity in effect, in microseconds: the
    /// override when present, else the coarse millisecond setting
    /// (saturated at the largest representable value).
    pub open spec fn spec_effective_poll_timeout_us(self) -> u64 {
        match self.ring_buffer_poll_timeout_us {
            Some(t) => t,
            None => if self.poll_timeout_ms <= u64::MAX / 1000 {
                (self.poll_timeout_ms * 1000) as u64
            } else {
                u64::MAX
            },
        }
    }

    pub fn effective_poll_timeout_us(&self) -> (r: u64)
        ensures
            r == self.spec_effective_poll_timeout_us(),
    {
        match self.ring_buffer_poll_timeout_us {
            Some(t) => t,
            None => {
                if self.poll_timeout_ms <= u64::MAX / 1000 {
                    self.poll_timeout_ms * 1000
                } else {
                    u64::MAX
                }
            },
        }
    }
}

impl Default for EbpfConfig {
    /// The stock configuration: modest batches, a 200 ms poll, a budget
    /// of ten thousand events per second with backpressure enforced,
    /// auto-recovery on, and no fine-grained overrides.
    fn default() -> (r: EbpfConfig)
        ensures
            r.ring_buffer_size == 262144,
            r.event_batch_size == 64,
            r.poll_timeout_ms == 200,
            r.max_events_per_sec == 10000,
            r.enable_backpressure == true,
            r.auto_recovery == true,
            r.metrics_interval_sec == 10,
            r.ring_buffer_poll_timeout_us is None,
            r.batch_size is None,
            r.batch_timeout_us is None,
    {
        EbpfConfig {
            ring_buffer_size: 262144,
            event_batch_size: 64,
            poll_timeout_ms: 200,
            max_events_per_sec: 10000,
            enable_backpressure: true,
            auto_recovery: true,
            metrics_interval_sec: 10,
            ring_buffer_poll_timeout_us: None,
            batch_size: None,
            batch_timeout_us: None,
        }
    }
}

} // verus!
