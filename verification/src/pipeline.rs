//! The orchestrator for one producer path: parse, admit, batch, count.
//!
//! Each raw record runs through `handle_record`: it is decoded (an
//! unknown length is counted and skipped, never fatal), offered to the
//! admission controller (a rejected event is counted and dropped, by
//! policy), and an admitted event goes to the batch accumulator, whose
//! flushes the caller sends downstream.  Channels, threads and clocks
//! stay outside; time enters only as the `now_us` arguments, so every
//! run of the pipeline is a pure function of the records and instants
//! fed to it.
//!
//! The ghost field `admitted` records the admitted events in order; the
//! well-formedness predicate ties it to the accumulator's own record and
//! to the counters, which is what makes the conservation and accounting
//! laws below provable.

use vstd::assert_seqs_equal;
use vstd::prelude::*;

use crate::admission::AdmissionController;
use crate::batch::BatchAccumulator;
use crate::config::EbpfConfig;
use crate::event::Event;
use crate::event::RawRecord;
use crate::metrics::counters_consistent;
use crate::metrics::Metrics;
use crate::wire::event_decoded;
use crate::wire::known_length;
use crate::wire::parse;

verus! {

/// One producer path's pipeline state.  Concurrent paths each own one of
/// these and share nothing; their counters are merged at snapshot time.
pub struct Pipeline {
    pub ctl: AdmissionController,
    pub acc: BatchAccumulator,
    pub metrics: Metrics,
    /// Ghost: the admitted events still accounted for, in admission
    /// order: exactly what was emitted plus what is still open.
    pub admitted: Ghost<Seq<Event>>,
    /// Ghost: how many admitted events forced stops have discarded.
    pub discarded: Ghost<nat>,
}

impl Pipeline {
    /// The pipeline's invariant: the admission budget and the batch
    /// accumulator are well-formed, the ghost record matches the
    /// accumulator's, and the counters balance — received splits into
    /// parsed and errors, parsed into forwarded and rate-limited,
    /// forwarded into accounted and discarded; and with backpressure off
    /// nothing is ever rate-limited.
    pub open spec fn wf(self) -> bool {
        &&& self.ctl.wf()
        &&& self.acc.wf()
        &&& self.acc.history@ == self.admitted@
        &&& counters_consistent(self.metrics)
        &&& self.metrics.events_forwarded == self.admitted@.len() + self.discarded@
        &&& self.metrics.batched_events == self.acc.emitted@.len()
        &&& !self.ctl.backpressure ==> self.metrics.events_rate_limited == 0
    }

    /// Neither the admission settings nor the flush thresholds change
    /// after construction.
    pub open spec fn same_config(self, other: Pipeline) -> bool {
        &&& self.ctl.capacity == other.ctl.capacity
        &&& self.ctl.backpressure == other.ctl.backpressure
        &&& self.acc.same_config(other.acc)
    }

    /// A fresh pipeline for `cfg`: full admission budget, empty batch,
    /// all counters zero.  A zero batch size is lifted to one, so a
    /// flush threshold always exists.
    pub fn new(cfg: &EbpfConfig) -> (r: Pipeline)
        ensures
            r.wf(),
            r.ctl.capacity == cfg.max_events_per_sec,
            r.ctl.tokens == cfg.max_events_per_sec,
            r.ctl.backpressure == cfg.enable_backpressure,
            r.acc.capacity == (if cfg.spec_effective_batch_size() == 0 {
                1usize
            } else {
                cfg.spec_effective_batch_size()
            }),
            r.acc.timeout_us == cfg.spec_effective_batch_timeout_us(),
            r.acc.batch@.len() == 0,
            r.admitted@.len() == 0,
            r.discarded@ == 0,
            r.metrics == Metrics::new_spec(),
    {
        let size = cfg.effective_batch_size();
        let capacity: usize = if size == 0 {
            1
        } else {
            size
        };
        let r = Pipeline {
            ctl: AdmissionController::new(cfg.max_events_per_sec, cfg.enable_backpressure),
            acc: BatchAccumulator::new(capacity, cfg.effective_batch_timeout_us()),
            metrics: Metrics::new(),
            admitted: Ghost(Seq::empty()),
            discarded: Ghost(0),
        };
        proof {
            assert(r.acc.history@ =~= r.admitted@);
        }
        r
    }

    /// Run one raw record through parse, admission and batching.  The
    /// returned batch, when one is flushed, is what the caller sends
    /// downstream.
    ///
    /// Exactly one of three things happens, and the counters say which:
    /// the record's length is unknown (a parse error, counted and
    /// skipped); the event is parsed but rejected by the admission
    /// budget (counted and dropped, by policy); or the event is parsed,
    /// admitted, forwarded to the accumulator and counted, flushing the
    /// batch when it reaches capacity.
    pub fn handle_record(&mut self, raw: RawRecord, now_us: u64) -> (flushed: Option<Vec<Event>>)
        requires
            old(self).wf(),
            old(self).metrics.events_received < u64::MAX,
        ensures
            final(self).wf(),
            final(self).same_config(*old(self)),
            final(self).metrics.events_received == old(self).metrics.events_received + 1,
            final(self).discarded@ == old(self).discarded@,
            !known_length(raw.bytes@.len() as int) ==> {
                &&& flushed is None
                &&& final(self).metrics == (Metrics {
                    events_received: (old(self).metrics.events_received + 1) as u64,
                    parse_errors: (old(self).metrics.parse_errors + 1) as u64,
                    ..old(self).metrics
                })
                &&& final(self).admitted@ == old(self).admitted@
                &&& final(self).acc == old(self).acc
                &&& final(self).ctl == old(self).ctl
            },
            known_length(raw.bytes@.len() as int) && !old(self).ctl.grants() ==> {
                &&& flushed is None
                &&& final(self).metrics == (Metrics {
                    events_received: (old(self).metrics.events_received + 1) as u64,
                    events_parsed: (old(self).metrics.events_parsed + 1) as u64,
                    events_rate_limited: (old(self).metrics.events_rate_limited + 1) as u64,
                    ..old(self).metrics
                })
                &&& final(self).admitted@ == old(self).admitted@
                &&& final(self).acc == old(self).acc
                &&& final(self).ctl == old(self).ctl
            },
            known_length(raw.bytes@.len() as int) && old(self).ctl.grants() ==> {
                &&& final(self).metrics.events_parsed == old(self).metrics.events_parsed + 1
                &&& final(self).metrics.parse_errors == old(self).metrics.parse_errors
                &&& final(self).metrics.events_rate_limited == old(
                    self,
                ).metrics.events_rate_limited
                &&& final(self).metrics.events_forwarded == old(self).metrics.events_forwarded + 1
                &&& (if old(self).ctl.backpressure {
                    final(self).ctl.tokens == old(self).ctl.tokens - 1
                        && final(self).ctl.admitted_this_period == old(
                        self,
                    ).ctl.admitted_this_period + 1
                } else {
                    final(self).ctl == old(self).ctl
                })
                &&& exists|e: Event|
                    #[trigger] event_decoded(raw.bytes@, e) && Pipeline::forwarded_post(
                        *old(self),
                        *final(self),
                        e,
                        flushed,
                        now_us,
                    )
            },
    {
        self.metrics.inc_received();
        match parse(raw) {
            Err(_) => {
                self.metrics.inc_parse_errors();
                None
            },
            Ok(e) => {
                self.metrics.inc_parsed();
                if !self.ctl.try_admit() {
                    self.metrics.inc_rate_limited();
                    None
                } else {
                    self.metrics.inc_forwarded();
                    self.admitted = Ghost(self.admitted@.push(e));
                    let flushed = self.acc.push(e, now_us);
                    match &flushed {
                        Some(b) => {
                            proof {
                                assert(self.acc.emitted@.len() == old(
                                    self,
                                ).metrics.batched_events + b@.len());
                            }
                            self.metrics.record_flush(b.len());
                        },
                        None => {},
                    }
                    flushed
                }
            },
        }
    }

    /// What forwarding the admitted event `e` does to the accumulator,
    /// the ghost record and the flush counters.
    pub open spec fn forwarded_post(
        pre: Pipeline,
        post: Pipeline,
        e: Event,
        flushed: Option<Vec<Event>>,
        now_us: u64,
    ) -> bool {
        &&& post.admitted@ == pre.admitted@.push(e)
        &&& if pre.acc.batch@.len() + 1 == pre.acc.capacity {
            &&& flushed matches Some(b) && b@ == pre.acc.batch@.push(e)
            &&& post.acc.batch@.len() == 0
            &&& post.acc.emitted@ == pre.acc.emitted@ + pre.acc.batch@.push(e)
            &&& post.metrics.batches_flushed == pre.metrics.batches_flushed + 1
            &&& post.metrics.batched_events == pre.metrics.batched_events + pre.acc.batch@.len()
                + 1
        } else {
            &&& flushed is None
            &&& post.acc.batch@ == pre.acc.batch@.push(e)
            &&& post.acc.emitted@ == pre.acc.emitted@
            &&& post.metrics.batches_flushed == pre.metrics.batches_flushed
            &&& post.metrics.batched_events == pre.metrics.batched_events
            &&& post.acc.first_at_us == (if pre.acc.batch@.len() == 0 {
                now_us
            } else {
                pre.acc.first_at_us
            })
        }
    }

    /// Flush the open batch if its deadline has passed.  An empty
    /// accumulator never flushes on the timer.
    pub fn poll_timer(&mut self, now_us: u64) -> (flushed: Option<Vec<Event>>)
        requires
            old(self).wf(),
        ensures
            final(self).wf(),
            final(self).same_config(*old(self)),
            final(self).admitted@ == old(self).admitted@,
            final(self).discarded@ == old(self).discarded@,
            final(self).ctl == old(self).ctl,
            final(self).metrics.events_received == old(self).metrics.events_received,
            final(self).metrics.events_parsed == old(self).metrics.events_parsed,
            final(self).metrics.parse_errors == old(self).metrics.parse_errors,
            final(self).metrics.events_rate_limited == old(self).metrics.events_rate_limited,
            final(self).metrics.events_forwarded == old(self).metrics.events_forwarded,
            old(self).acc.timer_due(now_us) ==> {
                &&& flushed matches Some(b) && b@ == old(self).acc.batch@
                &&& final(self).acc.batch@.len() == 0
                &&& final(self).metrics.batches_flushed == old(self).metrics.batches_flushed + 1
                &&& final(self).metrics.batched_events == old(self).metrics.batched_events + old(
                    self,
                ).acc.batch@.len()
            },
            !old(self).acc.timer_due(now_us) ==> flushed is None && final(self).acc == old(
                self,
            ).acc && final(self).metrics == old(self).metrics,
    {
        let flushed = self.acc.check_timeout(now_us);
        match &flushed {
            Some(b) => {
                self.metrics.record_flush(b.len());
            },
            None => {},
        }
        flushed
    }

    /// Clean-shutdown drain: emit whatever the open batch holds.  After
    /// this, everything the accumulator was ever handed has been
    /// emitted.
    pub fn drain(&mut self) -> (flushed: Option<Vec<Event>>)
        requires
            old(self).wf(),
        ensures
            final(self).wf(),
            final(self).same_config(*old(self)),
            final(self).admitted@ == old(self).admitted@,
            final(self).discarded@ == old(self).discarded@,
            final(self).ctl == old(self).ctl,
            final(self).acc.batch@.len() == 0,
            final(self).acc.emitted@ == final(self).admitted@,
            old(self).acc.batch@.len() > 0 ==> {
                &&& flushed matches Some(b) && b@ == old(self).acc.batch@
                &&& final(self).metrics.batches_flushed == old(self).metrics.batches_flushed + 1
                &&& final(self).metrics.batched_events == old(self).metrics.batched_events + old(
                    self,
                ).acc.batch@.len()
            },
            old(self).acc.batch@.len() == 0 ==> flushed is None && final(self).acc == old(
                self,
            ).acc && final(self).metrics == old(self).metrics,
    {
        let flushed = self.acc.drain();
        match &flushed {
            Some(b) => {
                self.metrics.record_flush(b.len());
            },
            None => {},
        }
        flushed
    }

    /// Forced stop: discard the open batch instead of emitting it, and
    /// report how many admitted events that cost.  Distinguish this
    /// outcome from a clean shutdown when reporting.
    pub fn abort(&mut self) -> (discarded: usize)
        requires
            old(self).wf(),
        ensures
            final(self).wf(),
            final(self).same_config(*old(self)),
            final(self).ctl == old(self).ctl,
            final(self).metrics == old(self).metrics,
            discarded == old(self).acc.batch@.len(),
            final(self).acc.batch@.len() == 0,
            final(self).acc.emitted@ == old(self).acc.emitted@,
            final(self).discarded@ == old(self).discarded@ + old(self).acc.batch@.len(),
    {
        let n = self.acc.discard_open();
        self.admitted = Ghost(self.acc.emitted@);
        self.discarded = Ghost(self.discarded@ + n as nat);
        n
    }
}

/// Clean shutdown drains: once the open batch is flushed and no forced
/// stop was ever taken, every admitted event sits in some emitted batch,
/// and the emitted events number exactly the forwarded counter — no
/// admitted event is dropped on a clean shutdown.
pub proof fn lemma_clean_shutdown_delivers_all(p: Pipeline)
    requires
        p.wf(),
        p.acc.batch@.len() == 0,
        p.discarded@ == 0,
    ensures
        p.acc.emitted@ == p.admitted@,
        p.acc.emitted@.len() == p.metrics.events_forwarded,
{
    assert_seqs_equal!(p.acc.emitted@ + p.acc.batch@ == p.acc.emitted@);
}

/// No silent loss: in every reachable pipeline state the counters
/// balance — every received record was parsed or counted as a parse
/// error, every parsed event was forwarded or rate-limited, and with
/// backpressure off nothing is rate-limited, so parsed equals forwarded.
pub proof fn lemma_no_silent_loss(p: Pipeline)
    requires
        p.wf(),
    ensures
        p.metrics.events_received == p.metrics.events_parsed + p.metrics.parse_errors,
        p.metrics.events_parsed == p.metrics.events_forwarded + p.metrics.events_rate_limited,
        !p.ctl.backpressure ==> p.metrics.events_parsed == p.metrics.events_forwarded,
{
}

/// The supervision decision on a downstream-channel failure: restart the
/// path while auto-recovery is on and restart attempts remain, otherwise
/// stop and report the failure as fatal.
pub fn restart_decision(auto_recovery: bool, attempts_made: u64, max_attempts: u64) -> (restart:
    bool)
    ensures
        restart == (auto_recovery && attempts_made < max_attempts),
{
    auto_recovery && attempts_made < max_attempts
}

} // verus!
