use kernel_agent::admission::AdmissionController;
use kernel_agent::batch::BatchAccumulator;
use kernel_agent::config::EbpfConfig;
use kernel_agent::event::Event;
use kernel_agent::event::RawRecord;
use kernel_agent::metrics::Metrics;
use kernel_agent::pipeline::restart_decision;
use kernel_agent::pipeline::Pipeline;
use kernel_agent::wire::NETWORK_CONNECT_LEN;
use kernel_agent::wire::PROCESS_EXEC_LEN;

fn small_config(batch_size: usize, max_events_per_sec: u64, backpressure: bool) -> EbpfConfig {
    EbpfConfig {
        ring_buffer_size: 4096,
        event_batch_size: batch_size,
        poll_timeout_ms: 200,
        max_events_per_sec,
        enable_backpressure: backpressure,
        auto_recovery: true,
        metrics_interval_sec: 10,
        ring_buffer_poll_timeout_us: None,
        batch_size: None,
        batch_timeout_us: None,
    }
}

fn sample_event(n: u64) -> Event {
    Event::NetworkConnect {
        timestamp: n,
        pid: 1,
        uid: 0,
        command: b"x".to_vec(),
        src_addr: 1,
        dst_addr: 2,
        src_port: 3,
        dst_port: 4,
    }
}

fn raw_of_len(n: usize) -> RawRecord {
    RawRecord { bytes: vec![0u8; n] }
}

#[test]
fn admission_rate_bound_over_one_period() {
    // A budget of 5 with backpressure: within one refill period exactly 5
    // admissions succeed, every further attempt is rejected.
    let mut ctl = AdmissionController::new(5, true);
    let mut admitted = 0u64;
    let mut rejected = 0u64;
    for _ in 0..20 {
        if ctl.try_admit() {
            admitted += 1;
        } else {
            rejected += 1;
        }
    }
    assert_eq!(admitted, 5);
    assert_eq!(rejected, 15);
    // The next period has a full budget again — and no more.
    ctl.refill();
    let mut admitted2 = 0u64;
    for _ in 0..7 {
        if ctl.try_admit() {
            admitted2 += 1;
        }
    }
    assert_eq!(admitted2, 5);
}

#[test]
fn refill_does_not_accumulate_credit() {
    let mut ctl = AdmissionController::new(3, true);
    ctl.refill();
    ctl.refill(); // two idle periods do not stack permits
    let mut admitted = 0u64;
    for _ in 0..10 {
        if ctl.try_admit() {
            admitted += 1;
        }
    }
    assert_eq!(admitted, 3);
}

#[test]
fn no_backpressure_always_admits() {
    let mut ctl = AdmissionController::new(1, false);
    for _ in 0..100 {
        assert!(ctl.try_admit());
    }
}

#[test]
fn batch_flushes_exactly_at_capacity() {
    let mut acc = BatchAccumulator::new(3, 1_000_000);
    assert!(acc.push(sample_event(1), 0).is_none());
    assert!(acc.push(sample_event(2), 1).is_none());
    let flushed = acc.push(sample_event(3), 2).expect("third push must flush");
    assert_eq!(flushed, vec![sample_event(1), sample_event(2), sample_event(3)]);
    assert_eq!(acc.len(), 0);
    // The next batch starts fresh.
    assert!(acc.push(sample_event(4), 3).is_none());
    assert_eq!(acc.len(), 1);
}

#[test]
fn batch_flushes_on_timeout_with_partial_batch() {
    let mut acc = BatchAccumulator::new(10, 500);
    assert!(acc.push(sample_event(1), 1000).is_none());
    assert!(acc.push(sample_event(2), 1200).is_none());
    // Not yet due.
    assert!(acc.check_timeout(1400).is_none());
    // Past the deadline, measured from the first event.
    let flushed = acc.check_timeout(1500).expect("deadline passed");
    assert_eq!(flushed, vec![sample_event(1), sample_event(2)]);
    assert_eq!(acc.len(), 0);
    // Exactly one batch: a second poll finds nothing.
    assert!(acc.check_timeout(10_000).is_none());
}

#[test]
fn empty_accumulator_never_flushes_on_timer() {
    let mut acc = BatchAccumulator::new(4, 0);
    assert!(acc.check_timeout(0).is_none());
    assert!(acc.check_timeout(u64::MAX).is_none());
}

#[test]
fn drain_emits_open_batch_and_discard_drops_it() {
    let mut acc = BatchAccumulator::new(10, 1_000_000);
    acc.push(sample_event(1), 0);
    acc.push(sample_event(2), 0);
    let drained = acc.drain().expect("open batch drains");
    assert_eq!(drained, vec![sample_event(1), sample_event(2)]);
    assert!(acc.drain().is_none());

    let mut acc2 = BatchAccumulator::new(10, 1_000_000);
    acc2.push(sample_event(3), 0);
    assert_eq!(acc2.discard_open(), 1);
    assert_eq!(acc2.len(), 0);
}

#[test]
fn pipeline_counts_parse_errors_and_keeps_running() {
    let mut p = Pipeline::new(&small_config(4, 100, true));
    assert!(p.handle_record(raw_of_len(297), 0).is_none());
    assert!(p.handle_record(raw_of_len(0), 0).is_none());
    let m = p.metrics.snapshot();
    assert_eq!(m.events_received, 2);
    assert_eq!(m.parse_errors, 2);
    assert_eq!(m.events_parsed, 0);
    assert_eq!(m.events_forwarded, 0);
    // Well-formed input still works after the errors.
    assert!(p.handle_record(raw_of_len(NETWORK_CONNECT_LEN), 0).is_none());
    assert_eq!(p.metrics.snapshot().events_parsed, 1);
}

#[test]
fn pipeline_rate_limits_and_accounts_exactly() {
    // Budget of 3, backpressure on: of 10 well-formed records, 3 are
    // forwarded and 7 are dropped, and the counters say exactly that.
    let mut p = Pipeline::new(&small_config(100, 3, true));
    for _ in 0..10 {
        p.handle_record(raw_of_len(NETWORK_CONNECT_LEN), 0);
    }
    let m = p.metrics.snapshot();
    assert_eq!(m.events_received, 10);
    assert_eq!(m.events_parsed, 10);
    assert_eq!(m.parse_errors, 0);
    assert_eq!(m.events_forwarded, 3);
    assert_eq!(m.events_rate_limited, 7);
}

#[test]
fn pipeline_without_backpressure_forwards_everything() {
    let mut p = Pipeline::new(&small_config(1000, 1, false));
    for _ in 0..50 {
        p.handle_record(raw_of_len(PROCESS_EXEC_LEN), 0);
    }
    let m = p.metrics.snapshot();
    assert_eq!(m.events_received, 50);
    assert_eq!(m.events_parsed + m.parse_errors, m.events_received);
    assert_eq!(m.events_parsed, m.events_forwarded); // no silent loss
    assert_eq!(m.events_rate_limited, 0);
}

#[test]
fn pipeline_flushes_batches_and_tracks_average() {
    let mut p = Pipeline::new(&small_config(2, 1000, false));
    let mut batches = 0;
    for _ in 0..6 {
        if let Some(b) = p.handle_record(raw_of_len(NETWORK_CONNECT_LEN), 0) {
            assert_eq!(b.len(), 2);
            batches += 1;
        }
    }
    assert_eq!(batches, 3);
    let m = p.metrics.snapshot();
    assert_eq!(m.batches_flushed, 3);
    assert_eq!(m.batched_events, 6);
    assert_eq!(m.average_batch_size(), 2);
}

#[test]
fn clean_shutdown_drains_admitted_events() {
    let mut p = Pipeline::new(&small_config(10, 1000, false));
    for _ in 0..4 {
        assert!(p.handle_record(raw_of_len(NETWORK_CONNECT_LEN), 0).is_none());
    }
    // Shutdown: the open batch is flushed; every admitted event appears.
    let last = p.drain().expect("non-empty open batch must drain");
    assert_eq!(last.len(), 4);
    let m = p.metrics.snapshot();
    assert_eq!(m.events_forwarded, 4);
    assert_eq!(m.batched_events, 4);
    assert_eq!(m.batches_flushed, 1);
    // Idempotent: a second drain has nothing left.
    assert!(p.drain().is_none());
}

#[test]
fn forced_stop_discards_and_reports() {
    let mut p = Pipeline::new(&small_config(10, 1000, false));
    for _ in 0..3 {
        p.handle_record(raw_of_len(NETWORK_CONNECT_LEN), 0);
    }
    assert_eq!(p.abort(), 3);
    assert_eq!(p.metrics.snapshot().batched_events, 0);
    assert!(p.drain().is_none());
}

#[test]
fn pipeline_timer_flush() {
    let mut p = Pipeline::new(&small_config(10, 1000, false));
    p.handle_record(raw_of_len(NETWORK_CONNECT_LEN), 2000);
    assert!(p.poll_timer(2100).is_none()); // default deadline is 200 ms
    let b = p.poll_timer(2000 + 200_000).expect("due after 200 ms");
    assert_eq!(b.len(), 1);
    assert_eq!(p.metrics.snapshot().batches_flushed, 1);
}

#[test]
fn metrics_merge_sums_counters() {
    let mut a = Metrics::new();
    let mut b = Metrics::new();
    a.inc_received();
    a.inc_parsed();
    a.inc_forwarded();
    b.inc_received();
    b.inc_parse_errors();
    let m = a.merge(&b);
    assert_eq!(m.events_received, 2);
    assert_eq!(m.events_parsed, 1);
    assert_eq!(m.parse_errors, 1);
    assert_eq!(m.events_forwarded, 1);
    // The per-path balance carries over to the merged snapshot.
    assert_eq!(m.events_received, m.events_parsed + m.parse_errors);
}

#[test]
fn average_batch_size_is_flush_weighted() {
    let mut m = Metrics::new();
    assert_eq!(m.average_batch_size(), 0);
    m.record_flush(10);
    m.record_flush(1);
    assert_eq!(m.batches_flushed, 2);
    assert_eq!(m.batched_events, 11);
    assert_eq!(m.average_batch_size(), 5); // 11 / 2, rounded down
}

#[test]
fn config_overrides_take_precedence() {
    let mut cfg = small_config(64, 100, true);
    assert_eq!(cfg.effective_batch_size(), 64);
    assert_eq!(cfg.effective_batch_timeout_us(), 200_000);
    assert_eq!(cfg.effective_poll_timeout_us(), 200_000);
    cfg.batch_size = Some(8);
    cfg.batch_timeout_us = Some(1234);
    cfg.ring_buffer_poll_timeout_us = Some(777);
    assert_eq!(cfg.effective_batch_size(), 8);
    assert_eq!(cfg.effective_batch_timeout_us(), 1234);
    assert_eq!(cfg.effective_poll_timeout_us(), 777);
}

#[test]
fn config_default_values() {
    let cfg = EbpfConfig::default();
    assert_eq!(cfg.ring_buffer_size, 262144);
    assert_eq!(cfg.event_batch_size, 64);
    assert_eq!(cfg.poll_timeout_ms, 200);
    assert_eq!(cfg.max_events_per_sec, 10000);
    assert!(cfg.enable_backpressure);
    assert!(cfg.auto_recovery);
    assert_eq!(cfg.metrics_interval_sec, 10);
    assert!(cfg.batch_size.is_none());
    assert!(cfg.batch_timeout_us.is_none());
    assert!(cfg.ring_buffer_poll_timeout_us.is_none());
}

#[test]
fn restart_decision_follows_policy() {
    assert!(restart_decision(true, 0, 3));
    assert!(restart_decision(true, 2, 3));
    assert!(!restart_decision(true, 3, 3));
    assert!(!restart_decision(false, 0, 3));
}

#[test]
fn zero_batch_size_is_lifted_to_one() {
    let mut p = Pipeline::new(&small_config(0, 1000, false));
    // Every admitted event flushes at once.
    let b = p.handle_record(raw_of_len(NETWORK_CONNECT_LEN), 0).expect("flush at once");
    assert_eq!(b.len(), 1);
}
