//! Host security-telemetry event pipeline.
//!
//! The library turns untrusted fixed-layout byte records produced by
//! kernel-level instrumentation into typed events, bounds the forwarded
//! rate with a token budget, groups admitted events into batches, and
//! keeps exact counters of everything received, parsed, dropped and
//! forwarded.  Reading the raw records from the kernel and delivering
//! batches downstream is the caller's business; everything here is pure
//! logic over plain values.

pub mod admission;
pub mod batch;
pub mod bytes;
pub mod config;
pub mod event;
pub mod metrics;
pub mod pipeline;
pub mod text;
pub mod utf8;
pub mod wire;
