//! Throughput tracking: a counter of processed messages and the samples from
//! which a message rate is computed.
use vstd::prelude::*;
use core::sync::atomic::AtomicU64;
use core::time::Duration;
use std::time::Instant;

verus! {

#[verifier::external_type_specification]
#[verifier::external_body]
pub struct ExInstant(Instant);

/// Calls `Instant::now`. Nothing is claimed of the instant.
#[verifier::external_body]
fn instant_now() -> (r: Instant) {
    Instant::now()
}

/// Calls `Instant::elapsed`. Nothing is claimed of the duration.
#[verifier::external_body]
fn instant_elapsed(start: &Instant) -> (r: Duration) {
    start.elapsed()
}

/// Calls `Duration::as_secs`. Nothing is claimed of the value.
#[verifier::external_body]
fn duration_as_secs(d: &Duration) -> (r: u64) {
    d.as_secs()
}

/// Calls `Duration::subsec_millis`, which std documents to be below one
/// thousand.
#[verifier::external_body]
fn duration_subsec_millis(d: &Duration) -> (r: u32)
    ensures
        r < 1000,
{
    d.subsec_millis()
}

/// A duration of `secs` seconds and `subsec_millis` milliseconds, in
/// milliseconds, saturating at `u64::MAX`.
pub open spec fn spec_millis(secs: u64, subsec_millis: u32) -> int {
    let total = secs * 1000 + subsec_millis;
    if total > u64::MAX { u64::MAX as int } else { total }
}

/// A duration of `secs` seconds and `subsec_millis` milliseconds, in
/// milliseconds, saturating at `u64::MAX`.
pub fn duration_millis(secs: u64, subsec_millis: u32) -> (r: u64)
    ensures
        r == spec_millis(secs, subsec_millis),
{
    match secs.checked_mul(1000) {
        Some(ms) => match ms.checked_add(subsec_millis as u64) {
            Some(total) => total,
            None => u64::MAX,
        },
        None => u64::MAX,
    }
}

/// Milliseconds elapsed since `start`.
fn millis_since(start: &Instant) -> (r: u64) {
    let d = instant_elapsed(start);
    duration_millis(duration_as_secs(&d), duration_subsec_millis(&d))
}

/// What one rate sample observed: messages processed since the previous
/// sample and milliseconds elapsed since it.
#[derive(Debug, Clone, Copy, PartialEq, Eq)]
pub struct RateSample {
    pub processed: u64,
    pub elapsed_ms: u64,
}

/// The sample between two readings: the messages and milliseconds from
/// the earlier to the later, each zero where it would be negative.
pub open spec fn spec_rate_sample(current_count: u64, prev_count: u64, now_ms: u64, last_ms: u64) -> RateSample {
    RateSample {
        processed: if current_count >= prev_count { (current_count - prev_count) as u64 } else { 0 },
        elapsed_ms: if now_ms >= last_ms { (now_ms - last_ms) as u64 } else { 0 },
    }
}

/// The sample between the readings (`prev_count`, `last_ms`) and
/// (`current_count`, `now_ms`). A difference that would be negative counts
/// as zero: the readings come from atomics that concurrent samplers may
/// read out of order, and a sample then reports nothing rather than
/// wrapping around or panicking.
pub fn rate_sample(current_count: u64, prev_count: u64, now_ms: u64, last_ms: u64) -> (r: RateSample)
    ensures
        r == spec_rate_sample(current_count, prev_count, now_ms, last_ms),
        r.processed == if current_count >= prev_count { current_count - prev_count } else { 0 },
        r.elapsed_ms == if now_ms >= last_ms { now_ms - last_ms } else { 0 },
{
    RateSample { processed: current_count.saturating_sub(prev_count), elapsed_ms: now_ms.saturating_sub(last_ms) }
}

/// Two consecutive samples, each taken against the reading the previous one
/// left as its reference, together cover the whole stretch: their message
/// counts and elapsed times add up to those between the first reference and
/// the last reading, when the counts and the clock do not go backwards.
pub proof fn law_consecutive_samples_add_up(c0: u64, c1: u64, c2: u64, t0: u64, t1: u64, t2: u64)
    requires
        c0 <= c1 <= c2,
        t0 <= t1 <= t2,
    ensures
        spec_rate_sample(c1, c0, t1, t0).processed + spec_rate_sample(c2, c1, t2, t1).processed == c2 - c0,
        spec_rate_sample(c1, c0, t1, t0).elapsed_ms + spec_rate_sample(c2, c1, t2, t1).elapsed_ms == t2 - t0,
{
}

/// The parts of a rate in messages per second, processed messages over
/// elapsed milliseconds, or `None` when no time has elapsed.
pub fn rate_parts(sample: RateSample) -> (r: Option<(u64, u64)>)
    ensures
        r is None <==> sample.elapsed_ms == 0,
        r matches Some(p) ==> p == (sample.processed, sample.elapsed_ms),
{
    if sample.elapsed_ms > 0 {
        Some((sample.processed, sample.elapsed_ms))
    } else {
        None
    }
}

/// Counts processed messages and, on demand, samples how many were
/// processed since the previous sample and how long ago that was. It may be
/// shared between threads.
pub struct ThroughputTracker {
    processed_count: AtomicU64,
    last_count: AtomicU64,
    last_timestamp_ms: AtomicU64,
    start: Instant,
}

impl ThroughputTracker {
    /// A tracker with nothing counted, its clock starting now.
    pub fn new() -> (r: ThroughputTracker) {
        let start = instant_now();
        let now = millis_since(&start);
        ThroughputTracker {
            processed_count: AtomicU64::new(0),
            last_count: AtomicU64::new(0),
            last_timestamp_ms: AtomicU64::new(now),
            start,
        }
    }

    /// Milliseconds since the tracker was created.
    pub fn current_time_millis(&self) -> (r: u64) {
        millis_since(&self.start)
    }

    /// Counts one processed message.
    pub fn record_processed_message(&self) {
        self.processed_count.fetch_add(1, core::sync::atomic::Ordering::Relaxed);
    }

    /// Takes a sample: reads the processed count and the clock, stores them
    /// as the reference for the next sample, and hands back the difference
    /// to the previous reference, as `rate_sample` computes it.
    pub fn update(&self) -> (r: RateSample) {
        let current_count = self.processed_count.load(core::sync::atomic::Ordering::Relaxed);
        let prev_count = self.last_count.swap(current_count, core::sync::atomic::Ordering::Relaxed);
        let now = self.current_time_millis();
        let last = self.last_timestamp_ms.swap(now, core::sync::atomic::Ordering::Relaxed);
        rate_sample(current_count, prev_count, now, last)
    }
}

} // verus!
