use amplifier_relayer::tracking::{duration_millis, rate_parts, rate_sample, RateSample, ThroughputTracker};

#[test]
fn tracker_counts_processed_messages() {
    let tracker = ThroughputTracker::new();
    for _ in 0..5 {
        tracker.record_processed_message();
    }
    let sample = tracker.update();
    assert_eq!(sample.processed, 5);
    let sample = tracker.update();
    assert_eq!(sample.processed, 0);
    tracker.record_processed_message();
    assert_eq!(tracker.update().processed, 1);
}

#[test]
fn clock_is_monotonic() {
    let tracker = ThroughputTracker::new();
    let a = tracker.current_time_millis();
    let start = std::time::Instant::now();
    while start.elapsed() < std::time::Duration::from_millis(5) {}
    let b = tracker.current_time_millis();
    assert!(b >= a + 5);
}

#[test]
fn millis_from_parts() {
    assert_eq!(duration_millis(2, 345), 2345);
    assert_eq!(duration_millis(0, 999), 999);
    assert_eq!(duration_millis(u64::MAX / 1000, 999), u64::MAX);
    assert_eq!(duration_millis(u64::MAX, 0), u64::MAX);
}

#[test]
fn samples_and_rates() {
    assert_eq!(rate_sample(10, 4, 2000, 1000), RateSample { processed: 6, elapsed_ms: 1000 });
    assert_eq!(rate_sample(3, 4, 900, 1000), RateSample { processed: 0, elapsed_ms: 0 });
    assert_eq!(rate_parts(RateSample { processed: 6, elapsed_ms: 1000 }), Some((6, 1000)));
    assert_eq!(rate_parts(RateSample { processed: 6, elapsed_ms: 0 }), None);
}
