use std::time::{Duration, Instant};

use micround::app_core::latency::{FrameMetrics, LatencyHistogram, LatencyTracker};

#[test]
fn test_frame_metrics_stages() {
    let mut metrics = FrameMetrics::new_now(1);
    wait_for(Duration::from_millis(5));
    metrics.mark_decode_complete();
    assert!(metrics.decode_time.is_some());
    wait_for(Duration::from_millis(5));
    metrics.mark_process_complete();
    assert!(metrics.process_time.is_some());
    wait_for(Duration::from_millis(5));
    metrics.mark_render_complete();
    assert!(metrics.render_time.is_some());
    wait_for(Duration::from_millis(5));
    metrics.mark_present_complete();
    assert!(metrics.present_time.is_some());
    assert!(metrics.total_latency_us() >= 20_000);
}

#[test]
fn test_histogram_empty() {
    let hist = LatencyHistogram::new();
    assert_eq!(hist.count(), 0);
    assert_eq!(hist.sum_us(), 0);
    assert_eq!(hist.percentile_us(50), 0);
}

#[test]
fn test_histogram_single_sample() {
    let mut hist = LatencyHistogram::new();
    hist.record(50_000);
    assert_eq!(hist.count(), 1);
    assert_eq!(hist.min_us(), 50_000);
    assert_eq!(hist.max_us(), 50_000);
    assert_eq!(hist.sum_us() / hist.count(), 50_000);
    assert_eq!(hist.percentile_us(50), 50_000);
}

#[test]
fn test_histogram_buckets() {
    let mut hist = LatencyHistogram::new();
    hist.record(10_000);
    hist.record(30_000);
    hist.record(50_000);
    hist.record(70_000);
    hist.record(90_000);
    hist.record(150_000);
    assert_eq!(hist.count(), 6);
    let buckets = hist.bucket_counts();
    for b in &buckets {
        let pct = *b as f64 / hist.count() as f64 * 100.0;
        assert!((pct - 16.67).abs() < 1.0);
    }
}

#[test]
fn test_histogram_percentiles() {
    let mut hist = LatencyHistogram::new();
    for i in 1..=100u64 {
        hist.record(i * 1000);
    }
    assert_eq!(hist.count(), 100);
    assert_eq!(hist.min_us(), 1_000);
    assert_eq!(hist.max_us(), 100_000);
    let p50 = hist.percentile_us(50);
    assert!(p50 >= 49_000 && p50 <= 51_000, "p50={}", p50);
    let p95 = hist.percentile_us(95);
    assert!(p95 >= 94_000 && p95 <= 96_000, "p95={}", p95);
    assert_eq!(hist.percentile_us(0), 1_000);
    assert_eq!(hist.percentile_us(100), 100_000);
}

#[test]
fn test_histogram_merge() {
    let mut hist1 = LatencyHistogram::new();
    hist1.record(10_000);
    hist1.record(20_000);
    let mut hist2 = LatencyHistogram::new();
    hist2.record(30_000);
    hist2.record(40_000);
    hist1.merge(&hist2);
    assert_eq!(hist1.count(), 4);
    assert_eq!(hist1.min_us(), 10_000);
    assert_eq!(hist1.max_us(), 40_000);
    assert_eq!(hist1.sum_us(), 100_000);
}

#[test]
fn test_tracker_basic() {
    let mut tracker = LatencyTracker::new();
    let mut metrics = FrameMetrics::new_now(1);
    wait_for(Duration::from_millis(10));
    metrics.mark_present_complete();
    tracker.submit(metrics);
    assert_eq!(tracker.frames_tracked(), 1);
    assert_eq!(tracker.histogram().count(), 1);
}

#[test]
fn test_tracker_target_hit_rate() {
    let mut tracker = LatencyTracker::with_target_us(50_000);
    let mut fast = FrameMetrics::new_now(1);
    wait_for(Duration::from_millis(10));
    fast.mark_present_complete();
    tracker.submit(fast);

    let slow_start = Instant::now();
    wait_for(Duration::from_millis(60));
    let mut slow = FrameMetrics::new(2, slow_start);
    slow.mark_present_complete();
    tracker.submit(slow);

    assert_eq!(tracker.frames_tracked(), 2);
    assert!(tracker.frames_met_target() < tracker.frames_tracked());
}

#[test]
fn test_tracker_recent_metrics() {
    let mut tracker = LatencyTracker::new();
    for i in 0..5 {
        tracker.submit(FrameMetrics::new_now(i));
    }
    let recent = tracker.recent_metrics(3);
    assert_eq!(recent.len(), 3);
    assert_eq!(recent[0].sequence, 4);
    assert_eq!(recent[1].sequence, 3);
    assert_eq!(recent[2].sequence, 2);
}

#[test]
fn test_tracker_reset() {
    let mut tracker = LatencyTracker::new();
    tracker.submit(FrameMetrics::new_now(1));
    assert_eq!(tracker.frames_tracked(), 1);
    tracker.reset();
    assert_eq!(tracker.frames_tracked(), 0);
    assert_eq!(tracker.histogram().count(), 0);
}

#[test]
fn test_meets_target() {
    let mut metrics = FrameMetrics::new_now(1);
    assert!(metrics.meets_target_us(100_000));
    wait_for(Duration::from_millis(150));
    metrics.mark_present_complete();
    assert!(!metrics.meets_target_us(100_000));
}

#[test]
fn latency_bucket_boundaries() {
    let mut hist = LatencyHistogram::new();
    hist.record(19_999);
    hist.record(20_000);
    hist.record(99_999);
    hist.record(100_000);
    assert_eq!(hist.bucket_counts(), [1, 1, 0, 0, 1, 1]);
}

#[test]
fn latency_recent_keeps_limit() {
    let mut tracker = LatencyTracker::new();
    let start = Instant::now();
    for i in 0..1005u64 {
        tracker.submit(FrameMetrics::new(i, start));
    }
    let recent = tracker.recent_metrics(2000);
    assert_eq!(recent.len(), 1000);
    assert_eq!(recent[0].sequence, 1004);
    assert_eq!(recent[999].sequence, 5);
}

#[test]
fn latency_merge_with_empty_changes_nothing() {
    let mut hist = LatencyHistogram::new();
    hist.record(42_000);
    hist.merge(&LatencyHistogram::new());
    assert_eq!(hist.count(), 1);
    assert_eq!(hist.min_us(), 42_000);
    assert_eq!(hist.max_us(), 42_000);
}

fn wait_for(d: Duration) {
    let start = Instant::now();
    while start.elapsed() < d {
        std::hint::spin_loop();
    }
}

#[test]
fn test_meets_targets_us() {
    let mut hist = LatencyHistogram::new();
    assert!(hist.meets_targets_us(0, 0));
    for ms in 1..=100u64 {
        hist.record(ms * 1000);
    }
    // p50 is the sample at index 50 (51 ms), p95 at index 94 (95 ms).
    assert!(hist.meets_targets_us(51_000, 95_000));
    assert!(!hist.meets_targets_us(50_999, 95_000));
    assert!(!hist.meets_targets_us(51_000, 94_999));
}

#[test]
fn test_percentile_above_100_single_sample() {
    let mut hist = LatencyHistogram::new();
    hist.record(7_000);
    assert_eq!(hist.percentile_us(200), 7_000);
}

#[test]
fn test_total_latency_without_stages_is_zero() {
    let metrics = FrameMetrics::new_now(7);
    assert_eq!(metrics.total_latency_us(), 0);
    assert!(metrics.meets_target_us(0));
}

#[test]
fn test_percentile_checked() {
    let mut hist = LatencyHistogram::new();
    assert_eq!(hist.percentile_checked(250), Some(0));
    hist.record(1_000);
    hist.record(2_000);
    assert_eq!(hist.percentile_checked(100), Some(2_000));
    assert_eq!(hist.percentile_checked(149), Some(2_000));
    assert_eq!(hist.percentile_checked(150), None);
}
