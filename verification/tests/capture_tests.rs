use std::time::Duration;

use micround::app_core::types::{Frame, PixelFormat};
use micround::capture::capture_loop::CaptureMetrics;
use micround::capture::enumerator::{format_to_fourcc, fourcc_to_format};
use micround::capture::frame_queue::FrameQueue;
use micround::capture::hotplug::HotplugConfig;
use micround::capture::media_foundation::{guid_to_pixel_format, mjpg, nv12, yuy2};
use micround::capture::negotiation::format_priority;
use micround::capture::reconnection::ReconnectionConfig;
use micround::capture::state::{CameraErrorInfo, CameraState};
use micround::capture::v4l2::permission_denied_message;

#[test]
fn test_frame_queue() {
    let mut queue = FrameQueue::new();
    let frame = Frame {
        data: vec![0; 100],
        format: PixelFormat::Nv12,
        width: 10,
        height: 10,
        timestamp_ns: 0,
        sequence: 0,
    };
    queue.push(frame);
    let result = queue.pop(Duration::from_millis(100));
    assert!(result.is_some());
}

#[test]
fn test_frame_queue_timeout() {
    let mut queue = FrameQueue::new();
    let result = queue.pop(Duration::from_millis(10));
    assert!(result.is_none());
}

#[test]
fn test_metrics_recording() {
    let mut metrics = CaptureMetrics::new();
    metrics.record_frame_captured();
    metrics.record_frame_captured();
    metrics.record_frame_dropped();
    let snapshot = metrics.snapshot();
    assert_eq!(snapshot.frames_captured, 2);
    assert_eq!(snapshot.frames_dropped, 1);
    assert_eq!(snapshot.total_errors, 0);
}

#[test]
fn test_metrics_error_tracking() {
    let mut metrics = CaptureMetrics::new();
    metrics.record_error();
    metrics.record_error();
    assert_eq!(metrics.consecutive_errors(), 2);
    metrics.record_frame_captured();
    assert_eq!(metrics.consecutive_errors(), 0);
    let snapshot = metrics.snapshot();
    assert_eq!(snapshot.total_errors, 2);
}

#[test]
fn test_metrics_reset() {
    let mut metrics = CaptureMetrics::new();
    metrics.record_frame_captured();
    metrics.record_error();
    metrics.reset();
    let snapshot = metrics.snapshot();
    assert_eq!(snapshot.frames_captured, 0);
    assert_eq!(snapshot.total_errors, 0);
}

#[test]
fn test_fourcc_to_format() {
    assert_eq!(fourcc_to_format(0x47504A4D), PixelFormat::Mjpeg);
    assert_eq!(fourcc_to_format(0x56595559), PixelFormat::Yuyv);
    assert_eq!(fourcc_to_format(0x12345678), PixelFormat::Unknown);
}

#[test]
fn test_format_to_fourcc() {
    assert_eq!(format_to_fourcc(PixelFormat::Mjpeg), Some(0x47504A4D));
    assert_eq!(format_to_fourcc(PixelFormat::Unknown), None);
}

#[test]
fn test_hotplug_config_default() {
    let config = HotplugConfig::default();
    assert_eq!(config.poll_interval_ms, 2000);
    assert_eq!(config.reconnect_debounce_ms, 500);
}

#[test]
fn test_guid_conversion() {
    assert_eq!(guid_to_pixel_format(&nv12()), PixelFormat::Nv12);
    assert_eq!(guid_to_pixel_format(&yuy2()), PixelFormat::Yuyv);
    assert_eq!(guid_to_pixel_format(&mjpg()), PixelFormat::Mjpeg);
}

#[test]
fn test_format_priority_ordering() {
    assert!(format_priority(PixelFormat::Mjpeg) < format_priority(PixelFormat::Yuyv));
    assert!(format_priority(PixelFormat::Yuyv) < format_priority(PixelFormat::Rgb24));
    assert!(format_priority(PixelFormat::Rgb24) < format_priority(PixelFormat::Unknown));
}

#[test]
fn test_reconnection_config_default() {
    let config = ReconnectionConfig::default();
    assert_eq!(config.poll_interval_ms, 2000);
    assert_eq!(config.active_poll_duration_ms, 30_000);
    assert_eq!(config.max_reconnect_attempts, 3);
}

#[test]
fn test_can_open_states() {
    assert!(CameraState::Available.can_open());
    assert!(CameraState::Error(CameraErrorInfo::new("test", true)).can_open());
    assert!(!CameraState::Disconnected.can_open());
    assert!(!CameraState::Capturing.can_open());
}

#[test]
fn test_state_display() {
    assert_eq!(CameraState::Disconnected.to_display_string(), "Disconnected");
    assert_eq!(CameraState::Available.to_display_string(), "Available");
    assert_eq!(CameraState::Capturing.to_display_string(), "Capturing");
}

#[test]
fn test_error_info_recovery_limit() {
    let mut info = CameraErrorInfo::new("test", true);
    info.max_recovery_attempts = 2;
    assert!(info.attempt_recovery());
    assert!(info.attempt_recovery());
    assert!(!info.attempt_recovery());
}

#[test]
fn test_permission_helpers() {
    for in_group in [false, true] {
        let msg = permission_denied_message("/dev/video0", in_group);
        assert!(msg.contains("/dev/video0"));
        if !in_group {
            assert!(msg.contains("video"));
            assert!(msg.contains("usermod"));
        }
    }
}
