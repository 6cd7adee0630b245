use std::time::{Duration, Instant};

use micround::app_core::types::{CameraDevice, CaptureSettings, DeviceId};
use micround::capture::enumerator::{CameraEvent, CameraEventHandler};
use micround::capture::reconnection::{
    DeviceMatchStrategy, ReconnectionConfig, ReconnectionManager, ReconnectionState,
};

#[test]
fn test_device_match_strategy_exact_id() {
    let device_id = DeviceId("test-device".into());
    let strategy = DeviceMatchStrategy::ExactId(device_id.clone());
    assert!(strategy.matches(&device_id, "Any Name", &[]));
    assert!(!strategy.matches(&DeviceId("other".into()), "Any Name", &[]));
}

#[test]
fn test_reconnection_state_transitions() {
    let mut manager = ReconnectionManager::new();
    assert_eq!(manager.state(), ReconnectionState::Connected);
    assert!(!manager.is_reconnecting());

    let settings = CaptureSettings::default();
    manager.on_camera_disconnected(DeviceId("test".into()), "Test Camera", settings);

    assert!(manager.is_reconnecting());
    assert!(matches!(manager.state(), ReconnectionState::WaitingForDevice { .. }));

    manager.cancel();
    assert_eq!(manager.state(), ReconnectionState::Connected);
}

#[test]
fn test_on_camera_connected_during_wait() {
    let mut manager = ReconnectionManager::new();
    let device_id = DeviceId("test-device".into());
    manager.on_camera_disconnected(device_id.clone(), "Test Camera", CaptureSettings::default());
    let matched = manager.on_camera_connected(&device_id, "Test Camera");
    assert!(matched);
    assert_eq!(manager.state(), ReconnectionState::Reconnecting);
}

#[test]
fn test_on_camera_connected_wrong_device() {
    let config = ReconnectionConfig { fallback_to_any_camera: false, ..Default::default() };
    let mut manager = ReconnectionManager::with_config(config);
    manager.on_camera_disconnected(DeviceId("test-device".into()), "Test Camera", CaptureSettings::default());
    let matched = manager.on_camera_connected(&DeviceId("other".into()), "Other Camera");
    assert!(!matched);
    assert!(matches!(manager.state(), ReconnectionState::WaitingForDevice { .. }));
}

#[test]
fn test_retry_after_timeout() {
    let config = ReconnectionConfig { active_poll_duration_ms: 0, ..Default::default() };
    let mut manager = ReconnectionManager::with_config(config);
    manager.on_camera_disconnected(DeviceId("test".into()), "Test Camera", CaptureSettings::default());
    wait_for(Duration::from_millis(2));
    let (timed_out, event) = manager.check_timeout();
    assert!(timed_out);
    assert!(event.is_some());
    assert_eq!(manager.state(), ReconnectionState::TimedOut);

    manager.retry();
    assert!(matches!(manager.state(), ReconnectionState::WaitingForDevice { .. }));
}

#[test]
fn test_poll_interval_changes() {
    let config = ReconnectionConfig {
        poll_interval_ms: 100,
        background_poll_interval_ms: 500,
        active_poll_duration_ms: 50,
        ..Default::default()
    };
    let mut manager = ReconnectionManager::with_config(config);
    assert_eq!(manager.current_poll_interval(), 100);

    let start = Instant::now();
    manager.on_camera_disconnected_at(DeviceId("test".into()), "Test", CaptureSettings::default(), start, 0);
    assert_eq!(manager.poll_interval_at(start), 100);
    assert_eq!(manager.poll_interval_at(start + Duration::from_millis(60)), 500);
}

#[test]
fn reconnection_cancel_then_connect_is_ignored() {
    let mut manager = ReconnectionManager::new();
    let device_id = DeviceId("cam".into());
    manager.on_camera_disconnected(device_id.clone(), "Cam", CaptureSettings::default());
    manager.cancel();
    assert!(!manager.on_camera_connected(&device_id, "Cam"));
    assert_eq!(manager.state(), ReconnectionState::Connected);
}

#[test]
fn reconnection_attempts_count_up() {
    let mut manager = ReconnectionManager::new();
    let device_id = DeviceId("cam".into());
    let settings = CaptureSettings { width: 640, height: 480, framerate_millis: 15_000, format: None };
    manager.on_camera_disconnected(device_id.clone(), "Cam", settings);
    assert!(manager.on_camera_connected(&device_id, "Cam"));
    let s = manager.begin_reconnect_attempt();
    assert_eq!(s, settings);
    assert_eq!(manager.reconnect_attempts(), 1);
}

fn wait_for(d: Duration) {
    let start = Instant::now();
    while start.elapsed() < d {
        std::hint::spin_loop();
    }
}

#[test]
fn test_check_timeout_when_connected() {
    let mut manager = ReconnectionManager::new();
    let (timed_out, event) = manager.check_timeout();
    assert!(!timed_out);
    assert!(event.is_none());
    assert_eq!(manager.state(), ReconnectionState::Connected);
}

#[test]
fn test_on_camera_event_connected_target() {
    let mut manager = ReconnectionManager::new();
    let id = DeviceId("/dev/video0".into());
    manager.on_camera_disconnected(id.clone(), "Cam", CaptureSettings::default());
    manager.on_camera_event(CameraEvent::Disconnected(id.clone()));
    assert!(matches!(manager.state(), ReconnectionState::WaitingForDevice { .. }));
    let device = CameraDevice {
        id: id.clone(),
        name: "Cam".into(),
        manufacturer: None,
        capabilities: Vec::new(),
        is_available: true,
    };
    manager.on_camera_event(CameraEvent::Connected(device));
    assert_eq!(manager.state(), ReconnectionState::Reconnecting);
}
