use micround::app_core::error::{CaptureError, ErrorContext, ErrorSeverity, MicroundError};
use micround::app_core::hotkeys::{HotkeyBinding, HotkeyConfig, HotkeyId};
use micround::app_core::latency::FrameMetrics;
use micround::app_core::messages::camera;
use micround::app_core::messages::recovery;
use micround::app_core::messages::{RecoveryAction, RecoveryActionId, UserMessage};
use micround::app_core::recovery::{SignalKind, StartupState};
use micround::config::{config_path, DisplayConfig};
use micround::app_core::types::{Flip, Rotation};
use micround::engine::{FreezeBuffer, ProcessedFrame};

#[test]
fn test_rotation_enum_conversion() {
    let mut display = DisplayConfig::default();
    display.rotation = 0;
    assert_eq!(display.rotation_enum(), Rotation::NoRotation);
    display.rotation = 90;
    assert_eq!(display.rotation_enum(), Rotation::Clockwise90);
    display.rotation = 180;
    assert_eq!(display.rotation_enum(), Rotation::Clockwise180);
    display.rotation = 270;
    assert_eq!(display.rotation_enum(), Rotation::Clockwise270);
}

#[test]
fn test_flip_enum_conversion() {
    let mut display = DisplayConfig::default();
    display.flip_horizontal = false;
    display.flip_vertical = false;
    assert_eq!(display.flip_enum(), Flip::NoFlip);
    display.flip_horizontal = true;
    display.flip_vertical = false;
    assert_eq!(display.flip_enum(), Flip::Horizontal);
    display.flip_horizontal = false;
    display.flip_vertical = true;
    assert_eq!(display.flip_enum(), Flip::Vertical);
    display.flip_horizontal = true;
    display.flip_vertical = true;
    assert_eq!(display.flip_enum(), Flip::Both);
}

#[test]
fn test_config_path() {
    let path = config_path();
    assert!(path.ends_with("config.toml"));
    assert!(path.contains("micround"));
}

#[test]
fn test_capture_error_severity() {
    assert_eq!(CaptureError::Timeout(1000).severity(), ErrorSeverity::Recoverable);
    assert_eq!(CaptureError::PermissionDenied("camera".into()).severity(), ErrorSeverity::UserActionable);
    assert_eq!(CaptureError::Platform("unknown".into()).severity(), ErrorSeverity::Fatal);
}

#[test]
fn test_error_context_display() {
    let ctx = ErrorContext::new().component("capture").operation("start").device("camera-1");
    let display = ctx.to_display_string();
    assert!(display.contains("component=capture"));
    assert!(display.contains("operation=start"));
    assert!(display.contains("device=camera-1"));
}

#[test]
fn test_user_message_is_helpful() {
    let err = CaptureError::PermissionDenied("video0".into());
    let msg = err.user_message();
    assert!(msg.contains("permission"));
    assert!(msg.contains("system settings"));
}

#[test]
fn test_with_context() {
    let err = CaptureError::NoCameras;
    let ctx = ErrorContext::new().component("capture");
    let full_err = err.with_context(ctx);
    assert!(matches!(full_err, MicroundError::Capture { .. }));
    assert_eq!(full_err.severity(), ErrorSeverity::UserActionable);
}

#[test]
fn test_hotkey_id_all() {
    let all = HotkeyId::all();
    assert_eq!(all.len(), 3);
    assert!(all.contains(&HotkeyId::ToggleFeed));
    assert!(all.contains(&HotkeyId::PauseResume));
    assert!(all.contains(&HotkeyId::TakeSnapshot));
}

#[test]
fn test_hotkey_id_display_names() {
    assert_eq!(HotkeyId::ToggleFeed.display_name(), "Toggle Feed");
    assert_eq!(HotkeyId::PauseResume.display_name(), "Pause/Resume");
    assert_eq!(HotkeyId::TakeSnapshot.display_name(), "Take Snapshot");
}

#[test]
fn test_hotkey_config_default() {
    let config = HotkeyConfig::default();
    assert!(config.enabled);
    assert_eq!(config.bindings.len(), 3);
    for binding in &config.bindings {
        assert!(binding.enabled);
    }
}

#[test]
fn test_hotkey_config_get_binding() {
    let config = HotkeyConfig::default();
    let toggle = config.get_binding(HotkeyId::ToggleFeed);
    assert!(toggle.is_some());
    assert!(toggle.unwrap().binding.contains("M"));
}

#[test]
fn test_hotkey_config_set_binding() {
    let mut config = HotkeyConfig::default();
    config.set_binding(HotkeyId::ToggleFeed, "Ctrl+Shift+X".to_string());
    let binding = config.get_binding(HotkeyId::ToggleFeed).unwrap();
    assert_eq!(binding.binding, "Ctrl+Shift+X");
}

#[test]
fn test_hotkey_config_set_enabled() {
    let mut config = HotkeyConfig::default();
    config.set_enabled(HotkeyId::TakeSnapshot, false);
    let binding = config.get_binding(HotkeyId::TakeSnapshot).unwrap();
    assert!(!binding.enabled);
}

#[test]
fn test_hotkey_config_reset() {
    let mut config = HotkeyConfig::default();
    config.enabled = false;
    config.set_binding(HotkeyId::ToggleFeed, "Custom".to_string());
    config.reset_to_defaults();
    assert!(config.enabled);
    let binding = config.get_binding(HotkeyId::ToggleFeed).unwrap();
    assert!(binding.binding.contains("Alt") || binding.binding.contains("Option"));
}

#[test]
fn test_hotkey_binding_new() {
    let binding = HotkeyBinding::new(HotkeyId::PauseResume, "Ctrl+P");
    assert_eq!(binding.id, HotkeyId::PauseResume);
    assert_eq!(binding.binding, "Ctrl+P");
    assert!(binding.enabled);
}

#[test]
fn test_hotkey_binding_disabled() {
    let binding = HotkeyBinding::disabled(HotkeyId::PauseResume, "Ctrl+P");
    assert!(!binding.enabled);
}

#[test]
fn test_frame_metrics_creation() {
    let metrics = FrameMetrics::new_now(42);
    assert_eq!(metrics.sequence, 42);
    assert!(metrics.decode_time.is_none());
    assert!(metrics.process_time.is_none());
}

#[test]
fn test_frame_metrics_breakdown() {
    let mut metrics = FrameMetrics::new_now(1);
    metrics.mark_decode_complete();
    metrics.mark_process_complete();
    let breakdown = metrics.stage_breakdown();
    assert!(breakdown.decode_us.is_some());
    assert!(breakdown.process_us.is_some());
    assert!(breakdown.render_us.is_none());
    assert!(breakdown.present_us.is_none());
}

#[test]
fn test_recovery_action_creation() {
    let action = RecoveryAction::primary("Refresh", RecoveryActionId::RefreshCameras);
    assert!(action.primary);
    assert_eq!(action.label, "Refresh");
    let action = RecoveryAction::secondary("Help", RecoveryActionId::OpenHelp);
    assert!(!action.primary);
}

#[test]
fn test_user_message_builder() {
    let msg = UserMessage::new("Test message")
        .with_error_code("TEST-001")
        .with_details("Technical details")
        .with_action(RecoveryAction::primary("OK", RecoveryActionId::Dismiss));
    assert_eq!(msg.message, "Test message");
    assert_eq!(msg.error_code, Some("TEST-001".to_string()));
    assert_eq!(msg.details, Some("Technical details".to_string()));
    assert_eq!(msg.actions.len(), 1);
}

#[test]
fn test_camera_messages() {
    let msg = camera::no_camera_found();
    assert!(msg.message.contains("No camera detected"));
    assert_eq!(msg.error_code, Some("MIC-CAM-001".to_string()));
    assert!(!msg.actions.is_empty());
    assert!(msg.actions[0].primary);
}

#[test]
fn test_linux_permission_message() {
    let msg = camera::permission_denied_linux("/dev/video0", false);
    assert!(msg.message.contains("Permission denied"));
    assert!(msg.details.is_some());
    let details = msg.details.unwrap();
    assert!(details.contains("usermod") || details.contains("video"));
}

#[test]
fn test_display_format() {
    let msg = UserMessage::new("Test").with_error_code("ABC-123");
    let formatted = msg.to_display_string();
    assert!(formatted.contains("Test"));
    assert!(formatted.contains("ABC-123"));
}

#[test]
fn test_recovery_message() {
    let msg = recovery::recovered_from_crash();
    assert!(msg.message.contains("recovered"));
    assert!(msg.message.contains("wallpaper"));
    assert!(!msg.actions.is_empty());
}

#[test]
fn test_startup_state_clean() {
    let state = StartupState::Clean;
    assert!(!state.was_crash());
    assert!(state.user_message().is_none());
}

#[test]
fn test_startup_state_crash() {
    let state = StartupState::RecoveredFromCrash {
        wallpaper_restored: true,
        restored_wallpaper_path: Some("/path/to/wallpaper.jpg".to_string()),
    };
    assert!(state.was_crash());
    assert!(state.user_message().is_some());
}

#[test]
fn test_startup_state_first_run() {
    let state = StartupState::FirstRun;
    assert!(!state.was_crash());
    assert!(state.user_message().is_none());
}

#[test]
fn test_signal_kind() {
    assert_eq!(SignalKind::Terminate, SignalKind::Terminate);
    assert_ne!(SignalKind::Terminate, SignalKind::Hangup);
}

#[test]
fn test_freeze_buffer_operations() {
    let mut buffer = FreezeBuffer::new();
    assert!(!buffer.has_frame());
    assert!(buffer.get().is_none());
    let frame = ProcessedFrame::new(vec![0u8; 100], 10, 10);
    buffer.freeze(frame);
    assert!(buffer.has_frame());
    assert!(buffer.get().is_some());
    buffer.clear();
    assert!(!buffer.has_frame());
}
