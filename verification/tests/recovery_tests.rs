use micround::app_core::recovery::{RecoveryManager, StartupCheck, StartupState};
use micround::config::AppConfig;

#[test]
fn test_recovery_manager_creation() {
    let manager = RecoveryManager::new(AppConfig::default());
    assert!(manager.config().internal.last_clean_shutdown);
}

#[test]
fn test_recovery_manager_clean_shutdown_detection() {
    let manager = RecoveryManager::new(AppConfig::default());
    assert!(matches!(manager.startup_check(), StartupCheck::FirstRun));
}

#[test]
fn test_recovery_manager_with_previous_session() {
    let mut config = AppConfig::default();
    config.internal.original_wallpaper_path = Some("/some/path.jpg".to_string());
    config.internal.last_clean_shutdown = true;
    let manager = RecoveryManager::new(config);
    assert!(matches!(manager.startup_check(), StartupCheck::Clean));
}

#[test]
fn recovery_crash_is_detected_and_completed() {
    let mut config = AppConfig::default();
    config.internal.original_wallpaper_path = Some("/w.png".to_string());
    let mut manager = RecoveryManager::new(config);
    manager.mark_session_started();
    assert!(!manager.config().internal.last_clean_shutdown);
    match manager.startup_check() {
        StartupCheck::CrashDetected { wallpaper_path } => assert_eq!(wallpaper_path.as_deref(), Some("/w.png")),
        other => panic!("unexpected {:?}", other),
    }
    let state = manager.complete_recovery(true);
    assert!(state.was_crash());
    match state {
        StartupState::RecoveredFromCrash { wallpaper_restored, restored_wallpaper_path } => {
            assert!(wallpaper_restored);
            assert_eq!(restored_wallpaper_path.as_deref(), Some("/w.png"));
        }
        _ => panic!("expected a recovery"),
    }
    assert!(manager.config().internal.last_clean_shutdown);
}

#[test]
fn recovery_failed_restore_reports_no_path() {
    let mut config = AppConfig::default();
    config.internal.last_clean_shutdown = false;
    config.internal.original_wallpaper_path = Some("/w.png".to_string());
    let mut manager = RecoveryManager::new(config);
    match manager.complete_recovery(false) {
        StartupState::RecoveredFromCrash { wallpaper_restored, restored_wallpaper_path } => {
            assert!(!wallpaper_restored);
            assert!(restored_wallpaper_path.is_none());
        }
        _ => panic!("expected a recovery"),
    }
}

#[test]
fn recovery_session_marker_round_trip() {
    let mut manager = RecoveryManager::new(AppConfig::default());
    manager.store_original_wallpaper("/bg.jpg");
    manager.mark_session_started();
    manager.mark_session_ended();
    assert!(matches!(manager.startup_check(), StartupCheck::Clean));
    assert_eq!(manager.original_wallpaper_path(), Some("/bg.jpg"));
    manager.clear_original_wallpaper();
    assert!(manager.original_wallpaper_path().is_none());
}
