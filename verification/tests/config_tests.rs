use micround::config::{prepare_loaded_config, AppConfig, CONFIG_VERSION};

#[test]
fn test_default_config() {
    let config = AppConfig::default();
    assert_eq!(config.version, CONFIG_VERSION);
    assert_eq!(config.camera.width, 1920);
    assert_eq!(config.camera.height, 1080);
    assert_eq!(config.camera.framerate_millis, 30_000);
    assert!(!config.startup.launch_at_login);
}

#[test]
fn test_config_validation() {
    let mut config = AppConfig::default();
    config.camera.width = 0;
    config.camera.framerate_millis = -5_000;
    config.display.rotation = 45;
    let errors = config.validate();
    assert_eq!(errors.len(), 3);
    assert_eq!(errors[0].field, "camera.width/height");
    assert_eq!(errors[1].field, "camera.framerate");
    assert_eq!(errors[2].field, "display.rotation");
    assert_eq!(errors[2].message, "Rotation must be 0, 90, 180, or 270");
}

#[test]
fn test_config_sanitize() {
    let mut config = AppConfig::default();
    config.camera.width = 0;
    config.camera.framerate_millis = -5_000;
    config.display.rotation = 45;
    config.sanitize();
    assert_eq!(config.camera.width, 1920);
    assert_eq!(config.camera.framerate_millis, 30_000);
    assert_eq!(config.display.rotation, 0);
}

#[test]
fn config_default_is_valid() {
    assert!(AppConfig::default().validate().is_empty());
}

#[test]
fn config_sanitized_is_valid_and_stable() {
    let mut config = AppConfig::default();
    config.camera.height = 0;
    config.camera.framerate_millis = 500_000;
    config.display.rotation = 91;
    config.sanitize();
    assert!(config.validate().is_empty());
    let once = config.clone();
    config.sanitize();
    assert_eq!(config.camera.height, once.camera.height);
    assert_eq!(config.camera.framerate_millis, once.camera.framerate_millis);
    assert_eq!(config.display.rotation, once.display.rotation);
    assert_eq!(config.camera.height, 1080);
}

#[test]
fn config_framerate_bounds() {
    let mut config = AppConfig::default();
    config.camera.framerate_millis = 240_000;
    assert!(config.validate().is_empty());
    config.camera.framerate_millis = 240_001;
    assert_eq!(config.validate().len(), 1);
    config.camera.framerate_millis = 0;
    assert_eq!(config.validate().len(), 1);
}

#[test]
fn config_prepare_loaded_migrates_and_sanitizes() {
    let mut config = AppConfig::default();
    config.version = 0;
    config.display.rotation = 10;
    let (prepared, errors) = prepare_loaded_config(config);
    assert_eq!(errors.len(), 1);
    assert_eq!(prepared.version, CONFIG_VERSION);
    assert_eq!(prepared.display.rotation, 0);
}
