use micround::text::{is_white_space, trim, u64_to_decimal};
use micround::app_core::logging::log_dir_from;
use micround::config::config_dir_from;
use micround::app_core::logging::log_directory;
use micround::capture::hotplug::is_video_device;
use micround::platform::paths::temp_dir_under;
use micround::platform::system::ThermalState;
use micround::platform::wallpaper::{capture_method, DesktopFamily};

#[test]
fn test_is_video_device() {
    assert!(is_video_device("/dev/video0"));
    assert!(is_video_device("/dev/video1"));
    assert!(is_video_device("/dev/video10"));
    assert!(!is_video_device("/dev/sda1"));
    assert!(!is_video_device("/dev/null"));
    assert!(!is_video_device("/dev/tty"));
}

#[test]
fn test_temp_dir() {
    let temp = temp_dir_under("/tmp");
    assert!(temp.contains("micround"));
    assert_eq!(temp, "/tmp/micround");
}

#[test]
fn test_thermal_state_throttling() {
    assert!(!ThermalState::Normal.should_throttle());
    assert!(ThermalState::Fair.should_throttle());
    assert!(ThermalState::Serious.should_throttle());
    assert!(ThermalState::Critical.should_throttle());
    assert_eq!(ThermalState::Normal.frame_rate_percent(), 100);
    assert_eq!(ThermalState::Critical.frame_rate_percent(), 25);
}

#[test]
fn test_log_directory_is_valid() {
    let dir = log_directory();
    assert!(!dir.is_empty());
    assert!(dir.ends_with("logs"));
}

#[test]
fn test_detect_desktop_environment() {
    assert_eq!(capture_method("UBUNTU:GNOME"), DesktopFamily::Gnome);
    assert_eq!(capture_method("KDE"), DesktopFamily::Kde);
    assert_eq!(capture_method("XFCE"), DesktopFamily::Xfce);
    assert_eq!(capture_method("X-CINNAMON"), DesktopFamily::Cinnamon);
    assert_eq!(capture_method("SWAY"), DesktopFamily::Other);
}

#[test]
fn test_directories_from_bases() {
    assert_eq!(config_dir_from(Some("/home/u/.config".to_string())), "/home/u/.config/micround");
    assert_eq!(config_dir_from(None), "./micround");
    assert_eq!(log_dir_from(Some("/d".to_string()), None), "/d/Micround/logs");
    assert_eq!(log_dir_from(None, Some("/h".to_string())), "/h/.local/share/Micround/logs");
    assert_eq!(log_dir_from(None, None), "./.local/share/Micround/logs");
}

#[test]
fn test_text_helpers_match_std() {
    for s in ["  a b  ", "\t\n x\u{3000}", "", "   ", "\u{85}y\u{2028}", "no-space"] {
        assert_eq!(trim(s), s.trim());
    }
    for c in ['\t', ' ', 'a', '\u{a0}', '\u{200b}', '\u{205f}', '\u{3000}', '\u{1680}', '\u{feff}'] {
        assert_eq!(is_white_space(c), c.is_whitespace(), "{:?}", c);
    }
    for n in [0u64, 7, 10, 99, 1234567890, u64::MAX] {
        assert_eq!(u64_to_decimal(n), n.to_string());
    }
}
