use std::collections::HashMap;
use std::time::Duration;

use micround::platform::autostart::{desktop_entry_content, plist_content, AutostartError};
use micround::platform::display::{DisplayHandle, Point, Rect};
use micround::platform::paths::{AppPaths, PathEnv};
use micround::platform::permissions::{
    check_camera_permission, permission_after_request, permission_step, PermissionError, PermissionStep,
    create_permission_handler, ActivityGuard, ActivityType, CameraPermission, PermissionHandler,
};
use micround::platform::system::{
    PowerState, SleepPrevention, SystemError, SystemMonitor, ThermalState,
};
use micround::app_core::error::{CaptureError, PlatformError};
use micround::platform::wallpaper::{restore_wallpaper, restore_wallpaper_given, RestorePlan, WallpaperInfo};
use micround::platform::window::{
    DesktopWindow, SurfaceFormat, SurfaceInfo, WindowConfig, WindowError, WindowHandle,
};
use micround::platform::display::Size;
use micround::platform::autostart_windows::{disable, enable, is_enabled};

struct MockWindowState {
    bounds: Rect,
    visible: bool,
    surface_info: SurfaceInfo,
    last_frame: Option<Vec<u8>>,
}

struct MockDesktopWindow {
    next_id: u64,
    windows: HashMap<u64, MockWindowState>,
}

impl MockDesktopWindow {
    fn new() -> Self {
        MockDesktopWindow { next_id: 1, windows: HashMap::new() }
    }

    fn last_frame(&self, handle: &WindowHandle) -> Option<&[u8]> {
        self.windows.get(&handle.raw()).and_then(|w| w.last_frame.as_deref())
    }
}

impl DesktopWindow for MockDesktopWindow {
    fn create(&mut self, config: WindowConfig) -> Result<WindowHandle, WindowError> {
        let id = self.next_id;
        self.next_id += 1;
        let bounds = config.bounds.unwrap_or(Rect::new(0, 0, 1920, 1080));
        let state = MockWindowState {
            bounds,
            visible: config.visible,
            surface_info: SurfaceInfo {
                size: bounds.size,
                format: SurfaceFormat::Rgba8,
                stride: bounds.width() as usize * 4,
            },
            last_frame: None,
        };
        self.windows.insert(id, state);
        Ok(WindowHandle::new(id))
    }

    fn destroy(&mut self, handle: &WindowHandle) -> Result<(), WindowError> {
        self.windows.remove(&handle.raw()).map(|_| ()).ok_or(WindowError::NotFound)
    }

    fn set_visible(&mut self, handle: &WindowHandle, visible: bool) -> Result<(), WindowError> {
        self.windows.get_mut(&handle.raw()).map(|w| w.visible = visible).ok_or(WindowError::NotFound)
    }

    fn set_bounds(&mut self, handle: &WindowHandle, bounds: Rect) -> Result<(), WindowError> {
        if let Some(window) = self.windows.get_mut(&handle.raw()) {
            window.bounds = bounds;
            window.surface_info.size = bounds.size;
            window.surface_info.stride = bounds.width() as usize * 4;
            Ok(())
        } else {
            Err(WindowError::NotFound)
        }
    }

    fn get_bounds(&self, handle: &WindowHandle) -> Result<Rect, WindowError> {
        self.windows.get(&handle.raw()).map(|w| w.bounds).ok_or(WindowError::NotFound)
    }

    fn surface_info(&self, handle: &WindowHandle) -> Result<SurfaceInfo, WindowError> {
        self.windows.get(&handle.raw()).map(|w| w.surface_info).ok_or(WindowError::NotFound)
    }

    fn present(&mut self, handle: &WindowHandle, data: &[u8]) -> Result<(), WindowError> {
        let window = self.windows.get_mut(&handle.raw()).ok_or(WindowError::NotFound)?;
        let expected = window.surface_info.buffer_size();
        if data.len() != expected {
            return Err(WindowError::InvalidData { expected, actual: data.len() });
        }
        window.last_frame = Some(data.to_vec());
        Ok(())
    }

    fn is_visible(&self, handle: &WindowHandle) -> Result<bool, WindowError> {
        self.windows.get(&handle.raw()).map(|w| w.visible).ok_or(WindowError::NotFound)
    }

    fn invalidate(&mut self, handle: &WindowHandle) -> Result<(), WindowError> {
        self.windows.get(&handle.raw()).map(|_| ()).ok_or(WindowError::NotFound)
    }
}

struct MockSystemMonitor {
    running: bool,
    power_state: PowerState,
    thermal_state: ThermalState,
}

impl MockSystemMonitor {
    fn new() -> Self {
        MockSystemMonitor { running: false, power_state: PowerState::AcPower, thermal_state: ThermalState::Normal }
    }

    fn set_power_state(&mut self, state: PowerState) {
        self.power_state = state;
    }

    fn set_thermal_state(&mut self, state: ThermalState) {
        self.thermal_state = state;
    }
}

impl SystemMonitor for MockSystemMonitor {
    fn start(&mut self) -> Result<(), SystemError> {
        self.running = true;
        Ok(())
    }

    fn stop(&mut self) -> Result<(), SystemError> {
        self.running = false;
        Ok(())
    }

    fn power_state(&self) -> Result<PowerState, SystemError> {
        Ok(self.power_state)
    }

    fn thermal_state(&self) -> Result<ThermalState, SystemError> {
        Ok(self.thermal_state)
    }

    fn prevent_sleep(&self, _reason: &str) -> Result<SleepPrevention, SystemError> {
        Ok(SleepPrevention::noop())
    }

    fn allow_sleep(&self, _prevention: SleepPrevention) -> Result<(), SystemError> {
        Ok(())
    }
}

fn test_env() -> PathEnv {
    PathEnv {
        xdg_config_home: None,
        xdg_data_home: None,
        xdg_cache_home: None,
        xdg_state_home: None,
        home: Some("/home/tester".to_string()),
    }
}

#[test]
fn test_autostart_error_display() {
    let err = AutostartError::Io("test error".into());
    assert!(err.to_display_string().contains("test error"));
    let err = AutostartError::NotSupported("platform".into());
    assert!(err.to_display_string().contains("Not supported"));
}

#[test]
fn test_plist_content() {
    let content = plist_content("/Applications/Micround.app/Contents/MacOS/micround");
    assert!(content.contains("<?xml version=\"1.0\""));
    assert!(content.contains("<key>Label</key>"));
    assert!(content.contains("<string>com.micround.app</string>"));
    assert!(content.contains("<key>ProgramArguments</key>"));
    assert!(content.contains("/Applications/Micround.app/Contents/MacOS/micround"));
    assert!(content.contains("--minimized"));
    assert!(content.contains("<key>RunAtLoad</key>"));
    assert!(content.contains("<true/>"));
}

#[test]
fn test_desktop_entry_content() {
    let content = desktop_entry_content("/usr/bin/micround");
    assert!(content.contains("[Desktop Entry]"));
    assert!(content.contains("Type=Application"));
    assert!(content.contains("Name=Micround"));
    assert!(content.contains("Exec=\"/usr/bin/micround\" --minimized"));
    assert!(content.contains("Terminal=false"));
    assert!(content.contains("X-GNOME-Autostart-enabled=true"));
}

#[test]
fn test_rect_contains() {
    let rect = Rect::new(100, 100, 200, 150);
    assert!(rect.contains(Point::new(100, 100)));
    assert!(rect.contains(Point::new(200, 175)));
    assert!(!rect.contains(Point::new(99, 100)));
    assert!(!rect.contains(Point::new(300, 100)));
}

#[test]
fn test_mock_desktop_window() {
    let mut window = MockDesktopWindow::new();
    let handle = window.create(WindowConfig::new(DisplayHandle::new(1))).unwrap();
    assert!(window.is_visible(&handle).unwrap());
    window.set_visible(&handle, false).unwrap();
    assert!(!window.is_visible(&handle).unwrap());
    let info = window.surface_info(&handle).unwrap();
    let frame = vec![0u8; info.buffer_size()];
    window.present(&handle, &frame).unwrap();
    assert!(window.last_frame(&handle).is_some());
    window.destroy(&handle).unwrap();
    assert!(window.is_visible(&handle).is_err());
}

#[test]
fn test_mock_system_monitor() {
    let mut monitor = MockSystemMonitor::new();
    assert!(!monitor.should_reduce_activity());
    monitor.set_power_state(PowerState::Battery { percent: 15, time_remaining: None });
    assert!(monitor.should_reduce_activity());
    monitor.set_power_state(PowerState::AcPower);
    monitor.set_thermal_state(ThermalState::Critical);
    assert!(monitor.should_reduce_activity());
}

#[test]
fn test_app_paths_creation() {
    let paths = AppPaths::new(&test_env());
    assert!(paths.is_ok());
    let paths = paths.unwrap();
    assert!(paths.config.contains("icround"));
    assert!(paths.logs.contains("icround"));
}

#[test]
fn test_config_file_path() {
    let paths = AppPaths::new(&test_env()).unwrap();
    let config_file = paths.config_file();
    assert!(config_file.ends_with("config.toml"));
}

#[test]
fn test_camera_permission_status() {
    assert!(CameraPermission::Authorized.is_authorized());
    assert!(CameraPermission::NotRequired.is_authorized());
    assert!(!CameraPermission::Denied.is_authorized());
    assert!(!CameraPermission::NotDetermined.is_authorized());
    assert!(!CameraPermission::Restricted.is_authorized());
}

#[test]
fn test_camera_permission_should_request() {
    assert!(CameraPermission::NotDetermined.should_request());
    assert!(!CameraPermission::Authorized.should_request());
    assert!(!CameraPermission::Denied.should_request());
}

#[test]
fn test_camera_permission_needs_settings() {
    assert!(CameraPermission::Denied.needs_settings_guidance());
    assert!(CameraPermission::Restricted.needs_settings_guidance());
    assert!(!CameraPermission::Authorized.needs_settings_guidance());
    assert!(!CameraPermission::NotDetermined.needs_settings_guidance());
}

#[test]
fn test_activity_guard_noop() {
    let _guard = ActivityGuard::noop();
}

#[test]
fn test_create_permission_handler() {
    let handler = create_permission_handler();
    let status = handler.camera_permission_status();
    assert!(status.is_ok());
    let guard = handler.begin_activity(ActivityType::UserInitiated, "test");
    assert!(guard.is_ok());
}

#[test]
fn test_power_state_battery() {
    let ac = PowerState::AcPower;
    assert!(!ac.is_on_battery());
    assert!(!ac.is_low_battery());
    let battery_ok = PowerState::Battery { percent: 50, time_remaining: Some(Duration::from_secs(3600)) };
    assert!(battery_ok.is_on_battery());
    assert!(!battery_ok.is_low_battery());
    let battery_low = PowerState::Battery { percent: 15, time_remaining: Some(Duration::from_secs(900)) };
    assert!(battery_low.is_on_battery());
    assert!(battery_low.is_low_battery());
}

#[test]
fn test_wallpaper_info_default() {
    let info = WallpaperInfo::default();
    assert!(info.path.is_none());
    assert!(info.style.is_none());
    assert!(info.color.is_none());
}

#[test]
fn test_wallpaper_info_with_path() {
    let info = WallpaperInfo::with_path("/path/to/wallpaper.jpg".into());
    assert_eq!(info.path, Some("/path/to/wallpaper.jpg".into()));
}

#[test]
fn test_wallpaper_info_is_valid_no_file() {
    let info = WallpaperInfo::with_path("/nonexistent/path.jpg".into());
    assert!(!info.is_valid());
}

#[test]
fn test_wallpaper_info_is_valid_with_color() {
    let info = WallpaperInfo { path: None, color: Some("#000000".into()), ..Default::default() };
    assert!(info.is_valid());
}

#[test]
fn test_wallpaper_info_empty_is_invalid() {
    let info = WallpaperInfo::default();
    assert!(!info.is_valid());
}

#[test]
fn test_restore_invalid_wallpaper_fails() {
    let info = WallpaperInfo::default();
    let result = restore_wallpaper(&info, None);
    assert!(result.is_err());
}

#[test]
fn test_surface_format_bytes() {
    assert_eq!(SurfaceFormat::Bgra8.bytes_per_pixel(), 4);
    assert_eq!(SurfaceFormat::Rgba8.bytes_per_pixel(), 4);
    assert_eq!(SurfaceFormat::Rgb8.bytes_per_pixel(), 3);
}

#[test]
fn test_surface_info_buffer_size() {
    let info = SurfaceInfo { size: Size::new(1920, 1080), format: SurfaceFormat::Bgra8, stride: 1920 * 4 };
    assert_eq!(info.buffer_size(), 1920 * 1080 * 4);
}

#[test]
fn test_window_config_builder() {
    let config = WindowConfig::new(DisplayHandle::new(1)).with_title("Test Window").hidden();
    assert_eq!(config.title, "Test Window");
    assert!(!config.visible);
}

#[test]
fn test_windows_autostart_not_supported() {
    for result in [is_enabled().map(|_| ()), enable(), disable()] {
        match result {
            Err(AutostartError::NotSupported(m)) => assert_eq!(m, "Windows autostart not yet implemented"),
            other => panic!("unexpected {:?}", other),
        }
    }
}

#[test]
fn test_is_valid_given() {
    let with_path = WallpaperInfo::with_path("/some/image.jpg".to_string());
    assert!(with_path.is_valid_given(true));
    assert!(!with_path.is_valid_given(false));
    let color_only = WallpaperInfo { color: Some("#000000".to_string()), ..Default::default() };
    assert!(color_only.is_valid_given(false));
    assert!(!WallpaperInfo::default().is_valid_given(true));
}

#[test]
fn test_restore_wallpaper_given() {
    let mut info = WallpaperInfo::with_path("/pics/a.jpg".to_string());
    info.desktop_env = Some("XFCE".to_string());
    match restore_wallpaper_given(&info, None, true) {
        Ok(RestorePlan::Commands { required, tool, .. }) => {
            assert_eq!(required.program, "xfconf-query");
            assert_eq!(required.args.last().unwrap(), "/pics/a.jpg");
            assert_eq!(tool, "xfconf-query");
        }
        other => panic!("unexpected {:?}", other),
    }
    match restore_wallpaper_given(&info, None, false) {
        Err(PlatformError::InvalidState(m)) => {
            assert_eq!(m, "Cannot restore wallpaper: original file may have been deleted")
        }
        other => panic!("unexpected {:?}", other),
    }
}

#[test]
fn test_linux_end_activity() {
    let handler = create_permission_handler();
    let guard = handler.begin_activity(ActivityType::LatencyCritical, "capturing").unwrap();
    assert_eq!(guard.raw_id(), 0);
    assert!(handler.end_activity(guard).is_ok());
}

struct AskingHandler {
    answer: CameraPermission,
}

impl PermissionHandler for AskingHandler {
    fn camera_permission_status(&self) -> Result<CameraPermission, PermissionError> {
        Ok(CameraPermission::NotDetermined)
    }
    fn request_camera_permission(&self) -> Result<CameraPermission, PermissionError> {
        Ok(self.answer)
    }
    fn begin_activity(&self, _t: ActivityType, _reason: &str) -> Result<ActivityGuard, PermissionError> {
        Ok(ActivityGuard::noop())
    }
    fn end_activity(&self, _guard: ActivityGuard) -> Result<(), PermissionError> {
        Ok(())
    }
    fn disable_automatic_termination(&self, _reason: &str) -> Result<(), PermissionError> {
        Ok(())
    }
    fn enable_automatic_termination(&self) -> Result<(), PermissionError> {
        Ok(())
    }
    fn open_camera_settings(&self) -> Result<(), PermissionError> {
        Ok(())
    }
}

#[test]
fn test_permission_step() {
    assert!(matches!(permission_step(Ok(CameraPermission::Authorized)), PermissionStep::Granted));
    assert!(matches!(permission_step(Ok(CameraPermission::NotRequired)), PermissionStep::Granted));
    assert!(matches!(permission_step(Ok(CameraPermission::NotDetermined)), PermissionStep::Request));
    match permission_step(Ok(CameraPermission::Denied)) {
        PermissionStep::OpenSettings(CaptureError::PermissionDenied(m)) => {
            assert_eq!(m, "Camera permission denied. Please enable in System Preferences > Privacy & Security > Camera")
        }
        other => panic!("unexpected {:?}", other),
    }
    match permission_step(Err(PermissionError::Unsupported)) {
        PermissionStep::Refuse(CaptureError::PermissionDenied(m)) => {
            assert_eq!(m, "Failed to check permission: Platform not supported for this operation")
        }
        other => panic!("unexpected {:?}", other),
    }
    assert!(permission_after_request(Ok(CameraPermission::Authorized)).is_ok());
    match permission_after_request(Ok(CameraPermission::Denied)) {
        Err(CaptureError::PermissionDenied(m)) => assert_eq!(m, "Camera permission was not granted"),
        other => panic!("unexpected {:?}", other),
    }
}

#[test]
fn test_check_camera_permission() {
    let mut checked = false;
    assert!(check_camera_permission(&create_permission_handler(), &mut checked).is_ok());
    assert!(checked);

    let mut checked = false;
    let refusing = AskingHandler { answer: CameraPermission::Denied };
    assert!(check_camera_permission(&refusing, &mut checked).is_err());
    assert!(!checked);

    let granting = AskingHandler { answer: CameraPermission::Authorized };
    assert!(check_camera_permission(&granting, &mut checked).is_ok());
    assert!(checked);
    assert!(check_camera_permission(&refusing, &mut checked).is_ok());
}
