use micround::app_core::error::CaptureError;
use micround::app_core::types::{CameraCapability, CameraDevice, DeviceId, NegotiatedFormat, PixelFormat};
use micround::capture::enumerator::CameraEnumerator;
use micround::capture::manager::{CaptureManager, DeviceEvent};
use micround::capture::state::CameraState;

struct MockEnumerator {
    devices: Vec<CameraDevice>,
}

fn mock_device(id: &str, name: &str) -> CameraDevice {
    CameraDevice {
        id: DeviceId(id.into()),
        name: name.into(),
        manufacturer: Some("MockCorp".into()),
        capabilities: vec![CameraCapability { width: 1920, height: 1080, framerate_millis: 30_000, format: PixelFormat::Mjpeg }],
        is_available: true,
    }
}

impl MockEnumerator {
    fn new() -> Self {
        MockEnumerator { devices: vec![mock_device("mock-camera-1", "Mock Camera 1")] }
    }
}

impl CameraEnumerator for MockEnumerator {
    fn enumerate(&self) -> Result<Vec<CameraDevice>, CaptureError> {
        Ok(self.devices.clone())
    }

    fn get_device(&self, id: &DeviceId) -> Result<CameraDevice, CaptureError> {
        self.devices
            .iter()
            .find(|d| &d.id == id)
            .cloned()
            .ok_or_else(|| CaptureError::DeviceNotFound(id.0.clone()))
    }

    fn get_capabilities(&self, id: &DeviceId) -> Result<Vec<CameraCapability>, CaptureError> {
        self.get_device(id).map(|d| d.capabilities)
    }

    fn is_available(&self, id: &DeviceId) -> bool {
        self.devices.iter().any(|d| &d.id == id && d.is_available)
    }

    fn refresh(&mut self) -> Result<(), CaptureError> {
        Ok(())
    }
}

fn format_1080p() -> NegotiatedFormat {
    NegotiatedFormat { width: 1920, height: 1080, framerate_millis: 30_000, format: PixelFormat::Mjpeg, exact_match: true }
}

#[test]
fn test_enumerate_cameras() {
    let mut manager = CaptureManager::with_enumerator(MockEnumerator::new());
    let (cameras, events) = manager.enumerate_cameras();
    assert_eq!(cameras.len(), 1);
    assert_eq!(cameras[0].name, "Mock Camera 1");
    assert!(events.is_empty());
}

#[test]
fn test_select_camera() {
    let mut manager = CaptureManager::with_enumerator(MockEnumerator::new());
    let (cameras, _) = manager.enumerate_cameras();
    let handle = manager.select_camera(&cameras[0].id).unwrap();
    assert_eq!(handle.device_id(), &cameras[0].id);
    assert_eq!(handle.state(), CameraState::Available);
}

#[test]
fn test_no_camera_selected_error() {
    let mut manager = CaptureManager::with_enumerator(MockEnumerator::new());
    let result = manager.check_start();
    assert!(result.is_err());
    assert!(manager.begin_open().is_err());
}

#[test]
fn test_device_not_found() {
    let mut manager = CaptureManager::with_enumerator(MockEnumerator::new());
    let result = manager.select_camera(&DeviceId("nonexistent".into()));
    assert!(matches!(result, Err(CaptureError::DeviceNotFound(_))));
}

#[test]
fn test_camera_handle_clone() {
    let mut manager = CaptureManager::with_enumerator(MockEnumerator::new());
    let (cameras, _) = manager.enumerate_cameras();
    let handle = manager.select_camera(&cameras[0].id).unwrap();
    let handle2 = handle.clone();
    assert_eq!(handle.device_id(), handle2.device_id());
}

#[test]
fn test_get_capabilities() {
    let mut manager = CaptureManager::with_enumerator(MockEnumerator::new());
    let (cameras, _) = manager.enumerate_cameras();
    let caps = manager.get_capabilities(&cameras[0].id).unwrap();
    assert_eq!(caps.len(), 1);
    assert_eq!(caps[0].width, 1920);
    assert_eq!(caps[0].height, 1080);
}

#[test]
fn manager_start_and_stop_flow() {
    let mut manager = CaptureManager::with_enumerator(MockEnumerator::new());
    let (cameras, _) = manager.enumerate_cameras();
    manager.select_camera(&cameras[0].id).unwrap();
    assert!(manager.check_start().is_ok());
    let id = manager.begin_open().unwrap();
    assert_eq!(id.0, "mock-camera-1");
    assert_eq!(manager.camera_state(&id), Some(CameraState::Opening));
    let format = manager.finish_start(Ok(format_1080p())).unwrap();
    assert_eq!(format, format_1080p());
    assert_eq!(manager.camera_state(&id), Some(CameraState::Capturing));
    assert_eq!(manager.current_format(), Some(format_1080p()));
    assert!(manager.selected_camera().unwrap().is_capturing());
    match manager.check_start() {
        Err(CaptureError::Platform(m)) => assert_eq!(m, "Cannot start capture in state: Capturing"),
        other => panic!("unexpected {:?}", other),
    }
    manager.stop_capture().unwrap();
    assert_eq!(manager.camera_state(&id), Some(CameraState::Ready));
    manager.deselect_camera();
    assert!(manager.selected_camera().is_none());
}

#[test]
fn manager_failed_open_records_error() {
    let mut manager = CaptureManager::with_enumerator(MockEnumerator::new());
    let (cameras, _) = manager.enumerate_cameras();
    manager.select_camera(&cameras[0].id).unwrap();
    manager.begin_open().unwrap();
    let r = manager.finish_start(Err(CaptureError::DeviceBusy));
    assert!(matches!(r, Err(CaptureError::DeviceBusy)));
    assert!(manager.camera_state(&cameras[0].id).unwrap().is_error());
}

#[test]
fn manager_reports_unlisted_cameras() {
    let mut manager = CaptureManager::with_enumerator(MockEnumerator::new());
    manager.enumerate_cameras();
    let a = mock_device("a", "A");
    let events = manager.track_devices(&vec![a.clone(), a.clone()]);
    assert_eq!(events.len(), 1);
    match &events[0] {
        DeviceEvent::Disconnected(d) => assert_eq!(d.0, "mock-camera-1"),
        other => panic!("unexpected {:?}", other),
    }
    assert_eq!(manager.camera_state(&DeviceId("mock-camera-1".into())), Some(CameraState::Disconnected));
    assert_eq!(manager.camera_state(&DeviceId("a".into())), Some(CameraState::Available));
    // Already disconnected: not reported again.
    let events = manager.track_devices(&vec![a]);
    assert!(events.is_empty());
}
