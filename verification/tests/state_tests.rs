use micround::app_core::error::CaptureError;
use micround::app_core::types::{DeviceId, NegotiatedFormat, PixelFormat};
use std::sync::{Arc, Mutex};

use micround::capture::state::{CameraState, CameraStateManager, StateChangeObserver, StateTransition};

fn format_1080p() -> NegotiatedFormat {
    NegotiatedFormat {
        width: 1920,
        height: 1080,
        framerate_millis: 30_000,
        format: PixelFormat::Mjpeg,
        exact_match: true,
    }
}

#[test]
fn test_initial_state_disconnected() {
    let manager = CameraStateManager::new(DeviceId("test".into()));
    assert_eq!(manager.state(), CameraState::Disconnected);
}

#[test]
fn test_initial_state_available() {
    let manager = CameraStateManager::new_available(DeviceId("test".into()));
    assert_eq!(manager.state(), CameraState::Available);
}

#[test]
fn test_device_arrival() {
    let mut manager = CameraStateManager::new(DeviceId("test".into()));
    assert!(manager.device_arrived().is_ok());
    assert_eq!(manager.state(), CameraState::Available);
}

#[test]
fn test_full_lifecycle() {
    let mut manager = CameraStateManager::new_available(DeviceId("test".into()));

    assert!(manager.begin_open().is_ok());
    assert_eq!(manager.state(), CameraState::Opening);

    assert!(manager.open_succeeded(format_1080p()).is_ok());
    assert_eq!(manager.state(), CameraState::Ready);
    assert!(manager.format().is_some());

    assert!(manager.start_capture().is_ok());
    assert_eq!(manager.state(), CameraState::Capturing);

    assert!(manager.stop_capture().is_ok());
    assert_eq!(manager.state(), CameraState::Ready);

    assert!(manager.close().is_ok());
    assert_eq!(manager.state(), CameraState::Available);
    assert!(manager.format().is_none());
}

#[test]
fn test_invalid_transition() {
    let mut manager = CameraStateManager::new(DeviceId("test".into()));
    assert!(manager.start_capture().is_err());
}

#[test]
fn test_error_and_recovery() {
    let mut manager = CameraStateManager::new_available(DeviceId("test".into()));
    manager.begin_open().unwrap();

    let err = CaptureError::Timeout(1000);
    manager.open_failed(&err).unwrap();
    assert!(manager.state().is_error());

    let can_recover = manager.attempt_recovery().unwrap();
    assert!(can_recover);
    assert_eq!(manager.state(), CameraState::Available);
}

#[test]
fn test_transition_history() {
    let mut manager = CameraStateManager::new(DeviceId("test".into()));
    manager.device_arrived().unwrap();
    manager.begin_open().unwrap();

    let history = manager.history();
    assert_eq!(history.len(), 2);
    assert_eq!(history[0].from, CameraState::Disconnected);
    assert_eq!(history[0].to, CameraState::Available);
    assert_eq!(history[1].from, CameraState::Available);
    assert_eq!(history[1].to, CameraState::Opening);
}

#[test]
fn test_sudden_disconnect() {
    let mut manager = CameraStateManager::new_available(DeviceId("test".into()));
    manager.begin_open().unwrap();
    manager
        .open_succeeded(NegotiatedFormat {
            width: 640,
            height: 480,
            framerate_millis: 30_000,
            format: PixelFormat::Mjpeg,
            exact_match: true,
        })
        .unwrap();
    manager.start_capture().unwrap();

    assert!(manager.device_removed().is_ok());
    assert_eq!(manager.state(), CameraState::Disconnected);
    assert!(manager.format().is_none());
}

#[test]
fn state_refused_transition_keeps_state_and_history() {
    let mut manager = CameraStateManager::new(DeviceId("test".into()));
    let err = manager.begin_open().unwrap_err();
    match err {
        CaptureError::Platform(msg) => {
            assert_eq!(msg, "Cannot open camera in state: Disconnected");
        }
        other => panic!("unexpected error {:?}", other),
    }
    assert_eq!(manager.state(), CameraState::Disconnected);
    assert_eq!(manager.history().len(), 0);
    assert_eq!(manager.transition_count(), 0);
}

#[test]
fn state_history_is_bounded() {
    let mut manager = CameraStateManager::new(DeviceId("test".into()));
    for _ in 0..60 {
        manager.device_arrived().unwrap();
        manager.device_removed().unwrap();
    }
    assert_eq!(manager.history().len(), 100);
    assert_eq!(manager.transition_count(), 120);
    assert_eq!(manager.history()[99].to, CameraState::Disconnected);
}

#[test]
fn test_reset_from_capturing() {
    let mut m = CameraStateManager::new_available(DeviceId("test".into()));
    m.begin_open().unwrap();
    m.open_succeeded(NegotiatedFormat { width: 640, height: 480, framerate_millis: 30_000, format: PixelFormat::Mjpeg, exact_match: true })
        .unwrap();
    m.start_capture().unwrap();
    assert_eq!(m.state(), CameraState::Capturing);
    let count = m.transition_count();
    m.reset(true);
    assert_eq!(m.state(), CameraState::Available);
    assert!(m.format().is_none());
    assert_eq!(m.transition_count(), count + 1);
    let last = m.history().last().unwrap();
    assert_eq!(last.from, CameraState::Capturing);
    assert_eq!(last.to, CameraState::Available);

    m.reset(false);
    assert_eq!(m.state(), CameraState::Disconnected);
}

struct Recorder {
    seen: Arc<Mutex<Vec<(CameraState, CameraState)>>>,
}

impl StateChangeObserver for Recorder {
    fn on_state_change(&mut self, transition: &StateTransition) {
        self.seen.lock().unwrap().push((transition.from.clone(), transition.to.clone()));
    }
}

#[test]
fn test_state_callback() {
    let mut manager = CameraStateManager::new(DeviceId("test".into()));
    let seen = Arc::new(Mutex::new(Vec::new()));
    manager.set_on_state_change(Box::new(Recorder { seen: seen.clone() }));

    manager.device_arrived().unwrap();
    assert_eq!(seen.lock().unwrap().as_slice(), &[(CameraState::Disconnected, CameraState::Available)]);

    // A refused transition is not reported; a reset is.
    assert!(manager.start_capture().is_err());
    assert_eq!(seen.lock().unwrap().len(), 1);
    manager.reset(false);
    assert_eq!(seen.lock().unwrap().len(), 2);
    assert_eq!(seen.lock().unwrap()[1], (CameraState::Available, CameraState::Disconnected));
}
