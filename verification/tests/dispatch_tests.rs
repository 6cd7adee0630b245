use micround::app_core::events::{AppState, Command, Event};
use micround::app_core::types::{DeviceId, Rotation};
use micround::dispatch::{dispatch_command, PreviewChange};
use micround::engine::{DisplayEngine, DisplayState};
use micround::platform::system::{activity_reduction, PowerState, SystemMonitor, ThermalState};
use micround::platform::system::{SessionEvent, SleepEvent, SystemEvent, SystemEventHandler};
use micround::platform::system_windows::WindowsSystemMonitor;

#[test]
fn test_dispatch_quit_leaves_engine() {
    let mut engine = DisplayEngine::new();
    engine.start();
    let out = dispatch_command(&mut engine, &Command::Quit);
    assert!(out.quit);
    assert!(out.events.is_empty());
    assert_eq!(out.preview, PreviewChange::Keep);
    assert_eq!(engine.state(), DisplayState::Running);
}

#[test]
fn test_dispatch_start_and_stop_capture() {
    let mut engine = DisplayEngine::new();
    let out = dispatch_command(&mut engine, &Command::StartCapture { device_id: DeviceId("cam0".to_string()) });
    assert!(!out.quit);
    assert_eq!(engine.state(), DisplayState::Running);
    assert_eq!(out.events.len(), 1);
    assert!(matches!(
        out.events[0],
        Event::StateChanged { old_state: AppState::Idle, new_state: AppState::Running }
    ));

    let out = dispatch_command(&mut engine, &Command::StopCapture);
    assert_eq!(engine.state(), DisplayState::Stopped);
    assert_eq!(out.events.len(), 1);
    assert!(matches!(
        out.events[0],
        Event::StateChanged { old_state: AppState::Running, new_state: AppState::Idle }
    ));
}

#[test]
fn test_dispatch_pause_resume() {
    let mut engine = DisplayEngine::new();
    let out = dispatch_command(&mut engine, &Command::PauseDisplay);
    assert!(out.events.is_empty());
    assert_eq!(engine.state(), DisplayState::Stopped);

    engine.start();
    let out = dispatch_command(&mut engine, &Command::PauseDisplay);
    assert_eq!(engine.state(), DisplayState::Paused);
    assert!(matches!(out.events.as_slice(), [Event::DisplayPaused]));

    let out = dispatch_command(&mut engine, &Command::ResumeDisplay);
    assert_eq!(engine.state(), DisplayState::Running);
    assert!(matches!(out.events.as_slice(), [Event::DisplayResumed]));

    let out = dispatch_command(&mut engine, &Command::ResumeDisplay);
    assert!(out.events.is_empty());
    assert_eq!(engine.state(), DisplayState::Running);
}

#[test]
fn test_dispatch_snapshot_and_preview() {
    let mut engine = DisplayEngine::new();
    let out = dispatch_command(&mut engine, &Command::TakeSnapshot { to_clipboard: true });
    assert!(matches!(out.events.as_slice(), [Event::SnapshotTaken { to_clipboard: true }]));

    let out = dispatch_command(&mut engine, &Command::StartPreview { width: 320, height: 240 });
    assert_eq!(out.preview, PreviewChange::Start { width: 320, height: 240 });
    assert!(out.events.is_empty());

    let out = dispatch_command(&mut engine, &Command::StopPreview);
    assert_eq!(out.preview, PreviewChange::Stop);

    let out = dispatch_command(&mut engine, &Command::ShowSettings);
    assert!(!out.quit);
    assert!(out.events.is_empty());
    assert_eq!(out.preview, PreviewChange::Keep);
    assert_eq!(engine.state(), DisplayState::Stopped);
}

#[test]
fn test_dispatch_other_commands_change_nothing() {
    let mut engine = DisplayEngine::new();
    engine.start();
    let out = dispatch_command(&mut engine, &Command::SetRotation { rotation: Rotation::Clockwise90 });
    assert!(!out.quit);
    assert!(out.events.is_empty());
    assert_eq!(engine.state(), DisplayState::Running);
}

struct NoHandler;

impl SystemEventHandler for NoHandler {
    fn on_system_event(&mut self, _event: SystemEvent) {}
}

#[test]
fn test_windows_monitor_reports_unsupported() {
    let mut monitor = WindowsSystemMonitor::new(NoHandler);
    assert!(monitor.start().is_ok());
    assert!(monitor.power_state().is_err());
    assert!(monitor.thermal_state().is_err());
    let guard = monitor.prevent_sleep("capturing").unwrap();
    assert_eq!(guard.raw_id(), 0);
    assert!(monitor.allow_sleep(guard).is_ok());
    assert!(!monitor.should_reduce_activity());
    assert!(monitor.stop().is_ok());
    let _ = (PowerState::Unknown, ThermalState::Normal, SleepEvent::WillSleep, SessionEvent::ScreenLocking);
}

#[test]
fn test_activity_reduction_decisions() {
    let low = Some(PowerState::Battery { percent: 10, time_remaining: None });
    let high = Some(PowerState::Battery { percent: 80, time_remaining: None });
    assert!(activity_reduction(&low, &None));
    assert!(activity_reduction(&low, &Some(ThermalState::Normal)));
    assert!(!activity_reduction(&high, &Some(ThermalState::Normal)));
    assert!(activity_reduction(&high, &Some(ThermalState::Fair)));
    assert!(!activity_reduction(&Some(PowerState::AcPower), &None));
    assert!(!activity_reduction(&None, &None));
    assert!(activity_reduction(&None, &Some(ThermalState::Critical)));
}
