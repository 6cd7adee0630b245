use std::time::{Duration, Instant};

use micround::app_core::events::{Command, Event};
use micround::engine::{DisplayEngine, DisplayState, ProcessedFrame};

fn raw_frame_pixels(value: u8) -> Vec<u8> {
    vec![value; 100 * 100 * 4]
}

#[test]
fn test_engine_state_transitions() {
    let mut engine = DisplayEngine::new();
    assert_eq!(engine.state(), DisplayState::Stopped);
    engine.start();
    assert_eq!(engine.state(), DisplayState::Running);
    engine.pause();
    assert_eq!(engine.state(), DisplayState::Paused);
    engine.resume();
    assert_eq!(engine.state(), DisplayState::Running);
    engine.stop();
    assert_eq!(engine.state(), DisplayState::Stopped);
}

#[test]
fn test_pause_from_stopped_is_noop() {
    let mut engine = DisplayEngine::new();
    let event = engine.pause();
    assert!(event.is_none());
    assert_eq!(engine.state(), DisplayState::Stopped);
}

#[test]
fn test_toggle_pause() {
    let mut engine = DisplayEngine::new();
    engine.start();
    assert!(engine.is_running());
    engine.toggle_pause();
    assert!(engine.is_paused());
    engine.toggle_pause();
    assert!(engine.is_running());
}

#[test]
fn test_frames_skipped_when_paused() {
    let mut engine = DisplayEngine::new();
    engine.start();
    engine.pause();
    assert!(!engine.should_process_frame());
    let metrics = engine.metrics();
    assert_eq!(metrics.frames_skipped, 1);
    assert_eq!(metrics.frames_processed, 0);
}

#[test]
fn test_frame_stored_on_pause() {
    let mut engine = DisplayEngine::new();
    engine.start();
    assert!(engine.should_process_frame());
    let stored = engine.store_processed(ProcessedFrame::new(raw_frame_pixels(128), 100, 100));
    assert_eq!(stored.width, 100);
    engine.pause();
    let frozen = engine.get_frozen_frame();
    assert!(frozen.is_some());
    assert_eq!(frozen.unwrap().data[0], 128);
}

#[test]
fn test_handle_command() {
    let mut engine = DisplayEngine::new();
    engine.start();
    assert!(engine.is_running());
    engine.handle_command(&Command::PauseDisplay);
    assert!(engine.is_paused());
    engine.handle_command(&Command::ResumeDisplay);
    assert!(engine.is_running());
    engine.handle_command(&Command::Quit);
    assert_eq!(engine.state(), DisplayState::Stopped);
}

#[test]
fn test_pause_metrics_tracking() {
    let mut engine = DisplayEngine::new();
    engine.start();
    let t0 = Instant::now();
    engine.pause_at(t0);
    engine.resume_at(t0 + Duration::from_millis(50));
    assert_eq!(engine.metrics().time_paused_ms, 50);
}

#[test]
fn test_engine_handle() {
    // The engine's owner pauses and resumes it; the state follows.
    let mut engine = DisplayEngine::new();
    engine.start();
    engine.pause();
    assert!(engine.is_paused());
    engine.resume();
    assert!(!engine.is_paused());
}

#[test]
fn engine_pause_and_resume_publish_events() {
    let mut engine = DisplayEngine::new();
    engine.start();
    assert!(matches!(engine.pause(), Some(Event::DisplayPaused)));
    assert!(engine.pause().is_none());
    assert!(matches!(engine.resume(), Some(Event::DisplayResumed)));
    assert!(engine.resume().is_none());
}

#[test]
fn engine_render_frame_follows_state() {
    let mut engine = DisplayEngine::new();
    assert!(engine.get_render_frame().is_none());
    engine.start();
    engine.store_processed(ProcessedFrame::new(vec![1, 2, 3, 4], 1, 1));
    assert_eq!(engine.get_render_frame().unwrap().data, vec![1, 2, 3, 4]);
    engine.pause();
    engine.store_processed(ProcessedFrame::new(vec![9, 9, 9, 9], 1, 1));
    assert_eq!(engine.get_render_frame().unwrap().data, vec![1, 2, 3, 4]);
    engine.stop();
    assert!(engine.get_render_frame().is_none());
    assert!(engine.get_frozen_frame().is_none());
}

#[test]
fn engine_toggle_twice_returns_to_start() {
    let mut engine = DisplayEngine::new();
    engine.start();
    engine.toggle_pause();
    engine.toggle_pause();
    assert_eq!(engine.state(), DisplayState::Running);
    let mut stopped = DisplayEngine::new();
    assert!(stopped.toggle_pause().is_none());
    assert_eq!(stopped.state(), DisplayState::Stopped);
}
