//! What the application's main loop does with a command: the display
//! engine acts on it, and the loop learns which events to publish, whether
//! to change the camera preview and whether to quit.
use vstd::prelude::*;
use crate::app_core::events::{AppState, Command, Event};
use crate::engine::{DisplayEngine, DisplayState};

verus! {

/// A change to the camera preview of the settings window.
#[derive(Debug, Clone, Copy, PartialEq, Eq, Structural)]
pub enum PreviewChange {
    /// Leave the preview as it is.
    Keep,
    /// Open a preview channel of this size.
    Start { width: u32, height: u32 },
    /// Close the preview channel.
    Stop,
}

/// What the main loop does after a command.
#[derive(Debug)]
pub struct CommandOutcome {
    /// Whether to leave the loop and shut down.
    pub quit: bool,
    /// Events to publish, in order.
    pub events: Vec<Event>,
    /// The change to the preview.
    pub preview: PreviewChange,
}

fn outcome(quit: bool, events: Vec<Event>, preview: PreviewChange) -> (r: CommandOutcome)
    ensures
        r.quit == quit,
        r.events@ == events@,
        r.preview == preview,
{
    CommandOutcome { quit, events, preview }
}

fn publish(event: Option<Event>) -> (r: Vec<Event>)
    ensures
        r@ == match event {
            Some(e) => seq![e],
            None => Seq::<Event>::empty(),
        },
{
    let mut v: Vec<Event> = Vec::new();
    match event {
        Some(e) => v.push(e),
        None => {},
    }
    v
}

/// Acts on a command from the user interface:
/// - quitting leaves the loop, with the engine as it is;
/// - pausing and resuming go to the engine, which tells what to publish;
/// - starting capture starts the engine and publishes the move from idle to
///   running, stopping it stops the engine and publishes the way back;
/// - a snapshot request is announced as taken;
/// - the preview commands open or close the preview;
/// - the settings window and camera refresh need nothing here;
/// - any other command goes to the engine.
pub fn dispatch_command(engine: &mut DisplayEngine, command: &Command) -> (r: CommandOutcome)
    ensures
        r.quit == (*command is Quit),
        (*command is Quit || *command is TakeSnapshot || *command is ShowSettings || *command is RefreshCameras
            || *command is StartPreview || *command is StopPreview) ==> *final(engine) == *old(engine),
        *command is PauseDisplay ==> {
            &&& old(engine).spec_state() is Running ==> final(engine).spec_state() is Paused
                && r.events@ == seq![Event::DisplayPaused]
            &&& !(old(engine).spec_state() is Running) ==> *final(engine) == *old(engine) && r.events@.len() == 0
        },
        *command is ResumeDisplay ==> {
            &&& old(engine).spec_state() is Paused ==> final(engine).spec_state() is Running
                && r.events@ == seq![Event::DisplayResumed]
            &&& !(old(engine).spec_state() is Paused) ==> *final(engine) == *old(engine) && r.events@.len() == 0
        },
        *command is StartCapture ==> {
            &&& final(engine).spec_state() == (if old(engine).spec_state() is Stopped {
                DisplayState::Running
            } else {
                old(engine).spec_state()
            })
            &&& r.events@ == seq![Event::StateChanged { old_state: AppState::Idle, new_state: AppState::Running }]
        },
        *command is StopCapture ==> {
            &&& final(engine).spec_state() is Stopped
            &&& r.events@ == seq![Event::StateChanged { old_state: AppState::Running, new_state: AppState::Idle }]
        },
        *command is TakeSnapshot ==> r.events@ == seq![Event::SnapshotTaken { to_clipboard: command->to_clipboard }],
        (*command is Quit || *command is ShowSettings || *command is RefreshCameras || *command is StartPreview
            || *command is StopPreview) ==> r.events@.len() == 0,
        r.preview == match *command {
            Command::StartPreview { width, height } => PreviewChange::Start { width, height },
            Command::StopPreview => PreviewChange::Stop,
            _ => PreviewChange::Keep,
        },
        !(*command is Quit || *command is PauseDisplay || *command is ResumeDisplay || *command is StartCapture
            || *command is StopCapture || *command is TakeSnapshot || *command is ShowSettings
            || *command is RefreshCameras || *command is StartPreview || *command is StopPreview) ==> {
            &&& *final(engine) == *old(engine)
            &&& r.events@.len() == 0
        },
{
    match command {
        Command::Quit => outcome(true, Vec::new(), PreviewChange::Keep),
        Command::PauseDisplay => {
            let e = engine.pause();
            outcome(false, publish(e), PreviewChange::Keep)
        },
        Command::ResumeDisplay => {
            let e = engine.resume();
            outcome(false, publish(e), PreviewChange::Keep)
        },
        Command::StartCapture { .. } => {
            engine.start();
            let mut v: Vec<Event> = Vec::new();
            v.push(Event::StateChanged { old_state: AppState::Idle, new_state: AppState::Running });
            outcome(false, v, PreviewChange::Keep)
        },
        Command::StopCapture => {
            engine.stop();
            let mut v: Vec<Event> = Vec::new();
            v.push(Event::StateChanged { old_state: AppState::Running, new_state: AppState::Idle });
            outcome(false, v, PreviewChange::Keep)
        },
        Command::TakeSnapshot { to_clipboard } => {
            let mut v: Vec<Event> = Vec::new();
            v.push(Event::SnapshotTaken { to_clipboard: *to_clipboard });
            outcome(false, v, PreviewChange::Keep)
        },
        Command::ShowSettings | Command::RefreshCameras => outcome(false, Vec::new(), PreviewChange::Keep),
        Command::StartPreview { width, height } => outcome(
            false,
            Vec::new(),
            PreviewChange::Start { width: *width, height: *height },
        ),
        Command::StopPreview => outcome(false, Vec::new(), PreviewChange::Stop),
        _ => {
            let e = engine.handle_command(command);
            outcome(false, publish(e), PreviewChange::Keep)
        },
    }
}

} // verus!
