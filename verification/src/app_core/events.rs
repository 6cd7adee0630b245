//! Commands (from the user interface to the subsystems), events (from the
//! subsystems to their subscribers) and the application state machine.
use vstd::prelude::*;
use crate::app_core::error::{error_display_text, error_severity, MicroundError};
use crate::app_core::types::{same_device, CameraDevice, CaptureSettings, DeviceId, DisplayId, Flip, Rotation, ScalingMode};

verus! {

/// Commands sent from the user interface to the capture and render subsystems.
#[derive(Debug)]
pub enum Command {
    /// Start capturing from a camera.
    StartCapture { device_id: DeviceId },
    /// Stop capturing.
    StopCapture,
    /// Freeze the current frame.
    PauseDisplay,
    /// Resume from a pause.
    ResumeDisplay,
    /// Change the capture settings.
    UpdateCaptureSettings { settings: CaptureSettings },
    /// Take a snapshot.
    TakeSnapshot { to_clipboard: bool },
    /// Select another camera.
    SelectCamera { device_id: DeviceId },
    /// Select the target display.
    SelectDisplay { display_id: DisplayId },
    /// Change the scaling mode.
    SetScaling { mode: ScalingMode },
    /// Change the rotation.
    SetRotation { rotation: Rotation },
    /// Change the flip.
    SetFlip { flip: Flip },
    /// Refresh the camera list.
    RefreshCameras,
    /// Show the settings window.
    ShowSettings,
    /// Start the camera preview in the settings window.
    StartPreview { width: u32, height: u32 },
    /// Stop the camera preview.
    StopPreview,
    /// Quit the application.
    Quit,
}

/// Reasons a frame may be dropped.
#[derive(Debug, Clone, Copy, PartialEq, Eq, Structural)]
pub enum FrameDropReason {
    /// The processing queue was full.
    QueueFull,
    /// Processing took too long.
    ProcessingTimeout,
    /// The render queue was full.
    RenderQueueFull,
}

/// Application state.
#[derive(Debug, Clone, Copy, PartialEq, Eq, Structural)]
pub enum AppState {
    /// Not capturing.
    Idle,
    /// Starting capture.
    Starting,
    /// Capturing and displaying.
    Running,
    /// Display paused, capture continues.
    Paused,
    /// Reconnecting after a disconnect.
    Reconnecting,
    /// Error state.
    Error,
    /// Shutting down.
    ShuttingDown,
}

/// Events broadcast from the subsystems to their subscribers.
#[derive(Debug)]
pub enum Event {
    CameraConnected { device: CameraDevice },
    CameraDisconnected { device_id: DeviceId },
    /// Capture started; the frame rate is in thousandths of a frame per second.
    CaptureStarted { device_id: DeviceId, resolution: (u32, u32), fps_millis: u32 },
    CaptureStopped { device_id: DeviceId },
    FrameDropped { sequence: u64, reason: FrameDropReason },
    DisplayPaused,
    DisplayResumed,
    SnapshotTaken { to_clipboard: bool },
    Error { error: MicroundError },
    SettingsChanged,
    StateChanged { old_state: AppState, new_state: AppState },
    CameraReconnected { device_id: DeviceId },
    CameraReconnectionFailed { device_id: DeviceId },
    CameraReconnectionTimedOut { device_id: DeviceId },
}

/// Whether `b` is a copy of `a`: the same variant with the same values (an
/// error keeps its text and severity).
pub open spec fn event_copy(a: Event, b: Event) -> bool {
    match (a, b) {
        (Event::CameraConnected { device: x }, Event::CameraConnected { device: y }) => same_device(x, y),
        (Event::CameraDisconnected { device_id: x }, Event::CameraDisconnected { device_id: y }) => x == y,
        (Event::CaptureStarted { device_id: x, resolution: rx, fps_millis: fx },
            Event::CaptureStarted { device_id: y, resolution: ry, fps_millis: fy }) => x == y && rx == ry && fx == fy,
        (Event::CaptureStopped { device_id: x }, Event::CaptureStopped { device_id: y }) => x == y,
        (Event::FrameDropped { sequence: sx, reason: rx }, Event::FrameDropped { sequence: sy, reason: ry }) => sx == sy && rx == ry,
        (Event::DisplayPaused, Event::DisplayPaused) => true,
        (Event::DisplayResumed, Event::DisplayResumed) => true,
        (Event::SnapshotTaken { to_clipboard: x }, Event::SnapshotTaken { to_clipboard: y }) => x == y,
        (Event::Error { error: x }, Event::Error { error: y }) =>
            error_display_text(x) == error_display_text(y) && error_severity(x) == error_severity(y),
        (Event::SettingsChanged, Event::SettingsChanged) => true,
        (Event::StateChanged { old_state: ox, new_state: nx }, Event::StateChanged { old_state: oy, new_state: ny }) =>
            ox == oy && nx == ny,
        (Event::CameraReconnected { device_id: x }, Event::CameraReconnected { device_id: y }) => x == y,
        (Event::CameraReconnectionFailed { device_id: x }, Event::CameraReconnectionFailed { device_id: y }) => x == y,
        (Event::CameraReconnectionTimedOut { device_id: x }, Event::CameraReconnectionTimedOut { device_id: y }) => x == y,
        _ => false,
    }
}

impl Clone for Event {
    fn clone(&self) -> (r: Self)
        ensures
            event_copy(*self, r),
    {
        match self {
            Event::CameraConnected { device } => Event::CameraConnected { device: device.clone() },
            Event::CameraDisconnected { device_id } => Event::CameraDisconnected { device_id: device_id.clone() },
            Event::CaptureStarted { device_id, resolution, fps_millis } => Event::CaptureStarted {
                device_id: device_id.clone(),
                resolution: *resolution,
                fps_millis: *fps_millis,
            },
            Event::CaptureStopped { device_id } => Event::CaptureStopped { device_id: device_id.clone() },
            Event::FrameDropped { sequence, reason } => Event::FrameDropped { sequence: *sequence, reason: *reason },
            Event::DisplayPaused => Event::DisplayPaused,
            Event::DisplayResumed => Event::DisplayResumed,
            Event::SnapshotTaken { to_clipboard } => Event::SnapshotTaken { to_clipboard: *to_clipboard },
            Event::Error { error } => Event::Error { error: error.clone() },
            Event::SettingsChanged => Event::SettingsChanged,
            Event::StateChanged { old_state, new_state } => Event::StateChanged { old_state: *old_state, new_state: *new_state },
            Event::CameraReconnected { device_id } => Event::CameraReconnected { device_id: device_id.clone() },
            Event::CameraReconnectionFailed { device_id } => Event::CameraReconnectionFailed { device_id: device_id.clone() },
            Event::CameraReconnectionTimedOut { device_id } => Event::CameraReconnectionTimedOut { device_id: device_id.clone() },
        }
    }
}

/// The transitions of the application state machine.
pub open spec fn app_transition_allowed(from: AppState, to: AppState) -> bool {
    match (from, to) {
        (AppState::Idle, AppState::Starting) => true,
        (AppState::Idle, AppState::ShuttingDown) => true,
        (AppState::Starting, AppState::Running) => true,
        (AppState::Starting, AppState::Idle) => true,
        (AppState::Starting, AppState::Error) => true,
        (AppState::Starting, AppState::ShuttingDown) => true,
        (AppState::Running, AppState::Idle) => true,
        (AppState::Running, AppState::Paused) => true,
        (AppState::Running, AppState::Error) => true,
        (AppState::Running, AppState::Reconnecting) => true,
        (AppState::Running, AppState::ShuttingDown) => true,
        (AppState::Paused, AppState::Running) => true,
        (AppState::Paused, AppState::Idle) => true,
        (AppState::Paused, AppState::Error) => true,
        (AppState::Paused, AppState::ShuttingDown) => true,
        (AppState::Reconnecting, AppState::Running) => true,
        (AppState::Reconnecting, AppState::Idle) => true,
        (AppState::Reconnecting, AppState::Error) => true,
        (AppState::Reconnecting, AppState::ShuttingDown) => true,
        (AppState::Error, AppState::Idle) => true,
        (AppState::Error, AppState::Starting) => true,
        (AppState::Error, AppState::ShuttingDown) => true,
        _ => false,
    }
}

/// The display text of an application state.
pub open spec fn app_state_text(s: AppState) -> Seq<char> {
    match s {
        AppState::Idle => "Idle"@,
        AppState::Starting => "Starting"@,
        AppState::Running => "Running"@,
        AppState::Paused => "Paused"@,
        AppState::Reconnecting => "Reconnecting"@,
        AppState::Error => "Error"@,
        AppState::ShuttingDown => "ShuttingDown"@,
    }
}

impl AppState {
    /// Whether the state machine allows going from this state to `target`.
    pub fn can_transition_to(&self, target: AppState) -> (r: bool)
        ensures
            r == app_transition_allowed(*self, target),
    {
        match (self, target) {
            (AppState::Idle, AppState::Starting) => true,
            (AppState::Idle, AppState::ShuttingDown) => true,
            (AppState::Starting, AppState::Running) => true,
            (AppState::Starting, AppState::Idle) => true,
            (AppState::Starting, AppState::Error) => true,
            (AppState::Starting, AppState::ShuttingDown) => true,
            (AppState::Running, AppState::Idle) => true,
            (AppState::Running, AppState::Paused) => true,
            (AppState::Running, AppState::Error) => true,
            (AppState::Running, AppState::Reconnecting) => true,
            (AppState::Running, AppState::ShuttingDown) => true,
            (AppState::Paused, AppState::Running) => true,
            (AppState::Paused, AppState::Idle) => true,
            (AppState::Paused, AppState::Error) => true,
            (AppState::Paused, AppState::ShuttingDown) => true,
            (AppState::Reconnecting, AppState::Running) => true,
            (AppState::Reconnecting, AppState::Idle) => true,
            (AppState::Reconnecting, AppState::Error) => true,
            (AppState::Reconnecting, AppState::ShuttingDown) => true,
            (AppState::Error, AppState::Idle) => true,
            (AppState::Error, AppState::Starting) => true,
            (AppState::Error, AppState::ShuttingDown) => true,
            _ => false,
        }
    }

    /// Whether the application is in an active capture state.
    pub fn is_capturing(&self) -> (r: bool)
        ensures
            r == (*self == AppState::Running || *self == AppState::Paused || *self == AppState::Reconnecting),
    {
        matches!(self, AppState::Running | AppState::Paused | AppState::Reconnecting)
    }

    /// Whether the application accepts user commands.
    pub fn can_accept_commands(&self) -> (r: bool)
        ensures
            r == (*self == AppState::Idle || *self == AppState::Running || *self == AppState::Paused
                || *self == AppState::Error),
    {
        matches!(self, AppState::Idle | AppState::Running | AppState::Paused | AppState::Error)
    }

    /// The display text of this state.
    pub fn as_str(&self) -> (r: &'static str)
        ensures
            r@ == app_state_text(*self),
    {
        match self {
            AppState::Idle => "Idle",
            AppState::Starting => "Starting",
            AppState::Running => "Running",
            AppState::Paused => "Paused",
            AppState::Reconnecting => "Reconnecting",
            AppState::Error => "Error",
            AppState::ShuttingDown => "ShuttingDown",
        }
    }
}

/// Shutting down is reachable in one step from every state but itself, and
/// nothing leaves it.
pub proof fn lemma_shutdown_reachable_and_final(s: AppState)
    ensures
        s != AppState::ShuttingDown ==> app_transition_allowed(s, AppState::ShuttingDown),
        forall|t: AppState| !app_transition_allowed(AppState::ShuttingDown, t),
{
}

/// No state moves to itself.
pub proof fn lemma_no_self_transition(s: AppState)
    ensures
        !app_transition_allowed(s, s),
{
}

} // verus!
