//! System events: power, sleep and wake, session changes and temperature,
//! and what the application does about them.
use vstd::prelude::*;
use crate::app_core::events::Command;
use crate::text::owned;

verus! {

/// Where the system draws power from.
#[derive(Debug, Clone, Copy, PartialEq, Eq)]
pub enum PowerState {
    /// Mains power.
    AcPower,
    /// Battery power.
    Battery {
        /// Charge left, 0 to 100.
        percent: u8,
        /// Estimated time left.
        time_remaining: Option<core::time::Duration>,
    },
    /// Unknown.
    Unknown,
}

impl PowerState {
    /// Whether the system runs on battery.
    pub fn is_on_battery(&self) -> (r: bool)
        ensures
            r == (*self is Battery),
    {
        matches!(self, PowerState::Battery { .. })
    }

    /// Whether the battery is below 20%.
    pub fn is_low_battery(&self) -> (r: bool)
        ensures
            r == (*self matches PowerState::Battery { percent, .. } && percent < 20),
    {
        match self {
            PowerState::Battery { percent, .. } => *percent < 20,
            _ => false,
        }
    }
}

/// Sleep and wake.
#[derive(Debug, Clone, Copy, PartialEq, Eq, Structural)]
pub enum SleepEvent {
    /// The system is about to sleep.
    WillSleep,
    /// The system woke up.
    DidWake,
    /// A sleep was cancelled.
    SleepCancelled,
}

/// User session changes.
#[derive(Debug, Clone, Copy, PartialEq, Eq, Structural)]
pub enum SessionEvent {
    /// The screen is being locked.
    ScreenLocking,
    /// The screen was unlocked.
    ScreenUnlocked,
    /// The user is logging out.
    LoggingOut,
    /// Another user is becoming active.
    SwitchingUser,
    /// This session became active again.
    SessionActivated,
}

/// Thermal state, for throttling.
#[derive(Debug, Clone, Copy, PartialEq, Eq, Structural)]
pub enum ThermalState {
    /// Normal.
    Normal,
    /// Warm: consider doing less.
    Fair,
    /// Hot: do less.
    Serious,
    /// Critically hot: must do less.
    Critical,
}

/// The share of the full frame rate to keep in a thermal state, in percent.
pub open spec fn frame_rate_share(t: ThermalState) -> u32 {
    match t {
        ThermalState::Normal => 100,
        ThermalState::Fair => 75,
        ThermalState::Serious => 50,
        ThermalState::Critical => 25,
    }
}

impl ThermalState {
    /// Whether to throttle: in every state but normal.
    pub fn should_throttle(&self) -> (r: bool)
        ensures
            r == !(*self is Normal),
    {
        matches!(self, ThermalState::Fair | ThermalState::Serious | ThermalState::Critical)
    }

    /// The recommended share of the full frame rate, in percent.
    pub fn frame_rate_percent(&self) -> (r: u32)
        ensures
            r == frame_rate_share(*self),
    {
        match self {
            ThermalState::Normal => 100,
            ThermalState::Fair => 75,
            ThermalState::Serious => 50,
            ThermalState::Critical => 25,
        }
    }
}

/// A system event.
#[derive(Debug, Clone, Copy, PartialEq, Eq)]
pub enum SystemEvent {
    /// The power state changed.
    PowerStateChanged(PowerState),
    /// Sleep or wake.
    Sleep(SleepEvent),
    /// A session change.
    Session(SessionEvent),
    /// The thermal state changed.
    ThermalStateChanged(ThermalState),
    /// The system clock jumped.
    TimeChanged,
}

/// The command a system event asks for: pause before sleep or when the
/// screen locks, resume on wake or unlock, stop capture when the user logs
/// out; nothing otherwise.
pub open spec fn system_event_command_spec(e: SystemEvent) -> Option<Command> {
    match e {
        SystemEvent::Sleep(SleepEvent::WillSleep) | SystemEvent::Session(SessionEvent::ScreenLocking) => Some(Command::PauseDisplay),
        SystemEvent::Sleep(SleepEvent::DidWake) | SystemEvent::Session(SessionEvent::ScreenUnlocked) => Some(Command::ResumeDisplay),
        SystemEvent::Session(SessionEvent::LoggingOut) => Some(Command::StopCapture),
        _ => None,
    }
}

/// The command a system event asks for, if any.
pub fn system_event_command(event: SystemEvent) -> (r: Option<Command>)
    ensures
        r == system_event_command_spec(event),
{
    match event {
        SystemEvent::Sleep(SleepEvent::WillSleep) | SystemEvent::Session(SessionEvent::ScreenLocking) => Some(Command::PauseDisplay),
        SystemEvent::Sleep(SleepEvent::DidWake) | SystemEvent::Session(SessionEvent::ScreenUnlocked) => Some(Command::ResumeDisplay),
        SystemEvent::Session(SessionEvent::LoggingOut) => Some(Command::StopCapture),
        _ => None,
    }
}

/// Errors of system operations.
#[derive(Debug)]
pub enum SystemError {
    /// Notifications could not be registered.
    RegistrationFailed(String),
    /// A system query failed.
    QueryFailed(String),
    /// The platform is not supported.
    Unsupported,
    /// A platform call failed.
    Platform(String),
}

/// The text of a system error.
pub open spec fn system_error_text(e: SystemError) -> Seq<char> {
    match e {
        SystemError::RegistrationFailed(m) => "Failed to register for notifications: "@ + m@,
        SystemError::QueryFailed(m) => "Failed to query system state: "@ + m@,
        SystemError::Unsupported => "Platform not supported"@,
        SystemError::Platform(m) => "Platform error: "@ + m@,
    }
}

impl SystemError {
    /// The error as text.
    pub fn to_display_string(&self) -> (r: String)
        ensures
            r@ == system_error_text(*self),
    {
        match self {
            SystemError::RegistrationFailed(m) => {
                let mut s = owned("Failed to register for notifications: ");
                s.append(m.as_str());
                s
            },
            SystemError::QueryFailed(m) => {
                let mut s = owned("Failed to query system state: ");
                s.append(m.as_str());
                s
            },
            SystemError::Unsupported => owned("Platform not supported"),
            SystemError::Platform(m) => {
                let mut s = owned("Platform error: ");
                s.append(m.as_str());
                s
            },
        }
    }
}

/// A sleep-prevention assertion. The platform code that created it keeps
/// what releases it and releases it when the token is given back to
/// `SystemMonitor::allow_sleep`; the token itself only names the assertion.
#[derive(Debug, Clone, Copy, PartialEq, Eq, Structural)]
pub struct SleepPrevention {
    id: u64,
}

impl SleepPrevention {
    /// The assertion with this platform identifier.
    pub fn new(id: u64) -> (r: Self)
        ensures
            r.spec_id() == id,
    {
        SleepPrevention { id }
    }

    /// An assertion that holds nothing (identifier 0), for platforms without
    /// sleep prevention.
    pub fn noop() -> (r: Self)
        ensures
            r.spec_id() == 0,
    {
        SleepPrevention { id: 0 }
    }

    /// The platform identifier.
    pub closed spec fn spec_id(&self) -> u64 {
        self.id
    }

    /// The platform identifier.
    pub fn raw_id(&self) -> (r: u64)
        ensures
            r == self.spec_id(),
    {
        self.id
    }
}

/// Receives system events; implemented by the application.
pub trait SystemEventHandler {
    /// Called for each system event.
    fn on_system_event(&mut self, event: SystemEvent);
}

/// Whether to do less: on low battery or when throttling is due. A power
/// state that could not be read counts as not low, a thermal state that
/// could not be read as not hot.
pub open spec fn reduce_activity(power: Option<PowerState>, thermal: Option<ThermalState>) -> bool {
    (power matches Some(PowerState::Battery { percent, .. }) && percent < 20)
        || (thermal matches Some(t) && !(t is Normal))
}

fn low_battery(power: &Option<PowerState>) -> (r: bool)
    ensures
        r == (*power matches Some(PowerState::Battery { percent, .. }) && percent < 20),
{
    match power {
        Some(p) => p.is_low_battery(),
        None => false,
    }
}

/// Whether to do less, from the power state and the thermal state as read
/// (`None` where reading failed); see `reduce_activity`.
pub fn activity_reduction(power: &Option<PowerState>, thermal: &Option<ThermalState>) -> (r: bool)
    ensures
        r == reduce_activity(*power, *thermal),
{
    if low_battery(power) {
        return true;
    }
    match thermal {
        Some(t) => t.should_throttle(),
        None => false,
    }
}

/// Monitors the system; implemented per platform.
pub trait SystemMonitor {
    /// Starts monitoring.
    fn start(&mut self) -> Result<(), SystemError>;

    /// Stops monitoring.
    fn stop(&mut self) -> Result<(), SystemError>;

    /// The current power state.
    fn power_state(&self) -> Result<PowerState, SystemError>;

    /// The current thermal state.
    fn thermal_state(&self) -> Result<ThermalState, SystemError>;

    /// Keeps the system awake until the assertion is released.
    fn prevent_sleep(&self, reason: &str) -> Result<SleepPrevention, SystemError>;

    /// Releases a sleep-prevention assertion made by `prevent_sleep`.
    fn allow_sleep(&self, prevention: SleepPrevention) -> Result<(), SystemError>;

    /// Whether to do less: on low battery or when throttling is due. The
    /// thermal state is read only when the battery is not low.
    fn should_reduce_activity(&self) -> bool {
        let power = match self.power_state() {
            Ok(p) => Some(p),
            Err(_) => None,
        };
        if low_battery(&power) {
            return true;
        }
        let thermal = match self.thermal_state() {
            Ok(t) => Some(t),
            Err(_) => None,
        };
        activity_reduction(&power, &thermal)
    }
}

} // verus!
