//! Automatic reconnection after a camera disconnects.
//!
//! On a disconnect the manager waits for the device to reappear, polling
//! actively at first and then in the background. When the target device (or,
//! if allowed, any camera) appears it tries to reopen it, up to a maximum
//! number of attempts. A wait longer than the active polling period times
//! out and asks for the user's help.
//!
//! The manager makes decisions only: the caller performs the camera
//! operations and publishes the events that the methods return.
use vstd::prelude::*;
use crate::app_core::error::CaptureError;
use crate::app_core::events::Event;
use crate::app_core::types::{CaptureSettings, DeviceId, NegotiatedFormat};
use crate::capture::enumerator::{CameraEvent, CameraEventHandler};
use crate::clock::{elapsed_nanos, instant_now, nanos_between, unix_time_millis};

verus! {

/// State of the reconnection process.
#[derive(Debug, Clone, Copy, PartialEq, Eq, Structural)]
pub enum ReconnectionState {
    /// Normal operation.
    Connected,
    /// Waiting for the device to reappear.
    WaitingForDevice {
        /// Wall-clock start of the wait, for logs.
        started_at_epoch_ms: u64,
    },
    /// The device appeared and is being reopened.
    Reconnecting,
    /// The wait timed out; the user must act.
    TimedOut,
    /// Reconnection failed; the user must act.
    Failed,
}

impl ReconnectionState {
    /// Whether a reconnection is in progress.
    pub fn is_reconnecting(&self) -> (r: bool)
        ensures
            r == (*self is WaitingForDevice || *self is Reconnecting),
    {
        matches!(self, ReconnectionState::WaitingForDevice { .. } | ReconnectionState::Reconnecting)
    }

    /// Whether the user must act.
    pub fn needs_user_action(&self) -> (r: bool)
        ensures
            r == (*self is TimedOut || *self is Failed),
    {
        matches!(self, ReconnectionState::TimedOut | ReconnectionState::Failed)
    }
}

/// A reconnection never both runs and waits for the user.
pub proof fn lemma_reconnecting_excludes_user_action(s: ReconnectionState)
    ensures
        !((s is WaitingForDevice || s is Reconnecting) && (s is TimedOut || s is Failed)),
{
}

/// Configuration of reconnection. Durations are in milliseconds.
#[derive(Debug, Clone, Copy, PartialEq, Eq, Structural)]
pub struct ReconnectionConfig {
    /// Poll interval while actively waiting.
    pub poll_interval_ms: u64,
    /// How long to wait actively before timing out.
    pub active_poll_duration_ms: u64,
    /// Poll interval after the active period.
    pub background_poll_interval_ms: u64,
    /// Reopening attempts before giving up.
    pub max_reconnect_attempts: u32,
    /// Delay between reopening attempts.
    pub reconnect_retry_delay_ms: u64,
    /// Whether to reconnect to the same device automatically.
    pub auto_reconnect_same_device: bool,
    /// Whether any camera may replace the lost one.
    pub fallback_to_any_camera: bool,
}

impl Default for ReconnectionConfig {
    fn default() -> (r: Self)
        ensures
            r.poll_interval_ms == 2000,
            r.active_poll_duration_ms == 30_000,
            r.background_poll_interval_ms == 10_000,
            r.max_reconnect_attempts == 3,
            r.reconnect_retry_delay_ms == 500,
            r.auto_reconnect_same_device,
            !r.fallback_to_any_camera,
    {
        ReconnectionConfig {
            poll_interval_ms: 2000,
            active_poll_duration_ms: 30_000,
            background_poll_interval_ms: 10_000,
            max_reconnect_attempts: 3,
            reconnect_retry_delay_ms: 500,
            auto_reconnect_same_device: true,
            fallback_to_any_camera: false,
        }
    }
}

/// How a returning device is recognised.
#[derive(Debug)]
pub enum DeviceMatchStrategy {
    /// By its persistent identifier.
    ExactId(DeviceId),
    /// By name and a supported resolution.
    NameAndCaps { name: String, width: u32, height: u32 },
    /// Any camera.
    Any,
}

/// Whether a device with this identifier, name and resolutions matches.
pub open spec fn strategy_matches(s: DeviceMatchStrategy, id: Seq<char>, name: Seq<char>, caps: Seq<(u32, u32)>) -> bool {
    match s {
        DeviceMatchStrategy::ExactId(target) => target.0@ == id,
        DeviceMatchStrategy::NameAndCaps { name: n, width, height } => n@ == name
            && exists|i: int| 0 <= i < caps.len() && #[trigger] caps[i] == (width, height),
        DeviceMatchStrategy::Any => true,
    }
}

impl DeviceMatchStrategy {
    /// The strategy for a specific device: its exact identifier.
    pub fn for_device(device_id: DeviceId, name: &str, width: u32, height: u32) -> (r: Self)
        ensures
            r == DeviceMatchStrategy::ExactId(device_id),
    {
        DeviceMatchStrategy::ExactId(device_id)
    }

    /// Whether the device matches this strategy.
    pub fn matches(&self, device_id: &DeviceId, name: &str, caps: &[(u32, u32)]) -> (r: bool)
        ensures
            r == strategy_matches(*self, device_id.0@, name@, caps@),
    {
        match self {
            DeviceMatchStrategy::ExactId(id) => device_id.0 == id.0,
            DeviceMatchStrategy::NameAndCaps { name: match_name, width, height } => {
                let same_name = crate::text::owned(name) == *match_name;
                if !same_name {
                    return false;
                }
                let mut i: usize = 0;
                while i < caps.len()
                    invariant
                        i <= caps@.len(),
                        *self == (DeviceMatchStrategy::NameAndCaps { name: *match_name, width: *width, height: *height }),
                        match_name@ == name@,
                        forall|k: int| 0 <= k < i ==> caps@[k] != (*width, *height),
                    decreases caps.len() - i,
                {
                    let (w, h) = caps[i];
                    if w == *width && h == *height {
                        assert(caps@[i as int] == (*width, *height));
                        return true;
                    }
                    i = i + 1;
                }
                false
            },
            DeviceMatchStrategy::Any => true,
        }
    }
}

/// Manages automatic camera reconnection.
#[derive(Debug)]
pub struct ReconnectionManager {
    state: ReconnectionState,
    config: ReconnectionConfig,
    target_device: Option<DeviceMatchStrategy>,
    target_device_id: Option<DeviceId>,
    capture_settings: Option<CaptureSettings>,
    reconnect_attempts: u32,
    cancelled: bool,
    wait_started: Option<std::time::Instant>,
}

/// Whether more than `duration_ms` milliseconds separate `later` from `earlier`.
pub open spec fn exceeded(later: std::time::Instant, earlier: std::time::Instant, duration_ms: u64) -> bool {
    nanos_between(later, earlier) > duration_ms * 1_000_000
}

fn exceeds_ms(elapsed_ns: u64, duration_ms: u64) -> (r: bool)
    ensures
        r == (elapsed_ns > duration_ms * 1_000_000),
{
    if duration_ms > u64::MAX / 1_000_000 {
        assert(duration_ms * 1_000_000 >= (u64::MAX / 1_000_000 + 1) * 1_000_000) by (nonlinear_arith)
            requires duration_ms > u64::MAX / 1_000_000;
        false
    } else {
        assert(duration_ms * 1_000_000 <= (u64::MAX / 1_000_000) * 1_000_000) by (nonlinear_arith)
            requires duration_ms <= u64::MAX / 1_000_000;
        elapsed_ns > duration_ms * 1_000_000
    }
}

fn reaches_ms(elapsed_ns: u64, duration_ms: u64) -> (r: bool)
    ensures
        r == (elapsed_ns >= duration_ms * 1_000_000),
{
    if duration_ms > u64::MAX / 1_000_000 {
        assert(duration_ms * 1_000_000 >= (u64::MAX / 1_000_000 + 1) * 1_000_000) by (nonlinear_arith)
            requires duration_ms > u64::MAX / 1_000_000;
        false
    } else {
        assert(duration_ms * 1_000_000 <= (u64::MAX / 1_000_000) * 1_000_000) by (nonlinear_arith)
            requires duration_ms <= u64::MAX / 1_000_000;
        elapsed_ns >= duration_ms * 1_000_000
    }
}

impl ReconnectionManager {
    /// The reconnection state.
    pub closed spec fn spec_state(&self) -> ReconnectionState {
        self.state
    }

    /// The configuration.
    pub closed spec fn spec_config(&self) -> ReconnectionConfig {
        self.config
    }

    /// Reopening attempts made in this reconnection.
    pub closed spec fn spec_attempts(&self) -> u32 {
        self.reconnect_attempts
    }

    /// When the current wait started.
    pub closed spec fn spec_wait_started(&self) -> Option<std::time::Instant> {
        self.wait_started
    }

    /// The device being waited for.
    pub closed spec fn spec_target_id(&self) -> Option<DeviceId> {
        self.target_device_id
    }

    /// The device-matching strategy.
    pub closed spec fn spec_target(&self) -> Option<DeviceMatchStrategy> {
        self.target_device
    }

    /// The settings to reopen with.
    pub closed spec fn spec_settings(&self) -> Option<CaptureSettings> {
        self.capture_settings
    }

    /// Whether the reconnection was cancelled.
    pub closed spec fn spec_cancelled(&self) -> bool {
        self.cancelled
    }

    /// A manager with the default configuration.
    pub fn new() -> (r: Self)
        ensures
            r.spec_state() is Connected,
            r.spec_config() == ReconnectionConfig::default_spec(),
            r.spec_attempts() == 0,
            r.spec_wait_started() is None,
            r.spec_target() is None,
            r.spec_target_id() is None,
            r.spec_settings() is None,
            !r.spec_cancelled(),
    {
        Self::with_config(ReconnectionConfig::default())
    }

    /// A manager with the given configuration.
    pub fn with_config(config: ReconnectionConfig) -> (r: Self)
        ensures
            r.spec_state() is Connected,
            r.spec_config() == config,
            r.spec_attempts() == 0,
            r.spec_wait_started() is None,
            r.spec_target() is None,
            r.spec_target_id() is None,
            r.spec_settings() is None,
            !r.spec_cancelled(),
    {
        ReconnectionManager {
            state: ReconnectionState::Connected,
            config,
            target_device: None,
            target_device_id: None,
            capture_settings: None,
            reconnect_attempts: 0,
            cancelled: false,
            wait_started: None,
        }
    }

    /// The reconnection state.
    pub fn state(&self) -> (r: ReconnectionState)
        ensures
            r == self.spec_state(),
    {
        self.state
    }

    /// The configuration.
    pub fn config(&self) -> (r: ReconnectionConfig)
        ensures
            r == self.spec_config(),
    {
        self.config
    }

    /// Reopening attempts made in this reconnection.
    pub fn reconnect_attempts(&self) -> (r: u32)
        ensures
            r == self.spec_attempts(),
    {
        self.reconnect_attempts
    }

    /// Whether a reconnection is in progress.
    pub fn is_reconnecting(&self) -> (r: bool)
        ensures
            r == (self.spec_state() is WaitingForDevice || self.spec_state() is Reconnecting),
    {
        self.state.is_reconnecting()
    }

    /// Whether the user must act.
    pub fn needs_user_action(&self) -> (r: bool)
        ensures
            r == (self.spec_state() is TimedOut || self.spec_state() is Failed),
    {
        self.state.needs_user_action()
    }

    /// A camera disconnected at `now` (wall clock `now_epoch_ms`): remember
    /// it and its settings, reset the attempts and start waiting. Returns the
    /// event to publish.
    pub fn on_camera_disconnected_at(
        &mut self,
        device_id: DeviceId,
        device_name: &str,
        settings: CaptureSettings,
        now: std::time::Instant,
        now_epoch_ms: u64,
    ) -> (r: Event)
        ensures
            final(self).spec_state() == (ReconnectionState::WaitingForDevice { started_at_epoch_ms: now_epoch_ms }),
            final(self).spec_target() == Some(DeviceMatchStrategy::ExactId(device_id)),
            final(self).spec_target_id() == Some(device_id),
            final(self).spec_settings() == Some(settings),
            final(self).spec_attempts() == 0,
            !final(self).spec_cancelled(),
            final(self).spec_wait_started() == Some(now),
            final(self).spec_config() == old(self).spec_config(),
            r == (Event::CameraDisconnected { device_id }),
    {
        self.target_device = Some(DeviceMatchStrategy::for_device(
            device_id.clone(),
            device_name,
            settings.width,
            settings.height,
        ));
        self.target_device_id = Some(device_id.clone());
        self.capture_settings = Some(settings);
        self.reconnect_attempts = 0;
        self.cancelled = false;
        self.wait_started = Some(now);
        self.state = ReconnectionState::WaitingForDevice { started_at_epoch_ms: now_epoch_ms };
        Event::CameraDisconnected { device_id }
    }

    /// A camera disconnected now: reads the clocks and starts waiting.
    pub fn on_camera_disconnected(&mut self, device_id: DeviceId, device_name: &str, settings: CaptureSettings) -> (r: Event)
        ensures
            final(self).spec_state() is WaitingForDevice,
            final(self).spec_target() == Some(DeviceMatchStrategy::ExactId(device_id)),
            final(self).spec_target_id() == Some(device_id),
            final(self).spec_settings() == Some(settings),
            final(self).spec_attempts() == 0,
            final(self).spec_wait_started() is Some,
            final(self).spec_config() == old(self).spec_config(),
            r == (Event::CameraDisconnected { device_id }),
    {
        let now = instant_now();
        let epoch = unix_time_millis();
        self.on_camera_disconnected_at(device_id, device_name, settings, now, epoch)
    }

    /// A camera appeared. While waiting, the target device (or, if allowed,
    /// any camera) moves the manager to Reconnecting; returns whether it did.
    pub fn on_camera_connected(&mut self, device_id: &DeviceId, device_name: &str) -> (r: bool)
        ensures
            r == (old(self).spec_state() is WaitingForDevice && old(self).spec_target() is Some
                && ((old(self).spec_target() matches Some(DeviceMatchStrategy::ExactId(t)) && t.0@ == device_id.0@)
                    || old(self).spec_config().fallback_to_any_camera)),
            r ==> final(self).spec_state() is Reconnecting,
            !r ==> final(self).spec_state() == old(self).spec_state(),
            final(self).spec_attempts() == old(self).spec_attempts(),
            final(self).spec_wait_started() == old(self).spec_wait_started(),
            final(self).spec_target() == old(self).spec_target(),
            final(self).spec_target_id() == old(self).spec_target_id(),
            final(self).spec_settings() == old(self).spec_settings(),
            final(self).spec_config() == old(self).spec_config(),
            final(self).spec_cancelled() == old(self).spec_cancelled(),
    {
        if !matches!(self.state, ReconnectionState::WaitingForDevice { .. }) {
            return false;
        }
        match &self.target_device {
            Some(strategy) => {
                if let DeviceMatchStrategy::ExactId(target_id) = strategy {
                    if device_id.0 == target_id.0 {
                        self.state = ReconnectionState::Reconnecting;
                        return true;
                    }
                }
                if self.config.fallback_to_any_camera {
                    self.state = ReconnectionState::Reconnecting;
                    return true;
                }
                false
            },
            None => false,
        }
    }

    /// Starts a reopening attempt: counts it and returns the settings to
    /// reopen with (the remembered ones, or the defaults).
    pub fn begin_reconnect_attempt(&mut self) -> (r: CaptureSettings)
        requires
            old(self).spec_attempts() < u32::MAX,
        ensures
            final(self).spec_attempts() == old(self).spec_attempts() + 1,
            r == match old(self).spec_settings() {
                Some(s) => s,
                None => CaptureSettings::default_spec(),
            },
            final(self).spec_state() == old(self).spec_state(),
            final(self).spec_wait_started() == old(self).spec_wait_started(),
            final(self).spec_target() == old(self).spec_target(),
            final(self).spec_target_id() == old(self).spec_target_id(),
            final(self).spec_settings() == old(self).spec_settings(),
            final(self).spec_config() == old(self).spec_config(),
    {
        self.reconnect_attempts = self.reconnect_attempts + 1;
        match self.capture_settings {
            Some(s) => s,
            None => CaptureSettings::default(),
        }
    }

    /// Records the outcome of a reopening attempt. Success reconnects; a
    /// failure goes back to waiting, or fails once the attempts are used up.
    /// Returns the outcome unchanged and the event to publish, if any.
    pub fn finish_reconnect_attempt_at(
        &mut self,
        device_id: &DeviceId,
        outcome: Result<NegotiatedFormat, CaptureError>,
        now_epoch_ms: u64,
    ) -> (r: (Result<NegotiatedFormat, CaptureError>, Option<Event>))
        ensures
            r.0 == outcome,
            outcome is Ok ==> {
                &&& final(self).spec_state() is Connected
                &&& final(self).spec_wait_started() is None
                &&& r.1 == Some(Event::CameraReconnected { device_id: *device_id })
            },
            outcome is Err && old(self).spec_attempts() >= old(self).spec_config().max_reconnect_attempts ==> {
                &&& final(self).spec_state() is Failed
                &&& final(self).spec_wait_started() is None
                &&& r.1 == Some(Event::CameraReconnectionFailed { device_id: *device_id })
            },
            outcome is Err && old(self).spec_attempts() < old(self).spec_config().max_reconnect_attempts ==> {
                &&& final(self).spec_state() == (ReconnectionState::WaitingForDevice { started_at_epoch_ms: now_epoch_ms })
                &&& final(self).spec_wait_started() == old(self).spec_wait_started()
                &&& r.1 is None
            },
            final(self).spec_attempts() == old(self).spec_attempts(),
            final(self).spec_target() == old(self).spec_target(),
            final(self).spec_target_id() == old(self).spec_target_id(),
            final(self).spec_settings() == old(self).spec_settings(),
            final(self).spec_config() == old(self).spec_config(),
    {
        match outcome {
            Ok(format) => {
                self.state = ReconnectionState::Connected;
                self.wait_started = None;
                (Ok(format), Some(Event::CameraReconnected { device_id: device_id.clone() }))
            },
            Err(e) => {
                if self.reconnect_attempts >= self.config.max_reconnect_attempts {
                    self.state = ReconnectionState::Failed;
                    self.wait_started = None;
                    (Err(e), Some(Event::CameraReconnectionFailed { device_id: device_id.clone() }))
                } else {
                    self.state = ReconnectionState::WaitingForDevice { started_at_epoch_ms: now_epoch_ms };
                    (Err(e), None)
                }
            },
        }
    }

    /// Records the outcome of a reopening attempt now.
    pub fn finish_reconnect_attempt(
        &mut self,
        device_id: &DeviceId,
        outcome: Result<NegotiatedFormat, CaptureError>,
    ) -> (r: (Result<NegotiatedFormat, CaptureError>, Option<Event>))
        ensures
            r.0 == outcome,
            outcome is Ok ==> final(self).spec_state() is Connected
                && r.1 == Some(Event::CameraReconnected { device_id: *device_id }),
            outcome is Err && old(self).spec_attempts() >= old(self).spec_config().max_reconnect_attempts
                ==> final(self).spec_state() is Failed
                && r.1 == Some(Event::CameraReconnectionFailed { device_id: *device_id }),
            outcome is Err && old(self).spec_attempts() < old(self).spec_config().max_reconnect_attempts
                ==> final(self).spec_state() is WaitingForDevice && r.1 is None,
            final(self).spec_attempts() == old(self).spec_attempts(),
            final(self).spec_config() == old(self).spec_config(),
    {
        let epoch = unix_time_millis();
        self.finish_reconnect_attempt_at(device_id, outcome, epoch)
    }

    /// Checks at `now` whether the wait has lasted longer than the active
    /// polling period; if so, times out. Returns whether it timed out and the
    /// event to publish (when the target device is known).
    pub fn check_timeout_at(&mut self, now: std::time::Instant) -> (r: (bool, Option<Event>))
        ensures
            r.0 == (old(self).spec_state() is WaitingForDevice && old(self).spec_wait_started() is Some
                && exceeded(now, old(self).spec_wait_started()->0, old(self).spec_config().active_poll_duration_ms)),
            r.0 ==> {
                &&& final(self).spec_state() is TimedOut
                &&& final(self).spec_wait_started() is None
                &&& r.1 == match old(self).spec_target_id() {
                    Some(id) => Some(Event::CameraReconnectionTimedOut { device_id: id }),
                    None => None,
                }
            },
            !r.0 ==> {
                &&& final(self).spec_state() == old(self).spec_state()
                &&& final(self).spec_wait_started() == old(self).spec_wait_started()
                &&& r.1 is None
            },
            final(self).spec_attempts() == old(self).spec_attempts(),
            final(self).spec_target() == old(self).spec_target(),
            final(self).spec_target_id() == old(self).spec_target_id(),
            final(self).spec_settings() == old(self).spec_settings(),
            final(self).spec_config() == old(self).spec_config(),
    {
        if !matches!(self.state, ReconnectionState::WaitingForDevice { .. }) {
            return (false, None);
        }
        match self.wait_started {
            Some(started) => {
                let elapsed = elapsed_nanos(&now, &started);
                if exceeds_ms(elapsed, self.config.active_poll_duration_ms) {
                    self.state = ReconnectionState::TimedOut;
                    self.wait_started = None;
                    let ev = match &self.target_device_id {
                        Some(id) => Some(Event::CameraReconnectionTimedOut { device_id: id.clone() }),
                        None => None,
                    };
                    (true, ev)
                } else {
                    (false, None)
                }
            },
            None => (false, None),
        }
    }

    /// Checks now whether the wait has timed out.
    pub fn check_timeout(&mut self) -> (r: (bool, Option<Event>))
        ensures
            !(old(self).spec_state() is WaitingForDevice && old(self).spec_wait_started() is Some) ==> !r.0,
            r.0 ==> {
                &&& final(self).spec_state() is TimedOut
                &&& final(self).spec_wait_started() is None
                &&& r.1 == match old(self).spec_target_id() {
                    Some(id) => Some(Event::CameraReconnectionTimedOut { device_id: id }),
                    None => None,
                }
            },
            !r.0 ==> {
                &&& final(self).spec_state() == old(self).spec_state()
                &&& final(self).spec_wait_started() == old(self).spec_wait_started()
                &&& r.1 is None
            },
            final(self).spec_attempts() == old(self).spec_attempts(),
            final(self).spec_target() == old(self).spec_target(),
            final(self).spec_target_id() == old(self).spec_target_id(),
            final(self).spec_settings() == old(self).spec_settings(),
            final(self).spec_config() == old(self).spec_config(),
    {
        let now = instant_now();
        self.check_timeout_at(now)
    }

    /// Cancels the reconnection.
    pub fn cancel(&mut self)
        ensures
            final(self).spec_state() is Connected,
            final(self).spec_wait_started() is None,
            final(self).spec_cancelled(),
            final(self).spec_attempts() == old(self).spec_attempts(),
            final(self).spec_target() == old(self).spec_target(),
            final(self).spec_target_id() == old(self).spec_target_id(),
            final(self).spec_settings() == old(self).spec_settings(),
            final(self).spec_config() == old(self).spec_config(),
    {
        self.cancelled = true;
        self.state = ReconnectionState::Connected;
        self.wait_started = None;
    }

    /// After a timeout or failure, starts waiting again at `now` with the
    /// attempts reset. Does nothing in any other state.
    pub fn retry_at(&mut self, now: std::time::Instant, now_epoch_ms: u64)
        ensures
            (old(self).spec_state() is TimedOut || old(self).spec_state() is Failed) ==> {
                &&& final(self).spec_state() == (ReconnectionState::WaitingForDevice { started_at_epoch_ms: now_epoch_ms })
                &&& final(self).spec_wait_started() == Some(now)
                &&& final(self).spec_attempts() == 0
                &&& !final(self).spec_cancelled()
            },
            !(old(self).spec_state() is TimedOut || old(self).spec_state() is Failed) ==> {
                &&& final(self).spec_state() == old(self).spec_state()
                &&& final(self).spec_wait_started() == old(self).spec_wait_started()
                &&& final(self).spec_attempts() == old(self).spec_attempts()
                &&& final(self).spec_cancelled() == old(self).spec_cancelled()
            },
            final(self).spec_target() == old(self).spec_target(),
            final(self).spec_target_id() == old(self).spec_target_id(),
            final(self).spec_settings() == old(self).spec_settings(),
            final(self).spec_config() == old(self).spec_config(),
    {
        if matches!(self.state, ReconnectionState::TimedOut | ReconnectionState::Failed) {
            self.wait_started = Some(now);
            self.state = ReconnectionState::WaitingForDevice { started_at_epoch_ms: now_epoch_ms };
            self.reconnect_attempts = 0;
            self.cancelled = false;
        }
    }

    /// Retries now after a timeout or failure.
    pub fn retry(&mut self)
        ensures
            (old(self).spec_state() is TimedOut || old(self).spec_state() is Failed) ==>
                final(self).spec_state() is WaitingForDevice && final(self).spec_attempts() == 0,
            !(old(self).spec_state() is TimedOut || old(self).spec_state() is Failed) ==>
                final(self).spec_state() == old(self).spec_state(),
            final(self).spec_config() == old(self).spec_config(),
    {
        let now = instant_now();
        let epoch = unix_time_millis();
        self.retry_at(now, epoch)
    }

    /// The poll interval at `now`: the background interval once a wait has
    /// lasted the active polling period, the active interval otherwise.
    pub fn poll_interval_at(&self, now: std::time::Instant) -> (r: u64)
        ensures
            r == if self.spec_state() is WaitingForDevice && self.spec_wait_started() is Some
                && nanos_between(now, self.spec_wait_started()->0) >= self.spec_config().active_poll_duration_ms
                * 1_000_000 {
                self.spec_config().background_poll_interval_ms
            } else {
                self.spec_config().poll_interval_ms
            },
    {
        if matches!(self.state, ReconnectionState::WaitingForDevice { .. }) {
            match self.wait_started {
                Some(started) => {
                    let elapsed = elapsed_nanos(&now, &started);
                    let active = self.config.active_poll_duration_ms;
                    if reaches_ms(elapsed, active) {
                        self.config.background_poll_interval_ms
                    } else {
                        self.config.poll_interval_ms
                    }
                },
                None => self.config.poll_interval_ms,
            }
        } else {
            self.config.poll_interval_ms
        }
    }

    /// The poll interval now.
    pub fn current_poll_interval(&self) -> (r: u64)
        ensures
            r == self.spec_config().poll_interval_ms || r == self.spec_config().background_poll_interval_ms,
    {
        let now = instant_now();
        self.poll_interval_at(now)
    }
}

impl CameraEventHandler for ReconnectionManager {
    /// A connected camera may be the one being waited for; disconnections
    /// are reported with more context through `on_camera_disconnected`, and
    /// property changes do not matter here.
    fn on_camera_event(&mut self, event: CameraEvent)
        ensures
            match event {
                CameraEvent::Connected(d) => {
                    let hit = old(self).spec_state() is WaitingForDevice && old(self).spec_target() is Some
                        && ((old(self).spec_target() matches Some(DeviceMatchStrategy::ExactId(t)) && t.0@ == d.id.0@)
                            || old(self).spec_config().fallback_to_any_camera);
                    &&& hit ==> final(self).spec_state() is Reconnecting
                    &&& !hit ==> final(self).spec_state() == old(self).spec_state()
                    &&& final(self).spec_attempts() == old(self).spec_attempts()
                    &&& final(self).spec_wait_started() == old(self).spec_wait_started()
                    &&& final(self).spec_target() == old(self).spec_target()
                    &&& final(self).spec_target_id() == old(self).spec_target_id()
                    &&& final(self).spec_settings() == old(self).spec_settings()
                    &&& final(self).spec_config() == old(self).spec_config()
                    &&& final(self).spec_cancelled() == old(self).spec_cancelled()
                },
                _ => *final(self) == *old(self),
            },
    {
        match event {
            CameraEvent::Connected(device) => {
                self.on_camera_connected(&device.id, device.name.as_str());
            },
            CameraEvent::Disconnected(_) => {},
            CameraEvent::Changed(_) => {},
        }
    }
}

impl ReconnectionConfig {
    /// The default configuration.
    pub open spec fn default_spec() -> ReconnectionConfig {
        ReconnectionConfig {
            poll_interval_ms: 2000,
            active_poll_duration_ms: 30_000,
            background_poll_interval_ms: 10_000,
            max_reconnect_attempts: 3,
            reconnect_retry_delay_ms: 500,
            auto_reconnect_same_device: true,
            fallback_to_any_camera: false,
        }
    }
}

} // verus!
