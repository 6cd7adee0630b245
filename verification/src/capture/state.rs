//! Camera lifecycle state machine.
//!
//! ```text
//! Disconnected -> Available -> Opening -> Ready -> Capturing
//!                     ^            |        |  ^       |
//!                     |            v        v  |       v
//!                     +-------- Error <-----+--+-------+
//! ```
//! Every change of state goes through one validated transition, which is
//! recorded in a bounded history.
use vstd::prelude::*;
use vstd::string::*;
use crate::app_core::error::{capture_display_text, CaptureError};
use crate::app_core::types::{DeviceId, NegotiatedFormat};
use crate::clock::instant_now;
use crate::text::owned;

verus! {

/// Maximum number of transitions kept in the history.
pub const MAX_HISTORY: usize = 100;

/// Information about a camera error.
#[derive(Debug, PartialEq, Eq)]
pub struct CameraErrorInfo {
    /// What went wrong.
    pub message: String,
    /// Whether automatic recovery should be attempted.
    pub recoverable: bool,
    /// Recovery attempts made so far.
    pub recovery_attempts: u32,
    /// Recovery attempts allowed before giving up.
    pub max_recovery_attempts: u32,
}

impl Clone for CameraErrorInfo {
    fn clone(&self) -> (r: Self)
        ensures
            r == *self,
    {
        CameraErrorInfo {
            message: self.message.clone(),
            recoverable: self.recoverable,
            recovery_attempts: self.recovery_attempts,
            max_recovery_attempts: self.max_recovery_attempts,
        }
    }
}

/// Whether a capture error is one that recovery can fix.
pub open spec fn is_recoverable_capture_error(e: CaptureError) -> bool {
    e is Timeout || e is Disconnected
}

impl CameraErrorInfo {
    /// A fresh error record allowing five recovery attempts.
    pub fn new(message: &str, recoverable: bool) -> (r: Self)
        ensures
            r.message@ == message@,
            r.recoverable == recoverable,
            r.recovery_attempts == 0,
            r.max_recovery_attempts == 5,
    {
        CameraErrorInfo { message: owned(message), recoverable, recovery_attempts: 0, max_recovery_attempts: 5 }
    }

    /// The error record for a capture error: its description, recoverable
    /// for timeouts and disconnects.
    pub fn from_capture_error(err: &CaptureError) -> (r: Self)
        ensures
            r.message@ == capture_display_text(*err),
            r.recoverable == is_recoverable_capture_error(*err),
            r.recovery_attempts == 0,
            r.max_recovery_attempts == 5,
    {
        let recoverable = match err {
            CaptureError::Timeout(_) | CaptureError::Disconnected => true,
            _ => false,
        };
        let text = err.to_display_string();
        Self::new(text.as_str(), recoverable)
    }

    /// Counts a recovery attempt; true while attempts remain.
    pub fn attempt_recovery(&mut self) -> (r: bool)
        requires
            old(self).recoverable ==> old(self).recovery_attempts < u32::MAX,
        ensures
            !old(self).recoverable ==> !r && *final(self) == *old(self),
            old(self).recoverable ==> {
                &&& final(self).recovery_attempts == old(self).recovery_attempts + 1
                &&& r == (final(self).recovery_attempts <= old(self).max_recovery_attempts)
                &&& final(self).message == old(self).message
                &&& final(self).recoverable == old(self).recoverable
                &&& final(self).max_recovery_attempts == old(self).max_recovery_attempts
            },
    {
        if !self.recoverable {
            return false;
        }
        self.recovery_attempts = self.recovery_attempts + 1;
        self.recovery_attempts <= self.max_recovery_attempts
    }
}

/// State of a camera device.
#[derive(Debug, PartialEq, Eq)]
pub enum CameraState {
    /// Not connected or not detected.
    Disconnected,
    /// Enumerated and available, not open.
    Available,
    /// Being opened (format negotiation).
    Opening,
    /// Open and ready to capture.
    Ready,
    /// Capturing frames.
    Capturing,
    /// In an error state.
    Error(CameraErrorInfo),
}

impl Clone for CameraState {
    fn clone(&self) -> (r: Self)
        ensures
            r == *self,
    {
        match self {
            CameraState::Disconnected => CameraState::Disconnected,
            CameraState::Available => CameraState::Available,
            CameraState::Opening => CameraState::Opening,
            CameraState::Ready => CameraState::Ready,
            CameraState::Capturing => CameraState::Capturing,
            CameraState::Error(info) => CameraState::Error(info.clone()),
        }
    }
}

impl Default for CameraState {
    fn default() -> (r: Self)
        ensures
            r is Disconnected,
    {
        CameraState::Disconnected
    }
}

/// Whether the lifecycle allows going from `from` to `to`.
pub open spec fn valid_transition(from: CameraState, to: CameraState) -> bool {
    match (from, to) {
        (CameraState::Disconnected, CameraState::Available) => true,
        (CameraState::Available, CameraState::Opening) => true,
        (CameraState::Available, CameraState::Disconnected) => true,
        (CameraState::Opening, CameraState::Ready) => true,
        (CameraState::Opening, CameraState::Error(_)) => true,
        (CameraState::Opening, CameraState::Available) => true,
        (CameraState::Ready, CameraState::Capturing) => true,
        (CameraState::Ready, CameraState::Available) => true,
        (CameraState::Ready, CameraState::Error(_)) => true,
        (CameraState::Ready, CameraState::Disconnected) => true,
        (CameraState::Capturing, CameraState::Ready) => true,
        (CameraState::Capturing, CameraState::Error(_)) => true,
        (CameraState::Capturing, CameraState::Disconnected) => true,
        (CameraState::Error(_), CameraState::Available) => true,
        (CameraState::Error(_), CameraState::Opening) => true,
        (CameraState::Error(_), CameraState::Disconnected) => true,
        _ => false,
    }
}

/// The camera lifecycle, stated by the state a transition leads to:
/// - a device can vanish (to Disconnected) from every connected state but
///   Opening: Available, Ready, Capturing and Error;
/// - it becomes Available on arrival (from Disconnected), when an open is
///   cancelled (from Opening), when closed (from Ready) and on recovery
///   (from Error);
/// - opening starts from Available or, to retry, from Error;
/// - it is Ready once opened (from Opening) or when capture stops (from
///   Capturing);
/// - capture starts only from Ready;
/// - an error can occur only while the device is in use: Opening, Ready or
///   Capturing.
pub proof fn lemma_lifecycle(from: CameraState, to: CameraState)
    ensures
        to is Disconnected ==> (valid_transition(from, to)
            <==> (from is Available || from is Ready || from is Capturing || from is Error)),
        to is Available ==> (valid_transition(from, to)
            <==> (from is Disconnected || from is Opening || from is Ready || from is Error)),
        to is Opening ==> (valid_transition(from, to) <==> (from is Available || from is Error)),
        to is Ready ==> (valid_transition(from, to) <==> (from is Opening || from is Capturing)),
        to is Capturing ==> (valid_transition(from, to) <==> from is Ready),
        to is Error ==> (valid_transition(from, to) <==> (from is Opening || from is Ready || from is Capturing)),
{
}

/// Whether two states are the same variant (error details aside).
pub open spec fn same_variant(a: CameraState, b: CameraState) -> bool {
    match (a, b) {
        (CameraState::Disconnected, CameraState::Disconnected) => true,
        (CameraState::Available, CameraState::Available) => true,
        (CameraState::Opening, CameraState::Opening) => true,
        (CameraState::Ready, CameraState::Ready) => true,
        (CameraState::Capturing, CameraState::Capturing) => true,
        (CameraState::Error(_), CameraState::Error(_)) => true,
        _ => false,
    }
}

/// The display text of a state.
pub open spec fn state_display_text(s: CameraState) -> Seq<char> {
    match s {
        CameraState::Disconnected => "Disconnected"@,
        CameraState::Available => "Available"@,
        CameraState::Opening => "Opening"@,
        CameraState::Ready => "Ready"@,
        CameraState::Capturing => "Capturing"@,
        CameraState::Error(info) => "Error: "@ + info.message@,
    }
}

/// The human-readable description of a state.
pub open spec fn state_description(s: CameraState) -> Seq<char> {
    match s {
        CameraState::Disconnected => "Camera not connected"@,
        CameraState::Available => "Camera available"@,
        CameraState::Opening => "Opening camera..."@,
        CameraState::Ready => "Camera ready"@,
        CameraState::Capturing => "Capturing"@,
        CameraState::Error(_) => "Error"@,
    }
}

impl CameraState {
    /// Whether the camera can be opened from this state.
    pub fn can_open(&self) -> (r: bool)
        ensures
            r == (*self is Available || *self is Error),
    {
        matches!(self, CameraState::Available | CameraState::Error(_))
    }

    /// Whether capture can start from this state.
    pub fn can_start_capture(&self) -> (r: bool)
        ensures
            r == (*self is Ready),
    {
        matches!(self, CameraState::Ready)
    }

    /// Whether the camera is capturing.
    pub fn is_capturing(&self) -> (r: bool)
        ensures
            r == (*self is Capturing),
    {
        matches!(self, CameraState::Capturing)
    }

    /// Whether the camera is in an error state.
    pub fn is_error(&self) -> (r: bool)
        ensures
            r == (*self is Error),
    {
        matches!(self, CameraState::Error(_))
    }

    /// Whether the device is connected.
    pub fn is_connected(&self) -> (r: bool)
        ensures
            r == !(*self is Disconnected),
    {
        !matches!(self, CameraState::Disconnected)
    }

    /// Whether the device holds resources (handle, buffers).
    pub fn has_resources(&self) -> (r: bool)
        ensures
            r == (*self is Opening || *self is Ready || *self is Capturing),
    {
        matches!(self, CameraState::Opening | CameraState::Ready | CameraState::Capturing)
    }

    /// Whether the lifecycle allows a transition to `target`.
    pub fn can_transition_to(&self, target: &CameraState) -> (r: bool)
        ensures
            r == valid_transition(*self, *target),
    {
        match (self, target) {
            (CameraState::Disconnected, CameraState::Available) => true,
            (CameraState::Available, CameraState::Opening) => true,
            (CameraState::Available, CameraState::Disconnected) => true,
            (CameraState::Opening, CameraState::Ready) => true,
            (CameraState::Opening, CameraState::Error(_)) => true,
            (CameraState::Opening, CameraState::Available) => true,
            (CameraState::Ready, CameraState::Capturing) => true,
            (CameraState::Ready, CameraState::Available) => true,
            (CameraState::Ready, CameraState::Error(_)) => true,
            (CameraState::Ready, CameraState::Disconnected) => true,
            (CameraState::Capturing, CameraState::Ready) => true,
            (CameraState::Capturing, CameraState::Error(_)) => true,
            (CameraState::Capturing, CameraState::Disconnected) => true,
            (CameraState::Error(_), CameraState::Available) => true,
            (CameraState::Error(_), CameraState::Opening) => true,
            (CameraState::Error(_), CameraState::Disconnected) => true,
            _ => false,
        }
    }

    /// A human-readable description.
    pub fn description(&self) -> (r: &'static str)
        ensures
            r@ == state_description(*self),
    {
        match self {
            CameraState::Disconnected => "Camera not connected",
            CameraState::Available => "Camera available",
            CameraState::Opening => "Opening camera...",
            CameraState::Ready => "Camera ready",
            CameraState::Capturing => "Capturing",
            CameraState::Error(_) => "Error",
        }
    }

    /// The display text: the variant's name, and the message for errors.
    pub fn to_display_string(&self) -> (r: String)
        ensures
            r@ == state_display_text(*self),
    {
        match self {
            CameraState::Disconnected => owned("Disconnected"),
            CameraState::Available => owned("Available"),
            CameraState::Opening => owned("Opening"),
            CameraState::Ready => owned("Ready"),
            CameraState::Capturing => owned("Capturing"),
            CameraState::Error(info) => owned("Error: ").concat(info.message.as_str()),
        }
    }
}

/// Why a transition happened.
#[derive(Debug, PartialEq, Eq)]
pub enum TransitionReason {
    DeviceArrived,
    DeviceRemoved,
    OpenRequested,
    OpenSucceeded,
    OpenFailed(String),
    CaptureStarted,
    CaptureStopped,
    CloseRequested,
    Error(String),
    RecoveryAttempted,
    Reset,
}

impl Clone for TransitionReason {
    fn clone(&self) -> (r: Self)
        ensures
            r == *self,
    {
        match self {
            TransitionReason::DeviceArrived => TransitionReason::DeviceArrived,
            TransitionReason::DeviceRemoved => TransitionReason::DeviceRemoved,
            TransitionReason::OpenRequested => TransitionReason::OpenRequested,
            TransitionReason::OpenSucceeded => TransitionReason::OpenSucceeded,
            TransitionReason::OpenFailed(s) => TransitionReason::OpenFailed(s.clone()),
            TransitionReason::CaptureStarted => TransitionReason::CaptureStarted,
            TransitionReason::CaptureStopped => TransitionReason::CaptureStopped,
            TransitionReason::CloseRequested => TransitionReason::CloseRequested,
            TransitionReason::Error(s) => TransitionReason::Error(s.clone()),
            TransitionReason::RecoveryAttempted => TransitionReason::RecoveryAttempted,
            TransitionReason::Reset => TransitionReason::Reset,
        }
    }
}

/// The display text of a transition reason.
pub open spec fn reason_display_text(r: TransitionReason) -> Seq<char> {
    match r {
        TransitionReason::DeviceArrived => "device arrived"@,
        TransitionReason::DeviceRemoved => "device removed"@,
        TransitionReason::OpenRequested => "open requested"@,
        TransitionReason::OpenSucceeded => "open succeeded"@,
        TransitionReason::OpenFailed(m) => "open failed: "@ + m@,
        TransitionReason::CaptureStarted => "capture started"@,
        TransitionReason::CaptureStopped => "capture stopped"@,
        TransitionReason::CloseRequested => "close requested"@,
        TransitionReason::Error(m) => "error: "@ + m@,
        TransitionReason::RecoveryAttempted => "recovery attempted"@,
        TransitionReason::Reset => "reset"@,
    }
}

impl TransitionReason {
    /// The display text of this reason.
    pub fn to_display_string(&self) -> (r: String)
        ensures
            r@ == reason_display_text(*self),
    {
        match self {
            TransitionReason::DeviceArrived => owned("device arrived"),
            TransitionReason::DeviceRemoved => owned("device removed"),
            TransitionReason::OpenRequested => owned("open requested"),
            TransitionReason::OpenSucceeded => owned("open succeeded"),
            TransitionReason::OpenFailed(m) => owned("open failed: ").concat(m.as_str()),
            TransitionReason::CaptureStarted => owned("capture started"),
            TransitionReason::CaptureStopped => owned("capture stopped"),
            TransitionReason::CloseRequested => owned("close requested"),
            TransitionReason::Error(m) => owned("error: ").concat(m.as_str()),
            TransitionReason::RecoveryAttempted => owned("recovery attempted"),
            TransitionReason::Reset => owned("reset"),
        }
    }
}

/// A recorded state transition.
#[derive(Debug)]
pub struct StateTransition {
    /// Previous state.
    pub from: CameraState,
    /// New state.
    pub to: CameraState,
    /// When it happened (monotonic clock).
    pub timestamp: std::time::Instant,
    /// Why it happened.
    pub reason: TransitionReason,
}

/// The recorded facts of a transition, its time aside.
pub struct TransitionRecord {
    pub from: CameraState,
    pub to: CameraState,
    pub reason: TransitionReason,
}

/// The record of a transition.
pub open spec fn record_of(t: StateTransition) -> TransitionRecord {
    TransitionRecord { from: t.from, to: t.to, reason: t.reason }
}

/// The records of a history.
pub open spec fn records(h: Seq<StateTransition>) -> Seq<TransitionRecord> {
    h.map_values(|t: StateTransition| record_of(t))
}

/// Appends to a history that keeps at most `MAX_HISTORY` entries, dropping
/// the oldest when full.
pub open spec fn bounded_push<T>(h: Seq<T>, x: T) -> Seq<T> {
    if h.len() >= MAX_HISTORY {
        h.drop_first().push(x)
    } else {
        h.push(x)
    }
}

/// The message of a refused transition.
pub open spec fn invalid_transition_text(from: CameraState, to: CameraState, reason: TransitionReason) -> Seq<char> {
    "Invalid state transition: "@ + state_display_text(from) + " -> "@ + state_display_text(to)
        + " (reason: "@ + reason_display_text(reason) + ")"@
}

/// Told of every transition a camera makes; implemented by the
/// application.
pub trait StateChangeObserver {
    /// Called once for each transition, after it is recorded.
    fn on_state_change(&mut self, transition: &StateTransition);
}

/// Manages the lifecycle and state of one camera device.
pub struct CameraStateManager {
    device_id: DeviceId,
    state: CameraState,
    format: Option<NegotiatedFormat>,
    history: Vec<StateTransition>,
    transition_count: u64,
    observer: Option<Box<dyn StateChangeObserver>>,
}

/// The outcome of one validated transition from the state `s0` with history
/// records `h0` and count `c0` to `target`.
pub open spec fn transition_outcome(
    s0: CameraState,
    h0: Seq<TransitionRecord>,
    c0: u64,
    target: CameraState,
    reason: TransitionReason,
    s1: CameraState,
    h1: Seq<TransitionRecord>,
    c1: u64,
    r: Result<(), CaptureError>,
) -> bool {
    if valid_transition(s0, target) {
        &&& r is Ok
        &&& s1 == target
        &&& h1 == bounded_push(h0, TransitionRecord { from: s0, to: target, reason })
        &&& c1 == c0.wrapping_add(1)
    } else {
        &&& r matches Err(CaptureError::Platform(m)) && m@ == invalid_transition_text(s0, target, reason)
        &&& s1 == s0
        &&& h1 == h0
        &&& c1 == c0
    }
}

/// Whether a history is no longer than the bound and each of its entries is
/// a transition the lifecycle allows or a reset, which may start from any
/// state.
pub open spec fn well_formed_history(h: Seq<TransitionRecord>) -> bool {
    &&& h.len() <= MAX_HISTORY
    &&& forall|i: int| 0 <= i < h.len() ==> valid_transition(#[trigger] h[i].from, h[i].to) || h[i].reason is Reset
}

impl CameraStateManager {
    /// The current state.
    pub closed spec fn spec_state(&self) -> CameraState {
        self.state
    }

    /// The negotiated format.
    pub closed spec fn spec_format(&self) -> Option<NegotiatedFormat> {
        self.format
    }

    /// The records of the transition history, oldest first.
    pub closed spec fn spec_history(&self) -> Seq<TransitionRecord> {
        records(self.history@)
    }

    /// The number of transitions made (wrapping).
    pub closed spec fn spec_count(&self) -> u64 {
        self.transition_count
    }

    /// The device this manager tracks.
    pub closed spec fn spec_device(&self) -> DeviceId {
        self.device_id
    }

    /// Whether an observer is set.
    pub closed spec fn spec_has_observer(&self) -> bool {
        self.observer is Some
    }

    /// The manager's invariant: the history is bounded and holds allowed
    /// transitions and resets.
    #[verifier::type_invariant]
    pub closed spec fn wf(&self) -> bool {
        well_formed_history(records(self.history@))
    }

    /// A manager for a device that starts disconnected.
    pub fn new(device_id: DeviceId) -> (r: Self)
        ensures
            r.spec_state() is Disconnected,
            r.spec_format() is None,
            r.spec_history().len() == 0,
            r.spec_count() == 0,
            r.spec_device() == device_id,
            !r.spec_has_observer(),
    {
        let r = CameraStateManager {
            device_id,
            state: CameraState::Disconnected,
            format: None,
            history: Vec::new(),
            transition_count: 0,
            observer: None,
        };
        assert(records(r.history@) =~= Seq::<TransitionRecord>::empty());
        r
    }

    /// A manager for a device that starts available.
    pub fn new_available(device_id: DeviceId) -> (r: Self)
        ensures
            r.spec_state() is Available,
            r.spec_format() is None,
            r.spec_history().len() == 0,
            r.spec_count() == 0,
            r.spec_device() == device_id,
            !r.spec_has_observer(),
    {
        let r = CameraStateManager {
            device_id,
            state: CameraState::Available,
            format: None,
            history: Vec::new(),
            transition_count: 0,
            observer: None,
        };
        assert(records(r.history@) =~= Seq::<TransitionRecord>::empty());
        r
    }

    /// The device identifier.
    pub fn device_id(&self) -> (r: &DeviceId)
        ensures
            *r == self.spec_device(),
    {
        &self.device_id
    }

    /// The current state.
    pub fn state(&self) -> (r: CameraState)
        ensures
            r == self.spec_state(),
    {
        self.state.clone()
    }

    /// The negotiated format, if open.
    pub fn format(&self) -> (r: Option<NegotiatedFormat>)
        ensures
            r == self.spec_format(),
    {
        self.format
    }

    /// The number of transitions made.
    pub fn transition_count(&self) -> (r: u64)
        ensures
            r == self.spec_count(),
    {
        self.transition_count
    }

    /// The transition history, oldest first.
    pub fn history(&self) -> (r: &Vec<StateTransition>)
        ensures
            records(r@) == self.spec_history(),
    {
        &self.history
    }

    /// Validates and performs one transition, recording it.
    fn transition(&mut self, new_state: CameraState, reason: TransitionReason) -> (r: Result<(), CaptureError>)
        ensures
            final(self).spec_format() == old(self).spec_format(),
            final(self).spec_device() == old(self).spec_device(),
            transition_outcome(
                old(self).spec_state(),
                old(self).spec_history(),
                old(self).spec_count(),
                new_state,
                reason,
                final(self).spec_state(),
                final(self).spec_history(),
                final(self).spec_count(),
                r,
            ),
    {
        proof {
            use_type_invariant(&*self);
        }
        if !self.state.can_transition_to(&new_state) {
            let from_text = self.state.to_display_string();
            let to_text = new_state.to_display_string();
            let reason_text = reason.to_display_string();
            let msg = owned("Invalid state transition: ").concat(from_text.as_str()).concat(" -> ").concat(
                to_text.as_str(),
            ).concat(" (reason: ").concat(reason_text.as_str()).concat(")");
            return Err(CaptureError::Platform(msg));
        }
        self.record(new_state, reason);
        Ok(())
    }

    /// Moves to `new_state` and records the move, without validating it.
    fn record(&mut self, new_state: CameraState, reason: TransitionReason)
        requires
            valid_transition(old(self).spec_state(), new_state) || reason is Reset,
        ensures
            final(self).spec_format() == old(self).spec_format(),
            final(self).spec_device() == old(self).spec_device(),
            final(self).spec_state() == new_state,
            final(self).spec_history() == bounded_push(old(self).spec_history(),
                TransitionRecord { from: old(self).spec_state(), to: new_state, reason }),
            final(self).spec_count() == old(self).spec_count().wrapping_add(1),
            final(self).spec_has_observer() == old(self).spec_has_observer(),
    {
        proof {
            use_type_invariant(&*self);
        }
        let old_state = self.state.clone();
        let entry = StateTransition { from: old_state, to: new_state.clone(), timestamp: instant_now(), reason };
        let ghost h0 = self.history@;
        let ghost rec = record_of(entry);
        let mut history: Vec<StateTransition> = Vec::new();
        std::mem::swap(&mut history, &mut self.history);
        if history.len() >= MAX_HISTORY {
            history.remove(0);
            assert(records(history@) =~= records(h0).drop_first());
        } else {
            assert(records(history@) =~= records(h0));
        }
        let ghost mid = history@;
        history.push(entry);
        assert(records(history@) =~= records(mid).push(rec));
        assert(records(history@) =~= bounded_push(records(h0), rec));
        self.history = history;
        self.state = new_state;
        self.transition_count = self.transition_count.wrapping_add(1);
        let mut observer: Option<Box<dyn StateChangeObserver>> = None;
        std::mem::swap(&mut observer, &mut self.observer);
        let last = self.history.len() - 1;
        match &mut observer {
            Some(o) => o.on_state_change(&self.history[last]),
            None => {},
        }
        self.observer = observer;
    }

    /// Sets the observer told of every later transition, replacing any
    /// earlier one.
    pub fn set_on_state_change(&mut self, observer: Box<dyn StateChangeObserver>)
        ensures
            final(self).spec_has_observer(),
            final(self).spec_state() == old(self).spec_state(),
            final(self).spec_format() == old(self).spec_format(),
            final(self).spec_history() == old(self).spec_history(),
            final(self).spec_count() == old(self).spec_count(),
            final(self).spec_device() == old(self).spec_device(),
    {
        proof {
            use_type_invariant(&*self);
        }
        self.observer = Some(observer);
    }

    /// The device was detected.
    pub fn device_arrived(&mut self) -> (r: Result<(), CaptureError>)
        ensures
            final(self).spec_format() == old(self).spec_format(),
            final(self).spec_device() == old(self).spec_device(),
            transition_outcome(old(self).spec_state(), old(self).spec_history(), old(self).spec_count(),
                CameraState::Available, TransitionReason::DeviceArrived, final(self).spec_state(),
                final(self).spec_history(), final(self).spec_count(), r),
    {
        proof {
            use_type_invariant(&*self);
        }
        self.transition(CameraState::Available, TransitionReason::DeviceArrived)
    }

    /// The device was removed; the format is cleared in any case.
    pub fn device_removed(&mut self) -> (r: Result<(), CaptureError>)
        ensures
            final(self).spec_format() is None,
            final(self).spec_device() == old(self).spec_device(),
            transition_outcome(old(self).spec_state(), old(self).spec_history(), old(self).spec_count(),
                CameraState::Disconnected, TransitionReason::DeviceRemoved, final(self).spec_state(),
                final(self).spec_history(), final(self).spec_count(), r),
    {
        proof {
            use_type_invariant(&*self);
        }
        self.format = None;
        self.transition(CameraState::Disconnected, TransitionReason::DeviceRemoved)
    }

    /// Begins opening the device; refused unless it is available or in error.
    pub fn begin_open(&mut self) -> (r: Result<(), CaptureError>)
        ensures
            final(self).spec_format() == old(self).spec_format(),
            final(self).spec_device() == old(self).spec_device(),
            old(self).spec_state().can_open_spec() ==> transition_outcome(old(self).spec_state(),
                old(self).spec_history(), old(self).spec_count(), CameraState::Opening,
                TransitionReason::OpenRequested, final(self).spec_state(), final(self).spec_history(),
                final(self).spec_count(), r),
            !old(self).spec_state().can_open_spec() ==> {
                &&& r matches Err(CaptureError::Platform(m)) && m@ == "Cannot open camera in state: "@
                    + state_display_text(old(self).spec_state())
                &&& final(self).spec_state() == old(self).spec_state()
                &&& final(self).spec_history() == old(self).spec_history()
                &&& final(self).spec_count() == old(self).spec_count()
            },
    {
        proof {
            use_type_invariant(&*self);
        }
        if !self.state.can_open() {
            let text = self.state.to_display_string();
            return Err(CaptureError::Platform(owned("Cannot open camera in state: ").concat(text.as_str())));
        }
        self.transition(CameraState::Opening, TransitionReason::OpenRequested)
    }

    /// Opening succeeded with the given format.
    pub fn open_succeeded(&mut self, format: NegotiatedFormat) -> (r: Result<(), CaptureError>)
        ensures
            final(self).spec_format() == Some(format),
            final(self).spec_device() == old(self).spec_device(),
            transition_outcome(old(self).spec_state(), old(self).spec_history(), old(self).spec_count(),
                CameraState::Ready, TransitionReason::OpenSucceeded, final(self).spec_state(),
                final(self).spec_history(), final(self).spec_count(), r),
    {
        proof {
            use_type_invariant(&*self);
        }
        self.format = Some(format);
        self.transition(CameraState::Ready, TransitionReason::OpenSucceeded)
    }

    /// Opening failed with the given error.
    pub fn open_failed(&mut self, error: &CaptureError) -> (r: Result<(), CaptureError>)
        ensures
            final(self).spec_format() == old(self).spec_format(),
            final(self).spec_device() == old(self).spec_device(),
            exists|info: CameraErrorInfo, msg: String| {
                &&& info.message@ == capture_display_text(*error)
                &&& info.recoverable == is_recoverable_capture_error(*error)
                &&& info.recovery_attempts == 0
                &&& info.max_recovery_attempts == 5
                &&& msg@ == capture_display_text(*error)
                &&& #[trigger] transition_outcome(old(self).spec_state(), old(self).spec_history(),
                    old(self).spec_count(), CameraState::Error(info), TransitionReason::OpenFailed(msg),
                    final(self).spec_state(), final(self).spec_history(), final(self).spec_count(), r)
            },
    {
        proof {
            use_type_invariant(&*self);
        }
        let info = CameraErrorInfo::from_capture_error(error);
        let msg = error.to_display_string();
        let ghost gi = info;
        let ghost gm = msg;
        let ghost s0 = self.spec_state();
        let ghost h0 = self.spec_history();
        let ghost c0 = self.spec_count();
        let r = self.transition(CameraState::Error(info), TransitionReason::OpenFailed(msg));
        assert(transition_outcome(s0, h0, c0, CameraState::Error(gi), TransitionReason::OpenFailed(gm),
            self.spec_state(), self.spec_history(), self.spec_count(), r));
        r
    }

    /// Starts capturing; refused unless the camera is ready.
    pub fn start_capture(&mut self) -> (r: Result<(), CaptureError>)
        ensures
            final(self).spec_format() == old(self).spec_format(),
            final(self).spec_device() == old(self).spec_device(),
            old(self).spec_state() is Ready ==> transition_outcome(old(self).spec_state(),
                old(self).spec_history(), old(self).spec_count(), CameraState::Capturing,
                TransitionReason::CaptureStarted, final(self).spec_state(), final(self).spec_history(),
                final(self).spec_count(), r),
            !(old(self).spec_state() is Ready) ==> {
                &&& r matches Err(CaptureError::Platform(m)) && m@ == "Cannot start capture in state: "@
                    + state_display_text(old(self).spec_state())
                &&& final(self).spec_state() == old(self).spec_state()
                &&& final(self).spec_history() == old(self).spec_history()
                &&& final(self).spec_count() == old(self).spec_count()
            },
    {
        proof {
            use_type_invariant(&*self);
        }
        if !self.state.can_start_capture() {
            let text = self.state.to_display_string();
            return Err(CaptureError::Platform(owned("Cannot start capture in state: ").concat(text.as_str())));
        }
        self.transition(CameraState::Capturing, TransitionReason::CaptureStarted)
    }

    /// Stops capturing; refused unless capturing.
    pub fn stop_capture(&mut self) -> (r: Result<(), CaptureError>)
        ensures
            final(self).spec_format() == old(self).spec_format(),
            final(self).spec_device() == old(self).spec_device(),
            old(self).spec_state() is Capturing ==> transition_outcome(old(self).spec_state(),
                old(self).spec_history(), old(self).spec_count(), CameraState::Ready,
                TransitionReason::CaptureStopped, final(self).spec_state(), final(self).spec_history(),
                final(self).spec_count(), r),
            !(old(self).spec_state() is Capturing) ==> {
                &&& r matches Err(CaptureError::Platform(m)) && m@ == "Cannot stop capture: not capturing"@
                &&& final(self).spec_state() == old(self).spec_state()
                &&& final(self).spec_history() == old(self).spec_history()
                &&& final(self).spec_count() == old(self).spec_count()
            },
    {
        proof {
            use_type_invariant(&*self);
        }
        if !self.state.is_capturing() {
            return Err(CaptureError::Platform(owned("Cannot stop capture: not capturing")));
        }
        self.transition(CameraState::Ready, TransitionReason::CaptureStopped)
    }

    /// Closes the device: stops capture first if needed, clears the format
    /// and returns to Available. Does nothing when no resources are held.
    pub fn close(&mut self) -> (r: Result<(), CaptureError>)
        ensures
            final(self).spec_device() == old(self).spec_device(),
            !old(self).spec_state().has_resources_spec() ==> {
                &&& r is Ok
                &&& final(self).spec_state() == old(self).spec_state()
                &&& final(self).spec_format() == old(self).spec_format()
                &&& final(self).spec_history() == old(self).spec_history()
                &&& final(self).spec_count() == old(self).spec_count()
            },
            old(self).spec_state() is Capturing ==> {
                &&& r is Ok
                &&& final(self).spec_state() is Available
                &&& final(self).spec_format() is None
                &&& final(self).spec_history() == bounded_push(
                    bounded_push(old(self).spec_history(), TransitionRecord {
                        from: CameraState::Capturing, to: CameraState::Ready,
                        reason: TransitionReason::CaptureStopped }),
                    TransitionRecord { from: CameraState::Ready, to: CameraState::Available,
                        reason: TransitionReason::CloseRequested })
                &&& final(self).spec_count() == old(self).spec_count().wrapping_add(1).wrapping_add(1)
            },
            (old(self).spec_state() is Opening || old(self).spec_state() is Ready) ==> {
                &&& r is Ok
                &&& final(self).spec_state() is Available
                &&& final(self).spec_format() is None
                &&& final(self).spec_history() == bounded_push(old(self).spec_history(),
                    TransitionRecord { from: old(self).spec_state(), to: CameraState::Available,
                        reason: TransitionReason::CloseRequested })
                &&& final(self).spec_count() == old(self).spec_count().wrapping_add(1)
            },
    {
        proof {
            use_type_invariant(&*self);
        }
        if !self.state.has_resources() {
            return Ok(());
        }
        if self.state.is_capturing() {
            let r1 = self.transition(CameraState::Ready, TransitionReason::CaptureStopped);
            if r1.is_err() {
                return r1;
            }
        }
        self.format = None;
        self.transition(CameraState::Available, TransitionReason::CloseRequested)
    }

    /// Records an error.
    pub fn report_error(&mut self, error: &CaptureError) -> (r: Result<(), CaptureError>)
        ensures
            final(self).spec_format() == old(self).spec_format(),
            final(self).spec_device() == old(self).spec_device(),
            exists|info: CameraErrorInfo, msg: String| {
                &&& info.message@ == capture_display_text(*error)
                &&& info.recoverable == is_recoverable_capture_error(*error)
                &&& info.recovery_attempts == 0
                &&& info.max_recovery_attempts == 5
                &&& msg@ == capture_display_text(*error)
                &&& #[trigger] transition_outcome(old(self).spec_state(), old(self).spec_history(),
                    old(self).spec_count(), CameraState::Error(info), TransitionReason::Error(msg),
                    final(self).spec_state(), final(self).spec_history(), final(self).spec_count(), r)
            },
    {
        proof {
            use_type_invariant(&*self);
        }
        let info = CameraErrorInfo::from_capture_error(error);
        let msg = error.to_display_string();
        let ghost gi = info;
        let ghost gm = msg;
        let ghost s0 = self.spec_state();
        let ghost h0 = self.spec_history();
        let ghost c0 = self.spec_count();
        let r = self.transition(CameraState::Error(info), TransitionReason::Error(msg));
        assert(transition_outcome(s0, h0, c0, CameraState::Error(gi), TransitionReason::Error(gm),
            self.spec_state(), self.spec_history(), self.spec_count(), r));
        r
    }

    /// From an error state, counts a recovery attempt and, while attempts
    /// remain, returns to Available. Otherwise nothing changes but the count.
    pub fn attempt_recovery(&mut self) -> (r: Result<bool, CaptureError>)
        requires
            old(self).spec_state() matches CameraState::Error(info) ==> (info.recoverable ==>
                info.recovery_attempts < u32::MAX),
        ensures
            final(self).spec_format() == old(self).spec_format(),
            final(self).spec_device() == old(self).spec_device(),
            r is Ok,
            !(old(self).spec_state() is Error) ==> {
                &&& r == Ok::<bool, CaptureError>(false)
                &&& final(self).spec_state() == old(self).spec_state()
                &&& final(self).spec_history() == old(self).spec_history()
                &&& final(self).spec_count() == old(self).spec_count()
            },
            old(self).spec_state() matches CameraState::Error(info) ==> {
                let allowed = info.recoverable && info.recovery_attempts + 1 <= info.max_recovery_attempts;
                &&& r == Ok::<bool, CaptureError>(allowed)
                &&& allowed ==> final(self).spec_state() is Available
                &&& allowed ==> final(self).spec_count() == old(self).spec_count().wrapping_add(1)
                &&& allowed ==> final(self).spec_history().len() > 0
                    && final(self).spec_history().last().to is Available
                    && final(self).spec_history().last().reason is RecoveryAttempted
                &&& !allowed ==> final(self).spec_state() is Error
                    && final(self).spec_history() == old(self).spec_history()
                    && final(self).spec_count() == old(self).spec_count()
            },
    {
        proof {
            use_type_invariant(&*self);
        }
        let mut info = match &self.state {
            CameraState::Error(info) => info.clone(),
            _ => {
                return Ok(false);
            },
        };
        let allowed = info.attempt_recovery();
        self.state = CameraState::Error(info);
        if allowed {
            let r = self.transition(CameraState::Available, TransitionReason::RecoveryAttempted);
            match r {
                Ok(()) => Ok(true),
                Err(e) => Err(e),
            }
        } else {
            Ok(false)
        }
    }

    /// Resets to the initial state: Available when the device is present,
    /// Disconnected otherwise, from whatever state the camera is in. The
    /// format is cleared and the reset is recorded.
    pub fn reset(&mut self, device_present: bool)
        ensures
            final(self).spec_format() is None,
            final(self).spec_device() == old(self).spec_device(),
            ({
                let target = if device_present { CameraState::Available } else { CameraState::Disconnected };
                &&& final(self).spec_state() == target
                &&& final(self).spec_history() == bounded_push(old(self).spec_history(),
                    TransitionRecord { from: old(self).spec_state(), to: target, reason: TransitionReason::Reset })
                &&& final(self).spec_count() == old(self).spec_count().wrapping_add(1)
            }),
    {
        proof {
            use_type_invariant(&*self);
        }
        self.format = None;
        let new_state = if device_present { CameraState::Available } else { CameraState::Disconnected };
        self.record(new_state, TransitionReason::Reset);
    }
}

impl CameraState {
    /// Whether the camera can be opened from this state.
    pub open spec fn can_open_spec(&self) -> bool {
        *self is Available || *self is Error
    }

    /// Whether the device holds resources in this state.
    pub open spec fn has_resources_spec(&self) -> bool {
        *self is Opening || *self is Ready || *self is Capturing
    }
}

} // verus!
