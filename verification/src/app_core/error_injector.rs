//! Deterministic error injection for fault-tolerance testing.
//!
//! An injector counts operations and, by its trigger, decides which of them
//! fail; it then builds the error of the configured kind. The same trigger
//! and operations always give the same decisions.
use vstd::prelude::*;
use crate::app_core::error::{CaptureError, ConfigError, ErrorContext, MicroundError, PlatformError, RenderError};
use crate::clock::{elapsed_millis, instant_now, millis_between};
use crate::text::{decimal_digits, owned, u64_to_decimal};

verus! {

/// When to inject an error.
#[derive(Debug)]
pub enum InjectionTrigger {
    /// Never.
    Never,
    /// On every operation.
    Always,
    /// On every n-th operation (never when n is 0).
    EveryN(u64),
    /// With a probability given in parts per million: an operation fails
    /// when its seeded hash, as a fraction of `u64::MAX`, is below it.
    Probability(u32),
    /// On the listed operation numbers (counted from 1).
    OnOperations(Vec<u64>),
    /// Once this many milliseconds have passed since the injector was made.
    AfterMillis(u64),
    /// On the operations from `start` to `end`, both included.
    InRange { start: u64, end: u64 },
}

/// The kind of error to inject.
#[derive(Debug, Clone, Copy, PartialEq, Eq, Structural)]
pub enum ErrorType {
    /// A capture error.
    Capture(CaptureErrorKind),
    /// A render error.
    Render(RenderErrorKind),
    /// A configuration error.
    Config(ConfigErrorKind),
    /// A platform error.
    Platform(PlatformErrorKind),
    /// A generic error.
    Generic,
}

impl Default for ErrorType {
    fn default() -> (r: Self)
        ensures
            r == ErrorType::Generic,
    {
        ErrorType::Generic
    }
}

/// Capture error kinds.
#[derive(Debug, Clone, Copy, PartialEq, Eq, Structural)]
pub enum CaptureErrorKind {
    DeviceNotFound,
    Disconnected,
    PermissionDenied,
    FormatNegotiationFailed,
    Timeout,
    DeviceBusy,
    NoCameras,
    Platform,
}

/// Render error kinds.
#[derive(Debug, Clone, Copy, PartialEq, Eq, Structural)]
pub enum RenderErrorKind {
    DisplayNotFound,
    SurfaceCreation,
    RenderFailed,
    InitFailed,
    Generic,
}

/// Configuration error kinds.
#[derive(Debug, Clone, Copy, PartialEq, Eq, Structural)]
pub enum ConfigErrorKind {
    ReadFailed,
    WriteFailed,
    Invalid,
    NotFound,
}

/// Platform error kinds.
#[derive(Debug, Clone, Copy, PartialEq, Eq, Structural)]
pub enum PlatformErrorKind {
    Unsupported,
    CommandFailed,
    InvalidState,
    ResourceNotFound,
    PermissionDenied,
}

/// Statistics of an injector.
#[derive(Debug, Clone, Copy)]
pub struct InjectionStats {
    /// Operations checked.
    pub operations_checked: u64,
    /// Errors injected.
    pub errors_injected: u64,
    /// The operation of the last injection (not tracked).
    pub last_injection_at: Option<u64>,
    /// The time of the last injection (not tracked).
    pub last_injection_time: Option<std::time::Instant>,
}

impl Default for InjectionStats {
    fn default() -> (r: Self)
        ensures
            r.operations_checked == 0,
            r.errors_injected == 0,
            r.last_injection_at is None,
            r.last_injection_time is None,
    {
        InjectionStats { operations_checked: 0, errors_injected: 0, last_injection_at: None, last_injection_time: None }
    }
}

/// The seeded hash of an operation number: two multiply-xorshift rounds,
/// the seed added, and a last xorshift.
pub open spec fn operation_hash(op: u64, seed: u64) -> u64 {
    let h1 = op.wrapping_mul(0x517cc1b727220a95u64);
    let h2 = h1 ^ (h1 >> 33u64);
    let h3 = h2.wrapping_mul(0x9e3779b97f4a7c15u64);
    let h4 = h3 ^ (h3 >> 33u64);
    let h5 = h4.wrapping_add(seed);
    h5 ^ (h5 >> 27u64)
}

/// Whether a hash, as a fraction of `u64::MAX`, lies below a probability
/// given in parts per million.
pub open spec fn hash_below(hash: u64, per_million: u32) -> bool {
    hash * 1_000_000 < per_million * u64::MAX
}

/// Whether the trigger fires for an operation number, given the
/// milliseconds since the injector was made and the seed.
pub open spec fn trigger_fires(t: InjectionTrigger, op: u64, elapsed_ms: u64, seed: u64) -> bool {
    match t {
        InjectionTrigger::Never => false,
        InjectionTrigger::Always => true,
        InjectionTrigger::EveryN(n) => n > 0 && op % n == 0,
        InjectionTrigger::Probability(p) => hash_below(operation_hash(op, seed), p),
        InjectionTrigger::OnOperations(ops) => ops@.contains(op),
        InjectionTrigger::AfterMillis(d) => elapsed_ms >= d,
        InjectionTrigger::InRange { start, end } => start <= op <= end,
    }
}

/// The seeded hash of an operation number.
fn deterministic_random(op: u64, seed: u64) -> (r: u64)
    ensures
        r == operation_hash(op, seed),
{
    let mut h = op.wrapping_mul(0x517cc1b727220a95u64);
    h = h ^ (h >> 33u64);
    h = h.wrapping_mul(0x9e3779b97f4a7c15u64);
    h = h ^ (h >> 33u64);
    h = h.wrapping_add(seed);
    h ^ (h >> 27u64)
}

/// Injects errors into operations; see the module documentation.
#[derive(Debug)]
pub struct ErrorInjector {
    trigger: InjectionTrigger,
    error_type: ErrorType,
    custom_message: Option<String>,
    operation_count: u64,
    errors_injected: u64,
    seed: u64,
    start_time: std::time::Instant,
    active: bool,
}

impl ErrorInjector {
    /// The trigger.
    pub closed spec fn spec_trigger(&self) -> InjectionTrigger {
        self.trigger
    }

    /// The kind of error injected.
    pub closed spec fn spec_error_type(&self) -> ErrorType {
        self.error_type
    }

    /// The message used instead of the generated one, if set.
    pub closed spec fn spec_message(&self) -> Option<String> {
        self.custom_message
    }

    /// Operations checked so far (wrapping).
    pub closed spec fn spec_operations(&self) -> u64 {
        self.operation_count
    }

    /// Errors injected so far (wrapping).
    pub closed spec fn spec_injected(&self) -> u64 {
        self.errors_injected
    }

    /// Whether the injector is active.
    pub closed spec fn spec_active(&self) -> bool {
        self.active
    }

    /// When the injector was made.
    pub closed spec fn spec_start(&self) -> std::time::Instant {
        self.start_time
    }

    /// The seed.
    pub closed spec fn spec_seed(&self) -> u64 {
        self.seed
    }

    /// An inactive injector that never fires.
    pub fn new() -> (r: Self)
        ensures
            r.spec_trigger() is Never,
            r.spec_error_type() is Generic,
            r.spec_message() is None,
            r.spec_operations() == 0,
            r.spec_injected() == 0,
            !r.spec_active(),
    {
        ErrorInjector {
            trigger: InjectionTrigger::Never,
            error_type: ErrorType::Generic,
            custom_message: None,
            operation_count: 0,
            errors_injected: 0,
            seed: 42,
            start_time: instant_now(),
            active: false,
        }
    }

    /// An active injector that fires on every n-th operation.
    pub fn every_n(n: u64) -> (r: Self)
        ensures
            r.spec_trigger() == InjectionTrigger::EveryN(n),
            r.spec_active(),
            r.spec_operations() == 0,
            r.spec_injected() == 0,
    {
        ErrorInjector::new().with_trigger(InjectionTrigger::EveryN(n)).activate()
    }

    /// An active injector that fires with a probability given in parts per
    /// million.
    pub fn with_probability(per_million: u32) -> (r: Self)
        ensures
            r.spec_trigger() == InjectionTrigger::Probability(per_million),
            r.spec_active(),
            r.spec_operations() == 0,
            r.spec_injected() == 0,
    {
        ErrorInjector::new().with_trigger(InjectionTrigger::Probability(per_million)).activate()
    }

    /// An active injector that fires on the listed operations.
    pub fn on_operations(ops: Vec<u64>) -> (r: Self)
        ensures
            r.spec_trigger() == InjectionTrigger::OnOperations(ops),
            r.spec_active(),
            r.spec_operations() == 0,
            r.spec_injected() == 0,
    {
        ErrorInjector::new().with_trigger(InjectionTrigger::OnOperations(ops)).activate()
    }

    /// The same injector with another trigger.
    pub fn with_trigger(self, trigger: InjectionTrigger) -> (r: Self)
        ensures
            r.spec_trigger() == trigger,
            r.spec_error_type() == self.spec_error_type(),
            r.spec_message() == self.spec_message(),
            r.spec_operations() == self.spec_operations(),
            r.spec_injected() == self.spec_injected(),
            r.spec_active() == self.spec_active(),
            r.spec_start() == self.spec_start(),
            r.spec_seed() == self.spec_seed(),
    {
        ErrorInjector { trigger, ..self }
    }

    /// The same injector with another kind of error.
    pub fn with_error_type(self, error_type: ErrorType) -> (r: Self)
        ensures
            r.spec_error_type() == error_type,
            r.spec_trigger() == self.spec_trigger(),
            r.spec_message() == self.spec_message(),
            r.spec_operations() == self.spec_operations(),
            r.spec_injected() == self.spec_injected(),
            r.spec_active() == self.spec_active(),
            r.spec_start() == self.spec_start(),
            r.spec_seed() == self.spec_seed(),
    {
        ErrorInjector { error_type, ..self }
    }

    /// The same injector with a fixed message.
    pub fn with_message(self, message: &str) -> (r: Self)
        ensures
            r.spec_message() matches Some(m) && m@ == message@,
            r.spec_trigger() == self.spec_trigger(),
            r.spec_error_type() == self.spec_error_type(),
            r.spec_operations() == self.spec_operations(),
            r.spec_injected() == self.spec_injected(),
            r.spec_active() == self.spec_active(),
    {
        ErrorInjector { custom_message: Some(owned(message)), ..self }
    }

    /// The same injector with another seed.
    pub fn with_seed(self, seed: u64) -> (r: Self)
        ensures
            r.spec_seed() == seed,
            r.spec_trigger() == self.spec_trigger(),
            r.spec_error_type() == self.spec_error_type(),
            r.spec_message() == self.spec_message(),
            r.spec_operations() == self.spec_operations(),
            r.spec_injected() == self.spec_injected(),
            r.spec_active() == self.spec_active(),
            r.spec_start() == self.spec_start(),
    {
        ErrorInjector { seed, ..self }
    }

    /// The same injector, active.
    pub fn activate(self) -> (r: Self)
        ensures
            r.spec_active(),
            r.spec_trigger() == self.spec_trigger(),
            r.spec_error_type() == self.spec_error_type(),
            r.spec_message() == self.spec_message(),
            r.spec_operations() == self.spec_operations(),
            r.spec_injected() == self.spec_injected(),
            r.spec_start() == self.spec_start(),
            r.spec_seed() == self.spec_seed(),
    {
        ErrorInjector { active: true, ..self }
    }

    /// Makes the injector inactive.
    pub fn deactivate(&mut self)
        ensures
            !final(self).spec_active(),
            final(self).spec_trigger() == old(self).spec_trigger(),
            final(self).spec_error_type() == old(self).spec_error_type(),
            final(self).spec_message() == old(self).spec_message(),
            final(self).spec_operations() == old(self).spec_operations(),
            final(self).spec_injected() == old(self).spec_injected(),
            final(self).spec_start() == old(self).spec_start(),
            final(self).spec_seed() == old(self).spec_seed(),
    {
        self.active = false;
    }

    fn check_trigger(&mut self, op: u64, now: std::time::Instant) -> (r: bool)
        ensures
            r == trigger_fires(old(self).spec_trigger(), op, millis_between(now, old(self).spec_start()), old(self).spec_seed()),
            final(self).spec_injected() == if r { old(self).spec_injected().wrapping_add(1) } else { old(self).spec_injected() },
            final(self).spec_operations() == old(self).spec_operations(),
            final(self).spec_trigger() == old(self).spec_trigger(),
            final(self).spec_start() == old(self).spec_start(),
            final(self).spec_active() == old(self).spec_active(),
            final(self).spec_error_type() == old(self).spec_error_type(),
            final(self).spec_message() == old(self).spec_message(),
            final(self).spec_seed() == old(self).spec_seed(),
    {
        let elapsed = elapsed_millis(&now, &self.start_time);
        let fire = match &self.trigger {
            InjectionTrigger::Never => false,
            InjectionTrigger::Always => true,
            InjectionTrigger::EveryN(n) => *n > 0 && op % *n == 0,
            InjectionTrigger::Probability(p) => {
                let h = deterministic_random(op, self.seed);
                (h as u128) * 1_000_000 < (*p as u128) * (u64::MAX as u128)
            },
            InjectionTrigger::OnOperations(ops) => {
                let mut found = false;
                let mut i: usize = 0;
                while i < ops.len()
                    invariant
                        i <= ops@.len(),
                        found == exists|k: int| 0 <= k < i && ops@[k] == op,
                    decreases ops.len() - i,
                {
                    if ops[i] == op {
                        found = true;
                    }
                    i = i + 1;
                }
                found
            },
            InjectionTrigger::AfterMillis(d) => elapsed >= *d,
            InjectionTrigger::InRange { start, end } => op >= *start && op <= *end,
        };
        if fire {
            self.errors_injected = self.errors_injected.wrapping_add(1);
        }
        fire
    }

    /// Counts an operation at `now` and says whether it fails. An inactive
    /// injector neither counts nor fires.
    pub fn should_inject_at(&mut self, now: std::time::Instant) -> (r: bool)
        ensures
            !old(self).spec_active() ==> !r && *final(self) == *old(self),
            old(self).spec_active() ==> {
                &&& final(self).spec_operations() == old(self).spec_operations().wrapping_add(1)
                &&& r == trigger_fires(old(self).spec_trigger(), old(self).spec_operations().wrapping_add(1), millis_between(now, old(self).spec_start()), old(self).spec_seed())
                &&& final(self).spec_injected() == if r { old(self).spec_injected().wrapping_add(1) } else { old(self).spec_injected() }
            },
            final(self).spec_trigger() == old(self).spec_trigger(),
            final(self).spec_active() == old(self).spec_active(),
            final(self).spec_error_type() == old(self).spec_error_type(),
            final(self).spec_message() == old(self).spec_message(),
            final(self).spec_start() == old(self).spec_start(),
            final(self).spec_seed() == old(self).spec_seed(),
    {
        if !self.active {
            return false;
        }
        self.operation_count = self.operation_count.wrapping_add(1);
        let op = self.operation_count;
        self.check_trigger(op, now)
    }

    /// Counts an operation now and says whether it fails.
    pub fn should_inject(&mut self) -> (r: bool)
        ensures
            !old(self).spec_active() ==> !r && *final(self) == *old(self),
            old(self).spec_active() ==> {
                &&& final(self).spec_operations() == old(self).spec_operations().wrapping_add(1)
                &&& !(old(self).spec_trigger() is AfterMillis) ==> r == trigger_fires(old(self).spec_trigger(),
                    old(self).spec_operations().wrapping_add(1), 0, old(self).spec_seed())
                &&& final(self).spec_injected() == if r { old(self).spec_injected().wrapping_add(1) } else { old(self).spec_injected() }
            },
            final(self).spec_trigger() == old(self).spec_trigger(),
            final(self).spec_active() == old(self).spec_active(),
            final(self).spec_error_type() == old(self).spec_error_type(),
            final(self).spec_message() == old(self).spec_message(),
            final(self).spec_start() == old(self).spec_start(),
            final(self).spec_seed() == old(self).spec_seed(),
    {
        let now = instant_now();
        self.should_inject_at(now)
    }

    /// Says whether the next operation at `now` would fail, without counting
    /// it. As when counting, a firing trigger adds to the injected count.
    pub fn peek_should_inject_at(&mut self, now: std::time::Instant) -> (r: bool)
        ensures
            !old(self).spec_active() ==> !r && *final(self) == *old(self),
            old(self).spec_active() ==> {
                &&& r == trigger_fires(old(self).spec_trigger(), old(self).spec_operations().wrapping_add(1), millis_between(now, old(self).spec_start()), old(self).spec_seed())
                &&& final(self).spec_injected() == if r { old(self).spec_injected().wrapping_add(1) } else { old(self).spec_injected() }
            },
            final(self).spec_operations() == old(self).spec_operations(),
            final(self).spec_trigger() == old(self).spec_trigger(),
            final(self).spec_active() == old(self).spec_active(),
            final(self).spec_error_type() == old(self).spec_error_type(),
            final(self).spec_message() == old(self).spec_message(),
            final(self).spec_start() == old(self).spec_start(),
            final(self).spec_seed() == old(self).spec_seed(),
    {
        if !self.active {
            return false;
        }
        let op = self.operation_count.wrapping_add(1);
        self.check_trigger(op, now)
    }

    /// Says whether the next operation would fail, without counting it.
    pub fn peek_should_inject(&mut self) -> (r: bool)
        ensures
            !old(self).spec_active() ==> !r && *final(self) == *old(self),
            old(self).spec_active() ==> {
                &&& !(old(self).spec_trigger() is AfterMillis) ==> r == trigger_fires(old(self).spec_trigger(),
                    old(self).spec_operations().wrapping_add(1), 0, old(self).spec_seed())
                &&& final(self).spec_injected() == if r { old(self).spec_injected().wrapping_add(1) } else { old(self).spec_injected() }
            },
            final(self).spec_operations() == old(self).spec_operations(),
            final(self).spec_trigger() == old(self).spec_trigger(),
            final(self).spec_active() == old(self).spec_active(),
            final(self).spec_error_type() == old(self).spec_error_type(),
            final(self).spec_message() == old(self).spec_message(),
            final(self).spec_start() == old(self).spec_start(),
            final(self).spec_seed() == old(self).spec_seed(),
    {
        let now = instant_now();
        self.peek_should_inject_at(now)
    }

    /// Whether the injector is active.
    pub fn is_active(&self) -> (r: bool)
        ensures
            r == self.spec_active(),
    {
        self.active
    }

    /// Operations counted so far.
    pub fn operation_count(&self) -> (r: u64)
        ensures
            r == self.spec_operations(),
    {
        self.operation_count
    }

    /// The counters.
    pub fn stats(&self) -> (r: InjectionStats)
        ensures
            r.operations_checked == self.spec_operations(),
            r.errors_injected == self.spec_injected(),
            r.last_injection_at is None,
            r.last_injection_time is None,
    {
        InjectionStats {
            operations_checked: self.operation_count,
            errors_injected: self.errors_injected,
            last_injection_at: None,
            last_injection_time: None,
        }
    }

    /// Sets both counters to zero.
    pub fn reset(&mut self)
        ensures
            final(self).spec_operations() == 0,
            final(self).spec_injected() == 0,
            final(self).spec_trigger() == old(self).spec_trigger(),
            final(self).spec_error_type() == old(self).spec_error_type(),
            final(self).spec_message() == old(self).spec_message(),
            final(self).spec_active() == old(self).spec_active(),
            final(self).spec_start() == old(self).spec_start(),
            final(self).spec_seed() == old(self).spec_seed(),
    {
        self.operation_count = 0;
        self.errors_injected = 0;
    }

    fn message(&self, context: &str) -> (r: String)
        ensures
            r@ == injected_text(self.spec_message(), self.spec_operations(), context@),
    {
        match &self.custom_message {
            Some(m) => m.clone(),
            None => {
                let mut s = owned("Injected error at operation ");
                let n = u64_to_decimal(self.operation_count);
                s.append(n.as_str());
                s.append(": ");
                s.append(context);
                s
            },
        }
    }

    /// The capture error to inject: the configured capture kind, or a
    /// platform error when another kind is configured.
    pub fn capture_error(&self, context: &str) -> (r: CaptureError)
        ensures
            ({
                let m = injected_text(self.spec_message(), self.spec_operations(), context@);
                match self.spec_error_type() {
                    ErrorType::Capture(CaptureErrorKind::DeviceNotFound) => r matches CaptureError::DeviceNotFound(s) && s@ == m,
                    ErrorType::Capture(CaptureErrorKind::Disconnected) => r is Disconnected,
                    ErrorType::Capture(CaptureErrorKind::PermissionDenied) => r matches CaptureError::PermissionDenied(s) && s@ == m,
                    ErrorType::Capture(CaptureErrorKind::FormatNegotiationFailed) => r matches CaptureError::FormatNegotiationFailed(s) && s@ == m,
                    ErrorType::Capture(CaptureErrorKind::Timeout) => r == CaptureError::Timeout(1000),
                    ErrorType::Capture(CaptureErrorKind::DeviceBusy) => r is DeviceBusy,
                    ErrorType::Capture(CaptureErrorKind::NoCameras) => r is NoCameras,
                    _ => r matches CaptureError::Platform(s) && s@ == m,
                }
            }),
    {
        let message = self.message(context);
        match self.error_type {
            ErrorType::Capture(kind) => match kind {
                CaptureErrorKind::DeviceNotFound => CaptureError::DeviceNotFound(message),
                CaptureErrorKind::Disconnected => CaptureError::Disconnected,
                CaptureErrorKind::PermissionDenied => CaptureError::PermissionDenied(message),
                CaptureErrorKind::FormatNegotiationFailed => CaptureError::FormatNegotiationFailed(message),
                CaptureErrorKind::Timeout => CaptureError::Timeout(1000),
                CaptureErrorKind::DeviceBusy => CaptureError::DeviceBusy,
                CaptureErrorKind::NoCameras => CaptureError::NoCameras,
                CaptureErrorKind::Platform => CaptureError::Platform(message),
            },
            _ => CaptureError::Platform(message),
        }
    }

    /// The render error to inject.
    pub fn render_error(&self, context: &str) -> (r: RenderError)
        ensures
            ({
                let m = injected_text(self.spec_message(), self.spec_operations(), context@);
                match self.spec_error_type() {
                    ErrorType::Render(RenderErrorKind::DisplayNotFound) => r matches RenderError::DisplayNotFound(s) && s@ == m,
                    ErrorType::Render(RenderErrorKind::SurfaceCreation) => r matches RenderError::SurfaceCreation(s) && s@ == m,
                    _ => r matches RenderError::Platform(s) && s@ == m,
                }
            }),
    {
        let message = self.message(context);
        match self.error_type {
            ErrorType::Render(RenderErrorKind::DisplayNotFound) => RenderError::DisplayNotFound(message),
            ErrorType::Render(RenderErrorKind::SurfaceCreation) => RenderError::SurfaceCreation(message),
            _ => RenderError::Platform(message),
        }
    }

    /// The configuration error to inject.
    pub fn config_error(&self, context: &str) -> (r: ConfigError)
        ensures
            ({
                let m = injected_text(self.spec_message(), self.spec_operations(), context@);
                match self.spec_error_type() {
                    ErrorType::Config(ConfigErrorKind::WriteFailed) => r matches ConfigError::WriteFailed(s) && s@ == m,
                    ErrorType::Config(ConfigErrorKind::Invalid) => r matches ConfigError::Invalid(s) && s@ == m,
                    ErrorType::Config(ConfigErrorKind::NotFound) => r matches ConfigError::NotFound(s) && s@ == m,
                    _ => r matches ConfigError::ReadFailed(s) && s@ == m,
                }
            }),
    {
        let message = self.message(context);
        match self.error_type {
            ErrorType::Config(ConfigErrorKind::WriteFailed) => ConfigError::WriteFailed(message),
            ErrorType::Config(ConfigErrorKind::Invalid) => ConfigError::Invalid(message),
            ErrorType::Config(ConfigErrorKind::NotFound) => ConfigError::NotFound(message),
            _ => ConfigError::ReadFailed(message),
        }
    }

    /// The platform error to inject.
    pub fn platform_error(&self, context: &str) -> (r: PlatformError)
        ensures
            ({
                let m = injected_text(self.spec_message(), self.spec_operations(), context@);
                match self.spec_error_type() {
                    ErrorType::Platform(PlatformErrorKind::Unsupported) => r matches PlatformError::Unsupported(s) && s@ == m,
                    ErrorType::Platform(PlatformErrorKind::InvalidState) => r matches PlatformError::InvalidState(s) && s@ == m,
                    ErrorType::Platform(PlatformErrorKind::ResourceNotFound) => r matches PlatformError::ResourceNotFound(s) && s@ == m,
                    ErrorType::Platform(PlatformErrorKind::PermissionDenied) => r matches PlatformError::PermissionDenied(s) && s@ == m,
                    _ => r matches PlatformError::CommandFailed(s) && s@ == m,
                }
            }),
    {
        let message = self.message(context);
        match self.error_type {
            ErrorType::Platform(PlatformErrorKind::Unsupported) => PlatformError::Unsupported(message),
            ErrorType::Platform(PlatformErrorKind::InvalidState) => PlatformError::InvalidState(message),
            ErrorType::Platform(PlatformErrorKind::ResourceNotFound) => PlatformError::ResourceNotFound(message),
            ErrorType::Platform(PlatformErrorKind::PermissionDenied) => PlatformError::PermissionDenied(message),
            _ => PlatformError::CommandFailed(message),
        }
    }

    /// A generic internal error, from the `error_injector` component's
    /// `inject` operation.
    pub fn generic_error(&self, context: &str) -> (r: MicroundError)
        ensures
            r matches MicroundError::Internal { message, .. }
                && message@ == injected_text(self.spec_message(), self.spec_operations(), context@),
    {
        let message = self.message(context);
        MicroundError::Internal {
            message,
            context: ErrorContext::new().component("error_injector").operation("inject"),
        }
    }
}

/// The message of an injected error: the fixed one, or one that names the
/// operation and the context.
pub open spec fn injected_text(custom: Option<String>, operations: u64, context: Seq<char>) -> Seq<char> {
    match custom {
        Some(m) => m@,
        None => "Injected error at operation "@ + decimal_digits(operations as nat) + ": "@ + context,
    }
}

impl Default for ErrorInjector {
    fn default() -> (r: Self)
        ensures
            r.spec_trigger() is Never,
            r.spec_error_type() is Generic,
            r.spec_message() is None,
            r.spec_operations() == 0,
            r.spec_injected() == 0,
            !r.spec_active(),
    {
        ErrorInjector::new()
    }
}

/// Builds an injector step by step; the built injector is active.
#[derive(Debug)]
pub struct ErrorInjectorBuilder {
    injector: ErrorInjector,
}

impl ErrorInjectorBuilder {
    /// The injector that the builder holds so far.
    pub closed spec fn spec_injector(&self) -> ErrorInjector {
        self.injector
    }

    /// A builder that starts from a new, inactive injector.
    pub fn new() -> (r: Self)
        ensures
            r.spec_injector().spec_trigger() is Never,
            r.spec_injector().spec_error_type() is Generic,
            r.spec_injector().spec_message() is None,
            r.spec_injector().spec_operations() == 0,
            r.spec_injector().spec_injected() == 0,
            !r.spec_injector().spec_active(),
    {
        ErrorInjectorBuilder { injector: ErrorInjector::new() }
    }

    fn trigger(self, trigger: InjectionTrigger) -> (r: Self)
        ensures
            r.spec_injector().spec_trigger() == trigger,
            r.spec_injector().spec_error_type() == self.spec_injector().spec_error_type(),
            r.spec_injector().spec_message() == self.spec_injector().spec_message(),
            r.spec_injector().spec_seed() == self.spec_injector().spec_seed(),
            r.spec_injector().spec_operations() == self.spec_injector().spec_operations(),
            r.spec_injector().spec_injected() == self.spec_injector().spec_injected(),
    {
        ErrorInjectorBuilder { injector: self.injector.with_trigger(trigger) }
    }

    fn kind(self, error_type: ErrorType) -> (r: Self)
        ensures
            r.spec_injector().spec_error_type() == error_type,
            r.spec_injector().spec_trigger() == self.spec_injector().spec_trigger(),
            r.spec_injector().spec_message() == self.spec_injector().spec_message(),
            r.spec_injector().spec_seed() == self.spec_injector().spec_seed(),
            r.spec_injector().spec_operations() == self.spec_injector().spec_operations(),
            r.spec_injector().spec_injected() == self.spec_injector().spec_injected(),
    {
        ErrorInjectorBuilder { injector: self.injector.with_error_type(error_type) }
    }

    /// Fires on every n-th operation.
    pub fn every(self, n: u64) -> (r: Self)
        ensures
            r.spec_injector().spec_trigger() == InjectionTrigger::EveryN(n),
            r.spec_injector().spec_error_type() == self.spec_injector().spec_error_type(),
            r.spec_injector().spec_message() == self.spec_injector().spec_message(),
            r.spec_injector().spec_seed() == self.spec_injector().spec_seed(),
            r.spec_injector().spec_operations() == self.spec_injector().spec_operations(),
            r.spec_injector().spec_injected() == self.spec_injector().spec_injected(),
    {
        self.trigger(InjectionTrigger::EveryN(n))
    }

    /// Fires with a probability in parts per million, at most one million.
    pub fn probability(self, per_million: u32) -> (r: Self)
        ensures
            r.spec_injector().spec_trigger() == InjectionTrigger::Probability(
                if per_million > 1_000_000 { 1_000_000 } else { per_million }),
            r.spec_injector().spec_error_type() == self.spec_injector().spec_error_type(),
            r.spec_injector().spec_message() == self.spec_injector().spec_message(),
            r.spec_injector().spec_seed() == self.spec_injector().spec_seed(),
            r.spec_injector().spec_operations() == self.spec_injector().spec_operations(),
            r.spec_injector().spec_injected() == self.spec_injector().spec_injected(),
    {
        let p: u32 = if per_million > 1_000_000 { 1_000_000 } else { per_million };
        self.trigger(InjectionTrigger::Probability(p))
    }

    /// Fires on the listed operations.
    pub fn on_operations(self, ops: Vec<u64>) -> (r: Self)
        ensures
            r.spec_injector().spec_trigger() == InjectionTrigger::OnOperations(ops),
            r.spec_injector().spec_error_type() == self.spec_injector().spec_error_type(),
            r.spec_injector().spec_message() == self.spec_injector().spec_message(),
            r.spec_injector().spec_seed() == self.spec_injector().spec_seed(),
    {
        self.trigger(InjectionTrigger::OnOperations(ops))
    }

    /// Fires on the operations from `start` to `end`, both included.
    pub fn in_range(self, start: u64, end: u64) -> (r: Self)
        ensures
            r.spec_injector().spec_trigger() == (InjectionTrigger::InRange { start, end }),
            r.spec_injector().spec_error_type() == self.spec_injector().spec_error_type(),
            r.spec_injector().spec_message() == self.spec_injector().spec_message(),
            r.spec_injector().spec_seed() == self.spec_injector().spec_seed(),
    {
        self.trigger(InjectionTrigger::InRange { start, end })
    }

    /// Fires on every operation.
    pub fn always(self) -> (r: Self)
        ensures
            r.spec_injector().spec_trigger() is Always,
            r.spec_injector().spec_error_type() == self.spec_injector().spec_error_type(),
            r.spec_injector().spec_message() == self.spec_injector().spec_message(),
            r.spec_injector().spec_seed() == self.spec_injector().spec_seed(),
    {
        self.trigger(InjectionTrigger::Always)
    }

    /// Injects "device not found" capture errors.
    pub fn device_not_found(self) -> (r: Self)
        ensures
            r.spec_injector().spec_error_type() == ErrorType::Capture(CaptureErrorKind::DeviceNotFound),
            r.spec_injector().spec_trigger() == self.spec_injector().spec_trigger(),
            r.spec_injector().spec_message() == self.spec_injector().spec_message(),
            r.spec_injector().spec_seed() == self.spec_injector().spec_seed(),
    {
        self.kind(ErrorType::Capture(CaptureErrorKind::DeviceNotFound))
    }

    /// Injects "disconnected" capture errors.
    pub fn device_disconnected(self) -> (r: Self)
        ensures
            r.spec_injector().spec_error_type() == ErrorType::Capture(CaptureErrorKind::Disconnected),
            r.spec_injector().spec_trigger() == self.spec_injector().spec_trigger(),
            r.spec_injector().spec_message() == self.spec_injector().spec_message(),
            r.spec_injector().spec_seed() == self.spec_injector().spec_seed(),
    {
        self.kind(ErrorType::Capture(CaptureErrorKind::Disconnected))
    }

    /// Injects "permission denied" capture errors.
    pub fn permission_denied(self) -> (r: Self)
        ensures
            r.spec_injector().spec_error_type() == ErrorType::Capture(CaptureErrorKind::PermissionDenied),
            r.spec_injector().spec_trigger() == self.spec_injector().spec_trigger(),
            r.spec_injector().spec_message() == self.spec_injector().spec_message(),
            r.spec_injector().spec_seed() == self.spec_injector().spec_seed(),
    {
        self.kind(ErrorType::Capture(CaptureErrorKind::PermissionDenied))
    }

    /// Injects capture timeouts.
    pub fn timeout(self) -> (r: Self)
        ensures
            r.spec_injector().spec_error_type() == ErrorType::Capture(CaptureErrorKind::Timeout),
            r.spec_injector().spec_trigger() == self.spec_injector().spec_trigger(),
            r.spec_injector().spec_message() == self.spec_injector().spec_message(),
            r.spec_injector().spec_seed() == self.spec_injector().spec_seed(),
    {
        self.kind(ErrorType::Capture(CaptureErrorKind::Timeout))
    }

    /// Injects render failures.
    pub fn render_failed(self) -> (r: Self)
        ensures
            r.spec_injector().spec_error_type() == ErrorType::Render(RenderErrorKind::RenderFailed),
            r.spec_injector().spec_trigger() == self.spec_injector().spec_trigger(),
            r.spec_injector().spec_message() == self.spec_injector().spec_message(),
            r.spec_injector().spec_seed() == self.spec_injector().spec_seed(),
    {
        self.kind(ErrorType::Render(RenderErrorKind::RenderFailed))
    }

    /// Injects "display not found" render errors.
    pub fn display_not_found(self) -> (r: Self)
        ensures
            r.spec_injector().spec_error_type() == ErrorType::Render(RenderErrorKind::DisplayNotFound),
            r.spec_injector().spec_trigger() == self.spec_injector().spec_trigger(),
            r.spec_injector().spec_message() == self.spec_injector().spec_message(),
            r.spec_injector().spec_seed() == self.spec_injector().spec_seed(),
    {
        self.kind(ErrorType::Render(RenderErrorKind::DisplayNotFound))
    }

    /// Injects configuration read failures.
    pub fn config_read_failed(self) -> (r: Self)
        ensures
            r.spec_injector().spec_error_type() == ErrorType::Config(ConfigErrorKind::ReadFailed),
            r.spec_injector().spec_trigger() == self.spec_injector().spec_trigger(),
            r.spec_injector().spec_message() == self.spec_injector().spec_message(),
            r.spec_injector().spec_seed() == self.spec_injector().spec_seed(),
    {
        self.kind(ErrorType::Config(ConfigErrorKind::ReadFailed))
    }

    /// Uses a fixed message.
    pub fn message(self, msg: &str) -> (r: Self)
        ensures
            r.spec_injector().spec_message() matches Some(m) && m@ == msg@,
            r.spec_injector().spec_trigger() == self.spec_injector().spec_trigger(),
            r.spec_injector().spec_error_type() == self.spec_injector().spec_error_type(),
    {
        let injector = self.injector.with_message(msg);
        ErrorInjectorBuilder { injector }
    }

    /// Uses another seed.
    pub fn seed(self, seed: u64) -> (r: Self)
        ensures
            r.spec_injector().spec_seed() == seed,
            r.spec_injector().spec_trigger() == self.spec_injector().spec_trigger(),
            r.spec_injector().spec_error_type() == self.spec_injector().spec_error_type(),
            r.spec_injector().spec_message() == self.spec_injector().spec_message(),
    {
        ErrorInjectorBuilder { injector: self.injector.with_seed(seed) }
    }

    /// The injector, active.
    pub fn build(self) -> (r: ErrorInjector)
        ensures
            r.spec_active(),
            r.spec_trigger() == self.spec_injector().spec_trigger(),
            r.spec_error_type() == self.spec_injector().spec_error_type(),
            r.spec_message() == self.spec_injector().spec_message(),
            r.spec_seed() == self.spec_injector().spec_seed(),
            r.spec_operations() == self.spec_injector().spec_operations(),
            r.spec_injected() == self.spec_injector().spec_injected(),
    {
        self.injector.activate()
    }
}

impl Default for ErrorInjectorBuilder {
    fn default() -> (r: Self)
        ensures
            r.spec_injector().spec_trigger() is Never,
            !r.spec_injector().spec_active(),
    {
        ErrorInjectorBuilder::new()
    }
}

/// Injection is reproducible: except for the time trigger, whether an
/// operation fails depends on its number and the seed alone, not on when it
/// is checked.
pub proof fn lemma_decisions_reproducible(t: InjectionTrigger, op: u64, elapsed1: u64, elapsed2: u64, seed: u64)
    requires
        !(t is AfterMillis),
    ensures
        trigger_fires(t, op, elapsed1, seed) == trigger_fires(t, op, elapsed2, seed),
{
}

} // verus!
