//! Error taxonomy: severities, context, and the error enums of each subsystem.
//!
//! Errors are classified as recoverable (retried automatically), user
//! actionable (the user is told what to do) or fatal.
use vstd::prelude::*;
use vstd::string::*;
use crate::text::{decimal_digits, join_seqs, join_strings, owned, u64_to_decimal};

verus! {

// ============================================================================
// Severity
// ============================================================================

/// Severity classification for errors.
#[derive(Debug, Clone, Copy, PartialEq, Eq, Structural)]
pub enum ErrorSeverity {
    /// Retried automatically.
    Recoverable,
    /// The user is notified with guidance.
    UserActionable,
    /// Safe state is restored; the application may need to exit.
    Fatal,
}

/// The display text of a severity.
pub open spec fn severity_text(s: ErrorSeverity) -> Seq<char> {
    match s {
        ErrorSeverity::Recoverable => "recoverable"@,
        ErrorSeverity::UserActionable => "user-actionable"@,
        ErrorSeverity::Fatal => "fatal"@,
    }
}

impl ErrorSeverity {
    /// The display text of this severity.
    pub fn as_str(&self) -> (r: &'static str)
        ensures
            r@ == severity_text(*self),
    {
        match self {
            ErrorSeverity::Recoverable => "recoverable",
            ErrorSeverity::UserActionable => "user-actionable",
            ErrorSeverity::Fatal => "fatal",
        }
    }
}

// ============================================================================
// Context
// ============================================================================

/// Context for debugging an error: where it came from and what was involved.
#[derive(Debug)]
pub struct ErrorContext {
    /// Component where the error originated.
    pub component: Option<String>,
    /// Operation being performed.
    pub operation: Option<String>,
    /// Device involved, if any.
    pub device_id: Option<String>,
    /// Display involved, if any.
    pub display_id: Option<String>,
    /// Further key/value pairs.
    pub extra: Vec<(String, String)>,
}

/// The view of an optional string.
pub open spec fn opt_view(o: Option<String>) -> Option<Seq<char>> {
    match o {
        Some(s) => Some(s@),
        None => None,
    }
}

/// The view of a key/value list.
pub open spec fn pairs_view(v: Seq<(String, String)>) -> Seq<(Seq<char>, Seq<char>)> {
    v.map_values(|kv: (String, String)| (kv.0@, kv.1@))
}

/// The part `label` + value, when the value is present.
pub open spec fn labeled_part(label: Seq<char>, o: Option<String>) -> Seq<Seq<char>> {
    match o {
        Some(s) => seq![label + s@],
        None => Seq::empty(),
    }
}

/// The `key=value` parts of the extra pairs.
pub open spec fn extra_parts(v: Seq<(String, String)>) -> Seq<Seq<char>> {
    v.map_values(|kv: (String, String)| kv.0@ + "="@ + kv.1@)
}

/// The parts of a context's display text, in order.
pub open spec fn context_parts(c: ErrorContext) -> Seq<Seq<char>> {
    labeled_part("component="@, c.component) + labeled_part("operation="@, c.operation)
        + labeled_part("device="@, c.device_id) + labeled_part("display="@, c.display_id)
        + extra_parts(c.extra@)
}

fn clone_opt(o: &Option<String>) -> (r: Option<String>)
    ensures
        r == *o,
{
    match o {
        Some(s) => Some(s.clone()),
        None => None,
    }
}

fn push_labeled(parts: &mut Vec<String>, label: &str, o: &Option<String>)
    ensures
        final(parts)@.map_values(|p: String| p@) == old(parts)@.map_values(|p: String| p@)
            + labeled_part(label@, *o),
{
    let ghost before = parts@.map_values(|p: String| p@);
    match o {
        Some(s) => {
            parts.push(owned(label).concat(s.as_str()));
            assert(parts@.map_values(|p: String| p@) =~= before + labeled_part(label@, *o));
        },
        None => {
            assert(parts@.map_values(|p: String| p@) =~= before + labeled_part(label@, *o));
        },
    }
}

impl Clone for ErrorContext {
    fn clone(&self) -> (r: Self)
        ensures
            r.component == self.component,
            r.operation == self.operation,
            r.device_id == self.device_id,
            r.display_id == self.display_id,
            r.extra@ == self.extra@,
    {
        let mut extra: Vec<(String, String)> = Vec::new();
        let mut i: usize = 0;
        while i < self.extra.len()
            invariant
                i <= self.extra.len(),
                extra@ == self.extra@.subrange(0, i as int),
            decreases self.extra.len() - i,
        {
            let (k, v) = &self.extra[i];
            extra.push((k.clone(), v.clone()));
            i = i + 1;
        }
        assert(extra@ =~= self.extra@);
        ErrorContext {
            component: clone_opt(&self.component),
            operation: clone_opt(&self.operation),
            device_id: clone_opt(&self.device_id),
            display_id: clone_opt(&self.display_id),
            extra,
        }
    }
}

impl Default for ErrorContext {
    fn default() -> (r: Self)
        ensures
            r.component is None,
            r.operation is None,
            r.device_id is None,
            r.display_id is None,
            r.extra@.len() == 0,
    {
        ErrorContext {
            component: None,
            operation: None,
            device_id: None,
            display_id: None,
            extra: Vec::new(),
        }
    }
}

impl ErrorContext {
    /// An empty context.
    pub fn new() -> (r: Self)
        ensures
            r.component is None,
            r.operation is None,
            r.device_id is None,
            r.display_id is None,
            r.extra@.len() == 0,
    {
        Self::default()
    }

    /// Sets the component.
    pub fn component(self, component: &str) -> (r: Self)
        ensures
            opt_view(r.component) == Some(component@),
            r.operation == self.operation,
            r.device_id == self.device_id,
            r.display_id == self.display_id,
            r.extra@ == self.extra@,
    {
        ErrorContext { component: Some(owned(component)), ..self }
    }

    /// Sets the operation.
    pub fn operation(self, operation: &str) -> (r: Self)
        ensures
            opt_view(r.operation) == Some(operation@),
            r.component == self.component,
            r.device_id == self.device_id,
            r.display_id == self.display_id,
            r.extra@ == self.extra@,
    {
        ErrorContext { operation: Some(owned(operation)), ..self }
    }

    /// Sets the device.
    pub fn device(self, device_id: &str) -> (r: Self)
        ensures
            opt_view(r.device_id) == Some(device_id@),
            r.component == self.component,
            r.operation == self.operation,
            r.display_id == self.display_id,
            r.extra@ == self.extra@,
    {
        ErrorContext { device_id: Some(owned(device_id)), ..self }
    }

    /// Sets the display.
    pub fn display(self, display_id: &str) -> (r: Self)
        ensures
            opt_view(r.display_id) == Some(display_id@),
            r.component == self.component,
            r.operation == self.operation,
            r.device_id == self.device_id,
            r.extra@ == self.extra@,
    {
        ErrorContext { display_id: Some(owned(display_id)), ..self }
    }

    /// Appends a key/value pair.
    pub fn with(self, key: &str, value: &str) -> (r: Self)
        ensures
            pairs_view(r.extra@) == pairs_view(self.extra@).push((key@, value@)),
            r.component == self.component,
            r.operation == self.operation,
            r.device_id == self.device_id,
            r.display_id == self.display_id,
    {
        let mut s = self;
        let ghost before = s.extra@;
        s.extra.push((owned(key), owned(value)));
        assert(pairs_view(s.extra@) =~= pairs_view(before).push((key@, value@)));
        s
    }

    /// The display text: the present parts, joined by ", ".
    pub fn to_display_string(&self) -> (r: String)
        ensures
            r@ == join_seqs(context_parts(*self), ", "@),
    {
        let mut parts: Vec<String> = Vec::new();
        assert(parts@.map_values(|p: String| p@) =~= Seq::<Seq<char>>::empty());
        push_labeled(&mut parts, "component=", &self.component);
        push_labeled(&mut parts, "operation=", &self.operation);
        push_labeled(&mut parts, "device=", &self.device_id);
        push_labeled(&mut parts, "display=", &self.display_id);
        let ghost prefix = parts@.map_values(|p: String| p@);
        let mut i: usize = 0;
        while i < self.extra.len()
            invariant
                i <= self.extra.len(),
                parts@.map_values(|p: String| p@) == prefix + extra_parts(
                    self.extra@.subrange(0, i as int),
                ),
            decreases self.extra.len() - i,
        {
            let (k, v) = &self.extra[i];
            let ghost old_parts = parts@.map_values(|p: String| p@);
            let ghost kv = self.extra@[i as int];
            let item = owned(k.as_str()).concat("=").concat(v.as_str());
            assert(item@ == kv.0@ + "="@ + kv.1@);
            parts.push(item);
            assert(parts@.map_values(|p: String| p@) =~= old_parts.push(kv.0@ + "="@ + kv.1@));
            assert(self.extra@.subrange(0, i + 1) =~= self.extra@.subrange(0, i as int).push(kv));
            assert(extra_parts(self.extra@.subrange(0, i + 1)) =~= extra_parts(
                self.extra@.subrange(0, i as int),
            ).push(kv.0@ + "="@ + kv.1@));
            assert(parts@.map_values(|p: String| p@) =~= prefix + extra_parts(
                self.extra@.subrange(0, i + 1),
            ));
            i = i + 1;
        }
        assert(self.extra@.subrange(0, self.extra@.len() as int) =~= self.extra@);
        assert(parts@.map_values(|p: String| p@) =~= context_parts(*self));
        join_strings(&parts, ", ")
    }
}

// ============================================================================
// Capture errors
// ============================================================================

/// Errors that can occur during camera capture.
#[derive(Debug)]
pub enum CaptureError {
    DeviceNotFound(String),
    DeviceBusy,
    FormatNegotiationFailed(String),
    /// No frame within the given number of milliseconds.
    Timeout(u64),
    PermissionDenied(String),
    Disconnected,
    NoCameras,
    Platform(String),
}

impl Clone for CaptureError {
    fn clone(&self) -> (r: Self)
        ensures
            r == *self,
    {
        match self {
            CaptureError::DeviceNotFound(s) => CaptureError::DeviceNotFound(s.clone()),
            CaptureError::DeviceBusy => CaptureError::DeviceBusy,
            CaptureError::FormatNegotiationFailed(s) => CaptureError::FormatNegotiationFailed(s.clone()),
            CaptureError::Timeout(ms) => CaptureError::Timeout(*ms),
            CaptureError::PermissionDenied(s) => CaptureError::PermissionDenied(s.clone()),
            CaptureError::Disconnected => CaptureError::Disconnected,
            CaptureError::NoCameras => CaptureError::NoCameras,
            CaptureError::Platform(s) => CaptureError::Platform(s.clone()),
        }
    }
}

/// The severity of a capture error.
pub open spec fn capture_severity(e: CaptureError) -> ErrorSeverity {
    match e {
        CaptureError::Timeout(_) | CaptureError::Disconnected => ErrorSeverity::Recoverable,
        CaptureError::Platform(_) => ErrorSeverity::Fatal,
        _ => ErrorSeverity::UserActionable,
    }
}

/// The user-facing message of a capture error.
pub open spec fn capture_user_text(e: CaptureError) -> Seq<char> {
    match e {
        CaptureError::DeviceNotFound(name) => "Camera '"@ + name@
            + "' is not available. Please check the connection."@,
        CaptureError::DeviceBusy => "The camera is being used by another application. Please close other apps using the camera."@,
        CaptureError::FormatNegotiationFailed(_) => "Unable to use this camera's video format. Try a different camera or resolution."@,
        CaptureError::Timeout(_) => "Camera is not responding. Attempting to reconnect..."@,
        CaptureError::PermissionDenied(_) => "Camera access was denied. Please grant camera permission in system settings."@,
        CaptureError::Disconnected => "Camera was disconnected. Attempting to reconnect..."@,
        CaptureError::NoCameras => "No cameras found. Please connect a camera and try again."@,
        CaptureError::Platform(msg) => "A system error occurred with the camera: "@ + msg@,
    }
}

/// The display (technical) text of a capture error.
pub open spec fn capture_display_text(e: CaptureError) -> Seq<char> {
    match e {
        CaptureError::DeviceNotFound(s) => "Camera device not found: "@ + s@,
        CaptureError::DeviceBusy => "Camera device is busy or in use by another application"@,
        CaptureError::FormatNegotiationFailed(s) => "Failed to negotiate capture format: "@ + s@,
        CaptureError::Timeout(ms) => "Capture timeout: no frame received within "@
            + decimal_digits(ms as nat) + "ms"@,
        CaptureError::PermissionDenied(s) => "Permission denied: "@ + s@,
        CaptureError::Disconnected => "Camera was disconnected"@,
        CaptureError::NoCameras => "No cameras available"@,
        CaptureError::Platform(s) => "Platform error: "@ + s@,
    }
}

impl CaptureError {
    /// The severity of this error.
    pub fn severity(&self) -> (r: ErrorSeverity)
        ensures
            r == capture_severity(*self),
    {
        match self {
            CaptureError::Timeout(_) | CaptureError::Disconnected => ErrorSeverity::Recoverable,
            CaptureError::DeviceNotFound(_) | CaptureError::DeviceBusy | CaptureError::NoCameras
            | CaptureError::PermissionDenied(_) | CaptureError::FormatNegotiationFailed(_) => {
                ErrorSeverity::UserActionable
            },
            CaptureError::Platform(_) => ErrorSeverity::Fatal,
        }
    }

    /// A user-friendly message for this error.
    pub fn user_message(&self) -> (r: String)
        ensures
            r@ == capture_user_text(*self),
    {
        match self {
            CaptureError::DeviceNotFound(name) => owned("Camera '").concat(name.as_str()).concat(
                "' is not available. Please check the connection.",
            ),
            CaptureError::DeviceBusy => owned(
                "The camera is being used by another application. Please close other apps using the camera.",
            ),
            CaptureError::FormatNegotiationFailed(_) => owned(
                "Unable to use this camera's video format. Try a different camera or resolution.",
            ),
            CaptureError::Timeout(_) => owned(
                "Camera is not responding. Attempting to reconnect...",
            ),
            CaptureError::PermissionDenied(_) => owned(
                "Camera access was denied. Please grant camera permission in system settings.",
            ),
            CaptureError::Disconnected => owned(
                "Camera was disconnected. Attempting to reconnect...",
            ),
            CaptureError::NoCameras => owned(
                "No cameras found. Please connect a camera and try again.",
            ),
            CaptureError::Platform(msg) => owned("A system error occurred with the camera: ").concat(
                msg.as_str(),
            ),
        }
    }

    /// The technical description of this error.
    pub fn to_display_string(&self) -> (r: String)
        ensures
            r@ == capture_display_text(*self),
    {
        match self {
            CaptureError::DeviceNotFound(s) => owned("Camera device not found: ").concat(s.as_str()),
            CaptureError::DeviceBusy => owned("Camera device is busy or in use by another application"),
            CaptureError::FormatNegotiationFailed(s) => owned(
                "Failed to negotiate capture format: ",
            ).concat(s.as_str()),
            CaptureError::Timeout(ms) => {
                let digits = u64_to_decimal(*ms);
                owned("Capture timeout: no frame received within ").concat(digits.as_str()).concat(
                    "ms",
                )
            },
            CaptureError::PermissionDenied(s) => owned("Permission denied: ").concat(s.as_str()),
            CaptureError::Disconnected => owned("Camera was disconnected"),
            CaptureError::NoCameras => owned("No cameras available"),
            CaptureError::Platform(s) => owned("Platform error: ").concat(s.as_str()),
        }
    }

    /// Wraps this error with context.
    pub fn with_context(self, context: ErrorContext) -> (r: MicroundError)
        ensures
            r == (MicroundError::Capture { source: self, context }),
    {
        MicroundError::Capture { source: self, context }
    }
}

// ============================================================================
// Render errors
// ============================================================================

/// Errors that can occur during rendering.
#[derive(Debug)]
pub enum RenderError {
    SurfaceCreation(String),
    DisplayNotFound(String),
    Gpu(String),
    WallpaperIntegration(String),
    FrameProcessing(String),
    Platform(String),
}

impl Clone for RenderError {
    fn clone(&self) -> (r: Self)
        ensures
            r == *self,
    {
        match self {
            RenderError::SurfaceCreation(s) => RenderError::SurfaceCreation(s.clone()),
            RenderError::DisplayNotFound(s) => RenderError::DisplayNotFound(s.clone()),
            RenderError::Gpu(s) => RenderError::Gpu(s.clone()),
            RenderError::WallpaperIntegration(s) => RenderError::WallpaperIntegration(s.clone()),
            RenderError::FrameProcessing(s) => RenderError::FrameProcessing(s.clone()),
            RenderError::Platform(s) => RenderError::Platform(s.clone()),
        }
    }
}

/// The severity of a render error.
pub open spec fn render_severity(e: RenderError) -> ErrorSeverity {
    match e {
        RenderError::FrameProcessing(_) => ErrorSeverity::Recoverable,
        RenderError::DisplayNotFound(_) | RenderError::WallpaperIntegration(_) => ErrorSeverity::UserActionable,
        _ => ErrorSeverity::Fatal,
    }
}

/// The user-facing message of a render error.
pub open spec fn render_user_text(e: RenderError) -> Seq<char> {
    match e {
        RenderError::SurfaceCreation(_) => "Unable to create display surface. Please check your graphics drivers."@,
        RenderError::DisplayNotFound(name) => "Display '"@ + name@
            + "' is not available. Please check your display settings."@,
        RenderError::Gpu(_) => "A graphics error occurred. Please update your graphics drivers."@,
        RenderError::WallpaperIntegration(_) => "Unable to set wallpaper. Your desktop environment may not support this feature."@,
        RenderError::FrameProcessing(_) => "Error processing video frame. Skipping frame..."@,
        RenderError::Platform(msg) => "A system error occurred: "@ + msg@,
    }
}

/// The display (technical) text of a render error.
pub open spec fn render_display_text(e: RenderError) -> Seq<char> {
    match e {
        RenderError::SurfaceCreation(s) => "Failed to create render surface: "@ + s@,
        RenderError::DisplayNotFound(s) => "Display not found: "@ + s@,
        RenderError::Gpu(s) => "GPU error: "@ + s@,
        RenderError::WallpaperIntegration(s) => "Wallpaper integration failed: "@ + s@,
        RenderError::FrameProcessing(s) => "Frame processing failed: "@ + s@,
        RenderError::Platform(s) => "Platform error: "@ + s@,
    }
}

impl RenderError {
    /// The severity of this error.
    pub fn severity(&self) -> (r: ErrorSeverity)
        ensures
            r == render_severity(*self),
    {
        match self {
            RenderError::FrameProcessing(_) => ErrorSeverity::Recoverable,
            RenderError::DisplayNotFound(_) | RenderError::WallpaperIntegration(_) => {
                ErrorSeverity::UserActionable
            },
            RenderError::SurfaceCreation(_) | RenderError::Gpu(_) | RenderError::Platform(_) => {
                ErrorSeverity::Fatal
            },
        }
    }

    /// A user-friendly message for this error.
    pub fn user_message(&self) -> (r: String)
        ensures
            r@ == render_user_text(*self),
    {
        match self {
            RenderError::SurfaceCreation(_) => owned(
                "Unable to create display surface. Please check your graphics drivers.",
            ),
            RenderError::DisplayNotFound(name) => owned("Display '").concat(name.as_str()).concat(
                "' is not available. Please check your display settings.",
            ),
            RenderError::Gpu(_) => owned(
                "A graphics error occurred. Please update your graphics drivers.",
            ),
            RenderError::WallpaperIntegration(_) => owned(
                "Unable to set wallpaper. Your desktop environment may not support this feature.",
            ),
            RenderError::FrameProcessing(_) => owned(
                "Error processing video frame. Skipping frame...",
            ),
            RenderError::Platform(msg) => owned("A system error occurred: ").concat(msg.as_str()),
        }
    }

    /// The technical description of this error.
    pub fn to_display_string(&self) -> (r: String)
        ensures
            r@ == render_display_text(*self),
    {
        match self {
            RenderError::SurfaceCreation(s) => owned("Failed to create render surface: ").concat(
                s.as_str(),
            ),
            RenderError::DisplayNotFound(s) => owned("Display not found: ").concat(s.as_str()),
            RenderError::Gpu(s) => owned("GPU error: ").concat(s.as_str()),
            RenderError::WallpaperIntegration(s) => owned("Wallpaper integration failed: ").concat(
                s.as_str(),
            ),
            RenderError::FrameProcessing(s) => owned("Frame processing failed: ").concat(s.as_str()),
            RenderError::Platform(s) => owned("Platform error: ").concat(s.as_str()),
        }
    }

    /// Wraps this error with context.
    pub fn with_context(self, context: ErrorContext) -> (r: MicroundError)
        ensures
            r == (MicroundError::Render { source: self, context }),
    {
        MicroundError::Render { source: self, context }
    }
}

// ============================================================================
// Config errors
// ============================================================================

/// Errors that can occur with configuration.
#[derive(Debug)]
pub enum ConfigError {
    ReadFailed(String),
    WriteFailed(String),
    Invalid(String),
    NotFound(String),
}

impl Clone for ConfigError {
    fn clone(&self) -> (r: Self)
        ensures
            r == *self,
    {
        match self {
            ConfigError::ReadFailed(s) => ConfigError::ReadFailed(s.clone()),
            ConfigError::WriteFailed(s) => ConfigError::WriteFailed(s.clone()),
            ConfigError::Invalid(s) => ConfigError::Invalid(s.clone()),
            ConfigError::NotFound(s) => ConfigError::NotFound(s.clone()),
        }
    }
}

/// The severity of a configuration error.
pub open spec fn config_severity(e: ConfigError) -> ErrorSeverity {
    match e {
        ConfigError::NotFound(_) => ErrorSeverity::Recoverable,
        _ => ErrorSeverity::UserActionable,
    }
}

/// The user-facing message of a configuration error.
pub open spec fn config_user_text(e: ConfigError) -> Seq<char> {
    match e {
        ConfigError::ReadFailed(_) => "Unable to read settings. Using default configuration."@,
        ConfigError::WriteFailed(_) => "Unable to save settings. Check that you have write permissions."@,
        ConfigError::Invalid(_) => "Settings file is corrupted. Using default configuration."@,
        ConfigError::NotFound(_) => "Settings file not found. Using default configuration."@,
    }
}

/// The display (technical) text of a configuration error.
pub open spec fn config_display_text(e: ConfigError) -> Seq<char> {
    match e {
        ConfigError::ReadFailed(s) => "Failed to read config file: "@ + s@,
        ConfigError::WriteFailed(s) => "Failed to write config file: "@ + s@,
        ConfigError::Invalid(s) => "Invalid configuration: "@ + s@,
        ConfigError::NotFound(s) => "Config file not found at: "@ + s@,
    }
}

impl ConfigError {
    /// The severity of this error.
    pub fn severity(&self) -> (r: ErrorSeverity)
        ensures
            r == config_severity(*self),
    {
        match self {
            ConfigError::NotFound(_) => ErrorSeverity::Recoverable,
            ConfigError::ReadFailed(_) | ConfigError::WriteFailed(_) | ConfigError::Invalid(_) => {
                ErrorSeverity::UserActionable
            },
        }
    }

    /// A user-friendly message for this error.
    pub fn user_message(&self) -> (r: String)
        ensures
            r@ == config_user_text(*self),
    {
        match self {
            ConfigError::ReadFailed(_) => owned(
                "Unable to read settings. Using default configuration.",
            ),
            ConfigError::WriteFailed(_) => owned(
                "Unable to save settings. Check that you have write permissions.",
            ),
            ConfigError::Invalid(_) => owned(
                "Settings file is corrupted. Using default configuration.",
            ),
            ConfigError::NotFound(_) => owned(
                "Settings file not found. Using default configuration.",
            ),
        }
    }

    /// The technical description of this error.
    pub fn to_display_string(&self) -> (r: String)
        ensures
            r@ == config_display_text(*self),
    {
        match self {
            ConfigError::ReadFailed(s) => owned("Failed to read config file: ").concat(s.as_str()),
            ConfigError::WriteFailed(s) => owned("Failed to write config file: ").concat(s.as_str()),
            ConfigError::Invalid(s) => owned("Invalid configuration: ").concat(s.as_str()),
            ConfigError::NotFound(s) => owned("Config file not found at: ").concat(s.as_str()),
        }
    }

    /// Wraps this error with context.
    pub fn with_context(self, context: ErrorContext) -> (r: MicroundError)
        ensures
            r == (MicroundError::Config { source: self, context }),
    {
        MicroundError::Config { source: self, context }
    }
}

// ============================================================================
// Platform errors
// ============================================================================

/// Errors from platform integration (wallpaper, desktop environment, tools).
#[derive(Debug)]
pub enum PlatformError {
    Unsupported(String),
    CommandFailed(String),
    InvalidState(String),
    ResourceNotFound(String),
    PermissionDenied(String),
}

// ============================================================================
// Top-level error
// ============================================================================

/// Top-level error of the application.
#[derive(Debug)]
#[allow(inconsistent_fields)]
pub enum MicroundError {
    Capture { source: CaptureError, context: ErrorContext },
    Render { source: RenderError, context: ErrorContext },
    Config { source: ConfigError, context: ErrorContext },
    Internal { message: String, context: ErrorContext },
}

impl Clone for MicroundError {
    fn clone(&self) -> (r: Self)
        ensures
            error_display_text(r) == error_display_text(*self),
            error_severity(r) == error_severity(*self),
    {
        match self {
            MicroundError::Capture { source, context } => MicroundError::Capture { source: source.clone(), context: context.clone() },
            MicroundError::Render { source, context } => MicroundError::Render { source: source.clone(), context: context.clone() },
            MicroundError::Config { source, context } => MicroundError::Config { source: source.clone(), context: context.clone() },
            MicroundError::Internal { message, context } => MicroundError::Internal { message: message.clone(), context: context.clone() },
        }
    }
}

/// The severity of a top-level error.
pub open spec fn error_severity(e: MicroundError) -> ErrorSeverity {
    match e {
        MicroundError::Capture { source, .. } => capture_severity(source),
        MicroundError::Render { source, .. } => render_severity(source),
        MicroundError::Config { source, .. } => config_severity(source),
        MicroundError::Internal { .. } => ErrorSeverity::Fatal,
    }
}

/// The user-facing message of a top-level error.
pub open spec fn error_user_text(e: MicroundError) -> Seq<char> {
    match e {
        MicroundError::Capture { source, .. } => capture_user_text(source),
        MicroundError::Render { source, .. } => render_user_text(source),
        MicroundError::Config { source, .. } => config_user_text(source),
        MicroundError::Internal { message, .. } => "An unexpected error occurred. Please restart the application. ("@
            + message@ + ")"@,
    }
}

/// The display text of a top-level error.
pub open spec fn error_display_text(e: MicroundError) -> Seq<char> {
    match e {
        MicroundError::Capture { source, .. } => "Capture error: "@ + capture_display_text(source),
        MicroundError::Render { source, .. } => "Render error: "@ + render_display_text(source),
        MicroundError::Config { source, .. } => "Configuration error: "@ + config_display_text(
            source,
        ),
        MicroundError::Internal { message, .. } => "Internal error: "@ + message@,
    }
}

/// The context carried by a top-level error.
pub open spec fn error_context(e: MicroundError) -> ErrorContext {
    match e {
        MicroundError::Capture { context, .. } => context,
        MicroundError::Render { context, .. } => context,
        MicroundError::Config { context, .. } => context,
        MicroundError::Internal { context, .. } => context,
    }
}

impl MicroundError {
    /// The severity of this error.
    pub fn severity(&self) -> (r: ErrorSeverity)
        ensures
            r == error_severity(*self),
    {
        match self {
            MicroundError::Capture { source, .. } => source.severity(),
            MicroundError::Render { source, .. } => source.severity(),
            MicroundError::Config { source, .. } => source.severity(),
            MicroundError::Internal { .. } => ErrorSeverity::Fatal,
        }
    }

    /// A user-friendly message for this error.
    pub fn user_message(&self) -> (r: String)
        ensures
            r@ == error_user_text(*self),
    {
        match self {
            MicroundError::Capture { source, .. } => source.user_message(),
            MicroundError::Render { source, .. } => source.user_message(),
            MicroundError::Config { source, .. } => source.user_message(),
            MicroundError::Internal { message, .. } => owned(
                "An unexpected error occurred. Please restart the application. (",
            ).concat(message.as_str()).concat(")"),
        }
    }

    /// The context of this error.
    pub fn context(&self) -> (r: &ErrorContext)
        ensures
            *r == error_context(*self),
    {
        match self {
            MicroundError::Capture { context, .. } => context,
            MicroundError::Render { context, .. } => context,
            MicroundError::Config { context, .. } => context,
            MicroundError::Internal { context, .. } => context,
        }
    }

    /// The technical description of this error.
    pub fn to_display_string(&self) -> (r: String)
        ensures
            r@ == error_display_text(*self),
    {
        match self {
            MicroundError::Capture { source, .. } => {
                let d = source.to_display_string();
                owned("Capture error: ").concat(d.as_str())
            },
            MicroundError::Render { source, .. } => {
                let d = source.to_display_string();
                owned("Render error: ").concat(d.as_str())
            },
            MicroundError::Config { source, .. } => {
                let d = source.to_display_string();
                owned("Configuration error: ").concat(d.as_str())
            },
            MicroundError::Internal { message, .. } => owned("Internal error: ").concat(
                message.as_str(),
            ),
        }
    }
}

// ============================================================================
// Result aliases and context extension
// ============================================================================

/// Result of an operation of the application.
pub type MicroundResult<T> = core::result::Result<T, MicroundError>;

/// Result of a capture operation.
pub type CaptureResult<T> = core::result::Result<T, CaptureError>;

/// Result of a render operation.
pub type RenderResult<T> = core::result::Result<T, RenderError>;

/// Result of a configuration operation.
pub type ConfigResult<T> = core::result::Result<T, ConfigError>;

/// Adds context to the error of a result.
pub trait ErrorExt<T>: Sized {
    /// Wraps the error, if any, with `context`.
    fn with_context(self, context: ErrorContext) -> MicroundResult<T>;
}

impl<T> ErrorExt<T> for CaptureResult<T> {
    fn with_context(self, context: ErrorContext) -> (r: MicroundResult<T>)
        ensures
            match self {
                Ok(v) => r == Ok::<T, MicroundError>(v),
                Err(e) => r == Err::<T, MicroundError>(
                    MicroundError::Capture { source: e, context },
                ),
            },
    {
        match self {
            Ok(v) => Ok(v),
            Err(e) => Err(e.with_context(context)),
        }
    }
}

impl<T> ErrorExt<T> for RenderResult<T> {
    fn with_context(self, context: ErrorContext) -> (r: MicroundResult<T>)
        ensures
            match self {
                Ok(v) => r == Ok::<T, MicroundError>(v),
                Err(e) => r == Err::<T, MicroundError>(
                    MicroundError::Render { source: e, context },
                ),
            },
    {
        match self {
            Ok(v) => Ok(v),
            Err(e) => Err(e.with_context(context)),
        }
    }
}

impl<T> ErrorExt<T> for ConfigResult<T> {
    fn with_context(self, context: ErrorContext) -> (r: MicroundResult<T>)
        ensures
            match self {
                Ok(v) => r == Ok::<T, MicroundError>(v),
                Err(e) => r == Err::<T, MicroundError>(
                    MicroundError::Config { source: e, context },
                ),
            },
    {
        match self {
            Ok(v) => Ok(v),
            Err(e) => Err(e.with_context(context)),
        }
    }
}

} // verus!
