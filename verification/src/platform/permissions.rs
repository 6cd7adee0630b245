//! Camera permission and keeping the application awake.
//!
//! On Linux camera access depends on membership of the `video` group and
//! needs no permission from the application, and there is no App Nap to
//! prevent; the Linux handler here says so.
use vstd::prelude::*;
use crate::app_core::error::CaptureError;
use crate::text::owned;

verus! {

/// Camera permission status.
#[derive(Debug, Clone, Copy, PartialEq, Eq, Structural)]
pub enum CameraPermission {
    /// Granted.
    Authorized,
    /// Not asked yet.
    NotDetermined,
    /// Refused by the user.
    Denied,
    /// Restricted by parental controls or device management.
    Restricted,
    /// The platform asks for none.
    NotRequired,
}

impl CameraPermission {
    /// Whether the camera may be used.
    pub fn is_authorized(&self) -> (r: bool)
        ensures
            r == (*self is Authorized || *self is NotRequired),
    {
        matches!(self, CameraPermission::Authorized | CameraPermission::NotRequired)
    }

    /// Whether to ask the user.
    pub fn should_request(&self) -> (r: bool)
        ensures
            r == (*self is NotDetermined),
    {
        matches!(self, CameraPermission::NotDetermined)
    }

    /// Whether to guide the user to the system settings.
    pub fn needs_settings_guidance(&self) -> (r: bool)
        ensures
            r == (*self is Denied || *self is Restricted),
    {
        matches!(self, CameraPermission::Denied | CameraPermission::Restricted)
    }
}

/// Every status calls for exactly one of: using the camera, asking, or
/// guiding the user to the settings.
pub proof fn lemma_permission_exactly_one(p: CameraPermission)
    ensures
        ((p is Authorized || p is NotRequired) as int) + ((p is NotDetermined) as int)
            + ((p is Denied || p is Restricted) as int) == 1,
{
}

/// Errors of permission operations.
#[derive(Debug)]
pub enum PermissionError {
    /// The user refused camera access.
    CameraPermissionDenied,
    /// Camera access is restricted.
    CameraPermissionRestricted,
    /// Asking for permission failed.
    RequestFailed(String),
    /// The status could not be read.
    StatusCheckFailed(String),
    /// Not supported on this platform.
    Unsupported,
    /// An activity assertion failed.
    ActivityAssertionFailed(String),
}

/// The text of a permission error.
pub open spec fn permission_error_text(e: PermissionError) -> Seq<char> {
    match e {
        PermissionError::CameraPermissionDenied => "Camera permission denied"@,
        PermissionError::CameraPermissionRestricted => "Camera permission restricted (parental controls or MDM)"@,
        PermissionError::RequestFailed(m) => "Failed to request camera permission: "@ + m@,
        PermissionError::StatusCheckFailed(m) => "Failed to check permission status: "@ + m@,
        PermissionError::Unsupported => "Platform not supported for this operation"@,
        PermissionError::ActivityAssertionFailed(m) => "Activity assertion failed: "@ + m@,
    }
}

fn prefixed(prefix: &str, m: &String) -> (r: String)
    ensures
        r@ == prefix@ + m@,
{
    let mut s = owned(prefix);
    s.append(m.as_str());
    s
}

impl PermissionError {
    /// The error as text.
    pub fn to_display_string(&self) -> (r: String)
        ensures
            r@ == permission_error_text(*self),
    {
        match self {
            PermissionError::CameraPermissionDenied => owned("Camera permission denied"),
            PermissionError::CameraPermissionRestricted => owned("Camera permission restricted (parental controls or MDM)"),
            PermissionError::RequestFailed(m) => prefixed("Failed to request camera permission: ", m),
            PermissionError::StatusCheckFailed(m) => prefixed("Failed to check permission status: ", m),
            PermissionError::Unsupported => owned("Platform not supported for this operation"),
            PermissionError::ActivityAssertionFailed(m) => prefixed("Activity assertion failed: ", m),
        }
    }
}

/// Kind of activity that keeps the application awake.
#[derive(Debug, Clone, Copy, PartialEq, Eq, Structural)]
pub enum ActivityType {
    /// Started by the user; prevents sleep.
    UserInitiated,
    /// Background work; prevents App Nap.
    Background,
    /// Needs real-time priority.
    LatencyCritical,
}

/// An activity assertion. The platform code that began it keeps what ends
/// it and ends it when the token is given back to
/// `PermissionHandler::end_activity`; the token itself only names the
/// assertion.
#[derive(Debug, Clone, Copy, PartialEq, Eq, Structural)]
pub struct ActivityGuard {
    id: u64,
}

impl ActivityGuard {
    /// The platform identifier.
    pub closed spec fn spec_id(&self) -> u64 {
        self.id
    }

    /// The assertion with this platform identifier.
    pub fn new(id: u64) -> (r: Self)
        ensures
            r.spec_id() == id,
    {
        ActivityGuard { id }
    }

    /// An assertion that holds nothing (identifier 0).
    pub fn noop() -> (r: Self)
        ensures
            r.spec_id() == 0,
    {
        ActivityGuard { id: 0 }
    }

    /// The platform identifier.
    pub fn raw_id(&self) -> (r: u64)
        ensures
            r == self.spec_id(),
    {
        self.id
    }
}

/// Camera permission and activity assertions; implemented per platform.
pub trait PermissionHandler {
    /// The camera permission status.
    fn camera_permission_status(&self) -> Result<CameraPermission, PermissionError>;

    /// Asks the user for camera access and returns the new status.
    fn request_camera_permission(&self) -> Result<CameraPermission, PermissionError>;

    /// Begins an activity that keeps the application awake.
    fn begin_activity(&self, activity_type: ActivityType, reason: &str) -> Result<ActivityGuard, PermissionError>;

    /// Ends an activity begun by `begin_activity`, giving back its guard.
    fn end_activity(&self, guard: ActivityGuard) -> Result<(), PermissionError>;

    /// Stops the system from terminating the idle application.
    fn disable_automatic_termination(&self, reason: &str) -> Result<(), PermissionError>;

    /// Lets the system terminate the idle application again.
    fn enable_automatic_termination(&self) -> Result<(), PermissionError>;

    /// Opens the system's camera privacy settings.
    fn open_camera_settings(&self) -> Result<(), PermissionError>;
}

/// The Linux permission handler: no permission is required, nothing needs
/// keeping awake, and there are no camera privacy settings to open.
#[derive(Debug, Clone, Copy, PartialEq, Eq, Structural)]
pub struct LinuxPermissionHandler;

impl LinuxPermissionHandler {
    /// The handler.
    pub fn new() -> (r: Self)
        ensures
            r == LinuxPermissionHandler,
    {
        LinuxPermissionHandler
    }
}

impl PermissionHandler for LinuxPermissionHandler {
    fn camera_permission_status(&self) -> (r: Result<CameraPermission, PermissionError>)
        ensures
            r == Ok::<CameraPermission, PermissionError>(CameraPermission::NotRequired),
    {
        Ok(CameraPermission::NotRequired)
    }

    fn request_camera_permission(&self) -> (r: Result<CameraPermission, PermissionError>)
        ensures
            r == Ok::<CameraPermission, PermissionError>(CameraPermission::NotRequired),
    {
        Ok(CameraPermission::NotRequired)
    }

    fn begin_activity(&self, activity_type: ActivityType, reason: &str) -> (r: Result<ActivityGuard, PermissionError>)
        ensures
            r matches Ok(g) && g.spec_id() == 0,
    {
        Ok(ActivityGuard::noop())
    }

    fn end_activity(&self, guard: ActivityGuard) -> (r: Result<(), PermissionError>)
        ensures
            r is Ok,
    {
        Ok(())
    }

    fn disable_automatic_termination(&self, reason: &str) -> (r: Result<(), PermissionError>)
        ensures
            r is Ok,
    {
        Ok(())
    }

    fn enable_automatic_termination(&self) -> (r: Result<(), PermissionError>)
        ensures
            r is Ok,
    {
        Ok(())
    }

    fn open_camera_settings(&self) -> (r: Result<(), PermissionError>)
        ensures
            r == Err::<(), PermissionError>(PermissionError::Unsupported),
    {
        Err(PermissionError::Unsupported)
    }
}

/// The permission handler of this platform (Linux).
pub fn create_permission_handler() -> (r: LinuxPermissionHandler)
    ensures
        r == LinuxPermissionHandler,
{
    LinuxPermissionHandler::new()
}


/// What to do about the camera permission status before using the camera.
#[derive(Debug)]
pub enum PermissionStep {
    /// The camera may be used.
    Granted,
    /// Ask the user, then judge the answer with `permission_after_request`.
    Request,
    /// Open the camera privacy settings for the user, then fail with the
    /// error.
    OpenSettings(CaptureError),
    /// Fail with the error.
    Refuse(CaptureError),
}

/// The message for a camera the user refused.
pub open spec fn denied_text() -> Seq<char> {
    "Camera permission denied. Please enable in System Preferences > Privacy & Security > Camera"@
}

/// The message for a camera restricted by policy.
pub open spec fn restricted_text() -> Seq<char> {
    "Camera access is restricted by parental controls or device management"@
}

/// What a status read (or the error of reading it) calls for: an
/// authorised or permission-free camera is used, an undetermined one is
/// asked for, a denied one sends the user to the settings, and a restricted
/// one or a failed check is refused.
pub open spec fn permission_step_spec(status: Result<CameraPermission, PermissionError>, r: PermissionStep) -> bool {
    match status {
        Ok(CameraPermission::Authorized) | Ok(CameraPermission::NotRequired) => r is Granted,
        Ok(CameraPermission::NotDetermined) => r is Request,
        Ok(CameraPermission::Denied) => r matches PermissionStep::OpenSettings(CaptureError::PermissionDenied(m)) && m@ == denied_text(),
        Ok(CameraPermission::Restricted) => r matches PermissionStep::Refuse(CaptureError::PermissionDenied(m)) && m@ == restricted_text(),
        Err(e) => r matches PermissionStep::Refuse(CaptureError::PermissionDenied(m))
            && m@ == "Failed to check permission: "@ + permission_error_text(e),
    }
}

/// Decides what to do about the camera permission status.
pub fn permission_step(status: Result<CameraPermission, PermissionError>) -> (r: PermissionStep)
    ensures
        permission_step_spec(status, r),
{
    match status {
        Ok(CameraPermission::Authorized) | Ok(CameraPermission::NotRequired) => PermissionStep::Granted,
        Ok(CameraPermission::NotDetermined) => PermissionStep::Request,
        Ok(CameraPermission::Denied) => PermissionStep::OpenSettings(CaptureError::PermissionDenied(owned(
            "Camera permission denied. Please enable in System Preferences > Privacy & Security > Camera",
        ))),
        Ok(CameraPermission::Restricted) => PermissionStep::Refuse(CaptureError::PermissionDenied(owned(
            "Camera access is restricted by parental controls or device management",
        ))),
        Err(e) => PermissionStep::Refuse(CaptureError::PermissionDenied(prefixed("Failed to check permission: ", &e.to_display_string()))),
    }
}

/// What the answer to a permission request means: only an authorisation
/// lets the camera be used.
pub open spec fn permission_after_request_spec(res: Result<CameraPermission, PermissionError>, r: Result<(), CaptureError>) -> bool {
    match res {
        Ok(CameraPermission::Authorized) => r is Ok,
        Ok(_) => r matches Err(CaptureError::PermissionDenied(m)) && m@ == "Camera permission was not granted"@,
        Err(e) => r matches Err(CaptureError::PermissionDenied(m))
            && m@ == "Failed to request permission: "@ + permission_error_text(e),
    }
}

/// Judges the answer to a permission request.
pub fn permission_after_request(res: Result<CameraPermission, PermissionError>) -> (r: Result<(), CaptureError>)
    ensures
        permission_after_request_spec(res, r),
{
    match res {
        Ok(CameraPermission::Authorized) => Ok(()),
        Ok(_) => Err(CaptureError::PermissionDenied(owned("Camera permission was not granted"))),
        Err(e) => Err(CaptureError::PermissionDenied(prefixed("Failed to request permission: ", &e.to_display_string()))),
    }
}

/// Makes sure the camera may be used, once: when `checked` is already set
/// nothing is asked; otherwise the handler's status is read and acted on as
/// `permission_step` says (asking the user, or opening the settings, where
/// it says so), and `checked` is set when access is granted.
pub fn check_camera_permission<H: PermissionHandler>(handler: &H, checked: &mut bool) -> (r: Result<(), CaptureError>)
    ensures
        *old(checked) ==> r is Ok && *final(checked),
        !*old(checked) ==> *final(checked) == r is Ok,
{
    if *checked {
        return Ok(());
    }
    let step = permission_step(handler.camera_permission_status());
    let r = match step {
        PermissionStep::Granted => Ok(()),
        PermissionStep::Request => permission_after_request(handler.request_camera_permission()),
        PermissionStep::OpenSettings(e) => {
            let _ = handler.open_camera_settings();
            Err(e)
        },
        PermissionStep::Refuse(e) => Err(e),
    };
    if r.is_ok() {
        *checked = true;
    }
    r
}

} // verus!
