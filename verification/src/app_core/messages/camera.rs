//! Messages for camera problems.
use vstd::prelude::*;
use vstd::string::*;
use crate::text::owned;
use super::{action_view, message_view, RecoveryAction, RecoveryActionId, RecoveryActionView, UserMessage, UserMessageView};

verus! {

/// The value of the message: no camera detected.
pub open spec fn no_camera_found_view() -> UserMessageView {
    message_view(
        "No camera detected. Connect your USB microscope and click Refresh."@,
        None,
        Some("MIC-CAM-001"@),
        Seq::<RecoveryActionView>::empty().push(action_view("Refresh"@, RecoveryActionId::RefreshCameras, true)).push(action_view("Help"@, RecoveryActionId::OpenHelp, false)),
    )
}

/// No camera detected.
pub fn no_camera_found() -> (r: UserMessage)
    ensures
        r@ == no_camera_found_view(),
{
    let m = UserMessage::new("No camera detected. Connect your USB microscope and click Refresh.")
        .with_error_code("MIC-CAM-001")
        .with_action(RecoveryAction::primary("Refresh", RecoveryActionId::RefreshCameras))
        .with_action(RecoveryAction::secondary("Help", RecoveryActionId::OpenHelp));
    assert(m@ == no_camera_found_view());
    m
}

/// The value of the message: a specific camera is not available.
pub open spec fn camera_not_found_view(name: Seq<char>) -> UserMessageView {
    message_view(
        "Camera '"@ + name + "' is not available. It may have been disconnected."@,
        None,
        Some("MIC-CAM-002"@),
        Seq::<RecoveryActionView>::empty().push(action_view("Refresh"@, RecoveryActionId::RefreshCameras, true)).push(action_view("Select Camera"@, RecoveryActionId::SelectCamera, false)),
    )
}

/// A specific camera is not available.
pub fn camera_not_found(name: &str) -> (r: UserMessage)
    ensures
        r@ == camera_not_found_view(name@),
{
    let text = owned("Camera '").concat(name).concat("' is not available. It may have been disconnected.");
    let m = UserMessage::new(text.as_str())
        .with_error_code("MIC-CAM-002")
        .with_action(RecoveryAction::primary("Refresh", RecoveryActionId::RefreshCameras))
        .with_action(RecoveryAction::secondary("Select Camera", RecoveryActionId::SelectCamera));
    assert(m@ == camera_not_found_view(name@));
    m
}

/// The value of the message: the camera is in use by another application.
pub open spec fn camera_busy_view() -> UserMessageView {
    message_view(
        "Camera is being used by another app. Close other apps using the camera and try again."@,
        None,
        Some("MIC-CAM-003"@),
        Seq::<RecoveryActionView>::empty().push(action_view("Retry"@, RecoveryActionId::Retry, true)).push(action_view("Close Other Apps"@, RecoveryActionId::CloseOtherApps, false)),
    )
}

/// The camera is in use by another application.
pub fn camera_busy() -> (r: UserMessage)
    ensures
        r@ == camera_busy_view(),
{
    let m = UserMessage::new("Camera is being used by another app. Close other apps using the camera and try again.")
        .with_error_code("MIC-CAM-003")
        .with_action(RecoveryAction::primary("Retry", RecoveryActionId::Retry))
        .with_action(RecoveryAction::secondary("Close Other Apps", RecoveryActionId::CloseOtherApps));
    assert(m@ == camera_busy_view());
    m
}

/// The value of the message: camera permission was denied.
pub open spec fn permission_denied_view() -> UserMessageView {
    message_view(
        "Camera access needed. Click Settings to open Privacy settings and allow Micround to use your camera."@,
        None,
        Some("MIC-CAM-004"@),
        Seq::<RecoveryActionView>::empty().push(action_view("Settings"@, RecoveryActionId::OpenSettings, true)).push(action_view("Help"@, RecoveryActionId::OpenHelp, false)),
    )
}

/// Camera permission was denied.
pub fn permission_denied() -> (r: UserMessage)
    ensures
        r@ == permission_denied_view(),
{
    let m = UserMessage::new("Camera access needed. Click Settings to open Privacy settings and allow Micround to use your camera.")
        .with_error_code("MIC-CAM-004")
        .with_action(RecoveryAction::primary("Settings", RecoveryActionId::OpenSettings))
        .with_action(RecoveryAction::secondary("Help", RecoveryActionId::OpenHelp));
    assert(m@ == permission_denied_view());
    m
}

/// The value of the message: the camera was disconnected during capture.
pub open spec fn disconnected_view() -> UserMessageView {
    message_view(
        "Camera disconnected. Waiting to reconnect..."@,
        None,
        Some("MIC-CAM-005"@),
        Seq::<RecoveryActionView>::empty().push(action_view("Select Camera"@, RecoveryActionId::SelectCamera, false)),
    )
}

/// The camera was disconnected during capture.
pub fn disconnected() -> (r: UserMessage)
    ensures
        r@ == disconnected_view(),
{
    let m = UserMessage::new("Camera disconnected. Waiting to reconnect...")
        .with_error_code("MIC-CAM-005")
        .with_action(RecoveryAction::secondary("Select Camera", RecoveryActionId::SelectCamera));
    assert(m@ == disconnected_view());
    m
}

/// The value of the message: the camera is not responding.
pub open spec fn timeout_view() -> UserMessageView {
    message_view(
        "Camera is not responding. Attempting to reconnect..."@,
        None,
        Some("MIC-CAM-006"@),
        Seq::<RecoveryActionView>::empty().push(action_view("Restart Feed"@, RecoveryActionId::RestartFeed, false)),
    )
}

/// The camera is not responding.
pub fn timeout() -> (r: UserMessage)
    ensures
        r@ == timeout_view(),
{
    let m = UserMessage::new("Camera is not responding. Attempting to reconnect...")
        .with_error_code("MIC-CAM-006")
        .with_action(RecoveryAction::secondary("Restart Feed", RecoveryActionId::RestartFeed));
    assert(m@ == timeout_view());
    m
}

/// The value of the message: no usable video format could be negotiated.
pub open spec fn format_negotiation_failed_view(details: Seq<char>) -> UserMessageView {
    message_view(
        "Unable to use this camera's video format. Try a different camera or resolution."@,
        Some(details),
        Some("MIC-CAM-007"@),
        Seq::<RecoveryActionView>::empty().push(action_view("Select Camera"@, RecoveryActionId::SelectCamera, true)).push(action_view("Settings"@, RecoveryActionId::OpenSettings, false)),
    )
}

/// No usable video format could be negotiated.
pub fn format_negotiation_failed(details: &str) -> (r: UserMessage)
    ensures
        r@ == format_negotiation_failed_view(details@),
{
    let m = UserMessage::new("Unable to use this camera's video format. Try a different camera or resolution.")
        .with_error_code("MIC-CAM-007")
        .with_details(details)
        .with_action(RecoveryAction::primary("Select Camera", RecoveryActionId::SelectCamera))
        .with_action(RecoveryAction::secondary("Settings", RecoveryActionId::OpenSettings));
    assert(m@ == format_negotiation_failed_view(details@));
    m
}

/// The value of the message: the camera came back and the feed resumed.
pub open spec fn reconnected_view() -> UserMessageView {
    message_view(
        "Camera reconnected. Feed resumed."@,
        None,
        None,
        Seq::<RecoveryActionView>::empty().push(action_view("Dismiss"@, RecoveryActionId::Dismiss, true)),
    )
}

/// The camera came back and the feed resumed.
pub fn reconnected() -> (r: UserMessage)
    ensures
        r@ == reconnected_view(),
{
    let m = UserMessage::new("Camera reconnected. Feed resumed.")
        .with_action(RecoveryAction::primary("Dismiss", RecoveryActionId::Dismiss));
    assert(m@ == reconnected_view());
    m
}

/// The value of the message: the camera did not come back in time.
pub open spec fn reconnection_failed_view() -> UserMessageView {
    message_view(
        "Camera not found after waiting. Please check the connection."@,
        None,
        Some("MIC-CAM-008"@),
        Seq::<RecoveryActionView>::empty().push(action_view("Try Again"@, RecoveryActionId::Retry, true)).push(action_view("Select Camera"@, RecoveryActionId::SelectCamera, false)),
    )
}

/// The camera did not come back in time.
pub fn reconnection_failed() -> (r: UserMessage)
    ensures
        r@ == reconnection_failed_view(),
{
    let m = UserMessage::new("Camera not found after waiting. Please check the connection.")
        .with_error_code("MIC-CAM-008")
        .with_action(RecoveryAction::primary("Try Again", RecoveryActionId::Retry))
        .with_action(RecoveryAction::secondary("Select Camera", RecoveryActionId::SelectCamera));
    assert(m@ == reconnection_failed_view());
    m
}

/// The value of the Linux permission message for a device.
pub open spec fn permission_denied_linux_view(device_path: Seq<char>, in_video_group: bool) -> UserMessageView {
    if in_video_group {
        message_view(
            "Permission denied for '"@ + device_path + "'. Check device permissions."@,
            Some("Try: sudo chmod 666 "@ + device_path),
            Some("MIC-CAM-004"@),
            Seq::<RecoveryActionView>::empty().push(action_view("Retry"@, RecoveryActionId::Retry, true)).push(action_view("Help"@, RecoveryActionId::OpenHelp, false)),
        )
    } else {
        message_view(
            "Permission denied for '"@ + device_path + "'. Your user account needs camera access."@,
            Some("Run: sudo usermod -a -G video $USER (then log out and back in)"@),
            Some("MIC-CAM-004"@),
            Seq::<RecoveryActionView>::empty().push(action_view("Help"@, RecoveryActionId::OpenHelp, true)),
        )
    }
}

/// Permission denied on Linux, with guidance that depends on whether the
/// user is in the `video` group.
pub fn permission_denied_linux(device_path: &str, in_video_group: bool) -> (r: UserMessage)
    ensures
        r@ == permission_denied_linux_view(device_path@, in_video_group),
{
    if in_video_group {
        let text = owned("Permission denied for '").concat(device_path).concat("'. Check device permissions.");
        let details = owned("Try: sudo chmod 666 ").concat(device_path);
        let m = UserMessage::new(text.as_str())
            .with_error_code("MIC-CAM-004")
            .with_details(details.as_str())
            .with_action(RecoveryAction::primary("Retry", RecoveryActionId::Retry))
            .with_action(RecoveryAction::secondary("Help", RecoveryActionId::OpenHelp));
        m
    } else {
        let text = owned("Permission denied for '").concat(device_path).concat("'. Your user account needs camera access.");
        let m = UserMessage::new(text.as_str())
            .with_error_code("MIC-CAM-004")
            .with_details("Run: sudo usermod -a -G video $USER (then log out and back in)")
            .with_action(RecoveryAction::primary("Help", RecoveryActionId::OpenHelp));
        m
    }
}

} // verus!
