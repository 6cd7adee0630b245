//! Messages for display problems.
use vstd::prelude::*;
use vstd::string::*;
use crate::text::owned;
use super::{action_view, message_view, RecoveryAction, RecoveryActionId, RecoveryActionView, UserMessage, UserMessageView};

verus! {

/// The value of the message: a display is not available.
pub open spec fn not_found_view(name: Seq<char>) -> UserMessageView {
    message_view(
        "Display '"@ + name + "' is not available. It may have been disconnected."@,
        None,
        Some("MIC-DSP-001"@),
        Seq::<RecoveryActionView>::empty().push(action_view("Settings"@, RecoveryActionId::OpenSettings, true)),
    )
}

/// A display is not available.
pub fn not_found(name: &str) -> (r: UserMessage)
    ensures
        r@ == not_found_view(name@),
{
    let text = owned("Display '").concat(name).concat("' is not available. It may have been disconnected.");
    let m = UserMessage::new(text.as_str())
        .with_error_code("MIC-DSP-001")
        .with_action(RecoveryAction::primary("Settings", RecoveryActionId::OpenSettings));
    assert(m@ == not_found_view(name@));
    m
}

/// The value of the message: the display resolution changed.
pub open spec fn resolution_changed_view() -> UserMessageView {
    message_view(
        "Display resolution changed. Adjusting feed..."@,
        None,
        None,
        Seq::<RecoveryActionView>::empty().push(action_view("Dismiss"@, RecoveryActionId::Dismiss, true)),
    )
}

/// The display resolution changed.
pub fn resolution_changed() -> (r: UserMessage)
    ensures
        r@ == resolution_changed_view(),
{
    let m = UserMessage::new("Display resolution changed. Adjusting feed...")
        .with_action(RecoveryAction::primary("Dismiss", RecoveryActionId::Dismiss));
    assert(m@ == resolution_changed_view());
    m
}

/// The value of the message: setting the wallpaper failed.
pub open spec fn wallpaper_failed_view(details: Seq<char>) -> UserMessageView {
    message_view(
        "Unable to set wallpaper. Your desktop environment may not support this feature."@,
        Some(details),
        Some("MIC-DSP-003"@),
        Seq::<RecoveryActionView>::empty().push(action_view("Help"@, RecoveryActionId::OpenHelp, true)).push(action_view("Settings"@, RecoveryActionId::OpenSettings, false)),
    )
}

/// Setting the wallpaper failed.
pub fn wallpaper_failed(details: &str) -> (r: UserMessage)
    ensures
        r@ == wallpaper_failed_view(details@),
{
    let m = UserMessage::new("Unable to set wallpaper. Your desktop environment may not support this feature.")
        .with_error_code("MIC-DSP-003")
        .with_details(details)
        .with_action(RecoveryAction::primary("Help", RecoveryActionId::OpenHelp))
        .with_action(RecoveryAction::secondary("Settings", RecoveryActionId::OpenSettings));
    assert(m@ == wallpaper_failed_view(details@));
    m
}

/// The value of the message: a graphics error occurred.
pub open spec fn gpu_error_view(details: Seq<char>) -> UserMessageView {
    message_view(
        "A graphics error occurred. Please update your graphics drivers."@,
        Some(details),
        Some("MIC-DSP-004"@),
        Seq::<RecoveryActionView>::empty().push(action_view("Update Drivers"@, RecoveryActionId::UpdateDrivers, true)).push(action_view("Help"@, RecoveryActionId::OpenHelp, false)),
    )
}

/// A graphics error occurred.
pub fn gpu_error(details: &str) -> (r: UserMessage)
    ensures
        r@ == gpu_error_view(details@),
{
    let m = UserMessage::new("A graphics error occurred. Please update your graphics drivers.")
        .with_error_code("MIC-DSP-004")
        .with_details(details)
        .with_action(RecoveryAction::primary("Update Drivers", RecoveryActionId::UpdateDrivers))
        .with_action(RecoveryAction::secondary("Help", RecoveryActionId::OpenHelp));
    assert(m@ == gpu_error_view(details@));
    m
}

/// The value of the message: the render surface could not be created.
pub open spec fn surface_creation_failed_view(details: Seq<char>) -> UserMessageView {
    message_view(
        "Unable to create display surface. Please check your graphics drivers."@,
        Some(details),
        Some("MIC-DSP-005"@),
        Seq::<RecoveryActionView>::empty().push(action_view("Update Drivers"@, RecoveryActionId::UpdateDrivers, true)),
    )
}

/// The render surface could not be created.
pub fn surface_creation_failed(details: &str) -> (r: UserMessage)
    ensures
        r@ == surface_creation_failed_view(details@),
{
    let m = UserMessage::new("Unable to create display surface. Please check your graphics drivers.")
        .with_error_code("MIC-DSP-005")
        .with_details(details)
        .with_action(RecoveryAction::primary("Update Drivers", RecoveryActionId::UpdateDrivers));
    assert(m@ == surface_creation_failed_view(details@));
    m
}

/// The value of the display-disconnected message.
pub open spec fn disconnected_view(fallback: Option<Seq<char>>) -> UserMessageView {
    message_view(
        match fallback {
            Some(target) => "The display showing your feed was disconnected. Feed moved to "@ + target + "."@,
            None => "The display showing your feed was disconnected."@,
        },
        None,
        Some("MIC-DSP-002"@),
        Seq::<RecoveryActionView>::empty().push(action_view("Dismiss"@, RecoveryActionId::Dismiss, true)).push(action_view("Settings"@, RecoveryActionId::OpenSettings, false)),
    )
}

/// The view of an optional string slice.
pub open spec fn opt_str_view(o: Option<&str>) -> Option<Seq<char>> {
    match o {
        Some(s) => Some(s@),
        None => None,
    }
}

/// The display showing the feed was disconnected; names the display the feed
/// moved to, if any.
pub fn disconnected(fallback: Option<&str>) -> (r: UserMessage)
    ensures
        r@ == disconnected_view(opt_str_view(fallback)),
{
    let text = match fallback {
        Some(target) => owned("The display showing your feed was disconnected. Feed moved to ").concat(target).concat("."),
        None => owned("The display showing your feed was disconnected."),
    };
    let m = UserMessage::new(text.as_str())
        .with_error_code("MIC-DSP-002")
        .with_action(RecoveryAction::primary("Dismiss", RecoveryActionId::Dismiss))
        .with_action(RecoveryAction::secondary("Settings", RecoveryActionId::OpenSettings));
    m
}

} // verus!
