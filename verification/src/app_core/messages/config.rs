//! Messages for configuration problems.
use vstd::prelude::*;
use vstd::string::*;
use crate::text::owned;
use super::{action_view, message_view, RecoveryAction, RecoveryActionId, RecoveryActionView, UserMessage, UserMessageView};

verus! {

/// The value of the message: no settings file; defaults are used.
pub open spec fn not_found_view() -> UserMessageView {
    message_view(
        "Settings file not found. Using default configuration."@,
        None,
        Some("MIC-CFG-001"@),
        Seq::<RecoveryActionView>::empty().push(action_view("Dismiss"@, RecoveryActionId::Dismiss, true)),
    )
}

/// No settings file; defaults are used.
pub fn not_found() -> (r: UserMessage)
    ensures
        r@ == not_found_view(),
{
    let m = UserMessage::new("Settings file not found. Using default configuration.")
        .with_error_code("MIC-CFG-001")
        .with_action(RecoveryAction::primary("Dismiss", RecoveryActionId::Dismiss));
    assert(m@ == not_found_view());
    m
}

/// The value of the message: the settings file is corrupted; defaults are used.
pub open spec fn corrupted_view() -> UserMessageView {
    message_view(
        "Settings file is corrupted. Using default configuration."@,
        None,
        Some("MIC-CFG-002"@),
        Seq::<RecoveryActionView>::empty().push(action_view("Dismiss"@, RecoveryActionId::Dismiss, true)).push(action_view("Settings"@, RecoveryActionId::OpenSettings, false)),
    )
}

/// The settings file is corrupted; defaults are used.
pub fn corrupted() -> (r: UserMessage)
    ensures
        r@ == corrupted_view(),
{
    let m = UserMessage::new("Settings file is corrupted. Using default configuration.")
        .with_error_code("MIC-CFG-002")
        .with_action(RecoveryAction::primary("Dismiss", RecoveryActionId::Dismiss))
        .with_action(RecoveryAction::secondary("Settings", RecoveryActionId::OpenSettings));
    assert(m@ == corrupted_view());
    m
}

/// The value of the message: saving the settings failed.
pub open spec fn save_failed_view() -> UserMessageView {
    message_view(
        "Unable to save settings. Check that you have write permissions."@,
        None,
        Some("MIC-CFG-003"@),
        Seq::<RecoveryActionView>::empty().push(action_view("Retry"@, RecoveryActionId::Retry, true)).push(action_view("Help"@, RecoveryActionId::OpenHelp, false)),
    )
}

/// Saving the settings failed.
pub fn save_failed() -> (r: UserMessage)
    ensures
        r@ == save_failed_view(),
{
    let m = UserMessage::new("Unable to save settings. Check that you have write permissions.")
        .with_error_code("MIC-CFG-003")
        .with_action(RecoveryAction::primary("Retry", RecoveryActionId::Retry))
        .with_action(RecoveryAction::secondary("Help", RecoveryActionId::OpenHelp));
    assert(m@ == save_failed_view());
    m
}

/// The value of the message: reading the settings failed; defaults are used.
pub open spec fn read_failed_view() -> UserMessageView {
    message_view(
        "Unable to read settings. Using default configuration."@,
        None,
        Some("MIC-CFG-004"@),
        Seq::<RecoveryActionView>::empty().push(action_view("Dismiss"@, RecoveryActionId::Dismiss, true)),
    )
}

/// Reading the settings failed; defaults are used.
pub fn read_failed() -> (r: UserMessage)
    ensures
        r@ == read_failed_view(),
{
    let m = UserMessage::new("Unable to read settings. Using default configuration.")
        .with_error_code("MIC-CFG-004")
        .with_action(RecoveryAction::primary("Dismiss", RecoveryActionId::Dismiss));
    assert(m@ == read_failed_view());
    m
}

} // verus!
