//! Messages for crash recovery.
use vstd::prelude::*;
use vstd::string::*;
use crate::text::owned;
use super::{action_view, message_view, RecoveryAction, RecoveryActionId, RecoveryActionView, UserMessage, UserMessageView};

verus! {

/// The value of the message: the previous session ended unexpectedly and was recovered.
pub open spec fn recovered_from_crash_view() -> UserMessageView {
    message_view(
        "Micround recovered from unexpected shutdown. Your original wallpaper has been restored."@,
        None,
        Some("MIC-REC-001"@),
        Seq::<RecoveryActionView>::empty().push(action_view("Restart Feed"@, RecoveryActionId::RestartFeed, true)).push(action_view("Dismiss"@, RecoveryActionId::Dismiss, false)),
    )
}

/// The previous session ended unexpectedly and was recovered.
pub fn recovered_from_crash() -> (r: UserMessage)
    ensures
        r@ == recovered_from_crash_view(),
{
    let m = UserMessage::new("Micround recovered from unexpected shutdown. Your original wallpaper has been restored.")
        .with_error_code("MIC-REC-001")
        .with_action(RecoveryAction::primary("Restart Feed", RecoveryActionId::RestartFeed))
        .with_action(RecoveryAction::secondary("Dismiss", RecoveryActionId::Dismiss));
    assert(m@ == recovered_from_crash_view());
    m
}

/// The value of the message: the original wallpaper was restored.
pub open spec fn wallpaper_restored_view() -> UserMessageView {
    message_view(
        "Your original wallpaper has been restored."@,
        None,
        None,
        Seq::<RecoveryActionView>::empty().push(action_view("Dismiss"@, RecoveryActionId::Dismiss, true)),
    )
}

/// The original wallpaper was restored.
pub fn wallpaper_restored() -> (r: UserMessage)
    ensures
        r@ == wallpaper_restored_view(),
{
    let m = UserMessage::new("Your original wallpaper has been restored.")
        .with_action(RecoveryAction::primary("Dismiss", RecoveryActionId::Dismiss));
    assert(m@ == wallpaper_restored_view());
    m
}

} // verus!
