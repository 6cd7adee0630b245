//! Messages for the live feed.
use vstd::prelude::*;
use vstd::string::*;
use crate::text::owned;
use super::{action_view, message_view, RecoveryAction, RecoveryActionId, RecoveryActionView, UserMessage, UserMessageView};

verus! {

/// The value of the message: the feed appears frozen.
pub open spec fn frozen_view() -> UserMessageView {
    message_view(
        "Feed appears frozen."@,
        None,
        Some("MIC-FED-001"@),
        Seq::<RecoveryActionView>::empty().push(action_view("Restart Feed"@, RecoveryActionId::RestartFeed, true)),
    )
}

/// The feed appears frozen.
pub fn frozen() -> (r: UserMessage)
    ensures
        r@ == frozen_view(),
{
    let m = UserMessage::new("Feed appears frozen.")
        .with_error_code("MIC-FED-001")
        .with_action(RecoveryAction::primary("Restart Feed", RecoveryActionId::RestartFeed));
    assert(m@ == frozen_view());
    m
}

/// The value of the message: a frame could not be processed.
pub open spec fn processing_error_view() -> UserMessageView {
    message_view(
        "Error processing video frame. Skipping frame..."@,
        None,
        Some("MIC-FED-002"@),
        Seq::<RecoveryActionView>::empty().push(action_view("Dismiss"@, RecoveryActionId::Dismiss, false)),
    )
}

/// A frame could not be processed.
pub fn processing_error() -> (r: UserMessage)
    ensures
        r@ == processing_error_view(),
{
    let m = UserMessage::new("Error processing video frame. Skipping frame...")
        .with_error_code("MIC-FED-002")
        .with_action(RecoveryAction::secondary("Dismiss", RecoveryActionId::Dismiss));
    assert(m@ == processing_error_view());
    m
}

/// The value of the message: the feed is paused.
pub open spec fn paused_view() -> UserMessageView {
    message_view(
        "Feed paused."@,
        None,
        None,
        Seq::<RecoveryActionView>::empty().push(action_view("Resume"@, RecoveryActionId::RestartFeed, true)),
    )
}

/// The feed is paused.
pub fn paused() -> (r: UserMessage)
    ensures
        r@ == paused_view(),
{
    let m = UserMessage::new("Feed paused.")
        .with_action(RecoveryAction::primary("Resume", RecoveryActionId::RestartFeed));
    assert(m@ == paused_view());
    m
}

} // verus!
