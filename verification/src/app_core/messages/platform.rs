//! Messages for platform problems.
use vstd::prelude::*;
use vstd::string::*;
use crate::text::owned;
use super::{action_view, message_view, RecoveryAction, RecoveryActionId, RecoveryActionView, UserMessage, UserMessageView};

verus! {

/// The value of the message: a feature is not available on this system.
pub open spec fn unsupported_view(feature: Seq<char>) -> UserMessageView {
    message_view(
        "This feature is not available on your system: "@ + feature,
        None,
        Some("MIC-PLT-001"@),
        Seq::<RecoveryActionView>::empty().push(action_view("Dismiss"@, RecoveryActionId::Dismiss, true)).push(action_view("Help"@, RecoveryActionId::OpenHelp, false)),
    )
}

/// A feature is not available on this system.
pub fn unsupported(feature: &str) -> (r: UserMessage)
    ensures
        r@ == unsupported_view(feature@),
{
    let text = owned("This feature is not available on your system: ").concat(feature);
    let m = UserMessage::new(text.as_str())
        .with_error_code("MIC-PLT-001")
        .with_action(RecoveryAction::primary("Dismiss", RecoveryActionId::Dismiss))
        .with_action(RecoveryAction::secondary("Help", RecoveryActionId::OpenHelp));
    assert(m@ == unsupported_view(feature@));
    m
}

/// The value of the message: a generic platform error.
pub open spec fn error_view(details: Seq<char>) -> UserMessageView {
    message_view(
        "A system error occurred. Please check your desktop environment configuration."@,
        Some(details),
        Some("MIC-PLT-002"@),
        Seq::<RecoveryActionView>::empty().push(action_view("Help"@, RecoveryActionId::OpenHelp, true)),
    )
}

/// A generic platform error.
pub fn error(details: &str) -> (r: UserMessage)
    ensures
        r@ == error_view(details@),
{
    let m = UserMessage::new("A system error occurred. Please check your desktop environment configuration.")
        .with_error_code("MIC-PLT-002")
        .with_details(details)
        .with_action(RecoveryAction::primary("Help", RecoveryActionId::OpenHelp));
    assert(m@ == error_view(details@));
    m
}

} // verus!
