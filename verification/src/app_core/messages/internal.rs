//! Messages for unexpected internal errors.
use vstd::prelude::*;
use vstd::string::*;
use crate::text::owned;
use super::{action_view, message_view, RecoveryAction, RecoveryActionId, RecoveryActionView, UserMessage, UserMessageView};

verus! {

/// The value of the message: an unexpected internal error.
pub open spec fn unexpected_view(details: Seq<char>) -> UserMessageView {
    message_view(
        "An unexpected error occurred. Please restart the application."@,
        Some(details),
        Some("MIC-INT-001"@),
        Seq::<RecoveryActionView>::empty().push(action_view("Help"@, RecoveryActionId::OpenHelp, true)),
    )
}

/// An unexpected internal error.
pub fn unexpected(details: &str) -> (r: UserMessage)
    ensures
        r@ == unexpected_view(details@),
{
    let m = UserMessage::new("An unexpected error occurred. Please restart the application.")
        .with_error_code("MIC-INT-001")
        .with_details(details)
        .with_action(RecoveryAction::primary("Help", RecoveryActionId::OpenHelp));
    assert(m@ == unexpected_view(details@));
    m
}

} // verus!
