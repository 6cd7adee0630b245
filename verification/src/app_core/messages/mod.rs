//! User-facing messages and recovery guidance.
//!
//! Each message says what happened in plain language and what to do next,
//! carries an optional support code and lists recovery actions, the primary
//! one first.
use vstd::prelude::*;
use vstd::string::*;
use crate::text::owned;

pub mod camera;
pub mod config;
pub mod display;
pub mod feed;
pub mod internal;
pub mod platform;
pub mod recovery;

verus! {

/// Identifiers for recovery actions.
#[derive(Debug, Clone, Copy, PartialEq, Eq, Hash, Structural)]
pub enum RecoveryActionId {
    RefreshCameras,
    OpenSettings,
    Retry,
    RestartFeed,
    SelectCamera,
    Dismiss,
    OpenHelp,
    CheckDisplaySettings,
    UpdateDrivers,
    CloseOtherApps,
}

/// An action the user can take to recover from an error.
#[derive(Debug, PartialEq, Eq)]
pub struct RecoveryAction {
    /// Short label, such as "Refresh".
    pub label: String,
    /// What the action does.
    pub action_id: RecoveryActionId,
    /// Whether this is the recommended action.
    pub primary: bool,
}

/// The mathematical value of a recovery action.
pub struct RecoveryActionView {
    pub label: Seq<char>,
    pub action_id: RecoveryActionId,
    pub primary: bool,
}

/// A recovery action value.
pub open spec fn action_view(label: Seq<char>, action_id: RecoveryActionId, primary: bool) -> RecoveryActionView {
    RecoveryActionView { label, action_id, primary }
}

impl View for RecoveryAction {
    type V = RecoveryActionView;

    open spec fn view(&self) -> RecoveryActionView {
        action_view(self.label@, self.action_id, self.primary)
    }
}

impl Clone for RecoveryAction {
    fn clone(&self) -> (r: Self)
        ensures
            r@ == self@,
    {
        RecoveryAction { label: self.label.clone(), action_id: self.action_id, primary: self.primary }
    }
}

impl RecoveryAction {
    /// A primary (recommended) action.
    pub fn primary(label: &str, action_id: RecoveryActionId) -> (r: Self)
        ensures
            r@ == action_view(label@, action_id, true),
    {
        RecoveryAction { label: owned(label), action_id, primary: true }
    }

    /// A secondary action.
    pub fn secondary(label: &str, action_id: RecoveryActionId) -> (r: Self)
        ensures
            r@ == action_view(label@, action_id, false),
    {
        RecoveryAction { label: owned(label), action_id, primary: false }
    }
}

/// A complete user-facing message with recovery options.
#[derive(Debug)]
pub struct UserMessage {
    /// The main text.
    pub message: String,
    /// Technical details, shown on request.
    pub details: Option<String>,
    /// Support code such as "MIC-CAM-001".
    pub error_code: Option<String>,
    /// Recovery actions.
    pub actions: Vec<RecoveryAction>,
}

/// The mathematical value of a user message.
pub struct UserMessageView {
    pub message: Seq<char>,
    pub details: Option<Seq<char>>,
    pub error_code: Option<Seq<char>>,
    pub actions: Seq<RecoveryActionView>,
}

/// A user message value.
pub open spec fn message_view(
    message: Seq<char>,
    details: Option<Seq<char>>,
    error_code: Option<Seq<char>>,
    actions: Seq<RecoveryActionView>,
) -> UserMessageView {
    UserMessageView { message, details, error_code, actions }
}

/// The view of an optional string.
pub open spec fn opt_seq(o: Option<String>) -> Option<Seq<char>> {
    match o {
        Some(s) => Some(s@),
        None => None,
    }
}

/// The views of a list of actions.
pub open spec fn actions_view(a: Seq<RecoveryAction>) -> Seq<RecoveryActionView> {
    a.map_values(|x: RecoveryAction| x@)
}

impl View for UserMessage {
    type V = UserMessageView;

    open spec fn view(&self) -> UserMessageView {
        message_view(self.message@, opt_seq(self.details), opt_seq(self.error_code), actions_view(self.actions@))
    }
}

/// The display text of a message: the text, then the code in brackets.
pub open spec fn message_display_text(m: UserMessageView) -> Seq<char> {
    match m.error_code {
        Some(code) => m.message + " ("@ + code + ")"@,
        None => m.message,
    }
}

impl UserMessage {
    /// A message with no details, code or actions.
    pub fn new(message: &str) -> (r: Self)
        ensures
            r@ == message_view(message@, None, None, Seq::empty()),
    {
        let r = UserMessage { message: owned(message), details: None, error_code: None, actions: Vec::new() };
        assert(actions_view(r.actions@) =~= Seq::<RecoveryActionView>::empty());
        r
    }

    /// Sets the technical details.
    pub fn with_details(self, details: &str) -> (r: Self)
        ensures
            r@ == message_view(self@.message, Some(details@), self@.error_code, self@.actions),
    {
        UserMessage { details: Some(owned(details)), ..self }
    }

    /// Sets the support code.
    pub fn with_error_code(self, code: &str) -> (r: Self)
        ensures
            r@ == message_view(self@.message, self@.details, Some(code@), self@.actions),
    {
        UserMessage { error_code: Some(owned(code)), ..self }
    }

    /// Appends a recovery action.
    pub fn with_action(self, action: RecoveryAction) -> (r: Self)
        ensures
            r@ == message_view(self@.message, self@.details, self@.error_code, self@.actions.push(action@)),
    {
        let mut s = self;
        let ghost before = s.actions@;
        s.actions.push(action);
        assert(actions_view(s.actions@) =~= actions_view(before).push(action@));
        s
    }

    /// Appends several recovery actions, in order.
    pub fn with_actions(self, actions: Vec<RecoveryAction>) -> (r: Self)
        ensures
            r@ == message_view(self@.message, self@.details, self@.error_code, self@.actions + actions_view(actions@)),
    {
        let mut s = self;
        let mut rest = actions;
        let ghost before = s.actions@;
        let ghost added = rest@;
        s.actions.append(&mut rest);
        assert(actions_view(s.actions@) =~= actions_view(before) + actions_view(added));
        s
    }

    /// The display text: the message, then the code in brackets if there is one.
    pub fn to_display_string(&self) -> (r: String)
        ensures
            r@ == message_display_text(self@),
    {
        match &self.error_code {
            Some(code) => self.message.clone().concat(" (").concat(code.as_str()).concat(")"),
            None => self.message.clone(),
        }
    }
}

} // verus!
