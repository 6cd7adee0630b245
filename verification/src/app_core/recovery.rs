//! Crash detection and recovery.
//!
//! A session marks itself as running (`last_clean_shutdown = false`) when
//! capture starts and as ended when it shuts down cleanly. A startup that
//! finds the running marker knows the previous session crashed: the
//! original wallpaper is restored and the marker cleared, so that the user
//! is never left with a frozen frame as the wallpaper.
//!
//! Restoring the wallpaper and saving the configuration happen outside this
//! library; the manager decides what to do and keeps the configuration.
use vstd::prelude::*;
use crate::app_core::messages::{action_view, message_view, RecoveryAction, RecoveryActionId, RecoveryActionView, UserMessage, UserMessageView};
use crate::app_core::messages::recovery::{recovered_from_crash, recovered_from_crash_view};
use crate::config::AppConfig;
use crate::text::owned;

verus! {

/// What startup found about the previous session.
#[derive(Debug)]
pub enum StartupState {
    /// The previous session ended normally.
    Clean,
    /// A crash was detected and recovered from.
    RecoveredFromCrash {
        /// Whether the original wallpaper was restored.
        wallpaper_restored: bool,
        /// The restored wallpaper, when it was restored.
        restored_wallpaper_path: Option<String>,
    },
    /// There was no previous session.
    FirstRun,
}

/// The message shown when the wallpaper could not be restored after a crash.
pub open spec fn unrestored_crash_view() -> UserMessageView {
    message_view(
        "Micround recovered from unexpected shutdown. Unable to restore your original wallpaper."@,
        None,
        Some("MIC-REC-002"@),
        Seq::<RecoveryActionView>::empty().push(action_view("Dismiss"@, RecoveryActionId::Dismiss, true)),
    )
}

impl StartupState {
    /// Whether a crash was detected.
    pub fn was_crash(&self) -> (r: bool)
        ensures
            r == (*self is RecoveredFromCrash),
    {
        matches!(self, StartupState::RecoveredFromCrash { .. })
    }

    /// The message for the user: none after a clean session or on first
    /// run; after a crash, whether the wallpaper came back.
    pub fn user_message(&self) -> (r: Option<UserMessage>)
        ensures
            match *self {
                StartupState::Clean | StartupState::FirstRun => r is None,
                StartupState::RecoveredFromCrash { wallpaper_restored, .. } => r matches Some(m) && m@ == (
                    if wallpaper_restored { recovered_from_crash_view() } else { unrestored_crash_view() }),
            },
    {
        match self {
            StartupState::Clean | StartupState::FirstRun => None,
            StartupState::RecoveredFromCrash { wallpaper_restored, .. } => {
                if *wallpaper_restored {
                    Some(recovered_from_crash())
                } else {
                    let m = UserMessage::new(
                        "Micround recovered from unexpected shutdown. Unable to restore your original wallpaper.",
                    ).with_error_code("MIC-REC-002").with_action(RecoveryAction::primary("Dismiss", RecoveryActionId::Dismiss));
                    assert(m@ == unrestored_crash_view());
                    Some(m)
                }
            },
        }
    }
}

/// What the startup check asks for.
#[derive(Debug)]
pub enum StartupCheck {
    /// First run: nothing to recover.
    FirstRun,
    /// Clean: nothing to recover.
    Clean,
    /// A crash: restore this wallpaper, if one is known, then call
    /// `complete_recovery`.
    CrashDetected { wallpaper_path: Option<String> },
}

/// Keeps the configuration that records the session state.
#[derive(Debug)]
pub struct RecoveryManager {
    config: AppConfig,
}

impl RecoveryManager {
    /// The configuration kept.
    pub closed spec fn spec_config(&self) -> AppConfig {
        self.config
    }

    /// A manager for the loaded configuration.
    pub fn new(config: AppConfig) -> (r: Self)
        ensures
            r.spec_config() == config,
    {
        RecoveryManager { config }
    }

    /// Whether the previous session crashed: it did when it never marked
    /// itself ended. A clean session with no stored wallpaper is a first run.
    pub fn startup_check(&self) -> (r: StartupCheck)
        ensures
            self.spec_config().internal.last_clean_shutdown && self.spec_config().internal.original_wallpaper_path is None
                ==> r is FirstRun,
            self.spec_config().internal.last_clean_shutdown && self.spec_config().internal.original_wallpaper_path is Some
                ==> r is Clean,
            crash_detected(self.spec_config()) ==> r == (StartupCheck::CrashDetected {
                wallpaper_path: self.spec_config().internal.original_wallpaper_path,
            }),
    {
        if self.config.internal.last_clean_shutdown {
            if self.config.internal.original_wallpaper_path.is_none() {
                return StartupCheck::FirstRun;
            }
            return StartupCheck::Clean;
        }
        let wallpaper_path = match &self.config.internal.original_wallpaper_path {
            Some(p) => Some(p.clone()),
            None => None,
        };
        StartupCheck::CrashDetected { wallpaper_path }
    }

    /// Finishes a crash recovery once the wallpaper restore was attempted:
    /// clears the running marker (the caller saves the configuration) and
    /// reports whether the wallpaper came back. Without a stored wallpaper
    /// nothing was restored.
    pub fn complete_recovery(&mut self, wallpaper_restored: bool) -> (r: StartupState)
        ensures
            final(self).spec_config() == with_clean_shutdown(old(self).spec_config(), true),
            r matches StartupState::RecoveredFromCrash { wallpaper_restored: w, restored_wallpaper_path: p }
                && w == (wallpaper_restored && old(self).spec_config().internal.original_wallpaper_path is Some)
                && p == (if w { old(self).spec_config().internal.original_wallpaper_path } else { None }),
    {
        let restored = wallpaper_restored && self.config.internal.original_wallpaper_path.is_some();
        let path = if restored {
            match &self.config.internal.original_wallpaper_path {
                Some(p) => Some(p.clone()),
                None => None,
            }
        } else {
            None
        };
        self.config.internal.last_clean_shutdown = true;
        StartupState::RecoveredFromCrash { wallpaper_restored: restored, restored_wallpaper_path: path }
    }

    /// Marks the session as running; a crash from now on is detected at the
    /// next startup. The caller saves the configuration.
    pub fn mark_session_started(&mut self)
        ensures
            final(self).spec_config() == with_clean_shutdown(old(self).spec_config(), false),
    {
        self.config.internal.last_clean_shutdown = false;
    }

    /// Marks the session as ended cleanly. The caller saves the
    /// configuration.
    pub fn mark_session_ended(&mut self)
        ensures
            final(self).spec_config() == with_clean_shutdown(old(self).spec_config(), true),
    {
        self.config.internal.last_clean_shutdown = true;
    }

    /// Remembers the original wallpaper for a later restore. The caller
    /// saves the configuration.
    pub fn store_original_wallpaper(&mut self, path: &str)
        ensures
            final(self).spec_config().internal.original_wallpaper_path matches Some(p) && p@ == path@,
            final(self).spec_config().internal.last_clean_shutdown == old(self).spec_config().internal.last_clean_shutdown,
            final(self).spec_config().internal.last_camera_id == old(self).spec_config().internal.last_camera_id,
            final(self).spec_config().camera == old(self).spec_config().camera,
            final(self).spec_config().display == old(self).spec_config().display,
            final(self).spec_config().startup == old(self).spec_config().startup,
            final(self).spec_config().version == old(self).spec_config().version,
    {
        self.config.internal.original_wallpaper_path = Some(owned(path));
    }

    /// The stored original wallpaper.
    pub fn original_wallpaper_path(&self) -> (r: Option<&str>)
        ensures
            match self.spec_config().internal.original_wallpaper_path {
                Some(p) => r matches Some(s) && s@ == p@,
                None => r is None,
            },
    {
        match &self.config.internal.original_wallpaper_path {
            Some(p) => Some(p.as_str()),
            None => None,
        }
    }

    /// Forgets the original wallpaper after it was restored. The caller
    /// saves the configuration.
    pub fn clear_original_wallpaper(&mut self)
        ensures
            final(self).spec_config() == (AppConfig {
                internal: crate::config::InternalConfig { original_wallpaper_path: None, ..old(self).spec_config().internal },
                ..old(self).spec_config()
            }),
    {
        self.config.internal.original_wallpaper_path = None;
    }

    /// The configuration.
    pub fn config(&self) -> (r: &AppConfig)
        ensures
            *r == self.spec_config(),
    {
        &self.config
    }
}

/// The configuration with the clean-shutdown marker set to `clean`.
pub open spec fn with_clean_shutdown(c: AppConfig, clean: bool) -> AppConfig {
    AppConfig { internal: crate::config::InternalConfig { last_clean_shutdown: clean, ..c.internal }, ..c }
}

/// Whether a configuration shows that the previous session crashed.
pub open spec fn crash_detected(c: AppConfig) -> bool {
    !c.internal.last_clean_shutdown
}

/// A session that was marked started and never ended is taken for a crash
/// at the next startup; one that also ended cleanly is not. Neither marker
/// touches the stored wallpaper.
pub proof fn lemma_session_marker(c: AppConfig)
    ensures
        crash_detected(with_clean_shutdown(c, false)),
        !crash_detected(with_clean_shutdown(with_clean_shutdown(c, false), true)),
        with_clean_shutdown(with_clean_shutdown(c, false), true).internal.original_wallpaper_path
            == c.internal.original_wallpaper_path,
{
}

/// A signal asking the application to stop.
#[derive(Debug, Clone, Copy, PartialEq, Eq, Structural)]
pub enum SignalKind {
    /// Termination (SIGTERM, or Ctrl+C on Windows).
    Terminate,
    /// Hangup (SIGHUP).
    Hangup,
    /// Interrupt (SIGINT).
    Interrupt,
}

} // verus!
