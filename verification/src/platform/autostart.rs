//! Launching at login.
//!
//! On Linux the application installs an XDG autostart entry,
//! `micround.desktop` in `$XDG_CONFIG_HOME/autostart` (or
//! `~/.config/autostart`); on macOS a LaunchAgent property list. Reading and
//! writing those files happens outside this library; their contents, where
//! they go, and what a found file means are decided here.
use vstd::prelude::*;
use crate::app_core::error::ErrorSeverity;
use crate::text::{join_path, owned, path_join, seq_contains_seq, str_contains};

verus! {

/// Name of the Linux desktop entry.
pub open spec fn desktop_file_name() -> Seq<char> {
    "micround.desktop"@
}

/// Errors of autostart operations.
#[derive(Debug)]
pub enum AutostartError {
    /// A file operation failed.
    Io(String),
    /// The platform is not supported.
    NotSupported(String),
    /// A needed directory is unknown.
    PathError(String),
}

/// The text of an autostart error.
pub open spec fn autostart_error_text(e: AutostartError) -> Seq<char> {
    match e {
        AutostartError::Io(m) => "I/O error: "@ + m@,
        AutostartError::NotSupported(m) => "Not supported: "@ + m@,
        AutostartError::PathError(m) => "Path error: "@ + m@,
    }
}

/// The user-facing message of an autostart error.
pub open spec fn autostart_user_text(e: AutostartError) -> Seq<char> {
    match e {
        AutostartError::Io(_) => "Unable to change autostart settings. Please check that you have write permissions."@,
        AutostartError::NotSupported(_) => "Autostart is not available on your system. You can manually add Micround to your startup applications."@,
        AutostartError::PathError(_) => "Unable to find the autostart directory. Please check your system configuration."@,
    }
}

impl AutostartError {
    /// Every autostart error is for the user to act on.
    pub fn severity(&self) -> (r: ErrorSeverity)
        ensures
            r == ErrorSeverity::UserActionable,
    {
        ErrorSeverity::UserActionable
    }

    /// A user-friendly message for this error.
    pub fn user_message(&self) -> (r: String)
        ensures
            r@ == autostart_user_text(*self),
    {
        match self {
            AutostartError::Io(_) => owned("Unable to change autostart settings. Please check that you have write permissions."),
            AutostartError::NotSupported(_) => owned(
                "Autostart is not available on your system. You can manually add Micround to your startup applications.",
            ),
            AutostartError::PathError(_) => owned("Unable to find the autostart directory. Please check your system configuration."),
        }
    }

    /// The error as text.
    pub fn to_display_string(&self) -> (r: String)
        ensures
            r@ == autostart_error_text(*self),
    {
        let (prefix, m) = match self {
            AutostartError::Io(m) => ("I/O error: ", m),
            AutostartError::NotSupported(m) => ("Not supported: ", m),
            AutostartError::PathError(m) => ("Path error: ", m),
        };
        let mut s = owned(prefix);
        s.append(m.as_str());
        s
    }
}

/// The Linux autostart directory: `autostart` in `$XDG_CONFIG_HOME`, or in
/// `.config` under the home directory; an error when neither is known.
pub fn linux_autostart_dir(xdg_config_home: Option<String>, home: Option<String>) -> (r: Result<String, AutostartError>)
    ensures
        match (xdg_config_home, home) {
            (Some(x), _) => r matches Ok(d) && d@ == path_join(x@, "autostart"@),
            (None, Some(h)) => r matches Ok(d) && d@ == path_join(path_join(h@, ".config"@), "autostart"@),
            (None, None) => r matches Err(AutostartError::PathError(m)) && m@ == "Cannot determine home directory"@,
        },
{
    let base = match (xdg_config_home, home) {
        (Some(x), _) => x,
        (None, Some(h)) => join_path(h.as_str(), ".config"),
        (None, None) => {
            return Err(AutostartError::PathError(owned("Cannot determine home directory")));
        },
    };
    Ok(join_path(base.as_str(), "autostart"))
}

/// The Linux desktop entry's path in an autostart directory.
pub fn desktop_file_path(autostart_dir: &str) -> (r: String)
    ensures
        r@ == path_join(autostart_dir@, desktop_file_name()),
{
    join_path(autostart_dir, "micround.desktop")
}

/// The Linux desktop entry that starts the executable minimised at login.
pub open spec fn desktop_entry_text(exe_path: Seq<char>) -> Seq<char> {
    "[Desktop Entry]\nType=Application\nVersion=1.0\nName=Micround\nGenericName=Live Microscope Wallpaper\nComment=Display live microscope camera feed as desktop wallpaper\nExec=\""@
        + exe_path
        + "\" --minimized\nIcon=micround\nTerminal=false\nCategories=Utility;\nStartupNotify=false\nX-GNOME-Autostart-enabled=true\n"@
}

/// The contents of the Linux desktop entry.
pub fn desktop_entry_content(exe_path: &str) -> (r: String)
    ensures
        r@ == desktop_entry_text(exe_path@),
{
    let mut s = owned(
        "[Desktop Entry]\nType=Application\nVersion=1.0\nName=Micround\nGenericName=Live Microscope Wallpaper\nComment=Display live microscope camera feed as desktop wallpaper\nExec=\"",
    );
    s.append(exe_path);
    s.append("\" --minimized\nIcon=micround\nTerminal=false\nCategories=Utility;\nStartupNotify=false\nX-GNOME-Autostart-enabled=true\n");
    s
}

/// Whether a Linux desktop entry, if there is one, enables autostart: it
/// does unless it is hidden or autostart is switched off in it.
pub open spec fn desktop_entry_enables(content: Option<Seq<char>>) -> bool {
    match content {
        None => false,
        Some(c) => !seq_contains_seq(c, "Hidden=true"@) && !seq_contains_seq(c, "X-GNOME-Autostart-enabled=false"@),
    }
}

/// Whether the desktop entry found (none when the file is missing) enables
/// autostart.
pub fn is_enabled_from_entry(content: Option<&str>) -> (r: bool)
    ensures
        r == desktop_entry_enables(match content {
            Some(c) => Some(c@),
            None => None,
        }),
{
    match content {
        None => false,
        Some(c) => {
            if str_contains(c, "Hidden=true") {
                return false;
            }
            if str_contains(c, "X-GNOME-Autostart-enabled=false") {
                return false;
            }
            true
        },
    }
}

/// The macOS LaunchAgent property list that starts the executable
/// minimised at login.
pub open spec fn plist_text(exe_path: Seq<char>) -> Seq<char> {
    "<?xml version=\"1.0\" encoding=\"UTF-8\"?>\n<!DOCTYPE plist PUBLIC \"-//Apple//DTD PLIST 1.0//EN\" \"http://www.apple.com/DTDs/PropertyList-1.0.dtd\">\n<plist version=\"1.0\">\n<dict>\n    <key>Label</key>\n    <string>com.micround.app</string>\n    <key>ProgramArguments</key>\n    <array>\n        <string>"@
        + exe_path
        + "</string>\n        <string>--minimized</string>\n    </array>\n    <key>RunAtLoad</key>\n    <true/>\n    <key>KeepAlive</key>\n    <false/>\n    <key>ProcessType</key>\n    <string>Interactive</string>\n</dict>\n</plist>\n"@
}

/// The contents of the macOS LaunchAgent property list.
pub fn plist_content(exe_path: &str) -> (r: String)
    ensures
        r@ == plist_text(exe_path@),
{
    let mut s = owned(
        "<?xml version=\"1.0\" encoding=\"UTF-8\"?>\n<!DOCTYPE plist PUBLIC \"-//Apple//DTD PLIST 1.0//EN\" \"http://www.apple.com/DTDs/PropertyList-1.0.dtd\">\n<plist version=\"1.0\">\n<dict>\n    <key>Label</key>\n    <string>com.micround.app</string>\n    <key>ProgramArguments</key>\n    <array>\n        <string>",
    );
    s.append(exe_path);
    s.append("</string>\n        <string>--minimized</string>\n    </array>\n    <key>RunAtLoad</key>\n    <true/>\n    <key>KeepAlive</key>\n    <false/>\n    <key>ProcessType</key>\n    <string>Interactive</string>\n</dict>\n</plist>\n");
    s
}

/// Whether a LaunchAgent property list, if there is one, enables autostart:
/// it does when it runs at load.
pub open spec fn plist_enables(content: Option<Seq<char>>) -> bool {
    match content {
        None => false,
        Some(c) => seq_contains_seq(c, "<key>RunAtLoad</key>"@) && seq_contains_seq(c, "<true/>"@),
    }
}

/// Whether the property list found (none when the file is missing) enables
/// autostart.
pub fn is_enabled_from_plist(content: Option<&str>) -> (r: bool)
    ensures
        r == plist_enables(match content {
            Some(c) => Some(c@),
            None => None,
        }),
{
    match content {
        None => false,
        Some(c) => str_contains(c, "<key>RunAtLoad</key>") && str_contains(c, "<true/>"),
    }
}

} // verus!
