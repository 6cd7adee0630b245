//! Backing up and restoring the user's wallpaper.
//!
//! The user must never lose their wallpaper: it is captured before the live
//! feed starts and restored on exit or after a crash. On Linux this is done
//! with each desktop's settings tool (`gsettings`, `xfconf-query`, ...). The
//! tools are run outside this library; which commands to run, in what order,
//! and how to read their output is decided here.
use vstd::prelude::*;
use crate::app_core::error::PlatformError;
use crate::text::{
    owned, seq_contains_seq, str_contains, strip_prefix, strip_prefix_seq, to_upper, trim, trim_char,
    trim_char_seq, trimmed, uppercase,
};

verus! {

/// A wallpaper configuration.
#[derive(Debug)]
pub struct WallpaperInfo {
    /// The image file (none for a solid colour).
    pub path: Option<String>,
    /// How the image is placed (desktop-specific).
    pub style: Option<String>,
    /// Background colour.
    pub color: Option<String>,
    /// The desktop environment it was read from.
    pub desktop_env: Option<String>,
    /// Per-monitor images: (display, path).
    pub per_monitor: Vec<(String, String)>,
}

impl Default for WallpaperInfo {
    fn default() -> (r: Self)
        ensures
            r.path is None,
            r.style is None,
            r.color is None,
            r.desktop_env is None,
            r.per_monitor@.len() == 0,
    {
        WallpaperInfo { path: None, style: None, color: None, desktop_env: None, per_monitor: Vec::new() }
    }
}

/// Whether a file exists at the path, by `std::path::Path::exists`. It
/// depends on the disk at the moment of the call, so nothing is stated.
#[verifier::external_body]
fn file_exists(path: &str) -> (r: bool) {
    std::path::Path::new(path).exists()
}

impl WallpaperInfo {
    /// A configuration with just an image path.
    pub fn with_path(path: String) -> (r: Self)
        ensures
            r.path == Some(path),
            r.style is None,
            r.color is None,
            r.desktop_env is None,
            r.per_monitor@.len() == 0,
    {
        WallpaperInfo { path: Some(path), style: None, color: None, desktop_env: None, per_monitor: Vec::new() }
    }

    /// Whether it can be restored: its image file exists, or, without an
    /// image, it has a colour. The file is looked up on the disk (see
    /// `is_valid_given` for the decision).
    pub fn is_valid(&self) -> (r: bool)
        ensures
            self.path is None ==> r == self.color is Some,
    {
        let present = match &self.path {
            Some(p) => file_exists(p.as_str()),
            None => false,
        };
        self.is_valid_given(present)
    }

    /// Whether it can be restored, given whether its image file exists: with
    /// an image, exactly when the file exists; without one, when it has a
    /// colour.
    pub fn is_valid_given(&self, file_present: bool) -> (r: bool)
        ensures
            r == valid_wallpaper(*self, file_present),
    {
        match &self.path {
            Some(_) => file_present,
            None => self.color.is_some(),
        }
    }
}

/// Whether a wallpaper can be restored, given whether its image file exists.
pub open spec fn valid_wallpaper(info: WallpaperInfo, file_present: bool) -> bool {
    match info.path {
        Some(_) => file_present,
        None => info.color is Some,
    }
}

/// A command to run: a program and its arguments.
#[derive(Debug)]
pub struct ShellCommand {
    pub program: String,
    pub args: Vec<String>,
}

/// A command as text: the program and the arguments.
pub open spec fn command_view(c: ShellCommand) -> (Seq<char>, Seq<Seq<char>>) {
    (c.program@, c.args@.map_values(|a: String| a@))
}

/// How to restore a wallpaper.
#[derive(Debug)]
pub enum RestorePlan {
    /// Run `required`: if it cannot be started the restore fails with
    /// `CommandFailed("<tool>: <reason>")`, if it fails with
    /// `CommandFailed(failure)`. Then run each of `optional`, whatever
    /// becomes of them.
    Commands { required: ShellCommand, tool: String, failure: String, optional: Vec<ShellCommand> },
    /// Run the candidates in order until one succeeds; when none does, the
    /// restore fails with `Unsupported(failure)`.
    FirstSuccess { candidates: Vec<ShellCommand>, failure: String },
}

/// The Linux desktop families whose settings tools are known.
#[derive(Debug, Clone, Copy, PartialEq, Eq, Structural)]
pub enum DesktopFamily {
    Gnome,
    Kde,
    Xfce,
    Mate,
    Cinnamon,
    Other,
}

/// The desktop family named by an uppercase desktop name, for restoring
/// (KDE has no restore of its own and falls to the generic tools).
pub open spec fn restore_family(de: Seq<char>) -> DesktopFamily {
    if seq_contains_seq(de, "GNOME"@) || seq_contains_seq(de, "UNITY"@) || seq_contains_seq(de, "UBUNTU"@) {
        DesktopFamily::Gnome
    } else if seq_contains_seq(de, "XFCE"@) {
        DesktopFamily::Xfce
    } else if seq_contains_seq(de, "MATE"@) {
        DesktopFamily::Mate
    } else if seq_contains_seq(de, "CINNAMON"@) || seq_contains_seq(de, "X-CINNAMON"@) {
        DesktopFamily::Cinnamon
    } else {
        DesktopFamily::Other
    }
}

/// The desktop family named by an uppercase desktop name, for capturing.
pub open spec fn capture_family(de: Seq<char>) -> DesktopFamily {
    if seq_contains_seq(de, "GNOME"@) || seq_contains_seq(de, "UNITY"@) || seq_contains_seq(de, "UBUNTU"@) {
        DesktopFamily::Gnome
    } else if seq_contains_seq(de, "KDE"@) || seq_contains_seq(de, "PLASMA"@) {
        DesktopFamily::Kde
    } else if seq_contains_seq(de, "XFCE"@) {
        DesktopFamily::Xfce
    } else if seq_contains_seq(de, "MATE"@) {
        DesktopFamily::Mate
    } else if seq_contains_seq(de, "CINNAMON"@) || seq_contains_seq(de, "X-CINNAMON"@) {
        DesktopFamily::Cinnamon
    } else {
        DesktopFamily::Other
    }
}

/// The desktop family to capture the wallpaper from, by the uppercase name
/// of the running desktop.
pub fn capture_method(de_upper: &str) -> (r: DesktopFamily)
    ensures
        r == capture_family(de_upper@),
{
    if str_contains(de_upper, "GNOME") || str_contains(de_upper, "UNITY") || str_contains(de_upper, "UBUNTU") {
        DesktopFamily::Gnome
    } else if str_contains(de_upper, "KDE") || str_contains(de_upper, "PLASMA") {
        DesktopFamily::Kde
    } else if str_contains(de_upper, "XFCE") {
        DesktopFamily::Xfce
    } else if str_contains(de_upper, "MATE") {
        DesktopFamily::Mate
    } else if str_contains(de_upper, "CINNAMON") || str_contains(de_upper, "X-CINNAMON") {
        DesktopFamily::Cinnamon
    } else {
        DesktopFamily::Other
    }
}

fn restore_method(de_upper: &str) -> (r: DesktopFamily)
    ensures
        r == restore_family(de_upper@),
{
    if str_contains(de_upper, "GNOME") || str_contains(de_upper, "UNITY") || str_contains(de_upper, "UBUNTU") {
        DesktopFamily::Gnome
    } else if str_contains(de_upper, "XFCE") {
        DesktopFamily::Xfce
    } else if str_contains(de_upper, "MATE") {
        DesktopFamily::Mate
    } else if str_contains(de_upper, "CINNAMON") || str_contains(de_upper, "X-CINNAMON") {
        DesktopFamily::Cinnamon
    } else {
        DesktopFamily::Other
    }
}

fn command(program: &str, args: Vec<&str>) -> (r: ShellCommand)
    ensures
        r.program@ == program@,
        r.args@.len() == args@.len(),
        forall|i: int| 0 <= i < args@.len() ==> (#[trigger] r.args@[i])@ == args@[i]@,
{
    let mut v: Vec<String> = Vec::new();
    let mut i: usize = 0;
    while i < args.len()
        invariant
            i <= args@.len(),
            v@.len() == i,
            forall|k: int| 0 <= k < i ==> (#[trigger] v@[k])@ == args@[k]@,
        decreases args.len() - i,
    {
        v.push(owned(args[i]));
        i = i + 1;
    }
    ShellCommand { program: owned(program), args: v }
}

/// The text of a `file://` URI for a path.
pub open spec fn file_uri(path: Seq<char>) -> Seq<char> {
    "file://"@ + path
}

/// Whether a command is the program with the given arguments.
pub open spec fn is_command(c: ShellCommand, program: Seq<char>, args: Seq<Seq<char>>) -> bool {
    &&& c.program@ == program
    &&& c.args@.len() == args.len()
    &&& forall|i: int| 0 <= i < args.len() ==> (#[trigger] c.args@[i])@ == args[i]
}

/// The desktop whose wallpaper is restored: the one recorded with it, else
/// the running one, else GNOME.
pub open spec fn restore_desktop(info_de: Option<String>, detected: Option<String>) -> Seq<char> {
    match info_de {
        Some(d) => d@,
        None => match detected {
            Some(d) => d@,
            None => "GNOME"@,
        },
    }
}

/// The message for a wallpaper without an image to restore.
pub open spec fn no_path_text() -> Seq<char> {
    "No wallpaper path to restore"@
}

/// The message for a wallpaper that cannot be restored.
pub open spec fn invalid_wallpaper_text() -> Seq<char> {
    "Cannot restore wallpaper: original file may have been deleted"@
}

/// An optional string as text.
pub open spec fn opt_text(o: Option<String>) -> Option<Seq<char>> {
    match o {
        Some(s) => Some(s@),
        None => None,
    }
}

/// Whether `r` is the restore plan for a wallpaper with this image path,
/// style and colour on the desktop `de`: the desktop's
/// settings commands, or for an unknown desktop the generic tools `feh` and
/// `nitrogen`; a known desktop needs an image.
pub open spec fn plan_matches(
    path: Option<Seq<char>>,
    style: Option<Seq<char>>,
    color: Option<Seq<char>>,
    de: Seq<char>,
    r: Result<RestorePlan, PlatformError>,
) -> bool {
    let fam = restore_family(uppercase(de));
    &&& (fam !is Other && path is None) ==> (r matches Err(PlatformError::InvalidState(m)) && m@ == no_path_text())
    &&& (fam is Gnome && path is Some) ==> (r matches Ok(RestorePlan::Commands { required, tool, failure, optional })
        && is_command(required, "gsettings"@, seq!["set"@, "org.gnome.desktop.background"@, "picture-uri"@, file_uri(path->0)])
        && tool@ == "gsettings"@ && failure@ == "Failed to set GNOME wallpaper"@
        && optional@.len() == 1 + (if style is Some { 1int } else { 0 }) + (if color is Some { 1int } else { 0 })
        && is_command(optional@[0], "gsettings"@, seq!["set"@, "org.gnome.desktop.background"@, "picture-uri-dark"@, file_uri(path->0)])
        && (style matches Some(st) ==> is_command(optional@[1], "gsettings"@, seq!["set"@, "org.gnome.desktop.background"@, "picture-options"@, st]))
        && (color matches Some(c) ==> is_command(optional@[optional@.len() - 1], "gsettings"@, seq!["set"@, "org.gnome.desktop.background"@, "primary-color"@, c])))
    &&& (fam is Xfce && path is Some) ==> (r matches Ok(RestorePlan::Commands { required, tool, failure, optional })
        && is_command(required, "xfconf-query"@, seq!["-c"@, "xfce4-desktop"@, "-p"@, "/backdrop/screen0/monitor0/workspace0/last-image"@, "-s"@, path->0])
        && tool@ == "xfconf-query"@ && failure@ == "Failed to set XFCE wallpaper"@ && optional@.len() == 0)
    &&& (fam is Mate && path is Some) ==> (r matches Ok(RestorePlan::Commands { required, tool, failure, optional })
        && is_command(required, "gsettings"@, seq!["set"@, "org.mate.background"@, "picture-filename"@, path->0])
        && tool@ == "gsettings"@ && failure@ == "Failed to set MATE wallpaper"@ && optional@.len() == 0)
    &&& (fam is Cinnamon && path is Some) ==> (r matches Ok(RestorePlan::Commands { required, tool, failure, optional })
        && is_command(required, "gsettings"@, seq!["set"@, "org.cinnamon.desktop.background"@, "picture-uri"@, file_uri(path->0)])
        && tool@ == "gsettings"@ && failure@ == "Failed to set Cinnamon wallpaper"@ && optional@.len() == 0)
    &&& fam is Other ==> (r matches Ok(RestorePlan::FirstSuccess { candidates, failure })
        && failure@ == "Cannot restore wallpaper for desktop environment: "@ + de
        && (path is None ==> candidates@.len() == 0)
        && (path is Some ==> candidates@.len() == 2
            && is_command(candidates@[0], "feh"@, seq!["--bg-fill"@, path->0])
            && is_command(candidates@[1], "nitrogen"@, seq!["--set-zoom-fill"@, path->0])))
}

/// Plans the restore of a wallpaper that passed validation, for the given
/// desktop (as recorded or detected, not yet uppercased).
fn plan_restore(info: &WallpaperInfo, de: &str) -> (r: Result<RestorePlan, PlatformError>)
    ensures
        plan_matches(opt_text(info.path), opt_text(info.style), opt_text(info.color), de@, r),
{
    let upper = to_upper(de);
    let fam = restore_method(upper.as_str());
    if let DesktopFamily::Other = fam {
        let mut candidates: Vec<ShellCommand> = Vec::new();
        match &info.path {
            Some(p) => {
                candidates.push(command("feh", vec!["--bg-fill", p.as_str()]));
                candidates.push(command("nitrogen", vec!["--set-zoom-fill", p.as_str()]));
            },
            None => {},
        }
        let mut failure = owned("Cannot restore wallpaper for desktop environment: ");
        failure.append(de);
        return Ok(RestorePlan::FirstSuccess { candidates, failure });
    }
    let path = match &info.path {
        Some(p) => p,
        None => {
            return Err(PlatformError::InvalidState(owned("No wallpaper path to restore")));
        },
    };
    let mut uri = owned("file://");
    uri.append(path.as_str());
    match fam {
        DesktopFamily::Gnome => {
            let required = command("gsettings", vec!["set", "org.gnome.desktop.background", "picture-uri", uri.as_str()]);
            let mut optional: Vec<ShellCommand> = Vec::new();
            optional.push(command("gsettings", vec!["set", "org.gnome.desktop.background", "picture-uri-dark", uri.as_str()]));
            match &info.style {
                Some(st) => {
                    optional.push(command("gsettings", vec!["set", "org.gnome.desktop.background", "picture-options", st.as_str()]));
                },
                None => {},
            }
            match &info.color {
                Some(c) => {
                    optional.push(command("gsettings", vec!["set", "org.gnome.desktop.background", "primary-color", c.as_str()]));
                },
                None => {},
            }
            Ok(RestorePlan::Commands {
                required,
                tool: owned("gsettings"),
                failure: owned("Failed to set GNOME wallpaper"),
                optional,
            })
        },
        DesktopFamily::Xfce => {
            let required = command(
                "xfconf-query",
                vec!["-c", "xfce4-desktop", "-p", "/backdrop/screen0/monitor0/workspace0/last-image", "-s", path.as_str()],
            );
            Ok(RestorePlan::Commands {
                required,
                tool: owned("xfconf-query"),
                failure: owned("Failed to set XFCE wallpaper"),
                optional: Vec::new(),
            })
        },
        DesktopFamily::Mate => {
            let required = command("gsettings", vec!["set", "org.mate.background", "picture-filename", path.as_str()]);
            Ok(RestorePlan::Commands {
                required,
                tool: owned("gsettings"),
                failure: owned("Failed to set MATE wallpaper"),
                optional: Vec::new(),
            })
        },
        _ => {
            let required = command("gsettings", vec!["set", "org.cinnamon.desktop.background", "picture-uri", uri.as_str()]);
            Ok(RestorePlan::Commands {
                required,
                tool: owned("gsettings"),
                failure: owned("Failed to set Cinnamon wallpaper"),
                optional: Vec::new(),
            })
        },
    }
}

/// Plans the restore of a wallpaper: one that is not valid (see
/// `WallpaperInfo::is_valid`, which looks up its image file) cannot be
/// restored; otherwise see `restore_wallpaper_given`.
pub fn restore_wallpaper(info: &WallpaperInfo, detected_de: Option<String>) -> (r: Result<RestorePlan, PlatformError>)
    ensures
        info.path is None ==> restore_outcome(*info, detected_de, false, r),
        info.path is Some ==> (restore_outcome(*info, detected_de, true, r) || restore_outcome(*info, detected_de, false, r)),
{
    let present = match &info.path {
        Some(p) => file_exists(p.as_str()),
        None => false,
    };
    restore_wallpaper_given(info, detected_de, present)
}

/// What restoring a wallpaper gives, given whether its image file exists:
/// an invalid wallpaper is refused; otherwise the plan is that of its
/// desktop (recorded with it, else the detected one, else GNOME).
pub open spec fn restore_outcome(
    info: WallpaperInfo,
    detected_de: Option<String>,
    file_present: bool,
    r: Result<RestorePlan, PlatformError>,
) -> bool {
    if !valid_wallpaper(info, file_present) {
        r matches Err(PlatformError::InvalidState(m)) && m@ == invalid_wallpaper_text()
    } else {
        plan_matches(opt_text(info.path), opt_text(info.style), opt_text(info.color), restore_desktop(info.desktop_env, detected_de), r)
    }
}

/// Plans the restore of a wallpaper, given whether its image file exists.
pub fn restore_wallpaper_given(info: &WallpaperInfo, detected_de: Option<String>, file_present: bool) -> (r: Result<RestorePlan, PlatformError>)
    ensures
        restore_outcome(*info, detected_de, file_present, r),
{
    if !info.is_valid_given(file_present) {
        return Err(PlatformError::InvalidState(owned("Cannot restore wallpaper: original file may have been deleted")));
    }
    let de = match &info.desktop_env {
        Some(d) => d.clone(),
        None => match detected_de {
            Some(d) => d,
            None => owned("GNOME"),
        },
    };
    plan_restore(info, de.as_str())
}

/// Plans the restore of the wallpaper image at a path.
pub fn restore_wallpaper_from_path(path: &str, detected_de: Option<String>) -> (r: Result<RestorePlan, PlatformError>)
    ensures
        (r matches Err(PlatformError::InvalidState(m)) && m@ == invalid_wallpaper_text())
            || plan_matches(Some(path@), None, None, restore_desktop(None, detected_de), r),
{
    let info = WallpaperInfo::with_path(owned(path));
    let present = file_exists(path);
    restore_wallpaper_given(&info, detected_de, present)
}

/// The wallpaper path in the output of `gsettings get ... picture-uri`: the
/// trimmed output without its quotes, without `file://` (when the quoted
/// value has no such prefix, the trimmed output as it is); none when empty.
pub open spec fn gnome_uri_path(stdout: Seq<char>) -> Option<Seq<char>> {
    let uri = trimmed(stdout);
    let unquoted = trim_char_seq(trim_char_seq(uri, '\''), '"');
    let path = match strip_prefix_seq(unquoted, "file://"@) {
        Some(p) => p,
        None => uri,
    };
    if path.len() == 0 { None } else { Some(path) }
}

/// A gsettings value: the trimmed output without its single quotes.
pub open spec fn gsettings_value(stdout: Seq<char>) -> Seq<char> {
    trim_char_seq(trimmed(stdout), '\'')
}

fn option_view(o: &Option<String>) -> (r: Option<String>)
    ensures
        r == *o,
{
    match o {
        Some(s) => Some(s.clone()),
        None => None,
    }
}

/// The GNOME wallpaper from the outputs of `gsettings get` for the picture
/// URI and, when those queries succeeded, the picture options and the
/// primary colour.
pub fn gnome_wallpaper_from(uri_out: &str, style_out: Option<&str>, color_out: Option<&str>) -> (r: WallpaperInfo)
    ensures
        match gnome_uri_path(uri_out@) {
            Some(p) => r.path matches Some(q) && q@ == p,
            None => r.path is None,
        },
        match style_out {
            Some(o) => r.style matches Some(q) && q@ == gsettings_value(o@),
            None => r.style is None,
        },
        match color_out {
            Some(o) => r.color matches Some(q) && q@ == gsettings_value(o@),
            None => r.color is None,
        },
        r.desktop_env matches Some(d) && d@ == "GNOME"@,
        r.per_monitor@.len() == 0,
{
    let uri = trim(uri_out);
    let a = trim_char(uri.as_str(), '\'');
    let b = trim_char(a.as_str(), '"');
    let path = match strip_prefix(b.as_str(), "file://") {
        Some(p) => p,
        None => uri.clone(),
    };
    let style = match style_out {
        Some(o) => {
            let t = trim(o);
            Some(trim_char(t.as_str(), '\''))
        },
        None => None,
    };
    let color = match color_out {
        Some(o) => {
            let t = trim(o);
            Some(trim_char(t.as_str(), '\''))
        },
        None => None,
    };
    let n = path.as_str().unicode_len();
    WallpaperInfo {
        path: if n == 0 { None } else { Some(path) },
        style,
        color,
        desktop_env: Some(owned("GNOME")),
        per_monitor: Vec::new(),
    }
}

/// The XFCE wallpaper from the output of `xfconf-query`: the trimmed path.
pub fn xfce_wallpaper_from(stdout: &str) -> (r: WallpaperInfo)
    ensures
        r.path matches Some(p) && p@ == trimmed(stdout@),
        r.style is None,
        r.color is None,
        r.desktop_env matches Some(d) && d@ == "XFCE"@,
{
    WallpaperInfo { path: Some(trim(stdout)), style: None, color: None, desktop_env: Some(owned("XFCE")), per_monitor: Vec::new() }
}

/// The MATE wallpaper from the output of `gsettings get`: the trimmed
/// value without its single quotes.
pub fn mate_wallpaper_from(stdout: &str) -> (r: WallpaperInfo)
    ensures
        r.path matches Some(p) && p@ == gsettings_value(stdout@),
        r.style is None,
        r.color is None,
        r.desktop_env matches Some(d) && d@ == "MATE"@,
{
    let t = trim(stdout);
    WallpaperInfo {
        path: Some(trim_char(t.as_str(), '\'')),
        style: None,
        color: None,
        desktop_env: Some(owned("MATE")),
        per_monitor: Vec::new(),
    }
}

/// The Cinnamon wallpaper path in the output of `gsettings get`: the
/// trimmed output without single quotes and without `file://` (the trimmed
/// output as it is when the prefix is missing).
pub open spec fn cinnamon_uri_path(stdout: Seq<char>) -> Seq<char> {
    let uri = trimmed(stdout);
    match strip_prefix_seq(trim_char_seq(uri, '\''), "file://"@) {
        Some(p) => p,
        None => uri,
    }
}

/// The Cinnamon wallpaper from the output of `gsettings get`.
pub fn cinnamon_wallpaper_from(stdout: &str) -> (r: WallpaperInfo)
    ensures
        r.path matches Some(p) && p@ == cinnamon_uri_path(stdout@),
        r.style is None,
        r.color is None,
        r.desktop_env matches Some(d) && d@ == "CINNAMON"@,
{
    let uri = trim(stdout);
    let a = trim_char(uri.as_str(), '\'');
    let path = match strip_prefix(a.as_str(), "file://") {
        Some(p) => p,
        None => uri.clone(),
    };
    WallpaperInfo { path: Some(path), style: None, color: None, desktop_env: Some(owned("CINNAMON")), per_monitor: Vec::new() }
}

/// The error for capturing on KDE Plasma, which is not supported.
pub fn kde_capture_error() -> (r: PlatformError)
    ensures
        r matches PlatformError::Unsupported(m) && m@ == "KDE Plasma wallpaper capture not yet implemented. Please manually note your wallpaper path before using Micround."@,
{
    PlatformError::Unsupported(owned(
        "KDE Plasma wallpaper capture not yet implemented. Please manually note your wallpaper path before using Micround.",
    ))
}

/// The error for capturing on an unknown desktop when the GNOME fallback
/// failed too.
pub fn unknown_desktop_capture_error(de: &str) -> (r: PlatformError)
    ensures
        r matches PlatformError::Unsupported(m) && m@ == "Wallpaper capture not supported for desktop environment: "@ + de@
            + ". Supported: GNOME, KDE, XFCE, MATE, Cinnamon"@,
{
    let mut m = owned("Wallpaper capture not supported for desktop environment: ");
    m.append(de);
    m.append(". Supported: GNOME, KDE, XFCE, MATE, Cinnamon");
    PlatformError::Unsupported(m)
}

} // verus!
