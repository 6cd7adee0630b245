//! The application's directories.
//!
//! On Linux they follow the XDG base directory conventions:
//!
//! | Purpose | Directory |
//! |---------|-----------|
//! | Config  | `$XDG_CONFIG_HOME/micround` or `~/.config/micround` |
//! | Data    | `$XDG_DATA_HOME/micround` or `~/.local/share/micround` |
//! | Cache   | `$XDG_CACHE_HOME/micround` or `~/.cache/micround` |
//! | Logs    | `$XDG_STATE_HOME/micround/logs` or `~/.local/state/micround/logs` |
//!
//! The environment is read outside this library and handed in as a
//! `PathEnv`.
use vstd::prelude::*;
use crate::app_core::error::ErrorSeverity;
use crate::text::{join_path, owned, path_join};

verus! {

/// The lowercase application name used for directory names.
pub open spec fn app_dir_name() -> Seq<char> {
    "micround"@
}

/// Errors of path operations.
#[derive(Debug)]
pub enum PathError {
    /// The home directory is unknown.
    NoHomeDir,
    /// The directory for a purpose is unknown.
    NoDirFor(String),
    /// A directory could not be created.
    CreateFailed(String),
    /// A path is not valid UTF-8.
    InvalidUtf8,
}

/// The severity of a path error.
pub open spec fn path_severity(e: PathError) -> ErrorSeverity {
    match e {
        PathError::CreateFailed(_) => ErrorSeverity::UserActionable,
        _ => ErrorSeverity::Fatal,
    }
}

/// The user-facing message of a path error.
pub open spec fn path_user_text(e: PathError) -> Seq<char> {
    match e {
        PathError::NoHomeDir => "Unable to find your home directory. Please check your system configuration."@,
        PathError::NoDirFor(p) => "Unable to find the "@ + p@ + " directory. Please check your system configuration."@,
        PathError::CreateFailed(_) => "Unable to create application directory. Please check that you have write permissions."@,
        PathError::InvalidUtf8 => "A file path contains invalid characters. Please use standard characters in directory names."@,
    }
}

/// The text of a path error.
pub open spec fn path_error_text(e: PathError) -> Seq<char> {
    match e {
        PathError::NoHomeDir => "Could not determine home directory"@,
        PathError::NoDirFor(p) => "Could not determine "@ + p@ + " directory"@,
        PathError::CreateFailed(m) => "Failed to create directory: "@ + m@,
        PathError::InvalidUtf8 => "Path is not valid UTF-8"@,
    }
}

impl PathError {
    /// The severity of this error.
    pub fn severity(&self) -> (r: ErrorSeverity)
        ensures
            r == path_severity(*self),
    {
        match self {
            PathError::NoHomeDir | PathError::NoDirFor(_) => ErrorSeverity::Fatal,
            PathError::CreateFailed(_) => ErrorSeverity::UserActionable,
            PathError::InvalidUtf8 => ErrorSeverity::Fatal,
        }
    }

    /// A user-friendly message for this error.
    pub fn user_message(&self) -> (r: String)
        ensures
            r@ == path_user_text(*self),
    {
        match self {
            PathError::NoHomeDir => owned("Unable to find your home directory. Please check your system configuration."),
            PathError::NoDirFor(p) => {
                let mut s = owned("Unable to find the ");
                s.append(p.as_str());
                s.append(" directory. Please check your system configuration.");
                s
            },
            PathError::CreateFailed(_) => owned(
                "Unable to create application directory. Please check that you have write permissions.",
            ),
            PathError::InvalidUtf8 => owned(
                "A file path contains invalid characters. Please use standard characters in directory names.",
            ),
        }
    }

    /// The error as text.
    pub fn to_display_string(&self) -> (r: String)
        ensures
            r@ == path_error_text(*self),
    {
        match self {
            PathError::NoHomeDir => owned("Could not determine home directory"),
            PathError::NoDirFor(p) => {
                let mut s = owned("Could not determine ");
                s.append(p.as_str());
                s.append(" directory");
                s
            },
            PathError::CreateFailed(m) => {
                let mut s = owned("Failed to create directory: ");
                s.append(m.as_str());
                s
            },
            PathError::InvalidUtf8 => owned("Path is not valid UTF-8"),
        }
    }
}

/// The parts of the environment that decide the directories.
#[derive(Debug)]
pub struct PathEnv {
    /// `$XDG_CONFIG_HOME`, when set.
    pub xdg_config_home: Option<String>,
    /// `$XDG_DATA_HOME`, when set.
    pub xdg_data_home: Option<String>,
    /// `$XDG_CACHE_HOME`, when set.
    pub xdg_cache_home: Option<String>,
    /// `$XDG_STATE_HOME`, when set.
    pub xdg_state_home: Option<String>,
    /// The home directory, when known.
    pub home: Option<String>,
}

/// The home directory, `~` when unknown.
pub open spec fn home_base(home: Option<String>) -> Seq<char> {
    match home {
        Some(h) => h@,
        None => "~"@,
    }
}

/// A base directory: the XDG variable when set, otherwise `default_base`.
pub open spec fn xdg_or(var: Option<String>, default_base: Seq<char>) -> Seq<char> {
    match var {
        Some(v) => v@,
        None => default_base,
    }
}

/// The configuration directory of an environment.
pub open spec fn config_dir_spec(env: PathEnv) -> Seq<char> {
    path_join(xdg_or(env.xdg_config_home, path_join(home_base(env.home), ".config"@)), app_dir_name())
}

/// The data directory of an environment.
pub open spec fn data_dir_spec(env: PathEnv) -> Seq<char> {
    path_join(
        xdg_or(env.xdg_data_home, path_join(path_join(home_base(env.home), ".local"@), "share"@)),
        app_dir_name(),
    )
}

/// The cache directory of an environment.
pub open spec fn cache_dir_spec(env: PathEnv) -> Seq<char> {
    path_join(xdg_or(env.xdg_cache_home, path_join(home_base(env.home), ".cache"@)), app_dir_name())
}

/// The logs directory of an environment.
pub open spec fn logs_dir_spec(env: PathEnv) -> Seq<char> {
    path_join(
        path_join(
            xdg_or(env.xdg_state_home, path_join(path_join(home_base(env.home), ".local"@), "state"@)),
            app_dir_name(),
        ),
        "logs"@,
    )
}

/// The application's directories.
#[derive(Debug)]
pub struct AppPaths {
    /// Configuration files.
    pub config: String,
    /// Application data.
    pub data: String,
    /// Cache files.
    pub cache: String,
    /// Log files.
    pub logs: String,
}

fn home_or_tilde(home: &Option<String>) -> (r: String)
    ensures
        r@ == match *home {
            Some(h) => h@,
            None => "~"@,
        },
{
    match home {
        Some(h) => h.clone(),
        None => owned("~"),
    }
}

/// The configuration directory.
pub fn config_dir(env: &PathEnv) -> (r: String)
    ensures
        r@ == config_dir_spec(*env),
{
    let base = match &env.xdg_config_home {
        Some(v) => v.clone(),
        None => {
            let h = home_or_tilde(&env.home);
            join_path(h.as_str(), ".config")
        },
    };
    join_path(base.as_str(), "micround")
}

/// The data directory.
pub fn data_dir(env: &PathEnv) -> (r: String)
    ensures
        r@ == data_dir_spec(*env),
{
    let base = match &env.xdg_data_home {
        Some(v) => v.clone(),
        None => {
            let h = home_or_tilde(&env.home);
            let l = join_path(h.as_str(), ".local");
            join_path(l.as_str(), "share")
        },
    };
    join_path(base.as_str(), "micround")
}

/// The cache directory.
pub fn cache_dir(env: &PathEnv) -> (r: String)
    ensures
        r@ == cache_dir_spec(*env),
{
    let base = match &env.xdg_cache_home {
        Some(v) => v.clone(),
        None => {
            let h = home_or_tilde(&env.home);
            join_path(h.as_str(), ".cache")
        },
    };
    join_path(base.as_str(), "micround")
}

/// The logs directory.
pub fn logs_dir(env: &PathEnv) -> (r: String)
    ensures
        r@ == logs_dir_spec(*env),
{
    let base = match &env.xdg_state_home {
        Some(v) => v.clone(),
        None => {
            let h = home_or_tilde(&env.home);
            let l = join_path(h.as_str(), ".local");
            join_path(l.as_str(), "state")
        },
    };
    let app = join_path(base.as_str(), "micround");
    join_path(app.as_str(), "logs")
}

impl AppPaths {
    /// The directories for this environment (on Linux they can always be
    /// determined).
    pub fn new(env: &PathEnv) -> (r: Result<AppPaths, PathError>)
        ensures
            r matches Ok(p) && p.config@ == config_dir_spec(*env) && p.data@ == data_dir_spec(*env)
                && p.cache@ == cache_dir_spec(*env) && p.logs@ == logs_dir_spec(*env),
    {
        Ok(AppPaths { config: config_dir(env), data: data_dir(env), cache: cache_dir(env), logs: logs_dir(env) })
    }

    /// The configuration file.
    pub fn config_file(&self) -> (r: String)
        ensures
            r@ == path_join(self.config@, "config.toml"@),
    {
        join_path(self.config.as_str(), "config.toml")
    }

    /// The file that remembers the original wallpaper.
    pub fn wallpaper_backup_file(&self) -> (r: String)
        ensures
            r@ == path_join(self.data@, "original_wallpaper.txt"@),
    {
        join_path(self.data.as_str(), "original_wallpaper.txt")
    }

    /// The crash recovery state file.
    pub fn state_file(&self) -> (r: String)
        ensures
            r@ == path_join(self.data@, "state.json"@),
    {
        join_path(self.data.as_str(), "state.json")
    }
}

/// The application's temporary directory under the system's one.
pub fn temp_dir_under(system_temp: &str) -> (r: String)
    ensures
        r@ == path_join(system_temp@, app_dir_name()),
{
    join_path(system_temp, "micround")
}

} // verus!
