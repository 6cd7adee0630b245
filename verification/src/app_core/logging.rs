//! Logging setup decisions: where the log files live, when they rotate, and
//! which filter applies by default. Installing the subscriber and moving
//! files happen outside this library.
use vstd::prelude::*;
use crate::text::{decimal_digits, join_path, owned, path_join, u64_to_decimal};

verus! {

/// Size from which the log file is rotated, in bytes.
pub const MAX_LOG_SIZE: u64 = 10485760;

/// Rotated log files kept.
pub const MAX_LOG_FILES: usize = 3;

/// Errors of logging setup.
#[derive(Debug)]
pub enum LoggingError {
    /// The subscriber could not be installed.
    InitError(String),
    /// A log file operation failed.
    IoError(String),
}

/// The text of a logging error.
pub open spec fn logging_error_text(e: LoggingError) -> Seq<char> {
    match e {
        LoggingError::InitError(m) => "Failed to initialize logging: "@ + m@,
        LoggingError::IoError(m) => "IO error: "@ + m@,
    }
}

impl LoggingError {
    /// The error as text.
    pub fn to_display_string(&self) -> (r: String)
        ensures
            r@ == logging_error_text(*self),
    {
        let (prefix, m) = match self {
            LoggingError::InitError(m) => ("Failed to initialize logging: ", m),
            LoggingError::IoError(m) => ("IO error: ", m),
        };
        let mut s = owned(prefix);
        s.append(m.as_str());
        s
    }
}

/// Log levels.
#[derive(Debug, Clone, Copy, PartialEq, Eq, Structural)]
pub enum LogLevel {
    Trace,
    Debug,
    Info,
    Warn,
    Error,
}

/// The default filter: the application at the chosen level (info when
/// none), dependencies at warn (at error when the level is error).
pub open spec fn default_directive_text(level: Option<LogLevel>) -> Seq<char> {
    match level {
        Some(LogLevel::Trace) => "micround=trace,warn"@,
        Some(LogLevel::Debug) => "micround=debug,warn"@,
        Some(LogLevel::Info) => "micround=info,warn"@,
        Some(LogLevel::Warn) => "micround=warn,warn"@,
        Some(LogLevel::Error) => "micround=error,error"@,
        None => "micround=info,warn"@,
    }
}

/// The default log filter for a level.
pub fn default_directive(level: Option<LogLevel>) -> (r: &'static str)
    ensures
        r@ == default_directive_text(level),
{
    match level {
        Some(LogLevel::Trace) => "micround=trace,warn",
        Some(LogLevel::Debug) => "micround=debug,warn",
        Some(LogLevel::Info) => "micround=info,warn",
        Some(LogLevel::Warn) => "micround=warn,warn",
        Some(LogLevel::Error) => "micround=error,error",
        None => "micround=info,warn",
    }
}

/// The platform's data directory, from `dirs::data_dir`, as a string
/// (lossily for a path that is not valid UTF-8). It depends on the user and
/// the environment, so nothing is stated of it.
#[verifier::external_body]
fn platform_data_dir() -> (r: Option<String>) {
    dirs::data_dir().map(|p| p.to_string_lossy().into_owned())
}

/// The home directory, from `dirs::home_dir`, as a string (lossily). It
/// depends on the user and the environment, so nothing is stated of it.
#[verifier::external_body]
fn platform_home_dir() -> (r: Option<String>) {
    dirs::home_dir().map(|p| p.to_string_lossy().into_owned())
}

/// The log directory under a data directory (or, without one, under
/// `.local/share` in the home directory, or in the current directory).
pub open spec fn log_dir_under(data: Option<Seq<char>>, home: Option<Seq<char>>) -> Seq<char> {
    let base = match data {
        Some(d) => d,
        None => path_join(path_join(match home {
            Some(h) => h,
            None => "."@,
        }, ".local"@), "share"@),
    };
    path_join(path_join(base, "Micround"@), "logs"@)
}

/// The log directory given the platform's data directory and the home
/// directory (each when known); see `log_dir_under`.
pub fn log_dir_from(data: Option<String>, home: Option<String>) -> (r: String)
    ensures
        r@ == log_dir_under(
            match data {
                Some(d) => Some(d@),
                None => None,
            },
            match home {
                Some(h) => Some(h@),
                None => None,
            },
        ),
{
    let base = match data {
        Some(d) => d,
        None => {
            let h = match home {
                Some(h) => h,
                None => owned("."),
            };
            let l = join_path(h.as_str(), ".local");
            join_path(l.as_str(), "share")
        },
    };
    let m = join_path(base.as_str(), "Micround");
    join_path(m.as_str(), "logs")
}

/// The log directory: `Micround/logs` in the platform's data directory.
pub fn log_directory() -> (r: String)
    ensures
        exists|data: Option<Seq<char>>, home: Option<Seq<char>>| r@ == log_dir_under(data, home),
{
    let data = platform_data_dir();
    let ghost d = match &data {
        Some(x) => Some(x@),
        None => None,
    };
    let home = match &data {
        Some(_) => None,
        None => platform_home_dir(),
    };
    let ghost h = match &home {
        Some(x) => Some(x@),
        None => None,
    };
    let r = log_dir_from(data, home);
    assert(r@ == log_dir_under(d, h));
    r
}

/// Whether a log file of this size is rotated before logging starts.
pub fn needs_rotation(size: u64) -> (r: bool)
    ensures
        r == (size >= MAX_LOG_SIZE),
{
    size >= MAX_LOG_SIZE
}

/// The name of the `n`th rotated log file (`micround.log.<n>`).
pub open spec fn rotated_name(n: nat) -> Seq<char> {
    "micround.log."@ + decimal_digits(n)
}

/// The name of the `n`th rotated log file.
pub fn rotated_log_name(n: u64) -> (r: String)
    ensures
        r@ == rotated_name(n as nat),
{
    let mut s = owned("micround.log.");
    let d = u64_to_decimal(n);
    s.append(d.as_str());
    s
}

/// The renames of a rotation, in order: each kept file moves one place up,
/// the newest first moving the oldest (`.2` to `.3`, then `.1` to `.2`),
/// then the current log becomes `.1`.
pub fn rotation_renames() -> (r: Vec<(String, String)>)
    ensures
        r@.len() == MAX_LOG_FILES,
        forall|i: int| 0 <= i < MAX_LOG_FILES - 1 ==> (#[trigger] r@[i]).0@ == rotated_name((MAX_LOG_FILES - 1 - i) as nat)
            && r@[i].1@ == rotated_name((MAX_LOG_FILES - i) as nat),
        r@[MAX_LOG_FILES - 1].0@ == "micround.log"@,
        r@[MAX_LOG_FILES - 1].1@ == rotated_name(1),
{
    let mut v: Vec<(String, String)> = Vec::new();
    let mut i: u64 = (MAX_LOG_FILES - 1) as u64;
    while i >= 1
        invariant
            1 <= MAX_LOG_FILES,
            i <= MAX_LOG_FILES - 1,
            v@.len() == MAX_LOG_FILES - 1 - i,
            forall|k: int| 0 <= k < v@.len() ==> (#[trigger] v@[k]).0@ == rotated_name((MAX_LOG_FILES - 1 - k) as nat)
                && v@[k].1@ == rotated_name((MAX_LOG_FILES - k) as nat),
        decreases i,
    {
        let from = rotated_log_name(i);
        let to = rotated_log_name(i + 1);
        v.push((from, to));
        i = i - 1;
    }
    let cur = owned("micround.log");
    let first = rotated_log_name(1);
    v.push((cur, first));
    v
}

/// The rotated file deleted after a rotation: the one past the last kept.
pub fn oldest_log_name() -> (r: String)
    ensures
        r@ == rotated_name((MAX_LOG_FILES + 1) as nat),
{
    rotated_log_name((MAX_LOG_FILES + 1) as u64)
}

} // verus!
