//! Application configuration: its values, their validation and repair, and
//! where the file lives.
//!
//! The file is TOML (`config.toml` in the `micround` configuration
//! directory). Reading, writing and parsing it happen outside this library;
//! what a parsed configuration becomes before use is decided here: invalid
//! values are reported and replaced by defaults, and older versions are
//! migrated. Frame rates are thousandths of a frame per second.
use vstd::prelude::*;
use crate::app_core::types::{DeviceId, DisplayId, Flip, Rotation, ScalingMode};
use crate::text::{join_path, owned, path_join};

verus! {

/// Current configuration schema version.
pub const CONFIG_VERSION: u32 = 1;

/// Camera settings.
#[derive(Debug)]
pub struct CameraConfig {
    /// Selected camera (none: the first available one).
    pub device_id: Option<DeviceId>,
    /// Preferred capture width.
    pub width: u32,
    /// Preferred capture height.
    pub height: u32,
    /// Preferred frame rate, in thousandths of a frame per second.
    pub framerate_millis: i64,
}

/// Display settings.
#[derive(Debug)]
pub struct DisplayConfig {
    /// Target display (none: the primary display).
    pub display_id: Option<DisplayId>,
    /// Scaling mode.
    pub scaling_mode: ScalingMode,
    /// Rotation in degrees (0, 90, 180 or 270).
    pub rotation: u32,
    /// Mirror left to right.
    pub flip_horizontal: bool,
    /// Mirror top to bottom.
    pub flip_vertical: bool,
}

/// Startup behaviour.
#[derive(Debug, Clone, Copy, PartialEq, Eq, Structural)]
pub struct StartupConfig {
    /// Launch at system login.
    pub launch_at_login: bool,
    /// Start the camera feed on launch.
    pub auto_start_feed: bool,
    /// Minimise to the tray on startup.
    pub minimize_on_start: bool,
}

/// Internal state kept by the application.
#[derive(Debug)]
pub struct InternalConfig {
    /// The user's original wallpaper, to restore on exit.
    pub original_wallpaper_path: Option<String>,
    /// Whether the last shutdown was clean.
    pub last_clean_shutdown: bool,
    /// The last camera used, for reconnection.
    pub last_camera_id: Option<DeviceId>,
}

/// The whole configuration.
#[derive(Debug)]
pub struct AppConfig {
    /// Schema version, for migrations.
    pub version: u32,
    pub camera: CameraConfig,
    pub display: DisplayConfig,
    pub startup: StartupConfig,
    pub internal: InternalConfig,
}

/// A configuration value that failed validation.
#[derive(Debug)]
pub struct ConfigValidationError {
    pub field: String,
    pub message: String,
}

fn clone_device(d: &Option<DeviceId>) -> (r: Option<DeviceId>)
    ensures
        r == *d,
{
    match d {
        Some(x) => Some(x.clone()),
        None => None,
    }
}

fn clone_text(s: &Option<String>) -> (r: Option<String>)
    ensures
        r == *s,
{
    match s {
        Some(x) => Some(x.clone()),
        None => None,
    }
}

impl Clone for CameraConfig {
    fn clone(&self) -> (r: Self)
        ensures
            r == *self,
    {
        CameraConfig {
            device_id: clone_device(&self.device_id),
            width: self.width,
            height: self.height,
            framerate_millis: self.framerate_millis,
        }
    }
}

impl Clone for DisplayConfig {
    fn clone(&self) -> (r: Self)
        ensures
            r == *self,
    {
        let display_id = match &self.display_id {
            Some(x) => Some(x.clone()),
            None => None,
        };
        DisplayConfig {
            display_id,
            scaling_mode: self.scaling_mode,
            rotation: self.rotation,
            flip_horizontal: self.flip_horizontal,
            flip_vertical: self.flip_vertical,
        }
    }
}

impl Clone for InternalConfig {
    fn clone(&self) -> (r: Self)
        ensures
            r == *self,
    {
        InternalConfig {
            original_wallpaper_path: clone_text(&self.original_wallpaper_path),
            last_clean_shutdown: self.last_clean_shutdown,
            last_camera_id: clone_device(&self.last_camera_id),
        }
    }
}

impl Clone for AppConfig {
    fn clone(&self) -> (r: Self)
        ensures
            r == *self,
    {
        AppConfig {
            version: self.version,
            camera: self.camera.clone(),
            display: self.display.clone(),
            startup: self.startup,
            internal: self.internal.clone(),
        }
    }
}

impl Clone for ConfigValidationError {
    fn clone(&self) -> (r: Self)
        ensures
            r == *self,
    {
        ConfigValidationError { field: self.field.clone(), message: self.message.clone() }
    }
}

impl Default for CameraConfig {
    fn default() -> (r: Self)
        ensures
            r.device_id is None,
            r.width == 1920,
            r.height == 1080,
            r.framerate_millis == 30_000,
    {
        CameraConfig { device_id: None, width: 1920, height: 1080, framerate_millis: 30_000 }
    }
}

impl Default for DisplayConfig {
    fn default() -> (r: Self)
        ensures
            r.display_id is None,
            r.scaling_mode == ScalingMode::Fill,
            r.rotation == 0,
            !r.flip_horizontal,
            !r.flip_vertical,
    {
        DisplayConfig {
            display_id: None,
            scaling_mode: ScalingMode::default(),
            rotation: 0,
            flip_horizontal: false,
            flip_vertical: false,
        }
    }
}

impl Default for StartupConfig {
    fn default() -> (r: Self)
        ensures
            r == (StartupConfig { launch_at_login: false, auto_start_feed: false, minimize_on_start: false }),
    {
        StartupConfig { launch_at_login: false, auto_start_feed: false, minimize_on_start: false }
    }
}

impl Default for InternalConfig {
    fn default() -> (r: Self)
        ensures
            r.original_wallpaper_path is None,
            r.last_clean_shutdown,
            r.last_camera_id is None,
    {
        InternalConfig { original_wallpaper_path: None, last_clean_shutdown: true, last_camera_id: None }
    }
}

/// Whether a configuration holds every default value.
pub open spec fn is_default_config(c: AppConfig) -> bool {
    &&& c.version == CONFIG_VERSION
    &&& c.camera.device_id is None && c.camera.width == 1920 && c.camera.height == 1080
    &&& c.camera.framerate_millis == 30_000
    &&& c.display.display_id is None && c.display.scaling_mode == ScalingMode::Fill
    &&& c.display.rotation == 0 && !c.display.flip_horizontal && !c.display.flip_vertical
    &&& c.startup == (StartupConfig { launch_at_login: false, auto_start_feed: false, minimize_on_start: false })
    &&& c.internal.original_wallpaper_path is None && c.internal.last_clean_shutdown
    &&& c.internal.last_camera_id is None
}

impl Default for AppConfig {
    fn default() -> (r: Self)
        ensures
            is_default_config(r),
    {
        AppConfig {
            version: CONFIG_VERSION,
            camera: CameraConfig::default(),
            display: DisplayConfig::default(),
            startup: StartupConfig::default(),
            internal: InternalConfig::default(),
        }
    }
}

/// Whether a frame rate lies in (0, 240] frames per second.
pub open spec fn framerate_ok(framerate_millis: i64) -> bool {
    0 < framerate_millis <= 240_000
}

/// Whether a rotation is one of the four right angles.
pub open spec fn rotation_ok(rotation: u32) -> bool {
    rotation == 0 || rotation == 90 || rotation == 180 || rotation == 270
}

/// The validation errors of a configuration, as (field, message) pairs, in
/// the order: resolution, frame rate, rotation.
pub open spec fn validation_errors(c: AppConfig) -> Seq<(Seq<char>, Seq<char>)> {
    let e1: Seq<(Seq<char>, Seq<char>)> = if c.camera.width == 0 || c.camera.height == 0 {
        seq![("camera.width/height"@, "Resolution must be non-zero"@)]
    } else {
        seq![]
    };
    let e2: Seq<(Seq<char>, Seq<char>)> = if !framerate_ok(c.camera.framerate_millis) {
        seq![("camera.framerate"@, "Framerate must be a finite number between 0 and 240"@)]
    } else {
        seq![]
    };
    let e3: Seq<(Seq<char>, Seq<char>)> = if !rotation_ok(c.display.rotation) {
        seq![("display.rotation"@, "Rotation must be 0, 90, 180, or 270"@)]
    } else {
        seq![]
    };
    e1 + e2 + e3
}

/// The (field, message) pairs of a list of validation errors.
pub open spec fn error_pairs(v: Seq<ConfigValidationError>) -> Seq<(Seq<char>, Seq<char>)> {
    v.map_values(|e: ConfigValidationError| (e.field@, e.message@))
}

/// The configuration with every invalid value replaced by its default.
pub open spec fn sanitized(c: AppConfig) -> AppConfig {
    AppConfig {
        camera: CameraConfig {
            width: if c.camera.width == 0 { 1920 } else { c.camera.width },
            height: if c.camera.height == 0 { 1080 } else { c.camera.height },
            framerate_millis: if framerate_ok(c.camera.framerate_millis) { c.camera.framerate_millis } else { 30_000 },
            ..c.camera
        },
        display: DisplayConfig {
            rotation: if rotation_ok(c.display.rotation) { c.display.rotation } else { 0 },
            ..c.display
        },
        ..c
    }
}

/// A configuration read from the file, made ready for use: sanitised when
/// it has validation errors, then migrated when its version is older.
pub open spec fn prepared(c: AppConfig) -> AppConfig {
    let s = if validation_errors(c).len() > 0 { sanitized(c) } else { c };
    if s.version < CONFIG_VERSION {
        AppConfig { version: CONFIG_VERSION, ..s }
    } else {
        s
    }
}

fn validation_error(field: &str, message: &str) -> (r: ConfigValidationError)
    ensures
        r.field@ == field@,
        r.message@ == message@,
{
    ConfigValidationError { field: owned(field), message: owned(message) }
}

impl AppConfig {
    /// The validation errors of this configuration.
    pub fn validate(&self) -> (r: Vec<ConfigValidationError>)
        ensures
            error_pairs(r@) == validation_errors(*self),
    {
        let mut errors: Vec<ConfigValidationError> = Vec::new();
        if self.camera.width == 0 || self.camera.height == 0 {
            errors.push(validation_error("camera.width/height", "Resolution must be non-zero"));
        }
        if self.camera.framerate_millis <= 0 || self.camera.framerate_millis > 240_000 {
            errors.push(validation_error("camera.framerate", "Framerate must be a finite number between 0 and 240"));
        }
        let r = self.display.rotation;
        if !(r == 0 || r == 90 || r == 180 || r == 270) {
            errors.push(validation_error("display.rotation", "Rotation must be 0, 90, 180, or 270"));
        }
        assert(error_pairs(errors@) =~= validation_errors(*self));
        errors
    }

    /// Replaces every invalid value by its default.
    pub fn sanitize(&mut self)
        ensures
            *final(self) == sanitized(*old(self)),
    {
        if self.camera.width == 0 {
            self.camera.width = 1920;
        }
        if self.camera.height == 0 {
            self.camera.height = 1080;
        }
        if self.camera.framerate_millis <= 0 || self.camera.framerate_millis > 240_000 {
            self.camera.framerate_millis = 30_000;
        }
        let r = self.display.rotation;
        if !(r == 0 || r == 90 || r == 180 || r == 270) {
            self.display.rotation = 0;
        }
    }
}

/// Brings an older configuration to the current schema version.
pub fn migrate_config(config: AppConfig) -> (r: AppConfig)
    ensures
        r == (AppConfig { version: CONFIG_VERSION, ..config }),
{
    let mut config = config;
    config.version = CONFIG_VERSION;
    config
}

/// Makes a configuration read from the file ready for use, and returns it
/// with the validation errors that were found (for the log).
pub fn prepare_loaded_config(config: AppConfig) -> (r: (AppConfig, Vec<ConfigValidationError>))
    ensures
        r.0 == prepared(config),
        error_pairs(r.1@) == validation_errors(config),
{
    let mut config = config;
    let errors = config.validate();
    if errors.len() > 0 {
        config.sanitize();
    }
    if config.version < CONFIG_VERSION {
        config = migrate_config(config);
    }
    (config, errors)
}

/// A sanitised configuration passes validation, and sanitising it again
/// changes nothing.
pub proof fn lemma_sanitized_is_valid(c: AppConfig)
    ensures
        validation_errors(sanitized(c)).len() == 0,
        sanitized(sanitized(c)) == sanitized(c),
{
    assert(validation_errors(sanitized(c)) =~= Seq::<(Seq<char>, Seq<char>)>::empty());
}

/// A prepared configuration passes validation and has the current version
/// (for versions not newer than the current one).
pub proof fn lemma_prepared_is_valid(c: AppConfig)
    requires
        c.version <= CONFIG_VERSION,
    ensures
        validation_errors(prepared(c)).len() == 0,
        prepared(c).version == CONFIG_VERSION,
{
    lemma_sanitized_is_valid(c);
    let s = if validation_errors(c).len() > 0 { sanitized(c) } else { c };
    assert(validation_errors(AppConfig { version: CONFIG_VERSION, ..s }) =~= validation_errors(s));
}

/// Validation checks each value on its own: a configuration passes exactly
/// when both sides of its resolution are non-zero, its frame rate is above 0
/// and at most 240 frames per second, and its rotation is 0, 90, 180 or 270
/// degrees; a zero side is reported first, as `camera.width/height`.
/// Sanitising a configuration that passes changes nothing, and a loaded
/// configuration, once prepared, always has such values.
pub proof fn lemma_validation_checks_values(c: AppConfig)
    ensures
        validation_errors(c).len() == 0 <==> ({
            &&& c.camera.width > 0
            &&& c.camera.height > 0
            &&& 0 < c.camera.framerate_millis <= 240_000
            &&& (c.display.rotation == 0 || c.display.rotation == 90 || c.display.rotation == 180
                || c.display.rotation == 270)
        }),
        (c.camera.width == 0 || c.camera.height == 0) ==> validation_errors(c).len() > 0
            && validation_errors(c)[0] == ("camera.width/height"@, "Resolution must be non-zero"@),
        validation_errors(c).len() == 0 ==> sanitized(c) == c,
        ({
            let p = prepared(c);
            &&& p.camera.width > 0
            &&& p.camera.height > 0
            &&& 0 < p.camera.framerate_millis <= 240_000
            &&& (p.display.rotation == 0 || p.display.rotation == 90 || p.display.rotation == 180
                || p.display.rotation == 270)
        }),
{
    lemma_sanitized_is_valid(c);
    let s = if validation_errors(c).len() > 0 { sanitized(c) } else { c };
    assert(validation_errors(s).len() == 0);
}

/// The rotation named by a number of degrees; anything but 90, 180 and 270
/// is no rotation.
pub open spec fn rotation_of(degrees: u32) -> Rotation {
    if degrees == 90 {
        Rotation::Clockwise90
    } else if degrees == 180 {
        Rotation::Clockwise180
    } else if degrees == 270 {
        Rotation::Clockwise270
    } else {
        Rotation::NoRotation
    }
}

/// The flip named by the two mirror settings.
pub open spec fn flip_of(horizontal: bool, vertical: bool) -> Flip {
    match (horizontal, vertical) {
        (true, true) => Flip::Both,
        (true, false) => Flip::Horizontal,
        (false, true) => Flip::Vertical,
        (false, false) => Flip::NoFlip,
    }
}

impl DisplayConfig {
    /// The rotation as an enum.
    pub fn rotation_enum(&self) -> (r: Rotation)
        ensures
            r == rotation_of(self.rotation),
    {
        match self.rotation {
            90 => Rotation::Clockwise90,
            180 => Rotation::Clockwise180,
            270 => Rotation::Clockwise270,
            _ => Rotation::NoRotation,
        }
    }

    /// The flips as an enum.
    pub fn flip_enum(&self) -> (r: Flip)
        ensures
            r == flip_of(self.flip_horizontal, self.flip_vertical),
    {
        match (self.flip_horizontal, self.flip_vertical) {
            (true, true) => Flip::Both,
            (true, false) => Flip::Horizontal,
            (false, true) => Flip::Vertical,
            (false, false) => Flip::NoFlip,
        }
    }
}

/// The platform's configuration directory, from `dirs::config_dir`, as a
/// string (lossily, for a path that is not valid UTF-8). It depends on the
/// user and the environment, so nothing is stated of it.
#[verifier::external_body]
fn platform_config_dir() -> (r: Option<String>) {
    dirs::config_dir().map(|p| p.to_string_lossy().into_owned())
}

/// The application's configuration directory under a base directory (the
/// current directory when there is none).
pub open spec fn config_dir_under(base: Option<Seq<char>>) -> Seq<char> {
    path_join(
        match base {
            Some(b) => b,
            None => "."@,
        },
        "micround"@,
    )
}

/// The configuration directory given the platform's configuration
/// directory (when known); see `config_dir_under`.
pub fn config_dir_from(base: Option<String>) -> (r: String)
    ensures
        r@ == config_dir_under(match base {
            Some(b) => Some(b@),
            None => None,
        }),
{
    match base {
        Some(b) => join_path(b.as_str(), "micround"),
        None => join_path(".", "micround"),
    }
}

/// The configuration directory: `micround` in the platform's configuration
/// directory, or in the current directory when there is none.
pub fn config_dir() -> (r: String)
    ensures
        exists|base: Option<Seq<char>>| r@ == config_dir_under(base),
{
    let base = platform_config_dir();
    let ghost b = match &base {
        Some(x) => Some(x@),
        None => None,
    };
    let r = config_dir_from(base);
    assert(r@ == config_dir_under(b));
    r
}

/// The configuration file: `config.toml` in the configuration directory.
pub fn config_path() -> (r: String)
    ensures
        exists|base: Option<Seq<char>>| r@ == path_join(config_dir_under(base), "config.toml"@),
{
    let dir = config_dir();
    join_path(dir.as_str(), "config.toml")
}

/// The backup of a corrupted configuration file: `config.toml.bak` in the
/// configuration directory.
pub fn config_backup_path() -> (r: String)
    ensures
        exists|base: Option<Seq<char>>| r@ == path_join(config_dir_under(base), "config.toml.bak"@),
{
    let dir = config_dir();
    join_path(dir.as_str(), "config.toml.bak")
}

} // verus!
