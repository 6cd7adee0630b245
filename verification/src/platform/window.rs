//! Desktop-level windows: the window behind the desktop icons in which the
//! camera feed is drawn.
use vstd::prelude::*;
use crate::platform::display::{DisplayHandle, Rect, Size};
use crate::text::{decimal_digits, owned, u64_to_decimal};

verus! {

/// Handle of a desktop window.
#[derive(Debug, Clone, Copy, PartialEq, Eq, Hash, Structural)]
pub struct WindowHandle(pub u64);

impl WindowHandle {
    /// The handle of a platform window identifier.
    pub fn new(id: u64) -> (r: Self)
        ensures
            r.0 == id,
    {
        WindowHandle(id)
    }

    /// The platform identifier.
    pub fn raw(&self) -> (r: u64)
        ensures
            r == self.0,
    {
        self.0
    }
}

/// How to create a desktop window.
#[derive(Debug)]
pub struct WindowConfig {
    /// The display to cover.
    pub display: DisplayHandle,
    /// Initial bounds (none: the whole display).
    pub bounds: Option<Rect>,
    /// Window title.
    pub title: String,
    /// Whether the window is shown at once.
    pub visible: bool,
}

impl Clone for WindowConfig {
    fn clone(&self) -> (r: Self)
        ensures
            r == *self,
    {
        WindowConfig { display: self.display, bounds: self.bounds, title: self.title.clone(), visible: self.visible }
    }
}

impl WindowConfig {
    /// A visible window titled `Micround` covering a display.
    pub fn new(display: DisplayHandle) -> (r: Self)
        ensures
            r.display == display,
            r.bounds is None,
            r.title@ == "Micround"@,
            r.visible,
    {
        WindowConfig { display, bounds: None, title: owned("Micround"), visible: true }
    }

    /// The same configuration with the given bounds.
    pub fn with_bounds(self, bounds: Rect) -> (r: Self)
        ensures
            r == (WindowConfig { bounds: Some(bounds), ..self }),
    {
        WindowConfig { bounds: Some(bounds), ..self }
    }

    /// The same configuration with the given title.
    pub fn with_title(self, title: &str) -> (r: Self)
        ensures
            r.title@ == title@,
            r.display == self.display,
            r.bounds == self.bounds,
            r.visible == self.visible,
    {
        WindowConfig { title: owned(title), ..self }
    }

    /// The same configuration, initially hidden.
    pub fn hidden(self) -> (r: Self)
        ensures
            r == (WindowConfig { visible: false, ..self }),
    {
        WindowConfig { visible: false, ..self }
    }
}

/// Pixel format of a render surface.
#[derive(Debug, Clone, Copy, PartialEq, Eq, Structural)]
pub enum SurfaceFormat {
    /// 8-bit BGRA.
    Bgra8,
    /// 8-bit RGBA.
    Rgba8,
    /// 8-bit RGB, no alpha.
    Rgb8,
}

/// Bytes per pixel of a surface format.
pub open spec fn format_bytes(f: SurfaceFormat) -> usize {
    match f {
        SurfaceFormat::Bgra8 | SurfaceFormat::Rgba8 => 4,
        SurfaceFormat::Rgb8 => 3,
    }
}

impl SurfaceFormat {
    /// Bytes per pixel.
    pub fn bytes_per_pixel(&self) -> (r: usize)
        ensures
            r == format_bytes(*self),
    {
        match self {
            SurfaceFormat::Bgra8 | SurfaceFormat::Rgba8 => 4,
            SurfaceFormat::Rgb8 => 3,
        }
    }
}

/// A render surface.
#[derive(Debug, Clone, Copy, PartialEq, Eq, Structural)]
pub struct SurfaceInfo {
    /// Size in pixels.
    pub size: Size,
    /// Pixel format.
    pub format: SurfaceFormat,
    /// Bytes per row, padding included.
    pub stride: usize,
}

impl SurfaceInfo {
    /// The size of a full frame buffer: stride times height.
    pub fn buffer_size(&self) -> (r: usize)
        requires
            self.stride * self.size.height <= usize::MAX,
        ensures
            r == self.stride * self.size.height,
    {
        self.stride * (self.size.height as usize)
    }
}

/// Errors of window operations.
#[derive(Debug)]
pub enum WindowError {
    /// The window could not be created.
    CreationFailed(String),
    /// No such window.
    NotFound,
    /// The render surface is not available.
    SurfaceError(String),
    /// Pixel data of the wrong size.
    InvalidData { expected: usize, actual: usize },
    /// The window is hidden.
    NotVisible,
    /// A platform call failed.
    Platform(String),
}

/// The text of a window error.
pub open spec fn window_error_text(e: WindowError) -> Seq<char> {
    match e {
        WindowError::CreationFailed(m) => "Failed to create window: "@ + m@,
        WindowError::NotFound => "Window not found"@,
        WindowError::SurfaceError(m) => "Failed to get render surface: "@ + m@,
        WindowError::InvalidData { expected, actual } => "Invalid pixel data: expected "@
            + decimal_digits(expected as nat) + " bytes, got "@ + decimal_digits(actual as nat),
        WindowError::NotVisible => "Window is not visible"@,
        WindowError::Platform(m) => "Platform error: "@ + m@,
    }
}

fn prefixed(prefix: &str, m: &String) -> (r: String)
    ensures
        r@ == prefix@ + m@,
{
    let mut s = owned(prefix);
    s.append(m.as_str());
    s
}

impl WindowError {
    /// The error as text.
    pub fn to_display_string(&self) -> (r: String)
        ensures
            r@ == window_error_text(*self),
    {
        match self {
            WindowError::CreationFailed(m) => prefixed("Failed to create window: ", m),
            WindowError::NotFound => owned("Window not found"),
            WindowError::SurfaceError(m) => prefixed("Failed to get render surface: ", m),
            WindowError::InvalidData { expected, actual } => {
                let mut s = owned("Invalid pixel data: expected ");
                let e = u64_to_decimal(*expected as u64);
                s.append(e.as_str());
                s.append(" bytes, got ");
                let a = u64_to_decimal(*actual as u64);
                s.append(a.as_str());
                s
            },
            WindowError::NotVisible => owned("Window is not visible"),
            WindowError::Platform(m) => prefixed("Platform error: ", m),
        }
    }
}

/// Creates and manages desktop-level windows; implemented per platform.
pub trait DesktopWindow {
    /// Creates a window.
    fn create(&mut self, config: WindowConfig) -> Result<WindowHandle, WindowError>;

    /// Destroys a window.
    fn destroy(&mut self, handle: &WindowHandle) -> Result<(), WindowError>;

    /// Shows or hides a window.
    fn set_visible(&mut self, handle: &WindowHandle, visible: bool) -> Result<(), WindowError>;

    /// Moves or resizes a window.
    fn set_bounds(&mut self, handle: &WindowHandle, bounds: Rect) -> Result<(), WindowError>;

    /// A window's bounds.
    fn get_bounds(&self, handle: &WindowHandle) -> Result<Rect, WindowError>;

    /// A window's render surface.
    fn surface_info(&self, handle: &WindowHandle) -> Result<SurfaceInfo, WindowError>;

    /// Draws pixel data matching the surface into a window.
    fn present(&mut self, handle: &WindowHandle, data: &[u8]) -> Result<(), WindowError>;

    /// Whether a window is shown.
    fn is_visible(&self, handle: &WindowHandle) -> Result<bool, WindowError>;

    /// Forces a redraw.
    fn invalidate(&mut self, handle: &WindowHandle) -> Result<(), WindowError>;
}

} // verus!
