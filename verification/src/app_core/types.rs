//! Core type definitions shared by every subsystem.
//!
//! Frame rates are held as whole thousandths of a frame per second
//! (`framerate_millis`), so that 30 fps is `30_000`.
use vstd::prelude::*;

verus! {

/// Unique identifier for a camera device.
#[derive(Debug, PartialEq, Eq, Hash)]
pub struct DeviceId(pub String);

impl Clone for DeviceId {
    fn clone(&self) -> (r: Self)
        ensures
            r == *self,
    {
        DeviceId(self.0.clone())
    }
}

impl DeviceId {
    /// Whether two identifiers name the same device.
    pub fn same_as(&self, other: &DeviceId) -> (r: bool)
        ensures
            r == (self.0@ == other.0@),
    {
        self.0 == other.0
    }
}

/// Supported pixel formats.
#[derive(Debug, Clone, Copy, PartialEq, Eq, Structural)]
pub enum PixelFormat {
    /// Motion JPEG.
    Mjpeg,
    /// YUV 4:2:2 packed.
    Yuyv,
    /// Y plane followed by interleaved UV.
    Nv12,
    /// RGB, 24 bits per pixel.
    Rgb24,
    /// RGBA, 32 bits per pixel.
    Rgba32,
    /// Unknown or unsupported.
    Unknown,
}

/// A capture capability: resolution, frame rate and pixel format.
#[derive(Debug, Clone, Copy, PartialEq, Eq, Structural)]
pub struct CameraCapability {
    pub width: u32,
    pub height: u32,
    /// Frame rate in thousandths of a frame per second.
    pub framerate_millis: u32,
    pub format: PixelFormat,
}

/// Information about a camera device.
#[derive(Debug)]
pub struct CameraDevice {
    /// Identifier that persists across reconnects.
    pub id: DeviceId,
    /// Human-readable name.
    pub name: String,
    /// Manufacturer, when known.
    pub manufacturer: Option<String>,
    /// Supported capabilities.
    pub capabilities: Vec<CameraCapability>,
    /// Whether the device is currently available.
    pub is_available: bool,
}

impl Clone for CameraDevice {
    fn clone(&self) -> (r: Self)
        ensures
            r.id == self.id,
            r.name@ == self.name@,
            r.manufacturer == self.manufacturer,
            r.capabilities@ == self.capabilities@,
            r.is_available == self.is_available,
    {
        let manufacturer = match &self.manufacturer {
            Some(m) => Some(m.clone()),
            None => None,
        };
        let mut caps: Vec<CameraCapability> = Vec::new();
        let mut i: usize = 0;
        while i < self.capabilities.len()
            invariant
                i <= self.capabilities.len(),
                caps@ == self.capabilities@.subrange(0, i as int),
            decreases self.capabilities.len() - i,
        {
            caps.push(self.capabilities[i]);
            i = i + 1;
        }
        assert(caps@ =~= self.capabilities@);
        CameraDevice {
            id: self.id.clone(),
            name: self.name.clone(),
            manufacturer,
            capabilities: caps,
            is_available: self.is_available,
        }
    }
}

/// Whether two devices hold the same values (what a clone keeps).
pub open spec fn same_device(a: CameraDevice, b: CameraDevice) -> bool {
    &&& a.id == b.id
    &&& a.name@ == b.name@
    &&& a.manufacturer == b.manufacturer
    &&& a.capabilities@ == b.capabilities@
    &&& a.is_available == b.is_available
}

/// Requested capture settings.
#[derive(Debug, Clone, Copy, PartialEq, Eq, Structural)]
pub struct CaptureSettings {
    pub width: u32,
    pub height: u32,
    /// Frame rate in thousandths of a frame per second.
    pub framerate_millis: u32,
    /// Requested pixel format, if any.
    pub format: Option<PixelFormat>,
}

impl CaptureSettings {
    /// The default settings: 1920x1080 at 30 fps, any format.
    pub open spec fn default_spec() -> CaptureSettings {
        CaptureSettings { width: 1920, height: 1080, framerate_millis: 30_000, format: None }
    }
}

impl Default for CaptureSettings {
    fn default() -> (r: Self)
        ensures
            r == CaptureSettings::default_spec(),
    {
        CaptureSettings { width: 1920, height: 1080, framerate_millis: 30_000, format: None }
    }
}

/// A single captured frame.
#[derive(Debug)]
pub struct Frame {
    /// Raw pixel data.
    pub data: Vec<u8>,
    /// Pixel format of the data.
    pub format: PixelFormat,
    /// Width in pixels.
    pub width: u32,
    /// Height in pixels.
    pub height: u32,
    /// Monotonic timestamp in nanoseconds.
    pub timestamp_ns: u64,
    /// Sequence number, for drop detection.
    pub sequence: u64,
}

/// Display identifier.
#[derive(Debug, PartialEq, Eq, Hash)]
pub struct DisplayId(pub String);

impl Clone for DisplayId {
    fn clone(&self) -> (r: Self)
        ensures
            r == *self,
    {
        DisplayId(self.0.clone())
    }
}

/// How the camera feed is fitted to the display.
#[derive(Debug, Clone, Copy, PartialEq, Eq, Structural)]
pub enum ScalingMode {
    /// Fit inside, keeping the aspect ratio.
    Fit,
    /// Fill the display, keeping the aspect ratio (may crop).
    Fill,
    /// Stretch to the display's dimensions.
    Stretch,
    /// Native resolution, centred.
    Center,
}

impl Default for ScalingMode {
    fn default() -> (r: Self)
        ensures
            r == ScalingMode::Fill,
    {
        ScalingMode::Fill
    }
}

/// Rotation angle.
#[derive(Debug, Clone, Copy, PartialEq, Eq, Structural)]
pub enum Rotation {
    /// No rotation.
    NoRotation,
    Clockwise90,
    Clockwise180,
    Clockwise270,
}

impl Default for Rotation {
    fn default() -> (r: Self)
        ensures
            r == Rotation::NoRotation,
    {
        Rotation::NoRotation
    }
}

/// Flip direction.
#[derive(Debug, Clone, Copy, PartialEq, Eq, Structural)]
pub enum Flip {
    /// No flip.
    NoFlip,
    Horizontal,
    Vertical,
    Both,
}

impl Default for Flip {
    fn default() -> (r: Self)
        ensures
            r == Flip::NoFlip,
    {
        Flip::NoFlip
    }
}

/// The format actually negotiated with a camera.
#[derive(Debug, Clone, Copy, PartialEq, Eq, Structural)]
pub struct NegotiatedFormat {
    pub width: u32,
    pub height: u32,
    /// Frame rate in thousandths of a frame per second.
    pub framerate_millis: u32,
    pub format: PixelFormat,
    /// Whether this matched the request exactly.
    pub exact_match: bool,
}

impl NegotiatedFormat {
    /// The negotiated format that a capability stands for.
    pub fn from_capability(cap: &CameraCapability, exact_match: bool) -> (r: Self)
        ensures
            r.width == cap.width,
            r.height == cap.height,
            r.framerate_millis == cap.framerate_millis,
            r.format == cap.format,
            r.exact_match == exact_match,
    {
        NegotiatedFormat {
            width: cap.width,
            height: cap.height,
            framerate_millis: cap.framerate_millis,
            format: cap.format,
            exact_match,
        }
    }

    /// Whether the resolution equals the given one.
    pub fn resolution_matches(&self, width: u32, height: u32) -> (r: bool)
        ensures
            r == (self.width == width && self.height == height),
    {
        self.width == width && self.height == height
    }
}

} // verus!
