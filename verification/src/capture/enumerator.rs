//! Camera device enumeration: device events, pixel-format codes and the
//! choice of a capability close to a preferred mode.
use vstd::prelude::*;
use crate::app_core::error::CaptureError;
use crate::app_core::types::{CameraCapability, CameraDevice, DeviceId, PixelFormat};
use crate::capture::negotiation::abs_diff;

verus! {

/// A change in the set of available cameras.
#[derive(Debug)]
pub enum CameraEvent {
    /// A camera was connected.
    Connected(CameraDevice),
    /// A camera was disconnected.
    Disconnected(DeviceId),
    /// A camera's properties changed.
    Changed(DeviceId),
}

/// Discovers and monitors camera devices; implemented per platform.
pub trait CameraEnumerator {
    /// All connected video capture devices.
    fn enumerate(&self) -> Result<Vec<CameraDevice>, CaptureError>;

    /// Information about one device.
    fn get_device(&self, id: &DeviceId) -> Result<CameraDevice, CaptureError>;

    /// The capabilities of one device.
    fn get_capabilities(&self, id: &DeviceId) -> Result<Vec<CameraCapability>, CaptureError>;

    /// Whether a device is available.
    fn is_available(&self, id: &DeviceId) -> bool;

    /// Refreshes the cached device list.
    fn refresh(&mut self) -> Result<(), CaptureError>;

    /// The capability of a device that best matches the preferred mode (see
    /// `best_capability_from`); the frame rate is in thousandths of a frame
    /// per second. A capability too far from the preferred resolution to be
    /// scored gives an error.
    fn best_capability(
        &self,
        id: &DeviceId,
        preferred_width: u32,
        preferred_height: u32,
        preferred_fps_millis: u32,
    ) -> Result<CameraCapability, CaptureError> {
        let caps = self.get_capabilities(id)?;
        if !all_scorable(&caps, preferred_width, preferred_height) {
            return Err(CaptureError::FormatNegotiationFailed(crate::text::owned("Resolution out of range")));
        }
        best_capability_from(&caps, preferred_width, preferred_height, preferred_fps_millis)
    }
}

/// Receives camera hot-plug events.
pub trait CameraEventHandler {
    /// Called for each camera event.
    fn on_camera_event(&mut self, event: CameraEvent);
}

/// The squared Euclidean distance between a capability's resolution and the
/// preferred one.
pub open spec fn resolution_distance(cap: CameraCapability, pref_width: u32, pref_height: u32) -> int {
    let dw = abs_diff(cap.width as int, pref_width as int);
    let dh = abs_diff(cap.height as int, pref_height as int);
    dw * dw + dh * dh
}

/// How far a capability's resolution is from the preferred one: the squared
/// distance between the two. Lower is better.
pub fn resolution_score(cap: &CameraCapability, pref_width: u32, pref_height: u32) -> (r: u64)
    requires
        resolution_distance(*cap, pref_width, pref_height) <= u64::MAX,
    ensures
        r == resolution_distance(*cap, pref_width, pref_height),
{
    let dw: u64 = if cap.width >= pref_width { (cap.width - pref_width) as u64 } else { (pref_width - cap.width) as u64 };
    let dh: u64 = if cap.height >= pref_height { (cap.height - pref_height) as u64 } else { (pref_height - cap.height) as u64 };
    assert(dw * dw <= 0xffff_ffff * 0xffff_ffff) by (nonlinear_arith)
        requires dw <= 0xffff_ffff;
    assert(dh * dh <= 0xffff_ffff * 0xffff_ffff) by (nonlinear_arith)
        requires dh <= 0xffff_ffff;
    assert(dw * dw + dh * dh == resolution_distance(*cap, pref_width, pref_height));
    dw * dw + dh * dh
}

/// Whether every capability's distance from the preferred resolution can be
/// scored.
pub fn all_scorable(caps: &[CameraCapability], pref_width: u32, pref_height: u32) -> (r: bool)
    ensures
        r == forall|j: int| 0 <= j < caps@.len() ==> resolution_distance(#[trigger] caps@[j], pref_width, pref_height) <= u64::MAX,
{
    let mut i: usize = 0;
    while i < caps.len()
        invariant
            i <= caps@.len(),
            forall|j: int| 0 <= j < i ==> resolution_distance(#[trigger] caps@[j], pref_width, pref_height) <= u64::MAX,
        decreases caps.len() - i,
    {
        let c = caps[i];
        let dw: u128 = if c.width >= pref_width { (c.width - pref_width) as u128 } else { (pref_width - c.width) as u128 };
        let dh: u128 = if c.height >= pref_height { (c.height - pref_height) as u128 } else { (pref_height - c.height) as u128 };
        assert(dw * dw <= 0xffff_ffff * 0xffff_ffff) by (nonlinear_arith)
            requires dw <= 0xffff_ffff;
        assert(dh * dh <= 0xffff_ffff * 0xffff_ffff) by (nonlinear_arith)
            requires dh <= 0xffff_ffff;
        assert(dw * dw + dh * dh == resolution_distance(caps@[i as int], pref_width, pref_height));
        if dw * dw + dh * dh > 0xffff_ffff_ffff_ffffu128 {
            return false;
        }
        i = i + 1;
    }
    true
}

/// Whether a capability has the preferred resolution and a frame rate within
/// one frame per second of the preferred one.
pub open spec fn is_preferred_mode(cap: CameraCapability, w: u32, h: u32, fps_millis: u32) -> bool {
    cap.width == w && cap.height == h && abs_diff(cap.framerate_millis as int, fps_millis as int) < 1000
}

/// The message of the error for a device without capabilities.
pub open spec fn no_capabilities_text() -> Seq<char> {
    "No capabilities available"@
}

/// The capability that best matches the preferred mode: the first one in the
/// preferred mode if any, else the first one closest in resolution. A device
/// without capabilities is an error.
pub fn best_capability_from(
    caps: &[CameraCapability],
    preferred_width: u32,
    preferred_height: u32,
    preferred_fps_millis: u32,
) -> (r: Result<CameraCapability, CaptureError>)
    requires
        forall|j: int| 0 <= j < caps@.len() ==> resolution_distance(#[trigger] caps@[j], preferred_width, preferred_height) <= u64::MAX,
    ensures
        caps@.len() == 0 <==> r is Err,
        r matches Err(e) ==> e matches CaptureError::FormatNegotiationFailed(m) && m@ == no_capabilities_text(),
        r matches Ok(c) ==> exists|k: int| 0 <= k < caps@.len() && c == #[trigger] caps@[k] && (
            if exists|j: int| 0 <= j < caps@.len() && is_preferred_mode(#[trigger] caps@[j], preferred_width, preferred_height, preferred_fps_millis) {
                &&& is_preferred_mode(c, preferred_width, preferred_height, preferred_fps_millis)
                &&& forall|j: int| 0 <= j < k ==> !is_preferred_mode(#[trigger] caps@[j], preferred_width, preferred_height, preferred_fps_millis)
            } else {
                &&& forall|j: int| 0 <= j < caps@.len() ==> resolution_distance(c, preferred_width, preferred_height)
                    <= resolution_distance(#[trigger] caps@[j], preferred_width, preferred_height)
                &&& forall|j: int| 0 <= j < k ==> resolution_distance(c, preferred_width, preferred_height)
                    < resolution_distance(#[trigger] caps@[j], preferred_width, preferred_height)
            }
        ),
{
    if caps.len() == 0 {
        return Err(CaptureError::FormatNegotiationFailed(crate::text::owned("No capabilities available")));
    }
    let mut i: usize = 0;
    while i < caps.len()
        invariant
            i <= caps@.len(),
            forall|j: int| 0 <= j < i ==> !is_preferred_mode(#[trigger] caps@[j], preferred_width, preferred_height, preferred_fps_millis),
        decreases caps.len() - i,
    {
        let c = caps[i];
        let fd: u32 = if c.framerate_millis >= preferred_fps_millis {
            c.framerate_millis - preferred_fps_millis
        } else {
            preferred_fps_millis - c.framerate_millis
        };
        if c.width == preferred_width && c.height == preferred_height && fd < 1000 {
            assert(is_preferred_mode(caps@[i as int], preferred_width, preferred_height, preferred_fps_millis));
            return Ok(c);
        }
        i = i + 1;
    }
    let mut best: usize = 0;
    let mut best_score = resolution_score(&caps[0], preferred_width, preferred_height);
    let mut k: usize = 1;
    while k < caps.len()
        invariant
            1 <= k <= caps@.len(),
            best < k,
            forall|j: int| 0 <= j < caps@.len() ==> resolution_distance(#[trigger] caps@[j], preferred_width, preferred_height) <= u64::MAX,
            best_score == resolution_distance(caps@[best as int], preferred_width, preferred_height),
            forall|j: int| 0 <= j < k ==> best_score <= resolution_distance(#[trigger] caps@[j], preferred_width, preferred_height),
            forall|j: int| 0 <= j < best ==> best_score < resolution_distance(#[trigger] caps@[j], preferred_width, preferred_height),
        decreases caps.len() - k,
    {
        let score = resolution_score(&caps[k], preferred_width, preferred_height);
        if score < best_score {
            best = k;
            best_score = score;
        }
        k = k + 1;
    }
    let c = caps[best];
    assert(c == caps@[best as int]);
    Ok(c)
}

/// The pixel format of a four-character code, as V4L2 writes them.
pub open spec fn fourcc_format(fourcc: u32) -> PixelFormat {
    if fourcc == 0x47504A4D || fourcc == 0x4745504A {
        PixelFormat::Mjpeg
    } else if fourcc == 0x56595559 {
        PixelFormat::Yuyv
    } else if fourcc == 0x3231564E {
        PixelFormat::Nv12
    } else if fourcc == 0x33424752 {
        PixelFormat::Rgb24
    } else if fourcc == 0x34424752 {
        PixelFormat::Rgba32
    } else {
        PixelFormat::Unknown
    }
}

/// The four-character code of a pixel format, if it has one.
pub open spec fn format_fourcc(format: PixelFormat) -> Option<u32> {
    match format {
        PixelFormat::Mjpeg => Some(0x47504A4Du32),
        PixelFormat::Yuyv => Some(0x56595559u32),
        PixelFormat::Nv12 => Some(0x3231564Eu32),
        PixelFormat::Rgb24 => Some(0x33424752u32),
        PixelFormat::Rgba32 => Some(0x34424752u32),
        PixelFormat::Unknown => None,
    }
}

/// Converts a V4L2 four-character code to a pixel format.
pub fn fourcc_to_format(fourcc: u32) -> (r: PixelFormat)
    ensures
        r == fourcc_format(fourcc),
{
    if fourcc == 0x47504A4D || fourcc == 0x4745504A {
        PixelFormat::Mjpeg
    } else if fourcc == 0x56595559 {
        PixelFormat::Yuyv
    } else if fourcc == 0x3231564E {
        PixelFormat::Nv12
    } else if fourcc == 0x33424752 {
        PixelFormat::Rgb24
    } else if fourcc == 0x34424752 {
        PixelFormat::Rgba32
    } else {
        PixelFormat::Unknown
    }
}

/// Converts a pixel format to its V4L2 four-character code.
pub fn format_to_fourcc(format: PixelFormat) -> (r: Option<u32>)
    ensures
        r == format_fourcc(format),
{
    match format {
        PixelFormat::Mjpeg => Some(0x47504A4D),
        PixelFormat::Yuyv => Some(0x56595559),
        PixelFormat::Nv12 => Some(0x3231564E),
        PixelFormat::Rgb24 => Some(0x33424752),
        PixelFormat::Rgba32 => Some(0x34424752),
        PixelFormat::Unknown => None,
    }
}

/// Converting a known format to its code and back gives the format again,
/// and only the unknown format has no code.
pub proof fn lemma_fourcc_round_trip(format: PixelFormat)
    ensures
        format_fourcc(format) is None <==> format is Unknown,
        format_fourcc(format) matches Some(code) ==> fourcc_format(code) == format,
{
}

} // verus!
