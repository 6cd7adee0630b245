//! Media Foundation video subtypes and their pixel formats.
//!
//! Media Foundation names a video format by a GUID whose first field is the
//! format's four-character code and whose other fields are the common video
//! subtype suffix.
use vstd::prelude::*;
use crate::app_core::types::PixelFormat;

verus! {

/// A GUID, field by field.
#[derive(Debug, Clone, Copy)]
pub struct Guid {
    pub data1: u32,
    pub data2: u16,
    pub data3: u16,
    pub data4: [u8; 8],
}

/// The video subtype GUID with the given first field.
pub open spec fn subtype_spec(data1: u32) -> Guid {
    Guid { data1, data2: 0x0000, data3: 0x0010, data4: [0x80, 0x00, 0x00, 0xAA, 0x00, 0x38, 0x9B, 0x71] }
}

fn subtype(data1: u32) -> (r: Guid)
    ensures
        r == subtype_spec(data1),
{
    Guid { data1, data2: 0x0000, data3: 0x0010, data4: [0x80, 0x00, 0x00, 0xAA, 0x00, 0x38, 0x9B, 0x71] }
}

/// `MFVideoFormat_NV12`.
pub fn nv12() -> (r: Guid)
    ensures
        r == subtype_spec(0x3231564E),
{
    subtype(0x3231564E)
}

/// `MFVideoFormat_YUY2`.
pub fn yuy2() -> (r: Guid)
    ensures
        r == subtype_spec(0x32595559),
{
    subtype(0x32595559)
}

/// `MFVideoFormat_MJPG`.
pub fn mjpg() -> (r: Guid)
    ensures
        r == subtype_spec(0x47504A4D),
{
    subtype(0x47504A4D)
}

/// `MFVideoFormat_RGB24`.
pub fn rgb24() -> (r: Guid)
    ensures
        r == subtype_spec(0x00000014),
{
    subtype(0x00000014)
}

/// `MFVideoFormat_RGB32`.
pub fn rgb32() -> (r: Guid)
    ensures
        r == subtype_spec(0x00000016),
{
    subtype(0x00000016)
}

/// The pixel format of a video subtype.
pub open spec fn guid_format(g: Guid) -> PixelFormat {
    if g == subtype_spec(0x3231564E) {
        PixelFormat::Nv12
    } else if g == subtype_spec(0x32595559) {
        PixelFormat::Yuyv
    } else if g == subtype_spec(0x47504A4D) {
        PixelFormat::Mjpeg
    } else if g == subtype_spec(0x00000014) {
        PixelFormat::Rgb24
    } else if g == subtype_spec(0x00000016) {
        PixelFormat::Rgba32
    } else {
        PixelFormat::Unknown
    }
}

/// The video subtype of a pixel format (NV12 for the unknown format).
pub open spec fn format_guid(f: PixelFormat) -> Guid {
    match f {
        PixelFormat::Nv12 => subtype_spec(0x3231564E),
        PixelFormat::Yuyv => subtype_spec(0x32595559),
        PixelFormat::Mjpeg => subtype_spec(0x47504A4D),
        PixelFormat::Rgb24 => subtype_spec(0x00000014),
        PixelFormat::Rgba32 => subtype_spec(0x00000016),
        PixelFormat::Unknown => subtype_spec(0x3231564E),
    }
}

fn same_guid(a: &Guid, b: &Guid) -> (r: bool)
    ensures
        r == (*a == *b),
{
    let mut i: usize = 0;
    if a.data1 != b.data1 || a.data2 != b.data2 || a.data3 != b.data3 {
        return false;
    }
    while i < 8
        invariant
            i <= 8,
            forall|k: int| 0 <= k < i ==> a.data4@[k] == b.data4@[k],
        decreases 8 - i,
    {
        if a.data4[i] != b.data4[i] {
            return false;
        }
        i = i + 1;
    }
    assert(a.data4 =~= b.data4);
    true
}

/// The pixel format of a Media Foundation video subtype.
pub fn guid_to_pixel_format(guid: &Guid) -> (r: PixelFormat)
    ensures
        r == guid_format(*guid),
{
    if same_guid(guid, &nv12()) {
        PixelFormat::Nv12
    } else if same_guid(guid, &yuy2()) {
        PixelFormat::Yuyv
    } else if same_guid(guid, &mjpg()) {
        PixelFormat::Mjpeg
    } else if same_guid(guid, &rgb24()) {
        PixelFormat::Rgb24
    } else if same_guid(guid, &rgb32()) {
        PixelFormat::Rgba32
    } else {
        PixelFormat::Unknown
    }
}

/// The Media Foundation video subtype of a pixel format (NV12 for the
/// unknown format).
pub fn pixel_format_to_guid(format: PixelFormat) -> (r: Guid)
    ensures
        r == format_guid(format),
{
    match format {
        PixelFormat::Nv12 => nv12(),
        PixelFormat::Yuyv => yuy2(),
        PixelFormat::Mjpeg => mjpg(),
        PixelFormat::Rgb24 => rgb24(),
        PixelFormat::Rgba32 => rgb32(),
        PixelFormat::Unknown => nv12(),
    }
}

/// A known format's subtype maps back to the format.
pub proof fn lemma_guid_round_trip(f: PixelFormat)
    requires
        !(f is Unknown),
    ensures
        guid_format(format_guid(f)) == f,
{
}

} // verus!
