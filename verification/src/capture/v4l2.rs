//! Video4Linux2 support: what the driver reports becomes capabilities, and
//! what it answers to an open becomes a negotiated format or an error.
//!
//! The driver itself is queried outside this library, which receives the
//! formats, frame sizes and frame intervals that the driver listed, and the
//! text of any error it gave. Frame rates are thousandths of a frame per
//! second, truncated.
use vstd::prelude::*;
use crate::app_core::error::CaptureError;
use crate::app_core::types::{CameraCapability, CaptureSettings, NegotiatedFormat, PixelFormat};
use crate::capture::enumerator::{format_fourcc, format_to_fourcc, fourcc_format, fourcc_to_format};
use crate::capture::negotiation::format_satisfies;
use crate::text::{is_white_space, owned, seq_contains_seq, str_contains, unicode_white_space};

verus! {

/// A frame interval that a driver reports, as a fraction of a second.
#[derive(Debug, Clone, Copy, PartialEq, Eq, Structural)]
pub enum FrameIntervalSpec {
    /// One interval.
    Discrete { numerator: u32, denominator: u32 },
    /// A range of intervals, from `min` to `max`.
    Stepwise { min_numerator: u32, min_denominator: u32, max_numerator: u32, max_denominator: u32 },
}

/// A frame size that a driver reports, with the intervals it supports.
#[derive(Debug)]
pub enum FrameSizeSpec {
    /// One size.
    Discrete { width: u32, height: u32, intervals: Vec<FrameIntervalSpec> },
    /// A range of sizes.
    Stepwise { min_width: u32, max_width: u32, min_height: u32, max_height: u32 },
}

/// A pixel format that a driver reports, with its frame sizes.
#[derive(Debug)]
pub struct FormatSpec {
    /// The format's four-character code.
    pub fourcc: u32,
    /// Its frame sizes.
    pub sizes: Vec<FrameSizeSpec>,
}

/// The common rates tried within a stepwise interval range, in thousandths
/// of a frame per second.
pub open spec fn common_rates() -> Seq<u32> {
    seq![15_000u32, 24_000, 30_000, 60_000]
}

/// Whether a rate (in thousandths) lies in the range a stepwise interval
/// allows: the longest interval gives the lowest rate (1 fps when its
/// numerator is 0), the shortest the highest (60 fps when its numerator is
/// 0).
pub open spec fn rate_in_range(rate_millis: int, min_num: u32, min_den: u32, max_num: u32, max_den: u32) -> bool {
    &&& if max_num > 0 { rate_millis * max_num >= max_den * 1000 } else { rate_millis >= 1000 }
    &&& if min_num > 0 { rate_millis * min_num <= min_den * 1000 } else { rate_millis <= 60_000 }
}

/// A rate in thousandths, capped at the largest that fits.
pub open spec fn clamp_rate(r: int) -> u32 {
    if r > u32::MAX { u32::MAX } else { r as u32 }
}

/// The rates one interval report gives: a discrete interval its rate (none
/// when the numerator is 0; capped at the largest rate that fits), a stepwise range the common rates within it.
pub open spec fn interval_rates(i: FrameIntervalSpec) -> Seq<u32> {
    match i {
        FrameIntervalSpec::Discrete { numerator, denominator } => if numerator > 0 {
            seq![clamp_rate((denominator * 1000) / (numerator as int))]
        } else {
            seq![]
        },
        FrameIntervalSpec::Stepwise { min_numerator, min_denominator, max_numerator, max_denominator } =>
            common_rates().filter(|r: u32| rate_in_range(r as int, min_numerator, min_denominator, max_numerator, max_denominator)),
    }
}

/// The rates of a list of interval reports, in order.
pub open spec fn rates_of(intervals: Seq<FrameIntervalSpec>) -> Seq<u32>
    decreases intervals.len(),
{
    if intervals.len() == 0 {
        seq![]
    } else {
        rates_of(intervals.drop_last()) + interval_rates(intervals.last())
    }
}

fn rate_ok(rate_millis: u32, min_num: u32, min_den: u32, max_num: u32, max_den: u32) -> (r: bool)
    ensures
        r == rate_in_range(rate_millis as int, min_num, min_den, max_num, max_den),
{
    proof {
        assert((rate_millis as u64) * (max_num as u64) <= 0xffff_ffff * 0xffff_ffff) by (nonlinear_arith)
            requires rate_millis <= 0xffff_ffff, max_num <= 0xffff_ffff;
        assert((rate_millis as u64) * (min_num as u64) <= 0xffff_ffff * 0xffff_ffff) by (nonlinear_arith)
            requires rate_millis <= 0xffff_ffff, min_num <= 0xffff_ffff;
    }
    let lo = if max_num > 0 {
        (rate_millis as u64) * (max_num as u64) >= (max_den as u64) * 1000
    } else {
        rate_millis >= 1000
    };
    let hi = if min_num > 0 {
        (rate_millis as u64) * (min_num as u64) <= (min_den as u64) * 1000
    } else {
        rate_millis <= 60_000
    };
    lo && hi
}

/// The rates an interval report gives.
pub fn rates_of_interval(i: &FrameIntervalSpec) -> (r: Vec<u32>)
    ensures
        r@ == interval_rates(*i),
{
    let mut out: Vec<u32> = Vec::new();
    match *i {
        FrameIntervalSpec::Discrete { numerator, denominator } => {
            if numerator > 0 {
                let d = (denominator as u64) * 1000;
                let q = d / (numerator as u64);
                let rate: u32 = if q > 0xffff_ffffu64 { 0xffff_ffffu32 } else { q as u32 };
                out.push(rate);
                assert(out@ =~= interval_rates(*i));
            } else {
                assert(out@ =~= interval_rates(*i));
            }
        },
        FrameIntervalSpec::Stepwise { min_numerator, min_denominator, max_numerator, max_denominator } => {
            let rates: [u32; 4] = [15_000, 24_000, 30_000, 60_000];
            let ghost cr = common_rates();
            assert(rates@ =~= cr);
            let mut k: usize = 0;
            while k < 4
                invariant
                    k <= 4,
                    rates@ == cr,
                    cr == common_rates(),
                    out@ == cr.take(k as int).filter(
                        |r: u32| rate_in_range(r as int, min_numerator, min_denominator, max_numerator, max_denominator),
                    ),
                decreases 4 - k,
            {
                proof {
                    assert(cr.take(k as int + 1).drop_last() =~= cr.take(k as int));
                    reveal(Seq::filter);
                }
                let rate = rates[k];
                if rate_ok(rate, min_numerator, min_denominator, max_numerator, max_denominator) {
                    out.push(rate);
                }
                k = k + 1;
            }
            assert(cr.take(4) =~= cr);
        },
    }
    out
}

/// The rates of a list of interval reports, in order.
pub fn rates_of_intervals(intervals: &Vec<FrameIntervalSpec>) -> (r: Vec<u32>)
    ensures
        r@ == rates_of(intervals@),
{
    let mut out: Vec<u32> = Vec::new();
    let mut i: usize = 0;
    while i < intervals.len()
        invariant
            i <= intervals@.len(),
            out@ == rates_of(intervals@.take(i as int)),
        decreases intervals.len() - i,
    {
        proof {
            assert(intervals@.take(i as int + 1).drop_last() =~= intervals@.take(i as int));
        }
        let mut more = rates_of_interval(&intervals[i]);
        out.append(&mut more);
        i = i + 1;
    }
    assert(intervals@.take(intervals@.len() as int) =~= intervals@);
    out
}

/// A capability of a size at a rate in a format.
pub open spec fn cap(w: u32, h: u32, rate: u32, f: PixelFormat) -> CameraCapability {
    CameraCapability { width: w, height: h, framerate_millis: rate, format: f }
}

/// The common sizes tried within a stepwise size range.
pub open spec fn common_sizes() -> Seq<(u32, u32)> {
    seq![(640u32, 480u32), (1280, 720), (1920, 1080)]
}

/// The capabilities one frame-size report adds to those found so far: a
/// discrete size one per rate, then, when no capability has been found yet
/// or the last one has another width, the size at 30 fps; a stepwise range
/// the common sizes within it at 30 fps.
pub open spec fn add_size(so_far: Seq<CameraCapability>, f: PixelFormat, s: FrameSizeSpec) -> Seq<CameraCapability> {
    match s {
        FrameSizeSpec::Discrete { width, height, intervals } => {
            let with_rates = so_far + rates_of(intervals@).map_values(|r: u32| cap(width, height, r, f));
            if with_rates.len() == 0 || with_rates.last().width != width {
                with_rates.push(cap(width, height, 30_000, f))
            } else {
                with_rates
            }
        },
        FrameSizeSpec::Stepwise { min_width, max_width, min_height, max_height } => so_far + common_sizes().filter(
            |wh: (u32, u32)| min_width <= wh.0 <= max_width && min_height <= wh.1 <= max_height,
        ).map_values(|wh: (u32, u32)| cap(wh.0, wh.1, 30_000, f)),
    }
}

/// The capabilities after the reports of several sizes of one format.
pub open spec fn add_sizes(so_far: Seq<CameraCapability>, f: PixelFormat, sizes: Seq<FrameSizeSpec>) -> Seq<CameraCapability>
    decreases sizes.len(),
{
    if sizes.len() == 0 {
        so_far
    } else {
        add_size(add_sizes(so_far, f, sizes.drop_last()), f, sizes.last())
    }
}

/// The capabilities after the reports of several formats.
pub open spec fn add_formats(so_far: Seq<CameraCapability>, formats: Seq<FormatSpec>) -> Seq<CameraCapability>
    decreases formats.len(),
{
    if formats.len() == 0 {
        so_far
    } else {
        let prev = add_formats(so_far, formats.drop_last());
        add_sizes(prev, fourcc_format(formats.last().fourcc), formats.last().sizes@)
    }
}

fn add_size_exec(caps: &mut Vec<CameraCapability>, f: PixelFormat, s: &FrameSizeSpec)
    ensures
        final(caps)@ == add_size(old(caps)@, f, *s),
{
    match s {
        FrameSizeSpec::Discrete { width, height, intervals } => {
            let rates = rates_of_intervals(intervals);
            let ghost base = caps@;
            let mut k: usize = 0;
            while k < rates.len()
                invariant
                    k <= rates@.len(),
                    caps@ == base + rates@.take(k as int).map_values(|r: u32| cap(*width, *height, r, f)),
                decreases rates.len() - k,
            {
                caps.push(CameraCapability { width: *width, height: *height, framerate_millis: rates[k], format: f });
                proof {
                    assert(rates@.take(k as int + 1).map_values(|r: u32| cap(*width, *height, r, f))
                        =~= rates@.take(k as int).map_values(|r: u32| cap(*width, *height, r, f)).push(cap(*width, *height, rates@[k as int], f)));
                }
                k = k + 1;
            }
            assert(rates@.take(rates@.len() as int) =~= rates@);
            let n = caps.len();
            if n == 0 || caps[n - 1].width != *width {
                caps.push(CameraCapability { width: *width, height: *height, framerate_millis: 30_000, format: f });
            }
        },
        FrameSizeSpec::Stepwise { min_width, max_width, min_height, max_height } => {
            let sizes: [(u32, u32); 3] = [(640, 480), (1280, 720), (1920, 1080)];
            let ghost cs = common_sizes();
            let ghost pred = |wh: (u32, u32)| *min_width <= wh.0 <= *max_width && *min_height <= wh.1 <= *max_height;
            let ghost mk = |wh: (u32, u32)| cap(wh.0, wh.1, 30_000, f);
            assert(sizes@ =~= cs);
            let ghost base = caps@;
            let mut k: usize = 0;
            while k < 3
                invariant
                    k <= 3,
                    sizes@ == cs,
                    cs == common_sizes(),
                    pred == (|wh: (u32, u32)| *min_width <= wh.0 <= *max_width && *min_height <= wh.1 <= *max_height),
                    mk == (|wh: (u32, u32)| cap(wh.0, wh.1, 30_000, f)),
                    caps@ == base + cs.take(k as int).filter(pred).map_values(mk),
                decreases 3 - k,
            {
                let (w, h) = sizes[k];
                if w >= *min_width && w <= *max_width && h >= *min_height && h <= *max_height {
                    caps.push(CameraCapability { width: w, height: h, framerate_millis: 30_000, format: f });
                    proof {
                        reveal(Seq::filter);
                        assert(cs.take(k as int + 1).drop_last() =~= cs.take(k as int));
                        assert(cs.take(k as int + 1).last() == (w, h));
                        assert(pred((w, h)));
                        assert(cs.take(k as int + 1).filter(pred) =~= cs.take(k as int).filter(pred).push((w, h)));
                        assert(cs.take(k as int + 1).filter(pred).map_values(mk)
                            =~= cs.take(k as int).filter(pred).map_values(mk).push(mk((w, h))));
                    }
                } else {
                    proof {
                        reveal(Seq::filter);
                        assert(cs.take(k as int + 1).drop_last() =~= cs.take(k as int));
                        assert(cs.take(k as int + 1).last() == (w, h));
                        assert(!pred((w, h)));
                        assert(cs.take(k as int + 1).filter(pred) =~= cs.take(k as int).filter(pred));
                    }
                }
                k = k + 1;
            }
            assert(cs.take(3) =~= cs);
        },
    }
}

/// The capabilities a device reports: for each format in order, for each of
/// its frame sizes in order, what `add_size` adds; none when that is
/// nothing.
pub fn capabilities_from(formats: &Vec<FormatSpec>) -> (r: Option<Vec<CameraCapability>>)
    ensures
        add_formats(seq![], formats@).len() == 0 ==> r is None,
        add_formats(seq![], formats@).len() > 0 ==> (r matches Some(v) && v@ == add_formats(seq![], formats@)),
{
    let mut caps: Vec<CameraCapability> = Vec::new();
    let mut i: usize = 0;
    while i < formats.len()
        invariant
            i <= formats@.len(),
            caps@ == add_formats(seq![], formats@.take(i as int)),
        decreases formats.len() - i,
    {
        proof {
            assert(formats@.take(i as int + 1).drop_last() =~= formats@.take(i as int));
        }
        let fmt = &formats[i];
        let f = fourcc_to_format(fmt.fourcc);
        let ghost start = caps@;
        let mut j: usize = 0;
        while j < fmt.sizes.len()
            invariant
                j <= fmt.sizes@.len(),
                caps@ == add_sizes(start, f, fmt.sizes@.take(j as int)),
            decreases fmt.sizes.len() - j,
        {
            proof {
                assert(fmt.sizes@.take(j as int + 1).drop_last() =~= fmt.sizes@.take(j as int));
            }
            add_size_exec(&mut caps, f, &fmt.sizes[j]);
            j = j + 1;
        }
        assert(fmt.sizes@.take(fmt.sizes@.len() as int) =~= fmt.sizes@);
        i = i + 1;
    }
    assert(formats@.take(formats@.len() as int) =~= formats@);
    if caps.len() == 0 {
        None
    } else {
        Some(caps)
    }
}

/// The message for a device that cannot be opened for lack of permission:
/// without membership of the `video` group, how to join it; otherwise, how
/// to open up the device.
pub open spec fn permission_denied_text(device_path: Seq<char>, in_video_group: bool) -> Seq<char> {
    if !in_video_group {
        "Permission denied for '"@ + device_path
            + "'. Your user is not in the 'video' group. Run: sudo usermod -a -G video $USER (then log out and back in)"@
    } else {
        "Permission denied for '"@ + device_path + "'. Check device permissions or try: sudo chmod 666 "@ + device_path
    }
}

/// The message for a device that cannot be opened for lack of permission.
pub fn permission_denied_message(device_path: &str, in_video_group: bool) -> (r: String)
    ensures
        r@ == permission_denied_text(device_path@, in_video_group),
{
    let mut s = owned("Permission denied for '");
    s.append(device_path);
    if !in_video_group {
        s.append("'. Your user is not in the 'video' group. Run: sudo usermod -a -G video $USER (then log out and back in)");
    } else {
        s.append("'. Check device permissions or try: sudo chmod 666 ");
        s.append(device_path);
    }
    s
}

/// The capture error for a failed open, by the driver's error text: busy,
/// permission denied, or anything else.
pub open spec fn open_error_kind(err: Seq<char>) -> int {
    if seq_contains_seq(err, "busy"@) || seq_contains_seq(err, "EBUSY"@) {
        0
    } else if seq_contains_seq(err, "permission"@) || seq_contains_seq(err, "EACCES"@) {
        1
    } else {
        2
    }
}

/// The capture error for a device that failed to open with this error text.
pub fn classify_open_error(err: &str, device_path: &str, in_video_group: bool) -> (r: CaptureError)
    ensures
        open_error_kind(err@) == 0 ==> r is DeviceBusy,
        open_error_kind(err@) == 1 ==> (r matches CaptureError::PermissionDenied(m)
            && m@ == permission_denied_text(device_path@, in_video_group)),
        open_error_kind(err@) == 2 ==> (r matches CaptureError::Platform(m) && m@ == "Failed to open device: "@ + err@),
{
    if str_contains(err, "busy") || str_contains(err, "EBUSY") {
        CaptureError::DeviceBusy
    } else if str_contains(err, "permission") || str_contains(err, "EACCES") {
        CaptureError::PermissionDenied(permission_denied_message(device_path, in_video_group))
    } else {
        let mut m = owned("Failed to open device: ");
        m.append(err);
        CaptureError::Platform(m)
    }
}

/// The four-character code to ask the driver for: the negotiated format's,
/// MJPEG for the unknown format.
pub fn fourcc_for(format: PixelFormat) -> (r: u32)
    ensures
        r == match format_fourcc(format) {
            Some(c) => c,
            None => 0x47504A4Du32,
        },
{
    match format_to_fourcc(format) {
        Some(c) => c,
        None => 0x47504A4D,
    }
}

/// The format in effect after the driver set what it accepted: its size and
/// format, the negotiated frame rate (the driver does not always report
/// one), exact when size and (requested) format are the requested ones.
pub fn accepted_format(
    actual_width: u32,
    actual_height: u32,
    actual_fourcc: u32,
    negotiated: &NegotiatedFormat,
    settings: &CaptureSettings,
) -> (r: NegotiatedFormat)
    ensures
        r.width == actual_width,
        r.height == actual_height,
        r.framerate_millis == negotiated.framerate_millis,
        r.format == fourcc_format(actual_fourcc),
        r.exact_match == (actual_width == settings.width && actual_height == settings.height
            && format_satisfies(*settings, CameraCapability {
                width: actual_width,
                height: actual_height,
                framerate_millis: negotiated.framerate_millis,
                format: fourcc_format(actual_fourcc),
            })),
{
    let format = fourcc_to_format(actual_fourcc);
    let format_ok = match settings.format {
        Some(f) => f == format,
        None => true,
    };
    NegotiatedFormat {
        width: actual_width,
        height: actual_height,
        framerate_millis: negotiated.framerate_millis,
        format,
        exact_match: actual_width == settings.width && actual_height == settings.height && format_ok,
    }
}

/// The name of a device without a card name: `Camera (<path>)`.
pub fn fallback_device_name(path: &str) -> (r: String)
    ensures
        r@ == "Camera ("@ + path@ + ")"@,
{
    let mut s = owned("Camera (");
    s.append(path);
    s.append(")");
    s
}

/// Whether the white-space-separated words of `s` include `word`: it
/// occurs with white space (or the end of the text) on either side.
pub open spec fn has_word(s: Seq<char>, word: Seq<char>) -> bool {
    word.len() > 0 && exists|i: int| #![trigger s.subrange(i, i + word.len())]
        0 <= i && i + word.len() <= s.len() && s.subrange(i, i + word.len()) == word
            && (i == 0 || unicode_white_space(s[i - 1]))
            && (i + word.len() == s.len() || unicode_white_space(s[i + word.len()]))
}

/// Whether the output of the `groups` command lists the `video` group.
pub fn groups_include_video(groups_output: &str) -> (r: bool)
    ensures
        r == has_word(groups_output@, "video"@),
{
    let s = crate::text::chars_of(groups_output);
    let w = crate::text::chars_of("video");
    proof {
        reveal_strlit("video");
    }
    let n = s.len();
    let m = w.len();
    if m > n {
        return false;
    }
    let mut i: usize = 0;
    while i <= n - m
        invariant
            s@ == groups_output@,
            w@ == "video"@,
            m == w@.len(),
            m == 5,
            n == s@.len(),
            m <= n,
            i <= n - m + 1,
            forall|k: int| 0 <= k < i ==> !(#[trigger] s@.subrange(k, k + 5) == w@
                && (k == 0 || unicode_white_space(s@[k - 1]))
                && (k + 5 == n || unicode_white_space(s@[k + 5]))),
        decreases n - i,
    {
        let mut j: usize = 0;
        let mut same = true;
        while j < m
            invariant
                s@ == groups_output@,
                m == w@.len(),
                i + m <= n,
                n == s@.len(),
                j <= m,
                same == forall|t: int| 0 <= t < j ==> s@[i + t] == w@[t],
            decreases m - j,
        {
            if s[i + j] != w[j] {
                same = false;
            }
            j = j + 1;
        }
        proof {
            if same {
                assert(s@.subrange(i as int, i + 5) =~= w@);
            } else {
                assert(s@.subrange(i as int, i + 5) != w@) by {
                    let t = choose|t: int| 0 <= t < m && s@[i + t] != w@[t];
                    assert(s@.subrange(i as int, i + 5)[t] != w@[t]);
                }
            }
        }
        let before_ok = i == 0 || is_white_space(s[i - 1]);
        let after_ok = i + m == n || is_white_space(s[i + m]);
        if same && before_ok && after_ok {
            return true;
        }
        i = i + 1;
    }
    false
}

} // verus!
