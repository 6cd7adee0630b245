//! Format negotiation for camera streams.
//!
//! Picks the best available capture format when the exact requested settings
//! are not available. Candidates are ranked, in this order, by: exact
//! resolution, exact format (when one was requested), pixel-format priority,
//! closeness in total pixels, and closeness in frame rate. Among equally good
//! candidates the first one listed wins.
use vstd::prelude::*;
use crate::app_core::types::{CameraCapability, CaptureSettings, NegotiatedFormat, PixelFormat};

verus! {

/// Priority of a pixel format; lower is better. MJPEG comes first because it
/// can be decoded in hardware.
pub open spec fn format_rank(format: PixelFormat) -> u32 {
    match format {
        PixelFormat::Mjpeg => 0,
        PixelFormat::Yuyv => 1,
        PixelFormat::Nv12 => 2,
        PixelFormat::Rgb24 => 3,
        PixelFormat::Rgba32 => 4,
        PixelFormat::Unknown => 99,
    }
}

/// Priority of a pixel format; lower is better.
pub fn format_priority(format: PixelFormat) -> (r: u32)
    ensures
        r == format_rank(format),
{
    match format {
        PixelFormat::Mjpeg => 0,
        PixelFormat::Yuyv => 1,
        PixelFormat::Nv12 => 2,
        PixelFormat::Rgb24 => 3,
        PixelFormat::Rgba32 => 4,
        PixelFormat::Unknown => 99,
    }
}

/// How well a capability matches the requested settings.
#[derive(Debug, Clone, Copy, PartialEq, Eq, Structural)]
pub struct MatchScore {
    /// The resolution is exactly the requested one.
    pub exact_resolution: bool,
    /// The format is the requested one (or none was requested).
    pub exact_format: bool,
    /// Difference in total pixels.
    pub pixel_diff: u64,
    /// Priority of the format.
    pub format_priority: u32,
    /// Difference in frame rate, in thousandths of a frame per second.
    pub fps_diff: u32,
}

/// Absolute difference of two integers.
pub open spec fn abs_diff(a: int, b: int) -> int {
    if a >= b { a - b } else { b - a }
}

/// Whether the capability's format satisfies the request.
pub open spec fn format_satisfies(settings: CaptureSettings, cap: CameraCapability) -> bool {
    match settings.format {
        Some(f) => f == cap.format,
        None => true,
    }
}

/// The score of a capability against the requested settings.
pub open spec fn score_of(cap: CameraCapability, settings: CaptureSettings) -> MatchScore {
    MatchScore {
        exact_resolution: cap.width == settings.width && cap.height == settings.height,
        exact_format: format_satisfies(settings, cap),
        pixel_diff: abs_diff(cap.width * cap.height, settings.width * settings.height) as u64,
        format_priority: format_rank(cap.format),
        fps_diff: abs_diff(cap.framerate_millis as int, settings.framerate_millis as int) as u32,
    }
}

/// Whether score `a` is strictly better than score `b`.
pub open spec fn score_better(a: MatchScore, b: MatchScore) -> bool {
    if a.exact_resolution != b.exact_resolution {
        a.exact_resolution
    } else if a.exact_format != b.exact_format {
        a.exact_format
    } else if a.format_priority != b.format_priority {
        a.format_priority < b.format_priority
    } else if a.pixel_diff != b.pixel_diff {
        a.pixel_diff < b.pixel_diff
    } else {
        a.fps_diff < b.fps_diff
    }
}

/// Whether the capability matches the request exactly: resolution, format
/// (when requested) and a frame rate within one frame per second.
pub open spec fn is_exact_for(cap: CameraCapability, settings: CaptureSettings) -> bool {
    &&& cap.width == settings.width
    &&& cap.height == settings.height
    &&& format_satisfies(settings, cap)
    &&& abs_diff(cap.framerate_millis as int, settings.framerate_millis as int) < 1000
}

/// Whether index `k` holds the first best-scoring capability.
pub open spec fn is_first_best(caps: Seq<CameraCapability>, settings: CaptureSettings, k: int) -> bool {
    &&& 0 <= k < caps.len()
    &&& forall|j: int| 0 <= j < caps.len() ==> !score_better(#[trigger] score_of(caps[j], settings), score_of(caps[k], settings))
    &&& forall|j: int| 0 <= j < k ==> score_better(score_of(caps[k], settings), #[trigger] score_of(caps[j], settings))
}

fn abs_diff_u64(a: u64, b: u64) -> (r: u64)
    ensures
        r == abs_diff(a as int, b as int),
{
    if a >= b { a - b } else { b - a }
}

fn abs_diff_u32(a: u32, b: u32) -> (r: u32)
    ensures
        r == abs_diff(a as int, b as int),
{
    if a >= b { a - b } else { b - a }
}

impl MatchScore {
    /// Scores a capability against the requested settings.
    pub fn calculate(cap: &CameraCapability, settings: &CaptureSettings) -> (r: Self)
        ensures
            r == score_of(*cap, *settings),
    {
        let sw = settings.width as u64;
        let sh = settings.height as u64;
        let cw = cap.width as u64;
        let ch = cap.height as u64;
        assert(sw * sh <= 0xffff_ffff * 0xffff_ffff) by (nonlinear_arith)
            requires sw <= 0xffff_ffff, sh <= 0xffff_ffff;
        assert(cw * ch <= 0xffff_ffff * 0xffff_ffff) by (nonlinear_arith)
            requires cw <= 0xffff_ffff, ch <= 0xffff_ffff;
        let requested = sw * sh;
        let actual = cw * ch;
        let exact_format = match settings.format {
            Some(f) => f == cap.format,
            None => true,
        };
        MatchScore {
            exact_resolution: cap.width == settings.width && cap.height == settings.height,
            exact_format,
            pixel_diff: abs_diff_u64(actual, requested),
            format_priority: format_priority(cap.format),
            fps_diff: abs_diff_u32(cap.framerate_millis, settings.framerate_millis),
        }
    }

    /// Whether this score is strictly better than the other.
    pub fn is_better_than(&self, other: &MatchScore) -> (r: bool)
        ensures
            r == score_better(*self, *other),
    {
        if self.exact_resolution != other.exact_resolution {
            return self.exact_resolution;
        }
        if self.exact_format != other.exact_format {
            return self.exact_format;
        }
        if self.format_priority != other.format_priority {
            return self.format_priority < other.format_priority;
        }
        if self.pixel_diff != other.pixel_diff {
            return self.pixel_diff < other.pixel_diff;
        }
        self.fps_diff < other.fps_diff
    }
}

/// Being better is a strict order on scores: irreflexive, asymmetric and
/// transitive, and two scores neither of which is better are equal.
pub proof fn lemma_score_better_strict_order(a: MatchScore, b: MatchScore, c: MatchScore)
    ensures
        !score_better(a, a),
        score_better(a, b) ==> !score_better(b, a),
        score_better(a, b) && score_better(b, c) ==> score_better(a, c),
        !score_better(a, b) && !score_better(b, a) ==> a == b,
{
}

/// The ranking that negotiation applies, stated over the candidates
/// themselves: the chosen candidate (the first best one, see
/// `negotiate_format`) has the exact resolution if any candidate has it;
/// among candidates that agree with it on that, it has the requested format
/// if any has it; among those that also agree on that, no candidate has a
/// better pixel-format priority (MJPEG, YUYV, NV12, RGB24, RGBA32) whatever
/// its size; among those of the same priority none is closer in total
/// pixels; and among those equally close none is closer in frame rate.
pub proof fn lemma_negotiation_ranking(caps: Seq<CameraCapability>, settings: CaptureSettings, k: int, j: int)
    requires
        is_first_best(caps, settings, k),
        0 <= j < caps.len(),
    ensures
        ({
            let a = caps[k];
            let b = caps[j];
            let res_a = a.width == settings.width && a.height == settings.height;
            let res_b = b.width == settings.width && b.height == settings.height;
            let fmt_a = settings.format is None || settings.format == Some(a.format);
            let fmt_b = settings.format is None || settings.format == Some(b.format);
            &&& res_b ==> res_a
            &&& (res_a == res_b && fmt_b) ==> fmt_a
            &&& (res_a == res_b && fmt_a == fmt_b) ==> format_rank(a.format) <= format_rank(b.format)
            &&& (res_a == res_b && fmt_a == fmt_b && a.format == b.format) ==>
                abs_diff(a.width * a.height, settings.width * settings.height)
                    <= abs_diff(b.width * b.height, settings.width * settings.height)
            &&& (res_a == res_b && fmt_a == fmt_b && a.format == b.format
                && abs_diff(a.width * a.height, settings.width * settings.height)
                    == abs_diff(b.width * b.height, settings.width * settings.height)) ==>
                abs_diff(a.framerate_millis as int, settings.framerate_millis as int)
                    <= abs_diff(b.framerate_millis as int, settings.framerate_millis as int)
        }),
{
    let a = caps[k];
    let b = caps[j];
    let sa = score_of(a, settings);
    let sb = score_of(b, settings);
    assert(!score_better(sb, sa));
    lemma_pixel_diff_exact(a, settings);
    lemma_pixel_diff_exact(b, settings);
    assert(format_rank(a.format) == format_rank(b.format) ==> a.format == b.format);
}

/// The pixel difference of a score is the exact difference in total pixels
/// (both products fit in 64 bits).
proof fn lemma_pixel_diff_exact(cap: CameraCapability, settings: CaptureSettings)
    ensures
        score_of(cap, settings).pixel_diff == abs_diff(cap.width * cap.height, settings.width * settings.height),
        score_of(cap, settings).fps_diff == abs_diff(cap.framerate_millis as int, settings.framerate_millis as int),
{
    let x = cap.width * cap.height;
    let y = settings.width * settings.height;
    assert(0 <= x <= 0xffff_ffff * 0xffff_ffff) by (nonlinear_arith)
        requires x == cap.width * cap.height;
    assert(0 <= y <= 0xffff_ffff * 0xffff_ffff) by (nonlinear_arith)
        requires y == settings.width * settings.height;
}

/// The pixel-format priority: MJPEG first (it can be decoded in hardware),
/// then YUYV, NV12, RGB24 and RGBA32, and an unknown format last.
pub proof fn lemma_format_order()
    ensures
        format_rank(PixelFormat::Mjpeg) < format_rank(PixelFormat::Yuyv),
        format_rank(PixelFormat::Yuyv) < format_rank(PixelFormat::Nv12),
        format_rank(PixelFormat::Nv12) < format_rank(PixelFormat::Rgb24),
        format_rank(PixelFormat::Rgb24) < format_rank(PixelFormat::Rgba32),
        format_rank(PixelFormat::Rgba32) < format_rank(PixelFormat::Unknown),
{
}

/// Negotiates the best available format for the settings: `None` when there
/// are no capabilities, otherwise the first best-scoring capability, marked
/// exact when it matches the request exactly.
pub fn negotiate_format(capabilities: &[CameraCapability], settings: &CaptureSettings) -> (r: Option<NegotiatedFormat>)
    ensures
        r is None <==> capabilities@.len() == 0,
        r matches Some(f) ==> exists|k: int| is_first_best(capabilities@, *settings, k) && f == ({
            let cap = #[trigger] capabilities@[k];
            NegotiatedFormat {
                width: cap.width,
                height: cap.height,
                framerate_millis: cap.framerate_millis,
                format: cap.format,
                exact_match: is_exact_for(cap, *settings),
            }
        }),
{
    if capabilities.len() == 0 {
        return None;
    }
    let mut best: usize = 0;
    let mut best_score = MatchScore::calculate(&capabilities[0], settings);
    let mut i: usize = 1;
    while i < capabilities.len()
        invariant
            1 <= i <= capabilities@.len(),
            best < i,
            best_score == score_of(capabilities@[best as int], *settings),
            forall|j: int| 0 <= j < i ==> !score_better(#[trigger] score_of(capabilities@[j], *settings), best_score),
            forall|j: int| 0 <= j < best ==> score_better(best_score, #[trigger] score_of(capabilities@[j], *settings)),
        decreases capabilities.len() - i,
    {
        let score = MatchScore::calculate(&capabilities[i], settings);
        if score.is_better_than(&best_score) {
            proof {
                assert forall|j: int| 0 <= j < i implies !score_better(#[trigger] score_of(capabilities@[j], *settings), score) by {
                    lemma_score_better_strict_order(score_of(capabilities@[j], *settings), score, best_score);
                }
                assert forall|j: int| 0 <= j < i implies score_better(score, #[trigger] score_of(capabilities@[j], *settings)) by {
                    let sj = score_of(capabilities@[j], *settings);
                    lemma_score_better_strict_order(score, best_score, sj);
                    lemma_score_better_strict_order(best_score, sj, score);
                }
                lemma_score_better_strict_order(score, score, score);
            }
            best = i;
            best_score = score;
        }
        i = i + 1;
    }
    let cap = &capabilities[best];
    let exact_format = match settings.format {
        Some(f) => f == cap.format,
        None => true,
    };
    let fps_diff = abs_diff_u32(cap.framerate_millis, settings.framerate_millis);
    let is_exact = cap.width == settings.width && cap.height == settings.height && exact_format && fps_diff < 1000;
    let r = NegotiatedFormat::from_capability(cap, is_exact);
    assert(is_first_best(capabilities@, *settings, best as int));
    Some(r)
}

/// Whether a format can be streamed: every known format can.
pub fn is_acceptable_format(format: PixelFormat) -> (r: bool)
    ensures
        r == !(format is Unknown),
{
    !matches!(format, PixelFormat::Unknown)
}

/// The capabilities with an acceptable format, in their order.
pub open spec fn acceptable_only(caps: Seq<CameraCapability>) -> Seq<CameraCapability> {
    caps.filter(|c: CameraCapability| !(c.format is Unknown))
}

/// Keeps only the capabilities with an acceptable format, in order.
pub fn filter_acceptable_capabilities(caps: &[CameraCapability]) -> (r: Vec<CameraCapability>)
    ensures
        r@ == acceptable_only(caps@),
{
    let mut out: Vec<CameraCapability> = Vec::new();
    let mut i: usize = 0;
    while i < caps.len()
        invariant
            i <= caps@.len(),
            out@ == acceptable_only(caps@.subrange(0, i as int)),
        decreases caps.len() - i,
    {
        let c = caps[i];
        proof {
            let s = caps@.subrange(0, i as int + 1);
            assert(s.drop_last() =~= caps@.subrange(0, i as int));
            assert(s.last() == c);
            reveal(Seq::filter);
        }
        if is_acceptable_format(c.format) {
            out.push(c);
        }
        i = i + 1;
    }
    assert(caps@.subrange(0, caps@.len() as int) =~= caps@);
    out
}

} // verus!
