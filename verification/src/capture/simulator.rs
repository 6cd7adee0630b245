//! A simulated camera that draws test patterns, for running the capture
//! path without hardware.
//!
//! Frames are RGBA, four bytes per pixel, row after row. Frame drops and
//! injected errors are decided by a xorshift generator with a fixed start,
//! so a run is reproducible. Rates are given in parts per million.
use vstd::prelude::*;
use crate::app_core::error::CaptureError;
use crate::app_core::types::{CameraCapability, CameraDevice, CaptureSettings, DeviceId, Frame, NegotiatedFormat, PixelFormat};
use crate::clock::{elapsed_nanos, instant_now, nanos_between};
use crate::text::{decimal_digits, owned, seq_starts_with, str_starts_with, u64_to_decimal};

verus! {

/// The pattern a simulated camera draws.
#[derive(Debug, Clone, Copy, PartialEq, Eq, Structural)]
pub enum FramePattern {
    /// One colour everywhere.
    SolidColor { r: u8, g: u8, b: u8 },
    /// Eight vertical bars: white, yellow, cyan, green, magenta, red, blue,
    /// black.
    ColorBars,
    /// Grey rising from black on the left.
    HorizontalGradient,
    /// Grey rising from black at the top.
    VerticalGradient,
    /// White and black squares of the given side.
    Checkerboard { size: u32 },
    /// A green diagonal line that moves with the frame number.
    MovingLine,
    /// White blocks, one per digit of the frame number, on grey.
    Counter,
    /// Pixels from the generator.
    Noise,
}

impl Default for FramePattern {
    fn default() -> (r: Self)
        ensures
            r == FramePattern::ColorBars,
    {
        FramePattern::ColorBars
    }
}

/// The colour of a pixel, red, green and blue; every pixel is opaque.
pub type Rgb = (u8, u8, u8);

/// The byte `c` (0 to 3) of a pixel: its three colours, then 255.
pub open spec fn channel(p: Rgb, c: int) -> u8 {
    if c == 0 {
        p.0
    } else if c == 1 {
        p.1
    } else if c == 2 {
        p.2
    } else {
        255
    }
}

/// Byte `c` of pixel `k` in RGBA data.
pub open spec fn byte_at(data: Seq<u8>, k: int, c: int) -> u8 {
    data[4 * k + c]
}

/// The colour of bar `i` (0 to 7).
pub open spec fn bar_color(i: int) -> Rgb {
    if i == 0 {
        (255, 255, 255)
    } else if i == 1 {
        (255, 255, 0)
    } else if i == 2 {
        (0, 255, 255)
    } else if i == 3 {
        (0, 255, 0)
    } else if i == 4 {
        (255, 0, 255)
    } else if i == 5 {
        (255, 0, 0)
    } else if i == 6 {
        (0, 0, 255)
    } else {
        (0, 0, 0)
    }
}

/// The number of digit blocks the counter draws for a frame number: its
/// decimal digits, at least six.
pub open spec fn counter_digits(frame: u64) -> int {
    let n = decimal_digits(frame as nat).len() as int;
    if n < 6 { 6 } else { n }
}

/// Whether the counter paints pixel (x, y) white: the blocks are 7 by 12
/// pixels, 8 apart, centred in the frame.
pub open spec fn counter_white(w: int, h: int, frame: u64, x: int, y: int) -> bool {
    let n = counter_digits(frame);
    let sx = (w - n * 8) / 2;
    let sy = (h - 12) / 2;
    sy <= y < sy + 12 && sx <= x < sx + n * 8 && (x - sx) % 8 < 7
}

/// The colour of pixel (x, y) of a pattern that depends on the position
/// only (and, for the counter, on the frame number).
pub open spec fn pattern_pixel(p: FramePattern, w: int, h: int, frame: u64, x: int, y: int) -> Rgb {
    match p {
        FramePattern::SolidColor { r, g, b } => (r, g, b),
        FramePattern::ColorBars => {
            let i = x / (w / 8);
            bar_color(if i > 7 { 7 } else { i })
        },
        FramePattern::HorizontalGradient => {
            let v = (x * 255 / w) as u8;
            (v, v, v)
        },
        FramePattern::VerticalGradient => {
            let v = (y * 255 / h) as u8;
            (v, v, v)
        },
        FramePattern::Checkerboard { size } => {
            let s: int = if size == 0 { 1 } else { size as int };
            if (x / s + y / s) % 2 == 0 { (255, 255, 255) } else { (0, 0, 0) }
        },
        FramePattern::Counter => {
            if counter_white(w, h, frame, x, y) { (255, 255, 255) } else { (128, 128, 128) }
        },
        _ => (0, 0, 0),
    }
}

/// Whether RGBA data holds a `w` by `h` image whose pixel `k` (at x =
/// k mod w, y = k / w) is drawn by `pattern_pixel`.
pub open spec fn is_pattern_image(data: Seq<u8>, p: FramePattern, w: int, h: int, frame: u64) -> bool {
    &&& data.len() == w * h * 4
    &&& forall|k: int, c: int|
        0 <= k < w * h && 0 <= c < 4 ==> #[trigger] byte_at(data, k, c) == channel(pattern_pixel(p, w, h, frame, k % w, k / w), c)
}

/// Whether the position-only patterns can be drawn without failing: the
/// bars need a width of at least 8 (when anything is drawn at all), and the
/// counter needs room for its blocks.
pub open spec fn pattern_drawable(p: FramePattern, w: u32, h: u32, frame: u64) -> bool {
    match p {
        FramePattern::ColorBars => w == 0 || h == 0 || w >= 8,
        FramePattern::Counter => w >= counter_digits(frame) * 8 && h >= 12,
        _ => true,
    }
}

spec fn pow10(k: nat) -> nat
    decreases k,
{
    if k == 0 { 1 } else { 10 * pow10((k - 1) as nat) }
}

proof fn lemma_decimal_len_bound(n: nat, k: nat)
    requires
        k >= 1,
        n < pow10(k),
    ensures
        decimal_digits(n).len() <= k,
    decreases k,
{
    if n >= 10 {
        assert(k >= 2) by {
            if k == 1 {
                assert(pow10(1) == 10) by {
                    reveal_with_fuel(pow10, 2);
                }
            }
        }
        lemma_decimal_len_bound(n / 10, (k - 1) as nat);
    }
}

/// The number of decimal digits of `n`.
fn decimal_len(n: u64) -> (r: usize)
    ensures
        r == decimal_digits(n as nat).len(),
        1 <= r <= 20,
    decreases n,
{
    if n < 10 {
        1
    } else {
        let r = decimal_len(n / 10);
        assert(decimal_digits(n as nat) == decimal_digits((n / 10) as nat).push(crate::text::digit_char((n % 10) as nat)));
        assert(r < 20) by {
            assert(pow10(19) == 10_000_000_000_000_000_000) by {
                reveal_with_fuel(pow10, 20);
            }
            lemma_decimal_len_bound((n / 10) as nat, 19);
        }
        r + 1
    }
}

fn pixel_at(p: FramePattern, w: u32, h: u32, frame: u64, counter_n: u32, x: u32, y: u32) -> (r: Rgb)
    requires
        x < w,
        y < h,
        pattern_drawable(p, w, h, frame),
        p is Counter ==> counter_n == counter_digits(frame),
    ensures
        r == pattern_pixel(p, w as int, h as int, frame, x as int, y as int),
{
    match p {
        FramePattern::SolidColor { r, g, b } => (r, g, b),
        FramePattern::ColorBars => {
            let bw = w / 8;
            let i = x / bw;
            let i = if i > 7 { 7 } else { i };
            if i == 0 {
                (255, 255, 255)
            } else if i == 1 {
                (255, 255, 0)
            } else if i == 2 {
                (0, 255, 255)
            } else if i == 3 {
                (0, 255, 0)
            } else if i == 4 {
                (255, 0, 255)
            } else if i == 5 {
                (255, 0, 0)
            } else if i == 6 {
                (0, 0, 255)
            } else {
                (0, 0, 0)
            }
        },
        FramePattern::HorizontalGradient => {
            let xv = x as u64;
            assert(xv * 255 < (w as u64) * 255) by (nonlinear_arith)
                requires xv < w;
            let q = xv * 255 / (w as u64);
            assert(q < 255) by (nonlinear_arith)
                requires q == (xv * 255) as int / (w as int), xv * 255 < (w as u64) * 255, w > 0;
            let v = q as u8;
            (v, v, v)
        },
        FramePattern::VerticalGradient => {
            let yv = y as u64;
            assert(yv * 255 < (h as u64) * 255) by (nonlinear_arith)
                requires yv < h;
            let q = yv * 255 / (h as u64);
            assert(q < 255) by (nonlinear_arith)
                requires q == (yv * 255) as int / (h as int), yv * 255 < (h as u64) * 255, h > 0;
            let v = q as u8;
            (v, v, v)
        },
        FramePattern::Checkerboard { size } => {
            let s = if size == 0 { 1 } else { size };
            let sum = (x / s) as u64 + (y / s) as u64;
            if sum % 2 == 0 {
                (255, 255, 255)
            } else {
                (0, 0, 0)
            }
        },
        FramePattern::Counter => {
            let blocks = counter_n * 8;
            let sx = (w - blocks) / 2;
            let sy = (h - 12) / 2;
            if sy <= y && y < sy + 12 && sx <= x && x < sx + blocks && (x - sx) % 8 < 7 {
                (255, 255, 255)
            } else {
                (128, 128, 128)
            }
        },
        _ => (0, 0, 0),
    }
}

/// Draws a position-only pattern: `w * h` pixels, row after row.
fn draw_pattern(p: FramePattern, w: u32, h: u32, frame: u64) -> (r: Vec<u8>)
    requires
        w * h * 4 <= u32::MAX,
        pattern_drawable(p, w, h, frame),
    ensures
        is_pattern_image(r@, p, w as int, h as int, frame),
{
    let n: u32 = w * h;
    let counter_n: u32 = if matches!(p, FramePattern::Counter) {
        let d = decimal_len(frame);
        assert(d <= w / 8);
        let d = d as u32;
        if d < 6 { 6 } else { d }
    } else {
        0
    };
    let mut data: Vec<u8> = Vec::new();
    let mut k: u32 = 0;
    while k < n
        invariant
            n == w * h,
            n * 4 <= u32::MAX,
            k <= n,
            pattern_drawable(p, w, h, frame),
            p is Counter ==> counter_n == counter_digits(frame),
            data@.len() == k * 4,
            forall|j: int, c: int|
                0 <= j < k && 0 <= c < 4 ==> #[trigger] byte_at(data@, j, c) == channel(
                    pattern_pixel(p, w as int, h as int, frame, j % (w as int), j / (w as int)), c),
        decreases n - k,
    {
        assert(w > 0) by (nonlinear_arith)
            requires k < n, n == w * h;
        let x = k % w;
        let y = k / w;
        assert(y < h) by (nonlinear_arith)
            requires k < w * h, y == k / w, w > 0;
        let px = pixel_at(p, w, h, frame, counter_n, x, y);
        let ghost before = data@;
        data.push(px.0);
        data.push(px.1);
        data.push(px.2);
        data.push(255u8);
        proof {
            assert forall|j: int, c: int|
                0 <= j < k + 1 && 0 <= c < 4 implies #[trigger] byte_at(data@, j, c) == channel(
                    pattern_pixel(p, w as int, h as int, frame, j % (w as int), j / (w as int)), c) by {
                if j < k {
                    assert(byte_at(before, j, c) == byte_at(data@, j, c));
                }
            }
        }
        k = k + 1;
    }
    data
}

/// One step of the xorshift generator.
pub open spec fn xorshift(x: u64) -> u64 {
    let a = x ^ (x << 13u64);
    let b = a ^ (a >> 7u64);
    b ^ (b << 17u64)
}

/// The generator's state after `n` steps from `s`.
pub open spec fn rng_after(s: u64, n: nat) -> u64
    decreases n,
{
    if n == 0 { s } else { xorshift(rng_after(s, (n - 1) as nat)) }
}

/// The colour a noise pixel takes from a generator output: its three low
/// bytes.
pub open spec fn noise_pixel(r: u64) -> Rgb {
    (r as u8, (r >> 8u64) as u8, (r >> 16u64) as u8)
}

/// Whether RGBA data holds `w * h` noise pixels, pixel `k` from the
/// generator's output at step `k + 1` after `s`.
pub open spec fn is_noise_image(data: Seq<u8>, w: int, h: int, s: u64) -> bool {
    &&& data.len() == w * h * 4
    &&& forall|k: int, c: int|
        0 <= k < w * h && 0 <= c < 4 ==> #[trigger] byte_at(data, k, c) == channel(noise_pixel(rng_after(s, (k + 1) as nat)), c)
}

fn xorshift_step(x: u64) -> (r: u64)
    ensures
        r == xorshift(x),
{
    let a = x ^ (x << 13u64);
    let b = a ^ (a >> 7u64);
    b ^ (b << 17u64)
}

/// Draws noise from the generator state `s`; returns the pixels and the
/// state after them.
fn draw_noise(s: u64, w: u32, h: u32) -> (r: (Vec<u8>, u64))
    requires
        w * h * 4 <= u32::MAX,
    ensures
        is_noise_image(r.0@, w as int, h as int, s),
        r.1 == rng_after(s, (w * h) as nat),
{
    let n: u32 = w * h;
    let mut data: Vec<u8> = Vec::new();
    let mut state = s;
    let mut k: u32 = 0;
    while k < n
        invariant
            n == w * h,
            k <= n,
            state == rng_after(s, k as nat),
            data@.len() == k * 4,
            forall|j: int, c: int|
                0 <= j < k && 0 <= c < 4 ==> #[trigger] byte_at(data@, j, c) == channel(
                    noise_pixel(rng_after(s, (j + 1) as nat)), c),
        decreases n - k,
    {
        state = xorshift_step(state);
        let ghost before = data@;
        data.push(state as u8);
        data.push((state >> 8u64) as u8);
        data.push((state >> 16u64) as u8);
        data.push(255u8);
        proof {
            assert forall|j: int, c: int|
                0 <= j < k + 1 && 0 <= c < 4 implies #[trigger] byte_at(data@, j, c) == channel(
                    noise_pixel(rng_after(s, (j + 1) as nat)), c) by {
                if j < k {
                    assert(byte_at(before, j, c) == byte_at(data@, j, c));
                }
            }
        }
        k = k + 1;
    }
    (data, state)
}

/// The remainder of `a` by `b` that takes the sign of `a`, as Rust's `%`.
pub open spec fn trunc_rem(a: int, b: int) -> int {
    if a >= 0 { a % b } else { -((-a) % b) }
}

/// How far the moving line has moved for a frame number.
pub open spec fn line_offset(frame: u64, w: int, h: int) -> int {
    trunc_rem((frame as i32) * 5, w + h)
}

/// The column of the line's `i`-th point.
pub open spec fn line_x(i: int, offset: int, w: int) -> int {
    trunc_rem(i + offset, w)
}

/// The number of points of the line: the larger side.
pub open spec fn line_len(w: int, h: int) -> int {
    if w > h { w } else { h }
}

/// Whether the line can be drawn without failing: both sides are non-zero,
/// the frame number times five fits an `i32`, and no point falls left of
/// the frame.
pub open spec fn line_drawable(frame: u64, w: u32, h: u32) -> bool {
    &&& w > 0
    &&& h > 0
    &&& w * h * 4 <= u32::MAX
    &&& i32::MIN <= (frame as i32) * 5 <= i32::MAX
    &&& forall|i: int| 0 <= i < line_len(w as int, h as int) ==> #[trigger] line_x(i, line_offset(frame, w as int, h as int), w as int) >= 0
}

/// Whether one of the first `count` points of the line is at (x, y).
pub open spec fn on_line(frame: u64, w: int, h: int, count: int, x: int, y: int) -> bool {
    exists|i: int| 0 <= i < count && #[trigger] line_x(i, line_offset(frame, w, h), w) == x && i % h == y
}

/// The colour of pixel (x, y) of the moving line after `count` points.
pub open spec fn line_pixel(frame: u64, w: int, h: int, count: int, x: int, y: int) -> Rgb {
    if on_line(frame, w, h, count, x, y) { (0, 255, 0) } else { (0, 0, 0) }
}

/// Whether RGBA data holds the moving line for a frame number: green where
/// the line passes, black elsewhere.
pub open spec fn is_line_image(data: Seq<u8>, w: int, h: int, frame: u64) -> bool {
    &&& data.len() == w * h * 4
    &&& forall|k: int, c: int|
        0 <= k < w * h && 0 <= c < 4 ==> #[trigger] byte_at(data, k, c) == channel(
            line_pixel(frame, w, h, line_len(w, h), k % w, k / w), c)
}

fn trunc_rem_i64(a: i64, b: i64) -> (r: i64)
    requires
        b > 0,
        a > i64::MIN,
    ensures
        r == trunc_rem(a as int, b as int),
{
    if a >= 0 {
        a % b
    } else {
        -((-a) % b)
    }
}

/// Draws the moving line for a frame number.
fn draw_moving_line(w: u32, h: u32, frame: u64) -> (r: Vec<u8>)
    requires
        line_drawable(frame, w, h),
    ensures
        is_line_image(r@, w as int, h as int, frame),
{
    let mut data = draw_pattern(FramePattern::SolidColor { r: 0, g: 0, b: 0 }, w, h, frame);
    assert(w <= 0x4000_0000 && h <= 0x4000_0000) by (nonlinear_arith)
        requires w * h * 4 <= u32::MAX, w > 0, h > 0;
    let f = frame as i32;
    let f5: i64 = (f as i64) * 5;
    let offset = trunc_rem_i64(f5, (w as i64) + (h as i64));
    let ghost off = line_offset(frame, w as int, h as int);
    assert(offset == off);
    let count: u32 = if w > h { w } else { h };
    let n = w * h;
    let mut i: u32 = 0;
    while i < count
        invariant
            line_drawable(frame, w, h),
            w <= 0x4000_0000 && h <= 0x4000_0000,
            n == w * h,
            count == line_len(w as int, h as int),
            offset == off,
            off == line_offset(frame, w as int, h as int),
            -(w + h) < off < w + h,
            i <= count,
            data@.len() == n * 4,
            forall|k: int, c: int|
                0 <= k < n && 0 <= c < 4 ==> #[trigger] byte_at(data@, k, c) == channel(
                    line_pixel(frame, w as int, h as int, i as int, k % (w as int), k / (w as int)), c),
        decreases count - i,
    {
        let xi = trunc_rem_i64((i as i64) + offset, w as i64);
        assert(xi == line_x(i as int, off, w as int));
        assert(line_x(i as int, off, w as int) >= 0);
        assert(xi < w);
        let x = xi as u32;
        let y = i % h;
        assert(y * w + x < w * h) by (nonlinear_arith)
            requires y < h, x < w;
        let k = y * w + x;
        let idx = (k * 4) as usize;
        proof {
            vstd::arithmetic::div_mod::lemma_fundamental_div_mod_converse(k as int, w as int, y as int, x as int);
        }
        let ghost before = data@;
        if idx + 3 < data.len() {
            data.set(idx, 0u8);
            data.set(idx + 1, 255u8);
            data.set(idx + 2, 0u8);
            data.set(idx + 3, 255u8);
        }
        proof {
            assert forall|j: int, c: int|
                0 <= j < n && 0 <= c < 4 implies #[trigger] byte_at(data@, j, c) == channel(
                    line_pixel(frame, w as int, h as int, i + 1, j % (w as int), j / (w as int)), c) by {
                if j == k {
                    assert(line_x(i as int, off, w as int) == j % (w as int) && (i as int) % (h as int) == j / (w as int));
                    assert(on_line(frame, w as int, h as int, i + 1, j % (w as int), j / (w as int)));
                } else {
                    assert(byte_at(before, j, c) == byte_at(data@, j, c));
                    vstd::arithmetic::div_mod::lemma_fundamental_div_mod(j, w as int);
                    if on_line(frame, w as int, h as int, i + 1, j % (w as int), j / (w as int)) {
                        let t = choose|t: int| 0 <= t < i + 1 && #[trigger] line_x(t, off, w as int) == j % (w as int) && t % (h as int) == j / (w as int);
                        if t == i {
                            let q = j / (w as int);
                            let m = j % (w as int);
                            assert(j == (w as int) * q + m);
                            assert(q == y && m == x);
                            assert((w as int) * q + m == (y as int) * (w as int) + (x as int)) by (nonlinear_arith)
                                requires q == y, m == x;
                            assert(false);
                        }
                        assert(on_line(frame, w as int, h as int, i as int, j % (w as int), j / (w as int)));
                    }
                }
            }
        }
        i = i + 1;
    }
    data
}

/// The error the simulator injects.
#[derive(Debug, PartialEq, Eq)]
pub enum InjectedErrorType {
    /// The camera does not answer.
    Timeout,
    /// The camera was unplugged.
    Disconnected,
    /// Another program holds the camera.
    DeviceBusy,
    /// A platform error with this message.
    Platform(String),
    /// Each of the above in turn, starting with the timeout.
    Cycling,
}

impl Clone for InjectedErrorType {
    fn clone(&self) -> (r: Self)
        ensures
            r == *self,
    {
        match self {
            InjectedErrorType::Timeout => InjectedErrorType::Timeout,
            InjectedErrorType::Disconnected => InjectedErrorType::Disconnected,
            InjectedErrorType::DeviceBusy => InjectedErrorType::DeviceBusy,
            InjectedErrorType::Platform(m) => InjectedErrorType::Platform(m.clone()),
            InjectedErrorType::Cycling => InjectedErrorType::Cycling,
        }
    }
}

impl Default for InjectedErrorType {
    fn default() -> (r: Self)
        ensures
            r == InjectedErrorType::Timeout,
    {
        InjectedErrorType::Timeout
    }
}

/// Configuration of a simulated camera.
#[derive(Debug)]
pub struct SimulatorConfig {
    /// Name of the first simulated camera.
    pub device_name: String,
    /// Frame width.
    pub width: u32,
    /// Frame height.
    pub height: u32,
    /// Frames per second.
    pub fps: u32,
    /// The pixel format announced (frames are always RGBA).
    pub format: PixelFormat,
    /// What to draw.
    pub pattern: FramePattern,
    /// Share of frames dropped, in parts per million.
    pub drop_rate_ppm: u32,
    /// Extra delay per frame in milliseconds.
    pub latency_ms: u32,
    /// Share of frames that fail, in parts per million.
    pub error_rate_ppm: u32,
    /// The error injected when a frame fails.
    pub error_type: InjectedErrorType,
    /// Number of simulated cameras listed.
    pub device_count: usize,
}

impl Clone for SimulatorConfig {
    fn clone(&self) -> (r: Self)
        ensures
            r == *self,
    {
        SimulatorConfig {
            device_name: self.device_name.clone(),
            width: self.width,
            height: self.height,
            fps: self.fps,
            format: self.format,
            pattern: self.pattern,
            drop_rate_ppm: self.drop_rate_ppm,
            latency_ms: self.latency_ms,
            error_rate_ppm: self.error_rate_ppm,
            error_type: self.error_type.clone(),
            device_count: self.device_count,
        }
    }
}

/// Whether a configuration is the default one but for its name, size,
/// frame rate and rates.
pub open spec fn default_rest(c: SimulatorConfig) -> bool {
    &&& c.format == PixelFormat::Rgba32
    &&& c.pattern == FramePattern::ColorBars
    &&& c.error_type == InjectedErrorType::Timeout
    &&& c.device_count == 1
}

impl Default for SimulatorConfig {
    fn default() -> (r: Self)
        ensures
            r.device_name@ == "Simulated Camera"@,
            r.width == 640,
            r.height == 480,
            r.fps == 30,
            r.drop_rate_ppm == 0,
            r.latency_ms == 0,
            r.error_rate_ppm == 0,
            default_rest(r),
    {
        SimulatorConfig {
            device_name: owned("Simulated Camera"),
            width: 640,
            height: 480,
            fps: 30,
            format: PixelFormat::Rgba32,
            pattern: FramePattern::ColorBars,
            drop_rate_ppm: 0,
            latency_ms: 0,
            error_rate_ppm: 0,
            error_type: InjectedErrorType::Timeout,
            device_count: 1,
        }
    }
}

impl SimulatorConfig {
    /// A 1920x1080 camera at 30 fps.
    pub fn hd() -> (r: Self)
        ensures
            r.device_name@ == "Simulated HD Camera"@,
            r.width == 1920,
            r.height == 1080,
            r.fps == 30,
            r.drop_rate_ppm == 0,
            r.latency_ms == 0,
            r.error_rate_ppm == 0,
            default_rest(r),
    {
        SimulatorConfig {
            device_name: owned("Simulated HD Camera"),
            width: 1920,
            height: 1080,
            fps: 30,
            ..SimulatorConfig::default()
        }
    }

    /// A 3840x2160 camera at 60 fps that drops 5% of its frames, fails 1%
    /// and lags 5 ms.
    pub fn stress_test() -> (r: Self)
        ensures
            r.device_name@ == "Stress Test Camera"@,
            r.width == 3840,
            r.height == 2160,
            r.fps == 60,
            r.drop_rate_ppm == 50_000,
            r.latency_ms == 5,
            r.error_rate_ppm == 10_000,
            default_rest(r),
    {
        SimulatorConfig {
            device_name: owned("Stress Test Camera"),
            width: 3840,
            height: 2160,
            fps: 60,
            drop_rate_ppm: 50_000,
            latency_ms: 5,
            error_rate_ppm: 10_000,
            ..SimulatorConfig::default()
        }
    }

    /// A 640x480 camera at 30 fps that drops 20% of its frames, fails 10%
    /// and lags 50 ms.
    pub fn unreliable() -> (r: Self)
        ensures
            r.device_name@ == "Unreliable Camera"@,
            r.width == 640,
            r.height == 480,
            r.fps == 30,
            r.drop_rate_ppm == 200_000,
            r.latency_ms == 50,
            r.error_rate_ppm == 100_000,
            default_rest(r),
    {
        SimulatorConfig {
            device_name: owned("Unreliable Camera"),
            width: 640,
            height: 480,
            fps: 30,
            drop_rate_ppm: 200_000,
            latency_ms: 50,
            error_rate_ppm: 100_000,
            ..SimulatorConfig::default()
        }
    }
}

/// The generator's start, also after each start of capture.
pub const RNG_SEED: u64 = 0x12345678;

/// At most this many frames are dropped in a row.
pub const MAX_CONSECUTIVE_DROPS: u64 = 0xFFFF_FFFF;

/// The threshold below which the low 32 bits of a generator output make a
/// rate fire: the rate's share of `u32::MAX`.
pub open spec fn rate_threshold(ppm: u32) -> u64 {
    (ppm * 0xFFFF_FFFFu64 / 1_000_000) as u64
}

/// Whether a generator output makes a rate fire.
pub open spec fn rate_fires(r: u64, ppm: u32) -> bool {
    (r & 0xFFFF_FFFFu64) < rate_threshold(ppm)
}

/// Whether a frame fails, and the generator state after deciding: a zero
/// rate decides without using the generator.
pub open spec fn error_roll(ppm: u32, s: u64) -> (bool, u64) {
    if ppm == 0 {
        (false, s)
    } else {
        (rate_fires(xorshift(s), ppm), xorshift(s))
    }
}

/// How many frames are dropped in a row (at most `fuel`), and the generator
/// state after deciding.
pub open spec fn drop_run(ppm: u32, s: u64, fuel: nat) -> (nat, u64)
    decreases fuel,
{
    if fuel == 0 || ppm == 0 {
        (0, s)
    } else if rate_fires(xorshift(s), ppm) {
        let next = drop_run(ppm, xorshift(s), (fuel - 1) as nat);
        ((next.0 + 1) as nat, next.1)
    } else {
        (0, xorshift(s))
    }
}

/// Whether `e` is the error injected by an error type, given how many
/// errors were injected before (which the cycling type goes by).
pub open spec fn is_injected_error(e: CaptureError, t: InjectedErrorType, count: u64) -> bool {
    match t {
        InjectedErrorType::Timeout => e == CaptureError::Timeout(100),
        InjectedErrorType::Disconnected => e == CaptureError::Disconnected,
        InjectedErrorType::DeviceBusy => e == CaptureError::DeviceBusy,
        InjectedErrorType::Platform(m) => e == CaptureError::Platform(m),
        InjectedErrorType::Cycling => {
            if count % 4 == 0 {
                e == CaptureError::Timeout(100)
            } else if count % 4 == 1 {
                e == CaptureError::Disconnected
            } else if count % 4 == 2 {
                e == CaptureError::DeviceBusy
            } else {
                e matches CaptureError::Platform(m) && m@ == "Simulated platform error"@
            }
        },
    }
}

/// `a + d`, wrapping at `u64::MAX`.
pub open spec fn wrap_add(a: u64, d: nat) -> u64 {
    ((a + d) % 0x1_0000_0000_0000_0000int) as u64
}

/// Whether a frame of a configuration can be drawn for a frame number.
pub open spec fn frame_drawable(c: SimulatorConfig, frame: u64) -> bool {
    &&& c.width * c.height * 4 <= u32::MAX
    &&& match c.pattern {
        FramePattern::MovingLine => line_drawable(frame, c.width, c.height),
        p => pattern_drawable(p, c.width, c.height, frame),
    }
}

/// Whether the data of a frame is what the configuration draws for a frame
/// number, from the generator state `s`.
pub open spec fn frame_image(data: Seq<u8>, c: SimulatorConfig, frame: u64, s: u64) -> bool {
    match c.pattern {
        FramePattern::Noise => is_noise_image(data, c.width as int, c.height as int, s),
        FramePattern::MovingLine => is_line_image(data, c.width as int, c.height as int, frame),
        p => is_pattern_image(data, p, c.width as int, c.height as int, frame),
    }
}

/// A frame rate in thousandths of a frame per second, for whole frames per
/// second (at most `u32::MAX`).
pub open spec fn fps_millis(fps: u32) -> u32 {
    if fps > u32::MAX / 1000 { u32::MAX } else { (fps * 1000) as u32 }
}

/// The capabilities a simulated camera lists: its own size and rate, then
/// 640x480, 1280x720 and 1920x1080 at 30 fps, all RGBA.
pub open spec fn simulated_capabilities(c: SimulatorConfig) -> Seq<CameraCapability> {
    seq![
        CameraCapability { width: c.width, height: c.height, framerate_millis: fps_millis(c.fps), format: PixelFormat::Rgba32 },
        CameraCapability { width: 640, height: 480, framerate_millis: 30_000, format: PixelFormat::Rgba32 },
        CameraCapability { width: 1280, height: 720, framerate_millis: 30_000, format: PixelFormat::Rgba32 },
        CameraCapability { width: 1920, height: 1080, framerate_millis: 30_000, format: PixelFormat::Rgba32 },
    ]
}

/// The identifier of simulated camera `i`.
pub open spec fn simulated_id(i: nat) -> Seq<char> {
    "simulator:"@ + decimal_digits(i)
}

/// The name of simulated camera `i`: the configured name, then `#2`, `#3`...
pub open spec fn simulated_name(name: Seq<char>, i: nat) -> Seq<char> {
    if i == 0 { name } else { name + " #"@ + decimal_digits(i + 1) }
}

/// A simulated camera backend.
#[derive(Debug)]
pub struct SimulatorBackend {
    config: SimulatorConfig,
    is_open: bool,
    is_capturing: bool,
    current_format: Option<NegotiatedFormat>,
    frame_counter: u64,
    error_counter: u64,
    start_time: Option<std::time::Instant>,
    last_frame_time: Option<std::time::Instant>,
    rng_state: u64,
}

fn rate_threshold_of(ppm: u32) -> (r: u64)
    ensures
        r == rate_threshold(ppm),
{
    assert((ppm as u64) * 0xFFFF_FFFFu64 <= 0xFFFF_FFFFu64 * 0xFFFF_FFFFu64) by (nonlinear_arith)
        requires ppm <= 0xFFFF_FFFFu64;
    (ppm as u64) * 0xFFFF_FFFFu64 / 1_000_000
}

impl SimulatorBackend {
    /// The configuration.
    pub closed spec fn spec_config(&self) -> SimulatorConfig {
        self.config
    }

    /// Whether the camera is open.
    pub closed spec fn spec_open(&self) -> bool {
        self.is_open
    }

    /// Whether the camera is capturing.
    pub closed spec fn spec_capturing(&self) -> bool {
        self.is_capturing
    }

    /// The negotiated format, while open.
    pub closed spec fn spec_format(&self) -> Option<NegotiatedFormat> {
        self.current_format
    }

    /// The number of the next frame (counting dropped ones).
    pub closed spec fn spec_frames(&self) -> u64 {
        self.frame_counter
    }

    /// Errors injected by the cycling type so far.
    pub closed spec fn spec_errors(&self) -> u64 {
        self.error_counter
    }

    /// When capture started.
    pub closed spec fn spec_start(&self) -> Option<std::time::Instant> {
        self.start_time
    }

    /// When the last frame was asked for.
    pub closed spec fn spec_last_frame(&self) -> Option<std::time::Instant> {
        self.last_frame_time
    }

    /// The generator state.
    pub closed spec fn spec_rng(&self) -> u64 {
        self.rng_state
    }

    /// A closed simulator with the given configuration.
    pub fn new(config: SimulatorConfig) -> (r: Self)
        ensures
            r.spec_config() == config,
            !r.spec_open(),
            !r.spec_capturing(),
            r.spec_format() is None,
            r.spec_frames() == 0,
            r.spec_errors() == 0,
            r.spec_start() is None,
            r.spec_last_frame() is None,
            r.spec_rng() == RNG_SEED,
    {
        SimulatorBackend {
            config,
            is_open: false,
            is_capturing: false,
            current_format: None,
            frame_counter: 0,
            error_counter: 0,
            start_time: None,
            last_frame_time: None,
            rng_state: RNG_SEED,
        }
    }

    /// A closed simulator with the default configuration.
    pub fn new_default() -> (r: Self)
        ensures
            r.spec_config().width == 640,
            r.spec_config().height == 480,
            r.spec_config().fps == 30,
            default_rest(r.spec_config()),
            !r.spec_open(),
            !r.spec_capturing(),
            r.spec_frames() == 0,
            r.spec_rng() == RNG_SEED,
    {
        SimulatorBackend::new(SimulatorConfig::default())
    }

    /// The number of the next frame (dropped frames count too).
    pub fn frame_count(&self) -> (r: u64)
        ensures
            r == self.spec_frames(),
    {
        self.frame_counter
    }

    /// Whether the camera is open.
    pub fn is_open(&self) -> (r: bool)
        ensures
            r == self.spec_open(),
    {
        self.is_open
    }

    /// Whether the camera is capturing.
    pub fn is_capturing(&self) -> (r: bool)
        ensures
            r == self.spec_capturing(),
    {
        self.is_capturing
    }

    /// The negotiated format, while open.
    pub fn current_format(&self) -> (r: Option<NegotiatedFormat>)
        ensures
            r == self.spec_format(),
    {
        self.current_format
    }

    /// The configuration.
    pub fn config(&self) -> (r: &SimulatorConfig)
        ensures
            *r == self.spec_config(),
    {
        &self.config
    }

    fn next_random(&mut self) -> (r: u64)
        ensures
            r == xorshift(old(self).spec_rng()),
            final(self).spec_rng() == r,
            final(self).spec_config() == old(self).spec_config(),
            final(self).spec_open() == old(self).spec_open(),
            final(self).spec_capturing() == old(self).spec_capturing(),
            final(self).spec_format() == old(self).spec_format(),
            final(self).spec_frames() == old(self).spec_frames(),
            final(self).spec_errors() == old(self).spec_errors(),
            final(self).spec_start() == old(self).spec_start(),
            final(self).spec_last_frame() == old(self).spec_last_frame(),
    {
        let x = xorshift_step(self.rng_state);
        self.rng_state = x;
        x
    }

    fn should_fire(&mut self, ppm: u32) -> (r: bool)
        ensures
            (r, final(self).spec_rng()) == error_roll(ppm, old(self).spec_rng()),
            final(self).spec_config() == old(self).spec_config(),
            final(self).spec_open() == old(self).spec_open(),
            final(self).spec_capturing() == old(self).spec_capturing(),
            final(self).spec_format() == old(self).spec_format(),
            final(self).spec_frames() == old(self).spec_frames(),
            final(self).spec_errors() == old(self).spec_errors(),
            final(self).spec_start() == old(self).spec_start(),
            final(self).spec_last_frame() == old(self).spec_last_frame(),
    {
        if ppm == 0 {
            return false;
        }
        let threshold = rate_threshold_of(ppm);
        let r = self.next_random();
        (r & 0xFFFF_FFFFu64) < threshold
    }

    fn generate_error(&mut self) -> (r: CaptureError)
        ensures
            is_injected_error(r, old(self).spec_config().error_type, old(self).spec_errors()),
            final(self).spec_errors() == if old(self).spec_config().error_type is Cycling {
                old(self).spec_errors().wrapping_add(1)
            } else {
                old(self).spec_errors()
            },
            final(self).spec_config() == old(self).spec_config(),
            final(self).spec_open() == old(self).spec_open(),
            final(self).spec_capturing() == old(self).spec_capturing(),
            final(self).spec_format() == old(self).spec_format(),
            final(self).spec_frames() == old(self).spec_frames(),
            final(self).spec_rng() == old(self).spec_rng(),
            final(self).spec_start() == old(self).spec_start(),
            final(self).spec_last_frame() == old(self).spec_last_frame(),
    {
        match &self.config.error_type {
            InjectedErrorType::Timeout => CaptureError::Timeout(100),
            InjectedErrorType::Disconnected => CaptureError::Disconnected,
            InjectedErrorType::DeviceBusy => CaptureError::DeviceBusy,
            InjectedErrorType::Platform(m) => CaptureError::Platform(m.clone()),
            InjectedErrorType::Cycling => {
                let n = self.error_counter;
                self.error_counter = self.error_counter.wrapping_add(1);
                if n % 4 == 0 {
                    CaptureError::Timeout(100)
                } else if n % 4 == 1 {
                    CaptureError::Disconnected
                } else if n % 4 == 2 {
                    CaptureError::DeviceBusy
                } else {
                    CaptureError::Platform(owned("Simulated platform error"))
                }
            },
        }
    }
}

impl SimulatorBackend {
    /// Decides what the next frame request gives, at `now`: an error when
    /// not capturing; otherwise the request is timed, may fail with the
    /// configured error, and skips the dropped frames. On success the number
    /// of the frame to draw is returned (then `generate_frame` draws it).
    pub fn advance_frame_at(&mut self, now: std::time::Instant) -> (r: Result<u64, CaptureError>)
        ensures
            !old(self).spec_capturing() ==> {
                &&& r matches Err(CaptureError::Platform(m)) && m@ == "Not capturing"@
                &&& *final(self) == *old(self)
            },
            old(self).spec_capturing() ==> {
                let roll = error_roll(old(self).spec_config().error_rate_ppm, old(self).spec_rng());
                let drops = drop_run(old(self).spec_config().drop_rate_ppm, roll.1, MAX_CONSECUTIVE_DROPS as nat);
                &&& final(self).spec_last_frame() == Some(now)
                &&& roll.0 ==> {
                    &&& r matches Err(e) && is_injected_error(e, old(self).spec_config().error_type, old(self).spec_errors())
                    &&& final(self).spec_rng() == roll.1
                    &&& final(self).spec_frames() == old(self).spec_frames()
                }
                &&& !roll.0 ==> {
                    &&& r == Ok::<u64, CaptureError>(wrap_add(old(self).spec_frames(), drops.0))
                    &&& final(self).spec_frames() == wrap_add(old(self).spec_frames(), drops.0 + 1)
                    &&& final(self).spec_rng() == drops.1
                    &&& final(self).spec_errors() == old(self).spec_errors()
                }
            },
            final(self).spec_config() == old(self).spec_config(),
            final(self).spec_open() == old(self).spec_open(),
            final(self).spec_capturing() == old(self).spec_capturing(),
            final(self).spec_format() == old(self).spec_format(),
            final(self).spec_start() == old(self).spec_start(),
    {
        if !self.is_capturing {
            return Err(CaptureError::Platform(owned("Not capturing")));
        }
        self.last_frame_time = Some(now);
        let ppm = self.config.error_rate_ppm;
        if self.should_fire(ppm) {
            return Err(self.generate_error());
        }
        let drop_ppm = self.config.drop_rate_ppm;
        let ghost s1 = self.rng_state;
        let ghost f0 = self.frame_counter;
        let mut dropped: u64 = 0;
        loop
            invariant_except_break
                dropped <= MAX_CONSECUTIVE_DROPS,
                drop_ppm == self.config.drop_rate_ppm,
                self.frame_counter == wrap_add(f0, dropped as nat),
                drop_run(drop_ppm, s1, MAX_CONSECUTIVE_DROPS as nat) == (
                    (dropped + drop_run(drop_ppm, self.rng_state, (MAX_CONSECUTIVE_DROPS - dropped) as nat).0) as nat,
                    drop_run(drop_ppm, self.rng_state, (MAX_CONSECUTIVE_DROPS - dropped) as nat).1,
                ),
                self.config == old(self).config,
                self.is_open == old(self).is_open,
                self.is_capturing == old(self).is_capturing,
                self.current_format == old(self).current_format,
                self.start_time == old(self).start_time,
                self.last_frame_time == Some(now),
                self.error_counter == old(self).error_counter,
            ensures
                drop_run(drop_ppm, s1, MAX_CONSECUTIVE_DROPS as nat) == (dropped as nat, self.rng_state),
                self.frame_counter == wrap_add(f0, dropped as nat),
                self.config == old(self).config,
                self.is_open == old(self).is_open,
                self.is_capturing == old(self).is_capturing,
                self.current_format == old(self).current_format,
                self.start_time == old(self).start_time,
                self.last_frame_time == Some(now),
                self.error_counter == old(self).error_counter,
            decreases MAX_CONSECUTIVE_DROPS - dropped,
        {
            if dropped >= MAX_CONSECUTIVE_DROPS {
                break;
            }
            let ghost s_before = self.rng_state;
            let fired = self.should_fire(drop_ppm);
            if !fired {
                break;
            }
            proof {
                assert(wrap_add(f0, dropped as nat).wrapping_add(1) == wrap_add(f0, (dropped + 1) as nat));
            }
            self.frame_counter = self.frame_counter.wrapping_add(1);
            dropped = dropped + 1;
        }
        let frame = self.frame_counter;
        self.frame_counter = self.frame_counter.wrapping_add(1);
        proof {
            assert(wrap_add(f0, dropped as nat).wrapping_add(1) == wrap_add(f0, (dropped + 1) as nat));
        }
        Ok(frame)
    }
}

/// Whether the moving line can be drawn, decided by walking its points.
fn line_drawable_check(frame: u64, w: u32, h: u32) -> (r: bool)
    requires
        w * h * 4 <= u32::MAX,
    ensures
        r == line_drawable(frame, w, h),
{
    if w == 0 || h == 0 {
        return false;
    }
    assert(w <= 0x4000_0000 && h <= 0x4000_0000) by (nonlinear_arith)
        requires w * h * 4 <= u32::MAX, w > 0, h > 0;
    let f = frame as i32;
    let f5: i64 = (f as i64) * 5;
    if f5 < (i32::MIN as i64) || f5 > (i32::MAX as i64) {
        return false;
    }
    let offset = trunc_rem_i64(f5, (w as i64) + (h as i64));
    let ghost off = line_offset(frame, w as int, h as int);
    let count: u32 = if w > h { w } else { h };
    let mut i: u32 = 0;
    while i < count
        invariant
            w > 0 && h > 0,
            w <= 0x4000_0000 && h <= 0x4000_0000,
            w * h * 4 <= u32::MAX,
            i32::MIN <= (frame as i32) * 5 <= i32::MAX,
            count == line_len(w as int, h as int),
            offset == off,
            off == line_offset(frame, w as int, h as int),
            -(w + h) < off < w + h,
            i <= count,
            forall|j: int| 0 <= j < i ==> #[trigger] line_x(j, off, w as int) >= 0,
        decreases count - i,
    {
        let xi = trunc_rem_i64((i as i64) + offset, w as i64);
        if xi < 0 {
            assert(line_x(i as int, off, w as int) < 0);
            return false;
        }
        i = i + 1;
    }
    true
}

impl SimulatorBackend {
    /// Whether frame number `frame` can be drawn with the configuration;
    /// drawing one that cannot fails.
    pub fn can_render(&self, frame: u64) -> (r: bool)
        ensures
            r == frame_drawable(self.spec_config(), frame),
    {
        let w = self.config.width;
        let h = self.config.height;
        assert((w as u64) * (h as u64) <= 0xFFFF_FFFFu64 * 0xFFFF_FFFFu64) by (nonlinear_arith)
            requires w <= 0xFFFF_FFFFu64, h <= 0xFFFF_FFFFu64;
        let area = (w as u64) * (h as u64);
        if area > (u32::MAX as u64) / 4 {
            return false;
        }
        match self.config.pattern {
            FramePattern::MovingLine => line_drawable_check(frame, w, h),
            FramePattern::ColorBars => w == 0 || h == 0 || w >= 8,
            FramePattern::Counter => {
                let d = decimal_len(frame);
                let n: u64 = if d < 6 { 6 } else { d as u64 };
                (w as u64) >= n * 8 && h >= 12
            },
            _ => true,
        }
    }

    /// Draws frame number `frame` at `now`: RGBA pixels of the configured
    /// size and pattern, stamped with the time since capture started (0
    /// before any start). Noise takes its pixels from the generator.
    pub fn generate_frame(&mut self, frame: u64, now: std::time::Instant) -> (r: Frame)
        requires
            frame_drawable(old(self).spec_config(), frame),
        ensures
            r.width == old(self).spec_config().width,
            r.height == old(self).spec_config().height,
            r.format == PixelFormat::Rgba32,
            r.sequence == frame,
            r.timestamp_ns == match old(self).spec_start() {
                Some(t) => nanos_between(now, t),
                None => 0,
            },
            frame_image(r.data@, old(self).spec_config(), frame, old(self).spec_rng()),
            final(self).spec_rng() == if old(self).spec_config().pattern is Noise {
                rng_after(old(self).spec_rng(), (old(self).spec_config().width * old(self).spec_config().height) as nat)
            } else {
                old(self).spec_rng()
            },
            final(self).spec_config() == old(self).spec_config(),
            final(self).spec_open() == old(self).spec_open(),
            final(self).spec_capturing() == old(self).spec_capturing(),
            final(self).spec_format() == old(self).spec_format(),
            final(self).spec_frames() == old(self).spec_frames(),
            final(self).spec_errors() == old(self).spec_errors(),
            final(self).spec_start() == old(self).spec_start(),
            final(self).spec_last_frame() == old(self).spec_last_frame(),
    {
        let w = self.config.width;
        let h = self.config.height;
        let data = match self.config.pattern {
            FramePattern::Noise => {
                let (d, state) = draw_noise(self.rng_state, w, h);
                self.rng_state = state;
                d
            },
            FramePattern::MovingLine => draw_moving_line(w, h, frame),
            p => draw_pattern(p, w, h, frame),
        };
        let timestamp_ns = match &self.start_time {
            Some(t) => elapsed_nanos(&now, t),
            None => 0,
        };
        Frame { data, format: PixelFormat::Rgba32, width: w, height: h, timestamp_ns, sequence: frame }
    }

    /// How many nanoseconds to wait at `now` before the next frame, so that
    /// frames come at the configured rate: what is left of one frame
    /// interval (a second divided by the rate) since the last request.
    pub fn frame_delay_nanos(&self, now: std::time::Instant) -> (r: u64)
        requires
            self.spec_config().fps > 0,
        ensures
            r == match self.spec_last_frame() {
                Some(t) => {
                    let interval = 1_000_000_000int / (self.spec_config().fps as int);
                    if nanos_between(now, t) < interval { (interval - nanos_between(now, t)) as u64 } else { 0 }
                },
                None => 0,
            },
    {
        match &self.last_frame_time {
            Some(t) => {
                let interval: u64 = 1_000_000_000 / (self.config.fps as u64);
                let elapsed = elapsed_nanos(&now, t);
                if elapsed < interval { interval - elapsed } else { 0 }
            },
            None => 0,
        }
    }
}

fn fps_millis_of(fps: u32) -> (r: u32)
    ensures
        r == fps_millis(fps),
{
    if fps > u32::MAX / 1000 { u32::MAX } else { fps * 1000 }
}

impl SimulatorBackend {
    /// The capabilities of a simulated camera.
    pub fn generate_capabilities(&self) -> (r: Vec<CameraCapability>)
        ensures
            r@ == simulated_capabilities(self.spec_config()),
    {
        let own = CameraCapability {
            width: self.config.width,
            height: self.config.height,
            framerate_millis: fps_millis_of(self.config.fps),
            format: PixelFormat::Rgba32,
        };
        let v = vec![
            own,
            CameraCapability { width: 640, height: 480, framerate_millis: 30_000, format: PixelFormat::Rgba32 },
            CameraCapability { width: 1280, height: 720, framerate_millis: 30_000, format: PixelFormat::Rgba32 },
            CameraCapability { width: 1920, height: 1080, framerate_millis: 30_000, format: PixelFormat::Rgba32 },
        ];
        assert(v@ =~= simulated_capabilities(self.spec_config()));
        v
    }

    /// The configured number of simulated cameras, `simulator:0`,
    /// `simulator:1`..., each available with the simulated capabilities.
    pub fn enumerate_devices(&self) -> (r: Vec<CameraDevice>)
        ensures
            r@.len() == self.spec_config().device_count,
            forall|i: int| 0 <= i < r@.len() ==> {
                &&& (#[trigger] r@[i]).id.0@ == simulated_id(i as nat)
                &&& r@[i].name@ == simulated_name(self.spec_config().device_name@, i as nat)
                &&& r@[i].manufacturer matches Some(m) && m@ == "Micround Test Framework"@
                &&& r@[i].capabilities@ == simulated_capabilities(self.spec_config())
                &&& r@[i].is_available
            },
    {
        let mut out: Vec<CameraDevice> = Vec::new();
        let mut i: usize = 0;
        while i < self.config.device_count
            invariant
                i <= self.config.device_count,
                out@.len() == i,
                forall|j: int| 0 <= j < i ==> {
                    &&& (#[trigger] out@[j]).id.0@ == simulated_id(j as nat)
                    &&& out@[j].name@ == simulated_name(self.config.device_name@, j as nat)
                    &&& out@[j].manufacturer matches Some(m) && m@ == "Micround Test Framework"@
                    &&& out@[j].capabilities@ == simulated_capabilities(self.config)
                    &&& out@[j].is_available
                },
            decreases self.config.device_count - i,
        {
            let mut id = owned("simulator:");
            let digits = u64_to_decimal(i as u64);
            id.append(digits.as_str());
            let name = if i == 0 {
                self.config.device_name.clone()
            } else {
                let mut n = self.config.device_name.clone();
                n.append(" #");
                let k = u64_to_decimal((i + 1) as u64);
                n.append(k.as_str());
                n
            };
            let device = CameraDevice {
                id: DeviceId(id),
                name,
                manufacturer: Some(owned("Micround Test Framework")),
                capabilities: self.generate_capabilities(),
                is_available: true,
            };
            out.push(device);
            i = i + 1;
        }
        out
    }

    /// Opens a simulated camera with the requested settings, which it always
    /// meets exactly (in RGBA); the frame counter starts again. Identifiers
    /// not starting with `simulator:` are not found.
    pub fn open(&mut self, device_id: &DeviceId, settings: CaptureSettings) -> (r: Result<NegotiatedFormat, CaptureError>)
        ensures
            !seq_starts_with(device_id.0@, "simulator:"@) ==> {
                &&& r matches Err(CaptureError::DeviceNotFound(m)) && m@ == device_id.0@
                &&& *final(self) == *old(self)
            },
            seq_starts_with(device_id.0@, "simulator:"@) ==> {
                let f = NegotiatedFormat {
                    width: settings.width,
                    height: settings.height,
                    format: PixelFormat::Rgba32,
                    framerate_millis: settings.framerate_millis,
                    exact_match: true,
                };
                &&& r == Ok::<NegotiatedFormat, CaptureError>(f)
                &&& final(self).spec_config() == (SimulatorConfig {
                    width: settings.width,
                    height: settings.height,
                    fps: settings.framerate_millis / 1000,
                    ..old(self).spec_config()
                })
                &&& final(self).spec_format() == Some(f)
                &&& final(self).spec_open()
                &&& final(self).spec_frames() == 0
                &&& final(self).spec_capturing() == old(self).spec_capturing()
                &&& final(self).spec_rng() == old(self).spec_rng()
                &&& final(self).spec_errors() == old(self).spec_errors()
                &&& final(self).spec_start() == old(self).spec_start()
                &&& final(self).spec_last_frame() == old(self).spec_last_frame()
            },
    {
        if !str_starts_with(device_id.0.as_str(), "simulator:") {
            return Err(CaptureError::DeviceNotFound(device_id.0.clone()));
        }
        let format = NegotiatedFormat {
            width: settings.width,
            height: settings.height,
            format: PixelFormat::Rgba32,
            framerate_millis: settings.framerate_millis,
            exact_match: true,
        };
        self.config.width = settings.width;
        self.config.height = settings.height;
        self.config.fps = settings.framerate_millis / 1000;
        self.current_format = Some(format);
        self.is_open = true;
        self.frame_counter = 0;
        Ok(format)
    }

    /// Starts capturing at `now`, when open: the clock starts and the
    /// generator starts again from its seed. A closed camera cannot start.
    pub fn start_at(&mut self, now: std::time::Instant) -> (r: Result<(), CaptureError>)
        ensures
            !old(self).spec_open() ==> {
                &&& r matches Err(CaptureError::Platform(m)) && m@ == "Camera not open"@
                &&& *final(self) == *old(self)
            },
            old(self).spec_open() ==> {
                &&& r is Ok
                &&& final(self).spec_capturing()
                &&& final(self).spec_start() == Some(now)
                &&& final(self).spec_last_frame() == Some(now)
                &&& final(self).spec_rng() == RNG_SEED
                &&& final(self).spec_config() == old(self).spec_config()
                &&& final(self).spec_open() == old(self).spec_open()
                &&& final(self).spec_format() == old(self).spec_format()
                &&& final(self).spec_frames() == old(self).spec_frames()
                &&& final(self).spec_errors() == old(self).spec_errors()
            },
    {
        if !self.is_open {
            return Err(CaptureError::Platform(owned("Camera not open")));
        }
        self.is_capturing = true;
        self.start_time = Some(now);
        self.last_frame_time = Some(now);
        self.rng_state = RNG_SEED;
        Ok(())
    }

    /// Starts capturing now.
    pub fn start(&mut self) -> (r: Result<(), CaptureError>)
        ensures
            !old(self).spec_open() ==> r is Err && *final(self) == *old(self),
            old(self).spec_open() ==> r is Ok && final(self).spec_capturing() && final(self).spec_rng() == RNG_SEED,
    {
        let now = instant_now();
        self.start_at(now)
    }

    /// Stops capturing.
    pub fn stop(&mut self) -> (r: Result<(), CaptureError>)
        ensures
            r is Ok,
            !final(self).spec_capturing(),
            final(self).spec_open() == old(self).spec_open(),
            final(self).spec_format() == old(self).spec_format(),
            final(self).spec_config() == old(self).spec_config(),
            final(self).spec_frames() == old(self).spec_frames(),
            final(self).spec_errors() == old(self).spec_errors(),
            final(self).spec_rng() == old(self).spec_rng(),
            final(self).spec_start() == old(self).spec_start(),
            final(self).spec_last_frame() == old(self).spec_last_frame(),
    {
        self.is_capturing = false;
        Ok(())
    }

    /// Closes the camera.
    pub fn close(&mut self)
        ensures
            !final(self).spec_capturing(),
            !final(self).spec_open(),
            final(self).spec_format() is None,
            final(self).spec_config() == old(self).spec_config(),
            final(self).spec_frames() == old(self).spec_frames(),
            final(self).spec_errors() == old(self).spec_errors(),
            final(self).spec_rng() == old(self).spec_rng(),
            final(self).spec_start() == old(self).spec_start(),
            final(self).spec_last_frame() == old(self).spec_last_frame(),
    {
        self.is_capturing = false;
        self.is_open = false;
        self.current_format = None;
    }
}

/// A camera with no error rate and no drop rate never fails and never drops
/// a frame, and makes no use of its generator to decide so.
pub proof fn lemma_zero_rates(s: u64, fuel: nat)
    ensures
        error_roll(0, s) == (false, s),
        drop_run(0, s, fuel) == (0nat, s),
{
}

/// A full rate (one million parts per million) fires on every generator
/// output but those whose low 32 bits are all ones.
pub proof fn lemma_full_rate(r: u64)
    ensures
        rate_threshold(1_000_000) == 0xFFFF_FFFFu64,
        rate_fires(r, 1_000_000) == ((r & 0xFFFF_FFFFu64) != 0xFFFF_FFFFu64),
{
    assert((r & 0xFFFF_FFFFu64) <= 0xFFFF_FFFFu64) by (bit_vector);
}

} // verus!
