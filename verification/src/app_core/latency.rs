//! Latency measurement from camera capture to display presentation.
//!
//! ```text
//! Camera -> Decode -> Process -> Render -> Present
//! ```
//!
//! Each frame records when each stage completed; the histogram counts
//! latencies in 20 ms buckets and keeps up to `MAX_RETAINED_METRICS` samples
//! for percentiles; the tracker keeps the most recent frames and counts how
//! many met the latency target. Latencies are whole microseconds.
use vstd::prelude::*;
use vstd::seq_lib::to_multiset_insert;
use std::collections::VecDeque;
use crate::clock::{elapsed_micros, instant_now, micros_between};

verus! {

/// Samples and frames kept for analysis.
pub const MAX_RETAINED_METRICS: usize = 1000;

/// Timing of one frame through the pipeline.
#[derive(Debug, Clone, Copy)]
pub struct FrameMetrics {
    /// Frame sequence number.
    pub sequence: u64,
    /// When the frame was captured.
    pub capture_time: std::time::Instant,
    /// When decoding completed, if the frame was decoded.
    pub decode_time: Option<std::time::Instant>,
    /// When processing completed.
    pub process_time: Option<std::time::Instant>,
    /// When the frame was submitted to the renderer.
    pub render_time: Option<std::time::Instant>,
    /// When the frame was presented.
    pub present_time: Option<std::time::Instant>,
}

/// The latency from `start` to an optional end.
pub open spec fn span_us(end: Option<std::time::Instant>, start: std::time::Instant) -> Option<u64> {
    match end {
        Some(t) => Some(micros_between(t, start)),
        None => None,
    }
}

/// The last completed stage's time, or the capture time.
pub open spec fn last_stage_time(m: FrameMetrics) -> std::time::Instant {
    match m.present_time {
        Some(t) => t,
        None => match m.render_time {
            Some(t) => t,
            None => match m.process_time {
                Some(t) => t,
                None => match m.decode_time {
                    Some(t) => t,
                    None => m.capture_time,
                },
            },
        },
    }
}

/// Whether any stage of a frame was recorded.
pub open spec fn has_stage(m: FrameMetrics) -> bool {
    m.present_time is Some || m.render_time is Some || m.process_time is Some || m.decode_time is Some
}

/// Total latency of a frame: from capture to the last completed stage; 0
/// when no stage was recorded.
pub open spec fn total_latency_spec(m: FrameMetrics) -> u64 {
    if has_stage(m) {
        micros_between(last_stage_time(m), m.capture_time)
    } else {
        0
    }
}

/// The time spent in each stage, in microseconds.
#[derive(Debug, Clone, Copy, PartialEq, Eq, Structural)]
pub struct StageBreakdown {
    /// Capture to decode.
    pub decode_us: Option<u64>,
    /// Decode (or capture) to process.
    pub process_us: Option<u64>,
    /// Process to render.
    pub render_us: Option<u64>,
    /// Render to present.
    pub present_us: Option<u64>,
    /// Capture to the last completed stage.
    pub total_us: u64,
}

impl Default for StageBreakdown {
    fn default() -> (r: Self)
        ensures
            r == (StageBreakdown { decode_us: None, process_us: None, render_us: None, present_us: None, total_us: 0 }),
    {
        StageBreakdown { decode_us: None, process_us: None, render_us: None, present_us: None, total_us: 0 }
    }
}

fn span(end: Option<std::time::Instant>, start: std::time::Instant) -> (r: Option<u64>)
    ensures
        r == span_us(end, start),
{
    match end {
        Some(t) => Some(elapsed_micros(&t, &start)),
        None => None,
    }
}

impl FrameMetrics {
    /// Metrics of a frame captured at `capture_time`, no stage completed.
    pub fn new(sequence: u64, capture_time: std::time::Instant) -> (r: Self)
        ensures
            r.sequence == sequence,
            r.capture_time == capture_time,
            r.decode_time is None,
            r.process_time is None,
            r.render_time is None,
            r.present_time is None,
    {
        FrameMetrics {
            sequence,
            capture_time,
            decode_time: None,
            process_time: None,
            render_time: None,
            present_time: None,
        }
    }

    /// Metrics of a frame captured now.
    pub fn new_now(sequence: u64) -> (r: Self)
        ensures
            r.sequence == sequence,
            r.decode_time is None,
            r.process_time is None,
            r.render_time is None,
            r.present_time is None,
    {
        FrameMetrics::new(sequence, instant_now())
    }

    /// Records that decoding completed now.
    pub fn mark_decode_complete(&mut self)
        ensures
            final(self).decode_time is Some,
            *final(self) == (FrameMetrics { decode_time: final(self).decode_time, ..*old(self) }),
    {
        self.decode_time = Some(instant_now());
    }

    /// Records that processing completed now.
    pub fn mark_process_complete(&mut self)
        ensures
            final(self).process_time is Some,
            *final(self) == (FrameMetrics { process_time: final(self).process_time, ..*old(self) }),
    {
        self.process_time = Some(instant_now());
    }

    /// Records that the frame was submitted to the renderer now.
    pub fn mark_render_complete(&mut self)
        ensures
            final(self).render_time is Some,
            *final(self) == (FrameMetrics { render_time: final(self).render_time, ..*old(self) }),
    {
        self.render_time = Some(instant_now());
    }

    /// Records that the frame was presented now.
    pub fn mark_present_complete(&mut self)
        ensures
            final(self).present_time is Some,
            *final(self) == (FrameMetrics { present_time: final(self).present_time, ..*old(self) }),
    {
        self.present_time = Some(instant_now());
    }

    /// Capture to decode, if the frame was decoded.
    pub fn decode_latency_us(&self) -> (r: Option<u64>)
        ensures
            r == span_us(self.decode_time, self.capture_time),
    {
        span(self.decode_time, self.capture_time)
    }

    /// Decode (or capture, without decoding) to process.
    pub fn process_latency_us(&self) -> (r: Option<u64>)
        ensures
            r == span_us(self.process_time, match self.decode_time {
                Some(t) => t,
                None => self.capture_time,
            }),
    {
        let start = match self.decode_time {
            Some(t) => t,
            None => self.capture_time,
        };
        span(self.process_time, start)
    }

    /// Process to render, when both happened.
    pub fn render_latency_us(&self) -> (r: Option<u64>)
        ensures
            r == match self.process_time {
                Some(start) => span_us(self.render_time, start),
                None => None,
            },
    {
        match self.process_time {
            Some(start) => span(self.render_time, start),
            None => None,
        }
    }

    /// Render to present, when both happened.
    pub fn present_latency_us(&self) -> (r: Option<u64>)
        ensures
            r == match self.render_time {
                Some(start) => span_us(self.present_time, start),
                None => None,
            },
    {
        match self.render_time {
            Some(start) => span(self.present_time, start),
            None => None,
        }
    }

    /// Capture to the last completed stage.
    pub fn total_latency_us(&self) -> (r: u64)
        ensures
            r == total_latency_spec(*self),
    {
        let end = match self.present_time {
            Some(t) => t,
            None => match self.render_time {
                Some(t) => t,
                None => match self.process_time {
                    Some(t) => t,
                    None => match self.decode_time {
                        Some(t) => t,
                        None => self.capture_time,
                    },
                },
            },
        };
        elapsed_micros(&end, &self.capture_time)
    }

    /// Whether the total latency is within `target_us` microseconds.
    pub fn meets_target_us(&self, target_us: u64) -> (r: bool)
        ensures
            r == (total_latency_spec(*self) <= target_us),
    {
        self.total_latency_us() <= target_us
    }

    /// The time spent in each stage.
    pub fn stage_breakdown(&self) -> (r: StageBreakdown)
        ensures
            r.decode_us == span_us(self.decode_time, self.capture_time),
            r.process_us == span_us(self.process_time, match self.decode_time {
                Some(t) => t,
                None => self.capture_time,
            }),
            r.render_us == match self.process_time {
                Some(start) => span_us(self.render_time, start),
                None => None,
            },
            r.present_us == match self.render_time {
                Some(start) => span_us(self.present_time, start),
                None => None,
            },
            r.total_us == total_latency_spec(*self),
    {
        StageBreakdown {
            decode_us: self.decode_latency_us(),
            process_us: self.process_latency_us(),
            render_us: self.render_latency_us(),
            present_us: self.present_latency_us(),
            total_us: self.total_latency_us(),
        }
    }
}

/// The histogram bucket of a latency: 20 ms wide up to 100 ms, then one
/// bucket for everything slower.
pub open spec fn bucket_of(latency_us: u64) -> int {
    let ms = latency_us / 1000;
    if ms < 20 {
        0
    } else if ms < 40 {
        1
    } else if ms < 60 {
        2
    } else if ms < 80 {
        3
    } else if ms < 100 {
        4
    } else {
        5
    }
}

/// A sample lands in the bucket whose label range holds it: bucket `i`
/// (labelled `20i-20(i+1)ms`) takes the latencies from `20i` ms up to but
/// not including `20(i+1)` ms, for `i` from 0 to 4, and the last bucket
/// (`100ms+`) takes everything from 100 ms on; so the bucket never goes down
/// as the latency goes up.
pub proof fn lemma_bucket_matches_label(latency_us: u64, other_us: u64, i: int)
    ensures
        0 <= i < 5 && 20_000 * i <= latency_us < 20_000 * (i + 1) ==> bucket_of(latency_us) == i,
        latency_us >= 100_000 ==> bucket_of(latency_us) == 5,
        latency_us <= other_us ==> bucket_of(latency_us) <= bucket_of(other_us),
{
}

/// The sum of the bucket counts.
pub open spec fn bucket_total(b: Seq<u64>) -> int {
    b[0] + b[1] + b[2] + b[3] + b[4] + b[5]
}

/// Whether a sequence is in non-decreasing order.
pub open spec fn sorted_seq(s: Seq<u64>) -> bool {
    forall|i: int, j: int| 0 <= i <= j < s.len() ==> s[i] <= s[j]
}

/// The samples kept after appending `more` to `kept` while fewer than the
/// limit are kept.
pub open spec fn retain_samples(kept: Seq<u64>, more: Seq<u64>) -> Seq<u64> {
    if kept.len() >= MAX_RETAINED_METRICS {
        kept
    } else if kept.len() + more.len() <= MAX_RETAINED_METRICS {
        kept + more
    } else {
        kept + more.take(MAX_RETAINED_METRICS - kept.len())
    }
}

/// Distribution of latencies.
#[derive(Debug)]
pub struct LatencyHistogram {
    buckets: [u64; 6],
    count: u64,
    sum_us: u64,
    min_us: u64,
    max_us: u64,
    samples: Vec<u64>,
}

impl Clone for LatencyHistogram {
    fn clone(&self) -> (r: Self)
        ensures
            r.spec_count() == self.spec_count(),
            r.spec_buckets() == self.spec_buckets(),
            r.spec_sum() == self.spec_sum(),
            r.spec_min() == self.spec_min(),
            r.spec_max() == self.spec_max(),
            r.spec_samples() == self.spec_samples(),
    {
        proof {
            use_type_invariant(self);
        }
        let mut samples: Vec<u64> = Vec::new();
        let mut i: usize = 0;
        while i < self.samples.len()
            invariant
                i <= self.samples@.len(),
                samples@ == self.samples@.take(i as int),
            decreases self.samples.len() - i,
        {
            samples.push(self.samples[i]);
            i = i + 1;
        }
        assert(samples@ =~= self.samples@);
        LatencyHistogram {
            buckets: self.buckets,
            count: self.count,
            sum_us: self.sum_us,
            min_us: self.min_us,
            max_us: self.max_us,
            samples,
        }
    }
}

impl Default for LatencyHistogram {
    fn default() -> (r: Self)
        ensures
            r.spec_count() == 0,
            r.spec_buckets() == seq![0u64, 0, 0, 0, 0, 0],
            r.spec_sum() == 0,
            r.spec_min() == u64::MAX,
            r.spec_max() == 0,
            r.spec_samples().len() == 0,
    {
        LatencyHistogram::new()
    }
}

impl LatencyHistogram {
    /// The samples recorded.
    pub closed spec fn spec_count(&self) -> u64 {
        self.count
    }

    /// The count in each bucket.
    pub closed spec fn spec_buckets(&self) -> Seq<u64> {
        self.buckets@
    }

    /// The sum of the samples.
    pub closed spec fn spec_sum(&self) -> u64 {
        self.sum_us
    }

    /// The smallest sample (`u64::MAX` when there is none).
    pub closed spec fn spec_min(&self) -> u64 {
        self.min_us
    }

    /// The largest sample (0 when there is none).
    pub closed spec fn spec_max(&self) -> u64 {
        self.max_us
    }

    /// The samples kept for percentiles, in the order recorded.
    pub closed spec fn spec_samples(&self) -> Seq<u64> {
        self.samples@
    }

    /// The buckets add up to the count, and at most the limit of samples is
    /// kept.
    #[verifier::type_invariant]
    pub closed spec fn wf(&self) -> bool {
        &&& bucket_total(self.buckets@) == self.count
        &&& self.samples@.len() <= MAX_RETAINED_METRICS
    }

    /// An empty histogram.
    pub fn new() -> (r: Self)
        ensures
            r.spec_count() == 0,
            r.spec_buckets() == seq![0u64, 0, 0, 0, 0, 0],
            r.spec_sum() == 0,
            r.spec_min() == u64::MAX,
            r.spec_max() == 0,
            r.spec_samples().len() == 0,
    {
        let r = LatencyHistogram {
            buckets: [0, 0, 0, 0, 0, 0],
            count: 0,
            sum_us: 0,
            min_us: u64::MAX,
            max_us: 0,
            samples: Vec::new(),
        };
        assert(r.buckets@ =~= seq![0u64, 0, 0, 0, 0, 0]);
        r
    }

    /// Records a latency sample in microseconds.
    pub fn record(&mut self, latency_us: u64)
        requires
            old(self).spec_count() < u64::MAX,
            old(self).spec_sum() + latency_us <= u64::MAX,
        ensures
            final(self).spec_count() == old(self).spec_count() + 1,
            final(self).spec_buckets() == old(self).spec_buckets().update(
                bucket_of(latency_us),
                (old(self).spec_buckets()[bucket_of(latency_us)] + 1) as u64,
            ),
            final(self).spec_sum() == old(self).spec_sum() + latency_us,
            final(self).spec_min() == if latency_us < old(self).spec_min() { latency_us } else { old(self).spec_min() },
            final(self).spec_max() == if latency_us > old(self).spec_max() { latency_us } else { old(self).spec_max() },
            final(self).spec_samples() == retain_samples(old(self).spec_samples(), seq![latency_us]),
    {
        let ms = latency_us / 1000;
        let idx: usize = if ms < 20 {
            0
        } else if ms < 40 {
            1
        } else if ms < 60 {
            2
        } else if ms < 80 {
            3
        } else if ms < 100 {
            4
        } else {
            5
        };
        assert(idx == bucket_of(latency_us));
        proof {
            use_type_invariant(&*self);
        }
        let mut buckets = self.buckets;
        let b = buckets[idx];
        buckets[idx] = b + 1;
        assert(buckets@ =~= self.buckets@.update(idx as int, (b + 1) as u64));
        let min_us = if latency_us < self.min_us { latency_us } else { self.min_us };
        let max_us = if latency_us > self.max_us { latency_us } else { self.max_us };
        let mut samples: Vec<u64> = Vec::new();
        std::mem::swap(&mut samples, &mut self.samples);
        let ghost before = samples@;
        if samples.len() < MAX_RETAINED_METRICS {
            samples.push(latency_us);
        }
        assert(samples@ =~= retain_samples(before, seq![latency_us]));
        *self = LatencyHistogram {
            buckets,
            count: self.count + 1,
            sum_us: self.sum_us + latency_us,
            min_us,
            max_us,
            samples,
        };
    }

    /// The number of samples recorded.
    pub fn count(&self) -> (r: u64)
        ensures
            r == self.spec_count(),
    {
        self.count
    }

    /// The count in each bucket.
    pub fn bucket_counts(&self) -> (r: [u64; 6])
        ensures
            r@ == self.spec_buckets(),
    {
        self.buckets
    }

    /// The sum of the samples in microseconds.
    pub fn sum_us(&self) -> (r: u64)
        ensures
            r == self.spec_sum(),
    {
        self.sum_us
    }

    /// The smallest sample in microseconds (`u64::MAX` when empty).
    pub fn min_us(&self) -> (r: u64)
        ensures
            r == self.spec_min(),
    {
        self.min_us
    }

    /// The largest sample in microseconds (0 when empty).
    pub fn max_us(&self) -> (r: u64)
        ensures
            r == self.spec_max(),
    {
        self.max_us
    }

    /// The kept samples sorted in non-decreasing order, for percentiles.
    pub fn sorted_samples(&self) -> (r: Vec<u64>)
        ensures
            sorted_seq(r@),
            r@.to_multiset() == self.spec_samples().to_multiset(),
    {
        let mut out: Vec<u64> = Vec::new();
        let mut i: usize = 0;
        assert(self.samples@.take(0) =~= out@);
        while i < self.samples.len()
            invariant
                i <= self.samples@.len(),
                sorted_seq(out@),
                out@.to_multiset() == self.samples@.take(i as int).to_multiset(),
            decreases self.samples.len() - i,
        {
            let x = self.samples[i];
            let mut p: usize = 0;
            while p < out.len() && out[p] <= x
                invariant
                    p <= out@.len(),
                    forall|j: int| 0 <= j < p ==> out@[j] <= x,
                decreases out.len() - p,
            {
                p = p + 1;
            }
            proof {
                to_multiset_insert(out@, p as int, x);
                assert(self.samples@.take(i as int + 1) =~= self.samples@.take(i as int).push(x));
                vstd::seq_lib::to_multiset_build(self.samples@.take(i as int), x);
            }
            let ghost before = out@;
            out.insert(p, x);
            proof {
                assert(out@ =~= before.insert(p as int, x));
                assert forall|a: int, b: int| 0 <= a <= b < out@.len() implies out@[a] <= out@[b] by {
                    if p < before.len() {
                        assert(before[p as int] > x);
                    }
                }
            }
            i = i + 1;
        }
        assert(self.samples@.take(self.samples@.len() as int) =~= self.samples@);
        out
    }

    /// The index into `n` sorted samples of the `p`-th percentile:
    /// `p / 100 * (n - 1)`, rounded half up.
    pub open spec fn percentile_index(p: u8, n: nat) -> int {
        (p * (n - 1) + 50) / 100
    }

    /// The `p`-th percentile of the kept samples in microseconds: the sorted
    /// sample at `percentile_index`; 0 when there is none. `p` is meant to be
    /// 0 to 100; a larger one is taken as long as the index stays in range.
    pub fn percentile_us(&self, p: u8) -> (r: u64)
        requires
            self.spec_samples().len() > 0 ==> Self::percentile_index(p, self.spec_samples().len()) < self.spec_samples().len(),
        ensures
            self.spec_samples().len() == 0 ==> r == 0,
            self.spec_samples().len() > 0 ==> exists|sorted: Seq<u64>| {
                &&& sorted_seq(sorted)
                &&& sorted.to_multiset() == self.spec_samples().to_multiset()
                &&& r == sorted[Self::percentile_index(p, self.spec_samples().len())]
            },
    {
        proof {
            use_type_invariant(self);
        }
        if self.samples.len() == 0 {
            return 0;
        }
        let sorted = self.sorted_samples();
        proof {
            vstd::seq_lib::to_multiset_len(sorted@);
            vstd::seq_lib::to_multiset_len(self.samples@);
        }
        sorted[Self::percentile_position(p, sorted.len())]
    }

    /// The `p`-th percentile as `percentile_us` gives it, or none when its
    /// index falls past the samples.
    pub fn percentile_checked(&self, p: u8) -> (r: Option<u64>)
        ensures
            r is None <==> (self.spec_samples().len() > 0
                && Self::percentile_index(p, self.spec_samples().len()) >= self.spec_samples().len()),
            self.spec_samples().len() == 0 ==> r == Some(0u64),
            (r is Some && self.spec_samples().len() > 0) ==> exists|sorted: Seq<u64>| {
                &&& sorted_seq(sorted)
                &&& sorted.to_multiset() == self.spec_samples().to_multiset()
                &&& r->0 == sorted[Self::percentile_index(p, self.spec_samples().len())]
            },
    {
        proof {
            use_type_invariant(self);
        }
        let n = self.samples.len();
        if n > 0 && Self::percentile_position(p, n) >= n {
            return None;
        }
        Some(self.percentile_us(p))
    }

    /// `percentile_index` for `n` samples, computed.
    fn percentile_position(p: u8, n: usize) -> (r: usize)
        requires
            1 <= n <= MAX_RETAINED_METRICS,
        ensures
            r == Self::percentile_index(p, n as nat),
    {
        let pu = p as usize;
        assert(pu * (n - 1) <= 255 * 999) by (nonlinear_arith)
            requires pu <= 255, 1 <= n <= 1000;
        (pu * (n - 1) + 50) / 100
    }

    /// Whether the median and the 95th percentile are within their targets,
    /// in microseconds (an empty histogram meets any target).
    pub fn meets_targets_us(&self, p50_target_us: u64, p95_target_us: u64) -> (r: bool)
        ensures
            self.spec_samples().len() == 0 ==> r,
            self.spec_samples().len() > 0 ==> exists|sorted: Seq<u64>| {
                &&& sorted_seq(sorted)
                &&& sorted.to_multiset() == self.spec_samples().to_multiset()
                &&& r == (sorted[Self::percentile_index(50, self.spec_samples().len())] <= p50_target_us
                    && sorted[Self::percentile_index(95, self.spec_samples().len())] <= p95_target_us)
            },
    {
        proof {
            use_type_invariant(self);
        }
        if self.samples.len() == 0 {
            return true;
        }
        let sorted = self.sorted_samples();
        proof {
            vstd::seq_lib::to_multiset_len(sorted@);
            vstd::seq_lib::to_multiset_len(self.samples@);
        }
        let n = sorted.len();
        let i50 = Self::percentile_position(50, n);
        let i95 = Self::percentile_position(95, n);
        assert(i50 < n && i95 < n) by (nonlinear_arith)
            requires i50 == (50 * (n - 1) + 50) / 100, i95 == (95 * (n - 1) + 50) / 100, n >= 1;
        sorted[i50] <= p50_target_us && sorted[i95] <= p95_target_us
    }

    /// The labels of the buckets.
    pub fn bucket_labels() -> (r: [&'static str; 6])
        ensures
            r[0]@ == "0-20ms"@,
            r[1]@ == "20-40ms"@,
            r[2]@ == "40-60ms"@,
            r[3]@ == "60-80ms"@,
            r[4]@ == "80-100ms"@,
            r[5]@ == "100ms+"@,
    {
        ["0-20ms", "20-40ms", "40-60ms", "60-80ms", "80-100ms", "100ms+"]
    }

    /// Adds another histogram's samples to this one.
    pub fn merge(&mut self, other: &LatencyHistogram)
        requires
            old(self).spec_count() + other.spec_count() <= u64::MAX,
            old(self).spec_sum() + other.spec_sum() <= u64::MAX,
        ensures
            final(self).spec_count() == old(self).spec_count() + other.spec_count(),
            forall|i: int| 0 <= i < 6 ==> #[trigger] final(self).spec_buckets()[i] == old(self).spec_buckets()[i] + other.spec_buckets()[i],
            final(self).spec_buckets().len() == 6,
            final(self).spec_sum() == old(self).spec_sum() + other.spec_sum(),
            final(self).spec_min() == if other.spec_min() < old(self).spec_min() { other.spec_min() } else { old(self).spec_min() },
            final(self).spec_max() == if other.spec_max() > old(self).spec_max() { other.spec_max() } else { old(self).spec_max() },
            final(self).spec_samples() == retain_samples(old(self).spec_samples(), other.spec_samples()),
    {
        proof {
            use_type_invariant(&*self);
            use_type_invariant(other);
        }
        let mut samples: Vec<u64> = Vec::new();
        std::mem::swap(&mut samples, &mut self.samples);
        let ghost before = samples@;
        let mut k: usize = 0;
        while k < other.samples.len()
            invariant
                k <= other.samples@.len(),
                before.len() <= MAX_RETAINED_METRICS,
                samples@ == retain_samples(before, other.samples@.take(k as int)),
            decreases other.samples.len() - k,
        {
            if samples.len() < MAX_RETAINED_METRICS {
                samples.push(other.samples[k]);
            }
            proof {
                let t = other.samples@.take(k as int + 1);
                assert(t =~= other.samples@.take(k as int).push(other.samples@[k as int]));
                if before.len() + k + 1 <= MAX_RETAINED_METRICS {
                    assert(before + t =~= (before + other.samples@.take(k as int)).push(other.samples@[k as int]));
                } else if before.len() < MAX_RETAINED_METRICS {
                    if before.len() + k < MAX_RETAINED_METRICS {
                        assert(t.take(MAX_RETAINED_METRICS - before.len()) =~= other.samples@.take(k as int).push(other.samples@[k as int]));
                    } else {
                        assert(t.take(MAX_RETAINED_METRICS - before.len()) =~= other.samples@.take(k as int).take(MAX_RETAINED_METRICS - before.len()));
                    }
                }
            }
            k = k + 1;
        }
        assert(other.samples@.take(other.samples@.len() as int) =~= other.samples@);
        let old_b = self.buckets;
        let mut buckets = self.buckets;
        let mut i: usize = 0;
        while i < 6
            invariant
                i <= 6,
                buckets@.len() == 6,
                old_b@.len() == 6,
                other.buckets@.len() == 6,
                bucket_total(old_b@) + bucket_total(other.buckets@) <= u64::MAX,
                forall|k: int| 0 <= k < i ==> #[trigger] buckets@[k] == old_b@[k] + other.buckets@[k],
                forall|k: int| i <= k < 6 ==> #[trigger] buckets@[k] == old_b@[k],
            decreases 6 - i,
        {
            let b = buckets[i];
            let o = other.buckets[i];
            buckets[i] = b + o;
            i = i + 1;
        }
        let min_us = if other.min_us < self.min_us { other.min_us } else { self.min_us };
        let max_us = if other.max_us > self.max_us { other.max_us } else { self.max_us };
        *self = LatencyHistogram {
            buckets,
            count: self.count + other.count,
            sum_us: self.sum_us + other.sum_us,
            min_us,
            max_us,
            samples,
        };
    }

    /// Empties the histogram.
    pub fn reset(&mut self)
        ensures
            final(self).spec_count() == 0,
            final(self).spec_buckets() == seq![0u64, 0, 0, 0, 0, 0],
            final(self).spec_sum() == 0,
            final(self).spec_min() == u64::MAX,
            final(self).spec_max() == 0,
            final(self).spec_samples().len() == 0,
    {
        *self = LatencyHistogram::new();
    }
}

/// The last `count` elements of `s`, most recent first.
pub open spec fn most_recent_first(s: Seq<FrameMetrics>, count: int) -> Seq<FrameMetrics> {
    let n = if count < s.len() { count } else { s.len() as int };
    Seq::new(n as nat, |i: int| s[s.len() - 1 - i])
}

/// Collects frame metrics across the pipeline: a histogram of latencies,
/// the most recent frames, and how many frames met the latency target.
#[derive(Debug)]
pub struct LatencyTracker {
    recent_metrics: VecDeque<FrameMetrics>,
    histogram: LatencyHistogram,
    frames_tracked: u64,
    frames_met_target: u64,
    target_us: u64,
}

impl LatencyTracker {
    /// The histogram of total latencies.
    pub closed spec fn spec_histogram(&self) -> LatencyHistogram {
        self.histogram
    }

    /// The frames kept, oldest first.
    pub closed spec fn spec_recent(&self) -> Seq<FrameMetrics> {
        self.recent_metrics@
    }

    /// Frames submitted (wrapping).
    pub closed spec fn spec_frames_tracked(&self) -> u64 {
        self.frames_tracked
    }

    /// Frames that met the target (wrapping).
    pub closed spec fn spec_frames_met_target(&self) -> u64 {
        self.frames_met_target
    }

    /// The latency target in microseconds.
    pub closed spec fn spec_target_us(&self) -> u64 {
        self.target_us
    }

    /// The histogram is well formed and at most the limit of frames is kept.
    #[verifier::type_invariant]
    pub closed spec fn wf(&self) -> bool {
        self.recent_metrics@.len() <= MAX_RETAINED_METRICS
    }

    /// A tracker with the default target of 100 ms.
    pub fn new() -> (r: Self)
        ensures
            r.spec_target_us() == 100_000,
            r.spec_histogram().spec_count() == 0,
            r.spec_histogram().spec_sum() == 0,
            r.spec_recent().len() == 0,
            r.spec_frames_tracked() == 0,
            r.spec_frames_met_target() == 0,
    {
        LatencyTracker::with_target_us(100_000)
    }

    /// A tracker with the given target in microseconds.
    pub fn with_target_us(target_us: u64) -> (r: Self)
        ensures
            r.spec_target_us() == target_us,
            r.spec_histogram().spec_count() == 0,
            r.spec_histogram().spec_sum() == 0,
            r.spec_recent().len() == 0,
            r.spec_frames_tracked() == 0,
            r.spec_frames_met_target() == 0,
    {
        LatencyTracker {
            recent_metrics: VecDeque::new(),
            histogram: LatencyHistogram::new(),
            frames_tracked: 0,
            frames_met_target: 0,
            target_us,
        }
    }

    /// Records a frame: its total latency goes into the histogram, the frame
    /// joins the recent ones (the oldest leaves when the limit is reached),
    /// and the counters advance.
    pub fn submit(&mut self, metrics: FrameMetrics)
        requires
            old(self).spec_histogram().spec_count() < u64::MAX,
            old(self).spec_histogram().spec_sum() + total_latency_spec(metrics) <= u64::MAX,
        ensures
            final(self).spec_histogram().spec_count() == old(self).spec_histogram().spec_count() + 1,
            final(self).spec_histogram().spec_sum() == old(self).spec_histogram().spec_sum() + total_latency_spec(metrics),
            final(self).spec_recent() == if old(self).spec_recent().len() >= MAX_RETAINED_METRICS {
                old(self).spec_recent().drop_first().push(metrics)
            } else {
                old(self).spec_recent().push(metrics)
            },
            final(self).spec_frames_tracked() == old(self).spec_frames_tracked().wrapping_add(1),
            final(self).spec_frames_met_target() == if total_latency_spec(metrics) <= old(self).spec_target_us() {
                old(self).spec_frames_met_target().wrapping_add(1)
            } else {
                old(self).spec_frames_met_target()
            },
            final(self).spec_target_us() == old(self).spec_target_us(),
    {
        proof {
            use_type_invariant(&*self);
        }
        let latency_us = metrics.total_latency_us();
        let met = latency_us <= self.target_us;
        let mut histogram = LatencyHistogram::new();
        std::mem::swap(&mut histogram, &mut self.histogram);
        histogram.record(latency_us);
        self.histogram = histogram;
        let mut recent: VecDeque<FrameMetrics> = VecDeque::new();
        std::mem::swap(&mut recent, &mut self.recent_metrics);
        if recent.len() >= MAX_RETAINED_METRICS {
            recent.pop_front();
        }
        recent.push_back(metrics);
        self.recent_metrics = recent;
        self.frames_tracked = self.frames_tracked.wrapping_add(1);
        if met {
            self.frames_met_target = self.frames_met_target.wrapping_add(1);
        }
    }

    /// Records a frame when its latency still fits the histogram's sums,
    /// and returns whether it did; otherwise nothing changes.
    pub fn submit_checked(&mut self, metrics: FrameMetrics) -> (r: bool)
        ensures
            r == (old(self).spec_histogram().spec_count() < u64::MAX
                && old(self).spec_histogram().spec_sum() + total_latency_spec(metrics) <= u64::MAX),
            !r ==> *final(self) == *old(self),
            r ==> final(self).spec_histogram().spec_count() == old(self).spec_histogram().spec_count() + 1,
            r ==> final(self).spec_frames_tracked() == old(self).spec_frames_tracked().wrapping_add(1),
    {
        let latency_us = metrics.total_latency_us();
        let count = self.histogram.count();
        let sum = self.histogram.sum_us();
        if count < u64::MAX && latency_us <= u64::MAX - sum {
            self.submit(metrics);
            true
        } else {
            false
        }
    }

    /// A copy of the histogram.
    pub fn histogram(&self) -> (r: LatencyHistogram)
        ensures
            r.spec_count() == self.spec_histogram().spec_count(),
            r.spec_buckets() == self.spec_histogram().spec_buckets(),
            r.spec_sum() == self.spec_histogram().spec_sum(),
            r.spec_min() == self.spec_histogram().spec_min(),
            r.spec_max() == self.spec_histogram().spec_max(),
            r.spec_samples() == self.spec_histogram().spec_samples(),
    {
        self.histogram.clone()
    }

    /// Up to `count` of the kept frames, most recent first.
    pub fn recent_metrics(&self, count: usize) -> (r: Vec<FrameMetrics>)
        ensures
            r@ == most_recent_first(self.spec_recent(), count as int),
    {
        let n = self.recent_metrics.len();
        let take = if count < n { count } else { n };
        let mut out: Vec<FrameMetrics> = Vec::new();
        let mut i: usize = 0;
        while i < take
            invariant
                take <= n,
                n == self.recent_metrics@.len(),
                i <= take,
                take == if (count as int) < n { count as int } else { n as int },
                out@ == most_recent_first(self.recent_metrics@, count as int).take(i as int),
            decreases take - i,
        {
            out.push(self.recent_metrics[n - 1 - i]);
            proof {
                assert(out@ =~= most_recent_first(self.recent_metrics@, count as int).take(i as int + 1));
            }
            i = i + 1;
        }
        assert(out@ =~= most_recent_first(self.recent_metrics@, count as int));
        out
    }

    /// Frames submitted.
    pub fn frames_tracked(&self) -> (r: u64)
        ensures
            r == self.spec_frames_tracked(),
    {
        self.frames_tracked
    }

    /// Frames that met the target.
    pub fn frames_met_target(&self) -> (r: u64)
        ensures
            r == self.spec_frames_met_target(),
    {
        self.frames_met_target
    }

    /// The latency target in microseconds.
    pub fn target_us(&self) -> (r: u64)
        ensures
            r == self.spec_target_us(),
    {
        self.target_us
    }

    /// Forgets every frame and sample; the target stays.
    pub fn reset(&mut self)
        ensures
            final(self).spec_histogram().spec_count() == 0,
            final(self).spec_histogram().spec_sum() == 0,
            final(self).spec_recent().len() == 0,
            final(self).spec_frames_tracked() == 0,
            final(self).spec_frames_met_target() == 0,
            final(self).spec_target_us() == old(self).spec_target_us(),
    {
        self.recent_metrics = VecDeque::new();
        self.histogram = LatencyHistogram::new();
        self.frames_tracked = 0;
        self.frames_met_target = 0;
    }
}

} // verus!
