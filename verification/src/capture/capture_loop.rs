//! The frame capture loop: its counters and its decisions.
//!
//! The loop that pulls frames from a camera and hands them to a bounded
//! channel runs on a thread of its own, outside this library. After each
//! attempt it asks this module what to do next, and this module keeps the
//! counters: frames delivered, frames dropped because the channel was full,
//! and errors, consecutive and total. Counters wrap on overflow.
use vstd::prelude::*;
use crate::app_core::error::CaptureError;
use crate::text::{decimal_digits, u64_to_decimal};

verus! {

/// Capacity of the frame delivery channel: small to keep latency low.
pub const FRAME_CHANNEL_CAPACITY: usize = 2;

/// Consecutive capture errors after which the loop gives up.
pub const MAX_CONSECUTIVE_ERRORS: u32 = 10;

/// Time to wait for a frame, in milliseconds.
pub const FRAME_TIMEOUT_MS: u64 = 1000;

/// Pause before retrying after a capture error, in milliseconds.
pub const ERROR_RETRY_PAUSE_MS: u64 = 10;

/// Counters kept by the capture loop.
#[derive(Debug, Clone, Copy, PartialEq, Eq, Structural)]
pub struct CaptureMetrics {
    /// Frames delivered.
    pub frames_captured: u64,
    /// Frames dropped because the channel was full.
    pub frames_dropped: u64,
    /// Capture errors since the last delivered frame.
    pub consecutive_errors: u64,
    /// Capture errors in all.
    pub total_errors: u64,
}

/// The counters at one moment.
#[derive(Debug, Clone, Copy, PartialEq, Eq, Structural)]
pub struct MetricsSnapshot {
    pub frames_captured: u64,
    pub frames_dropped: u64,
    pub total_errors: u64,
}

/// State of the capture loop.
#[derive(Debug, Clone, Copy, PartialEq, Eq, Structural)]
pub enum CaptureState {
    /// Not started.
    Idle,
    /// The capture thread is running.
    Running,
    /// Stopped normally.
    Stopped,
    /// Stopped because of an error.
    Error,
}

impl Default for CaptureMetrics {
    fn default() -> (r: Self)
        ensures
            r == (CaptureMetrics { frames_captured: 0, frames_dropped: 0, consecutive_errors: 0, total_errors: 0 }),
    {
        CaptureMetrics { frames_captured: 0, frames_dropped: 0, consecutive_errors: 0, total_errors: 0 }
    }
}

impl CaptureMetrics {
    /// All counters at zero.
    pub fn new() -> (r: Self)
        ensures
            r == (CaptureMetrics { frames_captured: 0, frames_dropped: 0, consecutive_errors: 0, total_errors: 0 }),
    {
        CaptureMetrics::default()
    }

    /// The current counters.
    pub fn snapshot(&self) -> (r: MetricsSnapshot)
        ensures
            r == (MetricsSnapshot {
                frames_captured: self.frames_captured,
                frames_dropped: self.frames_dropped,
                total_errors: self.total_errors,
            }),
    {
        MetricsSnapshot {
            frames_captured: self.frames_captured,
            frames_dropped: self.frames_dropped,
            total_errors: self.total_errors,
        }
    }

    /// Sets every counter to zero.
    pub fn reset(&mut self)
        ensures
            *final(self) == (CaptureMetrics { frames_captured: 0, frames_dropped: 0, consecutive_errors: 0, total_errors: 0 }),
    {
        self.frames_captured = 0;
        self.frames_dropped = 0;
        self.consecutive_errors = 0;
        self.total_errors = 0;
    }

    /// Counts a delivered frame and ends any run of errors.
    pub fn record_frame_captured(&mut self)
        ensures
            final(self).frames_captured == old(self).frames_captured.wrapping_add(1),
            final(self).consecutive_errors == 0,
            final(self).frames_dropped == old(self).frames_dropped,
            final(self).total_errors == old(self).total_errors,
    {
        self.frames_captured = self.frames_captured.wrapping_add(1);
        self.consecutive_errors = 0;
    }

    /// Counts a dropped frame.
    pub fn record_frame_dropped(&mut self)
        ensures
            final(self).frames_dropped == old(self).frames_dropped.wrapping_add(1),
            final(self).frames_captured == old(self).frames_captured,
            final(self).consecutive_errors == old(self).consecutive_errors,
            final(self).total_errors == old(self).total_errors,
    {
        self.frames_dropped = self.frames_dropped.wrapping_add(1);
    }

    /// Counts a capture error.
    pub fn record_error(&mut self)
        ensures
            final(self).consecutive_errors == old(self).consecutive_errors.wrapping_add(1),
            final(self).total_errors == old(self).total_errors.wrapping_add(1),
            final(self).frames_captured == old(self).frames_captured,
            final(self).frames_dropped == old(self).frames_dropped,
    {
        self.consecutive_errors = self.consecutive_errors.wrapping_add(1);
        self.total_errors = self.total_errors.wrapping_add(1);
    }

    /// Capture errors since the last delivered frame.
    pub fn consecutive_errors(&self) -> (r: u64)
        ensures
            r == self.consecutive_errors,
    {
        self.consecutive_errors
    }
}

/// What became of a frame handed to the channel.
#[derive(Debug, Clone, Copy, PartialEq, Eq, Structural)]
pub enum SendOutcome {
    /// The frame was queued.
    Sent,
    /// The channel was full; the frame was dropped.
    Full,
    /// The receiver is gone.
    Closed,
}

/// What the capture loop does next.
#[derive(Debug)]
pub enum LoopStep {
    /// Capture the next frame.
    Continue,
    /// Pause briefly, then capture the next frame.
    RetryAfterPause,
    /// Stop normally.
    Finish,
    /// Stop with an error.
    Fail(CaptureError),
}

/// The message of the error that ends a run of `n` consecutive errors.
pub open spec fn too_many_errors_text(n: nat) -> Seq<char> {
    "Too many consecutive errors: "@ + decimal_digits(n)
}

/// After a frame was handed to the channel: a queued frame is counted and
/// ends a run of errors, a dropped one is counted, and a closed channel ends
/// the loop.
pub fn after_frame_sent(metrics: &mut CaptureMetrics, outcome: SendOutcome) -> (r: LoopStep)
    ensures
        outcome is Sent ==> {
            &&& r is Continue
            &&& final(metrics).frames_captured == old(metrics).frames_captured.wrapping_add(1)
            &&& final(metrics).consecutive_errors == 0
            &&& final(metrics).frames_dropped == old(metrics).frames_dropped
            &&& final(metrics).total_errors == old(metrics).total_errors
        },
        outcome is Full ==> {
            &&& r is Continue
            &&& final(metrics).frames_dropped == old(metrics).frames_dropped.wrapping_add(1)
            &&& final(metrics).frames_captured == old(metrics).frames_captured
            &&& final(metrics).consecutive_errors == old(metrics).consecutive_errors
            &&& final(metrics).total_errors == old(metrics).total_errors
        },
        outcome is Closed ==> r is Finish && *final(metrics) == *old(metrics),
{
    match outcome {
        SendOutcome::Sent => {
            metrics.record_frame_captured();
            LoopStep::Continue
        },
        SendOutcome::Full => {
            metrics.record_frame_dropped();
            LoopStep::Continue
        },
        SendOutcome::Closed => LoopStep::Finish,
    }
}

/// After a capture error: the error is counted; a disconnection ends the
/// loop with that error, a run of `MAX_CONSECUTIVE_ERRORS` errors ends it
/// with a platform error, and anything else is retried after a pause.
pub fn after_capture_error(metrics: &mut CaptureMetrics, error: CaptureError) -> (r: LoopStep)
    ensures
        final(metrics).consecutive_errors == old(metrics).consecutive_errors.wrapping_add(1),
        final(metrics).total_errors == old(metrics).total_errors.wrapping_add(1),
        final(metrics).frames_captured == old(metrics).frames_captured,
        final(metrics).frames_dropped == old(metrics).frames_dropped,
        error is Disconnected ==> r == LoopStep::Fail(error),
        !(error is Disconnected) && final(metrics).consecutive_errors >= MAX_CONSECUTIVE_ERRORS ==>
            (r matches LoopStep::Fail(CaptureError::Platform(m))
                && m@ == too_many_errors_text(final(metrics).consecutive_errors as nat)),
        !(error is Disconnected) && final(metrics).consecutive_errors < MAX_CONSECUTIVE_ERRORS ==> r is RetryAfterPause,
{
    metrics.record_error();
    let consecutive = metrics.consecutive_errors();
    if let CaptureError::Disconnected = error {
        return LoopStep::Fail(error);
    }
    if consecutive >= MAX_CONSECUTIVE_ERRORS as u64 {
        let mut m = crate::text::owned("Too many consecutive errors: ");
        let digits = u64_to_decimal(consecutive);
        m.append(digits.as_str());
        return LoopStep::Fail(CaptureError::Platform(m));
    }
    LoopStep::RetryAfterPause
}

} // verus!
