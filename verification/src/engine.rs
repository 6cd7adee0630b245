//! The display engine: the pause/freeze state machine between capture and
//! rendering.
//!
//! While paused, capture keeps running, the last processed frame is held in
//! a freeze buffer and shown, and new frames are discarded (and counted).
//! On resume the next captured frame is shown at once. Frame processing and
//! rendering themselves happen outside this library; the engine decides
//! whether a frame is processed, which frame is shown, and keeps the counts.
use vstd::prelude::*;
use std::sync::Arc;
use crate::app_core::events::{Command, Event};
use crate::app_core::types::{Flip, Rotation};
use crate::clock::{elapsed_millis, instant_now, millis_between};

verus! {

/// A frame ready for display: RGBA pixels.
#[derive(Debug)]
pub struct ProcessedFrame {
    /// Pixel data.
    pub data: Vec<u8>,
    /// Width in pixels.
    pub width: u32,
    /// Height in pixels.
    pub height: u32,
}

impl ProcessedFrame {
    /// A frame with the given pixels and size.
    pub fn new(data: Vec<u8>, width: u32, height: u32) -> (r: Self)
        ensures
            r.data@ == data@,
            r.width == width,
            r.height == height,
    {
        ProcessedFrame { data, width, height }
    }
}

/// How captured frames are transformed before display.
#[derive(Debug, Clone, Copy, PartialEq, Eq, Structural)]
pub struct ProcessorConfig {
    /// Rotation applied to each frame.
    pub rotation: Rotation,
    /// Mirroring applied to each frame.
    pub flip: Flip,
}

impl Default for ProcessorConfig {
    fn default() -> (r: Self)
        ensures
            r == (ProcessorConfig { rotation: Rotation::NoRotation, flip: Flip::NoFlip }),
    {
        ProcessorConfig { rotation: Rotation::NoRotation, flip: Flip::NoFlip }
    }
}

/// Holds the frame shown while the display is paused.
#[derive(Debug)]
pub struct FreezeBuffer {
    frame: Option<Arc<ProcessedFrame>>,
}

impl FreezeBuffer {
    /// The frozen frame, if any.
    pub closed spec fn spec_frame(&self) -> Option<Arc<ProcessedFrame>> {
        self.frame
    }

    /// An empty buffer.
    pub fn new() -> (r: Self)
        ensures
            r.spec_frame() is None,
    {
        FreezeBuffer { frame: None }
    }

    /// Freezes a frame.
    pub fn freeze(&mut self, frame: ProcessedFrame)
        ensures
            final(self).spec_frame() matches Some(f) && *f == frame,
    {
        self.frame = Some(Arc::new(frame));
    }

    /// Freezes a shared frame without copying it.
    pub fn freeze_arc(&mut self, frame: Arc<ProcessedFrame>)
        ensures
            final(self).spec_frame() == Some(frame),
        no_unwind
    {
        self.frame = Some(frame);
    }

    /// The frozen frame, if any.
    pub fn get(&self) -> (r: Option<Arc<ProcessedFrame>>)
        ensures
            r == self.spec_frame(),
    {
        match &self.frame {
            Some(f) => Some(Arc::clone(f)),
            None => None,
        }
    }

    /// Empties the buffer.
    pub fn clear(&mut self)
        ensures
            final(self).spec_frame() is None,
        no_unwind
    {
        self.frame = None;
    }

    /// Whether a frame is frozen.
    pub fn has_frame(&self) -> (r: bool)
        ensures
            r == self.spec_frame() is Some,
    {
        self.frame.is_some()
    }
}

impl Default for FreezeBuffer {
    fn default() -> (r: Self)
        ensures
            r.spec_frame() is None,
    {
        FreezeBuffer::new()
    }
}

/// State of the display.
#[derive(Debug, Clone, Copy, PartialEq, Eq, Structural)]
pub enum DisplayState {
    /// Not rendering.
    Stopped,
    /// Rendering live frames.
    Running,
    /// Showing the frozen frame.
    Paused,
}

impl DisplayState {
    /// Whether the display shows anything.
    pub fn is_active(&self) -> (r: bool)
        ensures
            r == (*self is Running || *self is Paused),
    {
        matches!(self, DisplayState::Running | DisplayState::Paused)
    }
}

/// Configuration of the engine.
#[derive(Debug, Clone, Copy, PartialEq, Eq, Structural)]
pub struct EngineConfig {
    /// How frames are processed.
    pub processor: ProcessorConfig,
    /// Whether capture continues while paused.
    pub capture_while_paused: bool,
}

impl Default for EngineConfig {
    fn default() -> (r: Self)
        ensures
            r.processor == (ProcessorConfig { rotation: Rotation::NoRotation, flip: Flip::NoFlip }),
            r.capture_while_paused,
    {
        EngineConfig { processor: ProcessorConfig::default(), capture_while_paused: true }
    }
}

/// Counters kept by the engine; they wrap on overflow.
#[derive(Debug, Clone, Copy, PartialEq, Eq, Structural)]
pub struct EngineMetrics {
    /// Frames processed.
    pub frames_processed: u64,
    /// Frames rendered.
    pub frames_rendered: u64,
    /// Frames skipped while paused.
    pub frames_skipped: u64,
    /// Processing errors.
    pub processing_errors: u64,
    /// Render errors.
    pub render_errors: u64,
    /// Total time spent paused, in milliseconds.
    pub time_paused_ms: u64,
}

/// All counters at zero.
pub open spec fn zero_metrics() -> EngineMetrics {
    EngineMetrics {
        frames_processed: 0,
        frames_rendered: 0,
        frames_skipped: 0,
        processing_errors: 0,
        render_errors: 0,
        time_paused_ms: 0,
    }
}

impl Default for EngineMetrics {
    fn default() -> (r: Self)
        ensures
            r == zero_metrics(),
    {
        EngineMetrics {
            frames_processed: 0,
            frames_rendered: 0,
            frames_skipped: 0,
            processing_errors: 0,
            render_errors: 0,
            time_paused_ms: 0,
        }
    }
}

/// Connects capture, processing and rendering, and manages pausing.
#[derive(Debug)]
pub struct DisplayEngine {
    state: DisplayState,
    freeze_buffer: FreezeBuffer,
    config: EngineConfig,
    stop_signal: bool,
    metrics: EngineMetrics,
    pause_start: Option<std::time::Instant>,
    last_frame: Option<Arc<ProcessedFrame>>,
}

impl DisplayEngine {
    /// The display state.
    pub closed spec fn spec_state(&self) -> DisplayState {
        self.state
    }

    /// The frozen frame.
    pub closed spec fn spec_frozen(&self) -> Option<Arc<ProcessedFrame>> {
        self.freeze_buffer.frame
    }

    /// The most recent processed frame.
    pub closed spec fn spec_last_frame(&self) -> Option<Arc<ProcessedFrame>> {
        self.last_frame
    }

    /// The counters.
    pub closed spec fn spec_metrics(&self) -> EngineMetrics {
        self.metrics
    }

    /// The configuration.
    pub closed spec fn spec_config(&self) -> EngineConfig {
        self.config
    }

    /// When the current pause started.
    pub closed spec fn spec_pause_start(&self) -> Option<std::time::Instant> {
        self.pause_start
    }

    /// Whether the engine was asked to stop.
    pub closed spec fn spec_stop_signal(&self) -> bool {
        self.stop_signal
    }

    /// Only a paused engine has a pause start.
    #[verifier::type_invariant]
    pub closed spec fn wf(&self) -> bool {
        self.pause_start is Some ==> self.state is Paused
    }

    /// A stopped engine with the default configuration.
    pub fn new() -> (r: Self)
        ensures
            r.spec_state() is Stopped,
            r.spec_frozen() is None,
            r.spec_last_frame() is None,
            r.spec_metrics() == zero_metrics(),
            r.spec_pause_start() is None,
            !r.spec_stop_signal(),
    {
        DisplayEngine::with_config(EngineConfig::default())
    }

    /// A stopped engine with the given configuration.
    pub fn with_config(config: EngineConfig) -> (r: Self)
        ensures
            r.spec_state() is Stopped,
            r.spec_config() == config,
            r.spec_frozen() is None,
            r.spec_last_frame() is None,
            r.spec_metrics() == zero_metrics(),
            r.spec_pause_start() is None,
            !r.spec_stop_signal(),
    {
        DisplayEngine {
            state: DisplayState::Stopped,
            freeze_buffer: FreezeBuffer::new(),
            config,
            stop_signal: false,
            metrics: EngineMetrics::default(),
            pause_start: None,
            last_frame: None,
        }
    }

    /// The display state.
    pub fn state(&self) -> (r: DisplayState)
        ensures
            r == self.spec_state(),
    {
        self.state
    }

    /// Whether the display is paused.
    pub fn is_paused(&self) -> (r: bool)
        ensures
            r == (self.spec_state() is Paused),
    {
        self.state == DisplayState::Paused
    }

    /// Whether the display is running.
    pub fn is_running(&self) -> (r: bool)
        ensures
            r == (self.spec_state() is Running),
    {
        self.state == DisplayState::Running
    }

    /// Starts a stopped engine; otherwise does nothing.
    pub fn start(&mut self)
        ensures
            final(self).spec_state() == (if old(self).spec_state() is Stopped { DisplayState::Running } else { old(self).spec_state() }),
            final(self).spec_frozen() == old(self).spec_frozen(),
            final(self).spec_last_frame() == old(self).spec_last_frame(),
            final(self).spec_metrics() == old(self).spec_metrics(),
            final(self).spec_pause_start() == old(self).spec_pause_start(),
    {
        proof {
            use_type_invariant(&*self);
        }
        if self.state == DisplayState::Stopped {
            self.state = DisplayState::Running;
        }
    }

    /// Adds the time since the pause started to the paused total.
    fn close_pause_at(&mut self, now: std::time::Instant)
        ensures
            final(self).spec_pause_start() is None,
            final(self).spec_metrics() == match old(self).spec_pause_start() {
                Some(start) => EngineMetrics {
                    time_paused_ms: old(self).spec_metrics().time_paused_ms.wrapping_add(millis_between(now, start)),
                    ..old(self).spec_metrics()
                },
                None => old(self).spec_metrics(),
            },
            final(self).spec_state() == old(self).spec_state(),
            final(self).spec_frozen() == old(self).spec_frozen(),
            final(self).spec_last_frame() == old(self).spec_last_frame(),
            final(self).spec_stop_signal() == old(self).spec_stop_signal(),
    {
        proof {
            use_type_invariant(&*self);
        }
        match self.pause_start {
            Some(start) => {
                let elapsed = elapsed_millis(&now, &start);
                self.metrics.time_paused_ms = self.metrics.time_paused_ms.wrapping_add(elapsed);
                self.pause_start = None;
            },
            None => {},
        }
    }

    /// Stops a running or paused engine at `now`: a pause ends and is
    /// counted, the frozen frame is dropped and the stop signal is set.
    pub fn stop_at(&mut self, now: std::time::Instant)
        ensures
            final(self).spec_state() is Stopped,
            old(self).spec_state() is Stopped ==> *final(self) == *old(self),
            !(old(self).spec_state() is Stopped) ==> {
                &&& final(self).spec_frozen() is None
                &&& final(self).spec_stop_signal()
                &&& final(self).spec_pause_start() is None
                &&& final(self).spec_last_frame() == old(self).spec_last_frame()
                &&& final(self).spec_metrics() == match old(self).spec_pause_start() {
                    Some(start) => EngineMetrics {
                        time_paused_ms: old(self).spec_metrics().time_paused_ms.wrapping_add(millis_between(now, start)),
                        ..old(self).spec_metrics()
                    },
                    None => old(self).spec_metrics(),
                }
            },
    {
        proof {
            use_type_invariant(&*self);
        }
        if self.state != DisplayState::Stopped {
            if self.state == DisplayState::Paused {
                self.close_pause_at(now);
            }
            self.state = DisplayState::Stopped;
            self.freeze_buffer.clear();
            self.stop_signal = true;
        }
    }

    /// Stops the engine now.
    pub fn stop(&mut self)
        ensures
            final(self).spec_state() is Stopped,
            old(self).spec_state() is Stopped ==> *final(self) == *old(self),
            !(old(self).spec_state() is Stopped) ==> {
                &&& final(self).spec_frozen() is None
                &&& final(self).spec_stop_signal()
                &&& final(self).spec_pause_start() is None
                &&& final(self).spec_last_frame() == old(self).spec_last_frame()
                &&& final(self).spec_metrics() == (EngineMetrics {
                    time_paused_ms: final(self).spec_metrics().time_paused_ms,
                    ..old(self).spec_metrics()
                })
            },
    {
        proof {
            use_type_invariant(&*self);
        }
        let now = instant_now();
        self.stop_at(now);
    }

    /// Pauses a running engine at `now`: the last frame is frozen (when
    /// there is one) and the pause start recorded. Returns the event to
    /// publish; a non-running engine is left as it is.
    pub fn pause_at(&mut self, now: std::time::Instant) -> (r: Option<Event>)
        ensures
            old(self).spec_state() is Running ==> {
                &&& final(self).spec_state() is Paused
                &&& final(self).spec_frozen() == match old(self).spec_last_frame() {
                    Some(f) => Some(f),
                    None => old(self).spec_frozen(),
                }
                &&& final(self).spec_pause_start() == Some(now)
                &&& r == Some(Event::DisplayPaused)
            },
            !(old(self).spec_state() is Running) ==> *final(self) == *old(self) && r is None,
            final(self).spec_last_frame() == old(self).spec_last_frame(),
            final(self).spec_metrics() == old(self).spec_metrics(),
    {
        proof {
            use_type_invariant(&*self);
        }
        if self.state == DisplayState::Running {
            match &self.last_frame {
                Some(f) => {
                    let f2 = Arc::clone(f);
                    self.freeze_buffer.freeze_arc(f2);
                },
                None => {},
            }
            self.state = DisplayState::Paused;
            self.pause_start = Some(now);
            return Some(Event::DisplayPaused);
        }
        None
    }

    /// Pauses now.
    pub fn pause(&mut self) -> (r: Option<Event>)
        ensures
            old(self).spec_state() is Running ==> {
                &&& final(self).spec_state() is Paused
                &&& final(self).spec_frozen() == match old(self).spec_last_frame() {
                    Some(f) => Some(f),
                    None => old(self).spec_frozen(),
                }
                &&& final(self).spec_pause_start() is Some
                &&& r == Some(Event::DisplayPaused)
            },
            !(old(self).spec_state() is Running) ==> *final(self) == *old(self) && r is None,
            final(self).spec_last_frame() == old(self).spec_last_frame(),
            final(self).spec_metrics() == old(self).spec_metrics(),
    {
        proof {
            use_type_invariant(&*self);
        }
        let now = instant_now();
        self.pause_at(now)
    }

    /// Resumes a paused engine at `now`: the pause is counted and the frozen
    /// frame dropped. Returns the event to publish; an engine that is not
    /// paused is left as it is.
    pub fn resume_at(&mut self, now: std::time::Instant) -> (r: Option<Event>)
        ensures
            old(self).spec_state() is Paused ==> {
                &&& final(self).spec_state() is Running
                &&& final(self).spec_frozen() is None
                &&& final(self).spec_pause_start() is None
                &&& final(self).spec_metrics() == match old(self).spec_pause_start() {
                    Some(start) => EngineMetrics {
                        time_paused_ms: old(self).spec_metrics().time_paused_ms.wrapping_add(millis_between(now, start)),
                        ..old(self).spec_metrics()
                    },
                    None => old(self).spec_metrics(),
                }
                &&& r == Some(Event::DisplayResumed)
            },
            !(old(self).spec_state() is Paused) ==> *final(self) == *old(self) && r is None,
            final(self).spec_last_frame() == old(self).spec_last_frame(),
    {
        proof {
            use_type_invariant(&*self);
        }
        if self.state == DisplayState::Paused {
            self.close_pause_at(now);
            self.state = DisplayState::Running;
            self.freeze_buffer.clear();
            return Some(Event::DisplayResumed);
        }
        None
    }

    /// Resumes now.
    pub fn resume(&mut self) -> (r: Option<Event>)
        ensures
            old(self).spec_state() is Paused ==> {
                &&& final(self).spec_state() is Running
                &&& final(self).spec_frozen() is None
                &&& final(self).spec_pause_start() is None
                &&& final(self).spec_metrics() == (EngineMetrics {
                    time_paused_ms: final(self).spec_metrics().time_paused_ms,
                    ..old(self).spec_metrics()
                })
                &&& r == Some(Event::DisplayResumed)
            },
            !(old(self).spec_state() is Paused) ==> *final(self) == *old(self) && r is None,
            final(self).spec_last_frame() == old(self).spec_last_frame(),
    {
        proof {
            use_type_invariant(&*self);
        }
        let now = instant_now();
        self.resume_at(now)
    }

    /// Pauses a running engine or resumes a paused one.
    pub fn toggle_pause(&mut self) -> (r: Option<Event>)
        ensures
            final(self).spec_state() == toggled_state(old(self).spec_state()),
            old(self).spec_state() is Running ==> r == Some(Event::DisplayPaused),
            old(self).spec_state() is Paused ==> r == Some(Event::DisplayResumed),
            old(self).spec_state() is Stopped ==> *final(self) == *old(self) && r is None,
    {
        proof {
            use_type_invariant(&*self);
        }
        if self.is_paused() {
            self.resume()
        } else if self.is_running() {
            self.pause()
        } else {
            None
        }
    }

    /// Whether a captured frame should be processed: only while running. A
    /// frame that arrives while paused is counted as skipped.
    pub fn should_process_frame(&mut self) -> (r: bool)
        ensures
            r == old(self).spec_state() is Running,
            old(self).spec_state() is Paused ==> final(self).spec_metrics() == (EngineMetrics {
                frames_skipped: old(self).spec_metrics().frames_skipped.wrapping_add(1),
                ..old(self).spec_metrics()
            }),
            !(old(self).spec_state() is Paused) ==> final(self).spec_metrics() == old(self).spec_metrics(),
            final(self).spec_state() == old(self).spec_state(),
            final(self).spec_frozen() == old(self).spec_frozen(),
            final(self).spec_last_frame() == old(self).spec_last_frame(),
            final(self).spec_pause_start() == old(self).spec_pause_start(),
    {
        proof {
            use_type_invariant(&*self);
        }
        match self.state {
            DisplayState::Stopped => false,
            DisplayState::Paused => {
                self.metrics.frames_skipped = self.metrics.frames_skipped.wrapping_add(1);
                false
            },
            DisplayState::Running => true,
        }
    }

    /// Keeps a processed frame as the last one (for a pause) and counts it.
    pub fn store_processed(&mut self, frame: ProcessedFrame) -> (r: Arc<ProcessedFrame>)
        ensures
            *r == frame,
            final(self).spec_last_frame() == Some(r),
            final(self).spec_metrics() == (EngineMetrics {
                frames_processed: old(self).spec_metrics().frames_processed.wrapping_add(1),
                ..old(self).spec_metrics()
            }),
            final(self).spec_state() == old(self).spec_state(),
            final(self).spec_frozen() == old(self).spec_frozen(),
            final(self).spec_pause_start() == old(self).spec_pause_start(),
    {
        proof {
            use_type_invariant(&*self);
        }
        let shared = Arc::new(frame);
        self.last_frame = Some(Arc::clone(&shared));
        self.metrics.frames_processed = self.metrics.frames_processed.wrapping_add(1);
        shared
    }

    /// Counts a processing error.
    pub fn record_processing_error(&mut self)
        ensures
            final(self).spec_metrics() == (EngineMetrics {
                processing_errors: old(self).spec_metrics().processing_errors.wrapping_add(1),
                ..old(self).spec_metrics()
            }),
            final(self).spec_state() == old(self).spec_state(),
            final(self).spec_frozen() == old(self).spec_frozen(),
            final(self).spec_last_frame() == old(self).spec_last_frame(),
    {
        proof {
            use_type_invariant(&*self);
        }
        self.metrics.processing_errors = self.metrics.processing_errors.wrapping_add(1);
    }

    /// Counts the outcome of rendering a frame.
    pub fn record_render_result(&mut self, rendered: bool)
        ensures
            rendered ==> final(self).spec_metrics() == (EngineMetrics {
                frames_rendered: old(self).spec_metrics().frames_rendered.wrapping_add(1),
                ..old(self).spec_metrics()
            }),
            !rendered ==> final(self).spec_metrics() == (EngineMetrics {
                render_errors: old(self).spec_metrics().render_errors.wrapping_add(1),
                ..old(self).spec_metrics()
            }),
            final(self).spec_state() == old(self).spec_state(),
            final(self).spec_frozen() == old(self).spec_frozen(),
            final(self).spec_last_frame() == old(self).spec_last_frame(),
    {
        proof {
            use_type_invariant(&*self);
        }
        if rendered {
            self.metrics.frames_rendered = self.metrics.frames_rendered.wrapping_add(1);
        } else {
            self.metrics.render_errors = self.metrics.render_errors.wrapping_add(1);
        }
    }

    /// The frame to show: the frozen one while paused, the last processed
    /// one while running, none when stopped.
    pub fn get_render_frame(&self) -> (r: Option<Arc<ProcessedFrame>>)
        ensures
            r == match self.spec_state() {
                DisplayState::Paused => self.spec_frozen(),
                DisplayState::Running => self.spec_last_frame(),
                DisplayState::Stopped => None,
            },
    {
        match self.state {
            DisplayState::Paused => self.freeze_buffer.get(),
            DisplayState::Running => match &self.last_frame {
                Some(f) => Some(Arc::clone(f)),
                None => None,
            },
            DisplayState::Stopped => None,
        }
    }

    /// The frozen frame (for a snapshot while paused).
    pub fn get_frozen_frame(&self) -> (r: Option<Arc<ProcessedFrame>>)
        ensures
            r == self.spec_frozen(),
    {
        self.freeze_buffer.get()
    }

    /// Changes the processing configuration.
    pub fn set_processor_config(&mut self, config: ProcessorConfig)
        ensures
            final(self).spec_config() == (EngineConfig { processor: config, ..old(self).spec_config() }),
            final(self).spec_state() == old(self).spec_state(),
            final(self).spec_metrics() == old(self).spec_metrics(),
            final(self).spec_frozen() == old(self).spec_frozen(),
            final(self).spec_last_frame() == old(self).spec_last_frame(),
            final(self).spec_pause_start() == old(self).spec_pause_start(),
    {
        proof {
            use_type_invariant(&*self);
        }
        self.config.processor = config;
    }

    /// The processing configuration.
    pub fn processor_config(&self) -> (r: ProcessorConfig)
        ensures
            r == self.spec_config().processor,
    {
        self.config.processor
    }

    /// The counters.
    pub fn metrics(&self) -> (r: EngineMetrics)
        ensures
            r == self.spec_metrics(),
    {
        self.metrics
    }

    /// Sets every counter to zero.
    pub fn reset_metrics(&mut self)
        ensures
            final(self).spec_metrics() == zero_metrics(),
            final(self).spec_state() == old(self).spec_state(),
            final(self).spec_frozen() == old(self).spec_frozen(),
            final(self).spec_last_frame() == old(self).spec_last_frame(),
            final(self).spec_pause_start() == old(self).spec_pause_start(),
    {
        proof {
            use_type_invariant(&*self);
        }
        self.metrics = EngineMetrics::default();
    }

    /// Acts on a command: pause, resume, and stop (for stop capture and
    /// quit); other commands belong to other subsystems. Returns the event
    /// to publish.
    pub fn handle_command(&mut self, command: &Command) -> (r: Option<Event>)
        ensures
            *command is PauseDisplay && old(self).spec_state() is Running ==> final(self).spec_state() is Paused,
            *command is ResumeDisplay && old(self).spec_state() is Paused ==> final(self).spec_state() is Running,
            (*command is StopCapture || *command is Quit) ==> final(self).spec_state() is Stopped && r is None,
            !(*command is PauseDisplay || *command is ResumeDisplay || *command is StopCapture || *command is Quit)
                ==> *final(self) == *old(self) && r is None,
    {
        proof {
            use_type_invariant(&*self);
        }
        match command {
            Command::PauseDisplay => self.pause(),
            Command::ResumeDisplay => self.resume(),
            Command::StopCapture | Command::Quit => {
                self.stop();
                None
            },
            _ => None,
        }
    }
}

/// The state that a pause toggle leads to.
pub open spec fn toggled_state(s: DisplayState) -> DisplayState {
    match s {
        DisplayState::Running => DisplayState::Paused,
        DisplayState::Paused => DisplayState::Running,
        DisplayState::Stopped => DisplayState::Stopped,
    }
}

/// Toggling the pause twice gives back the state it started from.
pub proof fn lemma_toggle_twice(s: DisplayState)
    ensures
        toggled_state(toggled_state(s)) == s,
{
}

} // verus!
