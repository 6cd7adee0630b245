//! A small queue of captured frames between a camera callback and the
//! capture loop. When full, the oldest frame makes room for the newest, so
//! that the display never falls behind the camera.
use vstd::prelude::*;
use crate::app_core::types::Frame;

verus! {

/// Frames kept at most.
pub const MAX_FRAME_QUEUE_SIZE: usize = 3;

/// A bounded first-in first-out queue of frames.
#[derive(Debug)]
pub struct FrameQueue {
    frames: Vec<Frame>,
}

/// The frames kept after pushing `f` onto `q`: the oldest leave while the
/// queue is full.
pub open spec fn pushed(q: Seq<Frame>, f: Frame) -> Seq<Frame> {
    if q.len() >= MAX_FRAME_QUEUE_SIZE {
        q.subrange(q.len() - (MAX_FRAME_QUEUE_SIZE - 1), q.len() as int).push(f)
    } else {
        q.push(f)
    }
}

impl FrameQueue {
    /// The frames queued, oldest first.
    pub closed spec fn spec_frames(&self) -> Seq<Frame> {
        self.frames@
    }

    /// At most the limit of frames is queued.
    pub closed spec fn wf(&self) -> bool {
        self.frames@.len() <= MAX_FRAME_QUEUE_SIZE
    }

    /// An empty queue.
    pub fn new() -> (r: Self)
        ensures
            r.wf(),
            r.spec_frames().len() == 0,
    {
        FrameQueue { frames: Vec::new() }
    }

    /// Queues a frame, dropping the oldest ones while the queue is full.
    pub fn push(&mut self, frame: Frame)
        ensures
            final(self).wf(),
            final(self).spec_frames() == pushed(old(self).spec_frames(), frame),
    {
        let ghost q = self.frames@;
        while self.frames.len() >= MAX_FRAME_QUEUE_SIZE
            invariant
                q.len() >= MAX_FRAME_QUEUE_SIZE ==> self.frames@ =~= q.subrange(q.len() - self.frames@.len(), q.len() as int),
                q.len() >= MAX_FRAME_QUEUE_SIZE ==> self.frames@.len() >= MAX_FRAME_QUEUE_SIZE - 1,
                q.len() < MAX_FRAME_QUEUE_SIZE ==> self.frames@ == q,
                self.frames@.len() <= q.len(),
            decreases self.frames.len(),
        {
            self.frames.remove(0);
        }
        self.frames.push(frame);
    }

    /// Takes the oldest frame, if any. Nothing else can fill the queue while
    /// it is borrowed here, so an empty queue gives none at once rather than
    /// after the timeout.
    pub fn pop(&mut self, timeout: core::time::Duration) -> (r: Option<Frame>)
        ensures
            old(self).spec_frames().len() == 0 ==> r is None && final(self).spec_frames() == old(self).spec_frames(),
            old(self).spec_frames().len() > 0 ==> r == Some(old(self).spec_frames()[0])
                && final(self).spec_frames() == old(self).spec_frames().drop_first(),
    {
        if self.frames.len() == 0 {
            return None;
        }
        let f = self.frames.remove(0);
        assert(self.frames@ =~= old(self).frames@.drop_first());
        Some(f)
    }

    /// The number of frames queued.
    pub fn len(&self) -> (r: usize)
        ensures
            r == self.spec_frames().len(),
    {
        self.frames.len()
    }
}

} // verus!
