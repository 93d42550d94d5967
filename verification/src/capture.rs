//! Frame data and the single-slot, overwrite-on-arrival frame cache.
//!
//! The cache decouples a continuously producing capture source from a
//! slower, on-demand consumer: a newly published frame always replaces an
//! unconsumed one, so a consumer only ever observes the most recent frame
//! ("latest frame wins"). The wake primitive and the producer thread that
//! feed a cache live outside this crate; the cache itself is the shared
//! state they agree on.

use vstd::prelude::*;

verus! {

/// Errors reported by the frame capture pipeline.
#[derive(Debug, Clone, PartialEq, Eq)]
pub enum CaptureError {
    /// The capture source failed to deliver a frame.
    FrameError(String),
    /// No frame has been captured yet.
    NoFrameAvailable,
}

pub type CaptureResult<T> = Result<T, CaptureError>;

/// Mathematical model of a captured frame.
pub ghost struct FrameView {
    pub width: u32,
    pub height: u32,
    pub data: Seq<u8>,
}

/// A single captured frame: dimensions plus the raw pixel buffer.
#[derive(Clone)]
pub struct FrameData {
    pub width: u32,
    pub height: u32,
    pub data: Vec<u8>,
}

impl View for FrameData {
    type V = FrameView;

    open spec fn view(&self) -> FrameView {
        FrameView { width: self.width, height: self.height, data: self.data@ }
    }
}

/// Single-slot holder for the most recent captured frame.
///
/// Invariant: at most one frame is cached at a time. A new frame always
/// replaces an unconsumed one; intermediate frames are silently lost.
pub struct FrameCache {
    slot: Option<FrameData>,
}

impl View for FrameCache {
    type V = Option<FrameView>;

    closed spec fn view(&self) -> Option<FrameView> {
        match self.slot {
            Some(ref f) => Some(f@),
            None => None,
        }
    }
}

impl FrameCache {
    /// Creates an empty cache.
    pub fn new() -> (c: FrameCache)
        ensures
            c@ is None,
    {
        FrameCache { slot: None }
    }

    /// Publishes a frame, unconditionally replacing any unconsumed one.
    pub fn publish(&mut self, frame: FrameData)
        ensures
            final(self)@ == Some(frame@),
    {
        self.slot = Some(frame);
    }

    /// Atomically takes and clears the cached frame, if one is present.
    pub fn take(&mut self) -> (r: Option<FrameData>)
        ensures
            final(self)@ is None,
            r is Some <==> old(self)@ is Some,
            r matches Some(f) ==> old(self)@ == Some(f@),
    {
        self.slot.take()
    }
}

/// The cache contents after a sequence of published frames: the most
/// recent one wins, whatever was cached before.
pub open spec fn cache_after(init: Option<FrameView>, frames: Seq<FrameView>) -> Option<FrameView>
    decreases frames.len(),
{
    if frames.len() == 0 {
        init
    } else {
        cache_after(Some(frames[0]), frames.drop_first())
    }
}

/// Latest frame wins: however many frames a producer publishes, and however
/// the cache started out, the cache afterwards holds exactly the most
/// recently published frame, so a consumer's take can only ever return that
/// one — at most a single frame is pending at any time.
pub proof fn lemma_latest_frame_wins(init: Option<FrameView>, frames: Seq<FrameView>)
    requires
        frames.len() > 0,
    ensures
        cache_after(init, frames) == Some(frames.last()),
    decreases frames.len(),
{
    if frames.len() == 1 {
        assert(cache_after(init, frames) == cache_after(Some(frames[0]), frames.drop_first()));
    } else {
        lemma_latest_frame_wins(Some(frames[0]), frames.drop_first());
        assert(frames.drop_first().last() == frames.last());
    }
}

} // verus!
