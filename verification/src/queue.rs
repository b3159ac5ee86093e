//! The queue between the capture callback and the segmenter.
//!
//! The queue is bounded. A frame that arrives while the queue is full takes
//! the place of the oldest frame, which is dropped and counted.

use std::collections::VecDeque;
use vstd::prelude::*;

use crate::frame::AudioFrame;

verus! {

/// A bounded first-in, first-out queue of frames that drops its oldest frame
/// on overflow.
pub struct FrameQueue {
    frames: VecDeque<AudioFrame>,
    capacity: usize,
    dropped: u64,
}

/// The state of a queue, as mathematical values.
#[verifier::ext_equal]
pub ghost struct QueueView {
    /// The frames that wait, oldest first.
    pub frames: Seq<AudioFrame>,
    /// The largest number of frames that may wait.
    pub capacity: nat,
    /// The number of frames dropped so far; it stops at the largest value
    /// that 64 bits hold.
    pub dropped: nat,
}

/// The count of dropped frames after one more was dropped.
pub open spec fn count_drop(dropped: nat) -> nat {
    if dropped < u64::MAX {
        dropped + 1
    } else {
        dropped
    }
}

/// The queue after a frame has arrived.
pub open spec fn after_push(queue: QueueView, frame: AudioFrame) -> QueueView {
    if queue.capacity == 0 {
        QueueView { dropped: count_drop(queue.dropped), ..queue }
    } else if queue.frames.len() >= queue.capacity {
        QueueView {
            frames: queue.frames.drop_first().push(frame),
            dropped: count_drop(queue.dropped),
            ..queue
        }
    } else {
        QueueView { frames: queue.frames.push(frame), ..queue }
    }
}

impl View for FrameQueue {
    type V = QueueView;

    closed spec fn view(&self) -> QueueView {
        QueueView {
            frames: self.frames@,
            capacity: self.capacity as nat,
            dropped: self.dropped as nat,
        }
    }
}

impl FrameQueue {
    /// No more frames wait than the queue may hold.
    pub open spec fn wf(&self) -> bool {
        self@.frames.len() <= self@.capacity
    }

    /// An empty queue that holds up to `capacity` frames.
    pub fn new(capacity: usize) -> (queue: FrameQueue)
        ensures
            queue.wf(),
            queue@ == (QueueView { frames: Seq::empty(), capacity: capacity as nat, dropped: 0 }),
    {
        FrameQueue { frames: VecDeque::new(), capacity, dropped: 0 }
    }

    /// The number of frames that wait.
    pub fn len(&self) -> (count: usize)
        ensures
            count == self@.frames.len(),
    {
        self.frames.len()
    }

    /// Tells whether no frame waits.
    pub fn is_empty(&self) -> (empty: bool)
        ensures
            empty == (self@.frames.len() == 0),
    {
        self.frames.len() == 0
    }

    /// The largest number of frames that may wait.
    pub fn capacity(&self) -> (capacity: usize)
        ensures
            capacity == self@.capacity,
    {
        self.capacity
    }

    /// The number of frames dropped so far.
    pub fn dropped(&self) -> (count: u64)
        ensures
            count == self@.dropped,
    {
        self.dropped
    }

    /// Puts a frame at the end of the queue. Where the queue is full, the
    /// oldest frame is dropped to make room. Returns whether a frame was
    /// dropped.
    pub fn push(&mut self, frame: AudioFrame) -> (overflow: bool)
        requires
            old(self).wf(),
        ensures
            final(self).wf(),
            final(self)@ == after_push(old(self)@, frame),
            overflow == (old(self)@.frames.len() >= old(self)@.capacity),
    {
        if self.capacity == 0 {
            self.dropped = self.dropped.saturating_add(1);
            return true;
        }
        let overflow = self.frames.len() >= self.capacity;
        if overflow {
            let _oldest = self.frames.pop_front();
            self.dropped = self.dropped.saturating_add(1);
        }
        self.frames.push_back(frame);
        assert(self@ =~= after_push(old(self)@, frame));
        overflow
    }

    /// Takes the oldest frame out of the queue, if there is one.
    pub fn pop(&mut self) -> (frame: Option<AudioFrame>)
        requires
            old(self).wf(),
        ensures
            final(self).wf(),
            old(self)@.frames.len() == 0 ==> frame is None && final(self)@ == old(self)@,
            old(self)@.frames.len() > 0 ==> frame == Some(old(self)@.frames[0]) && final(self)@ == (
            QueueView { frames: old(self)@.frames.drop_first(), ..old(self)@ }),
    {
        let frame = self.frames.pop_front();
        proof {
            if old(self)@.frames.len() > 0 {
                assert(self@.frames =~= old(self)@.frames.drop_first());
            }
        }
        frame
    }

    /// Takes all frames out of the queue, oldest first.
    pub fn drain(&mut self) -> (frames: Vec<AudioFrame>)
        requires
            old(self).wf(),
        ensures
            final(self).wf(),
            frames@ == old(self)@.frames,
            final(self)@ == (QueueView { frames: Seq::empty(), ..old(self)@ }),
    {
        let mut frames: Vec<AudioFrame> = Vec::new();
        let ghost all = self@.frames;
        while self.frames.len() > 0
            invariant
                self.wf(),
                self@.capacity == old(self)@.capacity,
                self@.dropped == old(self)@.dropped,
                all == frames@ + self@.frames,
            decreases self@.frames.len(),
        {
            match self.frames.pop_front() {
                Some(frame) => {
                    frames.push(frame);
                    assert(frames@ + self@.frames =~= all);
                },
                None => {},
            }
        }
        assert(frames@ =~= all);
        frames
    }
}

/// Pushing onto a queue that is not full keeps every frame: what comes out is
/// what went in, in the same order.
pub proof fn lemma_push_keeps_order(queue: QueueView, frame: AudioFrame)
    requires
        queue.frames.len() < queue.capacity,
    ensures
        after_push(queue, frame).frames == queue.frames.push(frame),
        after_push(queue, frame).dropped == queue.dropped,
{
}

/// Pushing onto a full queue drops exactly the oldest frame and keeps the
/// number of frames.
pub proof fn lemma_push_drops_oldest(queue: QueueView, frame: AudioFrame)
    requires
        queue.capacity > 0,
        queue.frames.len() == queue.capacity,
    ensures
        after_push(queue, frame).frames.len() == queue.capacity,
        after_push(queue, frame).frames.last() == frame,
        forall|i: int|
            0 <= i < queue.capacity - 1 ==> after_push(queue, frame).frames[i] == queue.frames[i
                + 1],
{
}

} // verus!
