//! Bounded FIFO lookahead buffer of decoded video frames.
//!
//! The queue caps memory (raw frames are large) and gives the decode driver
//! backpressure: a push on a full queue is refused with [`PushResult::Full`]
//! and the driver waits for a pop before retrying. Frames are never
//! reordered and never dropped once enqueued. A stopped session closes the
//! queue, after which every operation reports [`PushResult::Closed`] /
//! [`PopResult::Closed`] instead of leaving a caller waiting; end of stream
//! lets the remaining frames drain and then reports [`PopResult::Ended`].
use vstd::prelude::*;

use crate::frame::VideoFrame;
use crate::frame::timestamps_nondecreasing;

verus! {

/// Outcome of offering a frame to the queue. A refused frame is handed back
/// unchanged, so no decoded frame is ever dropped by the queue.
pub enum PushResult {
    /// The frame was appended.
    Pushed,
    /// The queue is at capacity; the caller gets the frame back, waits for a
    /// pop and offers it again.
    Full(VideoFrame),
    /// The queue was closed by `stop()`; the caller gets the frame back and
    /// should end.
    Closed(VideoFrame),
}

/// Outcome of asking the queue for its oldest frame.
pub enum PopResult {
    /// The oldest frame, removed from the queue.
    Frame(VideoFrame),
    /// Nothing queued yet; the caller should wait for a push and retry.
    Empty,
    /// The stream ended and every queued frame has been drained.
    Ended,
    /// The queue was closed by `stop()`; the caller should end.
    Closed,
}

/// Bounded FIFO of pending video frames, oldest first.
pub struct VideoQueue {
    frames: Vec<VideoFrame>,
    capacity: usize,
    closed: bool,
    ended: bool,
}

impl VideoQueue {
    /// The queued frames, oldest first.
    pub closed spec fn frames(self) -> Seq<VideoFrame> {
        self.frames@
    }

    /// The fixed capacity bound chosen at session start.
    pub closed spec fn cap(self) -> nat {
        self.capacity as nat
    }

    /// Whether `close` has been called (session stop).
    pub closed spec fn is_closed(self) -> bool {
        self.closed
    }

    /// Whether `mark_ended` has been called (end of stream).
    pub closed spec fn is_ended(self) -> bool {
        self.ended
    }

    /// The queue never holds more frames than its capacity.
    pub open spec fn wf(self) -> bool {
        self.frames().len() <= self.cap() && self.cap() >= 1
    }

    /// A push is accepted exactly when the queue is open and below capacity.
    pub open spec fn can_push(self) -> bool {
        !self.is_closed() && self.frames().len() < self.cap()
    }

    /// An empty open queue with the given capacity bound.
    pub fn new(capacity: usize) -> (q: Self)
        requires
            capacity >= 1,
        ensures
            q.wf(),
            q.frames() == Seq::<VideoFrame>::empty(),
            q.cap() == capacity,
            !q.is_closed(),
            !q.is_ended(),
    {
        VideoQueue { frames: Vec::new(), capacity, closed: false, ended: false }
    }

    /// Number of frames currently queued.
    pub fn len(&self) -> (n: usize)
        ensures
            n == self.frames().len(),
    {
        self.frames.len()
    }

    /// The capacity bound.
    pub fn capacity(&self) -> (n: usize)
        ensures
            n == self.cap(),
    {
        self.capacity
    }

    /// Whether the queue has been closed.
    pub fn closed(&self) -> (b: bool)
        ensures
            b == self.is_closed(),
    {
        self.closed
    }

    /// Whether end of stream has been marked.
    pub fn ended(&self) -> (b: bool)
        ensures
            b == self.is_ended(),
    {
        self.ended
    }

    /// Offer a frame. Appended only when the queue is open and below
    /// capacity; otherwise the queue is unchanged and the result says why,
    /// so a blocking caller knows whether to wait ([`PushResult::Full`]) or
    /// to end ([`PushResult::Closed`]).
    pub fn push(&mut self, frame: VideoFrame) -> (r: PushResult)
        requires
            old(self).wf(),
        ensures
            final(self).wf(),
            final(self).cap() == old(self).cap(),
            final(self).is_closed() == old(self).is_closed(),
            final(self).is_ended() == old(self).is_ended(),
            old(self).is_closed() ==> (r matches PushResult::Closed(g) && g == frame
                && *final(self) == *old(self)),
            !old(self).is_closed() && old(self).frames().len() == old(self).cap() ==> (r matches
                PushResult::Full(g) && g == frame && *final(self) == *old(self)),
            old(self).can_push() ==> r is Pushed && final(self).frames() == old(
                self,
            ).frames().push(frame),
    {
        if self.closed {
            PushResult::Closed(frame)
        } else if self.frames.len() == self.capacity {
            PushResult::Full(frame)
        } else {
            self.frames.push(frame);
            PushResult::Pushed
        }
    }

    /// Take the oldest frame. On a closed queue the result is
    /// [`PopResult::Closed`] at once; on an open empty queue it is
    /// [`PopResult::Ended`] after end of stream (the terminal state of the
    /// pacing loop) and [`PopResult::Empty`] before it (the caller waits for
    /// decode).
    pub fn pop(&mut self) -> (r: PopResult)
        requires
            old(self).wf(),
        ensures
            final(self).wf(),
            final(self).cap() == old(self).cap(),
            final(self).is_closed() == old(self).is_closed(),
            final(self).is_ended() == old(self).is_ended(),
            old(self).is_closed() ==> r is Closed && *final(self) == *old(self),
            !old(self).is_closed() && old(self).frames().len() > 0 ==> (r matches PopResult::Frame(
                f,
            ) && f == old(self).frames()[0] && final(self).frames() == old(self).frames().skip(1)),
            !old(self).is_closed() && old(self).frames().len() == 0 ==> *final(self) == *old(self)
                && (if old(self).is_ended() {
                r is Ended
            } else {
                r is Empty
            }),
    {
        if self.closed {
            PopResult::Closed
        } else if self.frames.len() > 0 {
            let frame = self.frames.remove(0);
            PopResult::Frame(frame)
        } else if self.ended {
            PopResult::Ended
        } else {
            PopResult::Empty
        }
    }

    /// Close the queue (session stop). Idempotent: the queue keeps its
    /// frames and capacity, and every later push or pop reports `Closed`, so
    /// a caller that was waiting on a full or empty queue ends instead of
    /// hanging.
    pub fn close(&mut self)
        requires
            old(self).wf(),
        ensures
            final(self).wf(),
            final(self).frames() == old(self).frames(),
            final(self).cap() == old(self).cap(),
            final(self).is_closed(),
            final(self).is_ended() == old(self).is_ended(),
    {
        self.closed = true;
    }

    /// Mark end of stream: no further frames will arrive, queued ones still
    /// drain.
    pub fn mark_ended(&mut self)
        requires
            old(self).wf(),
        ensures
            final(self).wf(),
            final(self).frames() == old(self).frames(),
            final(self).cap() == old(self).cap(),
            final(self).is_closed() == old(self).is_closed(),
            final(self).is_ended(),
    {
        self.ended = true;
    }
}

/// Backpressure admits exactly one waiting push per pop: on a queue at
/// capacity a push is refused, one pop makes a single push acceptable, and
/// that push fills the queue again, so a second waiting push is still
/// refused.
pub proof fn lemma_pop_unblocks_exactly_one_push(
    q: VideoQueue,
    after_pop: VideoQueue,
    after_push: VideoQueue,
    f: VideoFrame,
)
    requires
        q.wf(),
        !q.is_closed(),
        q.frames().len() == q.cap(),
        // `after_pop` relates to `q` as `pop`'s contract states:
        after_pop.frames() == q.frames().skip(1),
        after_pop.cap() == q.cap(),
        after_pop.is_closed() == q.is_closed(),
        // `after_push` relates to `after_pop` as `push`'s contract states:
        after_push.frames() == after_pop.frames().push(f),
        after_push.cap() == after_pop.cap(),
        after_push.is_closed() == after_pop.is_closed(),
    ensures
        !q.can_push(),
        after_pop.can_push(),
        !after_push.can_push(),
{
}

/// Enqueueing a frame stamped no earlier than every queued frame keeps the
/// queue's timestamps nondecreasing: a decoder that emits in order keeps the
/// whole queue in order, with no reordering by the core.
pub proof fn lemma_push_preserves_timestamp_order(s: Seq<VideoFrame>, f: VideoFrame)
    requires
        timestamps_nondecreasing(s),
        forall|i: int| 0 <= i < s.len() ==> #[trigger] s[i].timestamp <= f.timestamp,
    ensures
        timestamps_nondecreasing(s.push(f)),
{
}

/// Removing the oldest frame keeps the remaining timestamps nondecreasing.
pub proof fn lemma_pop_preserves_timestamp_order(s: Seq<VideoFrame>)
    requires
        timestamps_nondecreasing(s),
        s.len() > 0,
    ensures
        timestamps_nondecreasing(s.skip(1)),
{
    assert forall|i: int, j: int| 0 <= i <= j < s.skip(1).len() implies #[trigger] s.skip(
        1,
    )[i].timestamp <= #[trigger] s.skip(1)[j].timestamp by {
        assert(s.skip(1)[i] == s[i + 1]);
        assert(s.skip(1)[j] == s[j + 1]);
    }
}

} // verus!
