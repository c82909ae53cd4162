//! Bounded FIFO buffer of raw audio sample words, absorbing the mismatch
//! between bursty decode and the fixed-rate pull of the audio callback.
//!
//! The write side belongs to the decode driver: a push that does not fit is
//! refused with [`PushSamplesResult::InsufficientSpace`] and the driver
//! waits. The read side belongs to the real-time audio callback, which must
//! never block: [`AudioBuffer::pop_into`] always fills the whole requested
//! slice, with real samples as far as they go and silence for the rest.
//! Underrun is therefore not an error, only a quality metric (the returned
//! fill count).
//!
//! The storage is a ring: it is allocated once, and a pull moves only the
//! samples it returns, never the rest of the queue, so the read path stays
//! cheap however large the buffer is.
use vstd::prelude::*;

use crate::frame::SILENCE;

verus! {

/// Outcome of offering a run of samples to the buffer.
pub enum PushSamplesResult {
    /// Every sample of the run was appended.
    Accepted,
    /// Free space is smaller than the run; the caller should wait for the
    /// audio callback to drain the buffer and retry.
    InsufficientSpace,
    /// The buffer was closed by `stop()`; the caller should end.
    Closed,
}

/// Bounded FIFO of queued sample words, oldest first, stored in a ring.
pub struct AudioBuffer {
    buf: Vec<u32>,
    head: usize,
    len: usize,
    closed: bool,
}

/// How many real samples a pull gets: all it asked for, or all there are.
pub open spec fn fill_count(avail: nat, requested: nat) -> nat {
    if avail <= requested {
        avail
    } else {
        requested
    }
}

impl AudioBuffer {
    /// Where the `i`-th queued sample lives in the ring's storage.
    pub closed spec fn slot(self, i: int) -> int {
        if self.head + i < self.buf@.len() {
            self.head + i
        } else {
            self.head + i - self.buf@.len()
        }
    }

    /// The ring's shape: the storage never resizes, the head lies inside it,
    /// and the count never exceeds it.
    pub closed spec fn inv(self) -> bool {
        self.buf@.len() >= 1 && self.head < self.buf@.len() && self.len <= self.buf@.len()
    }

    /// The queued sample words, oldest first.
    pub closed spec fn samples(self) -> Seq<u32> {
        Seq::new(self.len as nat, |i: int| self.buf@[self.slot(i)])
    }

    /// The fixed capacity bound, in samples, chosen at session start.
    pub closed spec fn cap(self) -> nat {
        self.buf@.len()
    }

    /// Whether `close` has been called (session stop).
    pub closed spec fn is_closed(self) -> bool {
        self.closed
    }

    /// The buffer never holds more samples than its capacity.
    pub open spec fn wf(self) -> bool {
        self.inv() && self.samples().len() <= self.cap() && self.cap() >= 1
    }

    /// Two distinct queue positions live in distinct storage slots.
    proof fn lemma_slot_injective(self, i: int, j: int)
        requires
            self.inv(),
            0 <= i < self.cap(),
            0 <= j < self.cap(),
            self.slot(i) == self.slot(j),
        ensures
            i == j,
    {
    }

    /// The storage index of the `i`-th queue position, `i` up to and
    /// including the capacity (the latter wraps to the head itself).
    fn slot_index(&self, i: usize) -> (idx: usize)
        requires
            self.inv(),
            i <= self.cap(),
        ensures
            idx == self.slot(i as int),
            idx < self.cap(),
    {
        let rest = self.buf.len() - self.head;
        if i < rest {
            self.head + i
        } else {
            i - rest
        }
    }

    /// An empty open buffer with the given capacity bound, allocated once.
    pub fn new(capacity: usize) -> (r: Self)
        requires
            capacity >= 1,
        ensures
            r.wf(),
            r.samples() == Seq::<u32>::empty(),
            r.cap() == capacity,
            !r.is_closed(),
    {
        let mut buf: Vec<u32> = Vec::new();
        while buf.len() < capacity
            invariant
                buf@.len() <= capacity,
            decreases capacity - buf@.len(),
        {
            buf.push(SILENCE);
        }
        let r = AudioBuffer { buf, head: 0, len: 0, closed: false };
        proof {
            assert(r.samples() =~= Seq::<u32>::empty());
        }
        r
    }

    /// Number of samples currently queued.
    pub fn available(&self) -> (n: usize)
        ensures
            n == self.samples().len(),
    {
        self.len
    }

    /// Number of further samples the buffer can accept.
    pub fn free_space(&self) -> (n: usize)
        requires
            self.wf(),
        ensures
            n == self.cap() - self.samples().len(),
    {
        self.buf.len() - self.len
    }

    /// The capacity bound, in samples.
    pub fn capacity(&self) -> (n: usize)
        ensures
            n == self.cap(),
    {
        self.buf.len()
    }

    /// Whether the buffer has been closed.
    pub fn closed(&self) -> (b: bool)
        ensures
            b == self.is_closed(),
    {
        self.closed
    }

    /// Offer a run of samples. All-or-nothing: appended in order only when
    /// the whole run fits and the buffer is open; otherwise the buffer is
    /// unchanged and the result says whether to wait or to end.
    pub fn push_samples(&mut self, chunk: &Vec<u32>) -> (r: PushSamplesResult)
        requires
            old(self).wf(),
        ensures
            final(self).wf(),
            final(self).cap() == old(self).cap(),
            final(self).is_closed() == old(self).is_closed(),
            old(self).is_closed() ==> r is Closed && *final(self) == *old(self),
            !old(self).is_closed() && old(self).samples().len() + chunk@.len() > old(self).cap()
                ==> r is InsufficientSpace && *final(self) == *old(self),
            !old(self).is_closed() && old(self).samples().len() + chunk@.len() <= old(self).cap()
                ==> r is Accepted && final(self).samples() == old(self).samples() + chunk@,
    {
        if self.closed {
            return PushSamplesResult::Closed;
        }
        if chunk.len() > self.buf.len() - self.len {
            return PushSamplesResult::InsufficientSpace;
        }
        let ghost orig = *self;
        for i in 0..chunk.len()
            invariant
                self.head == orig.head,
                self.closed == orig.closed,
                self.buf@.len() == orig.buf@.len(),
                self.len == orig.len + i,
                orig.inv(),
                orig.len + chunk@.len() <= orig.cap(),
                orig.cap() <= usize::MAX,
                self.samples() == orig.samples() + chunk@.take(i as int),
        {
            let idx = self.slot_index(self.len);
            self.buf.set(idx, chunk[i]);
            self.len = self.len + 1;
            proof {
                assert forall|j: int| 0 <= j < self.len - 1 implies self.samples()[j]
                    == (orig.samples() + chunk@.take(i as int))[j] by {
                    if self.slot(j) == idx {
                        orig.lemma_slot_injective(j, i + orig.len);
                    }
                }
                assert(self.samples()[self.len - 1] == chunk@[i as int]);
                assert(self.samples() =~= orig.samples() + chunk@.take(i + 1));
            }
        }
        proof {
            assert(chunk@.take(chunk@.len() as int) == chunk@);
        }
        PushSamplesResult::Accepted
    }

    /// Fill the whole output slice for the audio callback: the oldest queued
    /// samples as far as they go, silence for any unavailable tail. Never
    /// blocks and never fails, open or closed — the real-time audio path
    /// must always be answered. Returns how many real samples were written;
    /// a shortfall is an underrun, observable only through that count.
    pub fn pop_into(&mut self, out: &mut Vec<u32>) -> (filled: usize)
        requires
            old(self).wf(),
        ensures
            final(self).wf(),
            final(self).cap() == old(self).cap(),
            final(self).is_closed() == old(self).is_closed(),
            final(out)@.len() == old(out)@.len(),
            filled == fill_count(old(self).samples().len(), old(out)@.len()),
            forall|j: int| 0 <= j < filled ==> final(out)@[j] == old(self).samples()[j],
            forall|j: int| filled <= j < final(out)@.len() ==> final(out)@[j] == SILENCE,
            final(self).samples() == old(self).samples().skip(filled as int),
    {
        let requested = out.len();
        let filled: usize = if self.len <= requested {
            self.len
        } else {
            requested
        };
        let ghost orig = *self;
        let ghost orig_out_len = out@.len();
        for i in 0..filled
            invariant
                *self == orig,
                orig.inv(),
                filled <= orig.len,
                filled <= out@.len(),
                out@.len() == orig_out_len,
                forall|j: int| 0 <= j < i ==> out@[j] == orig.samples()[j],
        {
            let idx = self.slot_index(i);
            let s = self.buf[idx];
            out.set(i, s);
        }
        for i in filled..requested
            invariant
                *self == orig,
                requested == out@.len(),
                out@.len() == orig_out_len,
                filled <= i <= requested,
                forall|j: int| 0 <= j < filled ==> out@[j] == orig.samples()[j],
                forall|j: int| filled <= j < i ==> out@[j] == SILENCE,
        {
            out.set(i, SILENCE);
        }
        self.head = self.slot_index(filled);
        self.len = self.len - filled;
        proof {
            assert forall|j: int| 0 <= j < self.len implies self.samples()[j] == orig.samples().skip(
                filled as int,
            )[j] by {
                assert(self.slot(j) == orig.slot(filled + j));
            }
            assert(self.samples() =~= orig.samples().skip(filled as int));
        }
        filled
    }

    /// Close the buffer (session stop). Idempotent: later pushes report
    /// `Closed`, so a producer that was waiting for space ends instead of
    /// hanging; the callback's pulls keep being answered, with silence once
    /// the queued samples run out.
    pub fn close(&mut self)
        requires
            old(self).wf(),
        ensures
            final(self).wf(),
            final(self).samples() == old(self).samples(),
            final(self).cap() == old(self).cap(),
            final(self).is_closed(),
    {
        self.closed = true;
    }
}

} // verus!
