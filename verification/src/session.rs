//! One playback session: the two buffers, the pacing state and the control
//! surface the host sees.
//!
//! The host runs three contexts against one session: the decode driver feeds
//! [`Session::handle_decode_event`], the pacing loop drains
//! [`Session::pop_paced`] (the only context that sleeps), and the audio
//! callback pulls [`Session::fill_audio`]. `stop` is idempotent and closes
//! both buffers, so every context that retries after a refused operation
//! observes the closure and ends instead of hanging.
use vstd::prelude::*;

use crate::audio_buffer::AudioBuffer;
use crate::audio_buffer::fill_count;
use crate::driver::DecodeEvent;
use crate::driver::DriverStep;
use crate::driver;
use crate::frame::SILENCE;
use crate::pacing::PacingScheduler;
use crate::pacing::sleep_for;
use crate::video_queue::PopResult;
use crate::video_queue::VideoQueue;

verus! {

/// A playback session from `start` to `stop` or end of stream.
pub struct Session {
    video: VideoQueue,
    audio: AudioBuffer,
    scheduler: PacingScheduler,
    dimensions: Option<(u32, u32)>,
}

impl Session {
    /// The video frame queue.
    pub closed spec fn video(self) -> VideoQueue {
        self.video
    }

    /// The audio sample buffer.
    pub closed spec fn audio(self) -> AudioBuffer {
        self.audio
    }

    /// The pacing scheduler state.
    pub closed spec fn scheduler(self) -> PacingScheduler {
        self.scheduler
    }

    /// The video dimensions, known once the first frame has arrived.
    pub closed spec fn dims(self) -> Option<(u32, u32)> {
        self.dimensions
    }

    /// A session is stopped once its buffers are closed.
    pub open spec fn is_stopped(self) -> bool {
        self.video().is_closed()
    }

    /// Both buffers well-formed, and closed together or not at all.
    pub open spec fn wf(self) -> bool {
        self.video().wf() && self.audio().wf() && self.video().is_closed() == self.audio().is_closed()
    }

    /// Start a session: fresh open buffers with the given capacity bounds
    /// (frames for video, sample words for audio), no frame delivered yet,
    /// dimensions still unknown.
    pub fn start(video_capacity: usize, audio_capacity: usize) -> (s: Self)
        requires
            video_capacity >= 1,
            audio_capacity >= 1,
        ensures
            s.wf(),
            !s.is_stopped(),
            s.video().frames() == Seq::<crate::frame::VideoFrame>::empty(),
            s.video().cap() == video_capacity,
            !s.video().is_ended(),
            s.audio().samples() == Seq::<u32>::empty(),
            s.audio().cap() == audio_capacity,
            s.scheduler().previous() is None,
            s.dims() is None,
    {
        Session {
            video: VideoQueue::new(video_capacity),
            audio: AudioBuffer::new(audio_capacity),
            scheduler: PacingScheduler::new(),
            dimensions: None,
        }
    }

    /// Stop the session: close both buffers so that every waiting context
    /// ends. Idempotent — the post-state is the same however often it is
    /// called; queued data and the rest of the state are kept.
    pub fn stop(&mut self)
        requires
            old(self).wf(),
        ensures
            final(self).wf(),
            final(self).is_stopped(),
            final(self).video().is_closed(),
            final(self).audio().is_closed(),
            final(self).video().frames() == old(self).video().frames(),
            final(self).video().cap() == old(self).video().cap(),
            final(self).video().is_ended() == old(self).video().is_ended(),
            final(self).audio().samples() == old(self).audio().samples(),
            final(self).audio().cap() == old(self).audio().cap(),
            final(self).scheduler() == old(self).scheduler(),
            final(self).dims() == old(self).dims(),
    {
        self.video.close();
        self.audio.close();
    }

    /// The video dimensions, once the first video frame has been seen.
    pub fn video_dimensions(&self) -> (r: Option<(u32, u32)>)
        ensures
            r == self.dims(),
    {
        self.dimensions
    }

    /// Whether the session has been stopped.
    pub fn stopped(&self) -> (b: bool)
        requires
            self.wf(),
        ensures
            b == self.is_stopped(),
    {
        self.video.closed()
    }

    /// Route one decoded unit as [`driver::handle_event`] does, recording
    /// the video dimensions from the first video frame seen.
    pub fn handle_decode_event(&mut self, event: DecodeEvent) -> (r: DriverStep)
        requires
            old(self).wf(),
        ensures
            final(self).wf(),
            final(self).scheduler() == old(self).scheduler(),
            final(self).video().cap() == old(self).video().cap(),
            final(self).video().is_closed() == old(self).video().is_closed(),
            final(self).audio().cap() == old(self).audio().cap(),
            final(self).audio().is_closed() == old(self).audio().is_closed(),
            event matches DecodeEvent::Video(f) ==> (final(self).audio() == old(self).audio()
                && final(self).video().is_ended() == old(self).video().is_ended()
                && final(self).dims() == (if old(self).dims() is None {
                Some((f.width, f.height))
            } else {
                old(self).dims()
            }) && (if old(self).video().is_closed() {
                r is Stopped && final(self).video().frames() == old(self).video().frames()
            } else if old(self).video().frames().len() == old(self).video().cap() {
                (r matches DriverStep::RetryVideo(g) && g == f)
                    && final(self).video().frames() == old(self).video().frames()
            } else {
                r is Continue && final(self).video().frames() == old(self).video().frames().push(f)
            })),
            !(event matches DecodeEvent::Video(_)) ==> final(self).dims() == old(self).dims(),
            event matches DecodeEvent::Audio(c) ==> (final(self).video() == old(self).video()
                && (if old(self).audio().is_closed() {
                r is Stopped && final(self).audio().samples() == old(self).audio().samples()
            } else if old(self).audio().samples().len() + c@.len() > old(self).audio().cap() {
                (r matches DriverStep::RetryAudio(d) && d@ == c@)
                    && final(self).audio().samples() == old(self).audio().samples()
            } else {
                r is Continue && final(self).audio().samples() == old(self).audio().samples() + c@
            })),
            event is PacketError ==> r is Continue && final(self).video() == old(self).video()
                && final(self).audio() == old(self).audio(),
            event is FatalError ==> r is Failed && final(self).video() == old(self).video()
                && final(self).audio() == old(self).audio(),
            event is EndOfStream ==> r is Finished && final(self).audio() == old(self).audio()
                && final(self).video().frames() == old(self).video().frames()
                && final(self).video().is_ended(),
    {
        if let DecodeEvent::Video(f) = &event {
            if self.dimensions.is_none() {
                self.dimensions = Some((f.width, f.height));
            }
        }
        driver::handle_event(&mut self.video, &mut self.audio, event)
    }

    /// One iteration of the pacing loop: take the oldest frame and decide
    /// the sleep that places its delivery at the wall-clock instant matching
    /// its timestamp delta, given `elapsed` nanoseconds since the previous
    /// delivery. The caller sleeps for `r.1`, presents the frame, and resets
    /// its reference instant to the actual delivery instant. On anything but
    /// a frame the sleep is zero and the scheduler state is untouched.
    pub fn pop_paced(&mut self, elapsed: u64) -> (r: (PopResult, u64))
        requires
            old(self).wf(),
        ensures
            final(self).wf(),
            final(self).audio() == old(self).audio(),
            final(self).dims() == old(self).dims(),
            final(self).video().cap() == old(self).video().cap(),
            final(self).video().is_closed() == old(self).video().is_closed(),
            final(self).video().is_ended() == old(self).video().is_ended(),
            old(self).video().is_closed() ==> r.0 is Closed && r.1 == 0 && final(self).video()
                == old(self).video() && final(self).scheduler() == old(self).scheduler(),
            !old(self).video().is_closed() && old(self).video().frames().len() > 0 ==> (r.0 matches
                PopResult::Frame(f) && f == old(self).video().frames()[0]
                && final(self).video().frames() == old(self).video().frames().skip(1)
                && r.1 == sleep_for(old(self).scheduler().previous(), f.timestamp, elapsed)
                && final(self).scheduler().previous() == Some(f.timestamp)),
            !old(self).video().is_closed() && old(self).video().frames().len() == 0 ==> (
            final(self).video() == old(self).video() && final(self).scheduler() == old(
                self,
            ).scheduler()
                && r.1 == 0 && (if old(self).video().is_ended() {
                r.0 is Ended
            } else {
                r.0 is Empty
            })),
    {
        match self.video.pop() {
            PopResult::Frame(f) => {
                let sleep = self.scheduler.pace(f.timestamp, elapsed);
                (PopResult::Frame(f), sleep)
            },
            other => (other, 0),
        }
    }

    /// Answer one pull of the audio callback: fill the whole slice, silence
    /// for any unavailable tail, and report how many real samples were
    /// written. Never blocks, open or closed.
    pub fn fill_audio(&mut self, out: &mut Vec<u32>) -> (filled: usize)
        requires
            old(self).wf(),
        ensures
            final(self).wf(),
            final(self).video() == old(self).video(),
            final(self).scheduler() == old(self).scheduler(),
            final(self).dims() == old(self).dims(),
            final(self).audio().cap() == old(self).audio().cap(),
            final(self).audio().is_closed() == old(self).audio().is_closed(),
            final(out)@.len() == old(out)@.len(),
            filled == fill_count(old(self).audio().samples().len(), old(out)@.len()),
            forall|j: int| 0 <= j < filled ==> final(out)@[j] == old(self).audio().samples()[j],
            forall|j: int| filled <= j < final(out)@.len() ==> final(out)@[j] == SILENCE,
            final(self).audio().samples() == old(self).audio().samples().skip(filled as int),
    {
        self.audio.pop_into(out)
    }
}

/// Once a session is stopped, neither buffer accepts work: a context that
/// retries a refused push or pop observes the closure on its very next
/// attempt (the push and pop contracts answer `Closed` on a closed buffer at
/// once), so no context waits past `stop`.
pub proof fn lemma_stopped_session_rejects_work(s: Session)
    requires
        s.wf(),
        s.is_stopped(),
    ensures
        !s.video().can_push(),
        s.video().is_closed(),
        s.audio().is_closed(),
{
}

} // verus!
