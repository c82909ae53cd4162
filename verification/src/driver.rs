//! Decode driver: routes each unit pulled from the decoded-frame source into
//! the matching buffer and decides whether the pull loop goes on, waits,
//! ends cleanly or fails.
//!
//! The host owns the loop (pulling from the decoder blocks); the routing and
//! termination decisions stand here. A per-packet decode error is skipped; a
//! fatal error ends the driver and surfaces to the session owner; end of
//! stream ends it cleanly after marking the video queue, so the pacing loop
//! drains what is queued and then terminates. A refused push hands the unit
//! back, so the host can wait for space and offer it again: no decoded unit
//! is ever dropped by the core.
use vstd::prelude::*;

use crate::audio_buffer::AudioBuffer;
use crate::audio_buffer::PushSamplesResult;
use crate::frame::VideoFrame;
use crate::video_queue::PushResult;
use crate::video_queue::VideoQueue;

verus! {

/// One unit pulled from the decoded-frame source.
pub enum DecodeEvent {
    /// A decoded video frame, timestamp already in nanoseconds.
    Video(VideoFrame),
    /// A run of decoded audio sample words.
    Audio(Vec<u32>),
    /// A recoverable, per-packet decode error: skip to the next unit.
    PacketError,
    /// An error that corrupted the decoder state: terminal.
    FatalError,
    /// The source is exhausted: clean shutdown.
    EndOfStream,
}

/// What the pull loop should do after an event was handled.
pub enum DriverStep {
    /// The event was consumed; pull the next one.
    Continue,
    /// The video queue is at capacity; wait for a pop, then offer this frame
    /// again.
    RetryVideo(VideoFrame),
    /// The audio buffer lacks space; wait for the callback to drain it, then
    /// offer these samples again.
    RetryAudio(Vec<u32>),
    /// End of stream: the driver is done, queued frames still drain.
    Finished,
    /// The session was stopped; the driver ends without a terminal error.
    Stopped,
    /// A fatal decode error: the driver ends and the session owner is told.
    Failed,
}

/// Route one event into the buffers and decide the next step of the pull
/// loop. Exactly one of the two buffers changes, and only by its own push
/// contract; a unit that does not fit comes back unchanged in the step.
pub fn handle_event(video: &mut VideoQueue, audio: &mut AudioBuffer, event: DecodeEvent) -> (r:
    DriverStep)
    requires
        old(video).wf(),
        old(audio).wf(),
    ensures
        final(video).wf(),
        final(audio).wf(),
        final(video).cap() == old(video).cap(),
        final(video).is_closed() == old(video).is_closed(),
        final(audio).cap() == old(audio).cap(),
        final(audio).is_closed() == old(audio).is_closed(),
        event matches DecodeEvent::Video(f) ==> (*final(audio) == *old(audio)
            && final(video).is_ended() == old(video).is_ended() && (if old(video).is_closed() {
            r is Stopped && final(video).frames() == old(video).frames()
        } else if old(video).frames().len() == old(video).cap() {
            (r matches DriverStep::RetryVideo(g) && g == f)
                && final(video).frames() == old(video).frames()
        } else {
            r is Continue && final(video).frames() == old(video).frames().push(f)
        })),
        event matches DecodeEvent::Audio(c) ==> (*final(video) == *old(video)
            && (if old(audio).is_closed() {
            r is Stopped && final(audio).samples() == old(audio).samples()
        } else if old(audio).samples().len() + c@.len() > old(audio).cap() {
            (r matches DriverStep::RetryAudio(d) && d@ == c@)
                && final(audio).samples() == old(audio).samples()
        } else {
            r is Continue && final(audio).samples() == old(audio).samples() + c@
        })),
        event is PacketError ==> r is Continue && *final(video) == *old(video) && *final(audio)
            == *old(audio),
        event is FatalError ==> r is Failed && *final(video) == *old(video) && *final(audio)
            == *old(audio),
        event is EndOfStream ==> r is Finished && *final(audio) == *old(audio)
            && final(video).frames() == old(video).frames() && final(video).is_ended(),
{
    match event {
        DecodeEvent::Video(f) => {
            match video.push(f) {
                PushResult::Pushed => DriverStep::Continue,
                PushResult::Full(g) => DriverStep::RetryVideo(g),
                PushResult::Closed(_) => DriverStep::Stopped,
            }
        },
        DecodeEvent::Audio(c) => {
            match audio.push_samples(&c) {
                PushSamplesResult::Accepted => DriverStep::Continue,
                PushSamplesResult::InsufficientSpace => DriverStep::RetryAudio(c),
                PushSamplesResult::Closed => DriverStep::Stopped,
            }
        },
        DecodeEvent::PacketError => DriverStep::Continue,
        DecodeEvent::FatalError => DriverStep::Failed,
        DecodeEvent::EndOfStream => {
            video.mark_ended();
            DriverStep::Finished
        },
    }
}

} // verus!
