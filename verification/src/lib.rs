//! Core of a media-playback pipeline: re-times independently timestamped
//! audio and video frames so that delivery to a frame presenter and to a
//! real-time audio callback tracks the stream's own clock.
//!
//! The decoder, the GPU presenter, the audio device and the window system are
//! external collaborators; this crate holds the logic between them: the
//! bounded video frame queue, the audio sample buffer, the pacing scheduler,
//! the decode-driver state machine and the session control surface.
pub mod audio_buffer;
pub mod display;
pub mod driver;
pub mod frame;
pub mod input;
pub mod pacing;
pub mod session;
pub mod video_queue;
