//! Decoded media units as the core sees them.
//!
//! A video frame is an owned pixel buffer in a fixed format, tagged with its
//! presentation timestamp in nanoseconds since stream start. Audio samples
//! travel as raw 32-bit sample words (the bit patterns of the interleaved
//! samples); the core never does arithmetic on sample values beyond writing
//! silence, whose word is zero, so the host converts at the edges.
use vstd::prelude::*;

verus! {

/// One decoded video frame, exclusively owned: the queue holds it until the
/// pacing scheduler pops it and hands it to the render sink.
pub struct VideoFrame {
    /// Presentation timestamp: nanoseconds since stream start.
    pub timestamp: u64,
    /// Pixel data in a fixed format agreed with the render sink.
    pub pixels: Vec<u8>,
    /// Frame width in pixels.
    pub width: u32,
    /// Frame height in pixels.
    pub height: u32,
}

/// The raw sample word the audio path writes on underrun: silence.
pub const SILENCE: u32 = 0;

/// Timestamps never decrease along a sequence of frames.
pub open spec fn timestamps_nondecreasing(s: Seq<VideoFrame>) -> bool {
    forall|i: int, j: int| 0 <= i <= j < s.len() ==> #[trigger] s[i].timestamp <= #[trigger] s[j].timestamp
}

} // verus!
