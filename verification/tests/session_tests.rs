use playback_core::driver::{DecodeEvent, DriverStep};
use playback_core::frame::VideoFrame;
use playback_core::session::Session;
use playback_core::video_queue::PopResult;

const MS: u64 = 1_000_000;

fn frame(timestamp: u64, width: u32, height: u32) -> VideoFrame {
    VideoFrame { timestamp, pixels: vec![0; (4 * width * height) as usize], width, height }
}

#[test]
fn a_fresh_session_knows_no_dimensions() {
    let s = Session::start(8, 1 << 16);
    assert_eq!(s.video_dimensions(), None);
    assert!(!s.stopped());
}

#[test]
fn dimensions_come_from_the_first_video_frame() {
    let mut s = Session::start(8, 1 << 16);
    s.handle_decode_event(DecodeEvent::Audio(vec![1, 2]));
    assert_eq!(s.video_dimensions(), None);
    s.handle_decode_event(DecodeEvent::Video(frame(0, 640, 480)));
    assert_eq!(s.video_dimensions(), Some((640, 480)));
    // Later frames do not rewrite the session's dimensions.
    s.handle_decode_event(DecodeEvent::Video(frame(33 * MS, 1280, 720)));
    assert_eq!(s.video_dimensions(), Some((640, 480)));
}

#[test]
fn paced_run_takes_the_timestamp_span() {
    // Frames at t = 0, 33 ms, 66 ms with an instantaneous host: the summed
    // sleeps are 66 ms, and after end of stream the loop terminates.
    let mut s = Session::start(8, 16);
    s.handle_decode_event(DecodeEvent::Video(frame(0, 2, 2)));
    s.handle_decode_event(DecodeEvent::Video(frame(33 * MS, 2, 2)));
    s.handle_decode_event(DecodeEvent::Video(frame(66 * MS, 2, 2)));
    let step = s.handle_decode_event(DecodeEvent::EndOfStream);
    assert!(matches!(step, DriverStep::Finished));

    let mut total_sleep: u64 = 0;
    let mut delivered = Vec::new();
    loop {
        let (popped, sleep) = s.pop_paced(0);
        match popped {
            PopResult::Frame(f) => {
                total_sleep += sleep;
                delivered.push(f.timestamp);
            },
            PopResult::Ended => break,
            _ => panic!("the queue neither waits nor closes here"),
        }
    }
    assert_eq!(delivered, vec![0, 33 * MS, 66 * MS]);
    assert_eq!(total_sleep, 66 * MS);
}

#[test]
fn stale_frame_is_delivered_without_sleep() {
    let mut s = Session::start(8, 16);
    s.handle_decode_event(DecodeEvent::Video(frame(50 * MS, 2, 2)));
    s.handle_decode_event(DecodeEvent::Video(frame(20 * MS, 2, 2)));
    let (_, sleep) = s.pop_paced(0);
    assert_eq!(sleep, 0);
    let (popped, sleep) = s.pop_paced(0);
    assert!(matches!(popped, PopResult::Frame(_)));
    assert_eq!(sleep, 0);
}

#[test]
fn stop_closes_everything_and_is_idempotent() {
    let mut s = Session::start(8, 16);
    s.handle_decode_event(DecodeEvent::Video(frame(0, 2, 2)));
    s.stop();
    assert!(s.stopped());
    // A driver retrying a push ends; the pacing loop ends; no context hangs.
    let step = s.handle_decode_event(DecodeEvent::Video(frame(33 * MS, 2, 2)));
    assert!(matches!(step, DriverStep::Stopped));
    let step = s.handle_decode_event(DecodeEvent::Audio(vec![1]));
    assert!(matches!(step, DriverStep::Stopped));
    let (popped, sleep) = s.pop_paced(0);
    assert!(matches!(popped, PopResult::Closed));
    assert_eq!(sleep, 0);
    s.stop();
    assert!(s.stopped());
}

#[test]
fn audio_pull_through_the_session_fills_with_silence() {
    let mut s = Session::start(8, 16);
    s.handle_decode_event(DecodeEvent::Audio(vec![3, 4]));
    let mut out = vec![9u32; 4];
    let filled = s.fill_audio(&mut out);
    assert_eq!(filled, 2);
    assert_eq!(out, vec![3, 4, 0, 0]);
}

#[test]
fn audio_keeps_being_answered_after_stop() {
    let mut s = Session::start(8, 16);
    s.handle_decode_event(DecodeEvent::Audio(vec![5]));
    s.stop();
    let mut out = vec![9u32; 3];
    let filled = s.fill_audio(&mut out);
    assert_eq!(filled, 1);
    assert_eq!(out, vec![5, 0, 0]);
}
