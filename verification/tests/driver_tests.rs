use playback_core::audio_buffer::AudioBuffer;
use playback_core::driver::{handle_event, DecodeEvent, DriverStep};
use playback_core::frame::VideoFrame;
use playback_core::video_queue::{PopResult, VideoQueue};

fn frame(timestamp: u64) -> VideoFrame {
    VideoFrame { timestamp, pixels: vec![0; 8], width: 2, height: 1 }
}

#[test]
fn video_events_go_to_the_frame_queue() {
    let mut q = VideoQueue::new(4);
    let mut r = AudioBuffer::new(16);
    let step = handle_event(&mut q, &mut r, DecodeEvent::Video(frame(5)));
    assert!(matches!(step, DriverStep::Continue));
    assert_eq!(q.len(), 1);
    assert_eq!(r.available(), 0);
}

#[test]
fn audio_events_go_to_the_sample_buffer() {
    let mut q = VideoQueue::new(4);
    let mut r = AudioBuffer::new(16);
    let step = handle_event(&mut q, &mut r, DecodeEvent::Audio(vec![1, 2, 3]));
    assert!(matches!(step, DriverStep::Continue));
    assert_eq!(q.len(), 0);
    assert_eq!(r.available(), 3);
}

#[test]
fn full_queue_hands_the_frame_back_for_retry() {
    let mut q = VideoQueue::new(1);
    let mut r = AudioBuffer::new(16);
    handle_event(&mut q, &mut r, DecodeEvent::Video(frame(1)));
    match handle_event(&mut q, &mut r, DecodeEvent::Video(frame(2))) {
        DriverStep::RetryVideo(f) => assert_eq!(f.timestamp, 2),
        _ => panic!("expected RetryVideo"),
    }
    assert_eq!(q.len(), 1);
}

#[test]
fn crowded_buffer_hands_the_samples_back_for_retry() {
    let mut q = VideoQueue::new(4);
    let mut r = AudioBuffer::new(2);
    handle_event(&mut q, &mut r, DecodeEvent::Audio(vec![1]));
    match handle_event(&mut q, &mut r, DecodeEvent::Audio(vec![2, 3])) {
        DriverStep::RetryAudio(c) => assert_eq!(c, vec![2, 3]),
        _ => panic!("expected RetryAudio"),
    }
    assert_eq!(r.available(), 1);
}

#[test]
fn per_packet_errors_are_skipped() {
    let mut q = VideoQueue::new(4);
    let mut r = AudioBuffer::new(16);
    let step = handle_event(&mut q, &mut r, DecodeEvent::PacketError);
    assert!(matches!(step, DriverStep::Continue));
    assert_eq!(q.len(), 0);
    assert_eq!(r.available(), 0);
}

#[test]
fn fatal_errors_terminate_the_driver() {
    let mut q = VideoQueue::new(4);
    let mut r = AudioBuffer::new(16);
    let step = handle_event(&mut q, &mut r, DecodeEvent::FatalError);
    assert!(matches!(step, DriverStep::Failed));
}

#[test]
fn end_of_stream_finishes_and_lets_the_queue_drain() {
    let mut q = VideoQueue::new(4);
    let mut r = AudioBuffer::new(16);
    handle_event(&mut q, &mut r, DecodeEvent::Video(frame(10)));
    let step = handle_event(&mut q, &mut r, DecodeEvent::EndOfStream);
    assert!(matches!(step, DriverStep::Finished));
    assert!(q.ended());
    assert!(matches!(q.pop(), PopResult::Frame(_)));
    assert!(matches!(q.pop(), PopResult::Ended));
}

#[test]
fn closed_buffers_stop_the_driver() {
    let mut q = VideoQueue::new(4);
    let mut r = AudioBuffer::new(16);
    q.close();
    r.close();
    let step = handle_event(&mut q, &mut r, DecodeEvent::Video(frame(1)));
    assert!(matches!(step, DriverStep::Stopped));
    let step = handle_event(&mut q, &mut r, DecodeEvent::Audio(vec![1]));
    assert!(matches!(step, DriverStep::Stopped));
}
