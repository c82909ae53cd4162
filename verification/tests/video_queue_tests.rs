use playback_core::frame::VideoFrame;
use playback_core::video_queue::{PopResult, PushResult, VideoQueue};

fn frame(timestamp: u64) -> VideoFrame {
    VideoFrame { timestamp, pixels: vec![1, 2, 3, 4], width: 1, height: 1 }
}

fn pop_frame(q: &mut VideoQueue) -> VideoFrame {
    match q.pop() {
        PopResult::Frame(f) => f,
        _ => panic!("expected a frame"),
    }
}

#[test]
fn frames_come_out_in_push_order() {
    let mut q = VideoQueue::new(8);
    assert!(matches!(q.push(frame(10)), PushResult::Pushed));
    assert!(matches!(q.push(frame(20)), PushResult::Pushed));
    assert!(matches!(q.push(frame(30)), PushResult::Pushed));
    assert_eq!(pop_frame(&mut q).timestamp, 10);
    assert_eq!(pop_frame(&mut q).timestamp, 20);
    assert_eq!(pop_frame(&mut q).timestamp, 30);
}

#[test]
fn push_at_capacity_is_refused_and_returns_the_frame() {
    let mut q = VideoQueue::new(2);
    assert!(matches!(q.push(frame(1)), PushResult::Pushed));
    assert!(matches!(q.push(frame(2)), PushResult::Pushed));
    match q.push(frame(3)) {
        PushResult::Full(f) => {
            // The refused frame comes back intact: nothing is dropped.
            assert_eq!(f.timestamp, 3);
            assert_eq!(f.pixels, vec![1, 2, 3, 4]);
        },
        _ => panic!("expected Full"),
    }
    assert_eq!(q.len(), 2);
}

#[test]
fn pop_on_open_empty_queue_says_empty_then_ended() {
    let mut q = VideoQueue::new(4);
    assert!(matches!(q.pop(), PopResult::Empty));
    q.mark_ended();
    assert!(matches!(q.pop(), PopResult::Ended));
}

#[test]
fn queued_frames_drain_after_end_of_stream() {
    let mut q = VideoQueue::new(4);
    q.push(frame(10));
    q.push(frame(20));
    q.mark_ended();
    assert_eq!(pop_frame(&mut q).timestamp, 10);
    assert_eq!(pop_frame(&mut q).timestamp, 20);
    assert!(matches!(q.pop(), PopResult::Ended));
}

#[test]
fn closed_queue_answers_closed_at_once() {
    let mut q = VideoQueue::new(4);
    q.push(frame(10));
    q.close();
    assert!(matches!(q.push(frame(20)), PushResult::Closed(_)));
    assert!(matches!(q.pop(), PopResult::Closed));
}

#[test]
fn close_is_idempotent() {
    let mut q = VideoQueue::new(4);
    q.push(frame(10));
    q.close();
    q.close();
    assert!(q.closed());
    assert_eq!(q.len(), 1);
    assert_eq!(q.capacity(), 4);
}

#[test]
fn one_pop_admits_exactly_one_pending_push() {
    // The sequential core of backpressure: at capacity a push is refused;
    // one pop lets exactly one retried push in, and the next is refused
    // again.
    let mut q = VideoQueue::new(2);
    q.push(frame(1));
    q.push(frame(2));
    assert!(matches!(q.push(frame(3)), PushResult::Full(_)));
    assert_eq!(pop_frame(&mut q).timestamp, 1);
    assert!(matches!(q.push(frame(3)), PushResult::Pushed));
    assert!(matches!(q.push(frame(4)), PushResult::Full(_)));
    assert_eq!(q.len(), 2);
}
