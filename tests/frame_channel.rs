use spectrum_core::channel::{FrameChannel, PublishError, FRAME_BACKLOG};

#[test]
fn poll_returns_newest_of_three_then_nothing() {
    let mut ch: FrameChannel<Vec<f32>> = FrameChannel::new(FRAME_BACKLOG);
    let f1 = vec![1.0f32; 4];
    let f2 = vec![2.0f32; 4];
    let f3 = vec![3.0f32; 4];
    assert!(ch.publish(f1).is_ok());
    assert!(ch.publish(f2).is_ok());
    assert!(ch.publish(f3.clone()).is_ok());
    assert_eq!(ch.poll_latest(), Some(f3));
    assert_eq!(ch.poll_latest(), None);
}

#[test]
fn poll_on_fresh_channel_is_empty() {
    let mut ch: FrameChannel<u32> = FrameChannel::new(2);
    assert_eq!(ch.len(), 0);
    assert_eq!(ch.poll_latest(), None);
}

#[test]
fn nth_frame_wins_after_n_publishes() {
    let mut ch: FrameChannel<u32> = FrameChannel::new(FRAME_BACKLOG);
    for n in 1u32..=7 {
        assert!(ch.publish(n).is_ok());
    }
    assert_eq!(ch.len(), 7);
    assert_eq!(ch.poll_latest(), Some(7));
    assert_eq!(ch.len(), 0);
    assert!(ch.publish(8).is_ok());
    assert_eq!(ch.poll_latest(), Some(8));
}

#[test]
fn full_channel_hands_frame_back() {
    let mut ch: FrameChannel<u32> = FrameChannel::new(2);
    assert!(ch.publish(1).is_ok());
    assert!(ch.publish(2).is_ok());
    assert_eq!(ch.publish(3), Err(PublishError::Full(3)));
    assert_eq!(ch.poll_latest(), Some(2));
    assert!(ch.publish(3).is_ok());
}

#[test]
fn closed_channel_refuses_frames() {
    let mut ch: FrameChannel<u32> = FrameChannel::new(4);
    assert!(ch.publish(1).is_ok());
    assert!(!ch.is_closed());
    ch.close();
    assert!(ch.is_closed());
    assert_eq!(ch.publish(2), Err(PublishError::Closed(2)));
    assert_eq!(ch.len(), 1);
}
