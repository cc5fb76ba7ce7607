use camlab::frame::Frame;
use camlab::stream::FrameChannel;
use camlab::stream::FrameSource;

#[test]
fn source_stops_at_failure_limit() {
    let mut s = FrameSource::new(3);
    assert!(!s.stopped);
    assert!(!s.step(false, false));
    assert!(!s.step(false, false));
    assert!(!s.stopped);
    assert!(!s.step(false, false));
    assert!(s.stopped);
    assert!(!s.step(true, true));
    assert!(s.stopped);
}

#[test]
fn success_resets_failure_count() {
    let mut s = FrameSource::new(2);
    assert!(!s.step(false, false));
    assert_eq!(s.fails, 1);
    assert!(s.step(true, true));
    assert_eq!(s.fails, 0);
    assert!(!s.step(false, false));
    assert!(!s.stopped);
}

#[test]
fn rejected_send_stops_cleanly() {
    let mut s = FrameSource::new(30);
    assert!(!s.step(true, false));
    assert!(s.stopped);
    assert!(!s.step(true, true));
}

#[test]
fn closed_channel_drains_then_stays_empty() {
    let mut ch = FrameChannel::new(2);
    assert!(ch.send(Frame::solid(1, 1, 1, 1).unwrap()));
    assert!(ch.send(Frame::solid(1, 1, 1, 2).unwrap()));
    ch.close();
    assert!(!ch.is_disconnected());
    assert_eq!(ch.try_recv().unwrap().data, vec![1]);
    assert_eq!(ch.try_recv().unwrap().data, vec![2]);
    assert!(ch.try_recv().is_none());
    assert!(ch.is_disconnected());
    assert!(ch.try_recv().is_none());
    assert!(!ch.send(Frame::solid(1, 1, 1, 3).unwrap()));
    assert!(ch.is_disconnected());
}

#[test]
fn full_queue_drops_the_newest_frames_predecessor() {
    let mut ch = FrameChannel::new(2);
    for v in [1, 2, 3] {
        assert!(ch.send(Frame::solid(1, 1, 1, v).unwrap()));
    }
    assert_eq!(ch.try_recv().unwrap().data, vec![1]);
    assert_eq!(ch.try_recv().unwrap().data, vec![3]);
    assert!(ch.try_recv().is_none());
}
