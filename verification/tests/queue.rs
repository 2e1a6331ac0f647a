use pinguin::error::Error;
use pinguin::packet::{DecodeError, TunnelPacket};
use pinguin::queue::FrameQueue;

fn frame(seq: u16) -> TunnelPacket {
    TunnelPacket::with_payload(1, seq, &[seq as u8]).unwrap()
}

#[test]
fn new_queue_is_empty() {
    let mut queue = FrameQueue::new(3);
    assert_eq!(queue.len(), 0);
    assert_eq!(queue.capacity(), 3);
    assert!(queue.is_empty());
    assert!(!queue.is_full());
    assert!(queue.front().is_none());
    assert!(queue.pop().is_none());
}

#[test]
fn queue_gives_frames_back_in_order() {
    let mut queue = FrameQueue::new(4);
    for seq in 0..4 {
        assert!(queue.try_push(frame(seq)));
    }
    assert_eq!(queue.len(), 4);
    for seq in 0..4 {
        assert_eq!(queue.front().unwrap().seq(), seq);
        assert_eq!(queue.pop().unwrap().seq(), seq);
    }
    assert!(queue.is_empty());
}

#[test]
fn full_queue_makes_the_producer_wait() {
    let mut queue = FrameQueue::new(2);
    assert!(queue.try_push(frame(0)));
    assert!(queue.try_push(frame(1)));
    assert!(queue.is_full());
    assert!(!queue.try_push(frame(2)));
    assert!(!queue.try_push(frame(2)));
    assert_eq!(queue.len(), 2);
    assert_eq!(queue.front().unwrap().seq(), 0);

    assert_eq!(queue.pop().unwrap().seq(), 0);
    assert!(!queue.is_full());
    assert!(queue.try_push(frame(2)));
    assert!(!queue.try_push(frame(3)));
    assert_eq!(queue.pop().unwrap().seq(), 1);
    assert_eq!(queue.pop().unwrap().seq(), 2);
    assert!(queue.pop().is_none());
}

#[test]
fn queue_without_room_takes_nothing() {
    let mut queue = FrameQueue::new(0);
    assert!(queue.is_full());
    assert!(queue.is_empty());
    assert!(!queue.try_push(frame(0)));
    assert_eq!(queue.len(), 0);
}

#[test]
fn front_leaves_the_frame_in_the_queue() {
    let mut queue = FrameQueue::new(2);
    assert!(queue.try_push(frame(9)));
    assert_eq!(queue.front().unwrap().seq(), 9);
    assert_eq!(queue.front().unwrap().seq(), 9);
    assert_eq!(queue.len(), 1);
}

#[test]
fn only_startup_failures_are_fatal() {
    assert!(Error::Configuration.is_fatal());
    assert!(Error::TransportOpen.is_fatal());
    assert!(!Error::ConnectionIo.is_fatal());
    assert!(!Error::Decode(DecodeError::WrongLength).is_fatal());
    assert!(!Error::Decode(DecodeError::BadChecksum).is_fatal());
}
