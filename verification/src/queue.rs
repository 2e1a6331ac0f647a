//! The bounded first-in, first-out queue that stands between a pump and a
//! relay.

use crate::packet::TunnelPacket;
use std::collections::VecDeque;
use vstd::prelude::*;

verus! {

/// A queue as the contracts see it: the frames that wait, oldest first, and
/// the number of frames that it has room for.
pub struct FrameQueueView {
    pub frames: Seq<TunnelPacket>,
    pub capacity: nat,
}

/// A queue of frames with a fixed capacity. A producer that finds it full
/// has to wait until the consumer has taken a frame out.
pub struct FrameQueue {
    frames: VecDeque<TunnelPacket>,
    capacity: usize,
}

impl View for FrameQueue {
    type V = FrameQueueView;

    closed spec fn view(&self) -> FrameQueueView {
        FrameQueueView { frames: self.frames@, capacity: self.capacity as nat }
    }
}

/// Whether a queue takes another frame.
pub open spec fn has_room(queue: FrameQueueView) -> bool {
    queue.frames.len() < queue.capacity
}

/// The queue after an attempt to put `frame` in: the frame stands last if
/// there was room, and the queue is as before if there was none.
pub open spec fn pushed(queue: FrameQueueView, frame: TunnelPacket) -> FrameQueueView {
    if has_room(queue) {
        FrameQueueView { frames: queue.frames.push(frame), ..queue }
    } else {
        queue
    }
}

/// The queue after an attempt to take a frame out: the oldest frame is gone
/// if there was one.
pub open spec fn popped(queue: FrameQueueView) -> FrameQueueView {
    if queue.frames.len() > 0 {
        FrameQueueView { frames: queue.frames.drop_first(), ..queue }
    } else {
        queue
    }
}

/// The queue after attempts to put in each of `frames`, in order.
pub open spec fn pushed_all(queue: FrameQueueView, frames: Seq<TunnelPacket>) -> FrameQueueView
    decreases frames.len(),
{
    if frames.len() == 0 {
        queue
    } else {
        pushed(pushed_all(queue, frames.drop_last()), frames.last())
    }
}

impl FrameQueue {
    /// An empty queue with room for `capacity` frames.
    pub fn new(capacity: usize) -> (queue: FrameQueue)
        ensures
            queue@ == (FrameQueueView { frames: Seq::empty(), capacity: capacity as nat }),
    {
        FrameQueue { frames: VecDeque::new(), capacity }
    }

    /// Puts `frame` in as the newest, if there is room, and says whether it
    /// did. A full queue stays as it is.
    pub fn try_push(&mut self, frame: TunnelPacket) -> (accepted: bool)
        ensures
            accepted == has_room(old(self)@),
            final(self)@ == pushed(old(self)@, frame),
    {
        if self.frames.len() < self.capacity {
            self.frames.push_back(frame);
            true
        } else {
            false
        }
    }

    /// Takes the oldest frame out, if there is one.
    pub fn pop(&mut self) -> (frame: Option<TunnelPacket>)
        ensures
            final(self)@ == popped(old(self)@),
            frame == if old(self)@.frames.len() > 0 {
                Some(old(self)@.frames[0])
            } else {
                None
            },
    {
        self.frames.pop_front()
    }

    /// The oldest frame, which stays in the queue.
    pub fn front(&self) -> (frame: Option<TunnelPacket>)
        ensures
            frame == if self@.frames.len() > 0 {
                Some(self@.frames[0])
            } else {
                None
            },
    {
        if self.frames.len() > 0 {
            Some(self.frames[0])
        } else {
            None
        }
    }

    /// The number of frames that wait.
    pub fn len(&self) -> (len: usize)
        ensures
            len == self@.frames.len(),
    {
        self.frames.len()
    }

    /// The number of frames that the queue has room for.
    pub fn capacity(&self) -> (capacity: usize)
        ensures
            capacity == self@.capacity,
    {
        self.capacity
    }

    /// Whether no frame waits.
    pub fn is_empty(&self) -> (empty: bool)
        ensures
            empty == (self@.frames.len() == 0),
    {
        self.frames.len() == 0
    }

    /// Whether a producer has to wait.
    pub fn is_full(&self) -> (full: bool)
        ensures
            full == !has_room(self@),
    {
        self.frames.len() >= self.capacity
    }
}

/// A queue never holds more frames than it has room for: an empty one does
/// not, and neither putting a frame in nor taking one out changes that.
pub proof fn lemma_queue_stays_within_capacity(queue: FrameQueueView, frame: TunnelPacket)
    requires
        queue.frames.len() <= queue.capacity,
    ensures
        pushed(queue, frame).frames.len() <= pushed(queue, frame).capacity,
        popped(queue).frames.len() <= popped(queue).capacity,
        pushed(queue, frame).capacity == queue.capacity,
        popped(queue).capacity == queue.capacity,
{
}

/// A queue that holds as many frames as it has room for takes no further
/// frame, however often the producer tries; as soon as the consumer has
/// taken one frame out, it takes one again.
pub proof fn lemma_full_queue_waits_for_consumer(queue: FrameQueueView, frames: Seq<TunnelPacket>)
    requires
        queue.frames.len() == queue.capacity,
        queue.capacity > 0,
    ensures
        pushed_all(queue, frames) == queue,
        has_room(popped(pushed_all(queue, frames))),
        frames.len() > 0 ==> pushed(popped(pushed_all(queue, frames)), frames.last()).frames
            == queue.frames.drop_first().push(frames.last()),
    decreases frames.len(),
{
    if frames.len() > 0 {
        lemma_full_queue_waits_for_consumer(queue, frames.drop_last());
    }
}

/// A queue takes frames exactly until it is full: of a run of frames put
/// into an empty queue, those that fit are in it, in their order, and the
/// rest are not.
pub proof fn lemma_queue_keeps_order_up_to_capacity(capacity: nat, frames: Seq<TunnelPacket>)
    ensures
        pushed_all(FrameQueueView { frames: Seq::empty(), capacity }, frames)
            == (FrameQueueView {
            frames: if frames.len() <= capacity {
                frames
            } else {
                frames.subrange(0, capacity as int)
            },
            capacity,
        }),
    decreases frames.len(),
{
    let empty = FrameQueueView { frames: Seq::empty(), capacity };
    if frames.len() > 0 {
        let head = frames.drop_last();
        lemma_queue_keeps_order_up_to_capacity(capacity, head);
        let after = pushed_all(empty, frames);
        if frames.len() <= capacity {
            assert(after.frames =~= frames);
        } else {
            assert(after.frames =~= frames.subrange(0, capacity as int));
        }
    } else {
        assert(frames =~= Seq::<TunnelPacket>::empty());
    }
}

} // verus!
