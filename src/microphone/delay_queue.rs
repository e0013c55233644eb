//! One channel's delay line: a fixed-capacity FIFO of samples.
use vstd::prelude::*;

use heapless::consts::U32;
use heapless::spsc::Queue;

verus! {

/// Number of samples a delay line can hold.
pub const QUEUE_CAPACITY: usize = 32;

/// A first-in first-out queue of at most `QUEUE_CAPACITY` samples, backed by
/// heapless's single-producer single-consumer queue.
#[verifier::external_body]
pub struct DelayQueue {
    queue: Queue<i16, U32, u8>,
}

/// The samples held by a delay line, oldest first.
pub uninterp spec fn queue_contents(q: DelayQueue) -> Seq<i16>;

impl DelayQueue {
    /// Relies on heapless's `spsc::Queue::u8`: a new queue is empty.
    #[verifier::external_body]
    pub(crate) fn new() -> (r: DelayQueue)
        ensures
            queue_contents(r) == Seq::<i16>::empty(),
    {
        DelayQueue { queue: Queue::u8() }
    }

    /// Relies on heapless's `spsc::Queue::enqueue`: the item goes to the back,
    /// unless the queue already holds its capacity, where it is handed back.
    #[verifier::external_body]
    pub(crate) fn enqueue(&mut self, item: i16) -> (r: Result<(), i16>)
        ensures
            queue_contents(*old(self)).len() < QUEUE_CAPACITY ==> {
                &&& r is Ok
                &&& queue_contents(*final(self)) == queue_contents(*old(self)).push(item)
            },
            queue_contents(*old(self)).len() >= QUEUE_CAPACITY ==> {
                &&& r == Err::<(), i16>(item)
                &&& queue_contents(*final(self)) == queue_contents(*old(self))
            },
    {
        self.queue.enqueue(item)
    }

    /// Relies on heapless's `spsc::Queue::dequeue`: the oldest item leaves,
    /// `None` where the queue is empty.
    #[verifier::external_body]
    pub(crate) fn dequeue(&mut self) -> (r: Option<i16>)
        ensures
            queue_contents(*old(self)).len() > 0 ==> {
                &&& r == Some(queue_contents(*old(self))[0])
                &&& queue_contents(*final(self)) == queue_contents(*old(self)).drop_first()
            },
            queue_contents(*old(self)).len() == 0 ==> {
                &&& r is None
                &&& queue_contents(*final(self)) == queue_contents(*old(self))
            },
    {
        self.queue.dequeue()
    }

    /// Relies on heapless's `spsc::Queue::len`: the number of items held.
    #[verifier::external_body]
    pub(crate) fn len(&self) -> (r: usize)
        ensures
            r == queue_contents(*self).len(),
    {
        self.queue.len() as usize
    }
}

} // verus!
