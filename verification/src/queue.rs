//! The bounded FIFO queue that sits between a relay channel's reader and its
//! forwarder.
//!
//! The queue has a fixed capacity chosen at construction. An enqueue on a
//! full queue is refused (`try_enqueue` returns `false` and leaves the queue
//! unchanged): the reader suspends and retries once the forwarder has drained
//! a slot. Dequeue is strictly first-in first-out, which is what preserves
//! the arrival order of relayed events.

use vstd::prelude::*;

verus! {

/// A bounded single-producer/single-consumer FIFO queue.
pub struct BoundedQueue<T> {
    items: Vec<T>,
    capacity: usize,
}

impl<T> View for BoundedQueue<T> {
    type V = Seq<T>;

    closed spec fn view(&self) -> Seq<T> {
        self.items@
    }
}

impl<T> BoundedQueue<T> {
    /// The fixed capacity the queue was created with.
    pub closed spec fn cap(&self) -> nat {
        self.capacity as nat
    }

    /// The queue never holds more than its capacity.
    pub open spec fn wf(&self) -> bool {
        self@.len() <= self.cap() && self.cap() >= 1
    }

    /// An empty queue of the given capacity.
    pub fn new(capacity: usize) -> (q: Self)
        requires
            capacity >= 1,
        ensures
            q.wf(),
            q@ == Seq::<T>::empty(),
            q.cap() == capacity,
    {
        BoundedQueue { items: Vec::new(), capacity }
    }

    pub fn len(&self) -> (n: usize)
        ensures
            n == self@.len(),
    {
        self.items.len()
    }

    pub fn capacity(&self) -> (n: usize)
        ensures
            n == self.cap(),
    {
        self.capacity
    }

    pub fn is_empty(&self) -> (b: bool)
        ensures
            b == (self@.len() == 0),
    {
        self.items.len() == 0
    }

    pub fn is_full(&self) -> (b: bool)
        ensures
            b == (self@.len() >= self.cap()),
    {
        self.items.len() >= self.capacity
    }

    /// Appends `v` at the back if a slot is free. Returns `false` — with the
    /// queue unchanged — exactly when the queue is full, in which case the
    /// producer must wait for the consumer to drain a slot.
    pub fn try_enqueue(&mut self, v: T) -> (ok: bool)
        requires
            old(self).wf(),
        ensures
            final(self).wf(),
            final(self).cap() == old(self).cap(),
            ok == (old(self)@.len() < old(self).cap()),
            ok ==> final(self)@ == old(self)@.push(v),
            !ok ==> final(self)@ == old(self)@,
    {
        if self.items.len() < self.capacity {
            self.items.push(v);
            true
        } else {
            false
        }
    }

    /// Removes and returns the oldest element, or `None` on an empty queue.
    pub fn dequeue(&mut self) -> (r: Option<T>)
        requires
            old(self).wf(),
        ensures
            final(self).wf(),
            final(self).cap() == old(self).cap(),
            old(self)@.len() == 0 ==> (r is None && final(self)@ == old(self)@),
            old(self)@.len() > 0 ==> (r == Some(old(self)@[0]) && final(self)@ == old(
                self,
            )@.drop_first()),
    {
        if self.items.len() > 0 {
            let v = self.items.remove(0);
            proof {
                assert(self.items@ =~= old(self).items@.drop_first());
            }
            Some(v)
        } else {
            None
        }
    }
}

/// Law: backpressure of the bounded queue. On a full queue of capacity C —
/// reached after C enqueues with the consumer paused — there is no room, so
/// by the contract of `try_enqueue` the (C+1)-th enqueue is refused and the
/// producer suspends; after the consumer dequeues once (the queue becomes its
/// own `drop_first`, by the contract of `dequeue`), a slot is free again and
/// the suspended enqueue goes through.
pub proof fn lemma_enqueue_after_drain<T>(q: BoundedQueue<T>)
    requires
        q.wf(),
        q@.len() == q.cap(),
    ensures
        !(q@.len() < q.cap()),
        q@.len() >= 1,
        q@.drop_first().len() < q.cap(),
{
}

} // verus!
