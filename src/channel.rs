use std::collections::VecDeque;
use vstd::prelude::*;

verus! {

/// Why an item could not be queued; the item is handed back.
#[derive(Debug)]
pub enum SendError<T> {
    /// The channel holds as many items as it may.
    Full(T),
    /// The receiving side has been closed.
    Closed(T),
}

/// A bounded first-in first-out queue carrying one item per remote call.
pub struct ActionChannel<T> {
    queue: VecDeque<T>,
    capacity: usize,
    closed: bool,
}

impl<T> ActionChannel<T> {
    /// The items waiting to be taken, oldest first.
    pub closed spec fn items(&self) -> Seq<T> {
        self.queue@
    }

    pub closed spec fn bound(&self) -> nat {
        self.capacity as nat
    }

    pub closed spec fn is_closed(&self) -> bool {
        self.closed
    }

    pub closed spec fn wf(&self) -> bool {
        self.queue@.len() <= self.capacity
    }

    pub fn new(capacity: usize) -> (r: Self)
        ensures
            r.wf(),
            r.items() == Seq::<T>::empty(),
            r.bound() == capacity,
            !r.is_closed(),
    {
        ActionChannel { queue: VecDeque::new(), capacity, closed: false }
    }

    pub fn len(&self) -> (r: usize)
        ensures
            r == self.items().len(),
    {
        self.queue.len()
    }

    pub fn is_empty(&self) -> (r: bool)
        ensures
            r == (self.items().len() == 0),
    {
        self.queue.len() == 0
    }

    pub fn is_full(&self) -> (r: bool)
        ensures
            r == (self.items().len() >= self.bound()),
    {
        self.queue.len() >= self.capacity
    }

    pub fn is_closed_now(&self) -> (r: bool)
        ensures
            r == self.is_closed(),
    {
        self.closed
    }

    pub fn capacity(&self) -> (r: usize)
        ensures
            r == self.bound(),
    {
        self.capacity
    }

    /// Queues `item` behind those already waiting. A full or closed channel
    /// refuses it and hands it back, so that nothing is dropped silently.
    pub fn try_send(&mut self, item: T) -> (r: Result<(), SendError<T>>)
        requires
            old(self).wf(),
        ensures
            final(self).wf(),
            final(self).bound() == old(self).bound(),
            final(self).is_closed() == old(self).is_closed(),
            old(self).is_closed() ==> r == Err::<(), SendError<T>>(SendError::Closed(item))
                && final(self).items() == old(self).items(),
            !old(self).is_closed() && old(self).items().len() >= old(self).bound() ==> r == Err::<
                (),
                SendError<T>,
            >(SendError::Full(item)) && final(self).items() == old(self).items(),
            !old(self).is_closed() && old(self).items().len() < old(self).bound() ==> r is Ok
                && final(self).items() == old(self).items().push(item),
    {
        if self.closed {
            return Err(SendError::Closed(item));
        }
        if self.queue.len() >= self.capacity {
            return Err(SendError::Full(item));
        }
        self.queue.push_back(item);
        Ok(())
    }

    /// Takes the oldest waiting item, or `None` at once when nothing waits.
    /// It never waits for an item to arrive.
    pub fn poll_next(&mut self) -> (r: Option<T>)
        requires
            old(self).wf(),
        ensures
            final(self).wf(),
            final(self).bound() == old(self).bound(),
            final(self).is_closed() == old(self).is_closed(),
            old(self).items().len() == 0 ==> r is None && final(self).items() == old(self).items(),
            old(self).items().len() > 0 ==> r == Some(old(self).items()[0])
                && final(self).items() == old(self).items().drop_first(),
    {
        self.queue.pop_front()
    }

    /// Refuses every later item; those already queued can still be taken.
    pub fn close(&mut self)
        requires
            old(self).wf(),
        ensures
            final(self).wf(),
            final(self).is_closed(),
            final(self).items() == old(self).items(),
            final(self).bound() == old(self).bound(),
    {
        self.closed = true;
    }
}

} // verus!
