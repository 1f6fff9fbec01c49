//! The two message-passing primitives that connect the tasks: a bounded FIFO
//! queue of capacity four and a single-slot latest-value cell.

use std::collections::VecDeque;
use vstd::prelude::*;

verus! {

/// Number of items a queue holds before a non-blocking send is refused.
pub const CHANNEL_CAPACITY: usize = 4;

/// Bounded FIFO queue. A send on a full queue is refused and hands the item
/// back; the contents stay as they were.
pub struct Channel<T> {
    items: VecDeque<T>,
}

impl<T> View for Channel<T> {
    type V = Seq<T>;

    closed spec fn view(&self) -> Seq<T> {
        self.items@
    }
}

impl<T> Channel<T> {
    /// An empty queue.
    pub fn new() -> (r: Self)
        ensures
            r@ == Seq::<T>::empty(),
    {
        Channel { items: VecDeque::new() }
    }

    /// Number of queued items.
    pub fn len(&self) -> (r: usize)
        ensures
            r == self@.len(),
    {
        self.items.len()
    }

    /// Appends `item` at the back if fewer than four items are queued;
    /// otherwise returns it in `Err` and leaves the queue untouched.
    pub fn try_send(&mut self, item: T) -> (r: Result<(), T>)
        ensures
            old(self)@.len() < CHANNEL_CAPACITY ==> r is Ok && final(self)@ == old(self)@.push(item),
            old(self)@.len() >= CHANNEL_CAPACITY ==> r == Err::<(), T>(item) && final(self)@ == old(self)@,
    {
        if self.items.len() < CHANNEL_CAPACITY {
            self.items.push_back(item);
            Ok(())
        } else {
            Err(item)
        }
    }

    /// Removes and returns the oldest item, if any.
    pub fn try_receive(&mut self) -> (r: Option<T>)
        ensures
            old(self)@.len() == 0 ==> r is None && final(self)@ == old(self)@,
            old(self)@.len() > 0 ==> r == Some(old(self)@[0]) && final(self)@ == old(self)@.drop_first(),
    {
        self.items.pop_front()
    }
}

/// Latest-value cell: a write overwrites whatever was there, a take empties it.
pub struct Signal<T> {
    slot: Option<T>,
}

impl<T> View for Signal<T> {
    type V = Option<T>;

    closed spec fn view(&self) -> Option<T> {
        self.slot
    }
}

impl<T> Signal<T> {
    /// A cell holding no value.
    pub fn new() -> (r: Self)
        ensures
            r@ is None,
    {
        Signal { slot: None }
    }

    /// Stores `value`, replacing any value not yet taken.
    pub fn signal(&mut self, value: T)
        ensures
            final(self)@ == Some(value),
    {
        self.slot = Some(value);
    }

    /// Takes the stored value, leaving the cell empty.
    pub fn try_take(&mut self) -> (r: Option<T>)
        ensures
            r == old(self)@,
            final(self)@ is None,
    {
        self.slot.take()
    }

    /// Whether a value is waiting to be taken.
    pub fn signaled(&self) -> (r: bool)
        ensures
            r == self@ is Some,
    {
        self.slot.is_some()
    }
}

} // verus!
