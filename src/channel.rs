//! The bounded hand-off between the producer of frames and the worker that
//! persists them: first in, first out, with a fixed capacity that makes a
//! full channel push back on the producer.

use vstd::prelude::*;

verus! {

/// The capacity of the frame hand-off.
pub const FRAME_CHANNEL_CAPACITY: usize = 5;

/// What a receive finds.
#[derive(Debug, PartialEq, Eq)]
pub enum Received<T> {
    Item(T),
    /// Nothing waiting; the sender may still send.
    Empty,
    /// Nothing waiting and the sender has closed the channel: drain is done.
    Closed,
}

pub struct ChannelView<T> {
    pub items: Seq<T>,
    pub capacity: usize,
    pub closed: bool,
}

/// A send is taken: the channel is open and has room.
pub open spec fn send_accepted<T>(c: ChannelView<T>) -> bool {
    !c.closed && c.items.len() < c.capacity
}

pub struct FrameChannel<T> {
    items: Vec<T>,
    capacity: usize,
    closed: bool,
}

impl<T> View for FrameChannel<T> {
    type V = ChannelView<T>;

    closed spec fn view(&self) -> ChannelView<T> {
        ChannelView { items: self.items@, capacity: self.capacity, closed: self.closed }
    }
}

impl<T> FrameChannel<T> {
    pub fn new(capacity: usize) -> (r: FrameChannel<T>)
        ensures
            r@.items == Seq::<T>::empty(),
            r@.capacity == capacity,
            !r@.closed,
    {
        FrameChannel { items: Vec::new(), capacity, closed: false }
    }

    pub fn len(&self) -> (r: usize)
        ensures
            r == self@.items.len(),
    {
        self.items.len()
    }

    /// A send now would have to wait for a receive.
    pub fn is_full(&self) -> (r: bool)
        ensures
            r == (self@.items.len() >= self@.capacity),
    {
        self.items.len() >= self.capacity
    }

    pub fn is_closed(&self) -> (r: bool)
        ensures
            r == self@.closed,
    {
        self.closed
    }

    /// Queues `item` at the back if the channel is open and has room;
    /// otherwise hands it back and leaves the channel as it was.
    pub fn try_send(&mut self, item: T) -> (r: Result<(), T>)
        ensures
            r is Ok <==> send_accepted(old(self)@),
            r is Ok ==> final(self)@ == (ChannelView { items: old(self)@.items.push(item), ..old(self)@ }),
            r matches Err(back) ==> back == item && final(self)@ == old(self)@,
    {
        if self.closed || self.items.len() >= self.capacity {
            return Err(item);
        }
        self.items.push(item);
        Ok(())
    }

    /// Takes the oldest item, if any.
    pub fn try_recv(&mut self) -> (r: Received<T>)
        ensures
            old(self)@.items.len() > 0 ==> r == Received::Item(old(self)@.items[0])
                && final(self)@ == (ChannelView { items: old(self)@.items.drop_first(), ..old(self)@ }),
            old(self)@.items.len() == 0 ==> final(self)@ == old(self)@
                && r == (if old(self)@.closed { Received::<T>::Closed } else { Received::<T>::Empty }),
    {
        if self.items.len() == 0 {
            if self.closed {
                return Received::Closed;
            }
            return Received::Empty;
        }
        let first = self.items.remove(0);
        assert(self.items@ =~= old(self)@.items.drop_first());
        Received::Item(first)
    }

    /// Closes the sending end: no more sends are taken; what is queued stays.
    pub fn close(&mut self)
        ensures
            final(self)@ == (ChannelView { closed: true, ..old(self)@ }),
    {
        self.closed = true;
    }
}

/// Backpressure: an open channel holding `capacity` items refuses a send,
/// and one receive from it makes room for exactly that send.
pub proof fn lemma_backpressure<T>(c: ChannelView<T>)
    requires
        !c.closed,
        c.capacity > 0,
        c.items.len() == c.capacity,
    ensures
        !send_accepted(c),
        send_accepted(ChannelView { items: c.items.drop_first(), ..c }),
{
}

} // verus!
