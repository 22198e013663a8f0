//! Bounded first-in first-out ring of events, one per priority level.
use vstd::prelude::*;
use crate::event::{Event, EventPriority};

verus! {

/// A fixed-capacity FIFO of events kept in a circular buffer.
///
/// `head` is the buffer position of the oldest event and `count` the number of
/// events held; a full ring rejects new events instead of overwriting old ones.
pub struct EventRing {
    buffer: Vec<Event>,
    head: usize,
    count: usize,
}

/// Buffer position of the `i`-th oldest event of a ring whose oldest event sits at `head`.
pub open spec fn slot_of(head: int, i: int, cap: int) -> int {
    if head + i < cap {
        head + i
    } else {
        head + i - cap
    }
}

impl EventRing {
    /// The events held, oldest first.
    pub closed spec fn view(&self) -> Seq<Event> {
        Seq::new(
            self.count as nat,
            |i: int| self.buffer@[slot_of(self.head as int, i, self.buffer@.len() as int)],
        )
    }

    /// How many events the ring can hold.
    pub closed spec fn capacity(&self) -> nat {
        self.buffer@.len()
    }

    pub closed spec fn wf(&self) -> bool {
        &&& self.buffer@.len() > 0
        &&& self.head < self.buffer@.len()
        &&& self.count <= self.buffer@.len()
    }

    /// An empty ring that holds up to `capacity` events.
    pub fn new(capacity: usize) -> (r: EventRing)
        requires
            capacity > 0,
        ensures
            r.wf(),
            r@ == Seq::<Event>::empty(),
            r.capacity() == capacity,
    {
        let mut buffer: Vec<Event> = Vec::new();
        let mut i: usize = 0;
        while i < capacity
            invariant
                i <= capacity,
                buffer@.len() == i,
            decreases capacity - i,
        {
            buffer.push(Event::new(0, EventPriority::Low));
            i = i + 1;
        }
        let r = EventRing { buffer, head: 0, count: 0 };
        assert(r@ =~= Seq::<Event>::empty());
        r
    }

    /// Appends `event` at the tail, or hands it back when the ring is full;
    /// a full ring is left as it was.
    pub fn push(&mut self, event: Event) -> (r: Result<(), Event>)
        requires
            old(self).wf(),
        ensures
            final(self).wf(),
            final(self).capacity() == old(self).capacity(),
            old(self)@.len() < old(self).capacity() ==> r == Ok::<(), Event>(()) && final(self)@ == old(self)@.push(
                event,
            ),
            old(self)@.len() >= old(self).capacity() ==> r == Err::<(), Event>(event)
                && final(self)@ == old(self)@,
    {
        let cap = self.buffer.len();
        if self.count >= cap {
            return Err(event);
        }
        let tail = if self.head < cap - self.count {
            self.head + self.count
        } else {
            self.head - (cap - self.count)
        };
        self.buffer.set(tail, event);
        self.count = self.count + 1;
        assert(self@ =~= old(self)@.push(event));
        Ok(())
    }

    /// Removes and returns the oldest event, if any.
    pub fn pop(&mut self) -> (r: Option<Event>)
        requires
            old(self).wf(),
        ensures
            final(self).wf(),
            final(self).capacity() == old(self).capacity(),
            old(self)@.len() == 0 ==> r is None && final(self)@ == old(self)@,
            old(self)@.len() > 0 ==> r == Some(old(self)@[0]) && final(self)@ == old(
                self,
            )@.drop_first(),
    {
        if self.count == 0 {
            return None;
        }
        let event = self.buffer[self.head];
        let cap = self.buffer.len();
        self.head = if self.head + 1 < cap {
            self.head + 1
        } else {
            0
        };
        self.count = self.count - 1;
        assert(self@ =~= old(self)@.drop_first());
        Some(event)
    }

    /// Whether the ring holds no event.
    pub fn is_empty(&self) -> (r: bool)
        requires
            self.wf(),
        ensures
            r == (self@.len() == 0),
    {
        self.count == 0
    }

    /// Number of events held.
    pub fn len(&self) -> (r: usize)
        requires
            self.wf(),
        ensures
            r == self@.len(),
    {
        self.count
    }
}

} // verus!
