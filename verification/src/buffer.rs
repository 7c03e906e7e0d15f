//! The bounded buffer that holds readings whose upload failed.
//!
//! The buffer is a queue with a fixed capacity. When it is full, the oldest
//! reading makes room for the newest: under a long outage memory stays
//! bounded and the oldest readings are lost, which is the one place where
//! the client gives data up.

use crate::reading::TiltReading;
use std::collections::VecDeque;
use vstd::prelude::*;

verus! {

/// The newest `capacity` elements of `items`, in their order; all of them
/// where there are no more than that.
pub open spec fn keep_newest<T>(items: Seq<T>, capacity: nat) -> Seq<T> {
    if items.len() <= capacity {
        items
    } else {
        items.subrange(items.len() - capacity, items.len() as int)
    }
}

/// One insertion: where the queue is at capacity its oldest element leaves,
/// then the new one is appended. A queue of capacity zero holds nothing.
pub open spec fn push_one<T>(held: Seq<T>, item: T, capacity: nat) -> Seq<T> {
    if capacity == 0 {
        Seq::empty()
    } else if held.len() >= capacity {
        held.drop_first().push(item)
    } else {
        held.push(item)
    }
}

/// The insertions of `items`, one after the other.
pub open spec fn push_each<T>(held: Seq<T>, items: Seq<T>, capacity: nat) -> Seq<T>
    decreases items.len(),
{
    if items.len() == 0 {
        held
    } else {
        push_each(push_one(held, items[0], capacity), items.drop_first(), capacity)
    }
}

/// A queue of readings with a fixed capacity that it never exceeds.
pub struct ReadingBuffer {
    buffer: VecDeque<TiltReading>,
    capacity: usize,
}

impl View for ReadingBuffer {
    type V = Seq<TiltReading>;

    /// The buffered readings, oldest first.
    closed spec fn view(&self) -> Seq<TiltReading> {
        self.buffer@
    }
}

impl ReadingBuffer {
    /// The buffer never holds more readings than its capacity.
    #[verifier::type_invariant]
    pub(crate) open spec fn bounded(&self) -> bool {
        self@.len() <= self.capacity()
    }

    /// The most readings that the buffer holds.
    pub closed spec fn capacity(&self) -> nat {
        self.capacity as nat
    }

    /// An empty buffer that holds at most `capacity` readings.
    pub fn new(capacity: usize) -> (buffer: ReadingBuffer)
        ensures
            buffer@ == Seq::<TiltReading>::empty(),
            buffer.capacity() == capacity,
    {
        ReadingBuffer { buffer: VecDeque::new(), capacity }
    }

    /// Appends the readings in order. The bound holds after each single
    /// insertion, so of everything that was ever pushed the buffer keeps the
    /// newest readings, as many as fit.
    pub fn push_batch(&mut self, readings: &[TiltReading])
        ensures
            final(self).capacity() == old(self).capacity(),
            final(self)@ == keep_newest(old(self)@ + readings@, old(self).capacity()),
            final(self)@ == push_each(old(self)@, readings@, old(self).capacity()),
            final(self)@.len() <= final(self).capacity(),
    {
        proof {
            use_type_invariant(&*self);
            lemma_push_each_keeps_newest(self@, readings@, self.capacity());
        }
        let capacity = self.capacity;
        if capacity == 0 {
            return ;
        }
        let mut queue: VecDeque<TiltReading> = VecDeque::new();
        core::mem::swap(&mut self.buffer, &mut queue);
        let mut i: usize = 0;
        while i < readings.len()
            invariant
                i <= readings.len(),
                capacity > 0,
                queue@.len() <= capacity,
                queue@ == keep_newest(
                    old(self).buffer@ + readings@.subrange(0, i as int),
                    capacity as nat,
                ),
            decreases readings.len() - i,
        {
            if queue.len() >= capacity {
                queue.pop_front();
            }
            queue.push_back(readings[i]);
            i += 1;
        }
        core::mem::swap(&mut self.buffer, &mut queue);
    }

    /// Takes every buffered reading out, oldest first, and leaves the buffer
    /// empty.
    pub fn drain_all(&mut self) -> (drained: Vec<TiltReading>)
        ensures
            drained@ == old(self)@,
            final(self)@ == Seq::<TiltReading>::empty(),
            final(self).capacity() == old(self).capacity(),
    {
        let mut queue: VecDeque<TiltReading> = VecDeque::new();
        core::mem::swap(&mut self.buffer, &mut queue);
        let mut drained: Vec<TiltReading> = Vec::new();
        loop
            invariant
                drained@ + queue@ == old(self).buffer@,
            ensures
                queue@.len() == 0,
            decreases queue@.len(),
        {
            match queue.pop_front() {
                Some(reading) => {
                    drained.push(reading);
                },
                None => {
                    break ;
                },
            }
        }
        drained
    }

    /// How many readings are buffered.
    pub fn len(&self) -> (n: usize)
        ensures
            n == self@.len(),
            n <= self.capacity(),
    {
        proof {
            use_type_invariant(self);
        }
        self.buffer.len()
    }

    pub fn is_empty(&self) -> (empty: bool)
        ensures
            empty == (self@.len() == 0),
    {
        self.buffer.len() == 0
    }
}

/// Keeping the newest is the same whether it is done once at the end or
/// also somewhere on the way.
pub proof fn lemma_keep_newest_twice<T>(first: Seq<T>, second: Seq<T>, capacity: nat)
    ensures
        keep_newest(keep_newest(first, capacity) + second, capacity) == keep_newest(
            first + second,
            capacity,
        ),
{
}

/// Inserting one reading at a time, with an eviction whenever the queue is
/// full, leaves the newest readings of everything that was held and pushed.
pub proof fn lemma_push_each_keeps_newest<T>(held: Seq<T>, items: Seq<T>, capacity: nat)
    requires
        held.len() <= capacity,
    ensures
        push_each(held, items, capacity) == keep_newest(held + items, capacity),
        push_each(held, items, capacity).len() <= capacity,
    decreases items.len(),
{
    if items.len() > 0 {
        lemma_push_each_keeps_newest(
            push_one(held, items[0], capacity),
            items.drop_first(),
            capacity,
        );
    }
}

/// After more pushes than the buffer has room for, the buffer is full and
/// holds exactly the newest of the pushed readings, in the order in which
/// they were pushed, whatever it held before.
pub proof fn lemma_overflow_keeps_most_recent<T>(held: Seq<T>, pushed: Seq<T>, capacity: nat)
    requires
        held.len() <= capacity,
        pushed.len() > capacity,
    ensures
        push_each(held, pushed, capacity).len() == capacity,
        push_each(held, pushed, capacity) == pushed.subrange(
            pushed.len() - capacity,
            pushed.len() as int,
        ),
{
    lemma_push_each_keeps_newest(held, pushed, capacity);
}

} // verus!
