//! A fixed-capacity buffer that keeps the most recent items.

use vstd::prelude::*;

verus! {

/// A buffer of at most `capacity` items. Once it is full, each new item
/// replaces the oldest one.
///
/// The view is the sequence of the items it holds, oldest first.
#[derive(Debug, Clone)]
pub struct RingBuffer<T> {
    buffer: Vec<T>,
    capacity: usize,
    position: usize,
    count: usize,
}

impl<T> View for RingBuffer<T> {
    type V = Seq<T>;

    closed spec fn view(&self) -> Seq<T> {
        if self.count < self.capacity {
            self.buffer@
        } else {
            self.buffer@.subrange(self.position as int, self.capacity as int)
                + self.buffer@.subrange(0, self.position as int)
        }
    }
}

/// What a sequence of at most `capacity` items becomes when `item` is added
/// at its end: the first item leaves if there is no room.
pub open spec fn push_bounded<T>(items: Seq<T>, capacity: nat, item: T) -> Seq<T> {
    if items.len() < capacity {
        items.push(item)
    } else {
        items.drop_first().push(item)
    }
}

impl<T> RingBuffer<T> {
    /// The slots are filled from the first one on; while there is room the
    /// cursor stands behind the last item, afterwards on the oldest one.
    pub closed spec fn wf(&self) -> bool {
        &&& self.capacity > 0
        &&& self.count <= self.capacity
        &&& self.buffer@.len() == self.count
        &&& self.position < self.capacity
        &&& self.count < self.capacity ==> self.position == self.count
    }

    /// The largest number of items the buffer holds at once.
    pub closed spec fn capacity(&self) -> nat {
        self.capacity as nat
    }

    /// A well-formed buffer never holds more than its capacity.
    pub proof fn lemma_len_bounded(&self)
        requires
            self.wf(),
        ensures
            self@.len() <= self.capacity(),
            self.capacity() > 0,
            self.capacity() <= usize::MAX,
    {
    }

    /// Create an empty ring buffer with the specified capacity. Room for all
    /// its items is set aside here, once.
    pub fn new(capacity: usize) -> (buffer: Self)
        requires
            capacity > 0,
        ensures
            buffer.wf(),
            buffer@ == Seq::<T>::empty(),
            buffer.capacity() == capacity,
    {
        RingBuffer { buffer: Vec::with_capacity(capacity), capacity, position: 0, count: 0 }
    }

    /// Add an item; when the buffer is full the oldest item is dropped.
    pub fn push(&mut self, item: T)
        requires
            old(self).wf(),
        ensures
            final(self).wf(),
            final(self).capacity() == old(self).capacity(),
            final(self)@ == push_bounded(old(self)@, old(self).capacity(), item),
    {
        if self.count < self.capacity {
            self.buffer.push(item);
            self.count = self.count + 1;
        } else {
            self.buffer[self.position] = item;
        }
        self.position = if self.position + 1 == self.capacity {
            0
        } else {
            self.position + 1
        };
        assert(final(self)@ =~= push_bounded(old(self)@, old(self).capacity(), item));
    }

    /// The slot that holds the item at `index`, counted from the oldest.
    fn slot(&self, index: usize) -> (slot: usize)
        requires
            self.wf(),
            index < self@.len(),
        ensures
            slot < self.buffer@.len(),
            self.buffer@[slot as int] == self@[index as int],
    {
        let base: usize = if self.count < self.capacity {
            0
        } else {
            self.position
        };
        if index < self.capacity - base {
            base + index
        } else {
            index - (self.capacity - base)
        }
    }

    /// Get the item at the specified index, with 0 being the oldest item.
    pub fn get(&self, index: usize) -> (item: Option<&T>)
        requires
            self.wf(),
        ensures
            index < self@.len() ==> item == Some(&self@[index as int]),
            index >= self@.len() ==> item.is_none(),
    {
        if index < self.count {
            let slot: usize = self.slot(index);
            Some(&self.buffer[slot])
        } else {
            None
        }
    }

    /// The items in the buffer from oldest to newest.
    pub fn iter(&self) -> (items: Vec<&T>)
        requires
            self.wf(),
        ensures
            items@.len() == self@.len(),
            forall|i: int| 0 <= i < self@.len() ==> *(#[trigger] items@[i]) == self@[i],
    {
        let mut items: Vec<&T> = Vec::new();
        let mut index: usize = 0;
        while index < self.count
            invariant
                self.wf(),
                index <= self.count,
                self.count == self@.len(),
                items@.len() == index,
                forall|i: int| 0 <= i < index ==> *(#[trigger] items@[i]) == self@[i],
            decreases self.count - index,
        {
            let slot: usize = self.slot(index);
            items.push(&self.buffer[slot]);
            index = index + 1;
        }
        items
    }

    /// Get the number of items in the buffer.
    pub fn len(&self) -> (count: usize)
        requires
            self.wf(),
        ensures
            count == self@.len(),
    {
        self.count
    }

    /// Whether the buffer holds no item.
    pub fn is_empty(&self) -> (empty: bool)
        requires
            self.wf(),
        ensures
            empty == (self@.len() == 0),
    {
        self.count == 0
    }
}

} // verus!
