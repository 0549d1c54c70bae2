//! The fixed-capacity circular event buffer.
//!
//! Formatted lines are stored in a circular array of optional slots between
//! two cursors: producers write at the write cursor, the single consumer
//! drains at the read cursor. One slot always stays empty, so the buffer
//! holds at most one event fewer than its capacity; a produce call on a full
//! buffer drops the event instead of blocking.

use vstd::prelude::*;

verus! {

/// Number of slots in the circular event buffer. At most one fewer events
/// can be queued, since an empty slot separates the write cursor from the
/// read cursor.
pub const BUFFER_CAPACITY: usize = 15;

/// A cursor position plus an offset, wrapped back into the slot range.
/// Meaningful for `0 <= i < 2 * BUFFER_CAPACITY`.
pub open spec fn spec_wrap(i: int) -> int {
    if i >= BUFFER_CAPACITY as int {
        i - BUFFER_CAPACITY as int
    } else {
        i
    }
}

/// Whether slot `i` lies in the occupied window: from the read cursor
/// `tail` up to but excluding the write cursor `head`, wrapping at the
/// capacity.
pub open spec fn spec_occupied(tail: int, head: int, i: int) -> bool {
    if tail <= head {
        tail <= i < head
    } else {
        i >= tail || i < head
    }
}

/// The number of queued events for the given cursor positions.
pub open spec fn spec_queued(head: int, tail: int) -> int {
    if head >= tail {
        head - tail
    } else {
        head + BUFFER_CAPACITY as int - tail
    }
}

/// The circular buffer: a fixed array of optional slots and the two cursors.
pub struct EventBuffer {
    slots: Vec<Option<String>>,
    head: usize,
    tail: usize,
}

impl EventBuffer {
    /// Well-formed: the slot array has the fixed capacity, both cursors are
    /// in range, and exactly the slots of the occupied window are filled.
    pub closed spec fn wf(&self) -> bool {
        &&& self.slots@.len() == BUFFER_CAPACITY as int
        &&& self.head < BUFFER_CAPACITY
        &&& self.tail < BUFFER_CAPACITY
        &&& forall|i: int|
            0 <= i < BUFFER_CAPACITY as int ==> ((self.slots@[i] is Some) <==> spec_occupied(
                self.tail as int,
                self.head as int,
                i,
            ))
    }

    /// The queued events, oldest first.
    pub closed spec fn queue(&self) -> Seq<String> {
        Seq::new(
            spec_queued(self.head as int, self.tail as int) as nat,
            |k: int| self.slots@[spec_wrap(self.tail as int + k)].unwrap(),
        )
    }

    /// A full buffer: the next produce call would drop its event.
    pub open spec fn is_full(&self) -> bool {
        self.queue().len() == (BUFFER_CAPACITY - 1) as nat
    }

    /// A well-formed buffer never holds more events than one fewer than its
    /// capacity: the slot before the read cursor stays empty.
    pub proof fn lemma_capacity(&self)
        requires
            self.wf(),
        ensures
            self.queue().len() <= (BUFFER_CAPACITY - 1) as nat,
    {
    }

    /// Create an empty buffer with both cursors at the start.
    pub fn new() -> (buffer: Self)
        ensures
            buffer.wf(),
            buffer.queue() == Seq::<String>::empty(),
    {
        let mut slots: Vec<Option<String>> = Vec::new();
        let mut i: usize = 0;
        while i < BUFFER_CAPACITY
            invariant
                i <= BUFFER_CAPACITY,
                slots@.len() == i as int,
                forall|j: int| 0 <= j < i as int ==> slots@[j] is None,
            decreases BUFFER_CAPACITY - i,
        {
            slots.push(None);
            i = i + 1;
        }
        let buffer = EventBuffer { slots, head: 0, tail: 0 };
        proof {
            assert(buffer.queue() =~= Seq::<String>::empty());
        }
        buffer
    }

    /// Store one event at the write cursor and advance it, unless the buffer
    /// is full, in which case the event is dropped and the buffer is left
    /// unchanged.
    pub fn produce(&mut self, msg: String) -> (accepted: bool)
        requires
            old(self).wf(),
        ensures
            final(self).wf(),
            accepted == !old(self).is_full(),
            accepted ==> final(self).queue() == old(self).queue().push(msg),
            !accepted ==> *final(self) == *old(self),
    {
        let next = (self.head + 1) % BUFFER_CAPACITY;
        proof {
            assert(next == spec_wrap(self.head as int + 1)) by {
                if self.head + 1 < BUFFER_CAPACITY {
                    vstd::arithmetic::div_mod::lemma_small_mod(
                        (self.head + 1) as nat,
                        BUFFER_CAPACITY as nat,
                    );
                } else {
                    assert((self.head + 1) as int == BUFFER_CAPACITY as int);
                }
            }
        }
        if next != self.tail {
            let ghost pre = *self;
            self.slots[self.head] = Some(msg);
            self.head = next;
            proof {
                let tail = pre.tail as int;
                let head = pre.head as int;
                let len = spec_queued(head, tail);
                assert forall|i: int| 0 <= i < BUFFER_CAPACITY as int implies ((self.slots@[i]
                    is Some) <==> spec_occupied(self.tail as int, self.head as int, i)) by {
                    assert((pre.slots@[i] is Some) <==> spec_occupied(tail, head, i));
                }
                assert(self.wf());
                assert(spec_wrap(tail + len) == head);
                assert forall|k: int| 0 <= k < self.queue().len() implies self.queue()[k]
                    == pre.queue().push(msg)[k] by {
                    assert(spec_occupied(tail, head, spec_wrap(tail + k)) || k == len);
                }
                assert(self.queue() =~= pre.queue().push(msg));
            }
            true
        } else {
            false
        }
    }

    /// Take the oldest event out of the buffer and advance the read cursor;
    /// `None` when the buffer is empty.
    pub fn consume(&mut self) -> (msg: Option<String>)
        requires
            old(self).wf(),
        ensures
            final(self).wf(),
            old(self).queue().len() == 0 ==> msg is None && *final(self) == *old(self),
            old(self).queue().len() > 0 ==> msg == Some(old(self).queue()[0])
                && final(self).queue() == old(self).queue().subrange(
                1,
                old(self).queue().len() as int,
            ),
    {
        if self.tail == self.head {
            return None;
        }
        let ghost pre = *self;
        let taken = self.slots[self.tail].take();
        self.tail = (self.tail + 1) % BUFFER_CAPACITY;
        proof {
            assert(self.tail as int == spec_wrap(pre.tail as int + 1)) by {
                if pre.tail + 1 < BUFFER_CAPACITY {
                    vstd::arithmetic::div_mod::lemma_small_mod(
                        (pre.tail + 1) as nat,
                        BUFFER_CAPACITY as nat,
                    );
                } else {
                    assert((pre.tail + 1) as int == BUFFER_CAPACITY as int);
                }
            }
            let tail = pre.tail as int;
            let head = pre.head as int;
            let len = spec_queued(head, tail);
            assert(spec_occupied(tail, head, tail));
            assert(pre.queue()[0] == pre.slots@[tail].unwrap());
            assert(taken == Some(pre.queue()[0]));
            assert forall|i: int| 0 <= i < BUFFER_CAPACITY as int implies ((self.slots@[i]
                is Some) <==> spec_occupied(self.tail as int, self.head as int, i)) by {
                assert((pre.slots@[i] is Some) <==> spec_occupied(tail, head, i));
            }
            assert(self.wf());
            assert forall|k: int| 0 <= k < self.queue().len() implies self.queue()[k]
                == pre.queue().subrange(1, len)[k] by {
                assert(spec_occupied(tail, head, spec_wrap(tail + k + 1)));
            }
            assert(self.queue() =~= pre.queue().subrange(1, len));
        }
        taken
    }

    /// Drain the buffer: remove every queued event and return them, oldest
    /// first.
    pub fn drain(&mut self) -> (msgs: Vec<String>)
        requires
            old(self).wf(),
        ensures
            final(self).wf(),
            final(self).queue().len() == 0,
            msgs@ == old(self).queue(),
    {
        let mut msgs: Vec<String> = Vec::new();
        while self.tail != self.head
            invariant
                self.wf(),
                msgs@ + self.queue() == old(self).queue(),
            decreases self.queue().len(),
        {
            proof {
                assert(self.queue().len() > 0);
            }
            let ghost mid = *self;
            let msg = self.consume();
            match msg {
                Some(m) => {
                    msgs.push(m);
                },
                None => {},
            }
            proof {
                assert(msgs@ + self.queue() =~= old(self).queue());
            }
        }
        proof {
            assert(self.queue().len() == 0);
            assert(msgs@ =~= old(self).queue());
        }
        msgs
    }
}

} // verus!
