//! Bounded first-in first-out queue over a buffer supplied by the caller.
//!
//! The queue never allocates after construction and every operation runs in
//! constant time, so it may be used with interrupts masked.

use crate::error::Error;
use vstd::prelude::*;

verus! {

/// Position in a ring of `capacity` slots that lies `offset` slots after
/// `start`, for `start < capacity` and `offset <= capacity`.
pub open spec fn ring_index(start: int, offset: int, capacity: int) -> int {
    if start + offset < capacity {
        start + offset
    } else {
        start + offset - capacity
    }
}

/// One operation on a queue, for statements about whole histories.
pub enum QueueOp<T> {
    Push(T),
    Pop,
}

/// What a queue of the given capacity holds after one operation.
pub open spec fn queue_step<T>(contents: Seq<T>, capacity: nat, op: QueueOp<T>) -> Seq<T> {
    match op {
        QueueOp::Push(value) => if contents.len() < capacity {
            contents.push(value)
        } else {
            contents
        },
        QueueOp::Pop => if contents.len() > 0 {
            contents.subrange(1, contents.len() as int)
        } else {
            contents
        },
    }
}

/// What a queue of the given capacity holds after a history of operations.
pub open spec fn queue_run<T>(contents: Seq<T>, capacity: nat, ops: Seq<QueueOp<T>>) -> Seq<T>
    decreases ops.len(),
{
    if ops.len() == 0 {
        contents
    } else {
        queue_step(queue_run(contents, capacity, ops.drop_last()), capacity, ops.last())
    }
}

/// A history that pushes each item of `items` in turn.
pub open spec fn pushes<T>(items: Seq<T>) -> Seq<QueueOp<T>> {
    Seq::new(items.len(), |i: int| QueueOp::Push(items[i]))
}

/// A history of `n` pops.
pub open spec fn pops<T>(n: nat) -> Seq<QueueOp<T>> {
    Seq::new(n, |i: int| QueueOp::Pop)
}

/// Whatever the history, a queue never holds more than its capacity.
pub proof fn lemma_len_never_exceeds_capacity<T>(contents: Seq<T>, capacity: nat, ops: Seq<QueueOp<T>>)
    requires
        contents.len() <= capacity,
    ensures
        queue_run(contents, capacity, ops).len() <= capacity,
    decreases ops.len(),
{
    if ops.len() > 0 {
        lemma_len_never_exceeds_capacity(contents, capacity, ops.drop_last());
    }
}

/// Pushing no more items than the capacity onto an empty queue stores
/// exactly those items, in order.
pub proof fn lemma_pushes_are_kept<T>(items: Seq<T>, capacity: nat)
    requires
        items.len() <= capacity,
    ensures
        queue_run(Seq::<T>::empty(), capacity, pushes(items)) == items,
    decreases items.len(),
{
    if items.len() > 0 {
        let shorter = items.drop_last();
        lemma_pushes_are_kept(shorter, capacity);
        assert(pushes(items).drop_last() =~= pushes(shorter));
        assert(pushes(items).last() == QueueOp::Push(items.last()));
        assert(shorter.push(items.last()) =~= items);
    } else {
        assert(items =~= Seq::<T>::empty());
    }
}

/// After as many pushes as the capacity, one more push is refused and the
/// stored entries stay as they were.
pub proof fn lemma_push_on_full_keeps_entries<T>(items: Seq<T>, extra: T, capacity: nat)
    requires
        items.len() == capacity,
    ensures
        queue_run(Seq::<T>::empty(), capacity, pushes(items).push(QueueOp::Push(extra))) == items,
{
    lemma_pushes_are_kept(items, capacity);
    let history = pushes(items).push(QueueOp::Push(extra));
    assert(history.drop_last() =~= pushes(items));
    assert(history.last() == QueueOp::Push(extra));
}

/// Popping `n` times removes the `n` oldest entries, or all of them when
/// fewer are queued.
pub proof fn lemma_pops_remove_oldest<T>(contents: Seq<T>, capacity: nat, n: nat)
    ensures
        queue_run(contents, capacity, pops(n)) == if n <= contents.len() {
            contents.subrange(n as int, contents.len() as int)
        } else {
            Seq::<T>::empty()
        },
    decreases n,
{
    if n > 0 {
        let fewer = (n - 1) as nat;
        lemma_pops_remove_oldest(contents, capacity, fewer);
        assert(pops::<T>(n).drop_last() =~= pops::<T>(fewer));
        assert(pops::<T>(n).last() == QueueOp::<T>::Pop);
        let before = queue_run(contents, capacity, pops(fewer));
        if n <= contents.len() {
            assert(before.subrange(1, before.len() as int) =~= contents.subrange(
                n as int,
                contents.len() as int,
            ));
        }
    } else {
        assert(contents.subrange(0, contents.len() as int) =~= contents);
    }
}

/// Once every entry has been popped the queue is empty, and popping again
/// changes nothing.
pub proof fn lemma_drained_queue_stays_empty<T>(contents: Seq<T>, capacity: nat, more: nat)
    ensures
        queue_run(contents, capacity, pops(contents.len())).len() == 0,
        queue_run(contents, capacity, pops(contents.len() + more)).len() == 0,
        queue_step(Seq::<T>::empty(), capacity, QueueOp::Pop) == Seq::<T>::empty(),
{
    lemma_pops_remove_oldest(contents, capacity, contents.len());
    lemma_pops_remove_oldest(contents, capacity, contents.len() + more);
}


/// Fixed-capacity ring buffer. Its view is the sequence of queued values,
/// oldest first.
pub struct ArrayQueue<T> {
    buf: Vec<T>,
    read_pos: usize,
    count: usize,
}

impl<T: Copy> View for ArrayQueue<T> {
    type V = Seq<T>;

    closed spec fn view(&self) -> Seq<T> {
        Seq::new(
            self.count as nat,
            |i: int| self.buf@[ring_index(self.read_pos as int, i, self.buf.len() as int)],
        )
    }
}

impl<T> ArrayQueue<T> {
    #[verifier::type_invariant]
    closed spec fn inv(&self) -> bool {
        &&& self.count <= self.buf.len()
        &&& self.read_pos <= self.buf.len()
        &&& self.buf.len() > 0 ==> self.read_pos < self.buf.len()
    }
}

impl<T: Copy> ArrayQueue<T> {
    /// Number of values the queue can hold.
    pub closed spec fn spec_capacity(&self) -> nat {
        self.buf.len() as nat
    }

    /// Builds an empty queue over `buf`. The length of `buf` becomes the
    /// capacity; what `buf` held is forgotten.
    pub fn new(buf: Vec<T>) -> (q: Self)
        ensures
            q@ == Seq::<T>::empty(),
            q.spec_capacity() == buf.len(),
    {
        let q = ArrayQueue { buf, read_pos: 0, count: 0 };
        assert(q@ =~= Seq::<T>::empty());
        q
    }

    /// Number of values the queue can hold.
    #[verifier::when_used_as_spec(spec_capacity_usize)]
    pub fn capacity(&self) -> (c: usize)
        ensures
            c == self.spec_capacity(),
    {
        self.buf.len()
    }

    /// The capacity as a machine integer.
    pub closed spec fn spec_capacity_usize(&self) -> usize {
        self.buf.len()
    }

    /// Number of queued values; never more than the capacity.
    pub fn len(&self) -> (n: usize)
        ensures
            n == self@.len(),
            n <= self.spec_capacity(),
    {
        proof {
            use_type_invariant(self);
        }
        self.count
    }

    /// Whether nothing is queued.
    pub fn is_empty(&self) -> (b: bool)
        ensures
            b == (self@.len() == 0),
    {
        self.count == 0
    }

    /// Whether no slot is free.
    pub fn is_full(&self) -> (b: bool)
        ensures
            b == (self@.len() == self.spec_capacity()),
    {
        self.count == self.buf.len()
    }

    /// Appends `value` as the newest entry, or fails with `Error::Full` and
    /// leaves the queue as it was when no slot is free.
    pub fn push(&mut self, value: T) -> (r: Result<(), Error>)
        ensures
            final(self).spec_capacity() == old(self).spec_capacity(),
            final(self)@ == queue_step(old(self)@, old(self).spec_capacity(), QueueOp::Push(value)),
            final(self)@.len() <= final(self).spec_capacity(),
            r is Ok <==> old(self)@.len() < old(self).spec_capacity(),
            r is Err ==> r == Err::<(), Error>(Error::Full),
    {
        proof {
            use_type_invariant(&*self);
        }
        let capacity = self.buf.len();
        if self.count == capacity {
            return Err(Error::Full);
        }
        let free = capacity - self.count;
        let write_pos = if self.read_pos >= free {
            self.read_pos - free
        } else {
            self.read_pos + self.count
        };
        self.buf[write_pos] = value;
        self.count = self.count + 1;
        proof {
            let before = old(self)@;
            let after = self@;
            assert(after.len() == before.len() + 1);
            assert forall|i: int| 0 <= i < after.len() implies after[i] == before.push(value)[i] by {
                let slot = ring_index(self.read_pos as int, i, capacity as int);
                if i < before.len() {
                    assert(slot != write_pos);
                }
            }
            assert(after =~= before.push(value));
        }
        Ok(())
    }

    /// The oldest entry, if there is one; the queue is not changed.
    pub fn front(&self) -> (r: Option<T>)
        ensures
            r == if self@.len() > 0 { Some(self@[0]) } else { None::<T> },
    {
        proof {
            use_type_invariant(self);
        }
        if self.count == 0 {
            None
        } else {
            Some(self.buf[self.read_pos])
        }
    }

    /// Removes and returns the oldest entry, or returns `None` and leaves
    /// the queue as it was when it is empty.
    pub fn pop(&mut self) -> (r: Option<T>)
        ensures
            final(self).spec_capacity() == old(self).spec_capacity(),
            final(self)@ == queue_step(old(self)@, old(self).spec_capacity(), QueueOp::Pop),
            final(self)@.len() <= final(self).spec_capacity(),
            r == if old(self)@.len() > 0 { Some(old(self)@[0]) } else { None::<T> },
    {
        proof {
            use_type_invariant(&*self);
        }
        if self.count == 0 {
            return None;
        }
        let capacity = self.buf.len();
        let value = self.buf[self.read_pos];
        let next = if self.read_pos + 1 == capacity {
            0
        } else {
            self.read_pos + 1
        };
        self.count = self.count - 1;
        self.read_pos = next;
        proof {
            let before = old(self)@;
            let after = self@;
            assert forall|i: int| 0 <= i < after.len() implies after[i] == before[i + 1] by {
                assert(ring_index(self.read_pos as int, i, capacity as int) == ring_index(
                    old(self).read_pos as int,
                    i + 1,
                    capacity as int,
                ));
            }
            assert(after =~= before.subrange(1, before.len() as int));
        }
        Some(value)
    }
}

} // verus!
