//! Fixed-capacity circular byte buffer: one instance per bridge direction.
//!
//! Enqueuing on a full queue is rejected without disturbing the stored bytes;
//! dequeuing on an empty queue reports no data. Bytes come out in the order
//! they went in. The capacity is fixed at construction and never changes.

use vstd::prelude::*;

verus! {

/// Cell index of the element `i` slots past `head` in a circular buffer of
/// `cap` cells. Meaningful while `0 <= head < cap` and `0 <= i <= cap`, where
/// the sum wraps around at most once.
pub open spec fn wrap_index(head: int, i: int, cap: int) -> int {
    if head + i < cap {
        head + i
    } else {
        head + i - cap
    }
}

/// One enqueue attempt on the queue's abstract contents: a full queue rejects
/// the byte and keeps its contents, otherwise the byte is appended.
pub open spec fn enq_model(q: Seq<u8>, cap: nat, b: u8) -> Seq<u8> {
    if q.len() < cap {
        q.push(b)
    } else {
        q
    }
}

/// Enqueuing every byte of `s` in order: the bytes that find room are
/// appended, the rest are dropped once the queue is full.
pub open spec fn fill_model(q: Seq<u8>, cap: nat, s: Seq<u8>) -> Seq<u8> {
    if q.len() + s.len() <= cap {
        q + s
    } else if q.len() <= cap {
        q + s.take(cap - q.len())
    } else {
        q
    }
}

pub struct ByteQueue {
    buf: Vec<u8>,
    head: usize,
    len: usize,
}

impl View for ByteQueue {
    type V = Seq<u8>;

    /// The stored bytes, oldest first.
    closed spec fn view(&self) -> Seq<u8> {
        Seq::new(
            self.len as nat,
            |i: int| self.buf@[wrap_index(self.head as int, i, self.buf@.len() as int)],
        )
    }
}

impl ByteQueue {
    /// Number of cells; fixed at construction.
    pub closed spec fn capacity(&self) -> nat {
        self.buf@.len()
    }

    pub closed spec fn wf(&self) -> bool {
        &&& self.len <= self.buf@.len()
        &&& self.head < self.buf@.len() || (self.buf@.len() == 0 && self.head == 0)
    }

    pub fn new(capacity: usize) -> (q: ByteQueue)
        ensures
            q.wf(),
            q.capacity() == capacity,
            q@ == Seq::<u8>::empty(),
    {
        let mut buf: Vec<u8> = Vec::new();
        while buf.len() < capacity
            invariant
                buf@.len() <= capacity,
            decreases capacity - buf@.len(),
        {
            buf.push(0);
        }
        let q = ByteQueue { buf, head: 0, len: 0 };
        proof {
            assert(q@ =~= Seq::<u8>::empty());
        }
        q
    }

    /// Number of bytes currently stored.
    pub fn len(&self) -> (n: usize)
        ensures
            n == self@.len(),
    {
        self.len
    }

    /// The fixed capacity.
    pub fn capacity_in_bytes(&self) -> (c: usize)
        ensures
            c == self.capacity(),
    {
        self.buf.len()
    }

    /// Appends `b` unless the queue is full; a full queue rejects the byte
    /// and keeps its stored bytes unchanged.
    pub fn try_enqueue(&mut self, b: u8) -> (ok: bool)
        requires
            old(self).wf(),
        ensures
            final(self).wf(),
            final(self).capacity() == old(self).capacity(),
            ok == (old(self)@.len() < old(self).capacity()),
            final(self)@ == enq_model(old(self)@, old(self).capacity(), b),
            final(self)@.len() <= final(self).capacity(),
    {
        let cap = self.buf.len();
        if self.len < cap {
            let tail = if self.head < cap - self.len {
                self.head + self.len
            } else {
                self.head - (cap - self.len)
            };
            self.buf[tail] = b;
            self.len = self.len + 1;
            proof {
                assert(self@ =~= old(self)@.push(b));
            }
            true
        } else {
            false
        }
    }

    /// Removes and returns the oldest byte; an empty queue reports no data.
    pub fn try_dequeue(&mut self) -> (r: Option<u8>)
        requires
            old(self).wf(),
        ensures
            final(self).wf(),
            final(self).capacity() == old(self).capacity(),
            old(self)@.len() == 0 ==> r is None && final(self)@ == old(self)@,
            old(self)@.len() > 0 ==> r == Some(old(self)@[0]) && final(self)@ == old(self)@.drop_first(),
    {
        if self.len == 0 {
            None
        } else {
            let b = self.buf[self.head];
            let cap = self.buf.len();
            self.head = if self.head + 1 < cap {
                self.head + 1
            } else {
                0
            };
            self.len = self.len - 1;
            proof {
                assert(self@ =~= old(self)@.drop_first());
            }
            Some(b)
        }
    }
}

/// FIFO order: a sequence of bytes enqueued into a queue that never becomes
/// full is held exactly, in order; since each dequeue hands out the front of
/// the contents, dequeuing yields the identical sequence.
pub proof fn lemma_fifo_order(s: Seq<u8>, cap: nat)
    requires
        s.len() <= cap,
    ensures
        fill_model(Seq::<u8>::empty(), cap, s) == s,
{
    assert(fill_model(Seq::<u8>::empty(), cap, s) =~= s);
}

/// Capacity boundary: exactly `cap` bytes fit; an enqueue on the full queue
/// is rejected and leaves the stored bytes unchanged.
pub proof fn lemma_capacity_boundary(s: Seq<u8>, cap: nat, b: u8)
    requires
        s.len() == cap,
    ensures
        fill_model(Seq::<u8>::empty(), cap, s) == s,
        enq_model(s, cap, b) == s,
{
    assert(fill_model(Seq::<u8>::empty(), cap, s) =~= s);
}

} // verus!
