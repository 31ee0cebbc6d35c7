//! A bounded ring buffer of octets in transit between the two halves of
//! a flow.
//!
//! Each buffer has one producer (its own connection's read path) and one
//! consumer (the peer connection's write path). Beside the bytes it
//! currently holds, the buffer carries the ghost sequence of all bytes
//! ever consumed from it, so that byte conservation — everything ever
//! read in is everything written out followed by what is still pending —
//! is part of every operation's contract.

use vstd::prelude::*;
use vstd::std_specs::vec::vec_index_mut;

verus! {

/// A fixed-capacity ring buffer of bytes.
pub struct RingBuffer {
    /// Storage; its length is the capacity and never changes.
    data: Vec<u8>,
    /// Index of the oldest byte.
    start: usize,
    /// Number of bytes currently held.
    count: usize,
    /// All bytes ever consumed, in order.
    consumed: Ghost<Seq<u8>>,
}

impl RingBuffer {
    /// The buffer's capacity in bytes.
    pub closed spec fn capacity(&self) -> int {
        self.data@.len() as int
    }

    /// Well-formed: non-empty storage, indices in range.
    pub closed spec fn wf(&self) -> bool {
        &&& self.data@.len() >= 1
        &&& self.start < self.data@.len()
        &&& self.count <= self.data@.len()
    }

    /// The bytes currently held, oldest first.
    pub closed spec fn contents(&self) -> Seq<u8> {
        Seq::new(
            self.count as nat,
            |i: int|
                if self.start + i < self.data@.len() {
                    self.data@[self.start + i]
                } else {
                    self.data@[self.start + i - self.data@.len()]
                },
        )
    }

    /// The bytes ever consumed from the buffer, in order.
    pub closed spec fn delivered(&self) -> Seq<u8> {
        self.consumed@
    }

    /// The bytes ever pushed into the buffer, in order: what has been
    /// consumed followed by what is still pending.
    pub open spec fn history(&self) -> Seq<u8> {
        self.delivered() + self.contents()
    }

    /// An empty buffer of the given capacity.
    pub fn new(cap: usize) -> (r: RingBuffer)
        requires
            cap >= 1,
        ensures
            r.wf(),
            r.capacity() == cap,
            r.contents() =~= Seq::<u8>::empty(),
            r.delivered() =~= Seq::<u8>::empty(),
    {
        RingBuffer { data: vec![0u8; cap], start: 0, count: 0, consumed: Ghost(Seq::empty()) }
    }

    /// Number of bytes held.
    pub fn len(&self) -> (r: usize)
        ensures
            r == self.contents().len(),
    {
        self.count
    }

    /// Room left: capacity minus occupancy.
    pub fn free(&self) -> (r: usize)
        requires
            self.wf(),
        ensures
            r == self.capacity() - self.contents().len(),
    {
        self.data.len() - self.count
    }

    /// Whether the buffer holds nothing.
    pub fn is_empty(&self) -> (r: bool)
        ensures
            r == (self.contents().len() == 0),
    {
        self.count == 0
    }

    /// Whether the buffer is at capacity.
    pub fn is_full(&self) -> (r: bool)
        requires
            self.wf(),
        ensures
            r == (self.contents().len() == self.capacity()),
    {
        self.count == self.data.len()
    }

    /// Append one byte.
    fn push_byte(&mut self, b: u8)
        requires
            old(self).wf(),
            old(self).contents().len() < old(self).capacity(),
        ensures
            final(self).wf(),
            final(self).capacity() == old(self).capacity(),
            final(self).delivered() == old(self).delivered(),
            final(self).contents() =~= old(self).contents().push(b),
    {
        let cap: usize = self.data.len();
        let pos: usize = if self.count >= cap - self.start {
            self.count - (cap - self.start)
        } else {
            self.start + self.count
        };
        *vec_index_mut(&mut self.data, pos) = b;
        self.count = self.count + 1;
    }

    /// Append bytes that arrived on the owning connection's socket.
    pub fn push(&mut self, bytes: &[u8])
        requires
            old(self).wf(),
            bytes@.len() <= old(self).capacity() - old(self).contents().len(),
        ensures
            final(self).wf(),
            final(self).capacity() == old(self).capacity(),
            final(self).delivered() == old(self).delivered(),
            final(self).contents() =~= old(self).contents() + bytes@,
            final(self).history() =~= old(self).history() + bytes@,
    {
        let mut i: usize = 0;
        while i < bytes.len()
            invariant
                i <= bytes@.len(),
                self.wf(),
                self.capacity() == old(self).capacity(),
                self.delivered() == old(self).delivered(),
                bytes@.len() <= old(self).capacity() - old(self).contents().len(),
                self.contents() =~= old(self).contents() + bytes@.take(i as int),
            decreases bytes@.len() - i,
        {
            self.push_byte(bytes[i]);
            proof {
                assert(bytes@.take(i + 1) =~= bytes@.take(i as int).push(bytes@[i as int]));
            }
            i = i + 1;
        }
        proof {
            assert(bytes@.take(bytes@.len() as int) =~= bytes@);
        }
    }

    /// Copy out everything the buffer holds, oldest first.
    pub fn peek(&self) -> (r: Vec<u8>)
        requires
            self.wf(),
        ensures
            r@ =~= self.contents(),
    {
        let cap: usize = self.data.len();
        let mut r: Vec<u8> = Vec::new();
        let mut pos: usize = self.start;
        let mut i: usize = 0;
        while i < self.count
            invariant
                self.wf(),
                i <= self.count,
                cap == self.capacity(),
                pos == if self.start + i < cap {
                    self.start + i as int
                } else {
                    self.start + i - cap
                },
                r@ =~= self.contents().take(i as int),
            decreases self.count - i,
        {
            r.push(self.data[pos]);
            pos = pos + 1;
            if pos == cap {
                pos = 0;
            }
            proof {
                assert(self.contents().take(i + 1) =~= self.contents().take(i as int).push(
                    self.contents()[i as int],
                ));
            }
            i = i + 1;
        }
        proof {
            assert(self.contents().take(self.count as int) =~= self.contents());
        }
        r
    }

    /// Drop the oldest `n` bytes: they were written out on the peer
    /// socket and move, in order, into the consumed stream.
    pub fn consume(&mut self, n: usize)
        requires
            old(self).wf(),
            n <= old(self).contents().len(),
        ensures
            final(self).wf(),
            final(self).capacity() == old(self).capacity(),
            final(self).contents() =~= old(self).contents().skip(n as int),
            final(self).delivered() =~= old(self).delivered() + old(self).contents().take(n as int),
            final(self).history() =~= old(self).history(),
    {
        let ghost d_new = self.consumed@ + self.contents().take(n as int);
        let cap: usize = self.data.len();
        self.start = if n >= cap - self.start {
            n - (cap - self.start)
        } else {
            self.start + n
        };
        self.count = self.count - n;
        self.consumed = Ghost(d_new);
    }
}

/// Byte conservation: the bytes ever pushed into a buffer are exactly
/// the bytes consumed from it followed by the bytes it still holds.
pub proof fn lemma_byte_conservation(b: &RingBuffer)
    ensures
        b.history() == b.delivered() + b.contents(),
        b.history().len() == b.delivered().len() + b.contents().len(),
{
}

/// In-order delivery: the bytes consumed from a buffer are a prefix of
/// the bytes ever pushed into it, in the same order.
pub proof fn lemma_delivered_prefix(b: &RingBuffer)
    ensures
        b.delivered() =~= b.history().take(b.delivered().len() as int),
{
}

} // verus!
