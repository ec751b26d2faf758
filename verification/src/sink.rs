//! The byte sink that pods are written into: an in-memory buffer with an
//! explicit write position.
//!
//! The sink is exclusively owned by whichever serializer currently holds it;
//! ownership moves linearly between a serializer and its sub-serializers.
//! Writing overwrites bytes at the current position and extends the buffer
//! past its end, exactly like a write on a seekable resource; `splice` is the
//! specification of that effect.

use vstd::prelude::*;

verus! {

/// The contents of `data` after writing `b` at offset `at`: the prefix up to
/// `at`, then `b`, then whatever of the old suffix `b` did not cover.
pub open spec fn splice(data: Seq<u8>, at: int, b: Seq<u8>) -> Seq<u8>
    recommends
        0 <= at <= data.len(),
{
    if at + b.len() <= data.len() {
        data.subrange(0, at) + b + data.subrange(at + b.len(), data.len() as int)
    } else {
        data.subrange(0, at) + b
    }
}

/// Writing at the very end of the buffer appends.
pub proof fn lemma_splice_at_end(data: Seq<u8>, b: Seq<u8>)
    ensures
        splice(data, data.len() as int, b) == data + b,
{
    assert(splice(data, data.len() as int, b) =~= data + b);
}

/// A seekable, writable byte buffer, the destination of all serialization.
#[derive(Debug)]
pub struct Sink {
    buf: Vec<u8>,
    pos: usize,
}

impl Sink {
    /// The bytes held so far.
    pub closed spec fn data(&self) -> Seq<u8> {
        self.buf@
    }

    /// The current write position.
    pub closed spec fn pos_spec(&self) -> int {
        self.pos as int
    }

    /// The position never points past the end of the buffer.
    pub closed spec fn wf(&self) -> bool {
        self.pos <= self.buf@.len()
    }

    /// The position is at the end of the buffer, where writes append.
    pub open spec fn at_end(&self) -> bool {
        self.pos_spec() == self.data().len()
    }

    /// An empty sink, positioned at its start.
    pub fn new() -> (s: Sink)
        ensures
            s.wf(),
            s.data() == Seq::<u8>::empty(),
            s.pos_spec() == 0,
    {
        Sink { buf: Vec::new(), pos: 0 }
    }

    /// Hand the written bytes back to the caller.
    pub fn into_inner(self) -> (r: Vec<u8>)
        ensures
            r@ == self.data(),
    {
        self.buf
    }

    /// The current write position.
    pub fn position(&self) -> (r: usize)
        ensures
            r == self.pos_spec(),
    {
        self.pos
    }

    /// The number of bytes held so far.
    pub fn len(&self) -> (r: usize)
        ensures
            r == self.data().len(),
    {
        self.buf.len()
    }

    /// Move the write position to `offset`, which must be within the data.
    pub fn seek(&mut self, offset: usize)
        requires
            old(self).wf(),
            offset <= old(self).data().len(),
        ensures
            final(self).wf(),
            final(self).data() == old(self).data(),
            final(self).pos_spec() == offset,
    {
        self.pos = offset;
    }

    /// Move the write position to the end of the data.
    pub fn seek_end(&mut self)
        requires
            old(self).wf(),
        ensures
            final(self).wf(),
            final(self).data() == old(self).data(),
            final(self).at_end(),
    {
        self.pos = self.buf.len();
    }

    /// Write all of `bytes` at the current position, overwriting what is
    /// there and extending the buffer as needed; the position advances past
    /// the written bytes.
    pub fn write(&mut self, bytes: &[u8]) -> (n: usize)
        requires
            old(self).wf(),
        ensures
            final(self).wf(),
            n == bytes@.len(),
            final(self).data() == splice(old(self).data(), old(self).pos_spec(), bytes@),
            final(self).pos_spec() == old(self).pos_spec() + n,
    {
        let ghost pre = *self;
        let n = bytes.len();
        let mut i: usize = 0;
        while i < n
            invariant
                i <= n,
                n == bytes@.len(),
                self.pos == pre.pos + i,
                self.pos <= self.buf@.len(),
                pre.pos <= pre.buf@.len(),
                self.buf@ == splice(pre.buf@, pre.pos as int, bytes@.subrange(0, i as int)),
            decreases n - i,
        {
            let b = bytes[i];
            proof {
                if pre.pos + i + 1 <= pre.buf@.len() {
                    assert(self.buf@.len() == pre.buf@.len());
                } else {
                    assert(self.buf@.len() == pre.pos + i);
                }
            }
            if self.pos < self.buf.len() {
                self.buf[self.pos] = b;
                self.pos = self.pos + 1;
            } else {
                self.buf.push(b);
                self.pos = self.buf.len();
            }
            proof {
                assert(self.buf@ =~= splice(pre.buf@, pre.pos as int, bytes@.subrange(0, i + 1)));
            }
            i = i + 1;
        }
        proof {
            assert(bytes@.subrange(0, n as int) =~= bytes@);
        }
        n
    }
}

} // verus!
