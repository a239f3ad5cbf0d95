//! Append-only storage for the uploaded model's raw bytes.

use vstd::prelude::*;

verus! {

/// Ordered, growable sequence of bytes holding the serialized model.
/// It is mutated only by [`ByteLedger::append`] and [`ByteLedger::clear`],
/// so its content is always the concatenation, in call order, of every
/// chunk appended since the last clear.
pub struct ByteLedger {
    buf: Vec<u8>,
}

impl View for ByteLedger {
    type V = Seq<u8>;

    closed spec fn view(&self) -> Seq<u8> {
        self.buf@
    }
}

impl ByteLedger {
    /// Fresh, empty ledger.
    pub fn new() -> (r: ByteLedger)
        ensures
            r@ == Seq::<u8>::empty(),
    {
        ByteLedger { buf: Vec::new() }
    }

    /// Appends `chunk` at the end of the buffer, preserving everything
    /// already stored and the order of prior appends.
    pub fn append(&mut self, chunk: &Vec<u8>)
        ensures
            final(self)@ == old(self)@ + chunk@,
    {
        let mut i: usize = 0;
        while i < chunk.len()
            invariant
                i <= chunk.len(),
                self@ == old(self)@ + chunk@.take(i as int),
            decreases chunk.len() - i,
        {
            self.buf.push(chunk[i]);
            i = i + 1;
            proof {
                assert(self@ == old(self)@ + chunk@.take(i as int)) by {
                    assert(chunk@.take(i as int) == chunk@.take(i - 1).push(chunk@[i - 1]));
                }
            }
        }
        proof {
            assert(chunk@.take(chunk@.len() as int) == chunk@);
        }
    }

    /// Resets the buffer to empty, destroying all appended content.
    pub fn clear(&mut self)
        ensures
            final(self)@ == Seq::<u8>::empty(),
    {
        self.buf = Vec::new();
    }

    /// The full current buffer content, without mutating it.
    pub fn snapshot(&self) -> (r: Vec<u8>)
        ensures
            r@ == self@,
    {
        let mut out: Vec<u8> = Vec::new();
        let mut i: usize = 0;
        while i < self.buf.len()
            invariant
                i <= self.buf.len(),
                out@ == self@.take(i as int),
            decreases self.buf.len() - i,
        {
            out.push(self.buf[i]);
            i = i + 1;
            proof {
                assert(out@ == self@.take(i as int)) by {
                    assert(self@.take(i as int) == self@.take(i - 1).push(self@[i - 1]));
                }
            }
        }
        proof {
            assert(self@.take(self@.len() as int) == self@);
        }
        out
    }

    /// Borrow of the stored bytes, for handing the accumulated model to
    /// the compiler without copying.
    pub fn bytes(&self) -> (r: &Vec<u8>)
        ensures
            r@ == self@,
    {
        &self.buf
    }
}

/// Two appends concatenate in call order: a ledger holding `v` holds
/// `v ++ a ++ b` after appending `a` and then `b`, so starting from an
/// empty ledger a snapshot yields exactly `a ++ b`.
pub proof fn lemma_append_order(v: Seq<u8>, a: Seq<u8>, b: Seq<u8>)
    ensures
        (v + a) + b == v + (a + b),
        (Seq::<u8>::empty() + a) + b == a + b,
{
    assert((v + a) + b =~= v + (a + b));
    assert((Seq::<u8>::empty() + a) + b =~= a + b);
}

} // verus!
