//! Conversions between vectors of IEEE-754 single-precision bit
//! patterns (`u32`) and their little-endian byte serialization, the
//! form in which tensor contents cross into and out of the runtime.

use vstd::prelude::*;

verus! {

/// The four little-endian bytes of one word, least significant first.
pub open spec fn word_bytes(x: u32) -> Seq<u8> {
    seq![x as u8, (x >> 8u32) as u8, (x >> 16u32) as u8, (x >> 24u32) as u8]
}

/// Little-endian serialization of a word sequence: four bytes per word,
/// least significant first, in word order.
pub open spec fn bytes_of_words(w: Seq<u32>) -> Seq<u8>
    decreases w.len(),
{
    if w.len() == 0 {
        Seq::empty()
    } else {
        bytes_of_words(w.drop_last()) + word_bytes(w.last())
    }
}

/// Word assembled from four little-endian bytes.
pub open spec fn word_of_bytes(b0: u8, b1: u8, b2: u8, b3: u8) -> u32 {
    (b0 as u32) | ((b1 as u32) << 8u32) | ((b2 as u32) << 16u32) | ((b3 as u32) << 24u32)
}

/// Words read off a little-endian byte sequence, four bytes each, in
/// order.
pub open spec fn words_of_bytes(b: Seq<u8>) -> Seq<u32>
    recommends
        b.len() % 4 == 0,
    decreases b.len(),
{
    if b.len() < 4 {
        Seq::empty()
    } else {
        let t = b.take(b.len() - 4);
        words_of_bytes(t) + seq![
            word_of_bytes(b[b.len() - 4], b[b.len() - 3], b[b.len() - 2], b[b.len() - 1]),
        ]
    }
}

/// The serialization holds four bytes per word.
pub proof fn lemma_bytes_of_words_len(w: Seq<u32>)
    ensures
        bytes_of_words(w).len() == w.len() * 4,
    decreases w.len(),
{
    if w.len() > 0 {
        lemma_bytes_of_words_len(w.drop_last());
    }
}

/// Serializes words to little-endian bytes.
pub fn words_to_bytes(w: &Vec<u32>) -> (r: Vec<u8>)
    ensures
        r@ == bytes_of_words(w@),
{
    let mut out: Vec<u8> = Vec::new();
    let mut i: usize = 0;
    while i < w.len()
        invariant
            i <= w@.len(),
            out@ == bytes_of_words(w@.take(i as int)),
        decreases w@.len() - i,
    {
        let x = w[i];
        out.push(x as u8);
        out.push(#[verifier::truncate] ((x >> 8u32) as u8));
        out.push(#[verifier::truncate] ((x >> 16u32) as u8));
        out.push(#[verifier::truncate] ((x >> 24u32) as u8));
        i = i + 1;
        proof {
            let t = w@.take(i as int);
            assert(t.drop_last() =~= w@.take(i - 1));
            assert(t.last() == w@[i - 1]);
            assert(out@ =~= bytes_of_words(t));
        }
    }
    proof {
        assert(w@.take(w@.len() as int) =~= w@);
    }
    out
}

/// Assembles one word from four little-endian bytes.
pub fn word_from_le(b0: u8, b1: u8, b2: u8, b3: u8) -> (r: u32)
    ensures
        r == word_of_bytes(b0, b1, b2, b3),
{
    (b0 as u32) | ((b1 as u32) << 8u32) | ((b2 as u32) << 16u32) | ((b3 as u32) << 24u32)
}

/// Reads words back from a little-endian byte sequence whose length is
/// a whole number of words.
pub fn bytes_to_words(b: &Vec<u8>) -> (r: Vec<u32>)
    requires
        b@.len() % 4 == 0,
    ensures
        r@ == words_of_bytes(b@),
{
    let mut out: Vec<u32> = Vec::new();
    let mut i: usize = 0;
    while i < b.len()
        invariant
            b@.len() % 4 == 0,
            i % 4 == 0,
            i <= b@.len(),
            out@ == words_of_bytes(b@.take(i as int)),
        decreases b@.len() - i,
    {
        proof {
            assert(i + 4 <= b@.len());
        }
        let x = word_from_le(b[i], b[i + 1], b[i + 2], b[i + 3]);
        out.push(x);
        i = i + 4;
        proof {
            let t = b@.take(i as int);
            assert(t.take(t.len() - 4) =~= b@.take(i - 4));
            assert(t[t.len() - 4] == b@[i - 4] && t[t.len() - 3] == b@[i - 3] && t[t.len() - 2]
                == b@[i - 2] && t[t.len() - 1] == b@[i - 1]);
            assert(out@ =~= words_of_bytes(t));
        }
    }
    proof {
        assert(b@.take(b@.len() as int) =~= b@);
    }
    out
}

} // verus!
