//! The byte layout bound buffers are written in.
//!
//! Buffer contents cross to the device as raw bytes; 32-bit words are laid
//! out little-endian, four bytes per word, with no padding between elements.
//! Encoding and decoding are exact inverses, which is what makes an
//! upload/download round trip reproduce the value it started from.

use vstd::prelude::*;

verus! {

/// The four little-endian bytes of one word.
pub open spec fn u32_le(x: u32) -> Seq<u8> {
    seq![
        (x & 0xff) as u8,
        ((x >> 8) & 0xff) as u8,
        ((x >> 16) & 0xff) as u8,
        ((x >> 24) & 0xff) as u8,
    ]
}

/// A word sequence laid out little-endian, element after element.
pub open spec fn u32s_le(s: Seq<u32>) -> Seq<u8>
    decreases s.len(),
{
    if s.len() == 0 {
        Seq::<u8>::empty()
    } else {
        u32s_le(s.drop_last()) + u32_le(s.last())
    }
}

/// Encoded length: four bytes per word.
pub proof fn lemma_u32s_le_len(s: Seq<u32>)
    ensures
        u32s_le(s).len() == 4 * s.len(),
    decreases s.len(),
{
    if s.len() > 0 {
        lemma_u32s_le_len(s.drop_last());
    }
}

/// The word at `i` occupies bytes `4 * i .. 4 * i + 4` of the encoding.
pub proof fn lemma_u32s_le_index(s: Seq<u32>, i: int)
    requires
        0 <= i < s.len(),
    ensures
        u32s_le(s).subrange(4 * i, 4 * i + 4) == u32_le(s[i]),
    decreases s.len(),
{
    lemma_u32s_le_len(s);
    lemma_u32s_le_len(s.drop_last());
    if i == s.len() - 1 {
        assert(u32s_le(s).subrange(4 * i, 4 * i + 4) =~= u32_le(s.last()));
    } else {
        lemma_u32s_le_index(s.drop_last(), i);
        assert(u32s_le(s).subrange(4 * i, 4 * i + 4) =~= u32s_le(s.drop_last()).subrange(
            4 * i,
            4 * i + 4,
        ));
    }
}

/// The word its four little-endian bytes stand for.
pub open spec fn u32_from_le(b0: u8, b1: u8, b2: u8, b3: u8) -> u32 {
    (b0 as u32) | ((b1 as u32) << 8) | ((b2 as u32) << 16) | ((b3 as u32) << 24)
}

/// Reading back the bytes of a word yields the word.
pub proof fn lemma_u32_le_inverse(x: u32)
    ensures
        u32_from_le(
            (x & 0xff) as u8,
            ((x >> 8) & 0xff) as u8,
            ((x >> 16) & 0xff) as u8,
            ((x >> 24) & 0xff) as u8,
        ) == x,
{
    assert(((x & 0xff) as u8 as u32) | (((x >> 8) & 0xff) as u8 as u32) << 8 | (((x >> 16)
        & 0xff) as u8 as u32) << 16 | (((x >> 24) & 0xff) as u8 as u32) << 24 == x)
        by (bit_vector);
}

/// A word is determined by its four bytes.
pub proof fn lemma_u32_le_injective(x: u32, y: u32)
    requires
        u32_le(x) == u32_le(y),
    ensures
        x == y,
{
    assert(u32_le(x)[0] == u32_le(y)[0]);
    assert(u32_le(x)[1] == u32_le(y)[1]);
    assert(u32_le(x)[2] == u32_le(y)[2]);
    assert(u32_le(x)[3] == u32_le(y)[3]);
    lemma_u32_le_inverse(x);
    lemma_u32_le_inverse(y);
    assert(u32_from_le(
        (x & 0xff) as u8,
        ((x >> 8) & 0xff) as u8,
        ((x >> 16) & 0xff) as u8,
        ((x >> 24) & 0xff) as u8,
    ) == u32_from_le(
        (y & 0xff) as u8,
        ((y >> 8) & 0xff) as u8,
        ((y >> 16) & 0xff) as u8,
        ((y >> 24) & 0xff) as u8,
    ));
}

/// Round trip: two word sequences with one encoding are the same sequence,
/// so decoding an encoding can only yield the words encoded.
pub proof fn lemma_codec_round_trip(v: Seq<u32>, w: Seq<u32>)
    requires
        u32s_le(v) == u32s_le(w),
    ensures
        v == w,
    decreases v.len(),
{
    lemma_u32s_le_len(v);
    lemma_u32s_le_len(w);
    assert(v.len() == w.len());
    if v.len() > 0 {
        lemma_u32s_le_len(v.drop_last());
        let n = v.len() as int;
        assert(u32s_le(v).subrange(0, 4 * (n - 1)) =~= u32s_le(v.drop_last()));
        assert(u32s_le(w).subrange(0, 4 * (n - 1)) =~= u32s_le(w.drop_last()));
        lemma_codec_round_trip(v.drop_last(), w.drop_last());
        lemma_u32s_le_index(v, n - 1);
        lemma_u32s_le_index(w, n - 1);
        assert(u32_le(v[n - 1]) == u32_le(w[n - 1]));
        lemma_u32_le_injective(v[n - 1], w[n - 1]);
        assert forall|i: int| 0 <= i < v.len() implies v[i] == w[i] by {
            if i < n - 1 {
                assert(v.drop_last()[i] == w.drop_last()[i]);
            }
        }
        assert(v =~= w);
    } else {
        assert(v =~= w);
    }
}

/// Lays `data` out little-endian, four bytes per word.
pub fn encode_u32s(data: &Vec<u32>) -> (r: Vec<u8>)
    ensures
        r@ == u32s_le(data@),
        r@.len() == 4 * data@.len(),
{
    let mut r: Vec<u8> = Vec::new();
    let mut i: usize = 0;
    while i < data.len()
        invariant
            i <= data@.len(),
            r@ == u32s_le(data@.take(i as int)),
            r@.len() == 4 * i,
        decreases data@.len() - i,
    {
        let x = data[i];
        r.push((x & 0xff) as u8);
        r.push(((x >> 8) & 0xff) as u8);
        r.push(((x >> 16) & 0xff) as u8);
        r.push(((x >> 24) & 0xff) as u8);
        proof {
            assert(data@.take(i + 1 as int).drop_last() =~= data@.take(i as int));
            assert(data@.take(i + 1 as int).last() == data@[i as int]);
            assert(r@ =~= u32s_le(data@.take(i as int)) + u32_le(data@[i as int]));
        }
        i = i + 1;
    }
    proof {
        assert(data@.take(data@.len() as int) =~= data@);
        lemma_u32s_le_len(data@);
    }
    r
}

/// Reads a little-endian word layout back; fails exactly when the byte count
/// is not a multiple of four.
pub fn decode_u32s(bytes: &Vec<u8>) -> (r: Option<Vec<u32>>)
    ensures
        match r {
            Some(v) => bytes@.len() % 4 == 0 && u32s_le(v@) == bytes@ && 4 * v@.len()
                == bytes@.len(),
            None => bytes@.len() % 4 != 0,
        },
{
    if bytes.len() % 4 != 0 {
        return None;
    }
    let words = bytes.len() / 4;
    let mut v: Vec<u32> = Vec::new();
    let mut i: usize = 0;
    while i < words
        invariant
            4 * words == bytes@.len(),
            words <= usize::MAX / 4,
            i <= words,
            v@.len() == i,
            u32s_le(v@) == bytes@.take(4 * i),
        decreases words - i,
    {
        let b0 = bytes[4 * i];
        let b1 = bytes[4 * i + 1];
        let b2 = bytes[4 * i + 2];
        let b3 = bytes[4 * i + 3];
        let x = (b0 as u32) | ((b1 as u32) << 8) | ((b2 as u32) << 16) | ((b3 as u32) << 24);
        proof {
            lemma_u32s_le_len(v@);
            assert(((((b0 as u32) | ((b1 as u32) << 8) | ((b2 as u32) << 16) | ((b3 as u32) << 24))
                & 0xff) as u8) == b0 && (((((b0 as u32) | ((b1 as u32) << 8) | ((b2 as u32) << 16)
                | ((b3 as u32) << 24)) >> 8) & 0xff) as u8) == b1 && (((((b0 as u32) | ((b1
                as u32) << 8) | ((b2 as u32) << 16) | ((b3 as u32) << 24)) >> 16) & 0xff) as u8)
                == b2 && (((((b0 as u32) | ((b1 as u32) << 8) | ((b2 as u32) << 16) | ((b3
                as u32) << 24)) >> 24) & 0xff) as u8) == b3) by (bit_vector);
            assert(u32_le(x) =~= seq![b0, b1, b2, b3]);
        }
        let ghost prev = v@;
        v.push(x);
        proof {
            assert(v@.drop_last() =~= prev);
            assert(v@.last() == x);
            assert(u32s_le(v@) == u32s_le(prev) + u32_le(x));
            assert(u32s_le(v@) =~= bytes@.take(4 * i) + seq![b0, b1, b2, b3]);
            assert(u32s_le(v@) =~= bytes@.take(4 * (i + 1)));
        }
        i = i + 1;
    }
    proof {
        assert(bytes@.take(4 * (words as int)) =~= bytes@);
        lemma_u32s_le_len(v@);
    }
    Some(v)
}

} // verus!
