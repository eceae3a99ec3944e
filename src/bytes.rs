//! Little-endian words: the byte order of the parameter schema and of kernel blobs.

use vstd::prelude::*;

verus! {

/// Byte `k` (0 = least significant) of `w`.
pub open spec fn byte_of_word(w: u32, k: int) -> u8 {
    if k == 0 {
        (w & 0xffu32) as u8
    } else if k == 1 {
        ((w >> 8u32) & 0xffu32) as u8
    } else if k == 2 {
        ((w >> 16u32) & 0xffu32) as u8
    } else {
        ((w >> 24u32) & 0xffu32) as u8
    }
}

/// The word held little-endian in the four bytes `b0 b1 b2 b3`.
pub open spec fn word_of_bytes(b0: u8, b1: u8, b2: u8, b3: u8) -> u32 {
    (b0 as u32) | ((b1 as u32) << 8u32) | ((b2 as u32) << 16u32) | ((b3 as u32) << 24u32)
}

/// Each word as four little-endian bytes, in order.
pub open spec fn words_to_bytes(ws: Seq<u32>) -> Seq<u8> {
    Seq::new((4 * ws.len()) as nat, |i: int| byte_of_word(ws[i / 4], i % 4))
}

/// The words held in the complete groups of four bytes of `b`.
pub open spec fn bytes_to_words(b: Seq<u8>) -> Seq<u32> {
    Seq::new(b.len() / 4, |i: int| word_of_bytes(b[4 * i], b[4 * i + 1], b[4 * i + 2], b[4 * i + 3]))
}

pub fn word_bytes(w: u32) -> (r: [u8; 4])
    ensures
        r@ == seq![byte_of_word(w, 0), byte_of_word(w, 1), byte_of_word(w, 2), byte_of_word(w, 3)],
{
    let r = [(w & 0xff) as u8, ((w >> 8) & 0xff) as u8, ((w >> 16) & 0xff) as u8, ((w >> 24) & 0xff) as u8];
    assert(r@ =~= seq![byte_of_word(w, 0), byte_of_word(w, 1), byte_of_word(w, 2), byte_of_word(w, 3)]);
    r
}

pub fn bytes_word(b0: u8, b1: u8, b2: u8, b3: u8) -> (r: u32)
    ensures
        r == word_of_bytes(b0, b1, b2, b3),
{
    (b0 as u32) | ((b1 as u32) << 8) | ((b2 as u32) << 16) | ((b3 as u32) << 24)
}

/// Appends the little-endian bytes of each word of `ws` to `out`.
pub fn push_words(out: &mut Vec<u8>, ws: &[u32])
    requires
        old(out)@.len() + 4 * ws@.len() <= usize::MAX,
    ensures
        final(out)@ == old(out)@ + words_to_bytes(ws@),
{
    let ghost start = out@;
    let mut i: usize = 0;
    while i < ws.len()
        invariant
            i <= ws@.len(),
            start.len() + 4 * ws@.len() <= usize::MAX,
            out@ =~= start + words_to_bytes(ws@.subrange(0, i as int)),
        decreases ws@.len() - i,
    {
        let b = word_bytes(ws[i]);
        out.push(b[0]);
        out.push(b[1]);
        out.push(b[2]);
        out.push(b[3]);
        proof {
            let prev = words_to_bytes(ws@.subrange(0, i as int));
            let next = words_to_bytes(ws@.subrange(0, i + 1));
            assert forall|k: int| 0 <= k < next.len() implies next[k] == (prev + b@)[k] by {
                if k < 4 * i {
                    assert(ws@.subrange(0, i + 1)[k / 4] == ws@.subrange(0, i as int)[k / 4]);
                } else {
                    assert(k / 4 == i);
                }
            }
            assert(next =~= prev + b@);
        }
        i += 1;
    }
    assert(ws@.subrange(0, ws@.len() as int) =~= ws@);
}

/// The words held little-endian in `b`; trailing bytes that do not make a
/// whole word are ignored.
pub fn decode_words(b: &[u8]) -> (r: Vec<u32>)
    ensures
        r@ == bytes_to_words(b@),
{
    let len = b.len();
    let n = len / 4;
    proof { vstd::arithmetic::div_mod::lemma_fundamental_div_mod(b@.len() as int, 4); }
    let mut out: Vec<u32> = Vec::new();
    let mut i: usize = 0;
    while i < n
        invariant
            n == b@.len() / 4,
            4 * n <= len,
            len == b@.len(),
            i <= n,
            out@ =~= bytes_to_words(b@).subrange(0, i as int),
        decreases n - i,
    {
        let k: usize = 4 * i;
        out.push(bytes_word(b[k], b[k + 1], b[k + 2], b[k + 3]));
        i += 1;
    }
    assert(bytes_to_words(b@).subrange(0, n as int) =~= bytes_to_words(b@));
    out
}

/// A word split into bytes and joined again is the same word.
pub proof fn lemma_word_round_trip(w: u32)
    ensures
        word_of_bytes(byte_of_word(w, 0), byte_of_word(w, 1), byte_of_word(w, 2), byte_of_word(w, 3)) == w,
{
    assert(((w & 0xffu32) as u8 as u32) | ((((w >> 8u32) & 0xffu32) as u8 as u32) << 8u32)
        | ((((w >> 16u32) & 0xffu32) as u8 as u32) << 16u32) | ((((w >> 24u32) & 0xffu32) as u8 as u32) << 24u32) == w)
        by (bit_vector);
}

/// Decoding the bytes of a sequence of words gives the words back.
pub proof fn lemma_words_round_trip(ws: Seq<u32>)
    ensures
        bytes_to_words(words_to_bytes(ws)) == ws,
{
    let b = words_to_bytes(ws);
    assert forall|i: int| 0 <= i < ws.len() implies bytes_to_words(b)[i] == ws[i] by {
        assert((4 * i) / 4 == i && (4 * i) % 4 == 0);
        assert((4 * i + 1) / 4 == i && (4 * i + 1) % 4 == 1);
        assert((4 * i + 2) / 4 == i && (4 * i + 2) % 4 == 2);
        assert((4 * i + 3) / 4 == i && (4 * i + 3) % 4 == 3);
        lemma_word_round_trip(ws[i]);
    }
    assert(bytes_to_words(b) =~= ws);
}

} // verus!
