//! The parameter buffer schema: a fixed header of twelve 32-bit words
//! (width, height, count, seed, then eight camera words), followed by the
//! application's scalars, every word little-endian. Scalars and camera
//! values are carried as their bit patterns.

use vstd::prelude::*;
use crate::bytes::{bytes_to_words, decode_words, push_words, words_to_bytes};

verus! {

/// Bytes of the fixed header.
pub const HEADER_BYTES: usize = 48;

/// The index of the seed word in the header.
pub const SEED_WORD: usize = 3;

pub struct UBOData {
    /// Width, height, scene count and seed.
    pub size: [u32; 4],
    /// Camera words.
    pub cam: [u32; 8],
    /// The trailing scalars.
    pub spheres: Vec<u32>,
}

/// Relies on `rand::thread_rng` and `RngCore::next_u32`: a fresh 32-bit value
/// from the thread's generator. Nothing is known of which value.
#[verifier::external_body]
fn random_seed() -> (r: u32) {
    rand::RngCore::next_u32(&mut rand::thread_rng())
}

impl UBOData {
    /// Every word of the buffer, in schema order.
    pub open spec fn words(&self) -> Seq<u32> {
        self.size@ + self.cam@ + self.spheres@
    }

    pub fn new(width: u32, height: u32, spheres: Vec<u32>, count: u32, seed: u32, cam: [u32; 8]) -> (r: UBOData)
        ensures
            r.size@ == seq![width, height, count, seed],
            r.cam == cam,
            r.spheres@ == spheres@,
    {
        let r = UBOData { size: [width, height, count, seed], cam, spheres };
        assert(r.size@ =~= seq![width, height, count, seed]);
        r
    }

    /// Replaces the seed and leaves every other word as it was.
    pub fn set_seed(&mut self, seed: u32)
        ensures
            final(self).size@ == old(self).size@.update(SEED_WORD as int, seed),
            final(self).cam == old(self).cam,
            final(self).spheres@ == old(self).spheres@,
            final(self).words() == old(self).words().update(SEED_WORD as int, seed),
    {
        self.size = [self.size[0], self.size[1], self.size[2], seed];
        assert(self.size@ =~= old(self).size@.update(SEED_WORD as int, seed));
        assert(self.words() =~= old(self).words().update(SEED_WORD as int, seed));
    }

    /// Draws a fresh seed for the next iteration and stores it; every other
    /// word stays as it was. Returns the seed drawn.
    pub fn reseed(&mut self) -> (r: u32)
        ensures
            final(self).size@ == old(self).size@.update(SEED_WORD as int, r),
            final(self).cam == old(self).cam,
            final(self).spheres@ == old(self).spheres@,
            final(self).words() == old(self).words().update(SEED_WORD as int, r),
    {
        let seed = random_seed();
        self.set_seed(seed);
        seed
    }

    /// The buffer's bytes: every word of the schema, little-endian, in order.
    pub fn vec(&self) -> (r: Vec<u8>)
        requires
            self.spheres@.len() <= (usize::MAX - HEADER_BYTES) / 4,
        ensures
            r@ == words_to_bytes(self.words()),
            r@.len() == HEADER_BYTES + 4 * self.spheres@.len(),
    {
        let mut out: Vec<u8> = Vec::new();
        let mut head: Vec<u32> = Vec::new();
        head.push(self.size[0]);
        head.push(self.size[1]);
        head.push(self.size[2]);
        head.push(self.size[3]);
        let mut i: usize = 0;
        while i < 8
            invariant
                i <= 8,
                head@ =~= self.size@ + self.cam@.subrange(0, i as int),
            decreases 8 - i,
        {
            head.push(self.cam[i]);
            i += 1;
        }
        assert(head@ =~= self.size@ + self.cam@);
        push_words(&mut out, head.as_slice());
        push_words(&mut out, self.spheres.as_slice());
        proof {
            let h = self.size@ + self.cam@;
            let t = self.spheres@;
            assert(words_to_bytes(h + t) =~= words_to_bytes(h) + words_to_bytes(t)) by {
                assert forall|k: int| 0 <= k < 4 * (h.len() + t.len()) implies
                    #[trigger] words_to_bytes(h + t)[k] == (words_to_bytes(h) + words_to_bytes(t))[k] by {
                    if k >= 4 * h.len() {
                        assert((k - 4 * h.len()) / 4 == k / 4 - h.len());
                        assert((k - 4 * h.len()) % 4 == k % 4);
                    }
                }
            }
            assert(Seq::<u8>::empty() + words_to_bytes(h) + words_to_bytes(t) =~= words_to_bytes(h + t));
        }
        out
    }

    /// Reads a buffer back: `None` unless it holds the whole header and a
    /// whole number of words.
    pub fn decode(bytes: &[u8]) -> (r: Option<UBOData>)
        ensures
            r is Some <==> bytes@.len() >= HEADER_BYTES && bytes@.len() % 4 == 0,
            r matches Some(d) ==> d.words() == bytes_to_words(bytes@),
    {
        if bytes.len() < HEADER_BYTES || bytes.len() % 4 != 0 {
            return None;
        }
        let words = decode_words(bytes);
        let size = [words[0], words[1], words[2], words[3]];
        let cam = [words[4], words[5], words[6], words[7], words[8], words[9], words[10], words[11]];
        let mut spheres: Vec<u32> = Vec::new();
        let mut i: usize = 12;
        while i < words.len()
            invariant
                12 <= i <= words@.len(),
                spheres@ =~= words@.subrange(12, i as int),
            decreases words@.len() - i,
        {
            spheres.push(words[i]);
            i += 1;
        }
        let d = UBOData { size, cam, spheres };
        assert(d.words() =~= words@);
        Some(d)
    }
}

} // verus!
