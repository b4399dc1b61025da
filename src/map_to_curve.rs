//! The search that maps uniformly random bytes to a curve encoding.
//!
//! The search keeps only the low bit of the last byte, then XORs a one-byte
//! counter (0, 1, 2, ..., wrapping at 256) into the first byte and asks for
//! the result to be decoded, until a decode succeeds. The caller performs each
//! decode and reports whether it succeeded.
//!
//! This is not constant time (the number of attempts depends on the input),
//! it is not injective, its output is not proven to be uniform over the
//! group, and if no counter value leads to a valid encoding it never ends.

use vstd::prelude::*;

verus! {

/// The input with every bit of its last byte but the lowest cleared.
pub open spec fn masked(bytes: Seq<u8>) -> Seq<u8>
    recommends
        bytes.len() > 0,
{
    bytes.update(bytes.len() - 1, bytes.last() & 1)
}

/// The encoding tried with counter `ctr`: the first byte XORed with `ctr`.
pub open spec fn candidate(bytes: Seq<u8>, ctr: u8) -> Seq<u8>
    recommends
        bytes.len() > 0,
{
    bytes.update(0, bytes[0] ^ ctr)
}

/// The state of one search: the masked input and the next counter value.
pub struct MapToCurve<const L: usize> {
    data: [u8; L],
    ctr: u8,
}

impl<const L: usize> MapToCurve<L> {
    #[verifier::type_invariant]
    spec fn inv(&self) -> bool {
        L > 0
    }

    /// The masked input that every attempt starts from.
    pub closed spec fn buffer(&self) -> Seq<u8> {
        self.data@
    }

    /// The counter value of the next attempt.
    pub closed spec fn counter(&self) -> u8 {
        self.ctr
    }

    /// Starts a search on `data`, with counter 0.
    pub fn new(data: [u8; L]) -> (r: Self)
        requires
            L > 0,
        ensures
            r.buffer() == masked(data@),
            r.counter() == 0,
    {
        let mut data = data;
        let last: u8 = data[L - 1] & 1;
        data[L - 1] = last;
        MapToCurve { data, ctr: 0 }
    }

    /// The bytes to decode in the current attempt.
    pub fn attempt(&self) -> (r: [u8; L])
        ensures
            r@ == candidate(self.buffer(), self.counter()),
    {
        proof {
            use_type_invariant(self);
        }
        let mut out = self.data;
        let first: u8 = out[0] ^ self.ctr;
        out[0] = first;
        out
    }

    /// Records whether the current attempt decoded. Returns `true` when it did,
    /// which ends the search; otherwise moves on to the next counter value,
    /// wrapping from 255 to 0.
    pub fn step(&mut self, accepted: bool) -> (done: bool)
        ensures
            done == accepted,
            final(self).buffer() == old(self).buffer(),
            final(self).counter() == if accepted {
                old(self).counter()
            } else {
                ((old(self).counter() + 1) % 256) as u8
            },
    {
        proof {
            use_type_invariant(&*self);
        }
        if !accepted {
            self.ctr = self.ctr.wrapping_add(1);
        }
        accepted
    }
}

/// Distinct counter values give distinct attempts on the same buffer, so one
/// search tries 256 different encodings before it repeats itself.
pub proof fn lemma_candidates_distinct(bytes: Seq<u8>, a: u8, b: u8)
    requires
        bytes.len() > 0,
        a != b,
    ensures
        candidate(bytes, a) != candidate(bytes, b),
{
    let x = bytes[0];
    assert((x ^ a) != (x ^ b)) by (bit_vector)
        requires
            a != b,
    ;
    assert(candidate(bytes, a)[0] != candidate(bytes, b)[0]);
}

} // verus!
