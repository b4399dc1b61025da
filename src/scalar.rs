//! Fixed-width scalars: `N` bytes, least significant first.

use vstd::prelude::*;

verus! {

/// A multiplier for scalar multiplication, stored as `N` little-endian bytes.
///
/// Any byte pattern is accepted; reduction modulo the group order is left to
/// the arithmetic engine.
#[derive(PartialEq, Eq, Clone, Copy, Debug)]
pub struct Scalar<const N: usize>([u8; N]);

impl<const N: usize> View for Scalar<N> {
    type V = Seq<u8>;

    closed spec fn view(&self) -> Seq<u8> {
        self.0@
    }
}

impl<const N: usize> Scalar<N> {
    /// Wraps `le_bytes` as they are, without reduction.
    pub fn new(le_bytes: [u8; N]) -> (r: Self)
        ensures
            r@ == le_bytes@,
    {
        Scalar(le_bytes)
    }

    /// The number of bytes, `N`.
    pub fn len(&self) -> (r: usize)
        ensures
            r == N,
            r == self@.len(),
    {
        N
    }

    /// The stored bytes, read-only.
    pub fn as_bytes(&self) -> (r: &[u8; N])
        ensures
            r@ == self@,
    {
        &self.0
    }
}

} // verus!
