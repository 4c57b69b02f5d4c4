use vstd::prelude::*;

verus! {

/// A single-precision number carried as its IEEE-754 bit pattern.
///
/// The library never computes with such a number: it stores it and hands it
/// on, so the bit pattern is all it needs.
#[derive(Clone, Copy, Debug, PartialEq, Eq, Structural)]
pub struct Scalar {
    pub bits: u32,
}

impl Scalar {
    /// Bit pattern of the number zero.
    pub const ZERO_BITS: u32 = 0;

    /// Bit pattern of the number one.
    pub const ONE_BITS: u32 = 0x3F80_0000;

    /// Wraps a bit pattern.
    pub fn from_bits(bits: u32) -> (r: Scalar)
        ensures
            r.bits == bits,
    {
        Scalar { bits }
    }

    /// The bit pattern that was wrapped.
    pub fn to_bits(&self) -> (r: u32)
        ensures
            r == self.bits,
    {
        self.bits
    }
}

/// The bit patterns of a run of numbers, as mathematical integers.
pub open spec fn scalar_words(s: Seq<Scalar>) -> Seq<int> {
    Seq::new(s.len(), |i: int| s[i].bits as int)
}

/// A run of machine integers, as mathematical integers.
pub open spec fn signed_words(s: Seq<i32>) -> Seq<int> {
    Seq::new(s.len(), |i: int| s[i] as int)
}

/// A run of unsigned machine integers, as mathematical integers.
pub open spec fn unsigned_words(s: Seq<u32>) -> Seq<int> {
    Seq::new(s.len(), |i: int| s[i] as int)
}

} // verus!
