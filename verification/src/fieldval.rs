//! Witness values stored in a row's cells.
//!
//! All witnesses an opcode computes itself fit in 129 bits (the largest is a
//! product of two 64-bit values), but a cell may also hold a value supplied by
//! the field backend (such as the multiplicative inverse used by the equality
//! gadget), which can be as wide as the field.  A `FieldVal` therefore holds
//! 256 bits as two 128-bit limbs, low limb first.

use vstd::prelude::*;

verus! {

/// One witness value: `lo + hi * 2^128`.
#[derive(Clone, Copy, PartialEq, Eq, Structural, Debug)]
pub struct FieldVal {
    pub lo: u128,
    pub hi: u128,
}

impl FieldVal {
    /// The numeric value this witness denotes.
    pub open spec fn as_nat(self) -> nat {
        (self.lo + self.hi * 0x1_0000_0000_0000_0000_0000_0000_0000_0000) as nat
    }

    pub fn zero() -> (r: FieldVal)
        ensures
            r.as_nat() == 0,
    {
        FieldVal { lo: 0, hi: 0 }
    }

    pub fn from_u64(x: u64) -> (r: FieldVal)
        ensures
            r.as_nat() == x,
    {
        FieldVal { lo: x as u128, hi: 0 }
    }

    pub fn from_u128(x: u128) -> (r: FieldVal)
        ensures
            r.as_nat() == x,
    {
        FieldVal { lo: x, hi: 0 }
    }

    pub fn from_bool(b: bool) -> (r: FieldVal)
        ensures
            r.as_nat() == (if b {
                1nat
            } else {
                0nat
            }),
    {
        FieldVal { lo: if b { 1 } else { 0 }, hi: 0 }
    }
}

} // verus!
