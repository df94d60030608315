//! Unsigned fixed-point prices with sixteen integer and sixteen fractional bits.

use vstd::prelude::*;

verus! {

/// Number of fractional bits of a [`FixedPoint`].
pub const FRAC_BITS: u32 = 16;

/// The raw representation of the price 1.0.
pub const ONE: u32 = 0x1_0000;

/// A non-negative price. The price it stands for is `bits / 65536`.
#[derive(Clone, Copy, Debug, PartialEq, Eq, Structural)]
pub struct FixedPoint {
    pub bits: u32,
}

impl FixedPoint {
    /// The price, scaled by 65536, as a mathematical integer.
    pub open spec fn scaled(self) -> nat {
        self.bits as nat
    }

    /// The price 0.
    pub fn zero() -> (r: Self)
        ensures
            r.bits == 0,
    {
        FixedPoint { bits: 0 }
    }

    /// The price whose raw representation is `bits`.
    pub fn from_bits(bits: u32) -> (r: Self)
        ensures
            r.bits == bits,
    {
        FixedPoint { bits }
    }

    /// The raw representation: the price times 65536.
    pub fn to_bits(self) -> (r: u32)
        ensures
            r == self.bits,
    {
        self.bits
    }

    /// The whole price `units`.
    pub fn from_int(units: u16) -> (r: Self)
        ensures
            r.scaled() == units as nat * 65536,
    {
        let wide: u32 = units as u32;
        FixedPoint { bits: wide * ONE }
    }
}

impl Default for FixedPoint {
    fn default() -> (r: Self)
        ensures
            r.bits == 0,
    {
        FixedPoint { bits: 0 }
    }
}

} // verus!
