//! Audio energy levels.
//!
//! Levels are single-precision numbers.  They are measured and configured outside of this
//! crate, which only ever compares two of them; so a level is held as its IEEE 754 bit pattern,
//! and the order of the numbers is read off the patterns.

use vstd::prelude::*;

verus! {

/// A single-precision number, held as its IEEE 754 `binary32` bit pattern.
#[derive(Debug, Clone, Copy, PartialEq, Eq, Structural)]
pub struct Energy {
    bits: u32,
}

/// Whether the pattern stands for no number: the exponent is all ones, the fraction is not zero.
pub open spec fn is_nan(bits: u32) -> bool {
    magnitude(bits) > 0x7f80_0000
}

/// The pattern without its sign bit.  Between numbers of the same sign, the order of these
/// integers is the order of the absolute values.
pub open spec fn magnitude(bits: u32) -> int {
    if bits >= 0x8000_0000 {
        bits - 0x8000_0000
    } else {
        bits as int
    }
}

/// An integer that orders like the number that the pattern stands for.  Both zeros have rank 0.
pub open spec fn rank(bits: u32) -> int {
    if bits >= 0x8000_0000 {
        -magnitude(bits)
    } else {
        magnitude(bits)
    }
}

/// `a > b`, on the numbers that the two patterns stand for.
pub open spec fn greater(a: u32, b: u32) -> bool {
    !is_nan(a) && !is_nan(b) && rank(a) > rank(b)
}

impl Energy {
    /// The bit pattern.
    pub closed spec fn spec_bits(self) -> u32 {
        self.bits
    }

    /// The level whose bit pattern is `bits`.
    pub fn from_bits(bits: u32) -> (level: Energy)
        ensures
            level.spec_bits() == bits,
    {
        Energy { bits }
    }

    /// The bit pattern of the level.
    pub fn to_bits(&self) -> (bits: u32)
        ensures
            bits == self.spec_bits(),
    {
        self.bits
    }

    /// `self > other`, as single-precision numbers compare: false as soon as one is not a number.
    pub fn exceeds(&self, other: &Energy) -> (result: bool)
        ensures
            result == greater(self.spec_bits(), other.spec_bits()),
    {
        let a: u32 = if self.bits >= 0x8000_0000 { self.bits - 0x8000_0000 } else { self.bits };
        let b: u32 = if other.bits >= 0x8000_0000 { other.bits - 0x8000_0000 } else { other.bits };
        if a > 0x7f80_0000 || b > 0x7f80_0000 {
            false
        } else if self.bits >= 0x8000_0000 {
            other.bits >= 0x8000_0000 && a < b
        } else if other.bits >= 0x8000_0000 {
            a > 0 || b > 0
        } else {
            a > b
        }
    }
}

/// Levels compare as numbers do: no level exceeds itself, what exceeds a level exceeds what that
/// level exceeds, and of two levels that are numbers and not of the same rank one exceeds the
/// other. What is no number exceeds nothing and is not exceeded.
pub proof fn law_levels_are_ordered(a: u32, b: u32, c: u32)
    ensures
        !greater(a, a),
        greater(a, b) && greater(b, c) ==> greater(a, c),
        !is_nan(a) && !is_nan(b) && rank(a) != rank(b) ==> greater(a, b) || greater(b, a),
        is_nan(a) ==> !greater(a, b) && !greater(b, a),
{
}

/// How levels compare, read off the patterns. Those above infinity, of either sign, compare with
/// nothing. Levels without the sign compare as their patterns do, levels with the sign the other
/// way round, and a level with the sign is below one without, unless both are zero.
pub proof fn law_patterns_compare(a: u32, b: u32)
    ensures
        0x7f80_0000 < a < 0x8000_0000 || 0xff80_0000 < a ==> !greater(a, b) && !greater(b, a),
        a <= 0x7f80_0000 && b <= 0x7f80_0000 ==> (greater(a, b) <==> a > b),
        0x8000_0000 <= a <= 0xff80_0000 && 0x8000_0000 <= b <= 0xff80_0000 ==> (greater(a, b)
            <==> a < b),
        a <= 0x7f80_0000 && 0x8000_0000 <= b <= 0xff80_0000 ==> !greater(b, a) && (greater(a, b)
            <==> a != 0 || b != 0x8000_0000),
{
}

} // verus!
