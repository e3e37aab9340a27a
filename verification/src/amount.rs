//! Amounts, carried as the bit pattern of an IEEE 754 double.
//!
//! The library decides on an amount's sign and hands the amount through; it
//! never does arithmetic on it. The encoding is the one every double has:
//! one sign bit, eleven exponent bits, fifty-two fraction bits.

use vstd::prelude::*;

verus! {

/// The sign bit alone: the encoding of negative zero.
pub const SIGN_BIT: u64 = 0x8000_0000_0000_0000;

/// The encoding of positive infinity: every exponent bit set, no fraction bit.
pub const INFINITY_BITS: u64 = 0x7ff0_0000_0000_0000;

/// An amount of currency in some unit, as the encoding of a double. Two
/// amounts are equal when their encodings are: a NaN equals itself, and
/// negative zero differs from zero.
#[derive(Clone, Copy, Debug, PartialEq, Eq, Structural)]
pub struct Amount {
    pub bits: u64,
}

impl Amount {
    /// Whether the sign bit is set. It may be set on a zero and on a NaN.
    pub open spec fn sign_bit(self) -> bool {
        self.bits >= SIGN_BIT
    }

    /// The encoding with the sign bit cleared.
    pub open spec fn magnitude(self) -> int {
        if self.sign_bit() {
            self.bits - SIGN_BIT
        } else {
            self.bits as int
        }
    }

    /// Whether the amount is positive or negative zero.
    pub open spec fn is_zero(self) -> bool {
        self.magnitude() == 0
    }

    /// Whether the encoding is no number: every exponent bit set and some
    /// fraction bit.
    pub open spec fn is_nan(self) -> bool {
        self.magnitude() > INFINITY_BITS
    }

    /// Whether the amount compares below zero. A NaN compares below nothing,
    /// and negative zero equals zero, so neither does.
    pub open spec fn below_zero(self) -> bool {
        self.sign_bit() && !self.is_zero() && !self.is_nan()
    }

    /// The amount with the given encoding.
    pub fn from_bits(bits: u64) -> (amount: Amount)
        ensures
            amount.bits == bits,
    {
        Amount { bits }
    }

    /// The amount's encoding.
    pub fn to_bits(&self) -> (bits: u64)
        ensures
            bits == self.bits,
    {
        self.bits
    }

    /// Whether the amount is strictly negative.
    pub fn is_negative(&self) -> (negative: bool)
        ensures
            negative == self.below_zero(),
    {
        SIGN_BIT < self.bits && self.bits <= SIGN_BIT + INFINITY_BITS
    }
}

/// The sign and the magnitude are the two fields of the encoding: the top
/// bit, and the sixty-three bits below it.
pub proof fn lemma_sign_and_magnitude(amount: Amount)
    ensures
        amount.sign_bit() <==> (amount.bits & SIGN_BIT) != 0,
        amount.magnitude() == (amount.bits & !SIGN_BIT),
{
    let bits = amount.bits;
    assert(bits >= 0x8000_0000_0000_0000u64 <==> (bits & 0x8000_0000_0000_0000u64) != 0)
        by (bit_vector);
    assert(bits >= 0x8000_0000_0000_0000u64 ==> bits - 0x8000_0000_0000_0000u64 == (bits
        & !0x8000_0000_0000_0000u64)) by (bit_vector);
    assert(bits < 0x8000_0000_0000_0000u64 ==> bits == (bits & !0x8000_0000_0000_0000u64))
        by (bit_vector);
}

} // verus!
