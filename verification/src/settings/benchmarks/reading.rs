//! Double-precision measurements, carried by their bits.
//!
//! A measurement is not computed with here: it is compared, or cut down to a
//! whole number. Both follow from its bits.

use vstd::prelude::*;

use crate::double;

verus! {

/// A double-precision number, by its bits in the form of IEEE 754.
#[derive(Debug, Clone, Copy, Default, PartialEq, Eq, Structural)]
pub struct Measure {
    pub bits: u64,
}

/// The bits of infinity. Positive numbers lie below, in order.
pub const INFINITY_BITS: u64 = 0x7ff0_0000_0000_0000;

/// The bits of negative infinity. Negative numbers lie between the sign bit and
/// these.
pub const NEGATIVE_INFINITY_BITS: u64 = 0xfff0_0000_0000_0000;

/// The sign bit, which alone is negative zero.
pub const SIGN_BIT: u64 = 0x8000_0000_0000_0000;

/// Whether a number is greater than zero.
pub open spec fn above_zero(r: Measure) -> bool {
    0 < r.bits <= INFINITY_BITS
}

/// Whether a number is at most zero. What is not a number is neither.
pub open spec fn at_most_zero(r: Measure) -> bool {
    r.bits == 0 || SIGN_BIT <= r.bits <= NEGATIVE_INFINITY_BITS
}

/// Whether a number is at least `floor`, a positive number.
pub open spec fn at_least(r: Measure, floor: Measure) -> bool {
    floor.bits <= r.bits <= INFINITY_BITS
}

/// A number without its fraction. A negative number and what is not a number
/// count as zero, a number that is too large as the largest one.
pub open spec fn whole_part(r: Measure) -> nat {
    let exponent = r.bits / 0x10_0000_0000_0000;
    let digits = 0x10_0000_0000_0000 + r.bits % 0x10_0000_0000_0000;
    if r.bits > INFINITY_BITS || exponent < 1023 {
        0
    } else if exponent >= 1087 {
        u64::MAX as nat
    } else if exponent >= 1075 {
        digits as nat * double::two_to((exponent - 1075) as nat)
    } else {
        digits as nat / double::two_to((1075 - exponent) as nat)
    }
}

impl Measure {
    /// Zero.
    pub fn zero() -> (r: Measure)
        ensures
            r.bits == 0,
    {
        Measure { bits: 0 }
    }

    /// Whether the number is greater than zero.
    pub fn is_above_zero(self) -> (r: bool)
        ensures
            r == above_zero(self),
    {
        0 < self.bits && self.bits <= INFINITY_BITS
    }

    /// Whether the number is at most zero.
    pub fn is_at_most_zero(self) -> (r: bool)
        ensures
            r == at_most_zero(self),
    {
        self.bits == 0 || (SIGN_BIT <= self.bits && self.bits <= NEGATIVE_INFINITY_BITS)
    }

    /// Whether the number is at least `floor`, a positive number.
    pub fn is_at_least(self, floor: Measure) -> (r: bool)
        ensures
            r == at_least(self, floor),
    {
        floor.bits <= self.bits && self.bits <= INFINITY_BITS
    }

    /// The number without its fraction.
    pub fn to_whole(self) -> (r: u64)
        ensures
            r == whole_part(self),
    {
        let exponent: u64 = self.bits / 0x10_0000_0000_0000;
        if self.bits > INFINITY_BITS || exponent < 1023 {
            return 0;
        }
        if exponent >= 1087 {
            return u64::MAX;
        }
        let digits: u64 = 0x10_0000_0000_0000 + self.bits % 0x10_0000_0000_0000;
        let mut n: u64 = digits;
        if exponent >= 1075 {
            let steps: u64 = exponent - 1075;
            let mut i: u64 = 0;
            assert(digits as nat * double::two_to(0) == digits) by (nonlinear_arith)
                requires
                    double::two_to(0) == 1,
            ;
            while i < steps
                invariant
                    i <= steps <= 11,
                    0x10_0000_0000_0000 <= digits < 0x20_0000_0000_0000,
                    n == digits as nat * double::two_to(i as nat),
                decreases steps - i,
            {
                proof {
                    let t = double::two_to(i as nat);
                    double::lemma_two_to_mono(i as nat, 10);
                    reveal_with_fuel(double::two_to, 12);
                    assert(double::two_to(10) == 1024);
                    assert(digits as nat * t <= 0x1f_ffff_ffff_ffff * 1024) by (nonlinear_arith)
                        requires
                            digits <= 0x1f_ffff_ffff_ffff,
                            t <= 1024,
                    ;
                    assert(double::two_to(i as nat + 1) == 2 * t);
                    assert(digits as nat * (2 * t) == 2 * (digits as nat * t)) by (nonlinear_arith);
                }
                n = n * 2;
                i = i + 1;
            }
        } else {
            let steps: u64 = 1075 - exponent;
            let mut i: u64 = 0;
            assert(digits as nat / double::two_to(0) == digits) by (nonlinear_arith)
                requires
                    double::two_to(0) == 1,
            ;
            while i < steps
                invariant
                    i <= steps <= 52,
                    n == digits as nat / double::two_to(i as nat),
                decreases steps - i,
            {
                proof {
                    let t = double::two_to(i as nat);
                    double::lemma_two_to_pos(i as nat);
                    assert(double::two_to(i as nat + 1) == 2 * t);
                    vstd::arithmetic::div_mod::lemma_div_denominator(digits as int, t as int, 2);
                    assert(t * 2 == 2 * t);
                }
                n = n / 2;
                i = i + 1;
            }
        }
        n
    }
}

} // verus!
