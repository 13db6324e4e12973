//! Double-precision values carried by their IEEE-754 bit pattern.
//!
//! Configuration thresholds are fractions such as `0.8`. The library keeps
//! them as the 64-bit pattern of the `f64` and compares them exactly as
//! IEEE-754 does: NaN is unordered, `-0.0 == +0.0`, and otherwise the order
//! of the values is the order of the sign-adjusted patterns.

use vstd::prelude::*;
use vstd::arithmetic::power2::{pow2, lemma_pow2_unfold, lemma_pow2_pos, lemma_pow2_strictly_increases, lemma2_to64};

verus! {

/// Two to the 52nd power: the weight of the lowest exponent bit.
pub const EXPONENT_UNIT: u64 = 0x10_0000_0000_0000;

/// The sign bit.
pub const SIGN_BIT: u64 = 0x8000_0000_0000_0000;

/// An `f64` held as its bit pattern.
#[derive(Debug, Clone, Copy, PartialEq, Eq, Structural)]
pub struct F64Bits {
    pub bits: u64,
}

/// The biased exponent field of a pattern.
pub open spec fn exponent_field(b: u64) -> int {
    ((b as int) / (EXPONENT_UNIT as int)) % 2048
}

/// The fraction field of a pattern.
pub open spec fn fraction_field(b: u64) -> int {
    (b as int) % (EXPONENT_UNIT as int)
}

/// The pattern is a NaN.
pub open spec fn is_nan(b: u64) -> bool {
    exponent_field(b) == 2047 && fraction_field(b) != 0
}

/// An integer whose order is the numeric order of the non-NaN values:
/// non-negative patterns keep their value, negative ones are mirrored
/// below zero so that both zeros meet at 0.
pub open spec fn order_key(b: u64) -> int {
    if b >= SIGN_BIT { -((b as int) - (SIGN_BIT as int)) } else { b as int }
}

/// IEEE-754 `a < b`.
pub open spec fn f64_lt(a: u64, b: u64) -> bool {
    !is_nan(a) && !is_nan(b) && order_key(a) < order_key(b)
}

/// IEEE-754 `a <= b`.
pub open spec fn f64_le(a: u64, b: u64) -> bool {
    !is_nan(a) && !is_nan(b) && order_key(a) <= order_key(b)
}

/// `0.0`.
pub const ZERO_BITS: u64 = 0;

/// `1.0`.
pub const ONE_BITS: u64 = 0x3FF0_0000_0000_0000;

/// `0.1`.
pub const TENTH_BITS: u64 = 0x3FB9_9999_9999_999A;

/// `0.7`.
pub const SEVEN_TENTHS_BITS: u64 = 0x3FE6_6666_6666_6666;

/// `0.75`.
pub const THREE_QUARTERS_BITS: u64 = 0x3FE8_0000_0000_0000;

/// `0.8`.
pub const EIGHT_TENTHS_BITS: u64 = 0x3FE9_9999_9999_999A;

/// `0.9`.
pub const NINE_TENTHS_BITS: u64 = 0x3FEC_CCCC_CCCC_CCCD;

/// `0.95`.
pub const NINETEEN_TWENTIETHS_BITS: u64 = 0x3FEE_6666_6666_6666;

/// The value's integer part as `value as u32` gives it: the value is
/// `m * 2^(e - 1075)` for the mantissa `m` (with the hidden bit unless the
/// exponent field `e` is 0, where the scale is `2^-1074`); the fraction is
/// cut off toward zero, and the result saturates: NaN and every negative
/// value give 0, values from `2^32` up (infinity among them) give
/// `u32::MAX`.
pub open spec fn truncate_to_u32(b: u64) -> u32 {
    if is_nan(b) || b >= SIGN_BIT {
        0
    } else {
        let e = exponent_field(b);
        let m = if e == 0 { fraction_field(b) } else { fraction_field(b) + EXPONENT_UNIT };
        let whole: int = if e == 2047 {
            u32::MAX + 1
        } else if e >= 1075 {
            m * pow2((e - 1075) as nat)
        } else if e == 0 {
            m / (pow2(1074) as int)
        } else {
            m / (pow2((1075 - e) as nat) as int)
        };
        if whole > u32::MAX { u32::MAX } else { whole as u32 }
    }
}

/// Tests whether a pattern is a NaN.
pub fn nan_bits(b: u64) -> (r: bool)
    ensures
        r == is_nan(b),
{
    (b / EXPONENT_UNIT) % 2048 == 2047 && b % EXPONENT_UNIT != 0
}

/// Compares the order keys of two patterns.
fn key_lt(a: u64, b: u64, or_equal: bool) -> (r: bool)
    ensures
        r == (if or_equal { order_key(a) <= order_key(b) } else { order_key(a) < order_key(b) }),
{
    let a_neg = a >= SIGN_BIT;
    let b_neg = b >= SIGN_BIT;
    if a_neg && b_neg {
        if or_equal { b - SIGN_BIT <= a - SIGN_BIT } else { b - SIGN_BIT < a - SIGN_BIT }
    } else if a_neg {
        // a <= -0.0 and b >= +0.0: only two zeros are equal
        if or_equal { true } else { !(a == SIGN_BIT && b == 0) }
    } else if b_neg {
        if or_equal { a == 0 && b == SIGN_BIT } else { false }
    } else {
        if or_equal { a <= b } else { a < b }
    }
}

impl F64Bits {
    /// The value with the given pattern.
    pub fn from_bits(bits: u64) -> (r: Self)
        ensures
            r.bits == bits,
    {
        F64Bits { bits }
    }

    /// The value converted as `value as u32` converts it.
    pub fn truncate_to_u32(&self) -> (r: u32)
        ensures
            r == truncate_to_u32(self.bits),
    {
        let b = self.bits;
        if b >= SIGN_BIT {
            return 0;
        }
        let e = b / EXPONENT_UNIT;
        let f = b % EXPONENT_UNIT;
        assert(e < 2048);
        assert(exponent_field(b) == e);
        if e == 2047 {
            if f != 0 {
                return 0;
            }
            return u32::MAX;
        }
        let m: u64 = if e == 0 { f } else { f + EXPONENT_UNIT };
        assert(m < 0x20_0000_0000_0000);
        if e >= 1075 {
            proof {
                lemma_pow2_pos((e - 1075) as nat);
                assert(m * pow2((e - 1075) as nat) >= m) by (nonlinear_arith)
                    requires pow2((e - 1075) as nat) > 0;
            }
            return u32::MAX;
        }
        let s: u64 = if e == 0 { 1074 } else { 1075 - e };
        proof {
            lemma2_to64();
        }
        if s >= 64 {
            proof {
                lemma_pow2_strictly_increases(53, s as nat);
                assert(pow2(53) == 0x20_0000_0000_0000) by {
                    lemma_pow2_unfold(53);
                    lemma_pow2_unfold(52);
                    lemma_pow2_unfold(51);
                    lemma_pow2_unfold(50);
                    lemma_pow2_unfold(49);
                    lemma_pow2_unfold(48);
                    lemma_pow2_unfold(47);
                    lemma_pow2_unfold(46);
                    lemma_pow2_unfold(45);
                    lemma_pow2_unfold(44);
                    lemma_pow2_unfold(43);
                    lemma_pow2_unfold(42);
                    lemma_pow2_unfold(41);
                    lemma_pow2_unfold(40);
                    lemma_pow2_unfold(39);
                    lemma_pow2_unfold(38);
                    lemma_pow2_unfold(37);
                    lemma_pow2_unfold(36);
                    lemma_pow2_unfold(35);
                    lemma_pow2_unfold(34);
                    lemma_pow2_unfold(33);
                }
                let d: int = pow2(s as nat) as int;
                let mi: int = m as int;
                assert(mi / d == 0) by (nonlinear_arith)
                    requires 0 <= mi < d;
            }
            return 0;
        }
        let mut d: u64 = 1;
        let mut i: u64 = 0;
        while i < s
            invariant
                i <= s,
                s < 64,
                d as int == pow2(i as nat),
            decreases s - i,
        {
            proof {
                lemma_pow2_unfold((i + 1) as nat);
                lemma_pow2_strictly_increases(i as nat, 63);
                lemma2_to64();
                lemma_pow2_unfold(64);
            }
            d = d * 2;
            i = i + 1;
        }
        proof {
            lemma_pow2_pos(s as nat);
        }
        let v = m / d;
        if v > 0xFFFF_FFFF {
            u32::MAX
        } else {
            v as u32
        }
    }

    /// IEEE-754 `self < other`.
    pub fn lt(&self, other: &F64Bits) -> (r: bool)
        ensures
            r == f64_lt(self.bits, other.bits),
    {
        !nan_bits(self.bits) && !nan_bits(other.bits) && key_lt(self.bits, other.bits, false)
    }

    /// IEEE-754 `self <= other`.
    pub fn le(&self, other: &F64Bits) -> (r: bool)
        ensures
            r == f64_le(self.bits, other.bits),
    {
        !nan_bits(self.bits) && !nan_bits(other.bits) && key_lt(self.bits, other.bits, true)
    }

    /// `0.0 <= self <= 1.0`, as `(0.0..=1.0).contains(&self)` tests it.
    pub fn in_unit_interval(&self) -> (r: bool)
        ensures
            r == (f64_le(ZERO_BITS, self.bits) && f64_le(self.bits, ONE_BITS)),
    {
        F64Bits::from_bits(ZERO_BITS).le(self) && self.le(&F64Bits::from_bits(ONE_BITS))
    }
}

} // verus!
