//! Whole numbers among double-precision numbers.
//!
//! A double-precision number is taken by its bit pattern in the IEEE 754
//! interchange format: one sign bit, eleven bits of exponent, fifty-two bits
//! of fraction. With exponent field `e` and fraction field `f`,
//!
//! - `e` all ones is an infinity or not a number;
//! - `e` zero is `f` times two to the power -1074: zero, or a magnitude
//!   below one;
//! - any other `e` is `(2^52 + f)` times two to the power `e - 1075`.
//!
//! From this the module decides, in integer arithmetic, whether the number
//! is whole, and which whole number it is.

use vstd::arithmetic::div_mod::lemma_small_mod;
use vstd::arithmetic::power2::{lemma2_to64, lemma2_to64_rest, lemma_pow2_strictly_increases, pow2};
use vstd::bits::{lemma_u64_pow2_no_overflow, lemma_u64_shl_is_mul};
use vstd::prelude::*;

verus! {

/// Two to the power 52: what the fraction field counts in, and the bit it
/// leaves unwritten in front of itself.
pub const HIDDEN_BIT: u64 = 0x10_0000_0000_0000;

/// Two to the power 63: the sign bit.
pub const SIGN_BIT: u64 = 0x8000_0000_0000_0000;

/// The exponent field of an infinity and of what is not a number.
pub const EXPONENT_ALL_ONES: u64 = 0x7ff;

/// The exponent field at which the fraction field counts in units of one.
pub const EXPONENT_OF_UNITS: u64 = 1075;

/// Whether the sign bit is set.
pub open spec fn is_negative(bits: u64) -> bool {
    bits >= SIGN_BIT
}

/// The eleven bits above the fraction.
pub open spec fn exponent_field(bits: u64) -> nat {
    (bits as nat / HIDDEN_BIT as nat) % 0x800
}

/// The low fifty-two bits.
pub open spec fn fraction_field(bits: u64) -> nat {
    bits as nat % HIDDEN_BIT as nat
}

/// The magnitude of the number where that is a whole number, and `None`
/// where the number has a fractional part, is infinite or is not a number.
pub open spec fn whole_magnitude(bits: u64) -> Option<nat> {
    let e = exponent_field(bits);
    let significand = HIDDEN_BIT as nat + fraction_field(bits);
    if e == EXPONENT_ALL_ONES {
        None
    } else if e == 0 {
        if fraction_field(bits) == 0 {
            Some(0)
        } else {
            None
        }
    } else if e >= EXPONENT_OF_UNITS {
        Some(significand * pow2((e - EXPONENT_OF_UNITS) as nat))
    } else if significand % pow2((EXPONENT_OF_UNITS - e) as nat) == 0 {
        Some(significand / pow2((EXPONENT_OF_UNITS - e) as nat))
    } else {
        None
    }
}

/// The number itself where it is whole. Both zeros are the whole number
/// zero.
pub open spec fn whole_value(bits: u64) -> Option<int> {
    match whole_magnitude(bits) {
        Some(magnitude) => Some(
            if is_negative(bits) {
                -(magnitude as int)
            } else {
                magnitude as int
            },
        ),
        None => None,
    }
}

/// The unsigned 64-bit number nearest to `value`.
pub open spec fn nearest_u64(value: int) -> u64 {
    if value < 0 {
        0
    } else if value > u64::MAX {
        u64::MAX
    } else {
        value as u64
    }
}

/// Two to the power `shift`, for a power that fits.
fn power_of_two(shift: u64) -> (res: u64)
    requires
        shift <= 52,
    ensures
        res == pow2(shift as nat),
        1 <= res <= HIDDEN_BIT,
{
    proof {
        lemma_u64_pow2_no_overflow(shift as nat);
        lemma_u64_shl_is_mul(1, shift);
        lemma2_to64_rest();
        if shift < 52 {
            lemma_pow2_strictly_increases(shift as nat, 52);
        }
    }
    1u64 << shift
}

/// Reads a double-precision number as a whole number.
///
/// Gives `None` where the number has a fractional part, is infinite or is
/// not a number. Gives the number where it is whole and fits; a whole number
/// below zero is given as zero, and one above `u64::MAX` as `u64::MAX`.
pub fn to_whole_number(bits: u64) -> (res: Option<u64>)
    ensures
        res == match whole_value(bits) {
            Some(value) => Some(nearest_u64(value)),
            None => None,
        },
{
    let negative = bits >= SIGN_BIT;
    let e = (bits / HIDDEN_BIT) % 0x800;
    let fraction = bits % HIDDEN_BIT;
    if e == EXPONENT_ALL_ONES {
        return None;
    }
    if e == 0 {
        return if fraction == 0 {
            Some(0)
        } else {
            None
        };
    }
    let significand = HIDDEN_BIT + fraction;
    if e >= EXPONENT_OF_UNITS {
        let shift = e - EXPONENT_OF_UNITS;
        proof {
            vstd::arithmetic::power2::lemma_pow2_pos(shift as nat);
            assert(significand * pow2(shift as nat) >= 0) by (nonlinear_arith)
                requires
                    significand >= 0,
                    pow2(shift as nat) > 0,
            ;
        }
        if negative {
            return Some(0);
        }
        if shift > 11 {
            proof {
                lemma2_to64();
                if shift > 12 {
                    lemma_pow2_strictly_increases(12, shift as nat);
                }
                assert(significand * pow2(shift as nat) > u64::MAX) by (nonlinear_arith)
                    requires
                        significand >= 0x10_0000_0000_0000,
                        pow2(shift as nat) >= 0x1000,
                ;
            }
            return Some(u64::MAX);
        }
        let scale = power_of_two(shift);
        proof {
            lemma2_to64();
            if shift < 11 {
                lemma_pow2_strictly_increases(shift as nat, 11);
            }
            assert(significand * scale <= u64::MAX) by (nonlinear_arith)
                requires
                    significand < 0x20_0000_0000_0000,
                    scale <= 0x800,
            ;
        }
        Some(significand * scale)
    } else {
        let shift = EXPONENT_OF_UNITS - e;
        if shift > 52 {
            proof {
                lemma2_to64_rest();
                if shift > 53 {
                    lemma_pow2_strictly_increases(53, shift as nat);
                }
                lemma_small_mod(significand as nat, pow2(shift as nat));
            }
            return None;
        }
        let scale = power_of_two(shift);
        if significand % scale != 0 {
            return None;
        }
        if negative {
            Some(0)
        } else {
            Some(significand / scale)
        }
    }
}

} // verus!
