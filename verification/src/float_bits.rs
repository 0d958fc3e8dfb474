//! Exact integer reasoning about IEEE-754 single-precision bit patterns.
//!
//! Parameter values may arrive tagged as floats. The state machine never
//! computes with floating point itself: it receives the 32 raw bits and
//! decides everything from the sign, exponent and fraction fields. The two
//! facts it needs are the value truncated towards zero and saturated to an
//! `i32` (the semantics of Rust's `as i32` cast on a float), and whether the
//! value is at least 1 (false for NaN, which fails every ordered comparison).

use vstd::prelude::*;
use vstd::arithmetic::power2::{pow2, lemma_pow2_pos, lemma_pow2_strictly_increases, lemma2_to64};
use vstd::arithmetic::div_mod::{
    lemma_basic_div_specific_divisor, lemma_div_by_self, lemma_div_is_ordered,
};
use vstd::arithmetic::mul::{lemma_mul_inequality, lemma_mul_is_commutative};
use vstd::bits::{lemma_u32_shl_is_mul, lemma_u32_shr_is_div};

verus! {

/// The sign bit of the encoded value.
pub open spec fn f32_bits_sign(b: u32) -> bool {
    (b >> 31u32) == 1u32
}

/// The biased 8-bit exponent field.
pub open spec fn f32_bits_exp(b: u32) -> u32 {
    (b >> 23u32) & 0xFFu32
}

/// The 23-bit fraction field.
pub open spec fn f32_bits_frac(b: u32) -> u32 {
    b & 0x7FFFFFu32
}

/// NaN: exponent field all ones with a nonzero fraction.
pub open spec fn f32_bits_is_nan(b: u32) -> bool {
    f32_bits_exp(b) == 255 && f32_bits_frac(b) != 0
}

/// The magnitude of the encoded value, truncated towards zero: with
/// significand `f = fraction + 2^23` and biased exponent `e`, the value's
/// magnitude is `f * 2^(e - 150)`, so its integer part is the product when
/// `e >= 150` and the (floored) quotient `f / 2^(150 - e)` otherwise. For
/// subnormals (`e == 0`) the true magnitude is below 1, and the formula also
/// yields 0; for an infinity it yields a number far above `u32::MAX`, which
/// the saturating conversion below maps to the extreme integers.
pub open spec fn f32_bits_mag_floor(b: u32) -> nat {
    let e = f32_bits_exp(b);
    let f = (f32_bits_frac(b) + 0x800000) as nat;
    if e >= 150 {
        f * pow2((e - 150) as nat)
    } else {
        f / pow2((150 - e) as nat)
    }
}

/// The value of Rust's saturating cast from the encoded float to `i32`:
/// NaN becomes 0, everything else is truncated towards zero and clamped to
/// the `i32` range.
pub open spec fn spec_f32_bits_to_i32(b: u32) -> i32 {
    if f32_bits_is_nan(b) {
        0
    } else {
        let m = f32_bits_mag_floor(b);
        if f32_bits_sign(b) {
            if m >= 0x80000000 {
                i32::MIN
            } else {
                (-(m as int)) as i32
            }
        } else {
            if m >= 0x80000000 {
                i32::MAX
            } else {
                m as i32
            }
        }
    }
}

/// Whether the encoded value compares `>= 1.0`. NaN does not; neither does
/// any negative value or any magnitude whose integer part is 0.
pub open spec fn f32_bits_at_least_one(b: u32) -> bool {
    !f32_bits_sign(b) && !f32_bits_is_nan(b) && f32_bits_mag_floor(b) >= 1
}

proof fn lemma_field_bounds(b: u32)
    ensures
        f32_bits_exp(b) <= 255,
        f32_bits_frac(b) < 0x800000,
        (b >> 31u32) == 0u32 || (b >> 31u32) == 1u32,
{
    assert(((b >> 23u32) & 0xFFu32) <= 255u32) by (bit_vector);
    assert((b & 0x7FFFFFu32) < 0x800000u32) by (bit_vector);
    assert((b >> 31u32) == 0u32 || (b >> 31u32) == 1u32) by (bit_vector);
}

/// The integer part of the magnitude is at least 1 exactly when the biased
/// exponent is at least 127 (the encoding of 1.0).
proof fn lemma_mag_floor_vs_one(b: u32)
    ensures
        f32_bits_mag_floor(b) >= 1 <==> f32_bits_exp(b) >= 127,
{
    lemma_field_bounds(b);
    let e = f32_bits_exp(b);
    let f = (f32_bits_frac(b) + 0x800000) as nat;
    if e >= 150 {
        lemma_pow2_pos((e - 150) as nat);
        lemma_mul_inequality(1, pow2((e - 150) as nat) as int, f as int);
        lemma_mul_is_commutative(f as int, pow2((e - 150) as nat) as int);
    } else if e >= 127 {
        if 150 - e < 23 {
            lemma_pow2_strictly_increases((150 - e) as nat, 23);
        }
        lemma_pow2_pos((150 - e) as nat);
        lemma2_to64();
        lemma_div_by_self(pow2((150 - e) as nat) as int);
        lemma_div_is_ordered(pow2((150 - e) as nat) as int, f as int, pow2((150 - e) as nat) as int);
    } else {
        if 150 - e > 24 {
            lemma_pow2_strictly_increases(24, (150 - e) as nat);
        }
        lemma2_to64();
        lemma_basic_div_specific_divisor(pow2((150 - e) as nat) as int);
    }
}

/// Above a biased exponent of 157 the magnitude's integer part no longer
/// fits in an `i32`, so the conversion saturates.
proof fn lemma_mag_floor_huge(b: u32)
    requires
        f32_bits_exp(b) >= 158,
    ensures
        f32_bits_mag_floor(b) >= 0x80000000,
{
    lemma_field_bounds(b);
    let e = f32_bits_exp(b);
    let f = (f32_bits_frac(b) + 0x800000) as nat;
    let p = pow2((e - 150) as nat);
    if e > 158 {
        lemma_pow2_strictly_increases(8, (e - 150) as nat);
    }
    lemma2_to64();
    assert(p >= 256);
    lemma_mul_inequality(0x800000, f as int, p as int);
    lemma_mul_inequality(256, p as int, 0x800000);
    lemma_mul_is_commutative(p as int, 0x800000);
    lemma_mul_is_commutative(f as int, p as int);
}

/// Rust's saturating `f32` to `i32` conversion, computed from the raw bits.
pub fn f32_bits_to_i32(b: u32) -> (r: i32)
    ensures
        r == spec_f32_bits_to_i32(b),
{
    let exp: u32 = (b >> 23u32) & 0xFF;
    let frac: u32 = b & 0x7FFFFF;
    let neg: bool = (b >> 31u32) == 1;
    proof {
        lemma_field_bounds(b);
    }
    if exp == 0xFF {
        if frac != 0 {
            0
        } else {
            proof {
                lemma_mag_floor_huge(b);
            }
            if neg {
                i32::MIN
            } else {
                i32::MAX
            }
        }
    } else if exp < 127 {
        proof {
            lemma_mag_floor_vs_one(b);
        }
        0
    } else if exp >= 158 {
        proof {
            lemma_mag_floor_huge(b);
        }
        if neg {
            i32::MIN
        } else {
            i32::MAX
        }
    } else {
        let f24: u32 = frac + 0x800000;
        let mag: u32;
        if exp >= 150 {
            let sh: u32 = exp - 150;
            proof {
                if sh < 7 {
                    lemma_pow2_strictly_increases(sh as nat, 7);
                }
                lemma2_to64();
                lemma_mul_inequality(f24 as int, 0xFFFFFF, pow2(sh as nat) as int);
                lemma_mul_inequality(pow2(sh as nat) as int, 128, 0xFFFFFF);
                lemma_mul_is_commutative(0xFFFFFF, pow2(sh as nat) as int);
                lemma_u32_shl_is_mul(f24, sh);
            }
            mag = f24 << sh;
        } else {
            let sh: u32 = 150 - exp;
            proof {
                lemma_pow2_pos(sh as nat);
                lemma_u32_shr_is_div(f24, sh);
                lemma_div_is_ordered(f24 as int, 0xFFFFFF, pow2(sh as nat) as int);
            }
            mag = f24 >> sh;
        }
        if neg {
            -(mag as i32)
        } else {
            mag as i32
        }
    }
}

/// Whether the encoded value compares `>= 1.0`: exactly the bit patterns
/// from 1.0 up to and including positive infinity.
pub fn f32_bits_ge_one(b: u32) -> (r: bool)
    ensures
        r == f32_bits_at_least_one(b),
{
    let r = 0x3F800000 <= b && b <= 0x7F800000;
    proof {
        lemma_field_bounds(b);
        assert((0x3F800000u32 <= b && b <= 0x7F800000u32) <==> ((b >> 31u32) == 0u32
            && ((b >> 23u32) & 0xFFu32) >= 127u32 && !(((b >> 23u32) & 0xFFu32) == 255u32 && (b
            & 0x7FFFFFu32) != 0u32))) by (bit_vector);
        lemma_mag_floor_vs_one(b);
    }
    r
}

} // verus!
