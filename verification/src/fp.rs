//! Double-precision scalars, carried as their IEEE-754 bit patterns.
//!
//! Verus has no model of floating-point numbers, so every scalar in this
//! library is a `u64` holding the bit pattern of a double. Arithmetic is
//! performed by the `const_soft_float` crate, which computes IEEE-754
//! operations directly on bit patterns in pure integer code; each operation
//! is named here by an uninterpreted spec function of the operand bits.
//! Comparison, negation, absolute value and truncation are pure bit-field
//! logic, implemented and verified in this module.

use vstd::prelude::*;

verus! {

/// Bit pattern of `0.0`.
pub const F_ZERO: u64 = 0x0000000000000000;
/// Bit pattern of `1.0`.
pub const F_ONE: u64 = 0x3FF0000000000000;
/// Bit pattern of `2.0`.
pub const F_TWO: u64 = 0x4000000000000000;
/// Bit pattern of `0.5`.
pub const F_HALF: u64 = 0x3FE0000000000000;
/// Bit pattern of `-1.0`.
pub const F_NEG_ONE: u64 = 0xBFF0000000000000;
/// Bit pattern of positive infinity.
pub const F_INFINITY: u64 = 0x7FF0000000000000;
/// Bit pattern of the closest double to pi.
pub const F_PI: u64 = 0x400921FB54442D18;
/// Bit pattern of `180.0`.
pub const F_180: u64 = 0x4066800000000000;
/// Bit pattern of `256.0`.
pub const F_256: u64 = 0x4070000000000000;
/// Bit pattern of the closest double to `0.999`.
pub const F_0_999: u64 = 0x3FEFF7CED916872B;
/// Bit pattern of the closest double to `0.001`, the shadow-acne epsilon.
pub const F_0_001: u64 = 0x3F50624DD2F1A9FC;
/// Bit pattern of the closest double to `1.0e-8`, the near-zero threshold.
pub const F_1E_8: u64 = 0x3E45798EE2308C3A;
/// Bit pattern of `2^-52`.
pub const F_2_NEG52: u64 = 0x3CB0000000000000;
/// Bit pattern of `2^52`.
pub const F_2_52: u64 = 0x4330000000000000;

/// Sign bit of a double's pattern.
pub const SIGN_MASK: u64 = 0x8000000000000000;
/// Exponent field of a double's pattern.
pub const EXP_MASK: u64 = 0x7FF0000000000000;
/// Fraction field of a double's pattern.
pub const FRAC_MASK: u64 = 0x000FFFFFFFFFFFFF;
/// Magnitude (everything but the sign bit) of a double's pattern.
pub const MAG_MASK: u64 = 0x7FFFFFFFFFFFFFFF;
/// The implicit leading significand bit of a normal double.
pub const IMPLICIT_BIT: u64 = 0x0010000000000000;

/// The bits of the double `a + b`, rounded to nearest even.
pub uninterp spec fn add_bits(a: u64, b: u64) -> u64;

/// The bits of the double `a - b`, rounded to nearest even.
pub uninterp spec fn sub_bits(a: u64, b: u64) -> u64;

/// The bits of the double `a * b`, rounded to nearest even.
pub uninterp spec fn mul_bits(a: u64, b: u64) -> u64;

/// The bits of the double `a / b`, rounded to nearest even.
pub uninterp spec fn div_bits(a: u64, b: u64) -> u64;

/// The bits of the correctly rounded square root of the double `a`.
pub uninterp spec fn sqrt_bits(a: u64) -> u64;

/// The bits of the sine of the double `a` (radians).
pub uninterp spec fn sin_bits(a: u64) -> u64;

/// The bits of the cosine of the double `a` (radians).
pub uninterp spec fn cos_bits(a: u64) -> u64;

/// Relies on `const_soft_float::soft_f64::SoftF64::add`: IEEE-754 addition
/// computed in pure integer code, a function of the operand bits alone.
#[verifier::external_body]
pub fn fp_add(a: u64, b: u64) -> (r: u64)
    ensures
        r == add_bits(a, b),
{
    const_soft_float::soft_f64::SoftF64::from_bits(a)
        .add(const_soft_float::soft_f64::SoftF64::from_bits(b))
        .to_bits()
}

/// Relies on `const_soft_float::soft_f64::SoftF64::sub`: IEEE-754 subtraction
/// computed in pure integer code, a function of the operand bits alone.
#[verifier::external_body]
pub fn fp_sub(a: u64, b: u64) -> (r: u64)
    ensures
        r == sub_bits(a, b),
{
    const_soft_float::soft_f64::SoftF64::from_bits(a)
        .sub(const_soft_float::soft_f64::SoftF64::from_bits(b))
        .to_bits()
}

/// Relies on `const_soft_float::soft_f64::SoftF64::mul`: IEEE-754
/// multiplication computed in pure integer code, a function of the operand
/// bits alone.
#[verifier::external_body]
pub fn fp_mul(a: u64, b: u64) -> (r: u64)
    ensures
        r == mul_bits(a, b),
{
    const_soft_float::soft_f64::SoftF64::from_bits(a)
        .mul(const_soft_float::soft_f64::SoftF64::from_bits(b))
        .to_bits()
}

/// Relies on `const_soft_float::soft_f64::SoftF64::div`: IEEE-754 division
/// computed in pure integer code, a function of the operand bits alone.
#[verifier::external_body]
pub fn fp_div(a: u64, b: u64) -> (r: u64)
    ensures
        r == div_bits(a, b),
{
    const_soft_float::soft_f64::SoftF64::from_bits(a)
        .div(const_soft_float::soft_f64::SoftF64::from_bits(b))
        .to_bits()
}

/// Relies on `const_soft_float::soft_f64::SoftF64::sqrt`: IEEE-754 square
/// root computed in pure integer code, a function of the operand bits alone.
#[verifier::external_body]
pub fn fp_sqrt(a: u64) -> (r: u64)
    ensures
        r == sqrt_bits(a),
{
    const_soft_float::soft_f64::SoftF64::from_bits(a).sqrt().to_bits()
}

/// Relies on `const_soft_float::soft_f64::SoftF64::sin`: sine computed in
/// pure integer code, a function of the operand bits alone.
#[verifier::external_body]
pub fn fp_sin(a: u64) -> (r: u64)
    ensures
        r == sin_bits(a),
{
    const_soft_float::soft_f64::SoftF64::from_bits(a).sin().to_bits()
}

/// Relies on `const_soft_float::soft_f64::SoftF64::cos`: cosine computed in
/// pure integer code, a function of the operand bits alone.
#[verifier::external_body]
pub fn fp_cos(a: u64) -> (r: u64)
    ensures
        r == cos_bits(a),
{
    const_soft_float::soft_f64::SoftF64::from_bits(a).cos().to_bits()
}

/// True iff the pattern encodes a NaN: exponent all ones, fraction nonzero.
pub open spec fn is_nan_bits(a: u64) -> bool {
    (a & EXP_MASK) == EXP_MASK && (a & FRAC_MASK) != 0
}

/// True iff the sign bit is set.
pub open spec fn sign_bits(a: u64) -> bool {
    (a & SIGN_MASK) != 0
}

/// The magnitude field: the pattern with the sign bit cleared.
pub open spec fn mag_bits(a: u64) -> u64 {
    a & MAG_MASK
}

/// The position of a non-NaN double on the real line, as an integer key:
/// patterns of equal value get equal keys (both zeros map to 0), and
/// greater doubles get greater keys. This is the sign-magnitude reading of
/// the IEEE-754 encoding, under which comparison of finite and infinite
/// doubles is integer comparison.
pub open spec fn order_key(a: u64) -> int {
    if sign_bits(a) {
        -(mag_bits(a) as int)
    } else {
        mag_bits(a) as int
    }
}

/// IEEE-754 `a < b`: false whenever either operand is NaN.
pub open spec fn lt_bits(a: u64, b: u64) -> bool {
    !is_nan_bits(a) && !is_nan_bits(b) && order_key(a) < order_key(b)
}

/// IEEE-754 `a <= b`: false whenever either operand is NaN.
pub open spec fn le_bits(a: u64, b: u64) -> bool {
    !is_nan_bits(a) && !is_nan_bits(b) && order_key(a) <= order_key(b)
}

/// Negation of a double is exactly a flip of its sign bit.
pub open spec fn neg_bits(a: u64) -> u64 {
    a ^ SIGN_MASK
}

/// Absolute value of a double is exactly a clear of its sign bit.
pub open spec fn abs_bits(a: u64) -> u64 {
    a & MAG_MASK
}

/// True iff the pattern encodes a NaN.
pub fn fp_is_nan(a: u64) -> (r: bool)
    ensures
        r == is_nan_bits(a),
{
    (a & EXP_MASK) == EXP_MASK && (a & FRAC_MASK) != 0
}

/// IEEE-754 `a < b` on bit patterns: NaN compares false; otherwise doubles
/// order as sign-magnitude integers.
pub fn fp_lt(a: u64, b: u64) -> (r: bool)
    ensures
        r == lt_bits(a, b),
{
    if fp_is_nan(a) || fp_is_nan(b) {
        return false;
    }
    let sa = (a & SIGN_MASK) != 0;
    let sb = (b & SIGN_MASK) != 0;
    let ma = a & MAG_MASK;
    let mb = b & MAG_MASK;
    if sa {
        if sb {
            mb < ma
        } else {
            ma != 0 || mb != 0
        }
    } else {
        if sb {
            false
        } else {
            ma < mb
        }
    }
}

/// IEEE-754 `a <= b` on bit patterns: NaN compares false; otherwise doubles
/// order as sign-magnitude integers.
pub fn fp_le(a: u64, b: u64) -> (r: bool)
    ensures
        r == le_bits(a, b),
{
    if fp_is_nan(a) || fp_is_nan(b) {
        return false;
    }
    let sa = (a & SIGN_MASK) != 0;
    let sb = (b & SIGN_MASK) != 0;
    let ma = a & MAG_MASK;
    let mb = b & MAG_MASK;
    if sa {
        if sb {
            mb <= ma
        } else {
            true
        }
    } else {
        if sb {
            ma == 0 && mb == 0
        } else {
            ma <= mb
        }
    }
}

/// Flip the sign bit: IEEE-754 negation.
pub fn fp_neg(a: u64) -> (r: u64)
    ensures
        r == neg_bits(a),
{
    a ^ SIGN_MASK
}

/// Clear the sign bit: IEEE-754 absolute value.
pub fn fp_abs(a: u64) -> (r: u64)
    ensures
        r == abs_bits(a),
{
    a & MAG_MASK
}

/// The smaller of two doubles, ignoring a NaN operand: if one operand is
/// NaN the other is returned.
pub open spec fn min_bits(a: u64, b: u64) -> u64 {
    if is_nan_bits(a) {
        b
    } else if is_nan_bits(b) {
        a
    } else if lt_bits(b, a) {
        b
    } else {
        a
    }
}

/// The smaller of two doubles, ignoring a NaN operand.
pub fn fp_min(a: u64, b: u64) -> (r: u64)
    ensures
        r == min_bits(a, b),
{
    if fp_is_nan(a) {
        b
    } else if fp_is_nan(b) {
        a
    } else if fp_lt(b, a) {
        b
    } else {
        a
    }
}

/// `x` forced into `[lo, hi]`: `lo` when `x < lo`, `hi` when `hi < x`,
/// otherwise `x` itself (a NaN `x` passes through unchanged).
pub open spec fn clamp_bits(x: u64, lo: u64, hi: u64) -> u64 {
    if lt_bits(x, lo) {
        lo
    } else if lt_bits(hi, x) {
        hi
    } else {
        x
    }
}

/// Force `x` into `[lo, hi]` by the two IEEE-754 comparisons.
pub fn fp_clamp(x: u64, lo: u64, hi: u64) -> (r: u64)
    ensures
        r == clamp_bits(x, lo, hi),
{
    if fp_lt(x, lo) {
        lo
    } else if fp_lt(hi, x) {
        hi
    } else {
        x
    }
}

/// The bits of the double whose value is the integer `k`, for `k < 2^52`:
/// `k` or-ed into the significand of `2^52` encodes `2^52 + k` exactly, and
/// the exact subtraction of `2^52` leaves `k`.
pub open spec fn u52_bits(k: u64) -> u64 {
    sub_bits(k | F_2_52, F_2_52)
}

/// Convert an integer below `2^52` to the bits of the equal double.
pub fn fp_from_u52(k: u64) -> (r: u64)
    requires
        k < 0x0010000000000000,
    ensures
        r == u52_bits(k),
{
    fp_sub(k | F_2_52, F_2_52)
}

/// The double truncated toward zero to an 8-bit integer, saturating as a
/// Rust float-to-integer cast does: NaN and everything below `1.0` give 0,
/// everything at or above `256.0` gives 255; in between, the significand is
/// shifted down by the unbiased exponent.
pub open spec fn trunc_u8_bits(x: u64) -> u8 {
    if is_nan_bits(x) || sign_bits(x) {
        0u8
    } else if ((x & EXP_MASK) >> 52) < 1023 {
        0u8
    } else if ((x & EXP_MASK) >> 52) >= 1031 {
        255u8
    } else {
        ((((x & FRAC_MASK) | IMPLICIT_BIT) >> ((1075 - ((x & EXP_MASK) >> 52)) as u64)) & 0xFF) as u8
    }
}

/// Truncate a double toward zero to an 8-bit integer, saturating.
pub fn fp_trunc_u8(x: u64) -> (r: u8)
    ensures
        r == trunc_u8_bits(x),
{
    if fp_is_nan(x) || (x & SIGN_MASK) != 0 {
        return 0;
    }
    let e = (x & EXP_MASK) >> 52;
    if e < 1023 {
        0
    } else if e >= 1031 {
        255
    } else {
        let sig = (x & FRAC_MASK) | IMPLICIT_BIT;
        let shift = 1075 - e;
        #[verifier::truncate] (((sig >> shift) & 0xFF) as u8)
    }
}

} // verus!
