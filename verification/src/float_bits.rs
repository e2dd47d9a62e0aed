//! Comparison of IEEE 754 double precision numbers held as their bit
//! patterns (the value of `f64::to_bits`).
//!
//! Configuration thresholds are kept as bit patterns so that the rules that
//! check them can be stated and proved over integers. Two values that are
//! not NaN compare as their sign-magnitude readings do: the magnitude bits,
//! negated when the sign bit is set. Positive and negative zero then compare
//! equal, infinities sit beyond every finite value, and any comparison with
//! a NaN is false, as IEEE 754 prescribes.

use vstd::prelude::*;

verus! {

/// The bit pattern of `0.0`.
pub const ZERO: u64 = 0x0000_0000_0000_0000;

/// The bit pattern of `1.0`.
pub const ONE: u64 = 0x3ff0_0000_0000_0000;

/// The bit pattern of `100.0`.
pub const HUNDRED: u64 = 0x4059_0000_0000_0000;

/// Bit patterns of the constants that the configuration presets use.
/// `0.001`
pub const F0_001: u64 = 0x3f50_624d_d2f1_a9fc;
/// `0.002`
pub const F0_002: u64 = 0x3f60_624d_d2f1_a9fc;
/// `0.003`
pub const F0_003: u64 = 0x3f68_9374_bc6a_7efa;
/// `0.005`
pub const F0_005: u64 = 0x3f74_7ae1_47ae_147b;
/// `0.01`
pub const F0_01: u64 = 0x3f84_7ae1_47ae_147b;
/// `0.015`
pub const F0_015: u64 = 0x3f8e_b851_eb85_1eb8;
/// `0.02`
pub const F0_02: u64 = 0x3f94_7ae1_47ae_147b;
/// `0.025`
pub const F0_025: u64 = 0x3f99_9999_9999_999a;
/// `0.03`
pub const F0_03: u64 = 0x3f9e_b851_eb85_1eb8;
/// `0.04`
pub const F0_04: u64 = 0x3fa4_7ae1_47ae_147b;
/// `0.05`
pub const F0_05: u64 = 0x3fa9_9999_9999_999a;
/// `0.1`
pub const F0_1: u64 = 0x3fb9_9999_9999_999a;
/// `0.15`
pub const F0_15: u64 = 0x3fc3_3333_3333_3333;
/// `0.2`
pub const F0_2: u64 = 0x3fc9_9999_9999_999a;
/// `0.25`
pub const F0_25: u64 = 0x3fd0_0000_0000_0000;
/// `0.3`
pub const F0_3: u64 = 0x3fd3_3333_3333_3333;
/// `0.5`
pub const F0_5: u64 = 0x3fe0_0000_0000_0000;
/// `0.6`
pub const F0_6: u64 = 0x3fe3_3333_3333_3333;
/// `0.7`
pub const F0_7: u64 = 0x3fe6_6666_6666_6666;
/// `0.75`
pub const F0_75: u64 = 0x3fe8_0000_0000_0000;
/// `0.8`
pub const F0_8: u64 = 0x3fe9_9999_9999_999a;
/// `0.85`
pub const F0_85: u64 = 0x3feb_3333_3333_3333;
/// `0.9`
pub const F0_9: u64 = 0x3fec_cccc_cccc_cccd;
/// `0.95`
pub const F0_95: u64 = 0x3fee_6666_6666_6666;
/// `0.99`
pub const F0_99: u64 = 0x3fef_ae14_7ae1_47ae;
/// `1.2`
pub const F1_2: u64 = 0x3ff3_3333_3333_3333;
/// `1.3`
pub const F1_3: u64 = 0x3ff4_cccc_cccc_cccd;
/// `1.5`
pub const F1_5: u64 = 0x3ff8_0000_0000_0000;
/// `1.8`
pub const F1_8: u64 = 0x3ffc_cccc_cccc_cccd;
/// `2.0`
pub const F2_0: u64 = 0x4000_0000_0000_0000;
/// `2.5`
pub const F2_5: u64 = 0x4004_0000_0000_0000;
/// `3.0`
pub const F3_0: u64 = 0x4008_0000_0000_0000;
/// `5.0`
pub const F5_0: u64 = 0x4014_0000_0000_0000;

/// The magnitude bits: exponent and mantissa, without the sign.
pub open spec fn magnitude(b: u64) -> u64 {
    b & 0x7fff_ffff_ffff_ffffu64
}

/// A NaN: all exponent bits set and a nonzero mantissa.
pub open spec fn is_nan_bits(b: u64) -> bool {
    (b >> 52u64) & 0x7ffu64 == 0x7ffu64 && b & 0x000f_ffff_ffff_ffffu64 != 0
}

/// The sign-magnitude reading of a bit pattern, which orders the values
/// that are not NaN as the real numbers (and infinities) they stand for.
pub open spec fn order_key(b: u64) -> int {
    if b >> 63u64 == 1 {
        -(magnitude(b) as int)
    } else {
        magnitude(b) as int
    }
}

/// A finite double: its exponent bits are not all set (neither an
/// infinity nor a NaN).
pub open spec fn is_finite_bits(b: u64) -> bool {
    (b >> 52u64) & 0x7ffu64 != 0x7ffu64
}

/// `-x` on doubles: the sign bit flipped.
pub open spec fn f64_neg(x: u64) -> u64 {
    x ^ 0x8000_0000_0000_0000u64
}

/// `|x|` on doubles: the sign bit cleared.
pub open spec fn f64_abs(x: u64) -> u64 {
    magnitude(x)
}

/// `a < b` on doubles.
pub open spec fn f64_lt(a: u64, b: u64) -> bool {
    !is_nan_bits(a) && !is_nan_bits(b) && order_key(a) < order_key(b)
}

/// `a <= b` on doubles.
pub open spec fn f64_le(a: u64, b: u64) -> bool {
    !is_nan_bits(a) && !is_nan_bits(b) && order_key(a) <= order_key(b)
}

/// `0.0 <= x <= 1.0`, the test of `(0.0..=1.0).contains(&x)`.
pub open spec fn in_unit_interval(x: u64) -> bool {
    f64_le(ZERO, x) && f64_le(x, ONE)
}

/// Negation keeps a NaN a NaN and mirrors every other value about zero.
pub proof fn lemma_neg_mirrors(x: u64)
    ensures
        is_nan_bits(f64_neg(x)) == is_nan_bits(x),
        order_key(f64_neg(x)) == -order_key(x),
{
    let y = x ^ 0x8000_0000_0000_0000u64;
    assert(y & 0x7fff_ffff_ffff_ffffu64 == x & 0x7fff_ffff_ffff_ffffu64) by (bit_vector)
        requires
            y == x ^ 0x8000_0000_0000_0000u64,
    ;
    assert((y >> 63u64 == 1) == !(x >> 63u64 == 1)) by (bit_vector)
        requires
            y == x ^ 0x8000_0000_0000_0000u64,
    ;
    assert((y >> 52u64) & 0x7ffu64 == (x >> 52u64) & 0x7ffu64) by (bit_vector)
        requires
            y == x ^ 0x8000_0000_0000_0000u64,
    ;
    assert(y & 0x000f_ffff_ffff_ffffu64 == x & 0x000f_ffff_ffff_ffffu64) by (bit_vector)
        requires
            y == x ^ 0x8000_0000_0000_0000u64,
    ;
}

/// Whether `b` is the bit pattern of a NaN.
pub fn is_nan(b: u64) -> (r: bool)
    ensures
        r == is_nan_bits(b),
{
    (b >> 52u64) & 0x7ffu64 == 0x7ffu64 && b & 0x000f_ffff_ffff_ffffu64 != 0
}

/// The sign-magnitude reading of `b`.
fn key(b: u64) -> (k: i64)
    ensures
        k as int == order_key(b),
{
    let mag: u64 = b & 0x7fff_ffff_ffff_ffffu64;
    assert(mag <= 0x7fff_ffff_ffff_ffffu64) by (bit_vector)
        requires
            mag == b & 0x7fff_ffff_ffff_ffffu64,
    ;
    let m: i64 = mag as i64;
    if b >> 63u64 == 1 {
        -m
    } else {
        m
    }
}

/// Whether `b` is the bit pattern of a finite double.
pub fn is_finite(b: u64) -> (r: bool)
    ensures
        r == is_finite_bits(b),
{
    (b >> 52u64) & 0x7ffu64 != 0x7ffu64
}

/// `-x` on the double whose bit pattern is `x`.
pub fn neg(x: u64) -> (r: u64)
    ensures
        r == f64_neg(x),
{
    x ^ 0x8000_0000_0000_0000u64
}

/// `|x|` on the double whose bit pattern is `x`.
pub fn abs(x: u64) -> (r: u64)
    ensures
        r == f64_abs(x),
{
    x & 0x7fff_ffff_ffff_ffffu64
}

/// `a < b` on the doubles whose bit patterns are `a` and `b`.
pub fn lt(a: u64, b: u64) -> (r: bool)
    ensures
        r == f64_lt(a, b),
{
    !is_nan(a) && !is_nan(b) && key(a) < key(b)
}

/// `a <= b` on the doubles whose bit patterns are `a` and `b`.
pub fn le(a: u64, b: u64) -> (r: bool)
    ensures
        r == f64_le(a, b),
{
    !is_nan(a) && !is_nan(b) && key(a) <= key(b)
}

/// `0.0 <= x <= 1.0` on the double whose bit pattern is `x`.
pub fn is_in_unit_interval(x: u64) -> (r: bool)
    ensures
        r == in_unit_interval(x),
{
    le(ZERO, x) && le(x, ONE)
}

} // verus!
