//! Semantics of IEEE-754 double-precision values carried as raw `u64` bit
//! patterns: sign / exponent / fraction fields, the `<` ordering, the
//! "missing value" test (not finite), and addition.
//!
//! Comparison and finiteness are pure functions of the bit fields and are
//! specified and verified here directly.  Addition is performed by an outside
//! software implementation of IEEE-754 arithmetic behind a trusted wrapper.

use vstd::prelude::*;

verus! {

/// The biased exponent field of a double given as bits.
pub open spec fn exp_bits(a: u64) -> u64 {
    (a >> 52) & 0x7ff
}

/// The fraction (significand) field of a double given as bits.
pub open spec fn frac_bits(a: u64) -> u64 {
    a & 0xf_ffff_ffff_ffff
}

/// The sign bit of a double given as bits: 1 for negative.
pub open spec fn sign_bit(a: u64) -> u64 {
    a >> 63
}

/// The magnitude (everything but the sign bit) of a double given as bits.
pub open spec fn mag_bits(a: u64) -> u64 {
    a & 0x7fff_ffff_ffff_ffff
}

/// True iff the bits encode a NaN: exponent all ones, fraction non-zero.
pub open spec fn is_nan(a: u64) -> bool {
    exp_bits(a) == 0x7ff && frac_bits(a) != 0
}

/// True iff the bits do not encode a finite value (an infinity or a NaN).
/// A non-finite feature value is treated as missing by the engine.
pub open spec fn is_missing(a: u64) -> bool {
    exp_bits(a) == 0x7ff
}

/// The IEEE-754 `<` ordering on doubles given as bits: false whenever either
/// operand is NaN, the two zeroes are equal, negatives are ordered by
/// descending magnitude and positives by ascending magnitude.
pub open spec fn double_lt(a: u64, b: u64) -> bool {
    if is_nan(a) || is_nan(b) {
        false
    } else if mag_bits(a) == 0 && mag_bits(b) == 0 {
        false
    } else if sign_bit(a) != sign_bit(b) {
        sign_bit(a) == 1
    } else if sign_bit(a) == 0 {
        mag_bits(a) < mag_bits(b)
    } else {
        mag_bits(a) > mag_bits(b)
    }
}

/// Decides `double_lt` on two doubles given as bits.
pub fn lt_double(a: u64, b: u64) -> (r: bool)
    ensures
        r == double_lt(a, b),
{
    let a_exp: u64 = (a >> 52) & 0x7ff;
    let b_exp: u64 = (b >> 52) & 0x7ff;
    let a_nan: bool = a_exp == 0x7ff && (a & 0xf_ffff_ffff_ffff) != 0;
    let b_nan: bool = b_exp == 0x7ff && (b & 0xf_ffff_ffff_ffff) != 0;
    let a_mag: u64 = a & 0x7fff_ffff_ffff_ffff;
    let b_mag: u64 = b & 0x7fff_ffff_ffff_ffff;
    let a_neg: bool = (a >> 63) == 1;
    let b_neg: bool = (b >> 63) == 1;
    proof {
        assert(a >> 63 == 0 || a >> 63 == 1) by (bit_vector);
        assert(b >> 63 == 0 || b >> 63 == 1) by (bit_vector);
    }
    if a_nan || b_nan {
        false
    } else if a_mag == 0 && b_mag == 0 {
        false
    } else if a_neg != b_neg {
        a_neg
    } else if !a_neg {
        a_mag < b_mag
    } else {
        a_mag > b_mag
    }
}

/// Decides `is_missing` on a double given as bits.
pub fn missing_double(a: u64) -> (r: bool)
    ensures
        r == is_missing(a),
{
    ((a >> 52) & 0x7ff) == 0x7ff
}

/// The IEEE-754 sum (round to nearest, ties to even) of two doubles given as
/// bits.  The sum depends on the two bit patterns alone.
pub uninterp spec fn double_sum(a: u64, b: u64) -> u64;

/// Relies on rustc_apfloat's `ieee::Double`: `from_bits`, `+` (which rounds to
/// nearest, ties to even) and `to_bits` together compute the IEEE-754 sum of
/// the two argument bit patterns, a function of those bit patterns alone.
#[verifier::external_body]
pub fn add_double(a: u64, b: u64) -> (r: u64)
    ensures
        r == double_sum(a, b),
{
    let x = <rustc_apfloat::ieee::Double as rustc_apfloat::Float>::from_bits(a as u128);
    let y = <rustc_apfloat::ieee::Double as rustc_apfloat::Float>::from_bits(b as u128);
    <rustc_apfloat::ieee::Double as rustc_apfloat::Float>::to_bits((x + y).value) as u64
}

} // verus!
