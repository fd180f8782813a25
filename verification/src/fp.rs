//! IEEE-754 single-precision scalars, represented by their 32-bit patterns.
//!
//! Every scalar the library computes with is carried as the `u32` bit pattern
//! of an IEEE-754 single-precision value.  Arithmetic on such values is not
//! something the verifier can reason about directly, so the four rounding
//! operations (sum, difference, product, quotient), the conversion from an
//! integer and the conversion from decimal text are taken from an outside
//! software implementation of IEEE-754 and named by uninterpreted spec
//! functions.  Each of those operations is a pure function of the operand bit
//! patterns, so a name is sound.
//!
//! Comparisons and negation, by contrast, are defined by IEEE-754 directly in
//! terms of the bit patterns, in a few lines each; they are implemented here
//! as ordinary verified code with exact specifications.  The square root is
//! implemented and verified in the `sqrt` module.

use rustc_apfloat::Float;
use vstd::prelude::*;

verus! {

/// Bit pattern of positive zero.
pub const POS_ZERO: u32 = 0;

/// Bit pattern of 1.0.
pub const ONE_BITS: u32 = 0x3f80_0000;

/// Bit pattern of 2.0.
pub const TWO_BITS: u32 = 0x4000_0000;

// ---------------------------------------------------------------------------
// Named results of the outside IEEE-754 implementations.
// ---------------------------------------------------------------------------

/// Bit pattern of the IEEE-754 single-precision sum (round to nearest even).
pub uninterp spec fn fp_add(a: u32, b: u32) -> u32;

/// Bit pattern of the IEEE-754 single-precision difference.
pub uninterp spec fn fp_sub(a: u32, b: u32) -> u32;

/// Bit pattern of the IEEE-754 single-precision product.
pub uninterp spec fn fp_mul(a: u32, b: u32) -> u32;

/// Bit pattern of the IEEE-754 single-precision quotient.
pub uninterp spec fn fp_div(a: u32, b: u32) -> u32;

/// Bit pattern of the single-precision value nearest to the integer `n`.
pub uninterp spec fn fp_of_uint(n: usize) -> u32;

/// What the decimal text `s` denotes as a single-precision value, or `None`
/// when the text is not a decimal numeral the parser accepts.
pub uninterp spec fn fp_of_chars(s: Seq<char>) -> Option<u32>;

// ---------------------------------------------------------------------------
// Trusted wrappers around the outside implementations.
// ---------------------------------------------------------------------------

/// Relies on rustc_apfloat's `Single` addition (`IeeeFloat::add_r`, round to
/// nearest even): the sum is a pure function of the operand bit patterns.
#[verifier::external_body]
pub fn add_bits(a: u32, b: u32) -> (r: u32)
    ensures
        r == fp_add(a, b),
{
    let x = rustc_apfloat::ieee::Single::from_bits(a as u128);
    let y = rustc_apfloat::ieee::Single::from_bits(b as u128);
    (x + y).value.to_bits() as u32
}

/// Relies on rustc_apfloat's `Single` subtraction (`IeeeFloat::sub_r`, round
/// to nearest even): a pure function of the operand bit patterns.
#[verifier::external_body]
pub fn sub_bits(a: u32, b: u32) -> (r: u32)
    ensures
        r == fp_sub(a, b),
{
    let x = rustc_apfloat::ieee::Single::from_bits(a as u128);
    let y = rustc_apfloat::ieee::Single::from_bits(b as u128);
    (x - y).value.to_bits() as u32
}

/// Relies on rustc_apfloat's `Single` multiplication (`IeeeFloat::mul_r`,
/// round to nearest even): a pure function of the operand bit patterns.
#[verifier::external_body]
pub fn mul_bits(a: u32, b: u32) -> (r: u32)
    ensures
        r == fp_mul(a, b),
{
    let x = rustc_apfloat::ieee::Single::from_bits(a as u128);
    let y = rustc_apfloat::ieee::Single::from_bits(b as u128);
    (x * y).value.to_bits() as u32
}

/// Relies on rustc_apfloat's `Single` division (`IeeeFloat::div_r`, round to
/// nearest even): a pure function of the operand bit patterns.
#[verifier::external_body]
pub fn div_bits(a: u32, b: u32) -> (r: u32)
    ensures
        r == fp_div(a, b),
{
    let x = rustc_apfloat::ieee::Single::from_bits(a as u128);
    let y = rustc_apfloat::ieee::Single::from_bits(b as u128);
    (x / y).value.to_bits() as u32
}

/// Relies on rustc_apfloat's integer conversion (`IeeeFloat::from_u128_r`,
/// round to nearest even): a pure function of the integer argument.
#[verifier::external_body]
pub fn uint_to_bits(n: usize) -> (r: u32)
    ensures
        r == fp_of_uint(n),
{
    rustc_apfloat::ieee::Single::from_u128(n as u128).value.to_bits() as u32
}

/// Relies on rustc_apfloat's decimal parser (`IeeeFloat::from_str_r`, round
/// to nearest even): it returns a value or an error purely from the text.
#[verifier::external_body]
pub fn parse_component(part: &[char]) -> (r: Option<u32>)
    ensures
        r == fp_of_chars(part@),
{
    let text: String = part.iter().collect();
    match <rustc_apfloat::ieee::Single as core::str::FromStr>::from_str(&text) {
        Ok(v) => Some(v.to_bits() as u32),
        Err(_) => None,
    }
}

// ---------------------------------------------------------------------------
// Comparisons and negation: verified bit-level definitions.
// ---------------------------------------------------------------------------

/// The bit pattern with the sign bit cleared.
pub open spec fn abs_bits(a: u32) -> u32 {
    a & 0x7fff_ffff
}

/// Whether the sign bit is set.
pub open spec fn sign_bit(a: u32) -> bool {
    a & 0x8000_0000 != 0
}

/// Whether `a` encodes a NaN: maximal exponent with a non-zero fraction.
pub open spec fn is_nan_bits(a: u32) -> bool {
    abs_bits(a) > 0x7f80_0000
}

/// IEEE-754 `<` on bit patterns: false on NaN, the two zeros are equal, and
/// otherwise magnitudes order positives upward and negatives downward.
pub open spec fn fp_lt(a: u32, b: u32) -> bool {
    if is_nan_bits(a) || is_nan_bits(b) {
        false
    } else if abs_bits(a) == 0 && abs_bits(b) == 0 {
        false
    } else if sign_bit(a) != sign_bit(b) {
        sign_bit(a)
    } else if !sign_bit(a) {
        abs_bits(a) < abs_bits(b)
    } else {
        abs_bits(a) > abs_bits(b)
    }
}

/// IEEE-754 `<=` on bit patterns.
pub open spec fn fp_le(a: u32, b: u32) -> bool {
    !is_nan_bits(a) && !is_nan_bits(b) && !fp_lt(b, a)
}

/// IEEE-754 `==` on bit patterns: equal bits, or the two zeros; never NaN.
pub open spec fn fp_eq(a: u32, b: u32) -> bool {
    !is_nan_bits(a) && (a == b || (abs_bits(a) == 0 && abs_bits(b) == 0))
}

/// IEEE-754 negation on bit patterns: the sign bit is flipped.
pub open spec fn fp_neg(a: u32) -> u32 {
    a ^ 0x8000_0000
}

pub fn lt_bits(a: u32, b: u32) -> (r: bool)
    ensures
        r == fp_lt(a, b),
{
    let na = a & 0x7fff_ffff;
    let nb = b & 0x7fff_ffff;
    if na > 0x7f80_0000 || nb > 0x7f80_0000 {
        false
    } else if na == 0 && nb == 0 {
        false
    } else if (a & 0x8000_0000 != 0) != (b & 0x8000_0000 != 0) {
        a & 0x8000_0000 != 0
    } else if a & 0x8000_0000 == 0 {
        na < nb
    } else {
        na > nb
    }
}

pub fn le_bits(a: u32, b: u32) -> (r: bool)
    ensures
        r == fp_le(a, b),
{
    let na = a & 0x7fff_ffff;
    let nb = b & 0x7fff_ffff;
    if na > 0x7f80_0000 || nb > 0x7f80_0000 {
        false
    } else {
        !lt_bits(b, a)
    }
}

pub fn neg_bits(a: u32) -> (r: u32)
    ensures
        r == fp_neg(a),
{
    a ^ 0x8000_0000
}

/// `<` is asymmetric: at most one of `a < b` and `b < a` holds.
pub proof fn lemma_fp_lt_asymmetric(a: u32, b: u32)
    ensures
        !(fp_lt(a, b) && fp_lt(b, a)),
{
}

/// Values equal under IEEE-754 `==` are not ordered by `<`.
pub proof fn lemma_fp_eq_not_lt(a: u32, b: u32)
    requires
        fp_eq(a, b),
    ensures
        !fp_lt(a, b),
        !fp_lt(b, a),
{
}

} // verus!
