//! IEEE-754 single-precision arithmetic over 32-bit patterns.
//!
//! Verified code cannot compute with hardware floats, so every number in this
//! crate is carried as the bit pattern of an IEEE-754 binary32 value. The
//! operations the filters need are performed by `rustc_apfloat`, a software
//! implementation of the same IEEE-754 semantics that hardware `f32`
//! arithmetic follows (round to nearest, ties to even, for `+ - * /`).

use rustc_apfloat::Float;
use vstd::prelude::*;

verus! {

/// The bit pattern of the IEEE-754 binary32 sum of the numbers `a` and `b` encode.
pub uninterp spec fn single_add(a: u32, b: u32) -> u32;

/// The bit pattern of the IEEE-754 binary32 difference of the numbers `a` and `b` encode.
pub uninterp spec fn single_sub(a: u32, b: u32) -> u32;

/// The bit pattern of the IEEE-754 binary32 product of the numbers `a` and `b` encode.
pub uninterp spec fn single_mul(a: u32, b: u32) -> u32;

/// The bit pattern of the IEEE-754 binary32 quotient of the numbers `a` and `b` encode.
pub uninterp spec fn single_div(a: u32, b: u32) -> u32;

/// The bit pattern of the number `a` encodes, rounded to an integral value toward negative infinity.
pub uninterp spec fn single_floor(a: u32) -> u32;

/// The bit pattern of the number `a` encodes, rounded to an integral value toward positive infinity.
pub uninterp spec fn single_ceil(a: u32) -> u32;

/// The bit pattern of the number `a` encodes, rounded to the nearest integral value, ties away from zero.
pub uninterp spec fn single_round(a: u32) -> u32;

/// The bit pattern of the IEEE-754 binary32 value nearest to the nonnegative integer `n`.
pub uninterp spec fn single_of_int(n: int) -> u32;

/// Relies on `rustc_apfloat::ieee::Single::add_r` with round to nearest, ties
/// to even: IEEE-754 binary32 addition, a function of the two bit patterns alone.
#[verifier::external_body]
pub(crate) fn add_bits(a: u32, b: u32) -> (r: u32)
    ensures
        r == single_add(a, b),
{
    let x = rustc_apfloat::ieee::Single::from_bits(a as u128);
    let y = rustc_apfloat::ieee::Single::from_bits(b as u128);
    x.add_r(y, rustc_apfloat::Round::NearestTiesToEven).value.to_bits() as u32
}

/// Relies on `rustc_apfloat::ieee::Single::sub_r` with round to nearest, ties
/// to even: IEEE-754 binary32 subtraction, a function of the two bit patterns alone.
#[verifier::external_body]
pub(crate) fn sub_bits(a: u32, b: u32) -> (r: u32)
    ensures
        r == single_sub(a, b),
{
    let x = rustc_apfloat::ieee::Single::from_bits(a as u128);
    let y = rustc_apfloat::ieee::Single::from_bits(b as u128);
    x.sub_r(y, rustc_apfloat::Round::NearestTiesToEven).value.to_bits() as u32
}

/// Relies on `rustc_apfloat::ieee::Single::mul_r` with round to nearest, ties
/// to even: IEEE-754 binary32 multiplication, a function of the two bit patterns alone.
#[verifier::external_body]
pub(crate) fn mul_bits(a: u32, b: u32) -> (r: u32)
    ensures
        r == single_mul(a, b),
{
    let x = rustc_apfloat::ieee::Single::from_bits(a as u128);
    let y = rustc_apfloat::ieee::Single::from_bits(b as u128);
    x.mul_r(y, rustc_apfloat::Round::NearestTiesToEven).value.to_bits() as u32
}

/// Relies on `rustc_apfloat::ieee::Single::div_r` with round to nearest, ties
/// to even: IEEE-754 binary32 division, a function of the two bit patterns
/// alone; division by zero yields an infinity or NaN, never an abort.
#[verifier::external_body]
pub(crate) fn div_bits(a: u32, b: u32) -> (r: u32)
    ensures
        r == single_div(a, b),
{
    let x = rustc_apfloat::ieee::Single::from_bits(a as u128);
    let y = rustc_apfloat::ieee::Single::from_bits(b as u128);
    x.div_r(y, rustc_apfloat::Round::NearestTiesToEven).value.to_bits() as u32
}

/// Relies on `rustc_apfloat::ieee::Single::round_to_integral` with rounding
/// toward negative infinity: the floor of the encoded number, a function of
/// the bit pattern alone.
#[verifier::external_body]
pub(crate) fn floor_bits(a: u32) -> (r: u32)
    ensures
        r == single_floor(a),
{
    let x = rustc_apfloat::ieee::Single::from_bits(a as u128);
    x.round_to_integral(rustc_apfloat::Round::TowardNegative).value.to_bits() as u32
}

/// Relies on `rustc_apfloat::ieee::Single::round_to_integral` with rounding
/// toward positive infinity: the ceiling of the encoded number, a function of
/// the bit pattern alone.
#[verifier::external_body]
pub(crate) fn ceil_bits(a: u32) -> (r: u32)
    ensures
        r == single_ceil(a),
{
    let x = rustc_apfloat::ieee::Single::from_bits(a as u128);
    x.round_to_integral(rustc_apfloat::Round::TowardPositive).value.to_bits() as u32
}

/// Relies on `rustc_apfloat::ieee::Single::round_to_integral` with rounding to
/// the nearest integral value, ties away from zero (the rule hardware
/// `f32::round` follows): a function of the bit pattern alone.
#[verifier::external_body]
pub(crate) fn round_bits(a: u32) -> (r: u32)
    ensures
        r == single_round(a),
{
    let x = rustc_apfloat::ieee::Single::from_bits(a as u128);
    x.round_to_integral(rustc_apfloat::Round::NearestTiesToAway).value.to_bits() as u32
}

/// Relies on `rustc_apfloat::ieee::Single::from_u128_r` with round to nearest,
/// ties to even: the binary32 value nearest to `n`, a function of `n` alone.
#[verifier::external_body]
pub(crate) fn from_usize_bits(n: usize) -> (r: u32)
    ensures
        r == single_of_int(n as int),
{
    rustc_apfloat::ieee::Single::from_u128_r(n as u128, rustc_apfloat::Round::NearestTiesToEven)
        .value
        .to_bits() as u32
}

} // verus!
