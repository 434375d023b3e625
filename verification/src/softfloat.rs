//! IEEE-754 arithmetic on raw bit patterns, for the floating-point opcode
//! variants. The stack holds floating-point values only as their 32- or
//! 64-bit patterns ("single" and "double" precision), and every operation
//! is carried out in software by `rustc_apfloat`, whose results depend on
//! the operand bits alone. Each operation's result is named by an
//! uninterpreted function of the operand bits.

use rustc_apfloat::ieee::{Double, Single};
use rustc_apfloat::{Float, FloatConvert};
use vstd::prelude::*;

verus! {

pub uninterp spec fn single_add_of(a: u32, b: u32) -> u32;

pub uninterp spec fn single_sub_of(a: u32, b: u32) -> u32;

pub uninterp spec fn single_mul_of(a: u32, b: u32) -> u32;

pub uninterp spec fn single_div_of(a: u32, b: u32) -> u32;

pub uninterp spec fn single_rem_of(a: u32, b: u32) -> u32;

pub uninterp spec fn single_gt(a: u32, b: u32) -> bool;

pub uninterp spec fn double_add_of(a: u64, b: u64) -> u64;

pub uninterp spec fn double_sub_of(a: u64, b: u64) -> u64;

pub uninterp spec fn double_mul_of(a: u64, b: u64) -> u64;

pub uninterp spec fn double_div_of(a: u64, b: u64) -> u64;

pub uninterp spec fn double_rem_of(a: u64, b: u64) -> u64;

pub uninterp spec fn double_gt(a: u64, b: u64) -> bool;

pub uninterp spec fn single_of_i32(v: i32) -> u32;

pub uninterp spec fn single_of_u32(v: u32) -> u32;

pub uninterp spec fn i32_of_single(a: u32) -> i32;

pub uninterp spec fn u32_of_single(a: u32) -> u32;

pub uninterp spec fn double_of_i32(v: i32) -> u64;

pub uninterp spec fn double_of_u32(v: u32) -> u64;

pub uninterp spec fn double_of_single(a: u32) -> u64;

pub uninterp spec fn i32_of_double(a: u64) -> i32;

pub uninterp spec fn u32_of_double(a: u64) -> u32;

pub uninterp spec fn single_of_double(a: u64) -> u32;

/// A single-precision value is zero (of either sign) exactly when all bits
/// but the sign bit are clear.
pub open spec fn single_is_zero(a: u32) -> bool {
    a & 0x7fff_ffff == 0
}

/// A double-precision value is zero (of either sign) exactly when all bits
/// but the sign bit are clear.
pub open spec fn double_is_zero(a: u64) -> bool {
    a & 0x7fff_ffff_ffff_ffff == 0
}

/// Relies on `rustc_apfloat`'s `Add` for `ieee::Single`: IEEE-754 binary32
/// addition, rounding to nearest, ties to even.
#[verifier::external_body]
pub fn single_add(a: u32, b: u32) -> (r: u32)
    ensures
        r == single_add_of(a, b),
{
    (Single::from_bits(a as u128) + Single::from_bits(b as u128)).value.to_bits() as u32
}

/// Relies on `rustc_apfloat`'s `Sub` for `ieee::Single`: IEEE-754 binary32
/// subtraction, rounding to nearest, ties to even.
#[verifier::external_body]
pub fn single_sub(a: u32, b: u32) -> (r: u32)
    ensures
        r == single_sub_of(a, b),
{
    (Single::from_bits(a as u128) - Single::from_bits(b as u128)).value.to_bits() as u32
}

/// Relies on `rustc_apfloat`'s `Mul` for `ieee::Single`: IEEE-754 binary32
/// multiplication, rounding to nearest, ties to even.
#[verifier::external_body]
pub fn single_mul(a: u32, b: u32) -> (r: u32)
    ensures
        r == single_mul_of(a, b),
{
    (Single::from_bits(a as u128) * Single::from_bits(b as u128)).value.to_bits() as u32
}

/// Relies on `rustc_apfloat`'s `Div` for `ieee::Single`: IEEE-754 binary32
/// division, rounding to nearest, ties to even.
#[verifier::external_body]
pub fn single_div(a: u32, b: u32) -> (r: u32)
    ensures
        r == single_div_of(a, b),
{
    (Single::from_bits(a as u128) / Single::from_bits(b as u128)).value.to_bits() as u32
}

/// Relies on `rustc_apfloat`'s `Rem` for `ieee::Single` (`c_fmod`): the
/// remainder with the sign of the dividend, as the C `fmodf` defines it.
#[verifier::external_body]
pub fn single_rem(a: u32, b: u32) -> (r: u32)
    ensures
        r == single_rem_of(a, b),
{
    (Single::from_bits(a as u128) % Single::from_bits(b as u128)).value.to_bits() as u32
}

/// Relies on `rustc_apfloat`'s `PartialOrd` for `ieee::Single`: the IEEE
/// ordering, under which a not-a-number value compares greater than
/// nothing.
#[verifier::external_body]
pub fn single_gt_exec(a: u32, b: u32) -> (r: bool)
    ensures
        r == single_gt(a, b),
{
    Single::from_bits(a as u128) > Single::from_bits(b as u128)
}

/// Relies on `rustc_apfloat`'s `Add` for `ieee::Double`: IEEE-754 binary64
/// addition, rounding to nearest, ties to even.
#[verifier::external_body]
pub fn double_add(a: u64, b: u64) -> (r: u64)
    ensures
        r == double_add_of(a, b),
{
    (Double::from_bits(a as u128) + Double::from_bits(b as u128)).value.to_bits() as u64
}

/// Relies on `rustc_apfloat`'s `Sub` for `ieee::Double`: IEEE-754 binary64
/// subtraction, rounding to nearest, ties to even.
#[verifier::external_body]
pub fn double_sub(a: u64, b: u64) -> (r: u64)
    ensures
        r == double_sub_of(a, b),
{
    (Double::from_bits(a as u128) - Double::from_bits(b as u128)).value.to_bits() as u64
}

/// Relies on `rustc_apfloat`'s `Mul` for `ieee::Double`: IEEE-754 binary64
/// multiplication, rounding to nearest, ties to even.
#[verifier::external_body]
pub fn double_mul(a: u64, b: u64) -> (r: u64)
    ensures
        r == double_mul_of(a, b),
{
    (Double::from_bits(a as u128) * Double::from_bits(b as u128)).value.to_bits() as u64
}

/// Relies on `rustc_apfloat`'s `Div` for `ieee::Double`: IEEE-754 binary64
/// division, rounding to nearest, ties to even.
#[verifier::external_body]
pub fn double_div(a: u64, b: u64) -> (r: u64)
    ensures
        r == double_div_of(a, b),
{
    (Double::from_bits(a as u128) / Double::from_bits(b as u128)).value.to_bits() as u64
}

/// Relies on `rustc_apfloat`'s `Rem` for `ieee::Double` (`c_fmod`): the
/// remainder with the sign of the dividend, as the C `fmod` defines it.
#[verifier::external_body]
pub fn double_rem(a: u64, b: u64) -> (r: u64)
    ensures
        r == double_rem_of(a, b),
{
    (Double::from_bits(a as u128) % Double::from_bits(b as u128)).value.to_bits() as u64
}

/// Relies on `rustc_apfloat`'s `PartialOrd` for `ieee::Double`: the IEEE
/// ordering, under which a not-a-number value compares greater than
/// nothing.
#[verifier::external_body]
pub fn double_gt_exec(a: u64, b: u64) -> (r: bool)
    ensures
        r == double_gt(a, b),
{
    Double::from_bits(a as u128) > Double::from_bits(b as u128)
}

/// Relies on `rustc_apfloat`'s `Float::from_i128` for `ieee::Single`:
/// conversion of a signed integer to the nearest binary32 value.
#[verifier::external_body]
pub fn single_from_i32(v: i32) -> (r: u32)
    ensures
        r == single_of_i32(v),
{
    Single::from_i128(v as i128).value.to_bits() as u32
}

/// Relies on `rustc_apfloat`'s `Float::from_u128` for `ieee::Single`:
/// conversion of an unsigned integer to the nearest binary32 value.
#[verifier::external_body]
pub fn single_from_u32(v: u32) -> (r: u32)
    ensures
        r == single_of_u32(v),
{
    Single::from_u128(v as u128).value.to_bits() as u32
}

/// Relies on `rustc_apfloat`'s `Float::to_i128` for `ieee::Single`:
/// conversion toward zero with deterministic out-of-range results (zero
/// for a not-a-number value, the extreme representable integer on
/// overflow).
#[verifier::external_body]
pub fn single_to_i32(a: u32) -> (r: i32)
    ensures
        r == i32_of_single(a),
{
    Single::from_bits(a as u128).to_i128(32).value as i32
}

/// Relies on `rustc_apfloat`'s `Float::to_u128` for `ieee::Single`:
/// conversion toward zero with deterministic out-of-range results.
#[verifier::external_body]
pub fn single_to_u32(a: u32) -> (r: u32)
    ensures
        r == u32_of_single(a),
{
    Single::from_bits(a as u128).to_u128(32).value as u32
}

/// Relies on `rustc_apfloat`'s `Float::from_i128` for `ieee::Double`:
/// conversion of a signed integer to binary64 (exact for 32-bit inputs).
#[verifier::external_body]
pub fn double_from_i32(v: i32) -> (r: u64)
    ensures
        r == double_of_i32(v),
{
    Double::from_i128(v as i128).value.to_bits() as u64
}

/// Relies on `rustc_apfloat`'s `Float::from_u128` for `ieee::Double`:
/// conversion of an unsigned integer to binary64 (exact for 32-bit
/// inputs).
#[verifier::external_body]
pub fn double_from_u32(v: u32) -> (r: u64)
    ensures
        r == double_of_u32(v),
{
    Double::from_u128(v as u128).value.to_bits() as u64
}

/// Relies on `rustc_apfloat`'s `FloatConvert` from `ieee::Single` to
/// `ieee::Double`: the exact widening of a binary32 value.
#[verifier::external_body]
pub fn single_to_double(a: u32) -> (r: u64)
    ensures
        r == double_of_single(a),
{
    let mut loses_info = false;
    let converted: rustc_apfloat::StatusAnd<Double> = Single::from_bits(a as u128).convert(
        &mut loses_info,
    );
    converted.value.to_bits() as u64
}

/// Relies on `rustc_apfloat`'s `Float::to_i128` for `ieee::Double`:
/// conversion toward zero with deterministic out-of-range results.
#[verifier::external_body]
pub fn double_to_i32(a: u64) -> (r: i32)
    ensures
        r == i32_of_double(a),
{
    Double::from_bits(a as u128).to_i128(32).value as i32
}

/// Relies on `rustc_apfloat`'s `Float::to_u128` for `ieee::Double`:
/// conversion toward zero with deterministic out-of-range results.
#[verifier::external_body]
pub fn double_to_u32(a: u64) -> (r: u32)
    ensures
        r == u32_of_double(a),
{
    Double::from_bits(a as u128).to_u128(32).value as u32
}

/// Relies on `rustc_apfloat`'s `FloatConvert` from `ieee::Double` to
/// `ieee::Single`: rounding to the nearest binary32 value, ties to even.
#[verifier::external_body]
pub fn double_to_single(a: u64) -> (r: u32)
    ensures
        r == single_of_double(a),
{
    let mut loses_info = false;
    let converted: rustc_apfloat::StatusAnd<Single> = Double::from_bits(a as u128).convert(
        &mut loses_info,
    );
    converted.value.to_bits() as u32
}

} // verus!
