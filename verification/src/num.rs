//! The numeric layer: IEEE 754 double-precision values represented by their
//! 64-bit encodings.
//!
//! Verified code never holds a floating-point value; every slot of machine
//! memory and every numeric literal is a `u64` carrying the bit pattern of
//! the double it stands for.  The handful of operations whose result cannot
//! be stated in a few lines — rounding arithmetic, decimal parsing,
//! integer conversion — are performed by the software floating-point
//! implementation of the `rustc_apfloat` crate and named here by
//! uninterpreted spec functions: the same encodings always yield the same
//! result, so each is a pure function of its arguments.

use vstd::prelude::*;

use rustc_apfloat::Float;

verus! {

/// The encoding of positive zero.
pub const F64_ZERO: u64 = 0;

/// The double encoded by `a` plus the double encoded by `b`, rounding to
/// nearest, ties to even.
pub uninterp spec fn float_add(a: u64, b: u64) -> u64;

/// The double encoded by `a` minus the double encoded by `b`.
pub uninterp spec fn float_sub(a: u64, b: u64) -> u64;

/// The double encoded by `a` times the double encoded by `b`.
pub uninterp spec fn float_mul(a: u64, b: u64) -> u64;

/// The double encoded by `a` divided by the double encoded by `b`.
pub uninterp spec fn float_div(a: u64, b: u64) -> u64;

/// The C `fmod` remainder of the doubles encoded by `a` and `b`.
pub uninterp spec fn float_rem(a: u64, b: u64) -> u64;

/// The IEEE comparison of the doubles encoded by `a` and `b`:
/// `Some(-1)`, `Some(0)`, `Some(1)` for less, equal, greater, and `None`
/// when either is a NaN.  Zeroes of both signs compare equal.
pub uninterp spec fn float_cmp(a: u64, b: u64) -> Option<i8>;

/// The two encodings of zero: positive and negative.
pub open spec fn is_zero_encoding(a: u64) -> bool {
    a == 0 || a == 0x8000_0000_0000_0000
}

/// The double denoted by a decimal text, rounded to nearest, or `None`
/// when the text is not a well-formed number.
pub uninterp spec fn float_of_decimal(s: Seq<u8>) -> Option<u64>;

/// The double encoded by `a`, truncated toward zero and saturated to the
/// `isize` range; zero for a NaN.
pub uninterp spec fn isize_of_float(a: u64) -> isize;

/// The double encoded by `a`, truncated toward zero and saturated to the
/// `u64` range; zero for a NaN.
pub uninterp spec fn u64_of_float(a: u64) -> u64;

/// The double encoded by `a`, truncated toward zero and saturated to the
/// `u8` range; zero for a NaN.
pub uninterp spec fn u8_of_float(a: u64) -> u8;

/// The encoding of the double nearest to `i`, ties to even.
pub uninterp spec fn float_of_isize(i: isize) -> u64;

/// The encoding of the double nearest to `u`, ties to even.
pub uninterp spec fn float_of_u64(u: u64) -> u64;

/// True when the doubles encoded by `a` and `b` compare equal under IEEE
/// equality.
pub open spec fn float_eq(a: u64, b: u64) -> bool {
    float_cmp(a, b) == Some(0i8)
}

/// True when the double encoded by `a` is a zero of either sign: zero
/// has exactly the two encodings, and they are the only values that
/// compare equal to zero.
pub open spec fn float_is_zero(a: u64) -> bool {
    is_zero_encoding(a)
}

/// True when the double encoded by `a` is an exact integer in `isize`
/// range, in the sense the machine checks: truncating it and converting
/// back compares equal to the original.
pub open spec fn float_is_int(a: u64) -> bool {
    float_eq(a, float_of_isize(isize_of_float(a)))
}

/// True when the double encoded by `a` is an exact non-negative integer in
/// `u64` range, in the same round-trip sense.
pub open spec fn float_is_uint(a: u64) -> bool {
    float_eq(a, float_of_u64(u64_of_float(a)))
}

/// Relies on `rustc_apfloat::ieee::Double::add_r`: correctly rounded IEEE
/// addition of the two encoded doubles.
#[verifier::external_body]
pub(crate) fn exec_float_add(a: u64, b: u64) -> (r: u64)
    ensures
        r == float_add(a, b),
{
    let x = rustc_apfloat::ieee::Double::from_bits(a as u128);
    let y = rustc_apfloat::ieee::Double::from_bits(b as u128);
    x.add_r(y, rustc_apfloat::Round::NearestTiesToEven).value.to_bits() as u64
}

/// Relies on `rustc_apfloat::ieee::Double::sub_r`: correctly rounded IEEE
/// subtraction of the two encoded doubles.
#[verifier::external_body]
pub(crate) fn exec_float_sub(a: u64, b: u64) -> (r: u64)
    ensures
        r == float_sub(a, b),
{
    let x = rustc_apfloat::ieee::Double::from_bits(a as u128);
    let y = rustc_apfloat::ieee::Double::from_bits(b as u128);
    x.sub_r(y, rustc_apfloat::Round::NearestTiesToEven).value.to_bits() as u64
}

/// Relies on `rustc_apfloat::ieee::Double::mul_r`: correctly rounded IEEE
/// multiplication of the two encoded doubles.
#[verifier::external_body]
pub(crate) fn exec_float_mul(a: u64, b: u64) -> (r: u64)
    ensures
        r == float_mul(a, b),
{
    let x = rustc_apfloat::ieee::Double::from_bits(a as u128);
    let y = rustc_apfloat::ieee::Double::from_bits(b as u128);
    x.mul_r(y, rustc_apfloat::Round::NearestTiesToEven).value.to_bits() as u64
}

/// Relies on `rustc_apfloat::ieee::Double::div_r`: correctly rounded IEEE
/// division of the two encoded doubles.
#[verifier::external_body]
pub(crate) fn exec_float_div(a: u64, b: u64) -> (r: u64)
    ensures
        r == float_div(a, b),
{
    let x = rustc_apfloat::ieee::Double::from_bits(a as u128);
    let y = rustc_apfloat::ieee::Double::from_bits(b as u128);
    x.div_r(y, rustc_apfloat::Round::NearestTiesToEven).value.to_bits() as u64
}

/// Relies on `rustc_apfloat::ieee::Double::c_fmod`: the C `fmod` remainder
/// of the two encoded doubles.
#[verifier::external_body]
pub(crate) fn exec_float_rem(a: u64, b: u64) -> (r: u64)
    ensures
        r == float_rem(a, b),
{
    let x = rustc_apfloat::ieee::Double::from_bits(a as u128);
    let y = rustc_apfloat::ieee::Double::from_bits(b as u128);
    x.c_fmod(y).value.to_bits() as u64
}

/// Relies on `rustc_apfloat::ieee::Double::partial_cmp`: IEEE ordering of
/// the two encoded doubles, `None` when either is a NaN, zeroes of both
/// signs equal.  Against positive zero, exactly the two zero encodings
/// compare equal (a NaN compares as nothing, every other value as less
/// or greater).
#[verifier::external_body]
pub(crate) fn exec_float_cmp(a: u64, b: u64) -> (r: Option<i8>)
    ensures
        r == float_cmp(a, b),
        b == 0 ==> (r == Some(0i8) <==> is_zero_encoding(a)),
{
    let x = rustc_apfloat::ieee::Double::from_bits(a as u128);
    let y = rustc_apfloat::ieee::Double::from_bits(b as u128);
    match x.partial_cmp(&y) {
        Some(core::cmp::Ordering::Less) => Some(-1),
        Some(core::cmp::Ordering::Equal) => Some(0),
        Some(core::cmp::Ordering::Greater) => Some(1),
        None => None,
    }
}

/// Relies on `rustc_apfloat::ieee::Double::from_str` (and on
/// `core::str::from_utf8` to view the bytes as text): the correctly
/// rounded double denoted by a decimal text, or `None` when the text is
/// not a number.  Texts long enough to overflow the parser's 32-bit
/// exponent bookkeeping are left out.
#[verifier::external_body]
pub(crate) fn exec_float_of_decimal(s: &[u8]) -> (r: Option<u64>)
    requires
        s@.len() < 0x8000_0000,
    ensures
        r == float_of_decimal(s@),
{
    match core::str::from_utf8(s) {
        Ok(text) => match text.parse::<rustc_apfloat::ieee::Double>() {
            Ok(d) => Some(d.to_bits() as u64),
            Err(_) => None,
        },
        Err(_) => None,
    }
}

/// Relies on `rustc_apfloat::ieee::Double::to_i128_r` with truncation:
/// the encoded double as an `isize`, saturated at the range ends, zero for
/// a NaN.
#[verifier::external_body]
pub(crate) fn exec_isize_of_float(a: u64) -> (r: isize)
    ensures
        r == isize_of_float(a),
{
    let x = rustc_apfloat::ieee::Double::from_bits(a as u128);
    let mut exact = false;
    x.to_i128_r(isize::BITS as usize, rustc_apfloat::Round::TowardZero, &mut exact).value as isize
}

/// Relies on `rustc_apfloat::ieee::Double::to_u128_r` with truncation:
/// the encoded double as a `u64`, saturated at the range ends, zero for a
/// NaN or a negative value.
#[verifier::external_body]
pub(crate) fn exec_u64_of_float(a: u64) -> (r: u64)
    ensures
        r == u64_of_float(a),
{
    let x = rustc_apfloat::ieee::Double::from_bits(a as u128);
    let mut exact = false;
    x.to_u128_r(64, rustc_apfloat::Round::TowardZero, &mut exact).value as u64
}

/// Relies on `rustc_apfloat::ieee::Double::to_u128_r` with truncation at
/// width 8: the encoded double as a byte, saturated to `0..=255`, zero for
/// a NaN or a negative value.
#[verifier::external_body]
pub(crate) fn exec_u8_of_float(a: u64) -> (r: u8)
    ensures
        r == u8_of_float(a),
{
    let x = rustc_apfloat::ieee::Double::from_bits(a as u128);
    let mut exact = false;
    x.to_u128_r(8, rustc_apfloat::Round::TowardZero, &mut exact).value as u8
}

/// Relies on `rustc_apfloat::ieee::Double::from_i128_r`: the double
/// nearest to `i`, ties to even.
#[verifier::external_body]
pub(crate) fn exec_float_of_isize(i: isize) -> (r: u64)
    ensures
        r == float_of_isize(i),
{
    let d = rustc_apfloat::ieee::Double::from_i128_r(
        i as i128,
        rustc_apfloat::Round::NearestTiesToEven,
    );
    d.value.to_bits() as u64
}

/// Relies on `rustc_apfloat::ieee::Double::from_u128_r`: the double
/// nearest to `u`, ties to even.  A value up to 255 converts exactly, so
/// truncating it back yields `u` again, and a nonzero value never
/// converts to a zero.
#[verifier::external_body]
pub(crate) fn exec_float_of_u64(u: u64) -> (r: u64)
    ensures
        r == float_of_u64(u),
        u <= 255 ==> u8_of_float(r) == u as u8,
        1 <= u ==> !float_is_zero(r),
{
    let d = rustc_apfloat::ieee::Double::from_u128_r(
        u as u128,
        rustc_apfloat::Round::NearestTiesToEven,
    );
    d.value.to_bits() as u64
}

/// True when the two encoded doubles compare equal under IEEE equality.
pub fn exec_float_eq(a: u64, b: u64) -> (r: bool)
    ensures
        r == float_eq(a, b),
{
    match exec_float_cmp(a, b) {
        Some(c) => c == 0,
        None => false,
    }
}

/// True when the encoded double compares equal to a zero; used for the
/// machine's truth test and for the string terminator scan.
pub fn exec_float_is_zero(a: u64) -> (r: bool)
    ensures
        r == float_is_zero(a),
{
    match exec_float_cmp(a, F64_ZERO) {
        Some(c) => c == 0,
        None => false,
    }
}

/// True when the encoded double is an exact integer in `isize` range, by
/// the round-trip check.
pub fn exec_float_is_int(a: u64) -> (r: bool)
    ensures
        r == float_is_int(a),
{
    exec_float_eq(a, exec_float_of_isize(exec_isize_of_float(a)))
}

/// True when the encoded double is an exact non-negative integer in `u64`
/// range, by the round-trip check.
pub fn exec_float_is_uint(a: u64) -> (r: bool)
    ensures
        r == float_is_uint(a),
{
    exec_float_eq(a, exec_float_of_u64(exec_u64_of_float(a)))
}

} // verus!
