//! The sign and classification operations of the soft-float library, on raw
//! IEEE-754 bit patterns. None of them rounds or raises an exception flag.

use vstd::prelude::*;

verus! {

/// Sign bit of a single-precision pattern.
pub const SIGN_SINGLE: u32 = 0x8000_0000;

/// Sign bit of a double-precision pattern.
pub const SIGN_DOUBLE: u64 = 0x8000_0000_0000_0000;

/// Class number of a single-precision pattern: 0 negative infinity, 1 negative
/// normal, 2 negative subnormal, 3 negative zero, 4 positive zero, 5 positive
/// subnormal, 6 positive normal, 7 positive infinity, 8 signalling NaN, 9 quiet
/// NaN.
pub open spec fn spec_class_single(v: u32) -> u8 {
    let exponent = (v >> 23) & 0xff;
    let fraction = v & 0x7f_ffff;
    if exponent == 0xff && fraction != 0 {
        if fraction & 0x40_0000 == 0 {
            8
        } else {
            9
        }
    } else {
        let positive: u8 = if exponent == 0 {
            if fraction == 0 {
                4
            } else {
                5
            }
        } else if exponent == 0xff {
            7
        } else {
            6
        };
        if v >> 31 != 0 {
            (7 - positive) as u8
        } else {
            positive
        }
    }
}

/// Class number of a double-precision pattern, numbered as for single
/// precision.
pub open spec fn spec_class_double(v: u64) -> u8 {
    let exponent = (v >> 52) & 0x7ff;
    let fraction = v & 0xf_ffff_ffff_ffff;
    if exponent == 0x7ff && fraction != 0 {
        if fraction & 0x8_0000_0000_0000 == 0 {
            8
        } else {
            9
        }
    } else {
        let positive: u8 = if exponent == 0 {
            if fraction == 0 {
                4
            } else {
                5
            }
        } else if exponent == 0x7ff {
            7
        } else {
            6
        };
        if v >> 63 != 0 {
            (7 - positive) as u8
        } else {
            positive
        }
    }
}

/// `softfp::F32::negate`: the pattern with its sign bit flipped.
#[verifier::external_body]
pub(crate) fn negate_single(a: u32) -> (r: u32)
    ensures
        r == a ^ SIGN_SINGLE,
{
    softfp::F32::new(a).negate().0
}

/// `softfp::F64::negate`: the pattern with its sign bit flipped.
#[verifier::external_body]
pub(crate) fn negate_double(a: u64) -> (r: u64)
    ensures
        r == a ^ SIGN_DOUBLE,
{
    softfp::F64::new(a).negate().0
}

/// `softfp::F32::copy_sign`: magnitude of `a`, sign of `b`.
#[verifier::external_body]
pub(crate) fn copy_sign_single(a: u32, b: u32) -> (r: u32)
    ensures
        r == (a & !SIGN_SINGLE) | (b & SIGN_SINGLE),
{
    softfp::F32::new(a).copy_sign(softfp::F32::new(b)).0
}

/// `softfp::F64::copy_sign`: magnitude of `a`, sign of `b`.
#[verifier::external_body]
pub(crate) fn copy_sign_double(a: u64, b: u64) -> (r: u64)
    ensures
        r == (a & !SIGN_DOUBLE) | (b & SIGN_DOUBLE),
{
    softfp::F64::new(a).copy_sign(softfp::F64::new(b)).0
}

/// `softfp::F32::copy_sign_negated`: magnitude of `a`, opposite of the sign of
/// `b`.
#[verifier::external_body]
pub(crate) fn copy_sign_negated_single(a: u32, b: u32) -> (r: u32)
    ensures
        r == (a & !SIGN_SINGLE) | (!b & SIGN_SINGLE),
{
    softfp::F32::new(a).copy_sign_negated(softfp::F32::new(b)).0
}

/// `softfp::F64::copy_sign_negated`: magnitude of `a`, opposite of the sign of
/// `b`.
#[verifier::external_body]
pub(crate) fn copy_sign_negated_double(a: u64, b: u64) -> (r: u64)
    ensures
        r == (a & !SIGN_DOUBLE) | (!b & SIGN_DOUBLE),
{
    softfp::F64::new(a).copy_sign_negated(softfp::F64::new(b)).0
}

/// `softfp::F32::copy_sign_xored`: `a` with its sign flipped when `b` is
/// negative.
#[verifier::external_body]
pub(crate) fn copy_sign_xored_single(a: u32, b: u32) -> (r: u32)
    ensures
        r == a ^ (b & SIGN_SINGLE),
{
    softfp::F32::new(a).copy_sign_xored(softfp::F32::new(b)).0
}

/// `softfp::F64::copy_sign_xored`: `a` with its sign flipped when `b` is
/// negative.
#[verifier::external_body]
pub(crate) fn copy_sign_xored_double(a: u64, b: u64) -> (r: u64)
    ensures
        r == a ^ (b & SIGN_DOUBLE),
{
    softfp::F64::new(a).copy_sign_xored(softfp::F64::new(b)).0
}

/// `softfp::F32::classify`, as the class's number.
#[verifier::external_body]
pub(crate) fn classify_single(a: u32) -> (r: u8)
    ensures
        r == spec_class_single(a),
        r < 10,
{
    softfp::F32::new(a).classify() as u8
}

/// `softfp::F64::classify`, as the class's number.
#[verifier::external_body]
pub(crate) fn classify_double(a: u64) -> (r: u8)
    ensures
        r == spec_class_double(a),
        r < 10,
{
    softfp::F64::new(a).classify() as u8
}

} // verus!
