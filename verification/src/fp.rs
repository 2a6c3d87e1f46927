//! IEEE 754 binary64 values as bit patterns.
//!
//! Every value in this crate that stands for a double-precision number is
//! carried as its bit pattern, a `u64`. The four rounding arithmetic
//! operations and the integer conversion are performed by a software
//! implementation of IEEE 754 behind trusted wrappers; each wrapper's result
//! is named by an uninterpreted spec function of the operand bits, so that
//! the rest of the crate can be verified against exact symbolic contracts.
//! The sign test, magnitude, ordering predicate and square root are ordinary
//! verified code over the bit patterns.

use vstd::prelude::*;

use rustc_apfloat::ieee::Double;
use rustc_apfloat::Float;
use rustc_apfloat::Round;

verus! {

/// Bit pattern of the sign bit.
pub const SIGN_BIT: u64 = 0x8000_0000_0000_0000;

/// Magnitude (bit pattern with the sign bit cleared) of infinity; magnitudes
/// above this are NaNs, magnitudes below it are finite.
pub const MAG_INF: u64 = 0x7FF0_0000_0000_0000;

/// Bit pattern of the smallest positive normal value; positive values below
/// this are subnormal.
pub const MIN_NORMAL: u64 = 0x0010_0000_0000_0000;

/// Bit pattern of the value one.
pub const ONE_BITS: u64 = 0x3FF0_0000_0000_0000;

/// Bit pattern of the value two.
pub const TWO_BITS: u64 = 0x4000_0000_0000_0000;

/// Bit pattern of the value one half.
pub const HALF_BITS: u64 = 0x3FE0_0000_0000_0000;

/// Bit pattern of the canonical quiet NaN.
pub const QNAN_BITS: u64 = 0x7FF8_0000_0000_0000;

/// Bit pattern of 10^-10, the absolute tolerance used both for the
/// reference-eviction test and for the vanishing-variance test.
pub const TOL_BITS: u64 = 0x3DDB_7CDF_D9D7_BDBB;

/// Bit pattern of 2^106, the exact scale factor that lifts a subnormal
/// into the normal range before taking a square root.
pub const POW2_106_BITS: u64 = 0x4690_0000_0000_0000;

/// Bit pattern of 2^-53, the exact factor that undoes half of that scaling
/// after the square root.
pub const POW2_NEG53_BITS: u64 = 0x3CA0_0000_0000_0000;

/// Seed constant for the initial guess of the square-root iteration: adding
/// half the operand's bit pattern to it yields a value whose exponent is
/// about half the operand's.
pub const SQRT_SEED: u64 = 0x1FF7_A3BE_A91D_9B1B;

/// Result bits of IEEE 754 binary64 addition of the two operand bit patterns,
/// rounding to nearest, ties to even.
pub uninterp spec fn add_bits(a: u64, b: u64) -> u64;

/// Result bits of IEEE 754 binary64 subtraction, rounding to nearest, ties to
/// even.
pub uninterp spec fn sub_bits(a: u64, b: u64) -> u64;

/// Result bits of IEEE 754 binary64 multiplication, rounding to nearest, ties
/// to even.
pub uninterp spec fn mul_bits(a: u64, b: u64) -> u64;

/// Result bits of IEEE 754 binary64 division, rounding to nearest, ties to
/// even.
pub uninterp spec fn div_bits(a: u64, b: u64) -> u64;

/// Bits of the IEEE 754 binary64 value nearest to the unsigned integer `n`
/// (ties to even); exact whenever `n` fits in the 53-bit significand.
pub uninterp spec fn of_uint_bits(n: u64) -> u64;

/// Relies on rustc_apfloat's `IeeeFloat::add_r` on `Double` with
/// round-to-nearest-ties-to-even: correctly rounded IEEE 754 binary64
/// addition, determined by the operand bit patterns alone.
#[verifier::external_body]
pub(crate) fn fadd(a: u64, b: u64) -> (r: u64)
    ensures
        r == add_bits(a, b),
{
    let x = Double::from_bits(a as u128);
    let y = Double::from_bits(b as u128);
    x.add_r(y, Round::NearestTiesToEven).value.to_bits() as u64
}

/// Relies on rustc_apfloat's `IeeeFloat::sub_r` on `Double` with
/// round-to-nearest-ties-to-even: correctly rounded IEEE 754 binary64
/// subtraction, determined by the operand bit patterns alone.
#[verifier::external_body]
pub(crate) fn fsub(a: u64, b: u64) -> (r: u64)
    ensures
        r == sub_bits(a, b),
{
    let x = Double::from_bits(a as u128);
    let y = Double::from_bits(b as u128);
    x.sub_r(y, Round::NearestTiesToEven).value.to_bits() as u64
}

/// Relies on rustc_apfloat's `IeeeFloat::mul_r` on `Double` with
/// round-to-nearest-ties-to-even: correctly rounded IEEE 754 binary64
/// multiplication, determined by the operand bit patterns alone.
#[verifier::external_body]
pub(crate) fn fmul(a: u64, b: u64) -> (r: u64)
    ensures
        r == mul_bits(a, b),
{
    let x = Double::from_bits(a as u128);
    let y = Double::from_bits(b as u128);
    x.mul_r(y, Round::NearestTiesToEven).value.to_bits() as u64
}

/// Relies on rustc_apfloat's `IeeeFloat::div_r` on `Double` with
/// round-to-nearest-ties-to-even: correctly rounded IEEE 754 binary64
/// division, determined by the operand bit patterns alone.
#[verifier::external_body]
pub(crate) fn fdiv(a: u64, b: u64) -> (r: u64)
    ensures
        r == div_bits(a, b),
{
    let x = Double::from_bits(a as u128);
    let y = Double::from_bits(b as u128);
    x.div_r(y, Round::NearestTiesToEven).value.to_bits() as u64
}

/// Relies on rustc_apfloat's `IeeeFloat::from_u128_r` on `Double` with
/// round-to-nearest-ties-to-even: the correctly rounded IEEE 754 binary64
/// value of an unsigned integer, determined by the integer alone.
#[verifier::external_body]
pub(crate) fn fp_of_uint(n: u64) -> (r: u64)
    ensures
        r == of_uint_bits(n),
{
    Double::from_u128_r(n as u128, Round::NearestTiesToEven).value.to_bits() as u64
}

/// The magnitude of a bit pattern: the pattern with its sign bit cleared.
/// Since the sign bit is the topmost bit, clearing it is reduction modulo
/// `SIGN_BIT`.
pub open spec fn mag_of(a: u64) -> u64 {
    a % SIGN_BIT
}

/// Whether the bit pattern encodes a NaN.
pub open spec fn is_nan(a: u64) -> bool {
    mag_of(a) > MAG_INF
}

/// Whether the sign bit of the pattern is set. Note that this holds for
/// negative zero as well.
pub open spec fn is_neg(a: u64) -> bool {
    a >= SIGN_BIT
}

/// The IEEE 754 strict ordering `a < b` on bit patterns: false whenever an
/// operand is NaN, the two zeros are equal, and otherwise the sign-magnitude
/// encodings compare in the usual way.
pub open spec fn lt_bits(a: u64, b: u64) -> bool {
    if is_nan(a) || is_nan(b) {
        false
    } else if is_neg(a) && is_neg(b) {
        mag_of(b) < mag_of(a)
    } else if !is_neg(a) && !is_neg(b) {
        mag_of(a) < mag_of(b)
    } else if is_neg(a) {
        !(mag_of(a) == 0 && mag_of(b) == 0)
    } else {
        false
    }
}

/// The absolute value of a binary64 number, computed on its bit pattern by
/// clearing the sign bit. This is the IEEE 754 `abs` operation, which acts on
/// the sign bit alone for every value, NaNs included.
pub fn abs_bits(a: u64) -> (r: u64)
    ensures
        r == mag_of(a),
{
    a % SIGN_BIT
}

/// The IEEE 754 comparison `a < b`, computed on the bit patterns.
pub fn flt(a: u64, b: u64) -> (r: bool)
    ensures
        r == lt_bits(a, b),
{
    let am: u64 = a % SIGN_BIT;
    let bm: u64 = b % SIGN_BIT;
    if am > MAG_INF || bm > MAG_INF {
        false
    } else if a >= SIGN_BIT && b >= SIGN_BIT {
        bm < am
    } else if a < SIGN_BIT && b < SIGN_BIT {
        am < bm
    } else if a >= SIGN_BIT {
        !(am == 0 && bm == 0)
    } else {
        false
    }
}

/// One step of the Newton iteration for the square root of `a`:
/// the mean of `x` and `a / x`.
pub open spec fn newton_refine(a: u64, x: u64) -> u64 {
    mul_bits(HALF_BITS, add_bits(x, div_bits(a, x)))
}

/// Six Newton steps from a bit-level initial guess whose exponent is about
/// half of `a`'s; for positive normal `a` the result agrees with the exact
/// square root to the last unit or two of the significand.
pub open spec fn newton_root(a: u64) -> u64 {
    let x0 = (SQRT_SEED + a / 2) as u64;
    newton_refine(
        a,
        newton_refine(
            a,
            newton_refine(a, newton_refine(a, newton_refine(a, newton_refine(a, x0)))),
        ),
    )
}

/// The square root of a binary64 value, on bit patterns: NaN for NaNs and for
/// negative values other than negative zero, the argument itself for zeros
/// and for positive infinity, and otherwise the Newton iteration, with
/// subnormal arguments first scaled by the exact factor 2^106 and the root
/// scaled back by 2^-53.
pub open spec fn sqrt_full(a: u64) -> u64 {
    if is_nan(a) {
        QNAN_BITS
    } else if is_neg(a) && mag_of(a) != 0 {
        QNAN_BITS
    } else if mag_of(a) == 0 {
        a
    } else if mag_of(a) == MAG_INF {
        a
    } else if a < MIN_NORMAL {
        mul_bits(newton_root(mul_bits(a, POW2_106_BITS)), POW2_NEG53_BITS)
    } else {
        newton_root(a)
    }
}

fn newton_step(a: u64, x: u64) -> (r: u64)
    ensures
        r == newton_refine(a, x),
{
    fmul(HALF_BITS, fadd(x, fdiv(a, x)))
}

fn newton_sqrt(a: u64) -> (r: u64)
    ensures
        r == newton_root(a),
{
    let x0: u64 = SQRT_SEED + a / 2;
    let x1 = newton_step(a, x0);
    let x2 = newton_step(a, x1);
    let x3 = newton_step(a, x2);
    let x4 = newton_step(a, x3);
    let x5 = newton_step(a, x4);
    newton_step(a, x5)
}

/// The square root on bit patterns; see `sqrt_full` for the exact statement.
pub fn fsqrt(a: u64) -> (r: u64)
    ensures
        r == sqrt_full(a),
{
    let m: u64 = a % SIGN_BIT;
    if m > MAG_INF {
        QNAN_BITS
    } else if a >= SIGN_BIT && m != 0 {
        QNAN_BITS
    } else if m == 0 {
        a
    } else if m == MAG_INF {
        a
    } else if a < MIN_NORMAL {
        fmul(newton_sqrt(fmul(a, POW2_106_BITS)), POW2_NEG53_BITS)
    } else {
        newton_sqrt(a)
    }
}

} // verus!
