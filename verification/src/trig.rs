//! Sine, cosine, square root and arc-tangent of fixed-point numbers, computed
//! by the `cordic` crate on its `I16F16` type.
use crate::fixed_point::{abs, trunc_div, Fxd};
use vstd::prelude::*;

verus! {

/// The raw bits of `(sin, cos)` that `cordic::sin_cos` computes for the angle
/// with raw bits `theta`.
pub uninterp spec fn cordic_sin_cos(theta: i32) -> (i32, i32);

/// The raw bits of the square root that `cordic::sqrt` computes for `x`.
pub uninterp spec fn cordic_sqrt(x: i32) -> i32;

/// The raw bits of the angle that `cordic::atan2` computes for `(y, x)`.
pub uninterp spec fn cordic_atan2(y: i32, x: i32) -> i32;

/// The sine and cosine of an angle in radians.
pub open spec fn sin_of(theta: Fxd) -> Fxd {
    Fxd { bits: cordic_sin_cos(theta.bits).0 }
}

pub open spec fn cos_of(theta: Fxd) -> Fxd {
    Fxd { bits: cordic_sin_cos(theta.bits).1 }
}

pub open spec fn sqrt_of(x: Fxd) -> Fxd {
    Fxd { bits: cordic_sqrt(x.bits) }
}

pub open spec fn atan2_of(y: Fxd, x: Fxd) -> Fxd {
    Fxd { bits: cordic_atan2(y.bits, x.bits) }
}

/// Inputs on which `cordic::sqrt` on `I16F16` returns without overflow: it
/// loops forever on negative numbers and its squaring overflows from 2^14 on.
pub open spec fn sqrt_ok(x: Fxd) -> bool {
    0 <= x.bits < 0x4000_0000
}

/// Inputs on which `cordic::atan2` on `I16F16` is known to return without
/// overflow: neither argument is the most negative value, and when neither is
/// zero the quotient `y / x` stays within 2^14 in magnitude, so that the
/// vectoring iterations, which grow the vector by less than 1.65, stay in range.
pub open spec fn atan2_ok(y: Fxd, x: Fxd) -> bool {
    &&& y.bits != i32::MIN
    &&& x.bits != i32::MIN
    &&& (x.bits == 0 || y.bits == 0 || abs(trunc_div(y.bits * 65536, x.bits as int)) <= 0x4000_0000)
}

/// `cordic::sin_cos`: the sine and cosine of the angle `theta` (radians).
/// Its result is named, not stated: it is the CORDIC approximation that the
/// crate computes, a function of the argument alone.
#[verifier::external_body]
pub(crate) fn cordic_sin_cos_fxd(theta: Fxd) -> (r: (Fxd, Fxd))
    ensures
        r.0.bits == cordic_sin_cos(theta.bits).0,
        r.1.bits == cordic_sin_cos(theta.bits).1,
{
    let (s, c) = cordic::sin_cos(fixed::types::I16F16::from_bits(theta.bits));
    (Fxd { bits: s.to_bits() }, Fxd { bits: c.to_bits() })
}

/// `cordic::sin`, which the crate defines as the first half of `sin_cos`.
#[verifier::external_body]
pub(crate) fn cordic_sin_fxd(theta: Fxd) -> (r: Fxd)
    ensures
        r.bits == cordic_sin_cos(theta.bits).0,
{
    Fxd { bits: cordic::sin(fixed::types::I16F16::from_bits(theta.bits)).to_bits() }
}

/// `cordic::cos`, which the crate defines as the second half of `sin_cos`.
#[verifier::external_body]
pub(crate) fn cordic_cos_fxd(theta: Fxd) -> (r: Fxd)
    ensures
        r.bits == cordic_sin_cos(theta.bits).1,
{
    Fxd { bits: cordic::cos(fixed::types::I16F16::from_bits(theta.bits)).to_bits() }
}

/// `cordic::sqrt`: the square root of `x`, named, not stated; the contract
/// states that the result is not negative (the crate starts from a power of
/// two and only adds smaller powers of two) and that zero and one are
/// returned unchanged.
#[verifier::external_body]
pub(crate) fn cordic_sqrt_fxd(x: Fxd) -> (r: Fxd)
    requires
        sqrt_ok(x),
    ensures
        r.bits == cordic_sqrt(x.bits),
        r.bits >= 0,
        x.bits == 0 ==> r.bits == 0,
        x.bits == 65536 ==> r.bits == 65536,
{
    Fxd { bits: cordic::sqrt(fixed::types::I16F16::from_bits(x.bits)).to_bits() }
}

/// `cordic::atan2`: the angle of the point `(x, y)`, named, not stated; the
/// crate's quadrant cases for a zero argument are stated.
#[verifier::external_body]
pub(crate) fn cordic_atan2_fxd(y: Fxd, x: Fxd) -> (r: Fxd)
    requires
        atan2_ok(y, x),
    ensures
        r.bits == cordic_atan2(y.bits, x.bits),
        x.bits == 0 && y.bits >= 0 ==> r.bits == 102943,
        x.bits == 0 && y.bits < 0 ==> r.bits == -102943,
        x.bits > 0 && y.bits == 0 ==> r.bits == 0,
        x.bits < 0 && y.bits == 0 ==> r.bits == 205887,
{
    Fxd {
        bits: cordic::atan2(
            fixed::types::I16F16::from_bits(y.bits),
            fixed::types::I16F16::from_bits(x.bits),
        ).to_bits(),
    }
}

/// Whether `x` is in the range that the square root accepts.
pub fn sqrt_arg_ok(x: Fxd) -> (r: bool)
    ensures
        r == sqrt_ok(x),
{
    0 <= x.bits && x.bits < 0x4000_0000
}

/// Whether `(y, x)` is in the range that the arc-tangent accepts.
pub fn atan2_args_ok(y: Fxd, x: Fxd) -> (r: bool)
    ensures
        r == atan2_ok(y, x),
{
    if y.bits == i32::MIN || x.bits == i32::MIN {
        return false;
    }
    if x.bits == 0 || y.bits == 0 {
        return true;
    }
    let n: i64 = (y.bits as i64) * 65536;
    let d: i64 = x.bits as i64;
    let na: i64 = if n < 0 { -n } else { n };
    let da: i64 = if d < 0 { -d } else { d };
    let q: i64 = na / da;
    proof {
        assert(abs(trunc_div(y.bits * 65536, x.bits as int)) == q);
    }
    q <= 0x4000_0000
}

} // verus!
