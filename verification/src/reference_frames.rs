//! Three-phase (ABC), alpha-beta (Clarke), direct-quadrature-zero (Park) and
//! polar representations of electrical quantities, and the transformations
//! between them.
use crate::fixed_point::{
    abs, fx_add, fx_div, fx_mul, fx_neg, fx_sub, fxd_of, modulus32, trunc_div, wrap_i32, Fxd, NEG_ONE_HALF_BITS,
    ONE_THIRD_BITS, SQRT_2_BITS,
    SQRT_3_OVER_2_BITS, SQRT_3_OVER_3_BITS, TWO_PI_OVER_THREE_BITS, TWO_THIRDS_BITS, ZERO_BITS,
};
use crate::trig::{
    atan2_of, atan2_ok, cordic_atan2_fxd, cordic_cos_fxd, cordic_sin_cos_fxd, cordic_sin_fxd,
    cordic_sqrt_fxd, cos_of, sin_of, sqrt_of, sqrt_ok,
};
use vstd::prelude::*;

verus! {

pub open spec fn fxc(bits: i32) -> Fxd {
    Fxd { bits }
}

pub open spec fn zero() -> Fxd {
    fxc(ZERO_BITS)
}

/* ABC three-phase values */

/// Values of the three phases a, b and c.
#[derive(Clone, Copy, PartialEq, Eq, Structural, Debug)]
pub struct ABC {
    pub a: Fxd,
    pub b: Fxd,
    pub c: Fxd,
}

/// Conversion to and from three-phase values.
pub trait ToFromABC: Sized {
    /// The three-phase values on which `from_abc` is defined.
    spec fn from_abc_ok(a: Fxd, b: Fxd, c: Fxd) -> bool;

    fn to_abc(&self) -> ABC;

    fn from_abc(a: Fxd, b: Fxd, c: Fxd) -> Self
        requires
            Self::from_abc_ok(a, b, c),
    ;
}

/* Polar coordinate values */

/// A phasor given by its RMS magnitude `r` and its angle `theta` (radians).
#[derive(Clone, Copy, PartialEq, Eq, Structural, Debug)]
pub struct Polar {
    pub r: Fxd,
    pub theta: Fxd,
}

/// Conversion to and from polar values.
pub trait ToFromPolar: Sized {
    /// The values on which `to_polar` is defined.
    spec fn to_polar_ok(&self) -> bool;

    fn to_polar(&self) -> Polar
        requires
            self.to_polar_ok(),
    ;

    fn from_polar(r: Fxd, theta: Fxd) -> Self;
}

/* Alpha-beta reference frame values */

/// Values in the stationary alpha-beta frame; `gamma` is the zero-sequence part.
#[derive(Clone, Copy, PartialEq, Eq, Structural, Debug)]
pub struct AlphaBeta {
    pub alpha: Fxd,
    pub beta: Fxd,
    pub gamma: Fxd,
}

/// Conversion to and from alpha-beta values.
pub trait ToFromAlphaBeta: Sized {
    /// The alpha-beta values on which `from_ab` is defined.
    spec fn from_ab_ok(alpha: Fxd, beta: Fxd, gamma: Fxd) -> bool;

    fn to_ab(&self) -> AlphaBeta;

    fn from_ab(alpha: Fxd, beta: Fxd, gamma: Fxd) -> Self
        requires
            Self::from_ab_ok(alpha, beta, gamma),
    ;
}

/* Direct-quadrature-zero reference frame values */

/// Values in the rotating direct-quadrature frame; `z` is the zero-sequence part.
#[derive(Clone, Copy, PartialEq, Eq, Structural, Debug)]
pub struct DQZ {
    pub d: Fxd,
    pub q: Fxd,
    pub z: Fxd,
}

/// Conversion to and from DQZ values, relative to the frame angle in `sin_cos`.
pub trait ToFromDQZ: Sized {
    /// The DQZ values on which `from_dqz` is defined.
    spec fn from_dqz_ok(d: Fxd, q: Fxd, z: Fxd, sin_cos: SinCos) -> bool;

    fn to_dqz(&self, sin_cos: &SinCos) -> DQZ;

    fn from_dqz(d: Fxd, q: Fxd, z: Fxd, sin_cos: &SinCos) -> Self
        requires
            Self::from_dqz_ok(d, q, z, *sin_cos),
    ;
}

/* Sine and cosine pairs */

/// The sine and cosine of the angle `theta`, kept together.
#[derive(Clone, Copy, PartialEq, Eq, Structural, Debug)]
pub struct SinCos {
    pub sin_val: Fxd,
    pub cos_val: Fxd,
    pub theta: Fxd,
}

/// Construction and 120-degree rotations of sine and cosine pairs.
pub trait Trig: Sized {
    fn from_theta(theta: Fxd) -> Self;

    fn rotate_right_120(&self) -> Self;

    fn rotate_left_120(&self) -> Self;

    fn flip_theta(&self) -> Self;
}

/// Access to the parts of a sine and cosine pair.
pub trait SinCosValues {
    fn sin_value(&self) -> Fxd;

    fn cos_value(&self) -> Fxd;

    fn theta_value(&self) -> Fxd;
}

/* The transformations, stated over the fixed-point operations */

pub open spec fn sin_cos_of(theta: Fxd) -> SinCos {
    SinCos { sin_val: sin_of(theta), cos_val: cos_of(theta), theta }
}

/// The pair for `theta + 2 pi / 3`, by the angle-sum identities.
pub open spec fn rotated_right(s: SinCos) -> SinCos {
    SinCos {
        sin_val: fx_add(
            fx_mul(fxc(NEG_ONE_HALF_BITS), s.sin_val),
            fx_mul(fxc(SQRT_3_OVER_2_BITS), s.cos_val),
        ),
        cos_val: fx_sub(
            fx_mul(fxc(NEG_ONE_HALF_BITS), s.cos_val),
            fx_mul(fxc(SQRT_3_OVER_2_BITS), s.sin_val),
        ),
        theta: fx_add(s.theta, fxc(TWO_PI_OVER_THREE_BITS)),
    }
}

/// The pair for `theta - 2 pi / 3`, by the angle-difference identities.
pub open spec fn rotated_left(s: SinCos) -> SinCos {
    SinCos {
        sin_val: fx_sub(
            fx_mul(fxc(NEG_ONE_HALF_BITS), s.sin_val),
            fx_mul(fxc(SQRT_3_OVER_2_BITS), s.cos_val),
        ),
        cos_val: fx_add(
            fx_mul(fxc(NEG_ONE_HALF_BITS), s.cos_val),
            fx_mul(fxc(SQRT_3_OVER_2_BITS), s.sin_val),
        ),
        theta: fx_sub(s.theta, fxc(TWO_PI_OVER_THREE_BITS)),
    }
}

/// The pair for `-theta`.
pub open spec fn flipped(s: SinCos) -> SinCos {
    SinCos { sin_val: fx_neg(s.sin_val), cos_val: s.cos_val, theta: fx_neg(s.theta) }
}

/// The Clarke transformation (amplitude invariant).
pub open spec fn abc_to_ab(a: Fxd, b: Fxd, c: Fxd) -> AlphaBeta {
    AlphaBeta {
        alpha: fx_sub(
            fx_sub(fx_mul(fxc(TWO_THIRDS_BITS), a), fx_mul(fxc(ONE_THIRD_BITS), b)),
            fx_mul(fxc(ONE_THIRD_BITS), c),
        ),
        beta: fx_mul(fx_sub(b, c), fxc(SQRT_3_OVER_3_BITS)),
        gamma: fx_mul(fxc(ONE_THIRD_BITS), fx_add(fx_add(a, b), c)),
    }
}

/// The inverse Clarke transformation.
pub open spec fn ab_to_abc(alpha: Fxd, beta: Fxd, gamma: Fxd) -> ABC {
    ABC {
        a: fx_add(alpha, gamma),
        b: fx_add(
            fx_add(fx_mul(fxc(NEG_ONE_HALF_BITS), alpha), fx_mul(fxc(SQRT_3_OVER_2_BITS), beta)),
            gamma,
        ),
        c: fx_add(
            fx_sub(fx_mul(fxc(NEG_ONE_HALF_BITS), alpha), fx_mul(fxc(SQRT_3_OVER_2_BITS), beta)),
            gamma,
        ),
    }
}

/// The Park transformation of alpha-beta values.
pub open spec fn ab_to_dqz(alpha: Fxd, beta: Fxd, gamma: Fxd, s: SinCos) -> DQZ {
    DQZ {
        d: fx_add(fx_mul(s.cos_val, alpha), fx_mul(s.sin_val, beta)),
        q: fx_sub(fx_mul(s.cos_val, beta), fx_mul(s.sin_val, alpha)),
        z: gamma,
    }
}

/// The inverse Park transformation to alpha-beta values.
pub open spec fn dqz_to_ab(d: Fxd, q: Fxd, z: Fxd, s: SinCos) -> AlphaBeta {
    AlphaBeta {
        alpha: fx_sub(fx_mul(s.cos_val, d), fx_mul(s.sin_val, q)),
        beta: fx_add(fx_mul(s.sin_val, d), fx_mul(s.cos_val, q)),
        gamma: z,
    }
}

/// The direct three-phase to DQZ transformation.
pub open spec fn abc_to_dqz(a: Fxd, b: Fxd, c: Fxd, s: SinCos) -> DQZ {
    let left = rotated_left(s);
    let right = rotated_right(s);
    DQZ {
        d: fx_mul(
            fxc(TWO_THIRDS_BITS),
            fx_add(
                fx_add(fx_mul(s.sin_val, a), fx_mul(left.sin_val, b)),
                fx_mul(right.sin_val, c),
            ),
        ),
        q: fx_mul(
            fxc(TWO_THIRDS_BITS),
            fx_add(
                fx_add(fx_mul(s.cos_val, a), fx_mul(left.cos_val, b)),
                fx_mul(right.cos_val, c),
            ),
        ),
        z: fx_mul(fxc(ONE_THIRD_BITS), fx_add(fx_add(a, b), c)),
    }
}

/// The DQZ to three-phase transformation, the inverse of `abc_to_dqz`: phase
/// b uses the pair rotated left by 120 degrees, phase c the pair rotated
/// right.
pub open spec fn dqz_to_abc(d: Fxd, q: Fxd, z: Fxd, s: SinCos) -> ABC {
    let left = rotated_left(s);
    let right = rotated_right(s);
    ABC {
        a: fx_add(fx_add(fx_mul(s.sin_val, d), fx_mul(s.cos_val, q)), z),
        b: fx_add(fx_add(fx_mul(left.sin_val, d), fx_mul(left.cos_val, q)), z),
        c: fx_add(fx_add(fx_mul(right.sin_val, d), fx_mul(right.cos_val, q)), z),
    }
}

/// Balanced three-phase values of magnitude `r` at angle `theta`.
pub open spec fn polar_to_abc(r: Fxd, theta: Fxd) -> ABC {
    let s = sin_cos_of(theta);
    ABC {
        a: fx_mul(r, s.sin_val),
        b: fx_mul(r, rotated_left(s).sin_val),
        c: fx_mul(r, rotated_right(s).sin_val),
    }
}

/// Alpha-beta values of the phasor of RMS magnitude `r` at angle `theta`.
pub open spec fn polar_to_ab(r: Fxd, theta: Fxd) -> AlphaBeta {
    AlphaBeta {
        alpha: fx_mul(fx_mul(fxc(SQRT_2_BITS), r), cos_of(theta)),
        beta: fx_mul(fx_mul(fxc(SQRT_2_BITS), r), sin_of(theta)),
        gamma: zero(),
    }
}

/// The sum of squares whose square root is the peak magnitude.
pub open spec fn sum_sq(x: Fxd, y: Fxd) -> Fxd {
    fx_add(fx_mul(x, x), fx_mul(y, y))
}

/// Polar form of balanced alpha-beta values.
pub open spec fn ab_to_polar(alpha: Fxd, beta: Fxd) -> Polar {
    Polar {
        r: fx_div(sqrt_of(sum_sq(alpha, beta)), fxc(SQRT_2_BITS)),
        theta: atan2_of(beta, alpha),
    }
}

pub open spec fn ab_to_polar_ok(alpha: Fxd, beta: Fxd) -> bool {
    sqrt_ok(sum_sq(alpha, beta)) && atan2_ok(beta, alpha)
}

/// DQZ values of the phasor `(r, theta)` in the frame at the angle of `s`.
pub open spec fn polar_to_dqz(r: Fxd, theta: Fxd, s: SinCos) -> DQZ {
    let t = sin_cos_of(fx_add(theta, s.theta));
    DQZ { d: fx_mul(r, t.cos_val), q: fx_mul(r, t.sin_val), z: zero() }
}

/// The numerator and denominator of the angle of DQZ values.
pub open spec fn dqz_angle_y(d: Fxd, q: Fxd, s: SinCos) -> Fxd {
    fx_add(fx_mul(d, s.sin_val), fx_mul(q, s.cos_val))
}

pub open spec fn dqz_angle_x(d: Fxd, q: Fxd, s: SinCos) -> Fxd {
    fx_sub(fx_mul(d, s.cos_val), fx_mul(q, s.sin_val))
}

/// Polar form of balanced DQZ values.
pub open spec fn dqz_to_polar(d: Fxd, q: Fxd, s: SinCos) -> Polar {
    Polar {
        r: fx_div(sqrt_of(sum_sq(d, q)), fxc(SQRT_2_BITS)),
        theta: atan2_of(dqz_angle_y(d, q, s), dqz_angle_x(d, q, s)),
    }
}

pub open spec fn dqz_to_polar_ok(d: Fxd, q: Fxd, s: SinCos) -> bool {
    sqrt_ok(sum_sq(d, q)) && atan2_ok(dqz_angle_y(d, q, s), dqz_angle_x(d, q, s))
}

/// The sine and cosine that `SinCos::from_theta` gives for `theta`.
pub open spec fn sin_of_theta(theta: Fxd) -> Fxd {
    sin_cos_of(theta).sin_val
}

pub open spec fn cos_of_theta(theta: Fxd) -> Fxd {
    sin_cos_of(theta).cos_val
}

/* Shared computations */

fn magnitude(x: Fxd, y: Fxd) -> (r: Fxd)
    requires
        sqrt_ok(sum_sq(x, y)),
    ensures
        r == fx_div(sqrt_of(sum_sq(x, y)), fxc(SQRT_2_BITS)),
        r.bits >= 0,
{
    let s = cordic_sqrt_fxd(x.mul(x).add(y.mul(y)));
    proof {
        let n = s.bits * 65536;
        assert(0 <= n / (SQRT_2_BITS as int) <= n) by (nonlinear_arith)
            requires
                n >= 0,
        ;
        assert(n / (SQRT_2_BITS as int) < 0x8000_0000) by (nonlinear_arith)
            requires
                0 <= n <= 0x7fff_ffff * 65536,
        ;
        assert(trunc_div(n, SQRT_2_BITS as int) == n / (SQRT_2_BITS as int));
    }
    s.div(Fxd { bits: SQRT_2_BITS })
}

fn ab_polar(alpha: Fxd, beta: Fxd) -> (r: Polar)
    requires
        ab_to_polar_ok(alpha, beta),
    ensures
        r == ab_to_polar(alpha, beta),
        r.r.bits >= 0,
{
    Polar { r: magnitude(alpha, beta), theta: cordic_atan2_fxd(beta, alpha) }
}

fn dqz_polar(d: Fxd, q: Fxd, s: &SinCos) -> (r: Polar)
    requires
        dqz_to_polar_ok(d, q, *s),
    ensures
        r == dqz_to_polar(d, q, *s),
        r.r.bits >= 0,
{
    let y = d.mul(s.sin_val).add(q.mul(s.cos_val));
    let x = d.mul(s.cos_val).sub(q.mul(s.sin_val));
    Polar { r: magnitude(d, q), theta: cordic_atan2_fxd(y, x) }
}

fn abc_dqz(a: Fxd, b: Fxd, c: Fxd, s: &SinCos) -> (r: DQZ)
    ensures
        r == abc_to_dqz(a, b, c, *s),
{
    let left = s.rotate_left_120();
    let right = s.rotate_right_120();
    let two_thirds = Fxd { bits: TWO_THIRDS_BITS };
    DQZ {
        d: two_thirds.mul(s.sin_val.mul(a).add(left.sin_val.mul(b)).add(right.sin_val.mul(c))),
        q: two_thirds.mul(s.cos_val.mul(a).add(left.cos_val.mul(b)).add(right.cos_val.mul(c))),
        z: Fxd { bits: ONE_THIRD_BITS }.mul(a.add(b).add(c)),
    }
}

fn dqz_abc(d: Fxd, q: Fxd, z: Fxd, s: &SinCos) -> (r: ABC)
    ensures
        r == dqz_to_abc(d, q, z, *s),
{
    let left = s.rotate_left_120();
    let right = s.rotate_right_120();
    ABC {
        a: s.sin_val.mul(d).add(s.cos_val.mul(q)).add(z),
        b: left.sin_val.mul(d).add(left.cos_val.mul(q)).add(z),
        c: right.sin_val.mul(d).add(right.cos_val.mul(q)).add(z),
    }
}

fn ab_dqz(alpha: Fxd, beta: Fxd, gamma: Fxd, s: &SinCos) -> (r: DQZ)
    ensures
        r == ab_to_dqz(alpha, beta, gamma, *s),
{
    let d = s.cos_val.mul(alpha).add(s.sin_val.mul(beta));
    let q = s.cos_val.mul(beta).sub(s.sin_val.mul(alpha));
    DQZ { d, q, z: gamma }
}

fn dqz_ab(d: Fxd, q: Fxd, z: Fxd, s: &SinCos) -> (r: AlphaBeta)
    ensures
        r == dqz_to_ab(d, q, z, *s),
{
    AlphaBeta {
        alpha: s.cos_val.mul(d).sub(s.sin_val.mul(q)),
        beta: s.sin_val.mul(d).add(s.cos_val.mul(q)),
        gamma: z,
    }
}

fn polar_dqz(r: Fxd, theta: Fxd, s: &SinCos) -> (out: DQZ)
    ensures
        out == polar_to_dqz(r, theta, *s),
{
    let t = SinCos::from_theta(theta.add(s.theta));
    DQZ { d: r.mul(t.cos_val), q: r.mul(t.sin_val), z: Fxd { bits: ZERO_BITS } }
}

/* ABC */

impl ToFromAlphaBeta for ABC {
    open spec fn from_ab_ok(alpha: Fxd, beta: Fxd, gamma: Fxd) -> bool {
        true
    }

    fn to_ab(&self) -> (r: AlphaBeta)
        ensures
            r == abc_to_ab(self.a, self.b, self.c),
    {
        let third = Fxd { bits: ONE_THIRD_BITS };
        let alpha = Fxd { bits: TWO_THIRDS_BITS }.mul(self.a).sub(third.mul(self.b)).sub(
            third.mul(self.c),
        );
        let beta = self.b.sub(self.c).mul(Fxd { bits: SQRT_3_OVER_3_BITS });
        let gamma = third.mul(self.a.add(self.b).add(self.c));
        AlphaBeta { alpha, beta, gamma }
    }

    fn from_ab(alpha: Fxd, beta: Fxd, gamma: Fxd) -> (r: ABC)
        ensures
            r == ab_to_abc(alpha, beta, gamma),
    {
        let neg_half = Fxd { bits: NEG_ONE_HALF_BITS };
        let s32 = Fxd { bits: SQRT_3_OVER_2_BITS };
        let a = alpha.add(gamma);
        let b = neg_half.mul(alpha).add(s32.mul(beta)).add(gamma);
        let c = neg_half.mul(alpha).sub(s32.mul(beta)).add(gamma);
        ABC { a, b, c }
    }
}

impl ToFromDQZ for ABC {
    open spec fn from_dqz_ok(d: Fxd, q: Fxd, z: Fxd, sin_cos: SinCos) -> bool {
        true
    }

    fn to_dqz(&self, sin_cos: &SinCos) -> (r: DQZ)
        ensures
            r == abc_to_dqz(self.a, self.b, self.c, *sin_cos),
    {
        abc_dqz(self.a, self.b, self.c, sin_cos)
    }

    fn from_dqz(d: Fxd, q: Fxd, z: Fxd, sin_cos: &SinCos) -> (r: ABC)
        ensures
            r == dqz_to_abc(d, q, z, *sin_cos),
    {
        dqz_abc(d, q, z, sin_cos)
    }
}

impl ToFromPolar for ABC {
    /// Only balanced values, whose zero-sequence part vanishes, have a polar form.
    open spec fn to_polar_ok(&self) -> bool {
        let ab = abc_to_ab(self.a, self.b, self.c);
        ab.gamma == zero() && ab_to_polar_ok(ab.alpha, ab.beta)
    }

    fn to_polar(&self) -> (r: Polar)
        ensures
            r == ab_to_polar(
                abc_to_ab(self.a, self.b, self.c).alpha,
                abc_to_ab(self.a, self.b, self.c).beta,
            ),
            r.r.bits >= 0,
    {
        let ab = self.to_ab();
        ab.to_polar()
    }

    fn from_polar(r: Fxd, theta: Fxd) -> (out: ABC)
        ensures
            out == polar_to_abc(r, theta),
    {
        let sin_cos = SinCos::from_theta(theta);
        ABC {
            a: r.mul(sin_cos.sin_val),
            b: r.mul(sin_cos.rotate_left_120().sin_val),
            c: r.mul(sin_cos.rotate_right_120().sin_val),
        }
    }
}

/* Polar */

impl ToFromABC for Polar {
    open spec fn from_abc_ok(a: Fxd, b: Fxd, c: Fxd) -> bool {
        let ab = abc_to_ab(a, b, c);
        ab.gamma == zero() && ab_to_polar_ok(ab.alpha, ab.beta)
    }

    fn to_abc(&self) -> (out: ABC)
        ensures
            out == polar_to_abc(self.r, self.theta),
    {
        ABC::from_polar(self.r, self.theta)
    }

    fn from_abc(a: Fxd, b: Fxd, c: Fxd) -> (out: Polar)
        ensures
            out == ab_to_polar(abc_to_ab(a, b, c).alpha, abc_to_ab(a, b, c).beta),
            out.r.bits >= 0,
    {
        let abc = ABC { a, b, c };
        abc.to_polar()
    }
}

impl ToFromAlphaBeta for Polar {
    open spec fn from_ab_ok(alpha: Fxd, beta: Fxd, gamma: Fxd) -> bool {
        gamma == zero() && ab_to_polar_ok(alpha, beta)
    }

    fn to_ab(&self) -> (out: AlphaBeta)
        ensures
            out == polar_to_ab(self.r, self.theta),
    {
        AlphaBeta::from_polar(self.r, self.theta)
    }

    fn from_ab(alpha: Fxd, beta: Fxd, gamma: Fxd) -> (out: Polar)
        ensures
            out == ab_to_polar(alpha, beta),
            out.r.bits >= 0,
    {
        assert(Polar::from_ab_ok(alpha, beta, gamma));
        ab_polar(alpha, beta)
    }
}

impl ToFromDQZ for Polar {
    open spec fn from_dqz_ok(d: Fxd, q: Fxd, z: Fxd, sin_cos: SinCos) -> bool {
        z == zero() && dqz_to_polar_ok(d, q, sin_cos)
    }

    fn to_dqz(&self, sin_cos: &SinCos) -> (out: DQZ)
        ensures
            out == polar_to_dqz(self.r, self.theta, *sin_cos),
    {
        polar_dqz(self.r, self.theta, sin_cos)
    }

    fn from_dqz(d: Fxd, q: Fxd, z: Fxd, sin_cos: &SinCos) -> (out: Polar)
        ensures
            out == dqz_to_polar(d, q, *sin_cos),
            out.r.bits >= 0,
    {
        assert(Polar::from_dqz_ok(d, q, z, *sin_cos));
        dqz_polar(d, q, sin_cos)
    }
}

/* AlphaBeta */

impl AlphaBeta {
    /// Balanced alpha-beta values: the zero-sequence part is zero.
    pub fn from_ab_(alpha: Fxd, beta: Fxd) -> (r: AlphaBeta)
        ensures
            r == (AlphaBeta { alpha, beta, gamma: zero() }),
    {
        AlphaBeta { alpha, beta, gamma: Fxd { bits: ZERO_BITS } }
    }
}

impl ToFromABC for AlphaBeta {
    open spec fn from_abc_ok(a: Fxd, b: Fxd, c: Fxd) -> bool {
        true
    }

    fn to_abc(&self) -> (r: ABC)
        ensures
            r == ab_to_abc(self.alpha, self.beta, self.gamma),
    {
        ABC::from_ab(self.alpha, self.beta, self.gamma)
    }

    fn from_abc(a: Fxd, b: Fxd, c: Fxd) -> (r: AlphaBeta)
        ensures
            r == abc_to_ab(a, b, c),
    {
        let abc = ABC { a, b, c };
        abc.to_ab()
    }
}

impl ToFromPolar for AlphaBeta {
    open spec fn to_polar_ok(&self) -> bool {
        self.gamma == zero() && ab_to_polar_ok(self.alpha, self.beta)
    }

    fn to_polar(&self) -> (r: Polar)
        ensures
            r == ab_to_polar(self.alpha, self.beta),
            r.r.bits >= 0,
    {
        assert(self.to_polar_ok());
        ab_polar(self.alpha, self.beta)
    }

    fn from_polar(r: Fxd, theta: Fxd) -> (out: AlphaBeta)
        ensures
            out == polar_to_ab(r, theta),
    {
        let k = Fxd { bits: SQRT_2_BITS }.mul(r);
        AlphaBeta {
            alpha: k.mul(cordic_cos_fxd(theta)),
            beta: k.mul(cordic_sin_fxd(theta)),
            gamma: Fxd { bits: ZERO_BITS },
        }
    }
}

impl ToFromDQZ for AlphaBeta {
    open spec fn from_dqz_ok(d: Fxd, q: Fxd, z: Fxd, sin_cos: SinCos) -> bool {
        true
    }

    fn to_dqz(&self, sin_cos: &SinCos) -> (r: DQZ)
        ensures
            r == ab_to_dqz(self.alpha, self.beta, self.gamma, *sin_cos),
    {
        ab_dqz(self.alpha, self.beta, self.gamma, sin_cos)
    }

    fn from_dqz(d: Fxd, q: Fxd, z: Fxd, sin_cos: &SinCos) -> (r: AlphaBeta)
        ensures
            r == dqz_to_ab(d, q, z, *sin_cos),
    {
        dqz_ab(d, q, z, sin_cos)
    }
}

/* DQZ */

impl DQZ {
    pub fn from_abc(a: Fxd, b: Fxd, c: Fxd, sin_cos: &SinCos) -> (r: DQZ)
        ensures
            r == abc_to_dqz(a, b, c, *sin_cos),
    {
        abc_dqz(a, b, c, sin_cos)
    }

    pub fn to_abc(&self, sin_cos: &SinCos) -> (r: ABC)
        ensures
            r == dqz_to_abc(self.d, self.q, self.z, *sin_cos),
    {
        dqz_abc(self.d, self.q, self.z, sin_cos)
    }

    /// Only balanced values, whose zero-sequence part vanishes, have a polar form.
    pub fn to_polar(&self, sin_cos: &SinCos) -> (r: Polar)
        requires
            self.z == zero(),
            dqz_to_polar_ok(self.d, self.q, *sin_cos),
        ensures
            r == dqz_to_polar(self.d, self.q, *sin_cos),
            r.r.bits >= 0,
    {
        dqz_polar(self.d, self.q, sin_cos)
    }

    pub fn from_polar(r: Fxd, theta: Fxd, sin_cos: &SinCos) -> (out: DQZ)
        ensures
            out == polar_to_dqz(r, theta, *sin_cos),
    {
        polar_dqz(r, theta, sin_cos)
    }

    pub fn to_ab(&self, sin_cos: &SinCos) -> (r: AlphaBeta)
        ensures
            r == dqz_to_ab(self.d, self.q, self.z, *sin_cos),
    {
        dqz_ab(self.d, self.q, self.z, sin_cos)
    }

    pub fn from_ab(alpha: Fxd, beta: Fxd, gamma: Fxd, sin_cos: &SinCos) -> (r: DQZ)
        ensures
            r == ab_to_dqz(alpha, beta, gamma, *sin_cos),
    {
        ab_dqz(alpha, beta, gamma, sin_cos)
    }

    /// The DQZ values of balanced alpha-beta values.
    pub fn from_ab_(alpha: Fxd, beta: Fxd, sin_cos: &SinCos) -> (r: DQZ)
        ensures
            r == ab_to_dqz(alpha, beta, zero(), *sin_cos),
    {
        DQZ::from_ab(alpha, beta, Fxd { bits: ZERO_BITS }, sin_cos)
    }
}

/* SinCos */

impl Trig for SinCos {
    fn from_theta(theta: Fxd) -> (r: SinCos)
        ensures
            r == sin_cos_of(theta),
    {
        let (sin_val, cos_val) = cordic_sin_cos_fxd(theta);
        SinCos { sin_val, cos_val, theta }
    }

    /// Rotates the reference angle by 120 degrees counter-clockwise.
    fn rotate_right_120(&self) -> (r: SinCos)
        ensures
            r == rotated_right(*self),
    {
        let neg_half = Fxd { bits: NEG_ONE_HALF_BITS };
        let s32 = Fxd { bits: SQRT_3_OVER_2_BITS };
        SinCos {
            sin_val: neg_half.mul(self.sin_val).add(s32.mul(self.cos_val)),
            cos_val: neg_half.mul(self.cos_val).sub(s32.mul(self.sin_val)),
            theta: self.theta.add(Fxd { bits: TWO_PI_OVER_THREE_BITS }),
        }
    }

    /// Rotates the reference angle by 120 degrees clockwise.
    fn rotate_left_120(&self) -> (r: SinCos)
        ensures
            r == rotated_left(*self),
    {
        let neg_half = Fxd { bits: NEG_ONE_HALF_BITS };
        let s32 = Fxd { bits: SQRT_3_OVER_2_BITS };
        SinCos {
            sin_val: neg_half.mul(self.sin_val).sub(s32.mul(self.cos_val)),
            cos_val: neg_half.mul(self.cos_val).add(s32.mul(self.sin_val)),
            theta: self.theta.sub(Fxd { bits: TWO_PI_OVER_THREE_BITS }),
        }
    }

    /// Flips the sign of the reference angle.
    fn flip_theta(&self) -> (r: SinCos)
        ensures
            r == flipped(*self),
    {
        SinCos { sin_val: self.sin_val.neg(), cos_val: self.cos_val, theta: self.theta.neg() }
    }
}

impl SinCosValues for SinCos {
    fn sin_value(&self) -> (r: Fxd)
        ensures
            r == self.sin_val,
    {
        self.sin_val
    }

    fn cos_value(&self) -> (r: Fxd)
        ensures
            r == self.cos_val,
    {
        self.cos_val
    }

    fn theta_value(&self) -> (r: Fxd)
        ensures
            r == self.theta,
    {
        self.theta
    }
}

/* Laws of the transformations */

/// Flipping the sign of the reference angle twice gives back the pair.
pub proof fn law_flip_theta_involution(s: SinCos)
    ensures
        flipped(flipped(s)) == s,
{
}

/// Rotating right and then left by 120 degrees (or left and then right)
/// gives back the reference angle.
pub proof fn law_rotate_right_left_theta(s: SinCos)
    ensures
        rotated_left(rotated_right(s)).theta == s.theta,
        rotated_right(rotated_left(s)).theta == s.theta,
{
    let t = s.theta.bits as int;
    let c = TWO_PI_OVER_THREE_BITS as int;
    let r = rotated_right(s).theta;
    let l = rotated_left(s).theta;
    assert(r == fxd_of(t + c));
    assert(l == fxd_of(t - c));
    assert(rotated_left(rotated_right(s)).theta == fxd_of(r.bits - c));
    assert(rotated_right(rotated_left(s)).theta == fxd_of(l.bits + c));
    lemma_wrap_sum(t + c, -c);
    lemma_wrap_sum(t - c, c);
    lemma_wrap_sum(t, 0);
}

/// Wrapping an intermediate sum does not change the wrapped total.
proof fn lemma_wrap_sum(x: int, y: int)
    ensures
        wrap_i32(wrap_i32(x) + y) == wrap_i32(x + y),
        -0x8000_0000 <= wrap_i32(x) < 0x8000_0000,
        (-0x8000_0000 <= x < 0x8000_0000) ==> wrap_i32(x) == x,
{
    let m = modulus32();
    let w = wrap_i32(x);
    assert(w == x % m || w == x % m - m);
    assert((w + y) % m == (x + y) % m) by {
        vstd::arithmetic::div_mod::lemma_mod_add_multiples_vanish(x % m + y, m);
        vstd::arithmetic::div_mod::lemma_add_mod_noop(x, y, m);
        vstd::arithmetic::div_mod::lemma_mod_twice(x, m);
        vstd::arithmetic::div_mod::lemma_add_mod_noop(x % m, y, m);
        if w == x % m - m {
            vstd::arithmetic::div_mod::lemma_mod_sub_multiples_vanish(x % m + y, m);
            assert(w + y == (x % m + y) - m);
        }
    }
    if -0x8000_0000 <= x < 0x8000_0000 {
        if x >= 0 {
            vstd::arithmetic::div_mod::lemma_small_mod(x as nat, m as nat);
        } else {
            vstd::arithmetic::div_mod::lemma_mod_add_multiples_vanish(x, m);
            vstd::arithmetic::div_mod::lemma_small_mod((x + m) as nat, m as nat);
        }
    }
}

/// Balanced three-phase values, whose raw values sum to zero, have no
/// zero-sequence component.
pub proof fn law_balanced_abc_no_gamma(a: Fxd, b: Fxd, c: Fxd)
    requires
        a.bits + b.bits + c.bits == 0,
    ensures
        abc_to_ab(a, b, c).gamma == zero(),
{
    lemma_wrap_sum(a.bits + b.bits, c.bits as int);
    lemma_wrap_sum(0, 0);
    assert(fx_add(fx_add(a, b), c).bits == 0);
    assert((ONE_THIRD_BITS as int * 0) / 65536 == 0);
}

/// In the frame at angle zero (sine zero, cosine one) the Park
/// transformation and its inverse leave the values as they are.
pub proof fn law_park_identity_frame(alpha: Fxd, beta: Fxd, gamma: Fxd)
    ensures
        ab_to_dqz(alpha, beta, gamma, SinCos { sin_val: zero(), cos_val: fxc(65536), theta: zero() })
            == (DQZ { d: alpha, q: beta, z: gamma }),
        dqz_to_ab(alpha, beta, gamma, SinCos { sin_val: zero(), cos_val: fxc(65536), theta: zero() })
            == (AlphaBeta { alpha, beta, gamma }),
{
    assert((65536 * alpha.bits) / 65536 == alpha.bits);
    assert((65536 * beta.bits) / 65536 == beta.bits);
    assert((0 * alpha.bits) / 65536 == 0);
    assert((0 * beta.bits) / 65536 == 0);
    lemma_wrap_sum(alpha.bits as int, 0);
    lemma_wrap_sum(beta.bits as int, 0);
}

/// Converting balanced alpha-beta values to three-phase values and back gives
/// them back to within a few raw units: alpha within 4, beta within
/// `|beta| / 2^18 + 3`, and a zero-sequence part of 0 or -1, when alpha and
/// beta stay below 2^28 in raw units (4096 as values), so that nothing wraps.
pub proof fn law_alpha_beta_abc_round_trip(alpha: Fxd, beta: Fxd)
    requires
        -0x1000_0000 <= alpha.bits <= 0x1000_0000,
        -0x1000_0000 <= beta.bits <= 0x1000_0000,
    ensures
        ({
            let abc = ab_to_abc(alpha, beta, zero());
            let ab = abc_to_ab(abc.a, abc.b, abc.c);
            &&& -4 <= ab.alpha.bits - alpha.bits <= 4
            &&& -3 - abs(beta.bits as int) / 0x40000 <= ab.beta.bits - beta.bits <= 3 + abs(
                beta.bits as int,
            ) / 0x40000
            &&& -1 <= ab.gamma.bits <= 0
        }),
{
    let x = alpha.bits as int;
    let y = beta.bits as int;
    // the three-phase values
    let a0 = (NEG_ONE_HALF_BITS as int * x) / 65536;
    let p0 = (SQRT_3_OVER_2_BITS as int * y) / 65536;
    lemma_wrap_sum(x, 0);
    lemma_wrap_sum(a0, 0);
    lemma_wrap_sum(p0, 0);
    lemma_wrap_sum(a0 + p0, 0);
    lemma_wrap_sum(a0 - p0, 0);
    let abc = ab_to_abc(alpha, beta, zero());
    assert(abc.a.bits == x);
    assert(abc.b.bits == a0 + p0);
    assert(abc.c.bits == a0 - p0);
    let b = a0 + p0;
    let c = a0 - p0;
    // back to alpha-beta
    let t1 = (TWO_THIRDS_BITS as int * x) / 65536;
    let t2 = (ONE_THIRD_BITS as int * b) / 65536;
    let t3 = (ONE_THIRD_BITS as int * c) / 65536;
    lemma_wrap_sum(t1, 0);
    lemma_wrap_sum(t2, 0);
    lemma_wrap_sum(t3, 0);
    lemma_wrap_sum(t1 - t2, 0);
    lemma_wrap_sum(t1 - t2 - t3, 0);
    let dbc = b - c;
    lemma_wrap_sum(dbc, 0);
    let t4 = (dbc * SQRT_3_OVER_3_BITS as int) / 65536;
    lemma_wrap_sum(t4, 0);
    lemma_wrap_sum(x + b, 0);
    lemma_wrap_sum(x + b + c, 0);
    let t5 = (ONE_THIRD_BITS as int * (x + b + c)) / 65536;
    lemma_wrap_sum(t5, 0);
    let ab = abc_to_ab(abc.a, abc.b, abc.c);
    assert(ab.alpha.bits == t1 - t2 - t3);
    assert(ab.beta.bits == t4);
    assert(ab.gamma.bits == t5);
    assert(x + b + c == x + 2 * a0);
    assert(-1 <= x + 2 * a0 <= 0);
    assert(-4 <= t1 - t2 - t3 - x <= 4);
    assert(dbc == 2 * p0);
    assert(-3 - abs(y) / 0x40000 <= t4 - y <= 3 + abs(y) / 0x40000) by (nonlinear_arith)
        requires
            p0 == (56756 * y) / 65536,
            t4 == (dbc * 37837) / 65536,
            dbc == 2 * p0,
            -0x1000_0000 <= y <= 0x1000_0000,
    ;
}

/// The raw arithmetic of the three-phase round trip, before any wrap-around:
/// the first phase comes back within 4 units, the others within the error of
/// the constants.
proof fn lemma_abc_round_trip_raw(x: int, y: int, z: int)
    requires
        -0x1000_0000 <= x <= 0x1000_0000,
        -0x1000_0000 <= y <= 0x1000_0000,
        -0x1000_0000 <= z <= 0x1000_0000,
    ensures
        ({
            let al = (43691 * x) / 65536 - (21845 * y) / 65536 - (21845 * z) / 65536;
            let g = (21845 * (x + y + z)) / 65536;
            let be = ((y - z) * 37837) / 65536;
            let h = (-32768 * al) / 65536;
            let k = (56756 * be) / 65536;
            let e = abs(y - z) / 0x40000 + abs(x + y + z) / 0x20000;
            &&& -4 <= al + g - x <= 4
            &&& -8 - e <= h + k + g - y <= 8 + e
            &&& -8 - e <= h - k + g - z <= 8 + e
        }),
{
    let d = y - z;
    let s = x + y + z;
    let al = (43691 * x) / 65536 - (21845 * y) / 65536 - (21845 * z) / 65536;
    let g = (21845 * s) / 65536;
    let be = (d * 37837) / 65536;
    let h = (-32768 * al) / 65536;
    let k = (56756 * be) / 65536;
    let e1 = abs(d) / 0x40000;
    let e2 = abs(s) / 0x20000;
    assert(0x40000 * e1 <= abs(d) < 0x40000 * e1 + 0x40000);
    assert(0x20000 * e2 <= abs(s) < 0x20000 * e2 + 0x20000);
    let ek = 2 * k - d;
    assert(-4 - e1 <= ek <= 4 + e1) by (nonlinear_arith)
        requires
            be == (d * 37837) / 65536,
            k == (56756 * be) / 65536,
            ek == 2 * k - d,
            -0x2000_0000 <= d <= 0x2000_0000,
            0x40000 * e1 <= abs(d),
            abs(d) < 0x40000 * e1 + 0x40000,
    ;
    // 6 al == 4 x - 2 y - 2 z and 3 g == s up to the constants' error and the rounding
    let ea = 6 * 65536 * al - 65536 * (4 * x - 2 * y - 2 * z);
    assert(2 * s - 393216 <= ea <= 2 * s + 786432 && ea % 2 == 0) by (nonlinear_arith)
        requires
            al == (43691 * x) / 65536 - (21845 * y) / 65536 - (21845 * z) / 65536,
            s == x + y + z,
            ea == 6 * 65536 * al - 65536 * (4 * x - 2 * y - 2 * z),
    ;
    let eg = 3 * 65536 * g - 65536 * s;
    assert(-s - 196608 <= eg <= -s) by (nonlinear_arith)
        requires
            g == (21845 * s) / 65536,
            eg == 3 * 65536 * g - 65536 * s,
    ;
    let eh = 2 * h + al;
    assert(-2 <= eh <= 0);
    let db = h + k + g - y;
    let dc = h - k + g - z;
    let da = al + g - x;
    assert(393216 * da == ea + 2 * eg) by (nonlinear_arith)
        requires
            ea == 6 * 65536 * al - 65536 * (4 * x - 2 * y - 2 * z),
            eg == 3 * 65536 * g - 65536 * s,
            s == x + y + z,
            da == al + g - x,
    ;
    assert(-4 <= da <= 4) by (nonlinear_arith)
        requires
            393216 * da == ea + 2 * eg,
            2 * s - 393216 <= ea <= 2 * s + 786432,
            -s - 196608 <= eg <= -s,
    ;
    assert(2 * 393216 * db == -ea + 393216 * eh + 393216 * ek + 4 * eg) by (nonlinear_arith)
        requires
            ea == 6 * 65536 * al - 65536 * (4 * x - 2 * y - 2 * z),
            eg == 3 * 65536 * g - 65536 * s,
            eh == 2 * h + al,
            ek == 2 * k - d,
            s == x + y + z,
            d == y - z,
            db == h + k + g - y,
    ;
    assert(2 * 393216 * dc == -ea + 393216 * eh - 393216 * ek + 4 * eg) by (nonlinear_arith)
        requires
            ea == 6 * 65536 * al - 65536 * (4 * x - 2 * y - 2 * z),
            eg == 3 * 65536 * g - 65536 * s,
            eh == 2 * h + al,
            ek == 2 * k - d,
            s == x + y + z,
            d == y - z,
            dc == h - k + g - z,
    ;
    assert(-8 - e1 - e2 <= db <= 8 + e1 + e2 && -8 - e1 - e2 <= dc <= 8 + e1 + e2) by (
    nonlinear_arith)
        requires
            2 * 393216 * db == -ea + 393216 * eh + 393216 * ek + 4 * eg,
            2 * 393216 * dc == -ea + 393216 * eh - 393216 * ek + 4 * eg,
            2 * s - 393216 <= ea <= 2 * s + 786432,
            -s - 196608 <= eg <= -s,
            -2 <= eh <= 0,
            -4 - e1 <= ek <= 4 + e1,
            0 <= e1,
            0x20000 * e2 <= abs(s),
            abs(s) < 0x20000 * e2 + 0x20000,
            abs(s) == s || abs(s) == -s,
    ;
}

/// The Clarke transformation of values below 2^28 in raw units, which does not
/// wrap around.
proof fn lemma_abc_to_ab_no_wrap(a: Fxd, b: Fxd, c: Fxd)
    requires
        -0x1000_0000 <= a.bits <= 0x1000_0000,
        -0x1000_0000 <= b.bits <= 0x1000_0000,
        -0x1000_0000 <= c.bits <= 0x1000_0000,
    ensures
        abc_to_ab(a, b, c).alpha.bits == (43691 * a.bits) / 65536 - (21845 * b.bits) / 65536 - (
        21845 * c.bits) / 65536,
        abc_to_ab(a, b, c).beta.bits == ((b.bits - c.bits) * 37837) / 65536,
        abc_to_ab(a, b, c).gamma.bits == (21845 * (a.bits + b.bits + c.bits)) / 65536,
{
    let x = a.bits as int;
    let y = b.bits as int;
    let z = c.bits as int;
    let t1 = (43691 * x) / 65536;
    let t2 = (21845 * y) / 65536;
    let t3 = (21845 * z) / 65536;
    lemma_wrap_sum(t1, 0);
    lemma_wrap_sum(t2, 0);
    lemma_wrap_sum(t3, 0);
    lemma_wrap_sum(t1 - t2, 0);
    lemma_wrap_sum(t1 - t2 - t3, 0);
    lemma_wrap_sum(y - z, 0);
    lemma_wrap_sum(((y - z) * 37837) / 65536, 0);
    lemma_wrap_sum(x + y, 0);
    lemma_wrap_sum(x + y + z, 0);
    lemma_wrap_sum((21845 * (x + y + z)) / 65536, 0);
}

/// The inverse Clarke transformation of values below 2^29 in raw units, which
/// does not wrap around.
proof fn lemma_ab_to_abc_no_wrap(alpha: Fxd, beta: Fxd, gamma: Fxd)
    requires
        -0x2000_0000 <= alpha.bits <= 0x2000_0000,
        -0x2000_0000 <= beta.bits <= 0x2000_0000,
        -0x2000_0000 <= gamma.bits <= 0x2000_0000,
    ensures
        ab_to_abc(alpha, beta, gamma).a.bits == alpha.bits + gamma.bits,
        ab_to_abc(alpha, beta, gamma).b.bits == (-32768 * alpha.bits) / 65536 + (56756
            * beta.bits) / 65536 + gamma.bits,
        ab_to_abc(alpha, beta, gamma).c.bits == (-32768 * alpha.bits) / 65536 - (56756
            * beta.bits) / 65536 + gamma.bits,
{
    let h = (-32768 * alpha.bits) / 65536;
    let k = (56756 * beta.bits) / 65536;
    let g = gamma.bits as int;
    lemma_wrap_sum(h, 0);
    lemma_wrap_sum(k, 0);
    lemma_wrap_sum(alpha.bits + g, 0);
    lemma_wrap_sum(h + k, 0);
    lemma_wrap_sum(h - k, 0);
    lemma_wrap_sum(h + k + g, 0);
    lemma_wrap_sum(h - k + g, 0);
}

/// Three-phase values taken to alpha-beta and back come back to within a few
/// raw units: `a` within 4, `b` and `c` within
/// `8 + |b - c| / 2^18 + |a + b + c| / 2^17` (the last two terms from the
/// rounding of the transformations' constants), when the values stay below
/// 2^28 in raw units (4096 as values), so that nothing wraps.
pub proof fn law_abc_alpha_beta_round_trip(a: Fxd, b: Fxd, c: Fxd)
    requires
        -0x1000_0000 <= a.bits <= 0x1000_0000,
        -0x1000_0000 <= b.bits <= 0x1000_0000,
        -0x1000_0000 <= c.bits <= 0x1000_0000,
    ensures
        ({
            let ab = abc_to_ab(a, b, c);
            let back = ab_to_abc(ab.alpha, ab.beta, ab.gamma);
            let e = abs(b.bits - c.bits) / 0x40000 + abs(a.bits + b.bits + c.bits) / 0x20000;
            &&& -4 <= back.a.bits - a.bits <= 4
            &&& -8 - e <= back.b.bits - b.bits <= 8 + e
            &&& -8 - e <= back.c.bits - c.bits <= 8 + e
        }),
{
    lemma_abc_round_trip_raw(a.bits as int, b.bits as int, c.bits as int);
    lemma_abc_to_ab_no_wrap(a, b, c);
    let ab = abc_to_ab(a, b, c);
    lemma_ab_to_abc_no_wrap(ab.alpha, ab.beta, ab.gamma);
}

/// Three-phase values have a polar form exactly when their alpha-beta values
/// have one, and it is theirs; in particular a non-zero zero-sequence part
/// rules it out.
pub proof fn law_abc_to_polar_through_alpha_beta(abc: ABC)
    ensures
        abc.to_polar_ok() == abc_to_ab(abc.a, abc.b, abc.c).to_polar_ok(),
        abc_to_ab(abc.a, abc.b, abc.c).gamma != zero() ==> !abc.to_polar_ok(),
        Polar::from_abc_ok(abc.a, abc.b, abc.c) == abc.to_polar_ok(),
{
}

/// Alpha-beta values with a non-zero zero-sequence part have no polar form.
pub proof fn law_alpha_beta_to_polar_needs_balance(ab: AlphaBeta)
    ensures
        ab.gamma != zero() ==> !ab.to_polar_ok(),
        Polar::from_ab_ok(ab.alpha, ab.beta, ab.gamma) == ab.to_polar_ok(),
{
}

/// The polar angle of DQZ values is the polar angle of the alpha-beta values
/// they stand for in the same frame, and its range condition is the same.
pub proof fn law_dqz_polar_angle_through_alpha_beta(d: Fxd, q: Fxd, z: Fxd, s: SinCos)
    ensures
        dqz_to_polar(d, q, s).theta == ab_to_polar(
            dqz_to_ab(d, q, z, s).alpha,
            dqz_to_ab(d, q, z, s).beta,
        ).theta,
        atan2_ok(dqz_angle_y(d, q, s), dqz_angle_x(d, q, s)) == atan2_ok(
            dqz_to_ab(d, q, z, s).beta,
            dqz_to_ab(d, q, z, s).alpha,
        ),
{
    crate::fixed_point::law_add_mul_commute(d, s.sin_val);
    crate::fixed_point::law_add_mul_commute(q, s.cos_val);
    crate::fixed_point::law_add_mul_commute(d, s.cos_val);
    crate::fixed_point::law_add_mul_commute(q, s.sin_val);
}

/// Flipping a pair negates its angle and its sine and keeps its cosine.
pub proof fn law_flip_theta_negates_angle(s: SinCos)
    ensures
        flipped(s).theta == fx_neg(s.theta),
        flipped(s).sin_val == fx_neg(s.sin_val),
        flipped(s).cos_val == s.cos_val,
{
}

} // verus!
