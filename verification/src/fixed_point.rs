//! Signed fixed-point numbers with 16 integer and 16 fractional bits.
//!
//! A value `x` stands for the rational number `x.bits / 2^16`.  The arithmetic
//! follows the `I16F16` type of the `fixed` crate built without debug
//! assertions: sums, differences, negations and products wrap around on
//! overflow, products round toward negative infinity, quotients round toward
//! zero, and a division or remainder by zero is refused by the contracts.
use vstd::prelude::*;

verus! {

/// 2^32, the modulus of the 32-bit wrap-around.
pub open spec fn modulus32() -> int {
    0x1_0000_0000int
}

/// The two's-complement 32-bit value that `x` wraps around to.
pub open spec fn wrap_i32(x: int) -> int {
    let m = x % modulus32();
    if m >= 0x8000_0000int {
        m - modulus32()
    } else {
        m
    }
}

/// Integer division rounding toward zero (Rust's `/` on signed integers).
pub open spec fn trunc_div(x: int, y: int) -> int {
    let q = abs(x) / abs(y);
    if (x < 0) != (y < 0) {
        -q
    } else {
        q
    }
}

/// Remainder of the division rounding toward zero (Rust's `%`).
pub open spec fn trunc_rem(x: int, y: int) -> int {
    let r = abs(x) % abs(y);
    if x < 0 {
        -r
    } else {
        r
    }
}

pub open spec fn abs(x: int) -> int {
    if x < 0 {
        -x
    } else {
        x
    }
}

/// A fixed-point number with 16 fractional bits, stored as its raw bits.
#[derive(Clone, Copy, PartialEq, Eq, Structural, Debug)]
pub struct Fxd {
    pub bits: i32,
}

/// The fixed-point value whose raw bits are the wrap-around of `x`.
pub open spec fn fxd_of(x: int) -> Fxd {
    Fxd { bits: wrap_i32(x) as i32 }
}

pub open spec fn fx_add(a: Fxd, b: Fxd) -> Fxd {
    fxd_of(a.bits + b.bits)
}

pub open spec fn fx_sub(a: Fxd, b: Fxd) -> Fxd {
    fxd_of(a.bits - b.bits)
}

pub open spec fn fx_neg(a: Fxd) -> Fxd {
    fxd_of(-a.bits)
}

/// Product: the exact product of the raw values scaled back by 2^16, rounded down.
pub open spec fn fx_mul(a: Fxd, b: Fxd) -> Fxd {
    fxd_of((a.bits * b.bits) / 65536)
}

/// Quotient: the raw dividend scaled up by 2^16 and divided rounding toward zero.
pub open spec fn fx_div(a: Fxd, b: Fxd) -> Fxd {
    fxd_of(trunc_div(a.bits * 65536, b.bits as int))
}

/// Remainder of the raw values, with the sign of the dividend.
pub open spec fn fx_rem(a: Fxd, b: Fxd) -> Fxd {
    Fxd { bits: trunc_rem(a.bits as int, b.bits as int) as i32 }
}

pub open spec fn fx_lt(a: Fxd, b: Fxd) -> bool {
    a.bits < b.bits
}

pub open spec fn fx_le(a: Fxd, b: Fxd) -> bool {
    a.bits <= b.bits
}

pub open spec fn fx_is_zero(a: Fxd) -> bool {
    a.bits == 0
}

/// The integer `n` as a fixed-point number.
pub open spec fn fx_int(n: int) -> Fxd {
    fxd_of(n * 65536)
}

/// Reduces a 64-bit intermediate result to its 32-bit wrap-around.
fn wrap_to_i32(x: i64) -> (r: i32)
    requires
        x > i64::MIN,
    ensures
        r as int == wrap_i32(x as int),
{
    let m: i64 = if x >= 0 {
        x % 0x1_0000_0000i64
    } else {
        let t: i64 = (-x) % 0x1_0000_0000i64;
        if t == 0 {
            0
        } else {
            proof {
                let n: int = -(x as int);
                assert(x as int % modulus32() == modulus32() - t) by (nonlinear_arith)
                    requires
                        n == -(x as int),
                        n > 0,
                        t as int == n % 0x1_0000_0000int,
                        t > 0,
                ;
            }
            0x1_0000_0000i64 - t
        }
    };
    proof {
        if x < 0 && m == 0 {
            let n: int = -(x as int);
            assert(x as int % modulus32() == 0) by (nonlinear_arith)
                requires
                    n == -(x as int),
                    n % 0x1_0000_0000int == 0,
            ;
        }
    }
    if m >= 0x8000_0000i64 {
        (m - 0x1_0000_0000i64) as i32
    } else {
        m as i32
    }
}

/// Division of a 64-bit value by 2^16 rounding toward negative infinity.
fn floor_div_65536(p: i64) -> (q: i64)
    requires
        -0x4000_0000_0000_0000 <= p <= 0x4000_0000_0000_0000,
    ensures
        q as int == p as int / 65536,
        -0x4000_0000_0000 <= q <= 0x4000_0000_0000,
{
    if p >= 0 {
        let q: i64 = (p as u64 / 65536u64) as i64;
        q
    } else {
        let m: u64 = ((-p) as u64 + 65535u64) / 65536u64;
        proof {
            let n: int = -(p as int);
            assert((n + 65535) / 65536 == -((-n) / 65536)) by (nonlinear_arith)
                requires
                    n > 0,
            ;
        }
        -(m as i64)
    }
}

impl Fxd {
    /// The fixed-point number with the given raw bits.
    pub fn from_bits(bits: i32) -> (r: Fxd)
        ensures
            r.bits == bits,
    {
        Fxd { bits }
    }

    /// The raw bits of the number.
    pub fn to_bits(self) -> (r: i32)
        ensures
            r == self.bits,
    {
        self.bits
    }

    /// The integer `n` as a fixed-point number (every `i16` is representable).
    pub fn from_int(n: i16) -> (r: Fxd)
        ensures
            r == fx_int(n as int),
            r.bits == n * 65536,
    {
        let r = Fxd { bits: (n as i32) * 65536 };
        proof {
            assert(wrap_i32(n * 65536) == n * 65536);
        }
        r
    }

    pub fn add(self, rhs: Fxd) -> (r: Fxd)
        ensures
            r == fx_add(self, rhs),
    {
        Fxd { bits: wrap_to_i32(self.bits as i64 + rhs.bits as i64) }
    }

    pub fn sub(self, rhs: Fxd) -> (r: Fxd)
        ensures
            r == fx_sub(self, rhs),
    {
        Fxd { bits: wrap_to_i32(self.bits as i64 - rhs.bits as i64) }
    }

    pub fn neg(self) -> (r: Fxd)
        ensures
            r == fx_neg(self),
    {
        Fxd { bits: wrap_to_i32(-(self.bits as i64)) }
    }

    pub fn mul(self, rhs: Fxd) -> (r: Fxd)
        ensures
            r == fx_mul(self, rhs),
    {
        let a = self.bits as i64;
        let b = rhs.bits as i64;
        proof {
            assert(-0x4000_0000_0000_0000 <= a * b <= 0x4000_0000_0000_0000) by (nonlinear_arith)
                requires
                    -0x8000_0000 <= a <= 0x7fff_ffff,
                    -0x8000_0000 <= b <= 0x7fff_ffff,
            ;
        }
        let q = floor_div_65536(a * b);
        Fxd { bits: wrap_to_i32(q) }
    }

    pub fn div(self, rhs: Fxd) -> (r: Fxd)
        requires
            rhs.bits != 0,
        ensures
            r == fx_div(self, rhs),
    {
        let n: i64 = (self.bits as i64) * 65536;
        let d: i64 = rhs.bits as i64;
        let na: u64 = if n < 0 {
            (-n) as u64
        } else {
            n as u64
        };
        let da: u64 = if d < 0 {
            (-d) as u64
        } else {
            d as u64
        };
        let qa: u64 = na / da;
        proof {
            assert(qa <= na) by (nonlinear_arith)
                requires
                    qa == na / da,
                    da >= 1,
            ;
        }
        let q: i64 = if (n < 0) != (d < 0) {
            -(qa as i64)
        } else {
            qa as i64
        };
        Fxd { bits: wrap_to_i32(q) }
    }

    pub fn rem(self, rhs: Fxd) -> (r: Fxd)
        requires
            rhs.bits != 0,
        ensures
            r == fx_rem(self, rhs),
    {
        let a: i64 = self.bits as i64;
        let b: i64 = rhs.bits as i64;
        let aa: u64 = if a < 0 {
            (-a) as u64
        } else {
            a as u64
        };
        let ba: u64 = if b < 0 {
            (-b) as u64
        } else {
            b as u64
        };
        let ra: u64 = aa % ba;
        proof {
            assert(ra < ba);
        }
        let r: i64 = if a < 0 {
            -(ra as i64)
        } else {
            ra as i64
        };
        Fxd { bits: r as i32 }
    }

    pub fn is_zero(self) -> (r: bool)
        ensures
            r == fx_is_zero(self),
    {
        self.bits == 0
    }

    pub fn lt(self, rhs: Fxd) -> (r: bool)
        ensures
            r == fx_lt(self, rhs),
    {
        self.bits < rhs.bits
    }

    pub fn le(self, rhs: Fxd) -> (r: bool)
        ensures
            r == fx_le(self, rhs),
    {
        self.bits <= rhs.bits
    }
}

/// Raw bits of zero.
pub const ZERO_BITS: i32 = 0;

/// Raw bits of one.
pub const ONE_BITS: i32 = 65536;

/// Raw bits of two.
pub const TWO_BITS: i32 = 131072;

/// Raw bits of three.
pub const THREE_BITS: i32 = 196608;

/// Raw bits of the square root of two.
pub const SQRT_2_BITS: i32 = 92682;

/// Raw bits of the square root of three.
pub const SQRT_3_BITS: i32 = 113512;

/// Raw bits of pi.
pub const PI_BITS: i32 = 205887;

/// Raw bits of two times pi.
pub const TWO_PI_BITS: i32 = 411775;

/// Raw bits of one over the square root of two.
pub const ONE_OVER_SQRT_2_BITS: i32 = 46341;

/// Raw bits of two thirds of pi (120 degrees).
pub const TWO_PI_OVER_THREE_BITS: i32 = 137258;

/// Raw bits of the square root of three over three.
pub const SQRT_3_OVER_3_BITS: i32 = 37837;

/// Raw bits of one third.
pub const ONE_THIRD_BITS: i32 = 21845;

/// Raw bits of two thirds.
pub const TWO_THIRDS_BITS: i32 = 43691;

/// Raw bits of one half.
pub const ONE_HALF_BITS: i32 = 32768;

/// Raw bits of one sixth.
pub const ONE_SIXTH_BITS: i32 = 10923;

/// Raw bits of minus one half.
pub const NEG_ONE_HALF_BITS: i32 = -32768;

/// Raw bits of the square root of three over two.
pub const SQRT_3_OVER_2_BITS: i32 = 56756;


/// The product `2 * pi` of the constants is 411774 in raw bits.
pub proof fn lemma_two_pi()
    ensures
        fx_mul(Fxd { bits: TWO_BITS }, Fxd { bits: PI_BITS }).bits == 411774,
{
    assert((131072int * 205887) / 65536 == 411774);
    assert(wrap_i32(411774) == 411774);
}

/// Subtracting a number and adding it back gives the first number again,
/// whatever wraps around in between.
pub proof fn law_sub_then_add_restores(a: Fxd, b: Fxd)
    ensures
        fx_add(fx_sub(a, b), b) == a,
{
    let s = a.bits - b.bits;
    let w = wrap_i32(s);
    assert(w == s - 0x1_0000_0000 || w == s || w == s + 0x1_0000_0000);
    assert(wrap_i32(w + b.bits) == a.bits);
}

/// Sums and products do not depend on the order of their operands.
pub proof fn law_add_mul_commute(a: Fxd, b: Fxd)
    ensures
        fx_add(a, b) == fx_add(b, a),
        fx_mul(a, b) == fx_mul(b, a),
{
    assert(a.bits * b.bits == b.bits * a.bits) by (nonlinear_arith);
}

/// Dividing by `b` and multiplying back by `b` gives the number again up to
/// `|b| / 2^16 + 1` units of the last place, when the quotient fits the
/// fixed-point range (so for every `v` when `|b| >= 1`).
pub proof fn law_div_then_mul_round_trip(v: Fxd, b: Fxd)
    requires
        b.bits != 0,
        abs(v.bits as int) * 65536 <= abs(b.bits as int) * 0x7fff_ffff,
    ensures
        abs(fx_mul(b, fx_div(v, b)).bits - v.bits) * 65536 <= abs(b.bits as int) + 65536,
{
    let i = v.bits as int;
    let bb = b.bits as int;
    let a = abs(i) * 65536;
    let c = abs(bb);
    let qa = a / c;
    let ra = a % c;
    vstd::arithmetic::div_mod::lemma_fundamental_div_mod(a, c);
    vstd::arithmetic::div_mod::lemma_mod_pos_bound(a, c);
    assert(a == c * qa + ra);
    assert(0 <= ra < c);
    assert(0 <= qa <= 0x7fff_ffff) by (nonlinear_arith)
        requires
            c > 0,
            a == c * qa + ra,
            0 <= ra,
            ra < c,
            0 <= a,
            a <= c * 0x7fff_ffff,
    ;
    assert(abs(i * 65536) == a);
    let q = trunc_div(i * 65536, bb);
    assert(q == qa || q == -qa);
    assert(wrap_i32(q) == q);
    assert(fx_div(v, b).bits == q);
    let p = bb * q;
    if i >= 0 {
        assert(p == c * qa) by (nonlinear_arith)
            requires
                p == bb * q,
                (bb > 0 && q == qa && c == bb) || (bb < 0 && q == -qa && c == -bb) || (qa == 0
                    && q == 0),
        ;
        assert(p == i * 65536 - ra);
    } else {
        assert(p == -(c * qa)) by (nonlinear_arith)
            requires
                p == bb * q,
                (bb > 0 && q == -qa && c == bb) || (bb < 0 && q == qa && c == -bb),
        ;
        assert(p == i * 65536 + ra);
    }
    let t = p / 65536;
    assert(65536 * t <= p < 65536 * t + 65536);
    assert(-0x8000_0000 <= t <= 0x7fff_ffff);
    assert(wrap_i32(t) == t);
    assert(fx_mul(b, fx_div(v, b)).bits == t);
}


/// A product that does not wrap around is the floor of the raw product scaled
/// back, and has the sign of the raw product (a product of two units of the
/// last place or more is at least one).
pub(crate) proof fn lemma_fx_mul_no_wrap(a: Fxd, b: Fxd)
    requires
        -0x8000_0000 <= (a.bits * b.bits) / 65536 < 0x8000_0000,
    ensures
        fx_mul(a, b).bits == (a.bits * b.bits) / 65536,
        a.bits * b.bits >= 0 ==> fx_mul(a, b).bits >= 0,
        a.bits * b.bits >= 65536 ==> fx_mul(a, b).bits >= 1,
        a.bits * b.bits < 0 ==> fx_mul(a, b).bits < 0,
        a.bits * b.bits == 0 ==> fx_mul(a, b).bits == 0,
{
    let n = a.bits * b.bits;
    assert(wrap_i32(n / 65536) == n / 65536);
}

/// A quotient by a positive number that does not wrap around keeps the sign
/// of the dividend (or is zero).
pub(crate) proof fn lemma_fx_div_pos_no_wrap(a: Fxd, b: Fxd)
    requires
        b.bits > 0,
        -0x8000_0000 <= trunc_div(a.bits * 65536, b.bits as int) < 0x8000_0000,
    ensures
        fx_div(a, b).bits == trunc_div(a.bits * 65536, b.bits as int),
        a.bits <= 0 ==> fx_div(a, b).bits <= 0,
        a.bits >= 0 ==> fx_div(a, b).bits >= 0,
        a.bits == 0 ==> fx_div(a, b).bits == 0,
{
    let q = trunc_div(a.bits * 65536, b.bits as int);
    assert(wrap_i32(q) == q);
    assert(abs(a.bits * 65536) / abs(b.bits as int) >= 0) by (nonlinear_arith)
        requires
            b.bits > 0,
    ;
    if a.bits == 0 {
        assert(abs(a.bits * 65536) == 0);
        assert(0int / abs(b.bits as int) == 0) by (nonlinear_arith)
            requires
                b.bits > 0,
        ;
    }
}

/// A difference that does not wrap around is the difference of the raw values.
pub(crate) proof fn lemma_fx_sub_no_wrap(a: Fxd, b: Fxd)
    requires
        -0x8000_0000 <= a.bits - b.bits < 0x8000_0000,
    ensures
        fx_sub(a, b).bits == a.bits - b.bits,
{
    assert(wrap_i32(a.bits - b.bits) == a.bits - b.bits);
}

/// Multiplying by zero gives zero, and subtracting zero changes nothing.
pub(crate) proof fn lemma_fx_zero(a: Fxd)
    ensures
        fx_mul(a, Fxd { bits: 0 }).bits == 0,
        fx_mul(Fxd { bits: 0 }, a).bits == 0,
        fx_sub(a, Fxd { bits: 0 }) == a,
        fx_sub(a, a).bits == 0,
{
    assert(a.bits * 0 == 0);
    assert(0 * a.bits == 0);
    assert(wrap_i32(0) == 0);
    assert(wrap_i32(a.bits as int) == a.bits);
}


/// `k (a - b)`: zero when `a` meets `b`; with a positive gain `k` and nothing
/// wrapping around, not negative when `a` is above `b` and negative when it is
/// below.
pub(crate) proof fn lemma_gain_times_gap_sign(k: Fxd, a: Fxd, b: Fxd)
    ensures
        ({
            let r = fx_mul(k, fx_sub(a, b));
            let e = a.bits - b.bits;
            let no_wrap = -0x8000_0000 <= e < 0x8000_0000 && -0x8000_0000 <= (k.bits * e) / 65536
                < 0x8000_0000;
            &&& a == b ==> r.bits == 0
            &&& no_wrap ==> r.bits == (k.bits * e) / 65536
            &&& no_wrap && k.bits > 0 && a.bits > b.bits ==> r.bits >= 0
            &&& no_wrap && k.bits > 0 && a.bits < b.bits ==> r.bits < 0
        }),
{
    let e = a.bits - b.bits;
    if a == b {
        lemma_fx_zero(a);
        lemma_fx_zero(k);
        assert(fx_sub(a, b) == Fxd { bits: 0 });
    }
    if -0x8000_0000 <= e < 0x8000_0000 && -0x8000_0000 <= (k.bits * e) / 65536 < 0x8000_0000 {
        lemma_fx_sub_no_wrap(a, b);
        lemma_fx_mul_no_wrap(k, fx_sub(a, b));
        if k.bits > 0 && e > 0 {
            assert(k.bits * e > 0) by (nonlinear_arith)
                requires
                    k.bits > 0,
                    e > 0,
            ;
        }
        if k.bits > 0 && e < 0 {
            assert(k.bits * e < 0) by (nonlinear_arith)
                requires
                    k.bits > 0,
                    e < 0,
            ;
        }
    }
}

/// `1 - k (a - b)`: one when `a` meets `b`; with a positive gain `k` and
/// nothing wrapping around, at most one when `a` is above `b` and at least one
/// when it is below.
pub(crate) proof fn lemma_one_minus_gain_times_gap(k: Fxd, a: Fxd, b: Fxd)
    ensures
        ({
            let r = fx_sub(Fxd { bits: ONE_BITS }, fx_mul(k, fx_sub(a, b)));
            let e = a.bits - b.bits;
            let m = (k.bits * e) / 65536;
            let no_wrap = -0x8000_0000 <= e < 0x8000_0000 && -0x7fff_0000 < m < 0x7fff_0000;
            &&& a == b ==> r.bits == 65536
            &&& no_wrap ==> r.bits == 65536 - m
            &&& no_wrap && k.bits > 0 && a.bits > b.bits ==> r.bits <= 65536
            &&& no_wrap && k.bits > 0 && a.bits < b.bits ==> r.bits > 65536
        }),
{
    lemma_gain_times_gap_sign(k, a, b);
    let m = fx_mul(k, fx_sub(a, b));
    if a == b {
        assert(wrap_i32(65536 - 0) == 65536);
    }
    let e = a.bits - b.bits;
    let mm = (k.bits * e) / 65536;
    if -0x8000_0000 <= e < 0x8000_0000 && -0x7fff_0000 < mm < 0x7fff_0000 {
        assert(m.bits == mm);
        lemma_fx_sub_no_wrap(Fxd { bits: ONE_BITS }, m);
    }
}

} // verus!
