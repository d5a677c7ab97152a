use fixed::types::I16F16;
use unifi_gfm::fixed_point::Fxd;

fn fx(bits: i32) -> Fxd {
    Fxd::from_bits(bits)
}

#[test]
fn from_int_scales_by_two_to_the_sixteen() {
    assert_eq!(Fxd::from_int(3).to_bits(), 196608);
    assert_eq!(Fxd::from_int(-2).to_bits(), -131072);
}

#[test]
fn add_and_sub_wrap_around() {
    assert_eq!(fx(i32::MAX).add(fx(1)).to_bits(), i32::MIN);
    assert_eq!(fx(i32::MIN).sub(fx(1)).to_bits(), i32::MAX);
    assert_eq!(fx(i32::MIN).neg().to_bits(), i32::MIN);
}

#[test]
fn mul_rounds_toward_negative_infinity() {
    assert_eq!(fx(-1).mul(Fxd::from_int(1)).to_bits(), -1);
    assert_eq!(fx(98304).mul(Fxd::from_int(-2)).to_bits(), -196608);
    assert_eq!(fx(1).mul(fx(1)).to_bits(), 0);
    assert_eq!(fx(-1).mul(fx(1)).to_bits(), -1);
}

#[test]
fn div_rounds_toward_zero() {
    assert_eq!(Fxd::from_int(1).div(Fxd::from_int(3)).to_bits(), 21845);
    assert_eq!(Fxd::from_int(-1).div(Fxd::from_int(3)).to_bits(), -21845);
}

#[test]
fn rem_has_the_sign_of_the_dividend() {
    assert_eq!(Fxd::from_int(7).rem(Fxd::from_int(3)).to_bits(), 65536);
    assert_eq!(Fxd::from_int(-7).rem(Fxd::from_int(3)).to_bits(), -65536);
    assert_eq!(fx(i32::MIN).rem(fx(-1)).to_bits(), 0);
}

#[test]
fn comparisons_follow_the_raw_bits() {
    assert!(fx(-5).lt(fx(3)));
    assert!(!fx(3).lt(fx(3)));
    assert!(fx(3).le(fx(3)));
    assert!(fx(0).is_zero());
    assert!(!fx(1).is_zero());
}

#[test]
fn arithmetic_agrees_with_the_fixed_crate() {
    let vals: [i32; 7] = [65536, -98304, 21845, 3, -70000, 1 << 20, -(1 << 21)];
    for &a in vals.iter() {
        for &b in vals.iter() {
            let fa = I16F16::from_bits(a);
            let fb = I16F16::from_bits(b);
            assert_eq!(fx(a).add(fx(b)).to_bits(), fa.wrapping_add(fb).to_bits());
            assert_eq!(fx(a).sub(fx(b)).to_bits(), fa.wrapping_sub(fb).to_bits());
            assert_eq!(fx(a).mul(fx(b)).to_bits(), fa.wrapping_mul(fb).to_bits());
            assert_eq!(fx(a).div(fx(b)).to_bits(), fa.wrapping_div(fb).to_bits());
            assert_eq!(fx(a).rem(fx(b)).to_bits(), (fa % fb).to_bits());
        }
    }
}
