use fixed::types::I16F16;
use unifi_gfm::calculations::{calc_ab_p, calc_ab_power, calc_ab_q, calc_dq_power};
use unifi_gfm::fixed_point::Fxd;
use unifi_gfm::reference_frames::{
    AlphaBeta, Polar, SinCos, SinCosValues, ToFromABC, ToFromAlphaBeta, ToFromDQZ, ToFromPolar,
    Trig, ABC, DQZ,
};

fn fx(bits: i32) -> Fxd {
    Fxd::from_bits(bits)
}

fn close(x: Fxd, v: f32, tol: f32) -> bool {
    (I16F16::from_bits(x.to_bits()).to_num::<f32>() - v).abs() <= tol
}

#[test]
fn clarke_transform_of_balanced_values() {
    let abc = ABC { a: fx(65536), b: fx(-32768), c: fx(-32768) };
    let ab = abc.to_ab();
    assert_eq!(ab, AlphaBeta { alpha: fx(65537), beta: fx(0), gamma: fx(0) });
    assert_eq!(AlphaBeta::from_abc(abc.a, abc.b, abc.c), ab);
}

#[test]
fn clarke_transform_of_unbalanced_values() {
    let ab = AlphaBeta::from_abc(fx(65536), fx(32768), fx(16384));
    assert_eq!(ab, AlphaBeta { alpha: fx(27308), beta: fx(9459), gamma: fx(38228) });
}

#[test]
fn inverse_clarke_transform() {
    let abc = ABC::from_ab(fx(65536), fx(0), fx(0));
    assert_eq!(abc, ABC { a: fx(65536), b: fx(-32768), c: fx(-32768) });
    let ab = AlphaBeta { alpha: fx(65536), beta: fx(0), gamma: fx(0) };
    assert_eq!(ab.to_abc(), abc);
}

#[test]
fn balanced_values_have_no_zero_sequence() {
    let ab = AlphaBeta::from_abc(fx(1000), fx(-3000), fx(2000));
    assert_eq!(ab.gamma, fx(0));
}

#[test]
fn from_ab_underscore_sets_gamma_to_zero() {
    assert_eq!(
        AlphaBeta::from_ab_(fx(5), fx(-7)),
        AlphaBeta { alpha: fx(5), beta: fx(-7), gamma: fx(0) }
    );
}

#[test]
fn sin_cos_from_theta_follows_the_angle() {
    let zero = SinCos::from_theta(fx(0));
    assert!(close(zero.sin_value(), 0.0, 0.001));
    assert!(close(zero.cos_value(), 1.0, 0.001));
    assert_eq!(zero.theta_value(), fx(0));
    let quarter = SinCos::from_theta(fx(102943));
    assert!(close(quarter.sin_value(), 1.0, 0.001));
    assert!(close(quarter.cos_value(), 0.0, 0.001));
}

#[test]
fn flip_theta_twice_gives_back_the_pair() {
    let s = SinCos::from_theta(fx(40000));
    let f = s.flip_theta();
    assert_eq!(f.sin_val, s.sin_val.neg());
    assert_eq!(f.cos_val, s.cos_val);
    assert_eq!(f.theta, fx(-40000));
    assert_eq!(f.flip_theta(), s);
}

#[test]
fn rotating_right_then_left_gives_back_the_angle() {
    let s = SinCos::from_theta(fx(40000));
    let r = s.rotate_right_120();
    assert_eq!(r.theta, fx(40000 + 137258));
    assert_eq!(r.rotate_left_120().theta, s.theta);
    assert_eq!(s.rotate_left_120().rotate_right_120().theta, s.theta);
    let expected = SinCos::from_theta(fx(40000 + 137258));
    assert!(close(r.sin_val, I16F16::from_bits(expected.sin_val.to_bits()).to_num(), 0.001));
    assert!(close(r.cos_val, I16F16::from_bits(expected.cos_val.to_bits()).to_num(), 0.001));
}

#[test]
fn park_transform_at_zero_angle_keeps_the_axes() {
    let s = SinCos { sin_val: fx(0), cos_val: fx(65536), theta: fx(0) };
    let ab = AlphaBeta { alpha: fx(12345), beta: fx(-678), gamma: fx(9) };
    let dqz = ab.to_dqz(&s);
    assert_eq!(dqz, DQZ { d: fx(12345), q: fx(-678), z: fx(9) });
    assert_eq!(DQZ::from_ab(fx(12345), fx(-678), fx(9), &s), dqz);
    assert_eq!(dqz.to_ab(&s), ab);
    assert_eq!(AlphaBeta::from_dqz(dqz.d, dqz.q, dqz.z, &s), ab);
}

#[test]
fn park_transform_at_a_quarter_turn_swaps_the_axes() {
    let s = SinCos { sin_val: fx(65536), cos_val: fx(0), theta: fx(102943) };
    let dqz = DQZ::from_ab_(fx(1000), fx(2000), &s);
    assert_eq!(dqz, DQZ { d: fx(2000), q: fx(-1000), z: fx(0) });
}

#[test]
fn polar_form_of_alpha_beta_values() {
    let ab = AlphaBeta::from_ab_(fx(92682), fx(0));
    let p = ab.to_polar();
    assert!(close(p.r, 1.0, 0.001));
    assert_eq!(p.theta, fx(0));
    let p2 = Polar::from_ab(fx(0), fx(92682), fx(0));
    assert!(close(p2.r, 1.0, 0.001));
    assert_eq!(p2.theta, fx(102943));
    let back = Polar { r: fx(65536), theta: fx(0) }.to_ab();
    assert!(close(back.alpha, 1.4142, 0.002));
    assert!(close(back.beta, 0.0, 0.002));
    assert_eq!(back.gamma, fx(0));
}

#[test]
fn polar_to_abc_and_dqz() {
    let abc = ABC::from_polar(fx(65536), fx(102943));
    assert!(close(abc.a, 1.0, 0.002));
    assert!(close(abc.b, -0.5, 0.002));
    assert!(close(abc.c, -0.5, 0.002));
    assert_eq!(Polar { r: fx(65536), theta: fx(102943) }.to_abc(), abc);
    let s = SinCos::from_theta(fx(0));
    let dqz = DQZ::from_polar(fx(65536), fx(0), &s);
    assert!(close(dqz.d, 1.0, 0.002));
    assert!(close(dqz.q, 0.0, 0.002));
    assert_eq!(dqz.z, fx(0));
}

#[test]
fn active_and_reactive_power() {
    let v = AlphaBeta::from_ab_(Fxd::from_int(1), Fxd::from_int(2));
    let i = AlphaBeta::from_ab_(Fxd::from_int(3), Fxd::from_int(-1));
    let n = Fxd::from_int(3);
    assert_eq!(calc_ab_power(&v, &i, n), (fx(98304), fx(688128)));
    assert_eq!(calc_ab_p(&v, &i, n), fx(98304));
    assert_eq!(calc_ab_q(&v, &i, n), fx(688128));
    let vd = DQZ { d: Fxd::from_int(1), q: Fxd::from_int(2), z: fx(0) };
    let id = DQZ { d: Fxd::from_int(3), q: Fxd::from_int(-1), z: fx(0) };
    assert_eq!(calc_dq_power(&vd, &id, n), (fx(98304), fx(688128)));
}

#[test]
fn in_phase_current_draws_no_reactive_power() {
    let v = AlphaBeta::from_ab_(fx(70000), fx(-12345));
    assert_eq!(calc_ab_q(&v, &v, Fxd::from_int(3)), fx(0));
}

#[test]
fn polar_conversions_at_a_quarter_turn_and_an_eighth_turn() {
    let ab = Polar { r: Fxd::from_int(1), theta: fx(102943) }.to_ab();
    assert!(close(ab.alpha, 0.0, 0.002));
    assert!(close(ab.beta, 1.4142, 0.002));
    let p = Polar::from_ab(Fxd::from_int(1), Fxd::from_int(1), fx(0));
    assert!(close(p.theta, 0.7854, 0.001));
    assert!(close(p.r, 1.0, 0.001));
    let s = SinCos::from_theta(fx(0));
    let pd = Polar::from_dqz(Fxd::from_int(1), Fxd::from_int(1), fx(0), &s);
    assert!(close(pd.theta, 0.7854, 0.002));
    let dq = DQZ { d: Fxd::from_int(1), q: Fxd::from_int(1), z: fx(0) };
    assert_eq!(dq.to_polar(&s), pd);
}

#[test]
fn clarke_round_trip_is_not_exact_in_fixed_point() {
    let abc = ABC { a: fx(65536), b: fx(-32768), c: fx(-32768) };
    let back = abc.to_ab().to_abc();
    assert_eq!(back.a, fx(65537));
}

#[test]
fn dqz_to_abc_uses_both_rotations() {
    let s = SinCos::from_theta(fx(0));
    let abc = ABC::from_dqz(Fxd::from_int(1), fx(0), fx(0), &s);
    assert!(close(abc.a, 0.0, 0.002));
    assert!(close(abc.b, -0.8660, 0.002));
    assert!(close(abc.c, 0.8660, 0.002));
    assert_eq!(DQZ { d: Fxd::from_int(1), q: fx(0), z: fx(0) }.to_abc(&s), abc);
}

#[test]
fn abc_dqz_abc_round_trip_is_close() {
    let s = SinCos::from_theta(fx(30000));
    let (a, b, c) = (fx(40000), fx(-10000), fx(-30000));
    let back = DQZ::from_abc(a, b, c, &s).to_abc(&s);
    assert!(close(back.a, 40000.0 / 65536.0, 0.005));
    assert!(close(back.b, -10000.0 / 65536.0, 0.005));
    assert!(close(back.c, -30000.0 / 65536.0, 0.005));
}

#[test]
fn alpha_beta_abc_round_trip_is_within_a_few_units() {
    for &(x, y) in [(65536, 0), (123457, -98765), (-3000000, 2500000), (1, 1)].iter() {
        let ab = AlphaBeta::from_ab_(fx(x), fx(y));
        let back = ab.to_abc().to_ab();
        assert!((back.alpha.to_bits() - x).abs() <= 4);
        assert!((back.beta.to_bits() - y).abs() <= 3 + y.abs() / 262144);
        assert!(back.gamma.to_bits() == 0 || back.gamma.to_bits() == -1);
    }
}

#[test]
fn abc_alpha_beta_abc_round_trip_is_within_a_few_units() {
    let cases = [
        (65536, -32768, -32768),
        (40000, -10000, -30000),
        (3000000, -2500000, 700000),
        (100000000, 5000000, -200000000),
        (1, 2, 3),
    ];
    for &(a, b, c) in cases.iter() {
        let back = ABC { a: fx(a), b: fx(b), c: fx(c) }.to_ab().to_abc();
        let e = ((b as i64) - (c as i64)).abs() / 262144 + ((a as i64) + (b as i64) + (c as i64)).abs() / 131072;
        assert!(((back.a.to_bits() as i64) - a as i64).abs() <= 4);
        assert!(((back.b.to_bits() as i64) - b as i64).abs() <= 8 + e);
        assert!(((back.c.to_bits() as i64) - c as i64).abs() <= 8 + e);
    }
}
