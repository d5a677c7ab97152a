use nalgebra::{SVector, Vector2, Vector4, Vector6};
use unifi_gfm::dynamics::{Dynamics, XState};
use unifi_gfm::fixed_point::Fxd;
use unifi_gfm::reference_frames::{AlphaBeta, ToFromPolar};
use unifi_gfm::simulations::{
    build_ac_volt_src, build_lcl_filter, build_line_to_bus, build_rc_branch, build_rl_branch,
    LclFilter, Line, LineToBus, RlBranch,
};

fn fx(bits: i32) -> Fxd {
    Fxd::from_bits(bits)
}

fn rl() -> unifi_gfm::simulations::RlBranch {
    build_rl_branch(Fxd::from_int(10), fx(24706440), fx(6554), fx(32768))
}

#[test]
fn rl_branch_starts_open_with_zero_current() {
    let b = rl();
    assert!(!b.switch_is_closed());
    assert_eq!(b.get_pu_current(), [fx(0), fx(0)]);
    assert!(!b.theta_idx.has_theta);
}

#[test]
fn rl_branch_pu_current_reads_back() {
    let mut b = rl();
    b.set_pu_current([fx(13107), fx(-6554)]);
    assert_eq!(b.get_pu_current(), [fx(13107), fx(-6554)]);
    assert_eq!(b.get_fr_pu_current(), [fx(13107), fx(-6554)]);
    assert_eq!(b.get_current(), [fx(131070), fx(-65540)]);
}

#[test]
fn rl_branch_current_in_amperes_is_rounded() {
    let mut b = rl();
    b.set_current([Fxd::from_int(3), fx(0)]);
    assert_eq!(b.get_pu_current(), [fx(19660), fx(0)]);
    assert_eq!(b.get_current(), [fx(196600), fx(0)]);
}

#[test]
fn rl_branch_dynamics_follow_the_switch() {
    let mut b = rl();
    b.set_pu_current([fx(13107), fx(0)]);
    let u = [Fxd::from_int(1), fx(32768), fx(32768), fx(0)];
    let open = b.dynamics(b.get_x(), u);
    assert_eq!(open, Vector2::new(fx(-2620), fx(0)));
    b.close_switch();
    assert!(b.switch_is_closed());
    let closed = b.dynamics(b.get_x(), u);
    assert_eq!(closed, Vector2::new(fx(62916), Fxd::from_int(1)));
    b.open_switch();
    assert!(!b.switch_is_closed());
}

#[test]
fn rc_branch_starts_charged() {
    let c = build_rc_branch(Fxd::from_int(80), fx(6554), fx(3277));
    assert_eq!(c.get_x()[0], fx(92682));
    assert_eq!(c.get_x()[1], fx(0));
}

#[test]
fn lcl_filter_currents_read_back() {
    let mut f = build_lcl_filter(
        fx(24706440),
        Fxd::from_int(10),
        Fxd::from_int(80),
        fx(6554),
        fx(32768),
        fx(655),
        fx(3277),
        fx(6554),
        fx(32768),
    );
    assert_eq!(f.get_voltage(), [fx(92682), fx(0)]);
    f.set_fr_current([Fxd::from_int(1), Fxd::from_int(2)]);
    assert_eq!(f.get_fr_pu_current(), [Fxd::from_int(1), Fxd::from_int(2)]);
    assert_eq!(f.get_to_pu_current(), [fx(0), fx(0)]);
    f.set_to_current([fx(5), fx(6)]);
    assert_eq!(f.get_to_pu_current(), [fx(5), fx(6)]);
    assert_eq!(f.get_fr_pu_current(), [Fxd::from_int(1), Fxd::from_int(2)]);
    assert!(!f.switch_is_closed());
    f.close_switch();
    assert!(f.switch_is_closed());
}

#[test]
fn ac_voltage_source_turns_at_unit_rate() {
    let s = build_ac_volt_src(Fxd::from_int(80), fx(24706440));
    assert_eq!(s.get_x()[0], Fxd::from_int(1));
    assert_eq!(s.dynamics(s.get_x(), []), Vector2::new(fx(0), Fxd::from_int(1)));
    assert!(s.theta_idx.has_theta);
}

#[test]
fn line_to_bus_states_and_switch() {
    let mut b = rl();
    b.set_pu_current([fx(111), fx(222)]);
    let mut ltb: LineToBus<Vector4<Fxd>, Vector2<Fxd>, RlBranch> =
        build_line_to_bus(b, build_ac_volt_src(Fxd::from_int(80), fx(24706440)));
    // The bus states go to rows 0 and 1, then the two line states to rows 1 and 2.
    assert_eq!(
        *ltb.get_x(),
        Vector4::new(Fxd::from_int(1), fx(111), fx(222), fx(0))
    );
    assert!(!ltb.switch_is_closed());
    ltb.close_switch();
    assert!(ltb.switch_is_closed());
    ltb.open_switch();
    assert!(!ltb.switch_is_closed());
}

#[test]
fn line_to_bus_dynamics_read_the_line_from_the_last_rows() {
    let b = rl();
    let ltb: LineToBus<Vector4<Fxd>, Vector2<Fxd>, RlBranch> =
        build_line_to_bus(b, build_ac_volt_src(Fxd::from_int(80), fx(24706440)));
    let x = Vector4::new(Fxd::from_int(1), fx(0), fx(300), fx(400));
    let u = [Fxd::from_int(1), fx(0)];
    let bus = AlphaBeta::from_polar(Fxd::from_int(1), fx(0));
    let d_line = rl().dynamics(&Vector2::new(fx(300), fx(400)), [u[0], u[1], bus.alpha, bus.beta]);
    assert_eq!(
        ltb.dynamics(&x, u),
        Vector4::new(fx(0), Fxd::from_int(1), d_line[0], d_line[1])
    );
}

#[test]
fn lcl_filter_connected_to_a_bus() {
    let mut f = build_lcl_filter(
        fx(24706440),
        Fxd::from_int(10),
        Fxd::from_int(80),
        fx(6554),
        fx(32768),
        fx(655),
        fx(3277),
        fx(6554),
        fx(32768),
    );
    f.set_fr_current([fx(7), fx(8)]);
    f.set_to_current([fx(9), fx(10)]);
    let ltb: LineToBus<SVector<Fxd, 11>, Vector6<Fxd>, LclFilter> =
        build_line_to_bus(f, build_ac_volt_src(Fxd::from_int(80), fx(24706440)));
    let z = fx(0);
    let x = *ltb.get_x();
    assert_eq!(x[0], Fxd::from_int(1));
    for k in 1..5 {
        assert_eq!(x[k], z);
    }
    let line_x = *ltb.line.get_x();
    for k in 0..6 {
        assert_eq!(x[5 + k], line_x[k]);
    }
    let u = [Fxd::from_int(1), z];
    let bus = AlphaBeta::from_polar(Fxd::from_int(1), z);
    let d_line = ltb.line.dynamics(&line_x, [u[0], u[1], bus.alpha, bus.beta]);
    let dx = ltb.dynamics(&x, u);
    assert_eq!(dx[0], z);
    assert_eq!(dx[1], Fxd::from_int(1));
    for k in 2..5 {
        assert_eq!(dx[k], z);
    }
    for k in 0..6 {
        assert_eq!(dx[5 + k], d_line[k]);
    }
}

#[test]
fn lcl_filter_is_driven_by_the_inverter_voltage() {
    let f = build_lcl_filter(
        Fxd::from_int(1),
        Fxd::from_int(1),
        Fxd::from_int(1),
        fx(0),
        Fxd::from_int(1),
        fx(0),
        Fxd::from_int(1),
        fx(0),
        Fxd::from_int(1),
    );
    let z = fx(0);
    let x = Vector6::new(z, z, z, z, z, z);
    let u = [Fxd::from_int(1), z, z, z];
    assert_eq!(f.dynamics(&x, u), Vector6::new(Fxd::from_int(1), z, z, z, z, z));
    let mut closed = f;
    closed.close_switch();
    let u2 = [z, z, Fxd::from_int(-1), z];
    assert_eq!(closed.dynamics(&x, u2), Vector6::new(z, z, z, z, Fxd::from_int(1), z));
}

#[test]
fn lcl_filter_from_current_getter() {
    let mut f = build_lcl_filter(
        fx(24706440),
        Fxd::from_int(10),
        Fxd::from_int(80),
        fx(6554),
        fx(32768),
        fx(655),
        fx(3277),
        fx(6554),
        fx(32768),
    );
    f.set_fr_current([fx(7), fx(8)]);
    assert_eq!(f.get_from_current(), [fx(7), fx(8)]);
    assert_eq!(f.get_from_current(), f.get_fr_current());
}

#[test]
fn rl_branch_current_round_trip_stays_within_the_base_rounding() {
    let mut b = rl();
    for &i in [fx(242483), fx(-1), fx(1234567), fx(-7777777)].iter() {
        b.set_current([i, fx(65536)]);
        let back = b.get_current();
        // within |i_base| / 2^16 + 1 = 11 units of the last place
        assert!((back[0].to_bits() - i.to_bits()).abs() <= 11);
        assert!((back[1].to_bits() - 65536).abs() <= 11);
    }
}
