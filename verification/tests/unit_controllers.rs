use nalgebra::{Vector2, Vector4};
use unifi_gfm::droop::build_droop_controller;
use unifi_gfm::dvoc::build_dvoc_controller;
use unifi_gfm::dynamics::{Dynamics, XState};
use unifi_gfm::fixed_point::Fxd;

fn fx(bits: i32) -> Fxd {
    Fxd::from_bits(bits)
}

#[test]
fn unit_dvoc_builder_derives_the_oscillator_gains() {
    let mut d = build_dvoc_controller(
        Fxd::from_int(120),
        Fxd::from_int(10),
        Fxd::from_int(1000),
        Fxd::from_int(15),
        fx(32768),
    );
    assert_eq!(*d.get_x(), Vector2::new(Fxd::from_int(120), fx(0)));
    assert_eq!(d.v, Fxd::from_int(120));
    assert_eq!(d.theta, fx(0));
    // 3 * 120 / 1000 = 0.36, rounded toward zero.
    assert_eq!(d.ki, fx(23592));
    assert_eq!(d.kv, Fxd::from_int(120));
    // 1 / (10^2 * 0.5) = 0.02, rounded toward zero.
    assert_eq!(d.l, fx(1310));
    assert_eq!(d.x_nom, Fxd::from_int(1));
    assert!(d.get_theta_idx().has_theta);
    assert_eq!(d.get_theta_idx().theta_idx, 1);
    assert_eq!(d.p_ref, fx(0));
    d.set_p_ref(fx(500));
    assert_eq!(d.p_ref, fx(500));
    assert_eq!(d.q_ref, fx(0));
}

#[test]
fn unit_droop_builder_starts_at_nominal_voltage() {
    let mut d = build_droop_controller(
        Fxd::from_int(120),
        fx(24706440),
        Fxd::from_int(1000),
        fx(170),
        fx(328),
        fx(12353220),
    );
    assert_eq!(
        *d.get_x(),
        Vector4::new(Fxd::from_int(120), fx(0), fx(0), fx(0))
    );
    assert_eq!((d.v, d.theta, d.p_filt, d.q_filt), (Fxd::from_int(120), fx(0), fx(0), fx(0)));
    assert_eq!((d.mp, d.mq, d.w_c), (fx(170), fx(328), fx(12353220)));
    assert_eq!(d.get_theta_idx().theta_idx, 1);
    d.set_p_ref(fx(-7));
    assert_eq!(d.p_ref, fx(-7));
    d.set_x(Vector4::new(fx(1), fx(2), fx(3), fx(4)));
    assert_eq!(d.get_x()[3], fx(4));
}

#[test]
fn unit_dvoc_dynamics_pull_the_voltage_to_nominal() {
    let d = build_dvoc_controller(
        Fxd::from_int(120),
        Fxd::from_int(10),
        Fxd::from_int(1000),
        Fxd::from_int(15),
        fx(32768),
    );
    let z = fx(0);
    // at nominal voltage with no current the angle turns at nominal speed
    assert_eq!(d.dynamics(&Vector2::new(Fxd::from_int(120), z), [z, z]), Vector2::new(z, Fxd::from_int(10)));
    // below nominal voltage: (15 / 120^2) * 100 * (2 * 120^2 - 2 * 100^2), rounded
    assert_eq!(d.dynamics(&Vector2::new(Fxd::from_int(100), z), [z, z]), Vector2::new(fx(59840000), Fxd::from_int(10)));
}

#[test]
fn unit_droop_dynamics_follow_the_filtered_power() {
    let d = build_droop_controller(
        Fxd::from_int(120),
        fx(24706440),
        Fxd::from_int(1000),
        fx(170),
        fx(328),
        fx(12353220),
    );
    let z = fx(0);
    let x = Vector4::new(Fxd::from_int(120), z, z, z);
    assert_eq!(d.dynamics(&x, [z, z]), Vector4::new(z, fx(24706440), z, z));
    // a filtered active power of 1 lowers the speed by mp and decays at w_c
    let x1 = Vector4::new(Fxd::from_int(120), z, Fxd::from_int(1), z);
    assert_eq!(d.dynamics(&x1, [z, z]), Vector4::new(z, fx(24706440 - 170), fx(-12353220), z));
}
