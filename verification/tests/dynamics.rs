use nalgebra::{Vector1, Vector3};
use unifi_gfm::dc::{Capacitor, PiController};
use unifi_gfm::dynamics::{
    forward_euler_step, rk2_step, rk4_step, saturate_states, step_with, wrap_angle, wrap_states,
    Dynamics, NoInputStep, StateLimits, StepDynamics, StepMethod, XState,
};
use unifi_gfm::fixed_point::Fxd;

fn fx(bits: i32) -> Fxd {
    Fxd::from_bits(bits)
}

fn capacitor() -> Capacitor {
    // c = 0.5, rc = 0.1
    Capacitor::new(Fxd::from_int(400), fx(6554), fx(32768))
}

#[test]
fn capacitor_dynamics_and_terminal_voltage() {
    let cap = capacitor();
    assert_eq!(cap.get_x()[0], Fxd::from_int(1));
    assert_eq!(cap.dynamics(cap.get_x(), [Fxd::from_int(1)])[0], fx(131072));
    assert_eq!(cap.get_voltage([Fxd::from_int(2)]), [fx(78644)]);
}

#[test]
fn forward_euler_adds_the_dynamics_times_the_step() {
    let mut cap = capacitor();
    let dx = forward_euler_step(&mut cap, fx(655), [Fxd::from_int(1)]);
    assert_eq!(dx[0], fx(131072));
    assert_eq!(cap.get_x()[0], fx(66846));
    let mut cap2 = capacitor();
    let dx2 = cap2.step(fx(655), [Fxd::from_int(1)]);
    assert_eq!(dx2, dx);
    assert_eq!(cap2.get_x(), cap.get_x());
}

#[test]
fn runge_kutta_steps_of_constant_dynamics() {
    let mut cap = capacitor();
    let dx = rk2_step(&mut cap, fx(655), [Fxd::from_int(1)]);
    assert_eq!(dx[0], fx(131072));
    assert_eq!(cap.get_x()[0], fx(66846));
    let mut cap4 = capacitor();
    let dx4 = rk4_step(&mut cap4, fx(655), [Fxd::from_int(1)]);
    assert_eq!(dx4[0], fx(131076));
    assert_eq!(cap4.get_x()[0], fx(66846));
    let mut cap_m = capacitor();
    assert_eq!(step_with(StepMethod::Rk4, &mut cap_m, fx(655), [Fxd::from_int(1)]), dx4);
}

#[test]
fn step_with_no_input_keeps_a_capacitor_charged() {
    let mut cap = capacitor();
    cap.step_(fx(655));
    assert_eq!(cap.get_x()[0], Fxd::from_int(1));
}

#[test]
fn set_x_then_get_x_gives_the_states() {
    let mut cap = capacitor();
    cap.set_x(Vector1::new(fx(1234)));
    assert_eq!(cap.get_x()[0], fx(1234));
}

#[test]
fn pi_controller_output_and_step() {
    let mut pi = PiController::new(Fxd::from_int(2), fx(32768), Fxd::from_int(1));
    assert_eq!(pi.output([Fxd::from_int(3)]), [fx(262144)]);
    let (out, err) = pi.output_step(fx(32768), [Fxd::from_int(3)]);
    assert_eq!(pi.get_x()[0], Fxd::from_int(1));
    assert_eq!(out, [fx(262144 + 32768)]);
    assert_eq!(err, [Fxd::from_int(2)]);
    assert_eq!(pi.get_output(), fx(0));
    let dx = pi.step(fx(32768), [Fxd::from_int(3)]);
    assert_eq!(dx[0], Fxd::from_int(2));
    assert_eq!(pi.get_output(), fx(262144 + 65536));
    pi.set_ref(Fxd::from_int(3));
    assert_eq!(pi.output([Fxd::from_int(3)]), [Fxd::from_int(1)]);
}

#[test]
fn state_limits_constructors() {
    let l = StateLimits::new([0, 2], [fx(-1), fx(-2)], [fx(1), fx(2)]);
    assert_eq!(l.idxs, [0, 2]);
    assert_eq!(l.mins, [fx(-1), fx(-2)]);
    assert_eq!(l.maxs, [fx(1), fx(2)]);
    let t = StateLimits::new_theta_wrap([1], Fxd::from_int(1));
    assert_eq!(t.mins, [fx(0)]);
    assert_eq!(t.maxs, [fx(411774)]);
}

#[test]
fn saturation_keeps_states_within_limits() {
    let lim = StateLimits::new(
        [0, 1],
        [Fxd::from_int(-1), Fxd::from_int(-1)],
        [Fxd::from_int(1), Fxd::from_int(1)],
    );
    let mut x = Vector3::new(Fxd::from_int(5), Fxd::from_int(-5), fx(32768));
    let unlisted = x[2];
    saturate_states(&mut x, &lim);
    assert_eq!(x, Vector3::new(Fxd::from_int(1), Fxd::from_int(-1), unlisted));
    let once = x;
    saturate_states(&mut x, &lim);
    assert_eq!(x, once);
}

#[test]
fn angle_wrapping_takes_the_remainder_above_the_limit() {
    let lim = StateLimits::new([0], [fx(0)], [Fxd::from_int(2)]);
    let mut x = Vector1::new(Fxd::from_int(7));
    wrap_angle(&mut x, &lim);
    assert_eq!(x[0], Fxd::from_int(1));
    let mut y = Vector1::new(fx(-3));
    wrap_angle(&mut y, &lim);
    assert_eq!(y[0], fx(-3));
}

#[test]
fn wrapping_between_limits() {
    let lim = StateLimits::new([0], [fx(0)], [Fxd::from_int(2)]);
    let mut above = Vector1::new(Fxd::from_int(7));
    wrap_states(&mut above, &lim);
    assert_eq!(above[0], Fxd::from_int(1));
    let mut at = Vector1::new(Fxd::from_int(2));
    wrap_states(&mut at, &lim);
    assert_eq!(at[0], Fxd::from_int(2));
    let mut inside = Vector1::new(Fxd::from_int(1));
    wrap_states(&mut inside, &lim);
    assert_eq!(inside[0], Fxd::from_int(1));
    let mut below = Vector1::new(Fxd::from_int(-1));
    wrap_states(&mut below, &lim);
    assert_eq!(below[0], Fxd::from_int(1));
    let mut far_below = Vector1::new(Fxd::from_int(-5));
    wrap_states(&mut far_below, &lim);
    assert_eq!(far_below[0], Fxd::from_int(1));
}

#[test]
fn wrapping_angles_twice_changes_nothing_more() {
    let lim = StateLimits::new([0, 2], [fx(0), fx(0)], [Fxd::from_int(2), fx(411775)]);
    let mut x = Vector3::new(Fxd::from_int(9), fx(-5), Fxd::from_int(20));
    wrap_angle(&mut x, &lim);
    assert_eq!(x, Vector3::new(Fxd::from_int(1), fx(-5), fx(20 * 65536 % 411775)));
    let once = x;
    wrap_angle(&mut x, &lim);
    assert_eq!(x, once);
}
