use fixed::types::I16F16;
use nalgebra::{SVector, Vector2, Vector6};
use unifi_gfm::dynamics::{Dynamics, NoInputStep, StepDynamics, StepMethod, XState};
use unifi_gfm::fixed_point::Fxd;
use unifi_gfm::gfl::build_gfl_controller;
use unifi_gfm::gfm::{
    build_default_droop_controller, build_default_dvoc_controller, build_default_vsm_controller,
    DvocController,
};
use unifi_gfm::inverter::{add_presynch, DlvController, InvInterface, Presync};
use unifi_gfm::osg::{OrthSigGenSogi, OrthogonalSignalGenerator};
use unifi_gfm::pll::{DsrfPhaseLockedLoop, PhaseLockLoop, SrfPhaseLockedLoop};

fn fx(bits: i32) -> Fxd {
    Fxd::from_bits(bits)
}

fn close(x: Fxd, v: f32, tol: f32) -> bool {
    (I16F16::from_bits(x.to_bits()).to_num::<f32>() - v).abs() <= tol
}

const W_60HZ: i32 = 24706440;

fn dvoc() -> DvocController {
    build_default_dvoc_controller(Fxd::from_int(80), Fxd::from_int(60))
}

#[test]
fn default_dvoc_parameters() {
    let d = dvoc();
    assert_eq!(d.w_nom, fx(W_60HZ));
    assert_eq!(d.get_w_nom(), fx(W_60HZ));
    assert_eq!(d.get_pu_voltage(), [Fxd::from_int(1), fx(0)]);
    assert_eq!(d.theta_idx.idxs, [1]);
    assert_eq!(d.theta_idx.maxs, [fx(1092)]);
    assert_eq!(d.step_method, StepMethod::Rk2);
}

#[test]
fn dvoc_set_voltage_reads_back() {
    let mut d = dvoc();
    d.set_voltage([fx(58982), fx(6554)]);
    assert_eq!(d.get_pu_voltage(), [fx(58982), fx(6554)]);
    assert_eq!(d.get_voltage(), [fx(4718560), fx(2470794)]);
    assert_eq!(d.output(), d.get_voltage());
}

#[test]
fn dvoc_power_references() {
    let mut d = dvoc();
    d.set_p_ref(fx(32768));
    d.set_q_ref(fx(-16384));
    assert_eq!(d.p_ref, fx(32768));
    assert_eq!(d.q_ref, fx(-16384));
}

#[test]
fn droop_set_voltage_sets_the_angle_only() {
    let mut d = build_default_droop_controller(Fxd::from_int(80), Fxd::from_int(60));
    assert_eq!(d.get_pu_voltage(), [Fxd::from_int(1), fx(0)]);
    d.set_voltage([fx(32768), fx(19661)]);
    assert_eq!(d.get_pu_voltage(), [Fxd::from_int(1), fx(19661)]);
    assert_eq!(d.output(), [Fxd::from_int(80), fx(19661)]);
}

#[test]
fn vsm_set_voltage_sets_the_angle_only() {
    let pll = SrfPhaseLockedLoop::new(fx(411774), Fxd::from_int(1), Fxd::from_int(1), StepMethod::Rk2);
    let mut v = build_default_vsm_controller(Fxd::from_int(80), Fxd::from_int(1), pll);
    assert_eq!(v.get_x()[1], Fxd::from_int(1));
    let before = v.get_pu_voltage();
    v.set_voltage([fx(1), fx(7777)]);
    assert_eq!(v.get_pu_voltage(), [before[0], fx(7777)]);
}

#[test]
fn presynchronization_flags_and_negative_magnitude() {
    let mut p = add_presynch::<SVector<Fxd, 2>, 2, DvocController>(dvoc(), Fxd::from_int(1));
    assert!(!p.synced);
    assert_eq!(p.sync_tol, fx(66));
    p.disable_presync();
    assert!(p.synced);
    p.enable_presync();
    assert!(!p.synced);
    p.set_voltage([fx(-58982), fx(6554)]);
    p.disable_presync();
    assert!(p.synced);
    assert_eq!(p.get_pu_voltage(), [fx(58982), fx(7100)]);
}

#[test]
fn check_sync_compares_with_the_grid_voltage() {
    let p = add_presynch::<SVector<Fxd, 2>, 2, DvocController>(dvoc(), Fxd::from_int(1));
    assert!(p.check_sync([fx(92682), fx(0)]));
    assert!(!p.check_sync([fx(0), fx(92682)]));
}

#[test]
fn double_loop_voltage_controller_output_and_step() {
    let mut c = DlvController::new(
        Fxd::from_int(1),
        fx(0),
        Fxd::from_int(1),
        fx(0),
        fx(6554),
        fx(3277),
        Fxd::from_int(10),
        Fxd::from_int(-10),
    );
    let u = [Fxd::from_int(1), Fxd::from_int(1), fx(32768), fx(0), fx(13107), fx(0), fx(0), fx(0)];
    assert_eq!(c.output(u), [fx(52429), fx(-3277)]);
    assert_eq!(c.step_output(fx(655), u), [fx(52429), fx(-3277)]);
    assert_eq!(c.get_x()[0], fx(327));
    assert_eq!(c.get_x()[1], fx(0));
    assert_eq!(c.get_x()[2], fx(196));
    assert_eq!(c.get_x()[3], fx(0));
}

#[test]
fn srf_pll_output_at_zero_voltage() {
    let pll = SrfPhaseLockedLoop::new(fx(W_60HZ), Fxd::from_int(2), Fxd::from_int(1), StepMethod::Rk2);
    assert_eq!(pll.output([fx(0), fx(0)]), [fx(0), fx(0), Fxd::from_int(1)]);
    assert_eq!(pll.checked_output([fx(0), fx(0)]), Some([fx(0), fx(0), Fxd::from_int(1)]));
    assert_eq!(pll.checked_output([Fxd::from_int(181), fx(0)]), None);
    assert_eq!(pll.get_pu_omega(), Fxd::from_int(1));
    assert_eq!(pll.get_omega(), fx(W_60HZ));
    assert_eq!(pll.get_omega_nom(), fx(W_60HZ));
}

#[test]
fn srf_pll_voltage_magnitude() {
    let pll = SrfPhaseLockedLoop::new(fx(W_60HZ), Fxd::from_int(2), Fxd::from_int(1), StepMethod::Rk2);
    assert!(close(pll.get_voltage_magnitude([Fxd::from_int(3), Fxd::from_int(4)]), 5.0, 0.001));
}

#[test]
fn srf_pll_step_keeps_the_frequency() {
    let mut pll = SrfPhaseLockedLoop::new(fx(411774), fx(6554), fx(655), StepMethod::Rk2);
    let dx = pll.step(fx(66), [fx(92682), fx(0)]);
    assert_eq!(pll.get_pu_omega(), dx[0]);
    assert!(close(pll.get_pu_omega(), 1.0, 0.01));
    assert!(pll.get_pu_voltage_angle().to_bits() > 0);
}

#[test]
fn dsrf_pll_output() {
    let pll = DsrfPhaseLockedLoop {
        w_nom: fx(W_60HZ),
        w_filt: Fxd::from_int(10),
        kp: Fxd::from_int(2),
        ki: Fxd::from_int(1),
        x: Vector6::new(fx(32768), Fxd::from_int(1), fx(16384), fx(0), fx(0), fx(8192)),
        dx_dt: Vector6::new(fx(0), fx(0), fx(0), fx(0), fx(0), fx(0)),
    };
    assert_eq!(pll.output([fx(0), fx(0), fx(0)]), [Fxd::from_int(1), fx(32768), fx(24747400)]);
}

#[test]
fn sogi_generator_dynamics_and_signals() {
    let mut g = OrthSigGenSogi::new(Fxd::from_int(1), Fxd::from_int(1), StepMethod::ForwardEuler);
    let dx = g.dynamics(g.get_x(), [Fxd::from_int(1)]);
    assert_eq!(dx, Vector2::new(Fxd::from_int(1), fx(0)));
    g.step(fx(32768), [Fxd::from_int(1)]);
    assert_eq!(g.get_signals(), [fx(32768), fx(0)]);
    g.set_resonant_frequency(Fxd::from_int(2));
    assert_eq!(g.w_res, Fxd::from_int(2));
    assert_eq!(g.w_nom, Fxd::from_int(1));
}

fn gfl() -> unifi_gfm::gfl::GflController<SrfPhaseLockedLoop> {
    let pll = SrfPhaseLockedLoop::new(fx(W_60HZ), fx(6554), fx(655), StepMethod::Rk2);
    build_gfl_controller(
        Fxd::from_int(80),
        fx(W_60HZ),
        fx(32768),
        fx(655),
        fx(32768),
        fx(655),
        fx(6554),
        pll,
        Fxd::from_int(3),
    )
}

#[test]
fn gfl_builder_defaults() {
    let g = gfl();
    assert_eq!(g.get_pu_voltage(), [Fxd::from_int(1), fx(0)]);
    assert_eq!(g.sat_idx.mins, [Fxd::from_int(-100), Fxd::from_int(-100)]);
    assert_eq!(g.sat_idx.maxs, [Fxd::from_int(100), Fxd::from_int(100)]);
    assert_eq!(g.get_x()[0], fx(0));
}

#[test]
fn gfl_checked_output_refuses_a_zero_grid_voltage() {
    let g = gfl();
    assert_eq!(g.checked_output([fx(0), fx(0), fx(0), fx(0)]), None);
    let u = [fx(0), fx(0), fx(92682), fx(0)];
    let out = g.checked_output(u);
    assert_eq!(out, Some(g.output(u)));
    assert!(close(out.unwrap()[0], 1.0, 0.01));
}

#[test]
fn gfl_step_keeps_integrators_within_limits() {
    let mut g = gfl();
    g.set_x(Vector2::new(Fxd::from_int(150), Fxd::from_int(-150)));
    g.step(fx(66), [fx(0), fx(0), fx(92682), fx(0)]);
    assert_eq!(g.get_x()[0], Fxd::from_int(100));
    assert_eq!(g.get_x()[1], Fxd::from_int(-100));
}

#[test]
fn dvoc_dynamics_at_nominal_voltage_without_current() {
    let d = dvoc();
    let dx = d.dynamics(d.get_x(), [fx(0), fx(0)]);
    assert_eq!(dx, Vector2::new(fx(0), Fxd::from_int(1)));
}

#[test]
fn dvoc_steps_keep_the_angle_within_one_period() {
    let mut d = dvoc();
    d.step_(fx(66));
    assert_eq!(d.get_x()[0], Fxd::from_int(1));
    assert_eq!(d.get_x()[1], fx(66));
    let mut wrapped = false;
    for _ in 0..40 {
        let before = d.get_x()[1];
        d.step_(fx(66));
        let after = d.get_x()[1];
        assert!(after.to_bits() <= 1092);
        if after.to_bits() < before.to_bits() {
            wrapped = true;
        }
    }
    assert!(wrapped);
}

#[test]
fn dvoc_checked_step_matches_step() {
    let mut a = dvoc();
    let mut b = dvoc();
    let dx = a.step(fx(66), [fx(100), fx(-50)]);
    assert_eq!(b.checked_step(fx(66), [fx(100), fx(-50)]), Some(dx));
    assert_eq!(a.get_x(), b.get_x());
}

#[test]
fn dvoc_checked_step_refuses_a_zero_capacitance() {
    let mut d = dvoc();
    d.c = fx(0);
    assert_eq!(d.checked_step(fx(66), [fx(0), fx(0)]), None);
    assert_eq!(d.get_x()[0], Fxd::from_int(1));
    assert_eq!(d.get_x()[1], fx(0));
}

#[test]
fn droop_checked_step_matches_step() {
    let mut a = build_default_droop_controller(Fxd::from_int(80), Fxd::from_int(60));
    let mut b = build_default_droop_controller(Fxd::from_int(80), Fxd::from_int(60));
    let dx = a.step(fx(66), [fx(100), fx(-50)]);
    assert_eq!(b.checked_step(fx(66), [fx(100), fx(-50)]), Some(dx));
    assert_eq!(a.get_x(), b.get_x());
}

#[test]
fn pll_checked_step_refuses_a_zero_angle_limit() {
    let mut pll = SrfPhaseLockedLoop::new(fx(411774), fx(6554), fx(655), StepMethod::Rk2);
    let mut same = SrfPhaseLockedLoop::new(fx(411774), fx(6554), fx(655), StepMethod::Rk2);
    let dx = same.step(fx(66), [fx(92682), fx(0)]);
    assert_eq!(pll.checked_step(fx(66), [fx(92682), fx(0)]), Some(dx));
    pll.theta_idx.maxs = [fx(0)];
    let before = *pll.get_x();
    assert_eq!(pll.checked_step(fx(66), [fx(92682), fx(0)]), None);
    assert_eq!(*pll.get_x(), before);
}

#[test]
fn gfl_checked_steps_match_the_steps() {
    let u = [fx(0), fx(0), fx(92682), fx(0)];
    let mut a = gfl();
    let mut b = gfl();
    let out = a.output_step(fx(66), u);
    assert_eq!(b.checked_output_step(fx(66), u), Some(out));
    assert_eq!(a.get_x(), b.get_x());
    let mut c = gfl();
    let mut d = gfl();
    let dx = c.step(fx(66), u);
    assert_eq!(d.checked_step(fx(66), u), Some(dx));
    assert_eq!(c.get_pu_voltage(), d.get_pu_voltage());
    let mut e = gfl();
    assert_eq!(e.checked_step(fx(66), [fx(0), fx(0), fx(0), fx(0)]), None);
    assert_eq!(e.get_x()[0], fx(0));
}

#[test]
fn vsm_checked_step_refuses_a_zero_inertia() {
    let pll = SrfPhaseLockedLoop::new(fx(411774), fx(6554), fx(655), StepMethod::Rk2);
    let mut v = build_default_vsm_controller(Fxd::from_int(80), Fxd::from_int(1), pll);
    v.h = fx(0);
    assert_eq!(v.checked_step(fx(66), [fx(0), fx(0), fx(92682), fx(0)]), None);
    assert_eq!(v.get_x()[1], Fxd::from_int(1));
}

#[test]
fn default_vsm_at_grid_frequency_is_at_rest_at_nominal_speed() {
    let pll = SrfPhaseLockedLoop::new(fx(20588742), Fxd::from_int(1), Fxd::from_int(1), StepMethod::Rk2);
    assert_eq!(pll.get_pu_omega(), Fxd::from_int(1));
    let mut v = build_default_vsm_controller(Fxd::from_int(230), Fxd::from_int(50), pll);
    let x = nalgebra::Vector3::new(fx(0), Fxd::from_int(1), fx(0));
    let dx = v.dynamics(&x, [fx(0), fx(0), fx(0), fx(0)]);
    assert_eq!(dx, nalgebra::Vector3::new(Fxd::from_int(1), fx(0), fx(0)));
    assert!(v.checked_step(fx(66), [fx(0), fx(0), fx(92682), fx(0)]).is_some());
}

#[test]
fn vsm_swing_scales_the_torque_balance_by_w_over_2h() {
    let pll = SrfPhaseLockedLoop::new(fx(20588742), Fxd::from_int(1), Fxd::from_int(1), StepMethod::Rk2);
    let v = build_default_vsm_controller(Fxd::from_int(230), Fxd::from_int(50), pll);
    assert_eq!(v.w_nom, fx(20588700));
    assert_eq!(v.d, fx(20860));
    assert_eq!(v.h, fx(131));
    // omega 66 units below nominal: torque balance 66 + d * 66 = 88 units,
    // times w_nom (27645 units) over 2 h (262 units).
    let x = nalgebra::Vector3::new(fx(0), fx(65470), fx(0));
    let dx = v.dynamics(&x, [fx(0), fx(0), fx(0), fx(0)]);
    assert_eq!(dx, nalgebra::Vector3::new(fx(65470), fx(6915048), fx(0)));
}

#[test]
fn presync_checked_inv_step_matches_inv_step() {
    let vg = [fx(92682), fx(1000)];
    let mut a = add_presynch::<SVector<Fxd, 2>, 2, DvocController>(dvoc(), Fxd::from_int(1));
    let mut b = add_presynch::<SVector<Fxd, 2>, 2, DvocController>(dvoc(), Fxd::from_int(1));
    let dx = a.inv_step(fx(66), [fx(500), fx(500)], vg);
    assert_eq!(b.checked_inv_step(fx(66), [fx(500), fx(500)], vg), Some(dx));
    assert_eq!(a.get_pu_voltage(), b.get_pu_voltage());
    a.disable_presync();
    b.disable_presync();
    let dx2 = a.inv_step(fx(66), [fx(500), fx(500)], vg);
    assert_eq!(b.checked_inv_step(fx(66), [fx(500), fx(500)], vg), Some(dx2));
    assert_eq!(a.get_pu_voltage(), b.get_pu_voltage());
}

#[test]
fn presync_checked_inv_step_refuses_a_zero_magnitude() {
    let mut p = add_presynch::<SVector<Fxd, 2>, 2, DvocController>(dvoc(), Fxd::from_int(1));
    p.set_voltage([fx(0), fx(0)]);
    assert_eq!(p.checked_inv_step(fx(66), [fx(0), fx(0)], [fx(92682), fx(0)]), None);
    assert_eq!(p.get_pu_voltage(), [fx(0), fx(0)]);
}
