//! The grid-following controller (GFL): a current controller that follows the
//! grid angle given by a phase-locked loop.
use crate::dynamics::{
    idxs_distinct, idxs_in_range, law_saturate_within_limits, limits_ordered, saturate_spec,
    saturate_states, within_limits, Dynamics, NoInputStep, StateLimits,
    StepDynamics, XState,
};
use crate::fixed_point::{
    fx_add, fx_div, fx_mul, fx_neg, fx_sub, law_sub_then_add_restores, lemma_fx_mul_no_wrap,
    lemma_fx_zero, trunc_div,
    wrap_i32, Fxd, ONE_BITS, TWO_BITS, ZERO_BITS,
};
use crate::inverter::{InvController, InvInterface};
use crate::pll::{PhaseLockLoop, SrfPhaseLockedLoop};
use crate::reference_frames::{
    ab_to_dqz, dqz_to_polar, dqz_to_polar_ok, fxc, sin_cos_of, zero, Polar, SinCos, ToFromDQZ,
    Trig, DQZ,
};
use crate::state::{vec2_get, vec2_new, StateVector};
use crate::trig::{atan2_args_ok, sqrt_arg_ok};
use nalgebra::SVector;
use vstd::prelude::*;

verus! {

/// A grid-following controller; it owns the phase-locked loop that tracks
/// the grid voltage.
pub struct GflController<P: PhaseLockLoop<SVector<Fxd, 2>>> {
    /// States: the integrators of the d- and q-axis current PI controllers.
    pub x: SVector<Fxd, 2>,
    /// Limits of the integrator states.
    pub sat_idx: StateLimits<2>,
    /// The phase-locked loop tracking the grid voltage angle.
    pub pll: P,
    /// The last output voltage magnitude (p.u.).
    pub v: Fxd,
    /// The last output voltage angle (p.u.).
    pub theta: Fxd,
    /// Nominal voltage (V).
    pub v_nom: Fxd,
    /// Nominal frequency (rad/s).
    pub w_nom: Fxd,
    /// Gains of the d-axis PI controller.
    pub kp_d: Fxd,
    pub ki_d: Fxd,
    /// Gains of the q-axis PI controller.
    pub kp_q: Fxd,
    pub ki_q: Fxd,
    /// Filter inductance (p.u.).
    pub l: Fxd,
    /// Active power reference (p.u.).
    pub p_ref: Fxd,
    /// Reactive power reference (p.u.).
    pub q_ref: Fxd,
    /// Number of phases for the power calculation.
    pub n_phase: Fxd,
}

/// The quantities of one evaluation of the current control law: current
/// errors and the d and q control voltages.
pub struct GflTerms {
    pub id_err: Fxd,
    pub iq_err: Fxd,
    pub u_d: Fxd,
    pub u_q: Fxd,
}

/// The grid voltage part `[u2, u3]` of the inputs, which the loop tracks.
pub open spec fn pll_input(u: Seq<Fxd>) -> Seq<Fxd> {
    seq![u[2], u[3]]
}

impl<P: PhaseLockLoop<SVector<Fxd, 2>>> GflController<P> {
    /// The current references for the grid voltage `vg_d`: with `stepping`,
    /// `(2 p_ref / n_phase / vg_d, -2 q_ref / n_phase / vg_d)`, otherwise
    /// `(p_ref / n_phase / vg_d, q_ref / n_phase / vg_d)`.
    pub open spec fn current_refs(&self, vg_d: Fxd, stepping: bool) -> (Fxd, Fxd) {
        if stepping {
            (
                fx_div(fx_div(fx_mul(self.p_ref, fxc(TWO_BITS)), self.n_phase), vg_d),
                fx_div(fx_div(fx_mul(fx_neg(self.q_ref), fxc(TWO_BITS)), self.n_phase), vg_d),
            )
        } else {
            (
                fx_div(fx_div(self.p_ref, self.n_phase), vg_d),
                fx_div(fx_div(self.q_ref, self.n_phase), vg_d),
            )
        }
    }

    /// The current control law in the frame at `theta` (rad), with per-unit
    /// grid frequency `omega`, inputs `u` (alpha-beta current, alpha-beta grid
    /// voltage) and integrator states `x0`, `x1`.
    pub open spec fn terms(
        &self,
        theta: Fxd,
        omega: Fxd,
        u: Seq<Fxd>,
        x0: Fxd,
        x1: Fxd,
        stepping: bool,
    ) -> GflTerms {
        let s = sin_cos_of(theta);
        let i_dq = ab_to_dqz(u[0], u[1], zero(), s);
        let vg_dq = ab_to_dqz(u[2], u[3], zero(), s);
        let (id_ref, iq_ref) = self.current_refs(vg_dq.d, stepping);
        let id_err = fx_sub(id_ref, i_dq.d);
        let iq_err = fx_sub(iq_ref, i_dq.q);
        let pi_d = fx_add(fx_mul(self.kp_d, id_err), fx_mul(self.ki_d, x0));
        let pi_q = fx_add(fx_mul(self.kp_q, iq_err), fx_mul(self.ki_q, x1));
        GflTerms {
            id_err,
            iq_err,
            u_d: fx_add(fx_add(pi_d, vg_dq.d), fx_mul(fx_mul(omega, self.l), iq_ref)),
            u_q: fx_sub(fx_add(pi_q, vg_dq.q), fx_mul(fx_mul(omega, self.l), id_ref)),
        }
    }

    /// The current references are defined: no division by zero.
    pub open spec fn refs_ok(&self, theta: Fxd, u: Seq<Fxd>) -> bool {
        &&& self.n_phase.bits != 0
        &&& ab_to_dqz(u[2], u[3], zero(), sin_cos_of(theta)).d.bits != 0
    }

    /// The control law and the polar form of its output voltage are defined.
    pub open spec fn law_ok(
        &self,
        theta: Fxd,
        omega: Fxd,
        u: Seq<Fxd>,
        x0: Fxd,
        x1: Fxd,
        stepping: bool,
    ) -> bool {
        let t = self.terms(theta, omega, u, x0, x1, stepping);
        &&& self.refs_ok(theta, u)
        &&& dqz_to_polar_ok(t.u_d, t.u_q, sin_cos_of(theta))
        &&& self.w_nom.bits != 0
    }

    /// The output voltage magnitude (p.u.) and angle (p.u.) of the law.
    pub open spec fn law_output(
        &self,
        theta: Fxd,
        omega: Fxd,
        u: Seq<Fxd>,
        x0: Fxd,
        x1: Fxd,
        stepping: bool,
    ) -> Seq<Fxd> {
        let t = self.terms(theta, omega, u, x0, x1, stepping);
        let v = dqz_to_polar(t.u_d, t.u_q, sin_cos_of(theta));
        seq![v.r, fx_div(v.theta, self.w_nom)]
    }

    /// The control law is defined whatever state the loop steps to.
    pub open spec fn output_step_ok(&self, dt: Fxd, u: Seq<Fxd>) -> bool {
        &&& self.pll.step_ok(dt, pll_input(u))
        &&& forall|p: P, dxp: Seq<Fxd>|
            #![trigger self.pll.step_post(p, dt, pll_input(u), dxp)]
            self.pll.step_post(p, dt, pll_input(u), dxp) ==> self.law_ok(
                p.voltage_angle_spec(),
                p.pu_omega_spec(),
                u,
                self.x.items()[0],
                self.x.items()[1],
                true,
            )
    }

    fn control_terms(
        &self,
        sin_cos: &SinCos,
        omega: Fxd,
        u: [Fxd; 4],
        x0: Fxd,
        x1: Fxd,
        stepping: bool,
    ) -> (r: GflTerms)
        requires
            self.refs_ok(sin_cos.theta, u@),
            *sin_cos == sin_cos_of(sin_cos.theta),
        ensures
            r == self.terms(sin_cos.theta, omega, u@, x0, x1, stepping),
    {
        let i_dq = DQZ::from_ab_(u[0], u[1], sin_cos);
        let vg_dq = DQZ::from_ab_(u[2], u[3], sin_cos);
        let two = Fxd { bits: TWO_BITS };
        let (id_ref, iq_ref) = if stepping {
            (
                self.p_ref.mul(two).div(self.n_phase).div(vg_dq.d),
                self.q_ref.neg().mul(two).div(self.n_phase).div(vg_dq.d),
            )
        } else {
            (self.p_ref.div(self.n_phase).div(vg_dq.d), self.q_ref.div(self.n_phase).div(vg_dq.d))
        };
        let id_err = id_ref.sub(i_dq.d);
        let iq_err = iq_ref.sub(i_dq.q);
        let pi_d = self.kp_d.mul(id_err).add(self.ki_d.mul(x0));
        let pi_q = self.kp_q.mul(iq_err).add(self.ki_q.mul(x1));
        let u_d = pi_d.add(vg_dq.d).add(omega.mul(self.l).mul(iq_ref));
        let u_q = pi_q.add(vg_dq.q).sub(omega.mul(self.l).mul(id_ref));
        GflTerms { id_err, iq_err, u_d, u_q }
    }

    /// What an output step from `self` to `next` is: the loop steps on the grid
    /// voltage, the law is evaluated in the new grid frame, giving the output
    /// `out` and the current errors `errs`, and the integrators take one
    /// forward Euler step of the errors; all else is kept.
    pub open spec fn output_step_post(
        &self,
        next: Self,
        dt: Fxd,
        u: Seq<Fxd>,
        out: Seq<Fxd>,
        errs: Seq<Fxd>,
    ) -> bool {
        let p = next.pll;
        let x = self.x.items();
        let t = self.terms(p.voltage_angle_spec(), p.pu_omega_spec(), u, x[0], x[1], true);
        &&& exists|dxp: Seq<Fxd>| self.pll.step_post(p, dt, pll_input(u), dxp)
        &&& out == self.law_output(p.voltage_angle_spec(), p.pu_omega_spec(), u, x[0], x[1], true)
        &&& errs == seq![t.id_err, t.iq_err]
        &&& next == (GflController { pll: p, x: next.x, ..*self })
        &&& next.x.items() == x.update(0, fx_add(x[0], fx_mul(t.id_err, dt))).update(
            1,
            fx_add(x[1], fx_mul(t.iq_err, dt)),
        )
    }

    /// Steps the phase-locked loop on the grid voltage, evaluates the current
    /// control law in the new grid frame, and integrates the current errors
    /// over `dt`; returns the output voltage (magnitude, angle in p.u.) and the
    /// current errors.
    pub fn output_step(&mut self, dt: Fxd, u: [Fxd; 4]) -> (r: ([Fxd; 2], [Fxd; 2]))
        requires
            old(self).output_step_ok(dt, u@),
        ensures
            old(self).output_step_post(*final(self), dt, u@, r.0@, r.1@),
    {
        let u_pll = [u[2], u[3]];
        assert(u_pll@ =~= pll_input(u@));
        let dx_pll = self.pll.step(dt, u_pll);
        let theta = self.pll.get_voltage_angle();
        let sin_cos = SinCos::from_theta(theta);
        let omega = self.pll.get_pu_omega();
        let x0 = vec2_get(&self.x, 0);
        let x1 = vec2_get(&self.x, 1);
        let t = self.control_terms(&sin_cos, omega, u, x0, x1, true);
        let v = Polar::from_dqz(t.u_d, t.u_q, Fxd { bits: ZERO_BITS }, &sin_cos);
        StateVector::set(&mut self.x, 0, x0.add(t.id_err.mul(dt)));
        StateVector::set(&mut self.x, 1, x1.add(t.iq_err.mul(dt)));
        let out = [v.r, v.theta.div(self.w_nom)];
        let errs = [t.id_err, t.iq_err];
        assert(out@ =~= seq![out[0], out[1]]);
        assert(errs@ =~= seq![t.id_err, t.iq_err]);
        (out, errs)
    }

    /// Whether the control law is defined in the frame of `sin_cos`.
    fn law_defined(
        &self,
        sin_cos: &SinCos,
        omega: Fxd,
        u: [Fxd; 4],
        x0: Fxd,
        x1: Fxd,
        stepping: bool,
    ) -> (r: bool)
        requires
            *sin_cos == sin_cos_of(sin_cos.theta),
        ensures
            r == self.law_ok(sin_cos.theta, omega, u@, x0, x1, stepping),
    {
        let vg_dq = DQZ::from_ab_(u[2], u[3], sin_cos);
        if self.n_phase.bits == 0 || vg_dq.d.bits == 0 || self.w_nom.bits == 0 {
            return false;
        }
        let t = self.control_terms(sin_cos, omega, u, x0, x1, stepping);
        let y = t.u_d.mul(sin_cos.sin_val).add(t.u_q.mul(sin_cos.cos_val));
        let xa = t.u_d.mul(sin_cos.cos_val).sub(t.u_q.mul(sin_cos.sin_val));
        let ss = t.u_d.mul(t.u_d).add(t.u_q.mul(t.u_q));
        sqrt_arg_ok(ss) && atan2_args_ok(y, xa)
    }

    /// The output voltage of the current control law at the present grid frame,
    /// without stepping, when the law is defined there (no division by zero,
    /// the polar form in range), and `None` otherwise.
    pub fn checked_output(&self, u: [Fxd; 4]) -> (r: Option<[Fxd; 2]>)
        ensures
            ({
                let theta = self.pll.voltage_angle_spec();
                let omega = self.pll.pu_omega_spec();
                let x = self.x.items();
                &&& r.is_some() <==> self.law_ok(theta, omega, u@, x[0], x[1], false)
                &&& r.is_some() ==> r.unwrap()@ == self.law_output(
                    theta,
                    omega,
                    u@,
                    x[0],
                    x[1],
                    false,
                )
            }),
    {
        let theta = self.pll.get_voltage_angle();
        let sin_cos = SinCos::from_theta(theta);
        let omega = self.pll.get_pu_omega();
        if self.law_defined(&sin_cos, omega, u, vec2_get(&self.x, 0), vec2_get(&self.x, 1), false) {
            Some(self.output(u))
        } else {
            None
        }
    }

    /// The output voltage (magnitude, angle in p.u.) of the current control law
    /// at the present grid frame, without stepping.
    pub fn output(&self, u: [Fxd; 4]) -> (r: [Fxd; 2])
        requires
            self.law_ok(
                self.pll.voltage_angle_spec(),
                self.pll.pu_omega_spec(),
                u@,
                self.x.items()[0],
                self.x.items()[1],
                false,
            ),
        ensures
            r@ == self.law_output(
                self.pll.voltage_angle_spec(),
                self.pll.pu_omega_spec(),
                u@,
                self.x.items()[0],
                self.x.items()[1],
                false,
            ),
    {
        let theta = self.pll.get_voltage_angle();
        let sin_cos = SinCos::from_theta(theta);
        let omega = self.pll.get_pu_omega();
        let t = self.control_terms(
            &sin_cos,
            omega,
            u,
            vec2_get(&self.x, 0),
            vec2_get(&self.x, 1),
            false,
        );
        let v = Polar::from_dqz(t.u_d, t.u_q, Fxd { bits: ZERO_BITS }, &sin_cos);
        let r = [v.r, v.theta.div(self.w_nom)];
        assert(r@ =~= seq![r[0], r[1]]);
        r
    }
}

impl GflController<SrfPhaseLockedLoop> {
    /// Whether an output step is defined: the loop can step on the grid
    /// voltage, and the control law is defined in the grid frame it steps to.
    fn output_step_defined(&self, dt: Fxd, u: [Fxd; 4]) -> (r: bool)
        ensures
            r == self.output_step_ok(dt, u@),
    {
        let mut trial = SrfPhaseLockedLoop {
            w_nom: self.pll.w_nom,
            kp: self.pll.kp,
            ki: self.pll.ki,
            x: self.pll.x,
            dx_dt: self.pll.dx_dt,
            omega: self.pll.omega,
            theta_idx: StateLimits {
                idxs: self.pll.theta_idx.idxs,
                mins: self.pll.theta_idx.mins,
                maxs: self.pll.theta_idx.maxs,
            },
            step_method: self.pll.step_method,
        };
        assert(trial == self.pll);
        let u_pll = [u[2], u[3]];
        assert(u_pll@ =~= pll_input(u@));
        let stepped = trial.checked_step(dt, u_pll);
        match stepped {
            None => false,
            Some(dx) => {
                let sin_cos = SinCos::from_theta(trial.get_voltage_angle());
                let omega = trial.get_pu_omega();
                let x0 = vec2_get(&self.x, 0);
                let x1 = vec2_get(&self.x, 1);
                let ok = self.law_defined(&sin_cos, omega, u, x0, x1, true);
                proof {
                    assert(self.pll.step_post(trial, dt, pll_input(u@), dx.items()));
                    assert forall|p: SrfPhaseLockedLoop, dxp: Seq<Fxd>|
                        self.pll.step_post(p, dt, pll_input(u@), dxp) implies (self.law_ok(
                        p.voltage_angle_spec(),
                        p.pu_omega_spec(),
                        u@,
                        x0,
                        x1,
                        true,
                    ) == ok) by {
                        assert(p.x.items() == trial.x.items());
                        assert(p.omega == trial.omega);
                    }
                }
                ok
            },
        }
    }

    /// Takes an output step as `output_step` does when the step is defined;
    /// otherwise returns `None` and leaves the controller unchanged.
    pub fn checked_output_step(&mut self, dt: Fxd, u: [Fxd; 4]) -> (r: Option<([Fxd; 2], [Fxd; 2])>)
        ensures
            r.is_some() <==> old(self).output_step_ok(dt, u@),
            r.is_some() ==> old(self).output_step_post(
                *final(self),
                dt,
                u@,
                r.unwrap().0@,
                r.unwrap().1@,
            ),
            r.is_none() ==> *final(self) == *old(self),
    {
        if self.output_step_defined(dt, u) {
            Some(self.output_step(dt, u))
        } else {
            None
        }
    }

    /// Steps the controller as `step` does when the step is defined (the
    /// output step is defined and the limits address the integrators);
    /// otherwise returns `None` and leaves the controller unchanged.
    pub fn checked_step(&mut self, dt: Fxd, u: [Fxd; 4]) -> (r: Option<SVector<Fxd, 2>>)
        ensures
            r.is_some() <==> old(self).step_ok(dt, u@),
            r.is_some() ==> old(self).step_post(*final(self), dt, u@, r.unwrap().items()),
            r.is_none() ==> *final(self) == *old(self),
    {
        if self.sat_idx.idxs[0] < 2 && self.sat_idx.idxs[1] < 2 && self.output_step_defined(dt, u) {
            Some(self.step(dt, u))
        } else {
            None
        }
    }
}

impl<P: PhaseLockLoop<SVector<Fxd, 2>>> Dynamics<SVector<Fxd, 2>, 4> for GflController<P> {
    open spec fn dynamics_ok(&self, x: Seq<Fxd>, u: Seq<Fxd>) -> bool {
        self.refs_ok(self.pll.voltage_angle_spec(), u)
    }

    open spec fn dynamics_spec(&self, x: Seq<Fxd>, u: Seq<Fxd>) -> Seq<Fxd> {
        let t = self.terms(
            self.pll.voltage_angle_spec(),
            self.pll.pu_omega_spec(),
            u,
            x[0],
            x[1],
            false,
        );
        seq![t.id_err, t.iq_err]
    }

    /// The integrator dynamics: the current errors at the present grid frame.
    fn dynamics(&self, x: &SVector<Fxd, 2>, u: [Fxd; 4]) -> (dx: SVector<Fxd, 2>) {
        let theta = self.pll.get_voltage_angle();
        let sin_cos = SinCos::from_theta(theta);
        let omega = self.pll.get_pu_omega();
        let t = self.control_terms(&sin_cos, omega, u, vec2_get(x, 0), vec2_get(x, 1), false);
        vec2_new(t.id_err, t.iq_err)
    }
}

impl<P: PhaseLockLoop<SVector<Fxd, 2>>> XState<SVector<Fxd, 2>> for GflController<P> {
    open spec fn x_spec(&self) -> SVector<Fxd, 2> {
        self.x
    }

    open spec fn with_x(&self, x: SVector<Fxd, 2>) -> Self {
        GflController { x, ..*self }
    }

    fn get_x(&self) -> (r: &SVector<Fxd, 2>) {
        &self.x
    }

    fn set_x(&mut self, x: SVector<Fxd, 2>) {
        self.x = x;
    }
}

impl<P: PhaseLockLoop<SVector<Fxd, 2>>> StepDynamics<SVector<Fxd, 2>, 4> for GflController<P> {
    open spec fn step_ok(&self, dt: Fxd, u: Seq<Fxd>) -> bool {
        self.output_step_ok(dt, u) && idxs_in_range(self.sat_idx.idxs@, 2)
    }

    /// A step is an output step followed by the saturation of the integrators;
    /// the output voltage is kept.
    open spec fn step_post(&self, next: Self, dt: Fxd, u: Seq<Fxd>, dx: Seq<Fxd>) -> bool {
        let p = next.pll;
        let x = self.x.items();
        let t = self.terms(p.voltage_angle_spec(), p.pu_omega_spec(), u, x[0], x[1], true);
        let out = self.law_output(p.voltage_angle_spec(), p.pu_omega_spec(), u, x[0], x[1], true);
        &&& exists|dxp: Seq<Fxd>| self.pll.step_post(p, dt, pll_input(u), dxp)
        &&& dx == seq![t.id_err, t.iq_err]
        &&& next == (GflController { pll: p, x: next.x, v: out[0], theta: out[1], ..*self })
        &&& next.x.items() == saturate_spec(
            x.update(0, fx_add(x[0], fx_mul(t.id_err, dt))).update(
                1,
                fx_add(x[1], fx_mul(t.iq_err, dt)),
            ),
            self.sat_idx.idxs@,
            self.sat_idx.mins@,
            self.sat_idx.maxs@,
            2,
        )
    }

    /// Steps the loop and the integrators, saturates the integrators and keeps
    /// the output voltage.
    fn step(&mut self, dt: Fxd, u: [Fxd; 4]) -> (dx: SVector<Fxd, 2>) {
        let (output, dx_dt) = self.output_step(dt, u);
        saturate_states(&mut self.x, &self.sat_idx);
        self.v = output[0];
        self.theta = output[1];
        let dx = vec2_new(dx_dt[0], dx_dt[1]);
        assert(dx.items() =~= seq![dx_dt[0], dx_dt[1]]);
        dx
    }
}

impl<P: PhaseLockLoop<SVector<Fxd, 2>>> NoInputStep<SVector<Fxd, 2>, 4> for GflController<P> {
    open spec fn step_zero_ok(&self, dt: Fxd) -> bool {
        self.step_ok(dt, seq![zero(), zero(), zero(), zero()])
    }

    open spec fn step_zero_post(&self, next: Self, dt: Fxd) -> bool {
        exists|dx: Seq<Fxd>| self.step_post(next, dt, seq![zero(), zero(), zero(), zero()], dx)
    }

    /// Steps the controller with zero inputs.
    fn step_(&mut self, dt: Fxd) {
        let z = Fxd { bits: ZERO_BITS };
        let u = [z, z, z, z];
        assert(u@ =~= seq![zero(), zero(), zero(), zero()]);
        let dx = self.step(dt, u);
        assert(old(self).step_post(*self, dt, seq![zero(), zero(), zero(), zero()], dx.items()));
    }
}

impl<P: PhaseLockLoop<SVector<Fxd, 2>>> InvInterface for GflController<P> {
    open spec fn voltage_spec(&self) -> (Fxd, Fxd) {
        (fx_mul(self.v, self.v_nom), fx_mul(self.theta, self.w_nom))
    }

    open spec fn pu_voltage_spec(&self) -> (Fxd, Fxd) {
        (self.v, self.theta)
    }

    open spec fn output_spec(&self) -> (Fxd, Fxd) {
        self.voltage_spec()
    }

    open spec fn w_nom_spec(&self) -> Fxd {
        self.w_nom
    }

    open spec fn set_voltage_post(&self, next: Self, v: (Fxd, Fxd)) -> bool {
        next == GflController { v: v.0, theta: v.1, ..*self }
    }

    open spec fn set_p_ref_post(&self, next: Self, p_ref: Fxd) -> bool {
        next == GflController { p_ref, ..*self }
    }

    open spec fn set_q_ref_post(&self, next: Self, q_ref: Fxd) -> bool {
        next == GflController { q_ref, ..*self }
    }

    fn get_voltage(&self) -> (r: [Fxd; 2]) {
        let r = [self.v.mul(self.v_nom), self.theta.mul(self.w_nom)];
        assert(r@ =~= seq![self.voltage_spec().0, self.voltage_spec().1]);
        r
    }

    fn get_pu_voltage(&self) -> (r: [Fxd; 2]) {
        let r = [self.v, self.theta];
        assert(r@ =~= seq![self.v, self.theta]);
        r
    }

    fn set_voltage(&mut self, v: [Fxd; 2]) {
        self.v = v[0];
        self.theta = v[1];
    }

    fn set_p_ref(&mut self, p_ref: Fxd) {
        self.p_ref = p_ref;
    }

    fn set_q_ref(&mut self, q_ref: Fxd) {
        self.q_ref = q_ref;
    }

    fn output(&self) -> (r: [Fxd; 2]) {
        self.get_voltage()
    }

    fn get_w_nom(&self) -> (r: Fxd) {
        self.w_nom
    }
}

impl<P: PhaseLockLoop<SVector<Fxd, 2>>> InvController<SVector<Fxd, 2>, 4> for GflController<P> {

}

/// Raw bits of 100, the limit of the integrator states.
pub const GFL_INTEGRATOR_LIMIT_BITS: i32 = 6553600;

/// Constructs a grid-following controller with zero integrators, unit
/// voltage at zero angle, zero power references and the integrators limited
/// to `[-100, 100]`.
pub fn build_gfl_controller<P: PhaseLockLoop<SVector<Fxd, 2>>>(
    v_nom: Fxd,
    w_nom: Fxd,
    kp_d: Fxd,
    ki_d: Fxd,
    kp_q: Fxd,
    ki_q: Fxd,
    l: Fxd,
    pll: P,
    n_phase: Fxd,
) -> (r: GflController<P>)
    ensures
        r.x.items() == seq![zero(), zero()],
        r.sat_idx.idxs@ == seq![0usize, 1usize],
        r.sat_idx.mins@ == seq![
            fxc(-GFL_INTEGRATOR_LIMIT_BITS as i32),
            fxc(-GFL_INTEGRATOR_LIMIT_BITS as i32),
        ],
        r.sat_idx.maxs@ == seq![fxc(GFL_INTEGRATOR_LIMIT_BITS), fxc(GFL_INTEGRATOR_LIMIT_BITS)],
        r.pll == pll,
        r.v == fxc(ONE_BITS),
        r.theta == zero(),
        r.v_nom == v_nom,
        r.w_nom == w_nom,
        r.kp_d == kp_d,
        r.ki_d == ki_d,
        r.kp_q == kp_q,
        r.ki_q == ki_q,
        r.l == l,
        r.p_ref == zero(),
        r.q_ref == zero(),
        r.n_phase == n_phase,
{
    let z = Fxd { bits: ZERO_BITS };
    let lo = Fxd { bits: -GFL_INTEGRATOR_LIMIT_BITS };
    let hi = Fxd { bits: GFL_INTEGRATOR_LIMIT_BITS };
    let sat_idx = StateLimits { idxs: [0, 1], mins: [lo, lo], maxs: [hi, hi] };
    assert(sat_idx.idxs@ =~= seq![0usize, 1usize]);
    assert(sat_idx.mins@ =~= seq![lo, lo]);
    assert(sat_idx.maxs@ =~= seq![hi, hi]);
    GflController {
        x: vec2_new(z, z),
        sat_idx,
        pll,
        v: Fxd { bits: ONE_BITS },
        theta: z,
        v_nom,
        w_nom,
        kp_d,
        ki_d,
        kp_q,
        ki_q,
        l,
        p_ref: z,
        q_ref: z,
        n_phase,
    }
}

/// Zero power references give zero current references, when the references
/// are defined (no division by zero).
proof fn lemma_zero_refs<P: PhaseLockLoop<SVector<Fxd, 2>>>(g: GflController<P>, vg_d: Fxd, stepping: bool)
    requires
        g.p_ref.bits == 0,
        g.q_ref.bits == 0,
        g.n_phase.bits != 0,
        vg_d.bits != 0,
    ensures
        g.current_refs(vg_d, stepping).0 == zero(),
        g.current_refs(vg_d, stepping).1 == zero(),
{
    let z = Fxd { bits: 0 };
    assert(g.p_ref == z && g.q_ref == z);
    lemma_fx_zero(fxc(TWO_BITS));
    assert(fx_mul(z, fxc(TWO_BITS)) == z);
    assert(fx_neg(z) == z) by {
        assert(wrap_i32(0) == 0);
    }
    assert(trunc_div(0int * 65536, g.n_phase.bits as int) == 0) by (nonlinear_arith)
        requires
            g.n_phase.bits != 0,
    ;
    assert(wrap_i32(0) == 0);
    assert(fx_div(z, g.n_phase) == z);
    assert(trunc_div(0int * 65536, vg_d.bits as int) == 0) by (nonlinear_arith)
        requires
            vg_d.bits != 0,
    ;
    assert(fx_div(z, vg_d) == z);
}

/// A proportional term on the error `0 - i` with the integral and
/// cross-coupling terms at zero, added to the feed-forward `vg`: `vg + kp (-i)`
/// when nothing wraps around, below `vg` for a positive `i` and not below it
/// for a negative one (with a positive gain).
proof fn lemma_proportional_plus_feedforward(kp: Fxd, ki: Fxd, cross: Fxd, i: Fxd, vg: Fxd)
    ensures
        ({
            let pi = fx_add(fx_mul(kp, fx_neg(i)), fx_mul(ki, zero()));
            let r_add = fx_add(fx_add(pi, vg), fx_mul(cross, zero()));
            let r_sub = fx_sub(fx_add(pi, vg), fx_mul(cross, zero()));
            let a = (kp.bits * (-i.bits)) / 65536;
            let ok = i32::MIN < i.bits && -0x4000_0000 <= a < 0x4000_0000 && -0x4000_0000 <= vg.bits
                < 0x4000_0000;
            &&& ok ==> r_add.bits == vg.bits + a && r_sub.bits == vg.bits + a
            &&& ok && kp.bits > 0 && i.bits > 0 ==> a < 0
            &&& ok && kp.bits > 0 && i.bits < 0 ==> a >= 0
        }),
{
    let a = (kp.bits * (-i.bits)) / 65536;
    lemma_fx_zero(ki);
    lemma_fx_zero(cross);
    if i32::MIN < i.bits && -0x4000_0000 <= a < 0x4000_0000 && -0x4000_0000 <= vg.bits < 0x4000_0000 {
        let err = fx_neg(i);
        assert(wrap_i32(-i.bits) == -i.bits);
        assert(err.bits == -i.bits);
        lemma_fx_mul_no_wrap(kp, err);
        let pd = fx_mul(kp, err);
        assert(pd.bits == a);
        assert(wrap_i32(pd.bits + 0) == pd.bits);
        assert(wrap_i32(pd.bits + vg.bits) == pd.bits + vg.bits);
        assert(wrap_i32(pd.bits + vg.bits + 0) == pd.bits + vg.bits);
        assert(wrap_i32(pd.bits + vg.bits - 0) == pd.bits + vg.bits);
        if kp.bits > 0 && i.bits > 0 {
            assert(kp.bits * (-i.bits) < 0) by (nonlinear_arith)
                requires
                    kp.bits > 0,
                    i.bits > 0,
            ;
        }
        if kp.bits > 0 && i.bits < 0 {
            assert(kp.bits * (-i.bits) > 0) by (nonlinear_arith)
                requires
                    kp.bits > 0,
                    i.bits < 0,
            ;
        }
    }
}

/// The current errors of the grid-following controller are the references
/// minus the measured current in the frame of the loop angle: adding the
/// measured current back to an error gives its reference. With zero power
/// references (and defined references) the errors are the negated measured
/// currents, so a positive measured current gives a negative error, and a
/// negative one (other than the most negative raw value) a positive error.
pub proof fn law_gfl_errors_are_reference_minus_measurement<P: PhaseLockLoop<SVector<Fxd, 2>>>(
    g: GflController<P>,
    theta: Fxd,
    omega: Fxd,
    u: Seq<Fxd>,
    x0: Fxd,
    x1: Fxd,
    stepping: bool,
)
    ensures
        ({
            let s = sin_cos_of(theta);
            let i = ab_to_dqz(u[0], u[1], zero(), s);
            let vg = ab_to_dqz(u[2], u[3], zero(), s);
            let refs = g.current_refs(vg.d, stepping);
            let t = g.terms(theta, omega, u, x0, x1, stepping);
            &&& fx_add(t.id_err, i.d) == refs.0
            &&& fx_add(t.iq_err, i.q) == refs.1
            &&& (g.p_ref.bits == 0 && g.q_ref.bits == 0 && g.refs_ok(theta, u)) ==> {
                &&& t.id_err == fx_neg(i.d)
                &&& t.iq_err == fx_neg(i.q)
                &&& i.d.bits > 0 ==> t.id_err.bits < 0
                &&& i.q.bits > 0 ==> t.iq_err.bits < 0
                &&& i32::MIN < i.d.bits < 0 ==> t.id_err.bits > 0
                &&& i32::MIN < i.q.bits < 0 ==> t.iq_err.bits > 0
            }
        }),
{
    let s = sin_cos_of(theta);
    let i = ab_to_dqz(u[0], u[1], zero(), s);
    let vg = ab_to_dqz(u[2], u[3], zero(), s);
    let refs = g.current_refs(vg.d, stepping);
    law_sub_then_add_restores(refs.0, i.d);
    law_sub_then_add_restores(refs.1, i.q);
    if g.p_ref.bits == 0 && g.q_ref.bits == 0 && g.refs_ok(theta, u) {
        lemma_zero_refs(g, vg.d, stepping);
        assert(wrap_i32(0 - i.d.bits) == wrap_i32(-i.d.bits));
        assert(wrap_i32(0 - i.q.bits) == wrap_i32(-i.q.bits));
        assert(i.d.bits > i32::MIN ==> wrap_i32(-i.d.bits) == -i.d.bits);
        assert(i.q.bits > i32::MIN ==> wrap_i32(-i.q.bits) == -i.q.bits);
        assert(i.d.bits == i32::MIN ==> wrap_i32(-i.d.bits) == i.d.bits);
        assert(i.q.bits == i32::MIN ==> wrap_i32(-i.q.bits) == i.q.bits);
    }
}

/// With zero power references and the integrators at zero, the output
/// voltage of the grid-following controller is the grid voltage plus
/// `kp (0 - i)` on each axis (in the frame of the loop angle): a positive
/// measured current lowers the voltage on its axis below the grid voltage and
/// a negative one keeps it at or above (for positive gains and nothing
/// wrapping around).
pub proof fn law_gfl_excess_current_lowers_the_voltage<P: PhaseLockLoop<SVector<Fxd, 2>>>(
    g: GflController<P>,
    theta: Fxd,
    omega: Fxd,
    u: Seq<Fxd>,
    stepping: bool,
)
    requires
        g.p_ref.bits == 0,
        g.q_ref.bits == 0,
        g.refs_ok(theta, u),
    ensures
        ({
            let s = sin_cos_of(theta);
            let i = ab_to_dqz(u[0], u[1], zero(), s);
            let vg = ab_to_dqz(u[2], u[3], zero(), s);
            let t = g.terms(theta, omega, u, zero(), zero(), stepping);
            let a = (g.kp_d.bits * (-i.d.bits)) / 65536;
            let b = (g.kp_q.bits * (-i.q.bits)) / 65536;
            let ok_d = i32::MIN < i.d.bits && -0x4000_0000 <= a < 0x4000_0000 && -0x4000_0000
                <= vg.d.bits < 0x4000_0000;
            let ok_q = i32::MIN < i.q.bits && -0x4000_0000 <= b < 0x4000_0000 && -0x4000_0000
                <= vg.q.bits < 0x4000_0000;
            &&& ok_d ==> t.u_d.bits == vg.d.bits + a
            &&& ok_d && g.kp_d.bits > 0 && i.d.bits > 0 ==> t.u_d.bits < vg.d.bits
            &&& ok_d && g.kp_d.bits > 0 && i.d.bits < 0 ==> t.u_d.bits >= vg.d.bits
            &&& ok_q ==> t.u_q.bits == vg.q.bits + b
            &&& ok_q && g.kp_q.bits > 0 && i.q.bits > 0 ==> t.u_q.bits < vg.q.bits
            &&& ok_q && g.kp_q.bits > 0 && i.q.bits < 0 ==> t.u_q.bits >= vg.q.bits
        }),
{
    let s = sin_cos_of(theta);
    let i = ab_to_dqz(u[0], u[1], zero(), s);
    let vg = ab_to_dqz(u[2], u[3], zero(), s);
    law_gfl_errors_are_reference_minus_measurement(g, theta, omega, u, zero(), zero(), stepping);
    lemma_zero_refs(g, vg.d, stepping);
    let t = g.terms(theta, omega, u, zero(), zero(), stepping);
    let cross = fx_mul(omega, g.l);
    assert(t.id_err == fx_neg(i.d) && t.iq_err == fx_neg(i.q));
    assert(t.u_d == fx_add(
        fx_add(fx_add(fx_mul(g.kp_d, fx_neg(i.d)), fx_mul(g.ki_d, zero())), vg.d),
        fx_mul(cross, zero()),
    ));
    assert(t.u_q == fx_sub(
        fx_add(fx_add(fx_mul(g.kp_q, fx_neg(i.q)), fx_mul(g.ki_q, zero())), vg.q),
        fx_mul(cross, zero()),
    ));
    lemma_proportional_plus_feedforward(g.kp_d, g.ki_d, cross, i.d, vg.d);
    lemma_proportional_plus_feedforward(g.kp_q, g.ki_q, cross, i.q, vg.q);
}

/// A step of a grid-following controller leaves each integrator state within
/// its limits, when the limits address the two integrators and no lower limit
/// exceeds its upper limit (as built, they are `[-100, 100]`).
pub proof fn law_gfl_step_keeps_integrators_within_limits<P: PhaseLockLoop<SVector<Fxd, 2>>>(
    g: GflController<P>,
    next: GflController<P>,
    dt: Fxd,
    u: Seq<Fxd>,
    dx: Seq<Fxd>,
)
    requires
        g.sat_idx.idxs@ == seq![0usize, 1usize],
        limits_ordered(g.sat_idx.mins@, g.sat_idx.maxs@, 2),
        g.step_post(next, dt, u, dx),
    ensures
        within_limits(next.x.items(), g.sat_idx.idxs@, g.sat_idx.mins@, g.sat_idx.maxs@, 2),
        next.sat_idx == g.sat_idx,
{
    let x = g.x.items();
    let p = next.pll;
    let t = g.terms(p.voltage_angle_spec(), p.pu_omega_spec(), u, x[0], x[1], true);
    let y = x.update(0, fx_add(x[0], fx_mul(t.id_err, dt))).update(1, fx_add(x[1], fx_mul(t.iq_err, dt)));
    assert(idxs_distinct(g.sat_idx.idxs@, 2));
    law_saturate_within_limits(y, g.sat_idx.idxs@, g.sat_idx.mins@, g.sat_idx.maxs@, 2);
}

} // verus!
