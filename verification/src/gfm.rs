//! Grid-forming controllers: dispatchable virtual oscillator control (dVOC),
//! droop control and the virtual synchronous machine (VSM).
use crate::calculations::{active_power, calc_dq_power, reactive_power};
use crate::dynamics::{
    axpy, idxs_in_range, law_wrap_angle_below_limit, lemma_wrap_angle_ok_single, method_dx,
    method_ok, step_with, vec_axpy, vec_axpy_scaled, wrap_angle, wrap_angle_ok, wrap_angle_spec,
    Dynamics, NoInputStep, StateLimits, StepDynamics, StepMethod, XState,
};
use crate::fixed_point::{
    fx_add, fx_div, fx_mul, fx_neg, fx_sub, lemma_fx_div_pos_no_wrap, lemma_gain_times_gap_sign,
    lemma_one_minus_gain_times_gap, trunc_div, lemma_fx_mul_no_wrap,
    lemma_fx_sub_no_wrap, lemma_fx_zero, lemma_two_pi, Fxd, ONE_BITS, ONE_HALF_BITS, PI_BITS,
    SQRT_2_BITS, THREE_BITS, TWO_BITS, ZERO_BITS,
};
use crate::inverter::{InvController, InvInterface, Presync, PresyncInvController};
use crate::pll::{PhaseLockLoop, SrfPhaseLockedLoop};
use crate::reference_frames::{
    ab_to_dqz, fxc, sin_cos_of, zero, AlphaBeta, SinCos, ToFromDQZ, Trig, DQZ,
};
use crate::state::{vec2_get, vec2_new, vec3_get, vec3_new, StateVector};
use nalgebra::SVector;
use vstd::prelude::*;

verus! {

/* Dispatchable virtual oscillator controller */

/// A dispatchable virtual oscillator controller (dVOC), after "A
/// Grid-compatible Virtual Oscillator Controller" by Lu M. et al.
pub struct DvocController {
    /// States: voltage magnitude and angle, both in per unit.
    pub x: SVector<Fxd, 2>,
    /// The angle state (index 1) wraps at one period.
    pub theta_idx: StateLimits<1>,
    /// Nominal voltage (V).
    pub v_nom: Fxd,
    /// Nominal frequency (rad/s).
    pub w_nom: Fxd,
    /// Nominal frequency (Hz).
    pub f_nom: Fxd,
    /// Speed constant.
    pub xi: Fxd,
    /// Oscillator capacitance.
    pub c: Fxd,
    /// Active power reference (p.u.).
    pub p_ref: Fxd,
    /// Reactive power reference (p.u.).
    pub q_ref: Fxd,
    /// Number of phases for the power calculation.
    pub n_phase: Fxd,
    pub step_method: StepMethod,
}

/// The current in the frame of the oscillator angle `theta_pu * w_nom`.
pub open spec fn current_dq(u: Seq<Fxd>, theta: Fxd) -> DQZ {
    ab_to_dqz(u[0], u[1], zero(), sin_cos_of(theta))
}

/// `1 / (sqrt(2) c v)`.
pub open spec fn dvoc_gain(c: Fxd, v: Fxd) -> Fxd {
    fx_div(fxc(ONE_BITS), fx_mul(fx_mul(fxc(SQRT_2_BITS), c), v))
}

impl DvocController {
    /// The per-unit dVOC dynamics (eq. 26 of the paper).
    pub open spec fn dynamics_of(&self, x: Seq<Fxd>, u: Seq<Fxd>) -> Seq<Fxd> {
        let v = x[0];
        let v_d = fx_mul(v, fxc(SQRT_2_BITS));
        let i_dq = current_dq(u, fx_mul(x[1], self.w_nom));
        let p = active_power(v_d, zero(), i_dq.d, i_dq.q, self.n_phase);
        let q = reactive_power(v_d, zero(), i_dq.d, i_dq.q, self.n_phase);
        let k = dvoc_gain(self.c, v);
        let dv_dt = fx_sub(
            fx_mul(fx_mul(fx_mul(fxc(TWO_BITS), self.xi), v), fx_sub(fxc(ONE_BITS), fx_mul(v, v))),
            fx_mul(k, fx_sub(q, self.q_ref)),
        );
        let dtheta_dt = fx_sub(
            fxc(ONE_BITS),
            fx_mul(fx_div(fx_div(k, v), self.w_nom), fx_sub(p, self.p_ref)),
        );
        seq![dv_dt, dtheta_dt]
    }

    /// The divisors of the dynamics are not zero.
    pub open spec fn dynamics_defined(&self, x: Seq<Fxd>) -> bool {
        &&& fx_mul(fx_mul(fxc(SQRT_2_BITS), self.c), x[0]).bits != 0
        &&& x[0].bits != 0
        &&& self.w_nom.bits != 0
    }

    /// Constructs a dVOC from its parameters, at nominal voltage and zero angle.
    pub fn new(v_nom: Fxd, w_nom: Fxd, xi: Fxd, c: Fxd, n_phase: Fxd, step_method: StepMethod) -> (r:
        DvocController)
        requires
            w_nom.bits != 0,
        ensures
            r.x.items() == seq![fxc(ONE_BITS), zero()],
            r.theta_idx.idxs@ == seq![1usize],
            r.theta_idx.maxs@ == seq![crate::dynamics::theta_period(w_nom)],
            r.v_nom == v_nom,
            r.w_nom == w_nom,
            r.f_nom == fx_div(w_nom, fx_mul(fxc(TWO_BITS), fxc(PI_BITS))),
            r.xi == xi,
            r.c == c,
            r.p_ref == zero(),
            r.q_ref == zero(),
            r.n_phase == n_phase,
            r.step_method == step_method,
    {
        DvocController {
            v_nom,
            w_nom,
            f_nom: {
                proof {
                    lemma_two_pi();
                }
                w_nom.div(Fxd { bits: TWO_BITS }.mul(Fxd { bits: PI_BITS }))
            },
            x: vec2_new(Fxd { bits: ONE_BITS }, Fxd { bits: ZERO_BITS }),
            theta_idx: StateLimits::new_theta_wrap([1], w_nom),
            xi,
            c,
            p_ref: Fxd { bits: ZERO_BITS },
            q_ref: Fxd { bits: ZERO_BITS },
            n_phase,
            step_method,
        }
    }
}

impl Dynamics<SVector<Fxd, 2>, 2> for DvocController {
    open spec fn dynamics_ok(&self, x: Seq<Fxd>, u: Seq<Fxd>) -> bool {
        self.dynamics_defined(x)
    }

    open spec fn dynamics_spec(&self, x: Seq<Fxd>, u: Seq<Fxd>) -> Seq<Fxd> {
        self.dynamics_of(x, u)
    }

    /// The voltage dynamics for the states `x` (magnitude, angle) and the
    /// alpha-beta current `u`.
    fn dynamics(&self, x: &SVector<Fxd, 2>, u: [Fxd; 2]) -> (dx: SVector<Fxd, 2>) {
        let v = vec2_get(x, 0);
        let theta = vec2_get(x, 1).mul(self.w_nom);
        let v_dq = DQZ {
            d: v.mul(Fxd { bits: SQRT_2_BITS }),
            q: Fxd { bits: ZERO_BITS },
            z: Fxd { bits: ZERO_BITS },
        };
        let i_dq = AlphaBeta::from_ab_(u[0], u[1]).to_dqz(&SinCos::from_theta(theta));
        let (p, q) = calc_dq_power(&v_dq, &i_dq, self.n_phase);
        let one = Fxd { bits: ONE_BITS };
        let k = one.div(Fxd { bits: SQRT_2_BITS }.mul(self.c).mul(v));
        let dv_dt = Fxd { bits: TWO_BITS }.mul(self.xi).mul(v).mul(one.sub(v.mul(v))).sub(
            k.mul(q.sub(self.q_ref)),
        );
        let dtheta_dt = one.sub(k.div(v).div(self.w_nom).mul(p.sub(self.p_ref)));
        vec2_new(dv_dt, dtheta_dt)
    }
}

impl XState<SVector<Fxd, 2>> for DvocController {
    open spec fn x_spec(&self) -> SVector<Fxd, 2> {
        self.x
    }

    open spec fn with_x(&self, x: SVector<Fxd, 2>) -> Self {
        DvocController { x, ..*self }
    }

    fn get_x(&self) -> (r: &SVector<Fxd, 2>) {
        &self.x
    }

    fn set_x(&mut self, x: SVector<Fxd, 2>) {
        self.x = x;
    }
}

impl DvocController {
    /// The states after a step with the dynamics `dx`, with the angle wrapped.
    pub open spec fn stepped_x(&self, dx: Seq<Fxd>, dt: Fxd) -> Seq<Fxd> {
        wrap_angle_spec(
            axpy(self.x.items(), dx, dt, 2),
            self.theta_idx.idxs@,
            self.theta_idx.maxs@,
            1,
        )
    }
}

impl DvocController {
    /// A copy of the controller.
    fn duplicate(&self) -> (r: DvocController)
        ensures
            r == *self,
    {
        DvocController {
            x: self.x,
            theta_idx: StateLimits {
                idxs: self.theta_idx.idxs,
                mins: self.theta_idx.mins,
                maxs: self.theta_idx.maxs,
            },
            v_nom: self.v_nom,
            w_nom: self.w_nom,
            f_nom: self.f_nom,
            xi: self.xi,
            c: self.c,
            p_ref: self.p_ref,
            q_ref: self.q_ref,
            n_phase: self.n_phase,
            step_method: self.step_method,
        }
    }

    /// Whether the dynamics are defined at the states `x`.
    fn dynamics_defined_at(&self, x: &SVector<Fxd, 2>) -> (r: bool)
        ensures
            r == self.dynamics_defined(x.items()),
    {
        let v = vec2_get(x, 0);
        Fxd { bits: SQRT_2_BITS }.mul(self.c).mul(v).bits != 0 && v.bits != 0 && self.w_nom.bits
            != 0
    }

    /// Whether the step method is defined: the dynamics are defined at every
    /// intermediate state it evaluates them at.
    fn method_defined(&self, dt: Fxd, u: [Fxd; 2]) -> (r: bool)
        ensures
            r == method_ok::<SVector<Fxd, 2>, DvocController, 2>(
                self.step_method,
                *self,
                self.x.items(),
                u@,
                dt,
            ),
    {
        let x = self.x;
        if !self.dynamics_defined_at(&x) {
            return false;
        }
        let half = Fxd { bits: ONE_HALF_BITS };
        match self.step_method {
            StepMethod::ForwardEuler => true,
            StepMethod::Rk2 => {
                let k1 = self.dynamics(&x, u);
                let x2 = vec_axpy(&x, &k1, dt);
                self.dynamics_defined_at(&x2)
            },
            StepMethod::Rk4 => {
                let k1 = self.dynamics(&x, u);
                let x2 = vec_axpy_scaled(&x, &k1, dt, half);
                if !self.dynamics_defined_at(&x2) {
                    return false;
                }
                let k2 = self.dynamics(&x2, u);
                let x3 = vec_axpy_scaled(&x, &k2, dt, half);
                if !self.dynamics_defined_at(&x3) {
                    return false;
                }
                let k3 = self.dynamics(&x3, u);
                let x4 = vec_axpy(&x, &k3, dt);
                self.dynamics_defined_at(&x4)
            },
        }
    }

    /// Steps the dVOC as `step` does when the step is defined (no division by
    /// zero at the states the step method evaluates, a wrappable angle);
    /// otherwise returns `None` and leaves the controller unchanged.
    pub fn checked_step(&mut self, dt: Fxd, u: [Fxd; 2]) -> (r: Option<SVector<Fxd, 2>>)
        ensures
            r.is_some() <==> old(self).step_ok(dt, u@),
            r.is_some() ==> old(self).step_post(*final(self), dt, u@, r.unwrap().items()),
            r.is_none() ==> *final(self) == *old(self),
    {
        if !self.method_defined(dt, u) {
            return None;
        }
        let idx = self.theta_idx.idxs[0];
        if idx >= 2 {
            return None;
        }
        let mut trial = self.duplicate();
        let m = self.step_method;
        let dx = step_with(m, &mut trial, dt, u);
        let angle = vec2_get(&trial.x, idx);
        let max = self.theta_idx.maxs[0];
        proof {
            lemma_wrap_angle_ok_single(trial.x.items(), self.theta_idx.idxs@, self.theta_idx.maxs@);
        }
        if angle.bits > max.bits && max.bits == 0 {
            return None;
        }
        Some(self.step(dt, u))
    }
}

impl StepDynamics<SVector<Fxd, 2>, 2> for DvocController {
    open spec fn step_ok(&self, dt: Fxd, u: Seq<Fxd>) -> bool {
        let dx = method_dx::<SVector<Fxd, 2>, DvocController, 2>(
            self.step_method,
            *self,
            self.x.items(),
            u,
            dt,
        );
        &&& method_ok::<SVector<Fxd, 2>, DvocController, 2>(
            self.step_method,
            *self,
            self.x.items(),
            u,
            dt,
        )
        &&& idxs_in_range(self.theta_idx.idxs@, 2)
        &&& wrap_angle_ok(
            axpy(self.x.items(), dx, dt, 2),
            self.theta_idx.idxs@,
            self.theta_idx.maxs@,
            1,
        )
    }

    open spec fn step_post(&self, next: Self, dt: Fxd, u: Seq<Fxd>, dx: Seq<Fxd>) -> bool {
        &&& dx == method_dx::<SVector<Fxd, 2>, DvocController, 2>(
            self.step_method,
            *self,
            self.x.items(),
            u,
            dt,
        )
        &&& next == self.with_x(next.x)
        &&& next.x.items() == self.stepped_x(dx, dt)
    }

    /// Steps the dVOC with its step method and wraps the angle state.
    fn step(&mut self, dt: Fxd, u: [Fxd; 2]) -> (dx: SVector<Fxd, 2>) {
        let m = self.step_method;
        let dx = step_with(m, self, dt, u);
        wrap_angle(&mut self.x, &self.theta_idx);
        dx
    }
}

impl NoInputStep<SVector<Fxd, 2>, 2> for DvocController {
    open spec fn step_zero_ok(&self, dt: Fxd) -> bool {
        self.step_ok(dt, seq![zero(), zero()])
    }

    open spec fn step_zero_post(&self, next: Self, dt: Fxd) -> bool {
        exists|dx: Seq<Fxd>| self.step_post(next, dt, seq![zero(), zero()], dx)
    }

    /// Steps the dVOC with zero current.
    fn step_(&mut self, dt: Fxd) {
        let z = Fxd { bits: ZERO_BITS };
        let u = [z, z];
        assert(u@ =~= seq![zero(), zero()]);
        let dx = self.step(dt, u);
        assert(old(self).step_post(*self, dt, seq![zero(), zero()], dx.items()));
    }
}

impl InvInterface for DvocController {
    open spec fn voltage_spec(&self) -> (Fxd, Fxd) {
        (fx_mul(self.x.items()[0], self.v_nom), fx_mul(self.x.items()[1], self.w_nom))
    }

    open spec fn pu_voltage_spec(&self) -> (Fxd, Fxd) {
        (self.x.items()[0], self.x.items()[1])
    }

    open spec fn output_spec(&self) -> (Fxd, Fxd) {
        self.voltage_spec()
    }

    open spec fn w_nom_spec(&self) -> Fxd {
        self.w_nom
    }

    open spec fn set_voltage_post(&self, next: Self, v: (Fxd, Fxd)) -> bool {
        &&& next == self.with_x(next.x)
        &&& next.x.items() == self.x.items().update(0, v.0).update(1, v.1)
    }

    open spec fn set_p_ref_post(&self, next: Self, p_ref: Fxd) -> bool {
        next == DvocController { p_ref, ..*self }
    }

    open spec fn set_q_ref_post(&self, next: Self, q_ref: Fxd) -> bool {
        next == DvocController { q_ref, ..*self }
    }

    fn get_voltage(&self) -> (r: [Fxd; 2]) {
        let r = [vec2_get(&self.x, 0).mul(self.v_nom), vec2_get(&self.x, 1).mul(self.w_nom)];
        assert(r@ =~= seq![self.voltage_spec().0, self.voltage_spec().1]);
        r
    }

    fn get_pu_voltage(&self) -> (r: [Fxd; 2]) {
        let r = [vec2_get(&self.x, 0), vec2_get(&self.x, 1)];
        assert(r@ =~= seq![self.pu_voltage_spec().0, self.pu_voltage_spec().1]);
        r
    }

    /// Sets the voltage magnitude and angle states.
    fn set_voltage(&mut self, v: [Fxd; 2]) {
        StateVector::set(&mut self.x, 0, v[0]);
        StateVector::set(&mut self.x, 1, v[1]);
    }

    fn set_p_ref(&mut self, p_ref: Fxd) {
        self.p_ref = p_ref;
    }

    fn set_q_ref(&mut self, q_ref: Fxd) {
        self.q_ref = q_ref;
    }

    fn output(&self) -> (r: [Fxd; 2]) {
        self.get_voltage()
    }

    fn get_w_nom(&self) -> (r: Fxd) {
        self.w_nom
    }
}

impl InvController<SVector<Fxd, 2>, 2> for DvocController {

}


/// The nominal angular frequency `2 pi f_nom` (rad/s) of a frequency in Hz.
pub open spec fn w_of_f(f_nom: Fxd) -> Fxd {
    fx_mul(fx_mul(fxc(TWO_BITS), fxc(PI_BITS)), f_nom)
}

/// Raw bits of 0.2679, the default oscillator capacitance.
pub const DEFAULT_DVOC_C_BITS: i32 = 17557;

/// Constructs a dVOC with the default parameters (speed constant 15,
/// capacitance 0.2679, three phases, second-order Runge-Kutta steps) for the
/// nominal voltage `v_nom` (V) and frequency `f_nom` (Hz).
pub fn build_default_dvoc_controller(v_nom: Fxd, f_nom: Fxd) -> (r: DvocController)
    requires
        w_of_f(f_nom).bits != 0,
    ensures
        r.v_nom == v_nom,
        r.f_nom == f_nom,
        r.w_nom == w_of_f(f_nom),
        r.x.items() == seq![fxc(ONE_BITS), zero()],
        r.theta_idx.idxs@ == seq![1usize],
        r.theta_idx.maxs@ == seq![crate::dynamics::theta_period(w_of_f(f_nom))],
        r.xi == fxc(983040i32),
        r.c == fxc(DEFAULT_DVOC_C_BITS),
        r.p_ref == zero(),
        r.q_ref == zero(),
        r.n_phase == fxc(THREE_BITS),
        r.step_method == StepMethod::Rk2,
{
    let w_nom = Fxd { bits: TWO_BITS }.mul(Fxd { bits: PI_BITS }).mul(f_nom);
    DvocController {
        v_nom,
        w_nom,
        f_nom,
        x: vec2_new(Fxd { bits: ONE_BITS }, Fxd { bits: ZERO_BITS }),
        theta_idx: StateLimits::new_theta_wrap([1], w_nom),
        xi: Fxd::from_int(15),
        c: Fxd { bits: DEFAULT_DVOC_C_BITS },
        p_ref: Fxd { bits: ZERO_BITS },
        q_ref: Fxd { bits: ZERO_BITS },
        n_phase: Fxd { bits: THREE_BITS },
        step_method: StepMethod::Rk2,
    }
}

/// Constructs a three-phase per-unit dVOC, stepped with the second-order
/// Runge-Kutta method, from the nominal voltage `v_nom` (V), nominal frequency
/// `w_nom` (rad/s), speed constant `xi` and capacitance `c`, at nominal
/// voltage and zero angle.
pub fn build_per_unit_dvoc_controller(v_nom: Fxd, w_nom: Fxd, xi: Fxd, c: Fxd) -> (r:
    DvocController)
    requires
        w_nom.bits != 0,
    ensures
        r.v_nom == v_nom,
        r.w_nom == w_nom,
        r.f_nom == fx_div(w_nom, fx_mul(fxc(TWO_BITS), fxc(PI_BITS))),
        r.x.items() == seq![fxc(ONE_BITS), zero()],
        r.theta_idx.idxs@ == seq![1usize],
        r.theta_idx.maxs@ == seq![crate::dynamics::theta_period(w_nom)],
        r.xi == xi,
        r.c == c,
        r.p_ref == zero(),
        r.q_ref == zero(),
        r.n_phase == fxc(THREE_BITS),
        r.step_method == StepMethod::Rk2,
{
    DvocController::new(v_nom, w_nom, xi, c, Fxd { bits: THREE_BITS }, StepMethod::Rk2)
}

/// Constructs a three-phase dVOC, stepped with the second-order Runge-Kutta
/// method, from the nominal voltage `v_nom` (V), nominal frequency `f_nom`
/// (Hz), speed constant `xi` and capacitance `c`; the nominal angular
/// frequency is `(2 f_nom) pi`.
pub fn build_dvoc_controller_from_flt(v_nom: Fxd, f_nom: Fxd, xi: Fxd, c: Fxd) -> (r:
    DvocController)
    requires
        fx_mul(fx_mul(fxc(TWO_BITS), f_nom), fxc(PI_BITS)).bits != 0,
    ensures
        r.v_nom == v_nom,
        r.f_nom == f_nom,
        r.w_nom == fx_mul(fx_mul(fxc(TWO_BITS), f_nom), fxc(PI_BITS)),
        r.x.items() == seq![fxc(ONE_BITS), zero()],
        r.theta_idx.idxs@ == seq![1usize],
        r.theta_idx.maxs@ == seq![crate::dynamics::theta_period(r.w_nom)],
        r.xi == xi,
        r.c == c,
        r.p_ref == zero(),
        r.q_ref == zero(),
        r.n_phase == fxc(THREE_BITS),
        r.step_method == StepMethod::Rk2,
{
    let w_nom = Fxd { bits: TWO_BITS }.mul(f_nom).mul(Fxd { bits: PI_BITS });
    DvocController {
        v_nom,
        w_nom,
        f_nom,
        x: vec2_new(Fxd { bits: ONE_BITS }, Fxd { bits: ZERO_BITS }),
        theta_idx: StateLimits::new_theta_wrap([1], w_nom),
        xi,
        c,
        p_ref: Fxd { bits: ZERO_BITS },
        q_ref: Fxd { bits: ZERO_BITS },
        n_phase: Fxd { bits: THREE_BITS },
        step_method: StepMethod::Rk2,
    }
}

/* Droop controller */

/// A droop controller, after "Control of Parallel Connected Inverters in
/// Standalone ac Supply Systems" by Chandorkar M. et al.
pub struct DroopController {
    /// States: angle (p.u.), filtered active power (p.u.), filtered reactive
    /// power (p.u.).
    pub x: SVector<Fxd, 3>,
    /// The angle state (index 0) wraps at one period.
    pub theta_idx: StateLimits<1>,
    /// Nominal voltage (V).
    pub v_nom: Fxd,
    /// Nominal frequency (rad/s).
    pub w_nom: Fxd,
    /// Cut-off frequency of the power low-pass filters (rad/s).
    pub w_c: Fxd,
    /// Frequency droop slope.
    pub mp: Fxd,
    /// Voltage droop slope.
    pub mq: Fxd,
    /// Active power reference (p.u.).
    pub p_ref: Fxd,
    /// Reactive power reference (p.u.).
    pub q_ref: Fxd,
    /// Number of phases for the power calculation.
    pub n_phase: Fxd,
    pub step_method: StepMethod,
}

/// The droop voltage `1 - mq (q_filt - q_ref)` in per unit.
pub open spec fn droop_voltage(mq: Fxd, q_filt: Fxd, q_ref: Fxd) -> Fxd {
    fx_sub(fxc(ONE_BITS), fx_mul(mq, fx_sub(q_filt, q_ref)))
}

impl DroopController {
    /// Constructs a droop controller at zero angle with zero filtered powers.
    pub fn new(
        v_nom: Fxd,
        w_nom: Fxd,
        mp: Fxd,
        mq: Fxd,
        w_c: Fxd,
        n_phase: Fxd,
        step_method: StepMethod,
    ) -> (r: DroopController)
        requires
            w_nom.bits != 0,
        ensures
            r.x.items() == seq![zero(), zero(), zero()],
            r.theta_idx.idxs@ == seq![0usize],
            r.theta_idx.maxs@ == seq![crate::dynamics::theta_period(w_nom)],
            r.v_nom == v_nom,
            r.w_nom == w_nom,
            r.w_c == w_c,
            r.mp == mp,
            r.mq == mq,
            r.p_ref == zero(),
            r.q_ref == zero(),
            r.n_phase == n_phase,
            r.step_method == step_method,
    {
        let z = Fxd { bits: ZERO_BITS };
        DroopController {
            v_nom,
            w_nom,
            x: vec3_new(z, z, z),
            theta_idx: StateLimits::new_theta_wrap([0], w_nom),
            mp,
            mq,
            w_c,
            p_ref: z,
            q_ref: z,
            n_phase,
            step_method,
        }
    }

    /// The per-unit dynamics (after eq. 13 and 17 of the paper).
    pub open spec fn dynamics_of(&self, x: Seq<Fxd>, u: Seq<Fxd>) -> Seq<Fxd> {
        let v_d = fx_mul(droop_voltage(self.mq, x[2], self.q_ref), fxc(SQRT_2_BITS));
        let i_dq = current_dq(u, fx_mul(x[0], self.w_nom));
        let p = active_power(v_d, zero(), i_dq.d, i_dq.q, self.n_phase);
        let q = reactive_power(v_d, zero(), i_dq.d, i_dq.q, self.n_phase);
        seq![
            fx_sub(fxc(ONE_BITS), fx_mul(self.mp, fx_sub(x[1], self.p_ref))),
            fx_mul(self.w_c, fx_sub(p, x[1])),
            fx_mul(self.w_c, fx_sub(q, x[2])),
        ]
    }

    pub open spec fn pu_voltage_of(&self) -> Fxd {
        droop_voltage(self.mq, self.x.items()[2], self.q_ref)
    }

    /// Returns the per-unit voltage given by the filtered reactive power.
    fn compute_pu_voltage(&self) -> (r: Fxd)
        ensures
            r == self.pu_voltage_of(),
    {
        Fxd { bits: ONE_BITS }.sub(self.mq.mul(vec3_get(&self.x, 2).sub(self.q_ref)))
    }

    /// Returns the voltage (V) given by the filtered reactive power.
    fn compute_voltage(&self) -> (r: Fxd)
        ensures
            r == fx_mul(self.v_nom, self.pu_voltage_of()),
    {
        self.v_nom.mul(self.compute_pu_voltage())
    }

    /// The states after a step with the dynamics `dx`, with the angle wrapped.
    pub open spec fn stepped_x(&self, dx: Seq<Fxd>, dt: Fxd) -> Seq<Fxd> {
        wrap_angle_spec(
            axpy(self.x.items(), dx, dt, 3),
            self.theta_idx.idxs@,
            self.theta_idx.maxs@,
            1,
        )
    }
}

impl Dynamics<SVector<Fxd, 3>, 2> for DroopController {
    open spec fn dynamics_ok(&self, x: Seq<Fxd>, u: Seq<Fxd>) -> bool {
        true
    }

    open spec fn dynamics_spec(&self, x: Seq<Fxd>, u: Seq<Fxd>) -> Seq<Fxd> {
        self.dynamics_of(x, u)
    }

    /// The angle and filtered power dynamics for the states `x` and the
    /// alpha-beta current `u`.
    fn dynamics(&self, x: &SVector<Fxd, 3>, u: [Fxd; 2]) -> (dx: SVector<Fxd, 3>) {
        let theta = vec3_get(x, 0).mul(self.w_nom);
        let p_filt = vec3_get(x, 1);
        let q_filt = vec3_get(x, 2);
        let v = Fxd { bits: ONE_BITS }.sub(self.mq.mul(q_filt.sub(self.q_ref)));
        let v_dq = DQZ {
            d: v.mul(Fxd { bits: SQRT_2_BITS }),
            q: Fxd { bits: ZERO_BITS },
            z: Fxd { bits: ZERO_BITS },
        };
        let i_dq = AlphaBeta::from_ab_(u[0], u[1]).to_dqz(&SinCos::from_theta(theta));
        let (p, q) = calc_dq_power(&v_dq, &i_dq, self.n_phase);
        let dp_filt_dt = self.w_c.mul(p.sub(p_filt));
        let dq_filt_dt = self.w_c.mul(q.sub(q_filt));
        let dtheta_dt = Fxd { bits: ONE_BITS }.sub(self.mp.mul(p_filt.sub(self.p_ref)));
        vec3_new(dtheta_dt, dp_filt_dt, dq_filt_dt)
    }
}

impl XState<SVector<Fxd, 3>> for DroopController {
    open spec fn x_spec(&self) -> SVector<Fxd, 3> {
        self.x
    }

    open spec fn with_x(&self, x: SVector<Fxd, 3>) -> Self {
        DroopController { x, ..*self }
    }

    fn get_x(&self) -> (r: &SVector<Fxd, 3>) {
        &self.x
    }

    fn set_x(&mut self, x: SVector<Fxd, 3>) {
        self.x = x;
    }
}

impl StepDynamics<SVector<Fxd, 3>, 2> for DroopController {
    open spec fn step_ok(&self, dt: Fxd, u: Seq<Fxd>) -> bool {
        let dx = method_dx::<SVector<Fxd, 3>, DroopController, 2>(
            self.step_method,
            *self,
            self.x.items(),
            u,
            dt,
        );
        &&& idxs_in_range(self.theta_idx.idxs@, 3)
        &&& wrap_angle_ok(
            axpy(self.x.items(), dx, dt, 3),
            self.theta_idx.idxs@,
            self.theta_idx.maxs@,
            1,
        )
    }

    open spec fn step_post(&self, next: Self, dt: Fxd, u: Seq<Fxd>, dx: Seq<Fxd>) -> bool {
        &&& dx == method_dx::<SVector<Fxd, 3>, DroopController, 2>(
            self.step_method,
            *self,
            self.x.items(),
            u,
            dt,
        )
        &&& next == self.with_x(next.x)
        &&& next.x.items() == self.stepped_x(dx, dt)
    }

    /// Steps the droop controller with its step method and wraps the angle.
    fn step(&mut self, dt: Fxd, u: [Fxd; 2]) -> (dx: SVector<Fxd, 3>) {
        let m = self.step_method;
        let dx = step_with(m, self, dt, u);
        wrap_angle(&mut self.x, &self.theta_idx);
        dx
    }
}

impl DroopController {
    /// Steps the droop controller as `step` does when its angle can be wrapped
    /// (the angle index addresses a state, and a stepped angle above the limit
    /// meets a nonzero limit); otherwise returns `None` and leaves the
    /// controller unchanged.
    pub fn checked_step(&mut self, dt: Fxd, u: [Fxd; 2]) -> (r: Option<SVector<Fxd, 3>>)
        ensures
            r.is_some() <==> old(self).step_ok(dt, u@),
            r.is_some() ==> old(self).step_post(*final(self), dt, u@, r.unwrap().items()),
            r.is_none() ==> *final(self) == *old(self),
    {
        let idx = self.theta_idx.idxs[0];
        if idx >= 3 {
            return None;
        }
        let mut trial = DroopController {
            x: self.x,
            theta_idx: StateLimits {
                idxs: self.theta_idx.idxs,
                mins: self.theta_idx.mins,
                maxs: self.theta_idx.maxs,
            },
            v_nom: self.v_nom,
            w_nom: self.w_nom,
            w_c: self.w_c,
            mp: self.mp,
            mq: self.mq,
            p_ref: self.p_ref,
            q_ref: self.q_ref,
            n_phase: self.n_phase,
            step_method: self.step_method,
        };
        assert(trial == *self);
        let m = self.step_method;
        let _ = step_with(m, &mut trial, dt, u);
        let angle = vec3_get(&trial.x, idx);
        let max = self.theta_idx.maxs[0];
        proof {
            lemma_wrap_angle_ok_single(trial.x.items(), self.theta_idx.idxs@, self.theta_idx.maxs@);
        }
        if angle.bits > max.bits && max.bits == 0 {
            return None;
        }
        Some(self.step(dt, u))
    }
}

impl NoInputStep<SVector<Fxd, 3>, 2> for DroopController {
    open spec fn step_zero_ok(&self, dt: Fxd) -> bool {
        self.step_ok(dt, seq![zero(), zero()])
    }

    open spec fn step_zero_post(&self, next: Self, dt: Fxd) -> bool {
        exists|dx: Seq<Fxd>| self.step_post(next, dt, seq![zero(), zero()], dx)
    }

    /// Steps the droop controller with zero current.
    fn step_(&mut self, dt: Fxd) {
        let z = Fxd { bits: ZERO_BITS };
        let u = [z, z];
        assert(u@ =~= seq![zero(), zero()]);
        let dx = self.step(dt, u);
        assert(old(self).step_post(*self, dt, seq![zero(), zero()], dx.items()));
    }
}

impl InvInterface for DroopController {
    open spec fn voltage_spec(&self) -> (Fxd, Fxd) {
        (fx_mul(self.v_nom, self.pu_voltage_of()), fx_mul(self.x.items()[0], self.w_nom))
    }

    open spec fn pu_voltage_spec(&self) -> (Fxd, Fxd) {
        (self.pu_voltage_of(), self.x.items()[0])
    }

    open spec fn output_spec(&self) -> (Fxd, Fxd) {
        (fx_mul(self.v_nom, self.pu_voltage_of()), self.x.items()[0])
    }

    open spec fn w_nom_spec(&self) -> Fxd {
        self.w_nom
    }

    /// Only the angle is set: the magnitude follows the filtered reactive power.
    open spec fn set_voltage_post(&self, next: Self, v: (Fxd, Fxd)) -> bool {
        &&& next == self.with_x(next.x)
        &&& next.x.items() == self.x.items().update(0, v.1)
    }

    open spec fn set_p_ref_post(&self, next: Self, p_ref: Fxd) -> bool {
        next == DroopController { p_ref, ..*self }
    }

    open spec fn set_q_ref_post(&self, next: Self, q_ref: Fxd) -> bool {
        next == DroopController { q_ref, ..*self }
    }

    fn get_voltage(&self) -> (r: [Fxd; 2]) {
        let r = [self.compute_voltage(), vec3_get(&self.x, 0).mul(self.w_nom)];
        assert(r@ =~= seq![self.voltage_spec().0, self.voltage_spec().1]);
        r
    }

    fn get_pu_voltage(&self) -> (r: [Fxd; 2]) {
        let r = [self.compute_pu_voltage(), vec3_get(&self.x, 0)];
        assert(r@ =~= seq![self.pu_voltage_spec().0, self.pu_voltage_spec().1]);
        r
    }

    /// Sets the angle state; the magnitude is given by the filtered reactive power.
    fn set_voltage(&mut self, v: [Fxd; 2]) {
        StateVector::set(&mut self.x, 0, v[1]);
    }

    fn set_p_ref(&mut self, p_ref: Fxd) {
        self.p_ref = p_ref;
    }

    fn set_q_ref(&mut self, q_ref: Fxd) {
        self.q_ref = q_ref;
    }

    fn output(&self) -> (r: [Fxd; 2]) {
        let r = [self.compute_voltage(), vec3_get(&self.x, 0)];
        assert(r@ =~= seq![self.output_spec().0, self.output_spec().1]);
        r
    }

    fn get_w_nom(&self) -> (r: Fxd) {
        self.w_nom
    }
}

impl InvController<SVector<Fxd, 3>, 2> for DroopController {

}

/// Raw bits of 0.0026, the default frequency droop slope.
pub const DEFAULT_MP_BITS: i32 = 170;

/// Raw bits of 0.005, the default voltage droop slope.
pub const DEFAULT_MQ_BITS: i32 = 328;

/// The default filter cut-off `2 pi 30` (rad/s).
pub open spec fn default_w_c() -> Fxd {
    fx_mul(fx_mul(fxc(TWO_BITS), fxc(PI_BITS)), fxc(1966080i32))
}

/// Constructs a droop controller with the default parameters (droop slopes
/// 0.0026 and 0.005, filter cut-off 2 pi 30 rad/s, three phases,
/// second-order Runge-Kutta steps) for the nominal voltage `v_nom` (V) and
/// frequency `f_nom` (Hz).
pub fn build_default_droop_controller(v_nom: Fxd, f_nom: Fxd) -> (r: DroopController)
    requires
        w_of_f(f_nom).bits != 0,
    ensures
        r.v_nom == v_nom,
        r.w_nom == w_of_f(f_nom),
        r.x.items() == seq![zero(), zero(), zero()],
        r.theta_idx.idxs@ == seq![0usize],
        r.theta_idx.maxs@ == seq![crate::dynamics::theta_period(w_of_f(f_nom))],
        r.mp == fxc(DEFAULT_MP_BITS),
        r.mq == fxc(DEFAULT_MQ_BITS),
        r.w_c == default_w_c(),
        r.p_ref == zero(),
        r.q_ref == zero(),
        r.n_phase == fxc(THREE_BITS),
        r.step_method == StepMethod::Rk2,
{
    let two_pi = Fxd { bits: TWO_BITS }.mul(Fxd { bits: PI_BITS });
    let w_nom = two_pi.mul(f_nom);
    let z = Fxd { bits: ZERO_BITS };
    DroopController {
        v_nom,
        w_nom,
        x: vec3_new(z, z, z),
        theta_idx: StateLimits::new_theta_wrap([0], w_nom),
        mp: Fxd { bits: DEFAULT_MP_BITS },
        mq: Fxd { bits: DEFAULT_MQ_BITS },
        w_c: two_pi.mul(Fxd::from_int(30)),
        p_ref: z,
        q_ref: z,
        n_phase: Fxd { bits: THREE_BITS },
        step_method: StepMethod::Rk2,
    }
}

/// Constructs a three-phase per-unit droop controller, stepped with the
/// second-order Runge-Kutta method, from the nominal voltage `v_nom` (V),
/// nominal frequency `w_nom` (rad/s), droop slopes `mp` and `mq` and filter
/// cut-off `w_c`, at zero angle with zero filtered powers.
pub fn build_per_unit_droop_controller(v_nom: Fxd, w_nom: Fxd, mp: Fxd, mq: Fxd, w_c: Fxd) -> (r:
    DroopController)
    requires
        w_nom.bits != 0,
    ensures
        r.v_nom == v_nom,
        r.w_nom == w_nom,
        r.x.items() == seq![zero(), zero(), zero()],
        r.theta_idx.idxs@ == seq![0usize],
        r.theta_idx.maxs@ == seq![crate::dynamics::theta_period(w_nom)],
        r.mp == mp,
        r.mq == mq,
        r.w_c == w_c,
        r.p_ref == zero(),
        r.q_ref == zero(),
        r.n_phase == fxc(THREE_BITS),
        r.step_method == StepMethod::Rk2,
{
    DroopController::new(v_nom, w_nom, mp, mq, w_c, Fxd { bits: THREE_BITS }, StepMethod::Rk2)
}

/* Virtual synchronous machine */

/// A virtual synchronous machine controller, after "A Virtual Synchronous
/// Machine implementation for distributed control of power converters in
/// SmartGrid" by D'Arco S., Suul J.A. and Fosso O.B.; it owns the phase-locked
/// loop that tracks the grid voltage.
pub struct VsmController<P: PhaseLockLoop<SVector<Fxd, 2>>> {
    /// States: angle (p.u.), angular frequency (p.u.), filtered reactive power
    /// (p.u.).
    pub x: SVector<Fxd, 3>,
    /// The angle state (index 0) wraps at one period.
    pub theta_idx: StateLimits<1>,
    /// The phase-locked loop tracking the grid voltage angle.
    pub pll: P,
    /// Nominal voltage (V).
    pub v_nom: Fxd,
    /// Nominal frequency (rad/s).
    pub w_nom: Fxd,
    /// Cut-off frequency of the reactive power filter (rad/s).
    pub w_c: Fxd,
    /// Frequency droop slope.
    pub mp: Fxd,
    /// Voltage droop slope.
    pub mq: Fxd,
    /// Inertia time constant `h` (s); the machine's inertia is `2 h / w_nom^2`,
    /// so the swing equation scales the torque balance by `w_nom / (2 h)`.
    pub h: Fxd,
    /// Damping coefficient.
    pub d: Fxd,
    /// Active power reference (p.u.).
    pub p_ref: Fxd,
    /// Reactive power reference (p.u.).
    pub q_ref: Fxd,
    /// Number of phases for the power calculation.
    pub n_phase: Fxd,
    pub step_method: StepMethod,
}

impl<P: PhaseLockLoop<SVector<Fxd, 2>>> VsmController<P> {
    /// Constructs a VSM controller at zero angle and nominal frequency.
    pub fn new(
        v_nom: Fxd,
        w_nom: Fxd,
        mp: Fxd,
        mq: Fxd,
        h: Fxd,
        d: Fxd,
        w_c: Fxd,
        pll: P,
        n_phase: Fxd,
        step_method: StepMethod,
    ) -> (r: VsmController<P>)
        requires
            w_nom.bits != 0,
        ensures
            r.x.items() == seq![zero(), fxc(ONE_BITS), zero()],
            r.theta_idx.idxs@ == seq![0usize],
            r.theta_idx.maxs@ == seq![crate::dynamics::theta_period(w_nom)],
            r.pll == pll,
            r.v_nom == v_nom,
            r.w_nom == w_nom,
            r.mp == mp,
            r.mq == mq,
            r.h == h,
            r.d == d,
            r.w_c == w_c,
            r.p_ref == zero(),
            r.q_ref == zero(),
            r.n_phase == n_phase,
            r.step_method == step_method,
    {
        let z = Fxd { bits: ZERO_BITS };
        VsmController {
            v_nom,
            w_nom,
            x: vec3_new(z, Fxd { bits: ONE_BITS }, z),
            theta_idx: StateLimits::new_theta_wrap([0], w_nom),
            pll,
            mp,
            mq,
            h,
            d,
            w_c,
            p_ref: z,
            q_ref: z,
            n_phase,
            step_method,
        }
    }

    /// The per-unit dynamics (after eq. 2, 4, 5, 8 and 9 of the paper), with
    /// the grid frequency taken from the phase-locked loop. The swing equation
    /// scales the torque balance by `w_nom / (2 h)`, which is `1 / (j w_nom)`
    /// for the inertia `j = 2 h / w_nom^2`; a 16.16 number holds `h` at grid
    /// frequencies, where it could not hold `j`.
    pub open spec fn dynamics_of(&self, x: Seq<Fxd>, u: Seq<Fxd>) -> Seq<Fxd> {
        let v_d = fx_mul(droop_voltage(self.mq, x[2], self.q_ref), fxc(SQRT_2_BITS));
        let i_dq = current_dq(u, fx_mul(x[0], self.w_nom));
        let p = active_power(v_d, zero(), i_dq.d, i_dq.q, self.n_phase);
        let q = reactive_power(v_d, zero(), i_dq.d, i_dq.q, self.n_phase);
        let freq_droop = fx_mul(self.mp, fx_sub(self.p_ref, p));
        let pll_omega = self.pll.pu_omega_spec();
        let domega_dt = fx_div(
            fx_mul(
                self.w_nom,
                fx_sub(
                    fx_sub(fx_add(fxc(ONE_BITS), freq_droop), x[1]),
                    fx_mul(self.d, fx_sub(x[1], pll_omega)),
                ),
            ),
            fx_mul(fxc(TWO_BITS), self.h),
        );
        seq![x[1], domega_dt, fx_mul(self.w_c, fx_sub(q, x[2]))]
    }

    pub open spec fn pu_voltage_of(&self) -> Fxd {
        droop_voltage(self.mq, self.x.items()[2], self.q_ref)
    }

    /// Returns the per-unit voltage given by the filtered reactive power.
    fn compute_pu_voltage(&self) -> (r: Fxd)
        ensures
            r == self.pu_voltage_of(),
    {
        Fxd { bits: ONE_BITS }.sub(self.mq.mul(vec3_get(&self.x, 2).sub(self.q_ref)))
    }

    /// Returns the voltage (V) given by the filtered reactive power.
    fn compute_voltage(&self) -> (r: Fxd)
        ensures
            r == fx_mul(self.v_nom, self.pu_voltage_of()),
    {
        self.v_nom.mul(self.compute_pu_voltage())
    }

    /// The states after a step with the dynamics `dx`, with the angle wrapped.
    pub open spec fn stepped_x(&self, dx: Seq<Fxd>, dt: Fxd) -> Seq<Fxd> {
        wrap_angle_spec(
            axpy(self.x.items(), dx, dt, 3),
            self.theta_idx.idxs@,
            self.theta_idx.maxs@,
            1,
        )
    }

    /// The controller with the phase-locked loop replaced by `pll`.
    pub open spec fn with_pll(&self, pll: P) -> Self {
        VsmController { pll, ..*self }
    }
}

impl<P: PhaseLockLoop<SVector<Fxd, 2>>> Dynamics<SVector<Fxd, 3>, 4> for VsmController<P> {
    open spec fn dynamics_ok(&self, x: Seq<Fxd>, u: Seq<Fxd>) -> bool {
        fx_mul(fxc(TWO_BITS), self.h).bits != 0
    }

    open spec fn dynamics_spec(&self, x: Seq<Fxd>, u: Seq<Fxd>) -> Seq<Fxd> {
        self.dynamics_of(x, u)
    }

    /// The VSM dynamics for the states `x` and the inputs `u` (alpha-beta
    /// current, then alpha-beta grid voltage, which only the phase-locked loop
    /// uses).
    fn dynamics(&self, x: &SVector<Fxd, 3>, u: [Fxd; 4]) -> (dx: SVector<Fxd, 3>) {
        let theta = vec3_get(x, 0);
        let omega = vec3_get(x, 1);
        let q_filt = vec3_get(x, 2);
        let one = Fxd { bits: ONE_BITS };
        let v = one.sub(self.mq.mul(q_filt.sub(self.q_ref)));
        let v_dq = DQZ {
            d: v.mul(Fxd { bits: SQRT_2_BITS }),
            q: Fxd { bits: ZERO_BITS },
            z: Fxd { bits: ZERO_BITS },
        };
        let i_dq = AlphaBeta::from_ab_(u[0], u[1]).to_dqz(
            &SinCos::from_theta(theta.mul(self.w_nom)),
        );
        let (p, q) = calc_dq_power(&v_dq, &i_dq, self.n_phase);
        let dq_filt_dt = self.w_c.mul(q.sub(q_filt));
        let freq_droop = self.mp.mul(self.p_ref.sub(p));
        let pll_omega = self.pll.get_pu_omega();
        let domega_dt = self.w_nom.mul(
            one.add(freq_droop).sub(omega).sub(self.d.mul(omega.sub(pll_omega))),
        ).div(Fxd { bits: TWO_BITS }.mul(self.h));
        vec3_new(omega, domega_dt, dq_filt_dt)
    }
}

impl<P: PhaseLockLoop<SVector<Fxd, 2>>> XState<SVector<Fxd, 3>> for VsmController<P> {
    open spec fn x_spec(&self) -> SVector<Fxd, 3> {
        self.x
    }

    open spec fn with_x(&self, x: SVector<Fxd, 3>) -> Self {
        VsmController { x, ..*self }
    }

    fn get_x(&self) -> (r: &SVector<Fxd, 3>) {
        &self.x
    }

    fn set_x(&mut self, x: SVector<Fxd, 3>) {
        self.x = x;
    }
}

/// The grid voltage part `[u2, u3]` of the VSM inputs.
pub open spec fn grid_voltage_of(u: Seq<Fxd>) -> Seq<Fxd> {
    seq![u[2], u[3]]
}

impl<P: PhaseLockLoop<SVector<Fxd, 2>>> StepDynamics<SVector<Fxd, 3>, 4> for VsmController<P> {
    /// The phase-locked loop can step, twice the inertia time constant is nonzero, and
    /// whatever state the loop steps to, the angle wrap is defined.
    open spec fn step_ok(&self, dt: Fxd, u: Seq<Fxd>) -> bool {
        &&& self.pll.step_ok(dt, grid_voltage_of(u))
        &&& fx_mul(fxc(TWO_BITS), self.h).bits != 0
        &&& idxs_in_range(self.theta_idx.idxs@, 3)
        &&& forall|pll: P, dxp: Seq<Fxd>|
            #![trigger self.pll.step_post(pll, dt, grid_voltage_of(u), dxp)]
            self.pll.step_post(pll, dt, grid_voltage_of(u), dxp) ==> wrap_angle_ok(
                axpy(
                    self.x.items(),
                    method_dx::<SVector<Fxd, 3>, VsmController<P>, 4>(
                        self.step_method,
                        self.with_pll(pll),
                        self.x.items(),
                        u,
                        dt,
                    ),
                    dt,
                    3,
                ),
                self.theta_idx.idxs@,
                self.theta_idx.maxs@,
                1,
            )
    }

    /// The loop steps on the grid voltage first; the VSM states then step with
    /// the stepped loop's frequency and the angle wraps.
    open spec fn step_post(&self, next: Self, dt: Fxd, u: Seq<Fxd>, dx: Seq<Fxd>) -> bool {
        &&& exists|dx_pll: Seq<Fxd>| self.pll.step_post(next.pll, dt, grid_voltage_of(u), dx_pll)
        &&& dx == method_dx::<SVector<Fxd, 3>, VsmController<P>, 4>(
            self.step_method,
            self.with_pll(next.pll),
            self.x.items(),
            u,
            dt,
        )
        &&& next == self.with_pll(next.pll).with_x(next.x)
        &&& next.x.items() == self.stepped_x(dx, dt)
    }

    /// Steps the phase-locked loop on the grid voltage, then the VSM states,
    /// and wraps the angle.
    fn step(&mut self, dt: Fxd, u: [Fxd; 4]) -> (dx: SVector<Fxd, 3>) {
        let u_pll = [u[2], u[3]];
        assert(u_pll@ =~= grid_voltage_of(u@));
        let dx_pll = self.pll.step(dt, u_pll);
        let ghost mid = *self;
        assert(mid == old(self).with_pll(mid.pll));
        let m = self.step_method;
        let dx = step_with(m, self, dt, u);
        wrap_angle(&mut self.x, &self.theta_idx);
        assert(old(self).pll.step_post(self.pll, dt, grid_voltage_of(u@), dx_pll.items()));
        dx
    }
}

impl VsmController<SrfPhaseLockedLoop> {
    /// Steps the controller as `step` does when the step is defined (the loop
    /// can step, twice the inertia time constant is nonzero, the angle can be wrapped);
    /// otherwise returns `None` and leaves the controller unchanged.
    #[verifier::spinoff_prover]
    #[verifier::rlimit(40)]
    pub fn checked_step(&mut self, dt: Fxd, u: [Fxd; 4]) -> (r: Option<SVector<Fxd, 3>>)
        ensures
            r.is_some() <==> old(self).step_ok(dt, u@),
            r.is_some() ==> old(self).step_post(*final(self), dt, u@, r.unwrap().items()),
            r.is_none() ==> *final(self) == *old(self),
    {
        if (Fxd { bits: TWO_BITS }).mul(self.h).bits == 0 {
            return None;
        }
        let idx = self.theta_idx.idxs[0];
        if idx >= 3 {
            return None;
        }
        let mut trial_pll = SrfPhaseLockedLoop {
            w_nom: self.pll.w_nom,
            kp: self.pll.kp,
            ki: self.pll.ki,
            x: self.pll.x,
            dx_dt: self.pll.dx_dt,
            omega: self.pll.omega,
            theta_idx: StateLimits {
                idxs: self.pll.theta_idx.idxs,
                mins: self.pll.theta_idx.mins,
                maxs: self.pll.theta_idx.maxs,
            },
            step_method: self.pll.step_method,
        };
        assert(trial_pll == self.pll);
        let u_pll = [u[2], u[3]];
        assert(u_pll@ =~= grid_voltage_of(u@));
        let stepped = trial_pll.checked_step(dt, u_pll);
        if stepped.is_none() {
            return None;
        }
        let ghost dxp = stepped.unwrap().items();
        let mut trial = VsmController {
            x: self.x,
            theta_idx: StateLimits {
                idxs: self.theta_idx.idxs,
                mins: self.theta_idx.mins,
                maxs: self.theta_idx.maxs,
            },
            pll: trial_pll,
            v_nom: self.v_nom,
            w_nom: self.w_nom,
            w_c: self.w_c,
            mp: self.mp,
            mq: self.mq,
            h: self.h,
            d: self.d,
            p_ref: self.p_ref,
            q_ref: self.q_ref,
            n_phase: self.n_phase,
            step_method: self.step_method,
        };
        assert(trial == self.with_pll(trial_pll));
        let m = self.step_method;
        let _ = step_with(m, &mut trial, dt, u);
        let angle = vec3_get(&trial.x, idx);
        let max = self.theta_idx.maxs[0];
        proof {
            lemma_wrap_angle_ok_single(trial.x.items(), self.theta_idx.idxs@, self.theta_idx.maxs@);
            assert forall|p: SrfPhaseLockedLoop, d: Seq<Fxd>|
                self.pll.step_post(p, dt, grid_voltage_of(u@), d) implies self.with_pll(p)
                == self.with_pll(trial_pll).with_pll(p) && p.pu_omega_spec()
                == trial_pll.pu_omega_spec() by {
                assert(self.pll.step_post(trial_pll, dt, grid_voltage_of(u@), dxp));
            }
        }
        if angle.bits > max.bits && max.bits == 0 {
            return None;
        }
        Some(self.step(dt, u))
    }
}

impl<P: PhaseLockLoop<SVector<Fxd, 2>>> NoInputStep<SVector<Fxd, 3>, 4> for VsmController<P> {
    open spec fn step_zero_ok(&self, dt: Fxd) -> bool {
        self.step_ok(dt, seq![zero(), zero(), zero(), zero()])
    }

    open spec fn step_zero_post(&self, next: Self, dt: Fxd) -> bool {
        exists|dx: Seq<Fxd>| self.step_post(next, dt, seq![zero(), zero(), zero(), zero()], dx)
    }

    /// Steps the VSM with zero current and zero grid voltage.
    fn step_(&mut self, dt: Fxd) {
        let z = Fxd { bits: ZERO_BITS };
        let u = [z, z, z, z];
        assert(u@ =~= seq![zero(), zero(), zero(), zero()]);
        let dx = self.step(dt, u);
        assert(old(self).step_post(*self, dt, seq![zero(), zero(), zero(), zero()], dx.items()));
    }
}

impl<P: PhaseLockLoop<SVector<Fxd, 2>>> InvInterface for VsmController<P> {
    open spec fn voltage_spec(&self) -> (Fxd, Fxd) {
        (fx_mul(self.v_nom, self.pu_voltage_of()), fx_mul(self.x.items()[0], self.w_nom))
    }

    open spec fn pu_voltage_spec(&self) -> (Fxd, Fxd) {
        (self.pu_voltage_of(), self.x.items()[0])
    }

    open spec fn output_spec(&self) -> (Fxd, Fxd) {
        (fx_mul(self.v_nom, self.pu_voltage_of()), self.x.items()[0])
    }

    open spec fn w_nom_spec(&self) -> Fxd {
        self.w_nom
    }

    /// Only the angle is set: the magnitude follows the filtered reactive power.
    open spec fn set_voltage_post(&self, next: Self, v: (Fxd, Fxd)) -> bool {
        &&& next == self.with_x(next.x)
        &&& next.x.items() == self.x.items().update(0, v.1)
    }

    open spec fn set_p_ref_post(&self, next: Self, p_ref: Fxd) -> bool {
        next == VsmController { p_ref, ..*self }
    }

    open spec fn set_q_ref_post(&self, next: Self, q_ref: Fxd) -> bool {
        next == VsmController { q_ref, ..*self }
    }

    fn get_voltage(&self) -> (r: [Fxd; 2]) {
        let r = [self.compute_voltage(), vec3_get(&self.x, 0).mul(self.w_nom)];
        assert(r@ =~= seq![self.voltage_spec().0, self.voltage_spec().1]);
        r
    }

    fn get_pu_voltage(&self) -> (r: [Fxd; 2]) {
        let r = [self.compute_pu_voltage(), vec3_get(&self.x, 0)];
        assert(r@ =~= seq![self.pu_voltage_spec().0, self.pu_voltage_spec().1]);
        r
    }

    /// Sets the angle state; the magnitude is given by the filtered reactive power.
    fn set_voltage(&mut self, v: [Fxd; 2]) {
        StateVector::set(&mut self.x, 0, v[1]);
    }

    fn set_p_ref(&mut self, p_ref: Fxd) {
        self.p_ref = p_ref;
    }

    fn set_q_ref(&mut self, q_ref: Fxd) {
        self.q_ref = q_ref;
    }

    fn output(&self) -> (r: [Fxd; 2]) {
        let r = [self.compute_voltage(), vec3_get(&self.x, 0)];
        assert(r@ =~= seq![self.output_spec().0, self.output_spec().1]);
        r
    }

    fn get_w_nom(&self) -> (r: Fxd) {
        self.w_nom
    }
}

impl<P: PhaseLockLoop<SVector<Fxd, 2>>> InvController<SVector<Fxd, 3>, 4> for VsmController<P> {

}

/// Raw bits of 0.002, the default inertia time constant `h`.
pub const DEFAULT_H_BITS: i32 = 131;

/// Constructs a VSM controller with the default parameters for the nominal
/// voltage `v_nom` (V) and frequency `f_nom` (Hz): droop slopes 0.0026 and
/// 0.005, inertia time constant `h = 0.002` (an inertia of `2 h / w_nom^2`),
/// damping `100 / w_nom`,
/// filter cut-off 2 pi 30 rad/s, three phases, second-order Runge-Kutta steps.
pub fn build_default_vsm_controller<P: PhaseLockLoop<SVector<Fxd, 2>>>(
    v_nom: Fxd,
    f_nom: Fxd,
    pll: P,
) -> (r: VsmController<P>)
    requires
        w_of_f(f_nom).bits != 0,
    ensures
        r.v_nom == v_nom,
        r.w_nom == w_of_f(f_nom),
        r.x.items() == seq![zero(), fxc(ONE_BITS), zero()],
        r.theta_idx.idxs@ == seq![0usize],
        r.theta_idx.maxs@ == seq![crate::dynamics::theta_period(w_of_f(f_nom))],
        r.pll == pll,
        r.mp == fxc(DEFAULT_MP_BITS),
        r.mq == fxc(DEFAULT_MQ_BITS),
        r.h == fxc(DEFAULT_H_BITS),
        r.d == fx_div(fxc(6553600i32), w_of_f(f_nom)),
        r.w_c == default_w_c(),
        r.p_ref == zero(),
        r.q_ref == zero(),
        r.n_phase == fxc(THREE_BITS),
        r.step_method == StepMethod::Rk2,
{
    let two_pi = Fxd { bits: TWO_BITS }.mul(Fxd { bits: PI_BITS });
    let w_nom = two_pi.mul(f_nom);
    let z = Fxd { bits: ZERO_BITS };
    VsmController {
        v_nom,
        w_nom,
        x: vec3_new(z, Fxd { bits: ONE_BITS }, z),
        theta_idx: StateLimits::new_theta_wrap([0], w_nom),
        pll,
        mp: Fxd { bits: DEFAULT_MP_BITS },
        mq: Fxd { bits: DEFAULT_MQ_BITS },
        h: Fxd { bits: DEFAULT_H_BITS },
        d: Fxd::from_int(100).div(w_nom),
        w_c: two_pi.mul(Fxd::from_int(30)),
        p_ref: z,
        q_ref: z,
        n_phase: Fxd { bits: THREE_BITS },
        step_method: StepMethod::Rk2,
    }
}

/// Two dVOC controllers that differ at most in how equal states are held can
/// step alike.
proof fn lemma_dvoc_step_ok_by_items(a: DvocController, b: DvocController, dt: Fxd, u: Seq<Fxd>)
    requires
        a == b.with_x(a.x),
        a.x.items() == b.x.items(),
    ensures
        a.step_ok(dt, u) == b.step_ok(dt, u),
{
}

impl PresyncInvController<SVector<Fxd, 2>, 2, DvocController> {
    /// Steps as `inv_step` does when the step is defined (once synchronized,
    /// the controller's own step; before, a nonzero voltage magnitude and a
    /// defined step from the corrected voltage); otherwise returns `None` and
    /// leaves everything unchanged.
    pub fn checked_inv_step(&mut self, dt: Fxd, u: [Fxd; 2], vg: [Fxd; 2]) -> (r: Option<
        SVector<Fxd, 2>,
    >)
        ensures
            r.is_some() <==> old(self).inv_step_ok(dt, u@, vg@),
            r.is_some() ==> old(self).inv_step_post(*final(self), dt, u@, vg@, r.unwrap().items()),
            r.is_none() ==> *final(self) == *old(self),
    {
        if self.synced {
            return self.ctrl.checked_step(dt, u);
        }
        let v_inv = self.ctrl.get_pu_voltage();
        if v_inv[0].bits == 0 {
            return None;
        }
        let sin_cos = SinCos::from_theta(v_inv[1].mul(self.ctrl.get_w_nom()));
        let c = sin_cos.cos_val;
        let s = sin_cos.sin_val;
        let dv_sync = self.gamma.neg().mul(
            v_inv[0].sub(vg[0].mul(c).add(vg[1].mul(s)).div(Fxd { bits: SQRT_2_BITS })),
        ).mul(dt);
        let w_sync = self.gamma.div(v_inv[0]).mul(vg[1].mul(c).sub(vg[0].mul(s))).mul(dt);
        let v_new = [v_inv[0].add(dv_sync), v_inv[1].add(w_sync)];
        assert((v_new@[0], v_new@[1]) == self.synced_voltage(vg@, dt));
        let mut mid = self.ctrl.duplicate();
        mid.set_voltage(v_new);
        let ghost mid0 = mid;
        let z = Fxd { bits: ZERO_BITS };
        let u0 = [z, z];
        assert(u0@ =~= Self::zero_current(u@));
        let ok = mid.checked_step(dt, u0).is_some();
        proof {
            assert forall|m2: DvocController|
                self.ctrl.set_voltage_post(m2, self.synced_voltage(vg@, dt)) implies m2.step_ok(
                dt,
                u0@,
            ) == mid0.step_ok(dt, u0@) by {
                lemma_dvoc_step_ok_by_items(m2, mid0, dt, u0@);
            }
        }
        if !ok {
            return None;
        }
        Some(self.inv_step(dt, u, vg))
    }
}

/* Laws of the grid-forming controllers */

/// The dVOC voltage magnitude is driven by the reactive power and the angle by
/// the active power of the oscillator voltage `sqrt(2) v` and the measured
/// current (taken in the frame of the angle state): at unit magnitude the
/// magnitude derivative is `-(q - q_ref) / (sqrt(2) c v)`, zero when the
/// reactive power meets its reference; the angle turns at unit speed when the
/// active power meets its reference, and more slowly when the active power is
/// above it (with a positive gain `1 / (sqrt(2) c v^2 w_nom)` and no
/// wrap-around).
pub proof fn law_dvoc_powers_drive_magnitude_and_angle(d: DvocController, x: Seq<Fxd>, u: Seq<Fxd>)
    ensures
        ({
            let v = x[0];
            let i = current_dq(u, fx_mul(x[1], d.w_nom));
            let p = active_power(fx_mul(v, fxc(SQRT_2_BITS)), zero(), i.d, i.q, d.n_phase);
            let q = reactive_power(fx_mul(v, fxc(SQRT_2_BITS)), zero(), i.d, i.q, d.n_phase);
            let g = fx_div(fx_div(dvoc_gain(d.c, v), v), d.w_nom);
            let e = p.bits - d.p_ref.bits;
            let dx = d.dynamics_spec(x, u);
            &&& dx.len() == 2
            &&& v.bits == 65536 ==> dx[0] == fx_neg(fx_mul(dvoc_gain(d.c, v), fx_sub(q, d.q_ref)))
            &&& v.bits == 65536 && q == d.q_ref ==> dx[0] == zero()
            &&& p == d.p_ref ==> dx[1] == fxc(ONE_BITS)
            &&& (g.bits > 0 && 0 < e < 0x8000_0000 && g.bits * e < 0x7fff_0000 * 65536) ==> dx[1].bits
                <= 65536
            &&& (g.bits > 0 && 0 < e < 0x8000_0000 && 65536 <= g.bits * e < 0x7fff_0000 * 65536)
                ==> dx[1].bits < 65536
        }),
{
    let v = x[0];
    let i = current_dq(u, fx_mul(x[1], d.w_nom));
    let p = active_power(fx_mul(v, fxc(SQRT_2_BITS)), zero(), i.d, i.q, d.n_phase);
    let q = reactive_power(fx_mul(v, fxc(SQRT_2_BITS)), zero(), i.d, i.q, d.n_phase);
    let g = fx_div(fx_div(dvoc_gain(d.c, v), v), d.w_nom);
    let e = p.bits - d.p_ref.bits;
    let k = dvoc_gain(d.c, v);
    let a = fx_mul(fx_mul(fxc(TWO_BITS), d.xi), v);
    if v.bits == 65536 {
        assert(fx_mul(v, v).bits == 65536) by {
            assert(65536int * 65536 / 65536 == 65536);
            assert(crate::fixed_point::wrap_i32(65536) == 65536);
        }
        lemma_fx_zero(a);
        assert(fx_sub(fxc(ONE_BITS), fx_mul(v, v)).bits == 0);
        assert(fx_sub(fxc(ONE_BITS), fx_mul(v, v)) == Fxd { bits: 0 });
        let m = fx_mul(k, fx_sub(q, d.q_ref));
        assert(crate::fixed_point::wrap_i32(0 - m.bits) == crate::fixed_point::wrap_i32(-m.bits));
        if q == d.q_ref {
            lemma_fx_zero(q);
            lemma_fx_zero(k);
            assert(crate::fixed_point::wrap_i32(0) == 0);
        }
    }
    if p == d.p_ref {
        lemma_fx_zero(p);
        lemma_fx_zero(g);
        lemma_fx_zero(fxc(ONE_BITS));
    }
    if g.bits > 0 && 0 < e < 0x8000_0000 && g.bits * e < 0x7fff_0000 * 65536 {
        lemma_fx_sub_no_wrap(p, d.p_ref);
        let s = fx_sub(p, d.p_ref);
        assert(s.bits == e);
        assert(0 <= (g.bits * s.bits) / 65536 < 0x7fff_0000) by (nonlinear_arith)
            requires
                g.bits > 0,
                s.bits > 0,
                g.bits * s.bits < 0x7fff_0000 * 65536,
        ;
        lemma_fx_mul_no_wrap(g, s);
        let m = fx_mul(g, s);
        lemma_fx_sub_no_wrap(fxc(ONE_BITS), m);
    }
}


/// `a (1 - v^2)` with `a = 2 xi v`: with positive `xi` and `v` and nothing
/// wrapping around, not negative below unit voltage and not positive above it.
proof fn lemma_voltage_regulation_sign(xi: Fxd, v: Fxd)
    requires
        0 < xi.bits <= 0x1000_0000,
        0 < v.bits <= 0x0080_0000,
        (2 * xi.bits * v.bits) / 65536 < 0x8000_0000,
        -0x8000_0000 <= (((2 * xi.bits * v.bits) / 65536) * (65536 - (v.bits * v.bits) / 65536))
            / 65536 < 0x8000_0000,
    ensures
        ({
            let r = fx_mul(fx_mul(fx_mul(fxc(TWO_BITS), xi), v), fx_sub(fxc(ONE_BITS), fx_mul(v, v)));
            &&& v.bits < 65536 ==> r.bits >= 0
            &&& v.bits > 65536 ==> r.bits <= 0
        }),
{
    let t = fx_mul(fxc(TWO_BITS), xi);
    assert((131072 * xi.bits) / 65536 == 2 * xi.bits);
    lemma_fx_mul_no_wrap(fxc(TWO_BITS), xi);
    assert(t.bits == 2 * xi.bits);
    assert(t.bits * v.bits >= 0) by (nonlinear_arith)
        requires
            t.bits > 0,
            v.bits > 0,
    ;
    lemma_fx_mul_no_wrap(t, v);
    let a = fx_mul(t, v);
    assert(a.bits == (2 * xi.bits * v.bits) / 65536);
    assert(0 < v.bits * v.bits <= 0x0080_0000 * 0x0080_0000) by (nonlinear_arith)
        requires
            0 < v.bits <= 0x0080_0000,
    ;
    lemma_fx_mul_no_wrap(v, v);
    let vv = fx_mul(v, v);
    lemma_fx_sub_no_wrap(fxc(ONE_BITS), vv);
    let sd = fx_sub(fxc(ONE_BITS), vv);
    assert(sd.bits == 65536 - (v.bits * v.bits) / 65536);
    lemma_fx_mul_no_wrap(a, sd);
    if v.bits < 65536 {
        assert(v.bits * v.bits < 65536 * 65536) by (nonlinear_arith)
            requires
                0 < v.bits < 65536,
        ;
        assert(a.bits * sd.bits >= 0) by (nonlinear_arith)
            requires
                a.bits >= 0,
                sd.bits > 0,
        ;
    }
    if v.bits > 65536 {
        assert(v.bits * v.bits >= 65537 * 65537) by (nonlinear_arith)
            requires
                v.bits >= 65537,
        ;
        assert(a.bits * sd.bits <= 0) by (nonlinear_arith)
            requires
                a.bits >= 0,
                sd.bits < 0,
        ;
    }
}

/// The dVOC magnitude regulation: with the reactive power of the oscillator
/// voltage and the measured current at its reference, the magnitude rises
/// below unit voltage and falls above it (for a positive `xi` and nothing
/// wrapping around).
pub proof fn law_dvoc_magnitude_returns_to_unity(d: DvocController, x: Seq<Fxd>, u: Seq<Fxd>)
    requires
        0 < d.xi.bits <= 0x1000_0000,
        0 < x[0].bits <= 0x0080_0000,
        (2 * d.xi.bits * x[0].bits) / 65536 < 0x8000_0000,
        -0x8000_0000 <= (((2 * d.xi.bits * x[0].bits) / 65536) * (65536 - (x[0].bits * x[0].bits)
            / 65536)) / 65536 < 0x8000_0000,
    ensures
        ({
            let v = x[0];
            let i = current_dq(u, fx_mul(x[1], d.w_nom));
            let q = reactive_power(fx_mul(v, fxc(SQRT_2_BITS)), zero(), i.d, i.q, d.n_phase);
            let dx = d.dynamics_spec(x, u);
            &&& q == d.q_ref && v.bits < 65536 ==> dx[0].bits >= 0
            &&& q == d.q_ref && v.bits > 65536 ==> dx[0].bits <= 0
        }),
{
    let v = x[0];
    let i = current_dq(u, fx_mul(x[1], d.w_nom));
    let q = reactive_power(fx_mul(v, fxc(SQRT_2_BITS)), zero(), i.d, i.q, d.n_phase);
    lemma_voltage_regulation_sign(d.xi, v);
    if q == d.q_ref {
        lemma_fx_zero(q);
        lemma_fx_zero(dvoc_gain(d.c, v));
        let r = fx_mul(fx_mul(fx_mul(fxc(TWO_BITS), d.xi), v), fx_sub(fxc(ONE_BITS), fx_mul(v, v)));
        lemma_fx_zero(r);
        assert(fx_mul(dvoc_gain(d.c, v), fx_sub(q, d.q_ref)) == Fxd { bits: 0 });
    }
}

/// The droop controller's filters move toward the measured powers and its
/// speed droops with the filtered active power: with `p` and `q` the active
/// and reactive power of the droop voltage `sqrt(2) (1 - mq (q_filt - q_ref))`
/// and the measured current, the filtered powers change by
/// `w_c (p - p_filt)` and `w_c (q - q_filt)` (so, with a positive `w_c` and
/// nothing wrapping around, they rise while the measured power is above them
/// and fall while it is below), and the angle turns at
/// `1 - mp (p_filt - p_ref)` (unit speed at the reference, slower above it).
pub proof fn law_droop_filters_follow_the_measured_power(c: DroopController, x: Seq<Fxd>, u: Seq<Fxd>)
    ensures
        ({
            let v_d = fx_mul(droop_voltage(c.mq, x[2], c.q_ref), fxc(SQRT_2_BITS));
            let i = current_dq(u, fx_mul(x[0], c.w_nom));
            let p = active_power(v_d, zero(), i.d, i.q, c.n_phase);
            let q = reactive_power(v_d, zero(), i.d, i.q, c.n_phase);
            let dx = c.dynamics_spec(x, u);
            let ep = p.bits - x[1].bits;
            let eq = q.bits - x[2].bits;
            let ok_p = -0x8000_0000 <= ep < 0x8000_0000 && -0x8000_0000 <= (c.w_c.bits * ep) / 65536
                < 0x8000_0000;
            let ok_q = -0x8000_0000 <= eq < 0x8000_0000 && -0x8000_0000 <= (c.w_c.bits * eq) / 65536
                < 0x8000_0000;
            let ef = x[1].bits - c.p_ref.bits;
            let ok_f = -0x8000_0000 <= ef < 0x8000_0000 && -0x7fff_0000 < (c.mp.bits * ef) / 65536
                < 0x7fff_0000;
            &&& dx.len() == 3
            &&& p == x[1] ==> dx[1].bits == 0
            &&& ok_p ==> dx[1].bits == (c.w_c.bits * ep) / 65536
            &&& ok_p && c.w_c.bits > 0 && p.bits > x[1].bits ==> dx[1].bits >= 0
            &&& ok_p && c.w_c.bits > 0 && p.bits < x[1].bits ==> dx[1].bits < 0
            &&& q == x[2] ==> dx[2].bits == 0
            &&& ok_q ==> dx[2].bits == (c.w_c.bits * eq) / 65536
            &&& ok_q && c.w_c.bits > 0 && q.bits > x[2].bits ==> dx[2].bits >= 0
            &&& ok_q && c.w_c.bits > 0 && q.bits < x[2].bits ==> dx[2].bits < 0
            &&& x[1] == c.p_ref ==> dx[0].bits == 65536
            &&& ok_f && c.mp.bits > 0 && x[1].bits > c.p_ref.bits ==> dx[0].bits <= 65536
            &&& ok_f && c.mp.bits > 0 && x[1].bits < c.p_ref.bits ==> dx[0].bits > 65536
        }),
{
    let v_d = fx_mul(droop_voltage(c.mq, x[2], c.q_ref), fxc(SQRT_2_BITS));
    let i = current_dq(u, fx_mul(x[0], c.w_nom));
    let p = active_power(v_d, zero(), i.d, i.q, c.n_phase);
    let q = reactive_power(v_d, zero(), i.d, i.q, c.n_phase);
    lemma_gain_times_gap_sign(c.w_c, p, x[1]);
    lemma_gain_times_gap_sign(c.w_c, q, x[2]);
    lemma_one_minus_gain_times_gap(c.mp, x[1], c.p_ref);
}

/// At nominal speed with the loop at nominal speed, the torque balance of the
/// swing equation is the frequency droop term alone.
proof fn lemma_swing_balance_at_nominal(fd: Fxd, damping: Fxd)
    ensures
        fx_sub(
            fx_sub(fx_add(fxc(ONE_BITS), fd), fxc(ONE_BITS)),
            fx_mul(damping, fx_sub(fxc(ONE_BITS), fxc(ONE_BITS))),
        ) == fd,
{
    let one = fxc(ONE_BITS);
    let t = one.bits + fd.bits;
    let w = crate::fixed_point::wrap_i32(t);
    assert(w == t - 0x1_0000_0000 || w == t || w == t + 0x1_0000_0000);
    assert(crate::fixed_point::wrap_i32(w - one.bits) == fd.bits);
    lemma_fx_zero(one);
    lemma_fx_zero(damping);
    lemma_fx_zero(fd);
    assert(fx_sub(one, one) == Fxd { bits: 0 });
    assert(fx_mul(damping, fx_sub(one, one)) == Fxd { bits: 0 });
}

/// `w mp (p_ref - p) / den` is zero when `p` meets `p_ref`, and with positive
/// `mp`, `w` and `den` and nothing wrapping around, not positive when `p` is
/// above `p_ref` and not negative when it is below.
proof fn lemma_scaled_droop_sign(w: Fxd, mp: Fxd, p: Fxd, p_ref: Fxd, den: Fxd)
    ensures
        ({
            let r = fx_div(fx_mul(w, fx_mul(mp, fx_sub(p_ref, p))), den);
            let e = p_ref.bits - p.bits;
            let fd = (mp.bits * e) / 65536;
            let n = (w.bits * fd) / 65536;
            let no_wrap = -0x8000_0000 <= e < 0x8000_0000 && -0x8000_0000 <= fd < 0x8000_0000
                && -0x8000_0000 <= n < 0x8000_0000 && den.bits > 0 && -0x8000_0000 <= trunc_div(
                n * 65536,
                den.bits as int,
            ) < 0x8000_0000;
            &&& den.bits != 0 && p == p_ref ==> r.bits == 0
            &&& no_wrap && mp.bits > 0 && w.bits > 0 && p.bits > p_ref.bits ==> r.bits <= 0
            &&& no_wrap && mp.bits > 0 && w.bits > 0 && p.bits < p_ref.bits ==> r.bits >= 0
        }),
{
    let e = p_ref.bits - p.bits;
    let fd = (mp.bits * e) / 65536;
    let n = (w.bits * fd) / 65536;
    let fdx = fx_mul(mp, fx_sub(p_ref, p));
    if den.bits != 0 && p == p_ref {
        lemma_fx_zero(p);
        lemma_fx_zero(mp);
        assert(fdx == Fxd { bits: 0 });
        lemma_fx_zero(w);
        assert(fx_mul(w, fdx).bits == 0);
        assert(trunc_div(0int * 65536, den.bits as int) == 0) by (nonlinear_arith)
            requires
                den.bits != 0,
        ;
        assert(crate::fixed_point::wrap_i32(0) == 0);
    }
    let no_wrap = -0x8000_0000 <= e < 0x8000_0000 && -0x8000_0000 <= fd < 0x8000_0000
        && -0x8000_0000 <= n < 0x8000_0000 && den.bits > 0 && -0x8000_0000 <= trunc_div(
        n * 65536,
        den.bits as int,
    ) < 0x8000_0000;
    if no_wrap && mp.bits > 0 && w.bits > 0 && p.bits != p_ref.bits {
        lemma_fx_sub_no_wrap(p_ref, p);
        let sd = fx_sub(p_ref, p);
        assert(sd.bits == e);
        lemma_fx_mul_no_wrap(mp, sd);
        assert(fdx.bits == fd);
        lemma_fx_mul_no_wrap(w, fdx);
        let num = fx_mul(w, fdx);
        assert(num.bits == n);
        lemma_fx_div_pos_no_wrap(num, den);
        if p.bits > p_ref.bits {
            assert(mp.bits * e < 0) by (nonlinear_arith)
                requires
                    mp.bits > 0,
                    e < 0,
            ;
            assert(w.bits * fdx.bits < 0) by (nonlinear_arith)
                requires
                    w.bits > 0,
                    fdx.bits < 0,
            ;
        } else {
            assert(mp.bits * e > 0) by (nonlinear_arith)
                requires
                    mp.bits > 0,
                    e > 0,
            ;
            assert(w.bits * fdx.bits >= 0) by (nonlinear_arith)
                requires
                    w.bits > 0,
                    fdx.bits >= 0,
            ;
        }
    }
}

/// With the droop term at zero and the loop at nominal speed, the damped swing
/// term `w ((1 - omega) - d (omega - 1)) / den` opposes the speed deviation:
/// not positive above nominal speed and not negative below (for a damping
/// `d >= 0`, positive `w` and `den`, and nothing wrapping around).
proof fn lemma_swing_restoring(w: Fxd, damping: Fxd, omega: Fxd, den: Fxd)
    ensures
        ({
            let one = fxc(ONE_BITS);
            let r = fx_div(
                fx_mul(
                    w,
                    fx_sub(
                        fx_sub(fx_add(one, fx_mul(damping, Fxd { bits: 0 })), omega),
                        fx_mul(damping, fx_sub(omega, one)),
                    ),
                ),
                den,
            );
            let dl = omega.bits - 65536;
            let m = (damping.bits * dl) / 65536;
            let n = (w.bits * (-dl - m)) / 65536;
            let no_wrap = -0x4000_0000 < dl < 0x4000_0000 && -0x4000_0000 < m < 0x4000_0000
                && -0x8000_0000 <= n < 0x8000_0000 && den.bits > 0 && -0x8000_0000 <= trunc_div(
                n * 65536,
                den.bits as int,
            ) < 0x8000_0000;
            &&& no_wrap && damping.bits >= 0 && w.bits > 0 && omega.bits > 65536 ==> r.bits <= 0
            &&& no_wrap && damping.bits >= 0 && w.bits > 0 && omega.bits < 65536 ==> r.bits >= 0
        }),
{
    let one = fxc(ONE_BITS);
    let dl = omega.bits - 65536;
    let m = (damping.bits * dl) / 65536;
    let n = (w.bits * (-dl - m)) / 65536;
    let no_wrap = -0x4000_0000 < dl < 0x4000_0000 && -0x4000_0000 < m < 0x4000_0000
        && -0x8000_0000 <= n < 0x8000_0000 && den.bits > 0 && -0x8000_0000 <= trunc_div(
        n * 65536,
        den.bits as int,
    ) < 0x8000_0000;
    if no_wrap && damping.bits >= 0 && w.bits > 0 && omega.bits != 65536 {
        lemma_fx_zero(damping);
        assert(fx_add(one, fx_mul(damping, Fxd { bits: 0 })) == one) by {
            assert(crate::fixed_point::wrap_i32(65536int + 0) == 65536);
        }
        lemma_fx_sub_no_wrap(one, omega);
        lemma_fx_sub_no_wrap(omega, one);
        let sd = fx_sub(omega, one);
        assert(sd.bits == dl);
        lemma_fx_mul_no_wrap(damping, sd);
        let dm = fx_mul(damping, sd);
        assert(dm.bits == m);
        assert(fx_sub(one, omega).bits == -dl);
        lemma_fx_sub_no_wrap(fx_sub(one, omega), dm);
        let bal = fx_sub(fx_sub(one, omega), dm);
        assert(bal.bits == -dl - m);
        lemma_fx_mul_no_wrap(w, bal);
        let num = fx_mul(w, bal);
        lemma_fx_div_pos_no_wrap(num, den);
        if dl > 0 {
            assert(damping.bits * dl >= 0) by (nonlinear_arith)
                requires
                    damping.bits >= 0,
                    dl > 0,
            ;
            assert(w.bits * bal.bits < 0) by (nonlinear_arith)
                requires
                    w.bits > 0,
                    bal.bits < 0,
            ;
        } else {
            assert(damping.bits * dl <= 0) by (nonlinear_arith)
                requires
                    damping.bits >= 0,
                    dl < 0,
            ;
            assert(w.bits * bal.bits > 0) by (nonlinear_arith)
                requires
                    w.bits > 0,
                    bal.bits > 0,
            ;
        }
    }
}

/// The VSM damping and reactive power filter: with the active power at its
/// reference and the loop at nominal speed, the speed derivative opposes the
/// speed deviation (for a damping `d >= 0`, positive `w_nom` and `h`, and
/// nothing wrapping around); the filtered reactive power changes by
/// `w_c (q - q_filt)`, rising while the reactive power `q` of the machine
/// voltage and the measured current is above it and falling while below.
pub proof fn law_vsm_damping_and_reactive_filter<P: PhaseLockLoop<SVector<Fxd, 2>>>(
    c: VsmController<P>,
    x: Seq<Fxd>,
    u: Seq<Fxd>,
)
    ensures
        ({
            let v_d = fx_mul(droop_voltage(c.mq, x[2], c.q_ref), fxc(SQRT_2_BITS));
            let i = current_dq(u, fx_mul(x[0], c.w_nom));
            let p = active_power(v_d, zero(), i.d, i.q, c.n_phase);
            let q = reactive_power(v_d, zero(), i.d, i.q, c.n_phase);
            let den = fx_mul(fxc(TWO_BITS), c.h);
            let dl = x[1].bits - 65536;
            let m = (c.d.bits * dl) / 65536;
            let n = (c.w_nom.bits * (-dl - m)) / 65536;
            let no_wrap = -0x4000_0000 < dl < 0x4000_0000 && -0x4000_0000 < m < 0x4000_0000
                && -0x8000_0000 <= n < 0x8000_0000 && den.bits > 0 && -0x8000_0000 <= trunc_div(
                n * 65536,
                den.bits as int,
            ) < 0x8000_0000;
            let eq = q.bits - x[2].bits;
            let ok_q = -0x8000_0000 <= eq < 0x8000_0000 && -0x8000_0000 <= (c.w_c.bits * eq) / 65536
                < 0x8000_0000;
            let ready = p == c.p_ref && c.pll.pu_omega_spec().bits == 65536 && no_wrap
                && c.d.bits >= 0 && c.w_nom.bits > 0;
            let dx = c.dynamics_spec(x, u);
            &&& ready && x[1].bits > 65536 ==> dx[1].bits <= 0
            &&& ready && x[1].bits < 65536 ==> dx[1].bits >= 0
            &&& q == x[2] ==> dx[2].bits == 0
            &&& ok_q ==> dx[2].bits == (c.w_c.bits * eq) / 65536
            &&& ok_q && c.w_c.bits > 0 && q.bits > x[2].bits ==> dx[2].bits >= 0
            &&& ok_q && c.w_c.bits > 0 && q.bits < x[2].bits ==> dx[2].bits < 0
        }),
{
    let v_d = fx_mul(droop_voltage(c.mq, x[2], c.q_ref), fxc(SQRT_2_BITS));
    let i = current_dq(u, fx_mul(x[0], c.w_nom));
    let p = active_power(v_d, zero(), i.d, i.q, c.n_phase);
    let q = reactive_power(v_d, zero(), i.d, i.q, c.n_phase);
    let den = fx_mul(fxc(TWO_BITS), c.h);
    lemma_gain_times_gap_sign(c.w_c, q, x[2]);
    lemma_swing_restoring(c.w_nom, c.d, x[1], den);
    if p == c.p_ref && c.pll.pu_omega_spec().bits == 65536 {
        lemma_fx_zero(p);
        assert(fx_sub(c.p_ref, p) == Fxd { bits: 0 });
        assert(c.pll.pu_omega_spec() == fxc(ONE_BITS));
    }
}

/// The swing equation of the VSM: the angle turns at the machine speed, and
/// at nominal speed with the phase-locked loop at nominal speed too, the
/// speed changes by `w_nom mp (p_ref - p) / (2 h)`, with `p` the active power
/// of the machine voltage and the measured current. It is zero when the power
/// meets its reference; with positive `mp`, `w_nom` and `h` and nothing
/// wrapping around, power above the reference slows the machine and power
/// below it speeds it up.
pub proof fn law_vsm_power_above_reference_slows_the_machine<P: PhaseLockLoop<SVector<Fxd, 2>>>(
    c: VsmController<P>,
    x: Seq<Fxd>,
    u: Seq<Fxd>,
)
    ensures
        ({
            let v_d = fx_mul(droop_voltage(c.mq, x[2], c.q_ref), fxc(SQRT_2_BITS));
            let i = current_dq(u, fx_mul(x[0], c.w_nom));
            let p = active_power(v_d, zero(), i.d, i.q, c.n_phase);
            let den = fx_mul(fxc(TWO_BITS), c.h);
            let e = c.p_ref.bits - p.bits;
            let fd = (c.mp.bits * e) / 65536;
            let n = (c.w_nom.bits * fd) / 65536;
            let at_nominal = x[1].bits == 65536 && c.pll.pu_omega_spec().bits == 65536;
            let no_wrap = -0x8000_0000 <= e < 0x8000_0000 && -0x8000_0000 <= fd < 0x8000_0000
                && -0x8000_0000 <= n < 0x8000_0000 && den.bits > 0 && -0x8000_0000 <= trunc_div(
                n * 65536,
                den.bits as int,
            ) < 0x8000_0000;
            let dx = c.dynamics_spec(x, u);
            &&& dx.len() == 3
            &&& dx[0] == x[1]
            &&& at_nominal ==> dx[1] == fx_div(
                fx_mul(c.w_nom, fx_mul(c.mp, fx_sub(c.p_ref, p))),
                den,
            )
            &&& at_nominal && den.bits != 0 && p == c.p_ref ==> dx[1].bits == 0
            &&& at_nominal && no_wrap && c.mp.bits > 0 && c.w_nom.bits > 0 && p.bits > c.p_ref.bits
                ==> dx[1].bits <= 0
            &&& at_nominal && no_wrap && c.mp.bits > 0 && c.w_nom.bits > 0 && p.bits < c.p_ref.bits
                ==> dx[1].bits >= 0
        }),
{
    let v_d = fx_mul(droop_voltage(c.mq, x[2], c.q_ref), fxc(SQRT_2_BITS));
    let i = current_dq(u, fx_mul(x[0], c.w_nom));
    let p = active_power(v_d, zero(), i.d, i.q, c.n_phase);
    let den = fx_mul(fxc(TWO_BITS), c.h);
    let fdx = fx_mul(c.mp, fx_sub(c.p_ref, p));
    lemma_scaled_droop_sign(c.w_nom, c.mp, p, c.p_ref, den);
    if x[1].bits == 65536 && c.pll.pu_omega_spec().bits == 65536 {
        assert(x[1] == fxc(ONE_BITS));
        assert(c.pll.pu_omega_spec() == fxc(ONE_BITS));
        lemma_swing_balance_at_nominal(fdx, c.d);
    }
}

/// Setting the per-unit voltage of a dVOC controller and reading it back
/// gives the voltage that was set.
pub proof fn law_dvoc_set_voltage_reads_back(d: DvocController, next: DvocController, v: (Fxd, Fxd))
    requires
        d.set_voltage_post(next, v),
    ensures
        next.pu_voltage_spec() == v,
{
}

/// Setting the voltage of a droop controller sets its angle and leaves its
/// magnitude, which follows the filtered reactive power.
pub proof fn law_droop_set_voltage_sets_angle(
    d: DroopController,
    next: DroopController,
    v: (Fxd, Fxd),
)
    requires
        d.set_voltage_post(next, v),
    ensures
        next.pu_voltage_spec() == (d.pu_voltage_spec().0, v.1),
{
}

/// Setting the voltage of a virtual synchronous machine sets its angle and
/// leaves its magnitude, which follows the filtered reactive power.
pub proof fn law_vsm_set_voltage_sets_angle<P: PhaseLockLoop<SVector<Fxd, 2>>>(
    d: VsmController<P>,
    next: VsmController<P>,
    v: (Fxd, Fxd),
)
    requires
        d.set_voltage_post(next, v),
    ensures
        next.pu_voltage_spec() == (d.pu_voltage_spec().0, v.1),
{
}

/// Ending the presynchronization of a dVOC controller leaves it synchronized
/// with a voltage magnitude of at least zero: a negative magnitude is negated
/// (its raw value must not be the most negative one, whose negation wraps).
pub proof fn law_dvoc_disable_presync_nonnegative(
    p: PresyncInvController<SVector<Fxd, 2>, 2, DvocController>,
    next: PresyncInvController<SVector<Fxd, 2>, 2, DvocController>,
)
    requires
        p.ctrl.x.items()[0].bits > i32::MIN,
        p.disable_presync_post(next),
    ensures
        next.synced,
        next.ctrl.pu_voltage_spec().0.bits >= 0,
{
    let v = p.ctrl.x.items()[0];
    if v.bits < 0 {
        assert(crate::fixed_point::wrap_i32(-v.bits) == -v.bits);
    }
}

/// A step of a dVOC controller leaves its angle state at or below the angle
/// period, when the period is positive.
pub proof fn law_dvoc_step_wraps_angle(
    d: DvocController,
    next: DvocController,
    dt: Fxd,
    u: Seq<Fxd>,
    dx: Seq<Fxd>,
)
    requires
        d.theta_idx.idxs@ == seq![1usize],
        d.theta_idx.maxs@[0].bits > 0,
        d.step_post(next, dt, u, dx),
    ensures
        next.x.items()[1].bits <= d.theta_idx.maxs@[0].bits,
{
    let y = axpy(d.x.items(), dx, dt, 2);
    law_wrap_angle_below_limit(y, d.theta_idx.idxs@, d.theta_idx.maxs@, 1);
}

/// A step of a droop controller leaves its angle state at or below the angle
/// period, when the period is positive.
pub proof fn law_droop_step_wraps_angle(
    d: DroopController,
    next: DroopController,
    dt: Fxd,
    u: Seq<Fxd>,
    dx: Seq<Fxd>,
)
    requires
        d.theta_idx.idxs@ == seq![0usize],
        d.theta_idx.maxs@[0].bits > 0,
        d.step_post(next, dt, u, dx),
    ensures
        next.x.items()[0].bits <= d.theta_idx.maxs@[0].bits,
{
    let y = axpy(d.x.items(), dx, dt, 3);
    law_wrap_angle_below_limit(y, d.theta_idx.idxs@, d.theta_idx.maxs@, 1);
}

/// A step of a virtual synchronous machine leaves its angle state at or below
/// the angle period, when the period is positive.
pub proof fn law_vsm_step_wraps_angle<P: PhaseLockLoop<SVector<Fxd, 2>>>(
    d: VsmController<P>,
    next: VsmController<P>,
    dt: Fxd,
    u: Seq<Fxd>,
    dx: Seq<Fxd>,
)
    requires
        d.theta_idx.idxs@ == seq![0usize],
        d.theta_idx.maxs@[0].bits > 0,
        d.step_post(next, dt, u, dx),
    ensures
        next.x.items()[0].bits <= d.theta_idx.maxs@[0].bits,
{
    let y = axpy(d.x.items(), dx, dt, 3);
    law_wrap_angle_below_limit(y, d.theta_idx.idxs@, d.theta_idx.maxs@, 1);
}

} // verus!
