//! Phase-locked loops: the synchronous reference frame PLL (SRF-PLL) and the
//! double synchronous reference frame PLL (DSRF-PLL).
use crate::dynamics::{
    axpy, idxs_in_range, law_wrap_angle_below_limit, lemma_wrap_angle_ok_single, method_dx,
    method_ok, step_with, wrap_angle, wrap_angle_ok, wrap_angle_spec, Dynamics, NoInputStep,
    StateLimits, StepDynamics, StepMethod, XState,
};
use crate::fixed_point::{
    fx_add, fx_div, fx_mul, fx_sub, lemma_fx_mul_no_wrap, lemma_fx_zero, wrap_i32, Fxd, ONE_BITS,
    SQRT_2_BITS, TWO_BITS, ZERO_BITS,
};
use crate::reference_frames::{
    ab_to_dqz, flipped, fxc, sin_cos_of, sum_sq, zero, AlphaBeta, SinCos, SinCosValues,
    ToFromDQZ, Trig, DQZ,
};
use crate::state::{vec2_get, vec2_new, vec6_get, vec6_new, StateVector};
use crate::trig::{cordic_sqrt_fxd, sqrt_arg_ok, sqrt_of, sqrt_ok};
use nalgebra::SVector;
use vstd::prelude::*;

verus! {

/// A phase-locked loop that tracks the angle and frequency of an alpha-beta
/// voltage.
pub trait PhaseLockLoop<V: StateVector>: StepDynamics<V, 2> {
    /// The inputs for which the voltage magnitude is defined.
    spec fn voltage_magnitude_ok(&self, u: Seq<Fxd>) -> bool;

    spec fn voltage_magnitude_spec(&self, u: Seq<Fxd>) -> Fxd;

    spec fn pu_voltage_angle_spec(&self) -> Fxd;

    spec fn pu_omega_spec(&self) -> Fxd;

    spec fn voltage_angle_spec(&self) -> Fxd;

    spec fn omega_spec(&self) -> Fxd;

    spec fn omega_nom_spec(&self) -> Fxd;

    /// Returns the voltage magnitude of the alpha-beta voltage `u`.
    fn get_voltage_magnitude(&self, u: [Fxd; 2]) -> (r: Fxd)
        requires
            self.voltage_magnitude_ok(u@),
        ensures
            r == self.voltage_magnitude_spec(u@),
    ;

    /// Returns the voltage angle in per unit.
    fn get_pu_voltage_angle(&self) -> (r: Fxd)
        ensures
            r == self.pu_voltage_angle_spec(),
    ;

    /// Returns the angular frequency in per unit.
    fn get_pu_omega(&self) -> (r: Fxd)
        ensures
            r == self.pu_omega_spec(),
    ;

    /// Returns the voltage angle (rad).
    fn get_voltage_angle(&self) -> (r: Fxd)
        ensures
            r == self.voltage_angle_spec(),
    ;

    /// Returns the angular frequency (rad/s).
    fn get_omega(&self) -> (r: Fxd)
        ensures
            r == self.omega_spec(),
    ;

    /// Returns the nominal angular frequency (rad/s).
    fn get_omega_nom(&self) -> (r: Fxd)
        ensures
            r == self.omega_nom_spec(),
    ;
}

/* Synchronous reference frame PLL */

/// A synchronous reference frame phase-locked loop (SRF-PLL).
pub struct SrfPhaseLockedLoop {
    /// Nominal frequency (rad/s).
    pub w_nom: Fxd,
    /// Proportional gain.
    pub kp: Fxd,
    /// Integral gain.
    pub ki: Fxd,
    /// States: angle (p.u.) and the integral of the PI controller.
    pub x: SVector<Fxd, 2>,
    pub dx_dt: SVector<Fxd, 2>,
    /// The angular frequency (p.u.) of the last step.
    pub omega: Fxd,
    /// The angle state (index 0) wraps at one period.
    pub theta_idx: StateLimits<1>,
    pub step_method: StepMethod,
}

/// The grid voltage in the frame of the PLL angle.
pub open spec fn pll_dq(u: Seq<Fxd>, theta: Fxd) -> DQZ {
    ab_to_dqz(u[0], u[1], zero(), sin_cos_of(theta))
}

impl SrfPhaseLockedLoop {
    /// Constructs an SRF-PLL at zero angle and nominal frequency.
    pub fn new(w_nom: Fxd, kp: Fxd, ki: Fxd, step_method: StepMethod) -> (r: SrfPhaseLockedLoop)
        requires
            w_nom.bits != 0,
        ensures
            r.w_nom == w_nom,
            r.kp == kp,
            r.ki == ki,
            r.x.items() == seq![zero(), zero()],
            r.dx_dt.items() == seq![fxc(ONE_BITS), zero()],
            r.omega == fxc(ONE_BITS),
            r.theta_idx.idxs@ == seq![0usize],
            r.theta_idx.maxs@ == seq![crate::dynamics::theta_period(w_nom)],
            r.step_method == step_method,
    {
        let z = Fxd { bits: ZERO_BITS };
        SrfPhaseLockedLoop {
            w_nom,
            kp,
            ki,
            x: vec2_new(z, z),
            dx_dt: vec2_new(Fxd { bits: ONE_BITS }, z),
            omega: Fxd { bits: ONE_BITS },
            theta_idx: StateLimits::new_theta_wrap([0], w_nom),
            step_method,
        }
    }

    /// The per-unit frequency `1 + kp * v_q + ki * integral`.
    pub open spec fn omega_of(&self, v_q: Fxd, integral: Fxd) -> Fxd {
        fx_add(fx_add(fxc(ONE_BITS), fx_mul(self.kp, v_q)), fx_mul(self.ki, integral))
    }

    /// Voltage magnitude, angle and frequency of the PLL for the alpha-beta
    /// voltage `u`.
    pub fn output(&self, u: [Fxd; 2]) -> (r: [Fxd; 3])
        requires
            sqrt_ok(
                sum_sq(
                    pll_dq(u@, self.x.items()[0]).d,
                    pll_dq(u@, self.x.items()[0]).q,
                ),
            ),
        ensures
            ({
                let v = pll_dq(u@, self.x.items()[0]);
                r@ == seq![
                    fx_div(sqrt_of(sum_sq(v.d, v.q)), fxc(SQRT_2_BITS)),
                    self.x.items()[0],
                    self.omega_of(v.q, self.x.items()[1]),
                ]
            }),
            r[0].bits >= 0,
    {
        let theta = vec2_get(&self.x, 0);
        let sin_cos = SinCos::from_theta(theta);
        let v_in_dq = DQZ::from_ab(u[0], u[1], Fxd { bits: ZERO_BITS }, &sin_cos);
        let omega = Fxd { bits: ONE_BITS }.add(self.kp.mul(v_in_dq.q)).add(
            self.ki.mul(vec2_get(&self.x, 1)),
        );
        let s = cordic_sqrt_fxd(v_in_dq.d.mul(v_in_dq.d).add(v_in_dq.q.mul(v_in_dq.q)));
        proof {
            let n = s.bits * 65536;
            assert(0 <= n / (SQRT_2_BITS as int) < 0x8000_0000) by (nonlinear_arith)
                requires
                    0 <= n <= 0x7fff_ffff * 65536,
            ;
            assert(crate::fixed_point::trunc_div(n, SQRT_2_BITS as int) == n / (SQRT_2_BITS as int));
        }
        let v_mag = s.div(Fxd { bits: SQRT_2_BITS });
        let r = [v_mag, theta, omega];
        assert(r@ =~= seq![v_mag, theta, omega]);
        r
    }

    /// The output of the PLL for the alpha-beta voltage `u` when the squared
    /// magnitude of `u` in the frame of the PLL angle is in the range that the
    /// square root accepts, and `None` otherwise.
    pub fn checked_output(&self, u: [Fxd; 2]) -> (r: Option<[Fxd; 3]>)
        ensures
            ({
                let v = pll_dq(u@, self.x.items()[0]);
                &&& r.is_some() <==> sqrt_ok(sum_sq(v.d, v.q))
                &&& r.is_some() ==> r.unwrap()@ == seq![
                    fx_div(sqrt_of(sum_sq(v.d, v.q)), fxc(SQRT_2_BITS)),
                    self.x.items()[0],
                    self.omega_of(v.q, self.x.items()[1]),
                ]
                &&& r.is_some() ==> r.unwrap()[0].bits >= 0
            }),
    {
        let sin_cos = SinCos::from_theta(vec2_get(&self.x, 0));
        let v = DQZ::from_ab(u[0], u[1], Fxd { bits: ZERO_BITS }, &sin_cos);
        if sqrt_arg_ok(v.d.mul(v.d).add(v.q.mul(v.q))) {
            Some(self.output(u))
        } else {
            None
        }
    }

    /// The states after a step with the dynamics `dx`, with the angle wrapped.
    pub open spec fn stepped_x(&self, dx: Seq<Fxd>, dt: Fxd) -> Seq<Fxd> {
        wrap_angle_spec(
            axpy(self.x.items(), dx, dt, 2),
            self.theta_idx.idxs@,
            self.theta_idx.maxs@,
            1,
        )
    }
}

impl Dynamics<SVector<Fxd, 2>, 2> for SrfPhaseLockedLoop {
    open spec fn dynamics_ok(&self, x: Seq<Fxd>, u: Seq<Fxd>) -> bool {
        true
    }

    open spec fn dynamics_spec(&self, x: Seq<Fxd>, u: Seq<Fxd>) -> Seq<Fxd> {
        let v = pll_dq(u, fx_mul(x[0], self.w_nom));
        seq![self.omega_of(v.q, x[1]), v.q]
    }

    /// The angle and integral dynamics for the alpha-beta voltage `u`.
    fn dynamics(&self, x: &SVector<Fxd, 2>, u: [Fxd; 2]) -> (dx: SVector<Fxd, 2>) {
        let sin_cos = SinCos::from_theta(vec2_get(x, 0).mul(self.w_nom));
        let v_in_dq = DQZ::from_ab_(u[0], u[1], &sin_cos);
        let omega = Fxd { bits: ONE_BITS }.add(self.kp.mul(v_in_dq.q)).add(
            self.ki.mul(vec2_get(x, 1)),
        );
        vec2_new(omega, v_in_dq.q)
    }
}

impl XState<SVector<Fxd, 2>> for SrfPhaseLockedLoop {
    open spec fn x_spec(&self) -> SVector<Fxd, 2> {
        self.x
    }

    open spec fn with_x(&self, x: SVector<Fxd, 2>) -> Self {
        SrfPhaseLockedLoop { x, ..*self }
    }

    fn get_x(&self) -> (r: &SVector<Fxd, 2>) {
        &self.x
    }

    fn set_x(&mut self, x: SVector<Fxd, 2>) {
        self.x = x;
    }
}

impl StepDynamics<SVector<Fxd, 2>, 2> for SrfPhaseLockedLoop {
    open spec fn step_ok(&self, dt: Fxd, u: Seq<Fxd>) -> bool {
        let dx = method_dx::<SVector<Fxd, 2>, SrfPhaseLockedLoop, 2>(
            self.step_method,
            *self,
            self.x.items(),
            u,
            dt,
        );
        &&& method_ok::<SVector<Fxd, 2>, SrfPhaseLockedLoop, 2>(
            self.step_method,
            *self,
            self.x.items(),
            u,
            dt,
        )
        &&& idxs_in_range(self.theta_idx.idxs@, 2)
        &&& wrap_angle_ok(
            axpy(self.x.items(), dx, dt, 2),
            self.theta_idx.idxs@,
            self.theta_idx.maxs@,
            1,
        )
    }

    open spec fn step_post(&self, next: Self, dt: Fxd, u: Seq<Fxd>, dx: Seq<Fxd>) -> bool {
        &&& dx == method_dx::<SVector<Fxd, 2>, SrfPhaseLockedLoop, 2>(
            self.step_method,
            *self,
            self.x.items(),
            u,
            dt,
        )
        &&& next == (SrfPhaseLockedLoop { x: next.x, omega: dx[0], ..*self })
        &&& next.x.items() == self.stepped_x(dx, dt)
    }

    /// Steps the PLL, stores the new frequency and wraps the angle state.
    fn step(&mut self, dt: Fxd, u: [Fxd; 2]) -> (dx: SVector<Fxd, 2>) {
        let m = self.step_method;
        let dx = step_with(m, self, dt, u);
        self.omega = vec2_get(&dx, 0);
        wrap_angle(&mut self.x, &self.theta_idx);
        dx
    }
}

impl SrfPhaseLockedLoop {
    /// Steps the PLL as `step` does when its angle can be wrapped (the angle
    /// index addresses a state, and a stepped angle above the limit meets a
    /// nonzero limit); otherwise returns `None` and leaves the PLL unchanged.
    pub fn checked_step(&mut self, dt: Fxd, u: [Fxd; 2]) -> (r: Option<SVector<Fxd, 2>>)
        ensures
            r.is_some() <==> old(self).step_ok(dt, u@),
            r.is_some() ==> old(self).step_post(*final(self), dt, u@, r.unwrap().items()),
            r.is_none() ==> *final(self) == *old(self),
    {
        let idx = self.theta_idx.idxs[0];
        if idx >= 2 {
            return None;
        }
        let mut trial = SrfPhaseLockedLoop {
            w_nom: self.w_nom,
            kp: self.kp,
            ki: self.ki,
            x: self.x,
            dx_dt: self.dx_dt,
            omega: self.omega,
            theta_idx: StateLimits {
                idxs: self.theta_idx.idxs,
                mins: self.theta_idx.mins,
                maxs: self.theta_idx.maxs,
            },
            step_method: self.step_method,
        };
        assert(trial == *self);
        let m = self.step_method;
        let _ = step_with(m, &mut trial, dt, u);
        let angle = vec2_get(&trial.x, idx);
        let max = self.theta_idx.maxs[0];
        proof {
            lemma_wrap_angle_ok_single(trial.x.items(), self.theta_idx.idxs@, self.theta_idx.maxs@);
        }
        if angle.bits > max.bits && max.bits == 0 {
            return None;
        }
        Some(self.step(dt, u))
    }
}

impl NoInputStep<SVector<Fxd, 2>, 2> for SrfPhaseLockedLoop {
    open spec fn step_zero_ok(&self, dt: Fxd) -> bool {
        self.step_ok(dt, seq![zero(), zero()])
    }

    open spec fn step_zero_post(&self, next: Self, dt: Fxd) -> bool {
        exists|dx: Seq<Fxd>| self.step_post(next, dt, seq![zero(), zero()], dx)
    }

    /// Steps the PLL with a zero voltage.
    fn step_(&mut self, dt: Fxd) {
        let z = Fxd { bits: ZERO_BITS };
        let u = [z, z];
        assert(u@ =~= seq![zero(), zero()]);
        let dx = self.step(dt, u);
        assert(old(self).step_post(*self, dt, seq![zero(), zero()], dx.items()));
    }
}

impl PhaseLockLoop<SVector<Fxd, 2>> for SrfPhaseLockedLoop {
    open spec fn voltage_magnitude_ok(&self, u: Seq<Fxd>) -> bool {
        sqrt_ok(sum_sq(u[0], u[1]))
    }

    open spec fn voltage_magnitude_spec(&self, u: Seq<Fxd>) -> Fxd {
        sqrt_of(sum_sq(u[0], u[1]))
    }

    open spec fn pu_voltage_angle_spec(&self) -> Fxd {
        self.x.items()[0]
    }

    open spec fn pu_omega_spec(&self) -> Fxd {
        self.omega
    }

    open spec fn voltage_angle_spec(&self) -> Fxd {
        fx_mul(self.x.items()[0], self.w_nom)
    }

    open spec fn omega_spec(&self) -> Fxd {
        fx_mul(self.omega, self.w_nom)
    }

    open spec fn omega_nom_spec(&self) -> Fxd {
        self.w_nom
    }

    /// The magnitude `sqrt(u_alpha^2 + u_beta^2)` of the alpha-beta voltage,
    /// which is not negative.
    fn get_voltage_magnitude(&self, u: [Fxd; 2]) -> (r: Fxd)
        ensures
            r.bits >= 0,
    {
        cordic_sqrt_fxd(u[0].mul(u[0]).add(u[1].mul(u[1])))
    }

    fn get_pu_voltage_angle(&self) -> (r: Fxd) {
        vec2_get(&self.x, 0)
    }

    fn get_pu_omega(&self) -> (r: Fxd) {
        self.omega
    }

    fn get_voltage_angle(&self) -> (r: Fxd) {
        vec2_get(&self.x, 0).mul(self.w_nom)
    }

    fn get_omega(&self) -> (r: Fxd) {
        self.omega.mul(self.w_nom)
    }

    fn get_omega_nom(&self) -> (r: Fxd) {
        self.w_nom
    }
}

/* Double synchronous reference frame PLL */

/// A double synchronous reference frame phase-locked loop (DSRF-PLL), after
/// "Double Synchronous Reference Frame PLL for Power Converters Control" by
/// Rodriguez P. et al.
pub struct DsrfPhaseLockedLoop {
    /// Nominal frequency (rad/s).
    pub w_nom: Fxd,
    /// Low-pass filter frequency.
    pub w_filt: Fxd,
    /// Proportional gain.
    pub kp: Fxd,
    /// Integral gain.
    pub ki: Fxd,
    /// States: angle, filtered positive-sequence d and q, filtered
    /// negative-sequence d and q, and the PI controller integral.
    pub x: SVector<Fxd, 6>,
    pub dx_dt: SVector<Fxd, 6>,
}

/// The decoupling cell (eq. 11 of the paper), in the frame at `2 theta w_nom`.
pub open spec fn decoupled(
    w_nom: Fxd,
    theta: Fxd,
    d_n: Fxd,
    q_n: Fxd,
    d_m: Fxd,
    q_m: Fxd,
    d_n_filt: Fxd,
    q_n_filt: Fxd,
    d_m_filt: Fxd,
    q_m_filt: Fxd,
) -> Seq<Fxd> {
    let s = sin_cos_of(fx_mul(fx_mul(fxc(TWO_BITS), theta), w_nom));
    seq![
        fx_sub(fx_sub(d_n, fx_mul(d_m_filt, s.cos_val)), fx_mul(q_m_filt, s.sin_val)),
        fx_add(fx_sub(q_n, fx_mul(q_m_filt, s.cos_val)), fx_mul(d_m_filt, s.sin_val)),
        fx_add(fx_sub(d_m, fx_mul(d_n_filt, s.cos_val)), fx_mul(q_n_filt, s.sin_val)),
        fx_sub(fx_sub(q_m, fx_mul(q_n_filt, s.cos_val)), fx_mul(d_n_filt, s.sin_val)),
    ]
}

impl DsrfPhaseLockedLoop {
    /// Filtered positive-sequence magnitude, angle and frequency
    /// `w_nom + kp * q_filt + ki * integral`.
    pub fn output(&self, _u: [Fxd; 3]) -> (r: [Fxd; 3])
        ensures
            r@ == seq![
                self.x.items()[1],
                self.x.items()[0],
                fx_add(
                    fx_add(self.w_nom, fx_mul(self.kp, self.x.items()[2])),
                    fx_mul(self.ki, self.x.items()[5]),
                ),
            ],
    {
        let omega = self.w_nom.add(self.kp.mul(vec6_get(&self.x, 2))).add(
            self.ki.mul(vec6_get(&self.x, 5)),
        );
        let r = [vec6_get(&self.x, 1), vec6_get(&self.x, 0), omega];
        assert(r@ =~= seq![r[0], r[1], r[2]]);
        r
    }

    fn decoupling_cell(
        &self,
        theta: Fxd,
        d_n: Fxd,
        q_n: Fxd,
        d_m: Fxd,
        q_m: Fxd,
        d_n_filt: Fxd,
        q_n_filt: Fxd,
        d_m_filt: Fxd,
        q_m_filt: Fxd,
    ) -> (r: [Fxd; 4])
        ensures
            r@ == decoupled(
                self.w_nom,
                theta,
                d_n,
                q_n,
                d_m,
                q_m,
                d_n_filt,
                q_n_filt,
                d_m_filt,
                q_m_filt,
            ),
    {
        let sin_cos = SinCos::from_theta(Fxd { bits: TWO_BITS }.mul(theta).mul(self.w_nom));
        let c = sin_cos.cos_value();
        let s = sin_cos.sin_value();
        let d_n_star = d_n.sub(d_m_filt.mul(c)).sub(q_m_filt.mul(s));
        let q_n_star = q_n.sub(q_m_filt.mul(c)).add(d_m_filt.mul(s));
        let d_m_star = d_m.sub(d_n_filt.mul(c)).add(q_n_filt.mul(s));
        let q_m_star = q_m.sub(q_n_filt.mul(c)).sub(d_n_filt.mul(s));
        let r = [d_n_star, q_n_star, d_m_star, q_m_star];
        assert(r@ =~= seq![d_n_star, q_n_star, d_m_star, q_m_star]);
        r
    }
}

impl Dynamics<SVector<Fxd, 6>, 3> for DsrfPhaseLockedLoop {
    open spec fn dynamics_ok(&self, x: Seq<Fxd>, u: Seq<Fxd>) -> bool {
        true
    }

    open spec fn dynamics_spec(&self, x: Seq<Fxd>, u: Seq<Fxd>) -> Seq<Fxd> {
        let s = sin_cos_of(x[0]);
        let pos = ab_to_dqz(u[0], u[1], u[2], s);
        let neg = ab_to_dqz(u[0], u[1], u[2], flipped(s));
        let dc = decoupled(self.w_nom, x[0], pos.d, pos.q, neg.d, neg.q, x[1], x[2], x[3], x[4]);
        seq![
            fx_add(fx_add(self.w_nom, fx_mul(self.kp, dc[1])), fx_mul(self.ki, x[5])),
            fx_mul(self.w_filt, fx_sub(dc[0], x[1])),
            fx_mul(self.w_filt, fx_sub(dc[1], x[2])),
            fx_mul(self.w_filt, fx_sub(dc[2], x[3])),
            fx_mul(self.w_filt, fx_sub(dc[3], x[4])),
            dc[1],
        ]
    }

    /// The DSRF-PLL dynamics (Fig. 5 of the paper) for the alpha-beta-gamma
    /// voltage `u`.
    #[verifier::spinoff_prover]
    #[verifier::rlimit(30)]
    fn dynamics(&self, x: &SVector<Fxd, 6>, u: [Fxd; 3]) -> (dx: SVector<Fxd, 6>) {
        let theta = vec6_get(x, 0);
        let sin_cos = SinCos::from_theta(theta);
        let v_alpha_beta = AlphaBeta { alpha: u[0], beta: u[1], gamma: u[2] };
        let v_dq_pos = v_alpha_beta.to_dqz(&sin_cos);
        let v_dq_neg = v_alpha_beta.to_dqz(&sin_cos.flip_theta());
        let x1 = vec6_get(x, 1);
        let x2 = vec6_get(x, 2);
        let x3 = vec6_get(x, 3);
        let x4 = vec6_get(x, 4);
        let dc = self.decoupling_cell(
            theta,
            v_dq_pos.d,
            v_dq_pos.q,
            v_dq_neg.d,
            v_dq_neg.q,
            x1,
            x2,
            x3,
            x4,
        );
        let x5 = vec6_get(x, 5);
        let omega = self.w_nom.add(self.kp.mul(dc[1])).add(self.ki.mul(x5));
        let d1 = self.w_filt.mul(dc[0].sub(x1));
        let d2 = self.w_filt.mul(dc[1].sub(x2));
        let d3 = self.w_filt.mul(dc[2].sub(x3));
        let d4 = self.w_filt.mul(dc[3].sub(x4));
        let d5 = dc[1];
        let dx = vec6_new(omega, d1, d2, d3, d4, d5);
        let ghost xs = x.items();
        assert(xs[0] == theta && xs[1] == x1 && xs[2] == x2 && xs[3] == x3 && xs[4] == x4 && xs[5]
            == x5);
        let ghost expected = self.dynamics_spec(xs, u@);
        assert(expected =~= seq![omega, d1, d2, d3, d4, d5]);
        assert(dx.items() =~= seq![omega, d1, d2, d3, d4, d5]);
        dx
    }
}

impl XState<SVector<Fxd, 6>> for DsrfPhaseLockedLoop {
    open spec fn x_spec(&self) -> SVector<Fxd, 6> {
        self.x
    }

    open spec fn with_x(&self, x: SVector<Fxd, 6>) -> Self {
        DsrfPhaseLockedLoop { x, ..*self }
    }

    fn get_x(&self) -> (r: &SVector<Fxd, 6>) {
        &self.x
    }

    fn set_x(&mut self, x: SVector<Fxd, 6>) {
        self.x = x;
    }
}

/// A step of an SRF-PLL stores the frequency it stepped with and leaves its
/// angle state at or below the angle period, when the period is positive.
pub proof fn law_srf_pll_step_wraps_angle(
    p: SrfPhaseLockedLoop,
    next: SrfPhaseLockedLoop,
    dt: Fxd,
    u: Seq<Fxd>,
    dx: Seq<Fxd>,
)
    requires
        p.theta_idx.idxs@ == seq![0usize],
        p.theta_idx.maxs@[0].bits > 0,
        p.step_post(next, dt, u, dx),
    ensures
        next.x.items()[0].bits <= p.theta_idx.maxs@[0].bits,
        next.pu_omega_spec() == dx[0],
{
    let y = axpy(p.x.items(), dx, dt, 2);
    law_wrap_angle_below_limit(y, p.theta_idx.idxs@, p.theta_idx.maxs@, 1);
}

/// The SRF-PLL turns at `1 + kp v_q + ki integral` (per unit), with `v_q` the
/// q-component of the grid voltage in the frame of the loop angle (this is the
/// frequency that `output` reports and that the dynamics step the angle
/// with). With a positive `kp`, a zero integral and nothing wrapping around,
/// the loop runs faster than nominal while the grid voltage leads it
/// (`v_q > 0`), slower while it lags, and at nominal speed when it is in
/// phase.
pub proof fn law_srf_pll_speeds_up_when_the_grid_leads(pll: SrfPhaseLockedLoop, v_q: Fxd, integral: Fxd)
    ensures
        ({
            let a = (pll.kp.bits * v_q.bits) / 65536;
            let b = (pll.ki.bits * integral.bits) / 65536;
            let no_wrap = -0x4000_0000 <= a < 0x4000_0000 && -0x3fff_0000 <= b < 0x3fff_0000;
            let w = pll.omega_of(v_q, integral);
            &&& no_wrap ==> w.bits == 65536 + a + b
            &&& no_wrap && integral.bits == 0 && pll.kp.bits > 0 && v_q.bits > 0 ==> w.bits >= 65536
            &&& no_wrap && integral.bits == 0 && pll.kp.bits > 0 && v_q.bits < 0 ==> w.bits < 65536
            &&& integral.bits == 0 && v_q.bits == 0 ==> w.bits == 65536
        }),
{
    let a = (pll.kp.bits * v_q.bits) / 65536;
    let b = (pll.ki.bits * integral.bits) / 65536;
    if -0x4000_0000 <= a < 0x4000_0000 && -0x3fff_0000 <= b < 0x3fff_0000 {
        lemma_fx_mul_no_wrap(pll.kp, v_q);
        lemma_fx_mul_no_wrap(pll.ki, integral);
        assert(wrap_i32(65536 + a) == 65536 + a);
        assert(wrap_i32(65536 + a + b) == 65536 + a + b);
        if pll.kp.bits > 0 && v_q.bits > 0 {
            assert(pll.kp.bits * v_q.bits > 0) by (nonlinear_arith)
                requires
                    pll.kp.bits > 0,
                    v_q.bits > 0,
            ;
        }
        if pll.kp.bits > 0 && v_q.bits < 0 {
            assert(pll.kp.bits * v_q.bits < 0) by (nonlinear_arith)
                requires
                    pll.kp.bits > 0,
                    v_q.bits < 0,
            ;
        }
    }
    if integral.bits == 0 && v_q.bits == 0 {
        lemma_fx_zero(pll.kp);
        lemma_fx_zero(pll.ki);
        assert(v_q == Fxd { bits: 0 });
        assert(integral == Fxd { bits: 0 });
        assert(wrap_i32(65536int + 0) == 65536);
        assert(wrap_i32(65536int + 0 + 0) == 65536);
    }
}

/// The SRF-PLL dynamics: the angle turns at the loop frequency for the
/// q-component `v_q` of the grid voltage in the frame of the angle, and the
/// integral state integrates `v_q`.
pub proof fn law_srf_pll_dynamics_track_the_grid_q(pll: SrfPhaseLockedLoop, x: Seq<Fxd>, u: Seq<Fxd>)
    ensures
        ({
            let v_q = ab_to_dqz(u[0], u[1], zero(), sin_cos_of(fx_mul(x[0], pll.w_nom))).q;
            let dx = pll.dynamics_spec(x, u);
            &&& dx.len() == 2
            &&& dx[0] == pll.omega_of(v_q, x[1])
            &&& dx[1] == v_q
        }),
{
}

} // verus!
