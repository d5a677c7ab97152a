//! A droop controller held in units (volts, radians per second) rather than
//! per unit.
use crate::calculations::{active_power, calc_dq_power, reactive_power};
use crate::dynamics::{Dynamics, XState};
use crate::fixed_point::{
    fx_mul, fx_neg, fx_sub, lemma_fx_zero, lemma_gain_times_gap_sign, Fxd, ONE_BITS, SQRT_2_BITS,
    THREE_BITS, ZERO_BITS,
};
use crate::gfm::current_dq;
use crate::reference_frames::{fxc, zero, AlphaBeta, SinCos, ToFromDQZ, Trig, DQZ};
use crate::simulations::ThetaIdx;
use crate::state::{vec4_get, vec4_new, StateVector};
use nalgebra::SVector;
use vstd::prelude::*;

verus! {

/// A droop controller in units, after "Control of Parallel Connected
/// Inverters in Standalone ac Supply Systems" by Chandorkar M. et al.
pub struct DroopController {
    /// Voltage state (V).
    pub v: Fxd,
    /// Angle state (rad).
    pub theta: Fxd,
    /// Filtered active power.
    pub p_filt: Fxd,
    /// Filtered reactive power.
    pub q_filt: Fxd,
    /// States: voltage, angle, filtered active and reactive power.
    pub x: SVector<Fxd, 4>,
    /// The angle is state 1.
    pub theta_idx: ThetaIdx,
    /// Nominal voltage (V).
    pub v_nom: Fxd,
    /// Nominal voltage (p.u.).
    pub x_nom: Fxd,
    /// Nominal frequency (rad/s).
    pub w_nom: Fxd,
    /// Cut-off frequency of the power filters (rad/s).
    pub w_c: Fxd,
    /// Rated power (VA).
    pub s_rated: Fxd,
    /// Frequency droop slope.
    pub mp: Fxd,
    /// Voltage droop slope.
    pub mq: Fxd,
    /// Active power reference.
    pub p_ref: Fxd,
    /// Reactive power reference.
    pub q_ref: Fxd,
}

impl DroopController {
    /// Sets the active power reference.
    pub fn set_p_ref(&mut self, p_ref: Fxd)
        ensures
            *final(self) == (DroopController { p_ref, ..*old(self) }),
    {
        self.p_ref = p_ref;
    }

    /// The index of the angle state.
    pub fn get_theta_idx(&self) -> (r: &ThetaIdx)
        ensures
            *r == self.theta_idx,
    {
        &self.theta_idx
    }
}

impl DroopController {
    /// The droop dynamics in units (eq. 13 and 17 of the paper) for the
    /// states `x` (voltage, angle, filtered active and reactive power) and the
    /// alpha-beta current `u`, the power taken over three phases.
    pub open spec fn dynamics_of(&self, x: Seq<Fxd>, u: Seq<Fxd>) -> Seq<Fxd> {
        let v_d = fx_mul(x[0], fxc(SQRT_2_BITS));
        let i_dq = current_dq(u, x[1]);
        let p = active_power(v_d, zero(), i_dq.d, i_dq.q, fxc(THREE_BITS));
        let q = reactive_power(v_d, zero(), i_dq.d, i_dq.q, fxc(THREE_BITS));
        let dp_filt_dt = fx_mul(self.w_c, fx_sub(p, x[2]));
        let dq_filt_dt = fx_mul(self.w_c, fx_sub(q, x[3]));
        seq![
            fx_mul(fx_neg(self.mq), dq_filt_dt),
            fx_sub(self.w_nom, fx_mul(self.mp, fx_sub(x[2], self.p_ref))),
            dp_filt_dt,
            dq_filt_dt,
        ]
    }
}

impl Dynamics<SVector<Fxd, 4>, 2> for DroopController {
    open spec fn dynamics_ok(&self, x: Seq<Fxd>, u: Seq<Fxd>) -> bool {
        true
    }

    open spec fn dynamics_spec(&self, x: Seq<Fxd>, u: Seq<Fxd>) -> Seq<Fxd> {
        self.dynamics_of(x, u)
    }

    /// The voltage, angle and filtered power dynamics for the states `x` and
    /// the alpha-beta current `u`.
    fn dynamics(&self, x: &SVector<Fxd, 4>, u: [Fxd; 2]) -> (dx: SVector<Fxd, 4>) {
        let v = vec4_get(x, 0);
        let theta = vec4_get(x, 1);
        let p_filt = vec4_get(x, 2);
        let q_filt = vec4_get(x, 3);
        let v_dq = DQZ {
            d: v.mul(Fxd { bits: SQRT_2_BITS }),
            q: Fxd { bits: ZERO_BITS },
            z: Fxd { bits: ZERO_BITS },
        };
        let i_dq = AlphaBeta::from_ab_(u[0], u[1]).to_dqz(&SinCos::from_theta(theta));
        let (p, q) = calc_dq_power(&v_dq, &i_dq, Fxd { bits: THREE_BITS });
        let dp_filt_dt = self.w_c.mul(p.sub(p_filt));
        let dq_filt_dt = self.w_c.mul(q.sub(q_filt));
        let dv_dt = self.mq.neg().mul(dq_filt_dt);
        let dtheta_dt = self.w_nom.sub(self.mp.mul(p_filt.sub(self.p_ref)));
        let dx = vec4_new(dv_dt, dtheta_dt, dp_filt_dt, dq_filt_dt);
        assert(dx.items() =~= seq![dv_dt, dtheta_dt, dp_filt_dt, dq_filt_dt]);
        dx
    }
}

impl XState<SVector<Fxd, 4>> for DroopController {
    open spec fn x_spec(&self) -> SVector<Fxd, 4> {
        self.x
    }

    open spec fn with_x(&self, x: SVector<Fxd, 4>) -> Self {
        DroopController { x, ..*self }
    }

    fn get_x(&self) -> (r: &SVector<Fxd, 4>) {
        &self.x
    }

    fn set_x(&mut self, x: SVector<Fxd, 4>) {
        self.x = x;
    }
}

/// Constructs a droop controller for the nominal voltage `v_nom` (V) and
/// frequency `w_nom` (rad/s), the rated power `s_rated` (VA), the droop slopes
/// `mp` and `mq` and the filter cut-off `w_c` (rad/s): it starts at the
/// nominal voltage, angle zero and zero filtered powers.
pub fn build_droop_controller(
    v_nom: Fxd,
    w_nom: Fxd,
    s_rated: Fxd,
    mp: Fxd,
    mq: Fxd,
    w_c: Fxd,
) -> (r: DroopController)
    ensures
        r.v == v_nom,
        r.theta == zero(),
        r.p_filt == zero(),
        r.q_filt == zero(),
        r.x.items() == seq![v_nom, zero(), zero(), zero()],
        r.theta_idx == (ThetaIdx { has_theta: true, theta_idx: 1 }),
        r.v_nom == v_nom,
        r.x_nom == fxc(ONE_BITS),
        r.w_nom == w_nom,
        r.s_rated == s_rated,
        r.mp == mp,
        r.mq == mq,
        r.w_c == w_c,
        r.p_ref == zero(),
        r.q_ref == zero(),
{
    let z = Fxd { bits: ZERO_BITS };
    let x = vec4_new(v_nom, z, z, z);
    assert(x.items() =~= seq![v_nom, zero(), zero(), zero()]);
    DroopController {
        v: v_nom,
        theta: z,
        p_filt: z,
        q_filt: z,
        x,
        theta_idx: ThetaIdx { has_theta: true, theta_idx: 1 },
        v_nom,
        x_nom: Fxd { bits: ONE_BITS },
        w_nom,
        w_c,
        s_rated,
        mp,
        mq,
        p_ref: z,
        q_ref: z,
    }
}


/// The droop controller in units: the filtered powers change by
/// `w_c (p - p_filt)` and `w_c (q - q_filt)`, with `p` and `q` the active and
/// reactive power of the voltage `sqrt(2) v` and the measured current (taken
/// over three phases in the frame of the angle state), so they rise while the
/// measured power is above them and fall while below (positive `w_c`, nothing
/// wrapping around); the voltage holds while the reactive filter is settled,
/// and the angle turns at the nominal frequency while the filtered active
/// power meets its reference.
pub proof fn law_unit_droop_filters_follow_the_measured_power(c: DroopController, x: Seq<Fxd>, u: Seq<Fxd>)
    ensures
        ({
            let i = current_dq(u, x[1]);
            let p = active_power(fx_mul(x[0], fxc(SQRT_2_BITS)), zero(), i.d, i.q, fxc(THREE_BITS));
            let q = reactive_power(fx_mul(x[0], fxc(SQRT_2_BITS)), zero(), i.d, i.q, fxc(THREE_BITS));
            let dx = c.dynamics_spec(x, u);
            let ep = p.bits - x[2].bits;
            let eq = q.bits - x[3].bits;
            let ok_p = -0x8000_0000 <= ep < 0x8000_0000 && -0x8000_0000 <= (c.w_c.bits * ep) / 65536
                < 0x8000_0000;
            let ok_q = -0x8000_0000 <= eq < 0x8000_0000 && -0x8000_0000 <= (c.w_c.bits * eq) / 65536
                < 0x8000_0000;
            &&& dx.len() == 4
            &&& p == x[2] ==> dx[2].bits == 0
            &&& ok_p && c.w_c.bits > 0 && p.bits > x[2].bits ==> dx[2].bits >= 0
            &&& ok_p && c.w_c.bits > 0 && p.bits < x[2].bits ==> dx[2].bits < 0
            &&& q == x[3] ==> dx[3].bits == 0 && dx[0].bits == 0
            &&& ok_q && c.w_c.bits > 0 && q.bits > x[3].bits ==> dx[3].bits >= 0
            &&& ok_q && c.w_c.bits > 0 && q.bits < x[3].bits ==> dx[3].bits < 0
            &&& x[2] == c.p_ref ==> dx[1] == c.w_nom
        }),
{
    let i = current_dq(u, x[1]);
    let p = active_power(fx_mul(x[0], fxc(SQRT_2_BITS)), zero(), i.d, i.q, fxc(THREE_BITS));
    let q = reactive_power(fx_mul(x[0], fxc(SQRT_2_BITS)), zero(), i.d, i.q, fxc(THREE_BITS));
    lemma_gain_times_gap_sign(c.w_c, p, x[2]);
    lemma_gain_times_gap_sign(c.w_c, q, x[3]);
    if q == x[3] {
        let dq = fx_mul(c.w_c, fx_sub(q, x[3]));
        assert(dq.bits == 0);
        assert(dq == Fxd { bits: 0 });
        lemma_fx_zero(fx_neg(c.mq));
    }
    if x[2] == c.p_ref {
        lemma_fx_zero(x[2]);
        lemma_fx_zero(c.mp);
        lemma_fx_zero(c.w_nom);
        assert(fx_sub(x[2], c.p_ref) == Fxd { bits: 0 });
    }
}

} // verus!
