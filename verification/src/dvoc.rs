//! A dispatchable virtual oscillator controller held in units (volts, radians
//! per second) rather than per unit, with its oscillator parameters derived
//! from the rated power and the oscillator capacitance.
use crate::calculations::{active_power, calc_dq_power, reactive_power};
use crate::dynamics::{Dynamics, XState};
use crate::fixed_point::{
    fx_div, fx_mul, fx_sub, lemma_fx_sub_no_wrap, lemma_fx_zero, lemma_gain_times_gap_sign, Fxd,
    ONE_BITS, SQRT_2_BITS, THREE_BITS, TWO_BITS, ZERO_BITS,
};
use crate::gfm::current_dq;
use crate::reference_frames::{fxc, zero, AlphaBeta, SinCos, ToFromDQZ, Trig, DQZ};
use crate::simulations::ThetaIdx;
use crate::state::{vec2_get, vec2_new, StateVector};
use nalgebra::SVector;
use vstd::prelude::*;

verus! {

/// A dVOC controller in units, after "A Grid-compatible Virtual Oscillator
/// Controller" by Lu M. et al.
pub struct DvocController {
    /// Voltage state (V).
    pub v: Fxd,
    /// Angle state (rad).
    pub theta: Fxd,
    /// States: voltage and angle.
    pub x: SVector<Fxd, 2>,
    /// The angle is state 1.
    pub theta_idx: ThetaIdx,
    /// Nominal voltage (V).
    pub v_nom: Fxd,
    /// Nominal voltage (p.u.).
    pub x_nom: Fxd,
    /// Nominal frequency (rad/s).
    pub w_nom: Fxd,
    /// Rated power (VA).
    pub s_rated: Fxd,
    /// Current gain `3 v_nom / s_rated`.
    pub ki: Fxd,
    /// Voltage gain (V).
    pub kv: Fxd,
    /// Voltage regulation gain.
    pub xi: Fxd,
    /// Oscillator capacitance (F).
    pub c: Fxd,
    /// Oscillator inductance `1 / (w_nom^2 c)` (H).
    pub l: Fxd,
    /// Active power reference.
    pub p_ref: Fxd,
    /// Reactive power reference.
    pub q_ref: Fxd,
}

impl DvocController {
    /// Sets the active power reference.
    pub fn set_p_ref(&mut self, p_ref: Fxd)
        ensures
            *final(self) == (DvocController { p_ref, ..*old(self) }),
    {
        self.p_ref = p_ref;
    }

    /// The index of the angle state.
    pub fn get_theta_idx(&self) -> (r: &ThetaIdx)
        ensures
            *r == self.theta_idx,
    {
        &self.theta_idx
    }
}

impl DvocController {
    /// `kv ki / (3 c v)`, the gain of the power terms at the voltage `v`.
    pub open spec fn power_gain(&self, v: Fxd) -> Fxd {
        fx_div(fx_mul(self.kv, self.ki), fx_mul(fx_mul(fxc(THREE_BITS), self.c), v))
    }

    /// The dVOC dynamics in units (eq. 11 and 12 of the paper) for the states
    /// `x` (voltage, angle) and the alpha-beta current `u`, the power taken
    /// over three phases.
    pub open spec fn dynamics_of(&self, x: Seq<Fxd>, u: Seq<Fxd>) -> Seq<Fxd> {
        let v = x[0];
        let v_d = fx_mul(v, fxc(SQRT_2_BITS));
        let i_dq = current_dq(u, x[1]);
        let p = active_power(v_d, zero(), i_dq.d, i_dq.q, fxc(THREE_BITS));
        let q = reactive_power(v_d, zero(), i_dq.d, i_dq.q, fxc(THREE_BITS));
        let k = self.power_gain(v);
        let dv_dt = fx_sub(
            fx_mul(
                fx_mul(fx_div(self.xi, fx_mul(self.kv, self.kv)), v),
                fx_sub(
                    fx_mul(fxc(TWO_BITS), fx_mul(self.v_nom, self.v_nom)),
                    fx_mul(fxc(TWO_BITS), fx_mul(v, v)),
                ),
            ),
            fx_mul(k, fx_sub(q, self.q_ref)),
        );
        let dtheta_dt = fx_sub(self.w_nom, fx_mul(fx_div(k, v), fx_sub(p, self.p_ref)));
        seq![dv_dt, dtheta_dt]
    }

    /// The divisors of the dynamics are not zero.
    pub open spec fn dynamics_defined(&self, x: Seq<Fxd>) -> bool {
        &&& fx_mul(fx_mul(fxc(THREE_BITS), self.c), x[0]).bits != 0
        &&& fx_mul(self.kv, self.kv).bits != 0
        &&& x[0].bits != 0
    }
}

impl Dynamics<SVector<Fxd, 2>, 2> for DvocController {
    open spec fn dynamics_ok(&self, x: Seq<Fxd>, u: Seq<Fxd>) -> bool {
        self.dynamics_defined(x)
    }

    open spec fn dynamics_spec(&self, x: Seq<Fxd>, u: Seq<Fxd>) -> Seq<Fxd> {
        self.dynamics_of(x, u)
    }

    /// The voltage and angle dynamics for the states `x` and the alpha-beta
    /// current `u`.
    fn dynamics(&self, x: &SVector<Fxd, 2>, u: [Fxd; 2]) -> (dx: SVector<Fxd, 2>) {
        let v = vec2_get(x, 0);
        let theta = vec2_get(x, 1);
        let v_dq = DQZ {
            d: v.mul(Fxd { bits: SQRT_2_BITS }),
            q: Fxd { bits: ZERO_BITS },
            z: Fxd { bits: ZERO_BITS },
        };
        let i_dq = AlphaBeta::from_ab_(u[0], u[1]).to_dqz(&SinCos::from_theta(theta));
        let three = Fxd { bits: THREE_BITS };
        let two = Fxd { bits: TWO_BITS };
        let (p, q) = calc_dq_power(&v_dq, &i_dq, three);
        let k = self.kv.mul(self.ki).div(three.mul(self.c).mul(v));
        let dv_dt = self.xi.div(self.kv.mul(self.kv)).mul(v).mul(
            two.mul(self.v_nom.mul(self.v_nom)).sub(two.mul(v.mul(v))),
        ).sub(k.mul(q.sub(self.q_ref)));
        let dtheta_dt = self.w_nom.sub(k.div(v).mul(p.sub(self.p_ref)));
        let dx = vec2_new(dv_dt, dtheta_dt);
        assert(dx.items() =~= seq![dv_dt, dtheta_dt]);
        dx
    }
}

impl XState<SVector<Fxd, 2>> for DvocController {
    open spec fn x_spec(&self) -> SVector<Fxd, 2> {
        self.x
    }

    open spec fn with_x(&self, x: SVector<Fxd, 2>) -> Self {
        DvocController { x, ..*self }
    }

    fn get_x(&self) -> (r: &SVector<Fxd, 2>) {
        &self.x
    }

    fn set_x(&mut self, x: SVector<Fxd, 2>) {
        self.x = x;
    }
}

/// Constructs a dVOC controller for the nominal voltage `v_nom` (V) and
/// frequency `w_nom` (rad/s), the rated power `s_rated` (VA), the voltage
/// regulation gain `xi` and the oscillator capacitance `c` (F): it starts at
/// the nominal voltage and angle zero, with the current gain
/// `3 v_nom / s_rated`, the voltage gain `v_nom` and the oscillator
/// inductance `1 / (w_nom^2 c)`.
pub fn build_dvoc_controller(v_nom: Fxd, w_nom: Fxd, s_rated: Fxd, xi: Fxd, c: Fxd) -> (r:
    DvocController)
    requires
        s_rated.bits != 0,
        fx_mul(fx_mul(w_nom, w_nom), c).bits != 0,
    ensures
        r.v == v_nom,
        r.theta == zero(),
        r.x.items() == seq![v_nom, zero()],
        r.theta_idx == (ThetaIdx { has_theta: true, theta_idx: 1 }),
        r.v_nom == v_nom,
        r.x_nom == fxc(ONE_BITS),
        r.w_nom == w_nom,
        r.s_rated == s_rated,
        r.ki == fx_div(fx_mul(fxc(THREE_BITS), v_nom), s_rated),
        r.kv == v_nom,
        r.xi == xi,
        r.c == c,
        r.l == fx_div(fxc(ONE_BITS), fx_mul(fx_mul(w_nom, w_nom), c)),
        r.p_ref == zero(),
        r.q_ref == zero(),
{
    let z = Fxd { bits: ZERO_BITS };
    let one = Fxd { bits: ONE_BITS };
    let x = vec2_new(v_nom, z);
    assert(x.items() =~= seq![v_nom, zero()]);
    DvocController {
        v: v_nom,
        theta: z,
        x,
        theta_idx: ThetaIdx { has_theta: true, theta_idx: 1 },
        v_nom,
        x_nom: one,
        w_nom,
        s_rated,
        ki: Fxd { bits: THREE_BITS }.mul(v_nom).div(s_rated),
        kv: v_nom,
        xi,
        c,
        l: one.div(w_nom.mul(w_nom).mul(c)),
        p_ref: z,
        q_ref: z,
    }
}


/// The dVOC in units: the magnitude is driven by the reactive power and the
/// angle by the active power of the oscillator voltage `sqrt(2) v` and the
/// measured current (taken over three phases in the frame of the angle
/// state). At nominal voltage with the reactive power at its reference the
/// magnitude holds; with the active power at its reference the angle turns at
/// the nominal frequency, and with a positive gain `kv ki / (3 c v^2)`, active
/// power above the reference turns it more slowly (nothing wrapping around).
pub proof fn law_unit_dvoc_powers_drive_magnitude_and_angle(d: DvocController, x: Seq<Fxd>, u: Seq<Fxd>)
    ensures
        ({
            let v = x[0];
            let i = current_dq(u, x[1]);
            let p = active_power(fx_mul(v, fxc(SQRT_2_BITS)), zero(), i.d, i.q, fxc(THREE_BITS));
            let q = reactive_power(fx_mul(v, fxc(SQRT_2_BITS)), zero(), i.d, i.q, fxc(THREE_BITS));
            let g = fx_div(d.power_gain(v), v);
            let e = p.bits - d.p_ref.bits;
            let m = (g.bits * e) / 65536;
            let dx = d.dynamics_spec(x, u);
            &&& dx.len() == 2
            &&& v == d.v_nom && q == d.q_ref ==> dx[0].bits == 0
            &&& p == d.p_ref ==> dx[1] == d.w_nom
            &&& (g.bits > 0 && 0 < e < 0x8000_0000 && m < 0x8000_0000 && d.w_nom.bits - m
                >= -0x8000_0000) ==> dx[1].bits <= d.w_nom.bits
        }),
{
    let v = x[0];
    let i = current_dq(u, x[1]);
    let p = active_power(fx_mul(v, fxc(SQRT_2_BITS)), zero(), i.d, i.q, fxc(THREE_BITS));
    let q = reactive_power(fx_mul(v, fxc(SQRT_2_BITS)), zero(), i.d, i.q, fxc(THREE_BITS));
    let k = d.power_gain(v);
    let g = fx_div(k, v);
    if v == d.v_nom && q == d.q_ref {
        let two = fxc(TWO_BITS);
        let a = fx_mul(two, fx_mul(d.v_nom, d.v_nom));
        lemma_fx_zero(a);
        assert(fx_sub(a, fx_mul(two, fx_mul(v, v))).bits == 0);
        assert(fx_sub(a, fx_mul(two, fx_mul(v, v))) == Fxd { bits: 0 });
        let b = fx_mul(fx_div(d.xi, fx_mul(d.kv, d.kv)), v);
        lemma_fx_zero(b);
        lemma_fx_zero(q);
        lemma_fx_zero(k);
        assert(fx_sub(q, d.q_ref) == Fxd { bits: 0 });
        lemma_fx_zero(Fxd { bits: 0 });
    }
    if p == d.p_ref {
        lemma_fx_zero(p);
        lemma_fx_zero(g);
        lemma_fx_zero(d.w_nom);
        assert(fx_sub(p, d.p_ref) == Fxd { bits: 0 });
    }
    lemma_gain_times_gap_sign(g, p, d.p_ref);
    let e = p.bits - d.p_ref.bits;
    let m = (g.bits * e) / 65536;
    if g.bits > 0 && 0 < e < 0x8000_0000 && m < 0x8000_0000 && d.w_nom.bits - m >= -0x8000_0000 {
        assert(g.bits * e > 0) by (nonlinear_arith)
            requires
                g.bits > 0,
                e > 0,
        ;
        let mm = fx_mul(g, fx_sub(p, d.p_ref));
        assert(mm.bits == m);
        lemma_fx_sub_no_wrap(d.w_nom, mm);
    }
}

} // verus!
