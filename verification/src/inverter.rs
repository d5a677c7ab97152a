//! The interface of inverter controllers, their presynchronization to a grid
//! voltage, and the double-loop voltage controller.
use crate::dynamics::{
    axpy, method_dx, step_with, Dynamics, NoInputStep, StepDynamics, StepMethod, XState,
};
use crate::fixed_point::{
    fx_add, fx_div, fx_le, fx_lt, fx_mul, fx_neg, fx_sub, law_sub_then_add_restores, Fxd, PI_BITS,
    SQRT_2_BITS, ZERO_BITS,
};
use crate::reference_frames::{cos_of_theta, fxc, sin_of_theta, zero, SinCos, Trig};
use crate::state::{vec4_get, vec4_new, StateVector};
use core::marker::PhantomData;
use nalgebra::SVector;
use vstd::prelude::*;

verus! {

/// The reference voltage interface of an inverter controller.
pub trait InvInterface: Sized {
    /// Voltage magnitude (V) and angle (rad).
    spec fn voltage_spec(&self) -> (Fxd, Fxd);

    /// Voltage magnitude and angle in per unit.
    spec fn pu_voltage_spec(&self) -> (Fxd, Fxd);

    /// The reference voltage that `output` returns.
    spec fn output_spec(&self) -> (Fxd, Fxd);

    /// The nominal frequency (rad/s).
    spec fn w_nom_spec(&self) -> Fxd;

    /// What setting the per-unit voltage `v` does.
    spec fn set_voltage_post(&self, next: Self, v: (Fxd, Fxd)) -> bool;

    /// What setting the active power reference does.
    spec fn set_p_ref_post(&self, next: Self, p_ref: Fxd) -> bool;

    /// What setting the reactive power reference does.
    spec fn set_q_ref_post(&self, next: Self, q_ref: Fxd) -> bool;

    /// Returns the voltage magnitude (V) and angle (rad) of the controller.
    fn get_voltage(&self) -> (r: [Fxd; 2])
        ensures
            r@ == seq![self.voltage_spec().0, self.voltage_spec().1],
    ;

    /// Returns the voltage magnitude and angle of the controller in per unit.
    fn get_pu_voltage(&self) -> (r: [Fxd; 2])
        ensures
            r@ == seq![self.pu_voltage_spec().0, self.pu_voltage_spec().1],
    ;

    /// Sets the voltage magnitude and angle (per unit) of the controller.
    fn set_voltage(&mut self, v: [Fxd; 2])
        ensures
            old(self).set_voltage_post(*final(self), (v@[0], v@[1])),
    ;

    /// Sets the active power reference (per unit).
    fn set_p_ref(&mut self, p_ref: Fxd)
        ensures
            old(self).set_p_ref_post(*final(self), p_ref),
    ;

    /// Sets the reactive power reference (per unit).
    fn set_q_ref(&mut self, q_ref: Fxd)
        ensures
            old(self).set_q_ref_post(*final(self), q_ref),
    ;

    /// Returns the reference voltage of the controller.
    fn output(&self) -> (r: [Fxd; 2])
        ensures
            r@ == seq![self.output_spec().0, self.output_spec().1],
    ;

    /// Returns the nominal frequency of the controller (rad/s).
    fn get_w_nom(&self) -> (r: Fxd)
        ensures
            r == self.w_nom_spec(),
    ;
}

/// A control object that a presynchronization wrapper can drive.
pub trait InvController<V: StateVector, const U: usize>: StepDynamics<V, U> + NoInputStep<
    V,
    U,
> + XState<V> + InvInterface {

}

/* Presynchronization */

/// An inverter controller wrapped with presynchronization: until it is
/// synchronized, its voltage is pulled toward a grid voltage.
pub struct PresyncInvController<V: StateVector, const U: usize, C: InvController<V, U>> {
    /// When false, the presynchronization dynamics are used.
    pub synced: bool,
    /// Gain of the presynchronization dynamics.
    pub gamma: Fxd,
    /// Tolerance of the squared distance between the controller and the grid
    /// voltages below which they count as synchronized.
    pub sync_tol: Fxd,
    /// The wrapped controller.
    pub ctrl: C,
    /// Marks the state vector type of the wrapped controller.
    pub states: PhantomData<V>,
}

/// Stepping an inverter controller so that it synchronizes to an AC voltage.
pub trait Presync<V: StateVector, const U: usize>: Sized {
    spec fn inv_step_ok(&self, dt: Fxd, u: Seq<Fxd>, vg: Seq<Fxd>) -> bool;

    spec fn inv_step_post(&self, next: Self, dt: Fxd, u: Seq<Fxd>, vg: Seq<Fxd>, dx: Seq<Fxd>) -> bool;

    spec fn presync_step_ok(&self, dt: Fxd, u: Seq<Fxd>, vg: Seq<Fxd>) -> bool;

    spec fn presync_step_post(
        &self,
        next: Self,
        dt: Fxd,
        u: Seq<Fxd>,
        vg: Seq<Fxd>,
        dx: Seq<Fxd>,
    ) -> bool;

    spec fn disable_presync_ok(&self) -> bool;

    spec fn disable_presync_post(&self, next: Self) -> bool;

    spec fn enable_presync_post(&self, next: Self) -> bool;

    spec fn check_sync_ok(&self, vg: Seq<Fxd>) -> bool;

    spec fn check_sync_spec(&self, vg: Seq<Fxd>) -> bool;

    /// Steps the controller: with its own dynamics once synchronized, with the
    /// presynchronization dynamics and zero current otherwise.
    fn inv_step(&mut self, dt: Fxd, u: [Fxd; U], vg: [Fxd; 2]) -> (dx: V)
        requires
            old(self).inv_step_ok(dt, u@, vg@),
        ensures
            old(self).inv_step_post(*final(self), dt, u@, vg@, dx.items()),
    ;

    /// Steps the controller so that it synchronizes to the alpha-beta voltage `vg`.
    fn presync_step(&mut self, dt: Fxd, u: [Fxd; U], vg: [Fxd; 2]) -> (dx: V)
        requires
            old(self).presync_step_ok(dt, u@, vg@),
        ensures
            old(self).presync_step_post(*final(self), dt, u@, vg@, dx.items()),
    ;

    /// Marks the controller synchronized, first turning a negative voltage
    /// magnitude positive by a half-period shift of the angle.
    fn disable_presync(&mut self)
        requires
            old(self).disable_presync_ok(),
        ensures
            old(self).disable_presync_post(*final(self)),
    ;

    /// Marks the controller unsynchronized.
    fn enable_presync(&mut self)
        ensures
            old(self).enable_presync_post(*final(self)),
    ;

    /// Whether the controller voltage and the grid voltage `vg` are within the
    /// synchronization tolerance.
    fn check_sync(&self, vg: [Fxd; 2]) -> (r: bool)
        requires
            self.check_sync_ok(vg@),
        ensures
            r == self.check_sync_spec(vg@),
    ;
}

impl<V: StateVector, const U: usize, C: InvController<V, U>> PresyncInvController<V, U, C> {
    /// The voltage magnitude and angle corrections
    /// `-gamma (v - (vg_a cos + vg_b sin) / sqrt 2)` and
    /// `gamma / v (vg_b cos - vg_a sin)`, at the controller angle.
    pub open spec fn sync_terms(&self, vg: Seq<Fxd>) -> (Fxd, Fxd) {
        let v = self.ctrl.pu_voltage_spec();
        let theta = fx_mul(v.1, self.ctrl.w_nom_spec());
        let c = cos_of_theta(theta);
        let s = sin_of_theta(theta);
        (
            fx_mul(
                fx_neg(self.gamma),
                fx_sub(v.0, fx_div(fx_add(fx_mul(vg[0], c), fx_mul(vg[1], s)), fxc(SQRT_2_BITS))),
            ),
            fx_mul(fx_div(self.gamma, v.0), fx_sub(fx_mul(vg[1], c), fx_mul(vg[0], s))),
        )
    }

    /// The corrections of one step of length `dt`.
    pub open spec fn sync_step_terms(&self, vg: Seq<Fxd>, dt: Fxd) -> (Fxd, Fxd) {
        let v = self.ctrl.pu_voltage_spec();
        let theta = fx_mul(v.1, self.ctrl.w_nom_spec());
        let c = cos_of_theta(theta);
        let s = sin_of_theta(theta);
        (
            fx_mul(
                fx_mul(
                    fx_neg(self.gamma),
                    fx_sub(
                        v.0,
                        fx_div(fx_add(fx_mul(vg[0], c), fx_mul(vg[1], s)), fxc(SQRT_2_BITS)),
                    ),
                ),
                dt,
            ),
            fx_mul(fx_mul(fx_div(self.gamma, v.0), fx_sub(fx_mul(vg[1], c), fx_mul(vg[0], s))), dt),
        )
    }

    /// The per-unit voltage the presynchronization step sets before stepping.
    pub open spec fn synced_voltage(&self, vg: Seq<Fxd>, dt: Fxd) -> (Fxd, Fxd) {
        let v = self.ctrl.pu_voltage_spec();
        let t = self.sync_step_terms(vg, dt);
        (fx_add(v.0, t.0), fx_add(v.1, t.1))
    }

    /// The presynchronization step is defined: the voltage magnitude is not
    /// zero, and whatever setting the voltage gives can step.
    pub open spec fn presync_ok(&self, dt: Fxd, u: Seq<Fxd>, vg: Seq<Fxd>) -> bool {
        &&& V::dim_spec() >= 2
        &&& self.ctrl.pu_voltage_spec().0.bits != 0
        &&& forall|mid: C|
            #![trigger self.ctrl.set_voltage_post(mid, self.synced_voltage(vg, dt))]
            self.ctrl.set_voltage_post(mid, self.synced_voltage(vg, dt)) ==> mid.step_ok(dt, u)
    }

    pub open spec fn presync_post(
        &self,
        next: Self,
        dt: Fxd,
        u: Seq<Fxd>,
        vg: Seq<Fxd>,
        dx: Seq<Fxd>,
    ) -> bool {
        let t = self.sync_step_terms(vg, dt);
        &&& next == PresyncInvController { ctrl: next.ctrl, ..*self }
        &&& exists|mid: C, dx_ctrl: Seq<Fxd>|
            {
                &&& self.ctrl.set_voltage_post(mid, self.synced_voltage(vg, dt))
                &&& mid.step_post(next.ctrl, dt, u, dx_ctrl)
                &&& dx == dx_ctrl.update(0, fx_add(dx_ctrl[0], t.0)).update(
                    1,
                    fx_add(dx_ctrl[1], t.1),
                )
            }
    }

    /// The input with the current entries zeroed.
    pub open spec fn zero_current(u: Seq<Fxd>) -> Seq<Fxd> {
        u.update(0, zero()).update(1, zero())
    }
}

impl<V: StateVector, const U: usize, C: InvController<V, U>> Presync<V, U> for PresyncInvController<
    V,
    U,
    C,
> {
    open spec fn inv_step_ok(&self, dt: Fxd, u: Seq<Fxd>, vg: Seq<Fxd>) -> bool {
        if self.synced {
            self.ctrl.step_ok(dt, u)
        } else {
            U >= 2 && self.presync_ok(dt, Self::zero_current(u), vg)
        }
    }

    open spec fn inv_step_post(&self, next: Self, dt: Fxd, u: Seq<Fxd>, vg: Seq<Fxd>, dx: Seq<Fxd>) -> bool {
        if self.synced {
            &&& next == PresyncInvController { ctrl: next.ctrl, ..*self }
            &&& self.ctrl.step_post(next.ctrl, dt, u, dx)
        } else {
            self.presync_post(next, dt, Self::zero_current(u), vg, dx)
        }
    }

    open spec fn presync_step_ok(&self, dt: Fxd, u: Seq<Fxd>, vg: Seq<Fxd>) -> bool {
        self.presync_ok(dt, u, vg)
    }

    open spec fn presync_step_post(
        &self,
        next: Self,
        dt: Fxd,
        u: Seq<Fxd>,
        vg: Seq<Fxd>,
        dx: Seq<Fxd>,
    ) -> bool {
        self.presync_post(next, dt, u, vg, dx)
    }

    open spec fn disable_presync_ok(&self) -> bool {
        fx_lt(self.ctrl.pu_voltage_spec().0, zero()) ==> self.ctrl.w_nom_spec().bits != 0
    }

    /// A negative magnitude `v` at angle `theta` becomes `-v` at
    /// `theta + pi / w_nom`; the controller is then synchronized.
    open spec fn disable_presync_post(&self, next: Self) -> bool {
        let v = self.ctrl.pu_voltage_spec();
        &&& next == PresyncInvController { ctrl: next.ctrl, synced: true, ..*self }
        &&& if fx_lt(v.0, zero()) {
            self.ctrl.set_voltage_post(
                next.ctrl,
                (fx_neg(v.0), fx_add(v.1, fx_div(fxc(PI_BITS), self.ctrl.w_nom_spec()))),
            )
        } else {
            next.ctrl == self.ctrl
        }
    }

    open spec fn enable_presync_post(&self, next: Self) -> bool {
        next == PresyncInvController { synced: false, ..*self }
    }

    open spec fn check_sync_ok(&self, vg: Seq<Fxd>) -> bool {
        self.ctrl.pu_voltage_spec().0.bits != 0
    }

    open spec fn check_sync_spec(&self, vg: Seq<Fxd>) -> bool {
        let t = self.sync_terms(vg);
        fx_lt(fx_add(fx_mul(t.0, t.0), fx_mul(t.1, t.1)), self.sync_tol)
    }

    fn inv_step(&mut self, dt: Fxd, u: [Fxd; U], vg: [Fxd; 2]) -> (dx: V) {
        if self.synced {
            self.ctrl.step(dt, u)
        } else {
            let mut u_sync = u;
            u_sync[0] = Fxd { bits: ZERO_BITS };
            u_sync[1] = Fxd { bits: ZERO_BITS };
            assert(u_sync@ =~= Self::zero_current(u@));
            self.presync_step(dt, u_sync, vg)
        }
    }

    fn presync_step(&mut self, dt: Fxd, u: [Fxd; U], vg: [Fxd; 2]) -> (dx: V) {
        let v_inv = self.ctrl.get_pu_voltage();
        let sin_cos = SinCos::from_theta(v_inv[1].mul(self.ctrl.get_w_nom()));
        let c = sin_cos.cos_val;
        let s = sin_cos.sin_val;
        let dv_sync = self.gamma.neg().mul(
            v_inv[0].sub(vg[0].mul(c).add(vg[1].mul(s)).div(Fxd { bits: SQRT_2_BITS })),
        ).mul(dt);
        let w_sync = self.gamma.div(v_inv[0]).mul(vg[1].mul(c).sub(vg[0].mul(s))).mul(dt);
        let ghost t = self.sync_step_terms(vg@, dt);
        assert(dv_sync == t.0 && w_sync == t.1);
        let ghost c0 = self.ctrl;
        let v_new = [v_inv[0].add(dv_sync), v_inv[1].add(w_sync)];
        assert((v_new@[0], v_new@[1]) == old(self).synced_voltage(vg@, dt));
        self.ctrl.set_voltage(v_new);
        let ghost mid = self.ctrl;
        assert(old(self).ctrl.set_voltage_post(mid, old(self).synced_voltage(vg@, dt)));
        let dx_dt = self.ctrl.step(dt, u);
        let mut dx = dx_dt;
        dx.set(0, dx_dt.get(0).add(dv_sync));
        dx.set(1, dx_dt.get(1).add(w_sync));
        assert(c0.set_voltage_post(mid, old(self).synced_voltage(vg@, dt)));
        assert(mid.step_post(self.ctrl, dt, u@, dx_dt.items()));
        dx
    }

    fn disable_presync(&mut self) {
        let v = self.ctrl.get_pu_voltage();
        if v[0].bits < 0 {
            let w_nom = self.ctrl.get_w_nom();
            self.ctrl.set_voltage([v[0].neg(), v[1].add(Fxd { bits: PI_BITS }.div(w_nom))]);
        }
        self.synced = true;
    }

    fn enable_presync(&mut self) {
        self.synced = false;
    }

    fn check_sync(&self, vg: [Fxd; 2]) -> (r: bool) {
        let v_inv = self.ctrl.get_pu_voltage();
        let sin_cos = SinCos::from_theta(v_inv[1].mul(self.ctrl.get_w_nom()));
        let c = sin_cos.cos_val;
        let s = sin_cos.sin_val;
        let dv_sync = self.gamma.neg().mul(
            v_inv[0].sub(vg[0].mul(c).add(vg[1].mul(s)).div(Fxd { bits: SQRT_2_BITS })),
        );
        let w_sync = self.gamma.div(v_inv[0]).mul(vg[1].mul(c).sub(vg[0].mul(s)));
        dv_sync.mul(dv_sync).add(w_sync.mul(w_sync)).bits < self.sync_tol.bits
    }
}

impl<V: StateVector, const U: usize, C: InvController<V, U>> InvInterface for PresyncInvController<
    V,
    U,
    C,
> {
    open spec fn voltage_spec(&self) -> (Fxd, Fxd) {
        self.ctrl.voltage_spec()
    }

    open spec fn pu_voltage_spec(&self) -> (Fxd, Fxd) {
        self.ctrl.pu_voltage_spec()
    }

    open spec fn output_spec(&self) -> (Fxd, Fxd) {
        self.ctrl.output_spec()
    }

    open spec fn w_nom_spec(&self) -> Fxd {
        self.ctrl.w_nom_spec()
    }

    open spec fn set_voltage_post(&self, next: Self, v: (Fxd, Fxd)) -> bool {
        next == PresyncInvController { ctrl: next.ctrl, ..*self } && self.ctrl.set_voltage_post(
            next.ctrl,
            v,
        )
    }

    open spec fn set_p_ref_post(&self, next: Self, p_ref: Fxd) -> bool {
        next == PresyncInvController { ctrl: next.ctrl, ..*self } && self.ctrl.set_p_ref_post(
            next.ctrl,
            p_ref,
        )
    }

    open spec fn set_q_ref_post(&self, next: Self, q_ref: Fxd) -> bool {
        next == PresyncInvController { ctrl: next.ctrl, ..*self } && self.ctrl.set_q_ref_post(
            next.ctrl,
            q_ref,
        )
    }

    fn get_voltage(&self) -> (r: [Fxd; 2]) {
        self.ctrl.get_voltage()
    }

    fn get_pu_voltage(&self) -> (r: [Fxd; 2]) {
        self.ctrl.get_pu_voltage()
    }

    fn set_voltage(&mut self, v: [Fxd; 2]) {
        self.ctrl.set_voltage(v)
    }

    fn set_p_ref(&mut self, p_ref: Fxd) {
        self.ctrl.set_p_ref(p_ref)
    }

    fn set_q_ref(&mut self, q_ref: Fxd) {
        self.ctrl.set_q_ref(q_ref)
    }

    fn output(&self) -> (r: [Fxd; 2]) {
        self.ctrl.output()
    }

    fn get_w_nom(&self) -> (r: Fxd) {
        self.ctrl.get_w_nom()
    }
}

/// Raw bits of 0.001, the default synchronization tolerance.
pub const DEFAULT_SYNC_TOL_BITS: i32 = 66;

/// Wraps an inverter controller, unsynchronized, in presynchronization with
/// the gain `gamma` and the tolerance 0.001.
pub fn add_presynch<V: StateVector, const U: usize, C: InvController<V, U>>(ctrl: C, gamma: Fxd) -> (r:
    PresyncInvController<V, U, C>)
    ensures
        r.ctrl == ctrl,
        !r.synced,
        r.gamma == gamma,
        r.sync_tol == fxc(DEFAULT_SYNC_TOL_BITS),
{
    PresyncInvController {
        ctrl,
        synced: false,
        gamma,
        sync_tol: Fxd { bits: DEFAULT_SYNC_TOL_BITS },
        states: PhantomData,
    }
}

/* Double-loop voltage controller */

/// A double-loop voltage controller, after Fig. 4b of "Control of Power
/// Converters in AC Microgrids" by Rocabert J. et al.
pub struct DlvController {
    /// Voltage-loop proportional and integral gains.
    pub kp_v: Fxd,
    pub ki_v: Fxd,
    /// Current-loop proportional and integral gains.
    pub kp_i: Fxd,
    pub ki_i: Fxd,
    /// Filter inductance (p.u.).
    pub lf: Fxd,
    /// Filter capacitance (p.u.).
    pub cf: Fxd,
    /// Limits of the current references.
    pub i_max: Fxd,
    pub i_min: Fxd,
    /// States: the integrators of the d and q voltage errors and of the d and
    /// q current errors.
    pub x: SVector<Fxd, 4>,
    pub step_method: StepMethod,
}

/// `x` limited to `[lo, hi]`.
pub open spec fn clamp(x: Fxd, lo: Fxd, hi: Fxd) -> Fxd {
    if fx_lt(x, lo) {
        lo
    } else if fx_lt(hi, x) {
        hi
    } else {
        x
    }
}

impl DlvController {
    /// Constructs a double-loop voltage controller with zero integrators,
    /// stepped with the second-order Runge-Kutta method.
    pub fn new(
        kp_v: Fxd,
        ki_v: Fxd,
        kp_i: Fxd,
        ki_i: Fxd,
        lf: Fxd,
        cf: Fxd,
        i_max: Fxd,
        i_min: Fxd,
    ) -> (r: DlvController)
        ensures
            r.kp_v == kp_v,
            r.ki_v == ki_v,
            r.kp_i == kp_i,
            r.ki_i == ki_i,
            r.lf == lf,
            r.cf == cf,
            r.i_max == i_max,
            r.i_min == i_min,
            r.x.items() == seq![zero(), zero(), zero(), zero()],
            r.step_method == StepMethod::Rk2,
    {
        let z = Fxd { bits: ZERO_BITS };
        DlvController {
            kp_v,
            ki_v,
            kp_i,
            ki_i,
            lf,
            cf,
            i_max,
            i_min,
            x: vec4_new(z, z, z, z),
            step_method: StepMethod::Rk2,
        }
    }

    /// The errors `[vd_err, vq_err, id_err, iq_err]` of the two loops for the
    /// integrator states `x` and the inputs `u` = [reference magnitude,
    /// frequency, capacitor d and q voltage, filter d and q current, grid d and
    /// q current].
    pub open spec fn errors(&self, x: Seq<Fxd>, u: Seq<Fxd>) -> Seq<Fxd> {
        let vd_err = fx_sub(fx_sub(u[0], u[2]), zero());
        let vq_err = fx_sub(fx_neg(u[3]), zero());
        let id_ref = clamp(
            fx_add(fx_mul(self.kp_v, vd_err), fx_mul(self.ki_v, x[0])),
            self.i_min,
            self.i_max,
        );
        let iq_ref = clamp(
            fx_add(fx_mul(self.kp_v, vq_err), fx_mul(self.ki_v, x[1])),
            self.i_min,
            self.i_max,
        );
        seq![vd_err, vq_err, fx_sub(id_ref, u[4]), fx_sub(iq_ref, u[5])]
    }

    /// The modulation voltages `[ud, uq]`.
    pub open spec fn law_output(&self, x: Seq<Fxd>, u: Seq<Fxd>) -> Seq<Fxd> {
        let e = self.errors(x, u);
        let id_ref = fx_add(e[2], u[4]);
        let iq_ref = fx_add(e[3], u[5]);
        let vd_ref = fx_add(fx_mul(self.kp_i, e[2]), fx_mul(self.ki_i, x[2]));
        let vq_ref = fx_add(fx_mul(self.kp_i, e[3]), fx_mul(self.ki_i, x[3]));
        let id_clamped = clamp(
            fx_add(fx_mul(self.kp_v, e[0]), fx_mul(self.ki_v, x[0])),
            self.i_min,
            self.i_max,
        );
        let iq_clamped = clamp(
            fx_add(fx_mul(self.kp_v, e[1]), fx_mul(self.ki_v, x[1])),
            self.i_min,
            self.i_max,
        );
        seq![
            fx_add(fx_add(u[2], vd_ref), fx_mul(fx_mul(u[1], self.lf), iq_clamped)),
            fx_sub(fx_add(u[3], vq_ref), fx_mul(fx_mul(u[1], self.lf), id_clamped)),
        ]
    }

    fn clamp_exec(x: Fxd, lo: Fxd, hi: Fxd) -> (r: Fxd)
        requires
            fx_le(lo, hi),
        ensures
            r == clamp(x, lo, hi),
    {
        if x.bits < lo.bits {
            lo
        } else if x.bits > hi.bits {
            hi
        } else {
            x
        }
    }

    fn law(&self, x: &SVector<Fxd, 4>, u: &[Fxd; 8]) -> (r: ([Fxd; 4], [Fxd; 2]))
        requires
            fx_le(self.i_min, self.i_max),
        ensures
            r.0@ == self.errors(x.items(), u@),
            r.1@ == self.law_output(x.items(), u@),
    {
        let z = Fxd { bits: ZERO_BITS };
        let (v_ref, omega, vc_d, vc_q, if_d, if_q) = (u[0], u[1], u[2], u[3], u[4], u[5]);
        let vd_err = v_ref.sub(vc_d).sub(z);
        let vq_err = vc_q.neg().sub(z);
        let id_ref = Self::clamp_exec(
            self.kp_v.mul(vd_err).add(self.ki_v.mul(vec4_get(x, 0))),
            self.i_min,
            self.i_max,
        );
        let iq_ref = Self::clamp_exec(
            self.kp_v.mul(vq_err).add(self.ki_v.mul(vec4_get(x, 1))),
            self.i_min,
            self.i_max,
        );
        let id_err = id_ref.sub(if_d);
        let iq_err = iq_ref.sub(if_q);
        let vd_ref = self.kp_i.mul(id_err).add(self.ki_i.mul(vec4_get(x, 2)));
        let vq_ref = self.kp_i.mul(iq_err).add(self.ki_i.mul(vec4_get(x, 3)));
        let ud = vc_d.add(vd_ref).add(omega.mul(self.lf).mul(iq_ref));
        let uq = vc_q.add(vq_ref).sub(omega.mul(self.lf).mul(id_ref));
        let errs = [vd_err, vq_err, id_err, iq_err];
        let out = [ud, uq];
        proof {
            law_sub_then_add_restores(id_ref, if_d);
            law_sub_then_add_restores(iq_ref, if_q);
        }
        assert(errs@ =~= self.errors(x.items(), u@));
        assert(out@ =~= self.law_output(x.items(), u@));
        (errs, out)
    }

    /// Returns the modulation voltages for the inputs `u` without stepping.
    pub fn output(&self, u: [Fxd; 8]) -> (r: [Fxd; 2])
        requires
            fx_le(self.i_min, self.i_max),
        ensures
            r@ == self.law_output(self.x.items(), u@),
    {
        let (_, out) = self.law(&self.x, &u);
        out
    }

    /// Integrates the loop errors over `dt` with a forward Euler step and
    /// returns the modulation voltages computed before the step.
    pub fn step_output(&mut self, dt: Fxd, u: [Fxd; 8]) -> (r: [Fxd; 2])
        requires
            fx_le(old(self).i_min, old(self).i_max),
        ensures
            r@ == old(self).law_output(old(self).x.items(), u@),
            *final(self) == old(self).with_x(final(self).x),
            final(self).x.items() == axpy(
                old(self).x.items(),
                old(self).errors(old(self).x.items(), u@),
                dt,
                4,
            ),
    {
        let x = self.x;
        let (errs, out) = self.law(&x, &u);
        let x1 = euler_update4(&x, &errs, dt);
        self.set_x(x1);
        out
    }
}

/// One forward Euler update `x + d * dt` of a four-entry state.
fn euler_update4(x: &SVector<Fxd, 4>, d: &[Fxd; 4], dt: Fxd) -> (r: SVector<Fxd, 4>)
    ensures
        r.items() == axpy(x.items(), d@, dt, 4),
{
    let r = vec4_new(
        vec4_get(x, 0).add(d[0].mul(dt)),
        vec4_get(x, 1).add(d[1].mul(dt)),
        vec4_get(x, 2).add(d[2].mul(dt)),
        vec4_get(x, 3).add(d[3].mul(dt)),
    );
    assert(r.items() =~= axpy(x.items(), d@, dt, 4));
    r
}


impl Dynamics<SVector<Fxd, 4>, 8> for DlvController {
    open spec fn dynamics_ok(&self, x: Seq<Fxd>, u: Seq<Fxd>) -> bool {
        fx_le(self.i_min, self.i_max)
    }

    open spec fn dynamics_spec(&self, x: Seq<Fxd>, u: Seq<Fxd>) -> Seq<Fxd> {
        self.errors(x, u)
    }

    /// The integrator dynamics: the errors of the voltage and current loops.
    fn dynamics(&self, x: &SVector<Fxd, 4>, u: [Fxd; 8]) -> (dx: SVector<Fxd, 4>) {
        let (errs, _) = self.law(x, &u);
        let dx = vec4_new(errs[0], errs[1], errs[2], errs[3]);
        assert(dx.items() =~= errs@);
        dx
    }
}

impl XState<SVector<Fxd, 4>> for DlvController {
    open spec fn x_spec(&self) -> SVector<Fxd, 4> {
        self.x
    }

    open spec fn with_x(&self, x: SVector<Fxd, 4>) -> Self {
        DlvController { x, ..*self }
    }

    fn get_x(&self) -> (r: &SVector<Fxd, 4>) {
        &self.x
    }

    fn set_x(&mut self, x: SVector<Fxd, 4>) {
        self.x = x;
    }
}

impl StepDynamics<SVector<Fxd, 4>, 8> for DlvController {
    open spec fn step_ok(&self, dt: Fxd, u: Seq<Fxd>) -> bool {
        fx_le(self.i_min, self.i_max)
    }

    open spec fn step_post(&self, next: Self, dt: Fxd, u: Seq<Fxd>, dx: Seq<Fxd>) -> bool {
        &&& dx == method_dx::<SVector<Fxd, 4>, DlvController, 8>(
            self.step_method,
            *self,
            self.x.items(),
            u,
            dt,
        )
        &&& next == self.with_x(next.x)
        &&& next.x.items() == axpy(self.x.items(), dx, dt, 4)
    }

    /// Steps the integrators with the step method.
    fn step(&mut self, dt: Fxd, u: [Fxd; 8]) -> (dx: SVector<Fxd, 4>) {
        let m = self.step_method;
        step_with(m, self, dt, u)
    }
}

/// Starting presynchronization leaves the controller unsynchronized, and
/// ending it leaves the controller synchronized.
pub proof fn law_presync_enable_disable<V: StateVector, const U: usize, C: InvController<V, U>>(
    p: PresyncInvController<V, U, C>,
    q: PresyncInvController<V, U, C>,
)
    ensures
        p.enable_presync_post(q) ==> !q.synced,
        p.disable_presync_post(q) ==> q.synced,
{
}

} // verus!
