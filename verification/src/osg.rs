//! Orthogonal signal generators for single-phase signals.
use crate::dynamics::{
    axpy, method_dx, step_with, Dynamics, NoInputStep, StepDynamics, StepMethod, XState,
};
use crate::fixed_point::{fx_mul, fx_sub, Fxd, ZERO_BITS};
use crate::reference_frames::zero;
use crate::state::{vec2_get, vec2_new, StateVector};
use nalgebra::SVector;
use vstd::prelude::*;

verus! {

/// A generator of two orthogonal signals that follow a single-phase input.
pub trait OrthogonalSignalGenerator<V: StateVector>: StepDynamics<V, 1> {
    spec fn signals_spec(&self) -> (Fxd, Fxd);

    spec fn set_resonant_frequency_post(&self, next: Self, omega: Fxd) -> bool;

    /// Returns the orthogonal signals `[x_alpha, x_beta]`.
    fn get_signals(&self) -> (r: [Fxd; 2])
        ensures
            r@ == seq![self.signals_spec().0, self.signals_spec().1],
    ;

    /// Sets the resonant frequency, e.g. to the frequency a phase-locked loop tracks.
    fn set_resonant_frequency(&mut self, omega: Fxd)
        ensures
            old(self).set_resonant_frequency_post(*final(self), omega),
    ;
}

/// The SOGI dynamics `[w (k (u - x0) - x1), w x0]` at resonant frequency `w`.
pub open spec fn sogi_dynamics(w_res: Fxd, k: Fxd, x: Seq<Fxd>, u: Seq<Fxd>) -> Seq<Fxd> {
    seq![fx_mul(w_res, fx_sub(fx_mul(k, fx_sub(u[0], x[0])), x[1])), fx_mul(w_res, x[0])]
}

/// An orthogonal signal generator with a second-order generalized integrator
/// (SOGI), after "A New Single-Phase PLL Structure Based on Second Order
/// Generalized Integrator" by Ciobotaru M. et al.
pub struct OrthSigGenSogi {
    /// Nominal frequency (rad/s).
    pub w_nom: Fxd,
    /// Resonant frequency (rad/s).
    pub w_res: Fxd,
    /// Bandwidth gain.
    pub k: Fxd,
    /// States: the in-phase and the quadrature signal.
    pub x: SVector<Fxd, 2>,
    pub step_method: StepMethod,
}

impl OrthSigGenSogi {
    /// Constructs a SOGI generator resonant at the nominal frequency, with zero
    /// signals.
    pub fn new(w_nom: Fxd, k: Fxd, step_method: StepMethod) -> (r: OrthSigGenSogi)
        ensures
            r.w_nom == w_nom,
            r.w_res == w_nom,
            r.k == k,
            r.x.items() == seq![zero(), zero()],
            r.step_method == step_method,
    {
        let z = Fxd { bits: ZERO_BITS };
        OrthSigGenSogi { w_nom, w_res: w_nom, k, step_method, x: vec2_new(z, z) }
    }
}

impl Dynamics<SVector<Fxd, 2>, 1> for OrthSigGenSogi {
    open spec fn dynamics_ok(&self, x: Seq<Fxd>, u: Seq<Fxd>) -> bool {
        true
    }

    open spec fn dynamics_spec(&self, x: Seq<Fxd>, u: Seq<Fxd>) -> Seq<Fxd> {
        sogi_dynamics(self.w_res, self.k, x, u)
    }

    fn dynamics(&self, x: &SVector<Fxd, 2>, u: [Fxd; 1]) -> (dx: SVector<Fxd, 2>) {
        let x0 = vec2_get(x, 0);
        let v_err = u[0].sub(x0);
        let dv_dt = self.w_res.mul(self.k.mul(v_err).sub(vec2_get(x, 1)));
        let dqv_dt = self.w_res.mul(x0);
        vec2_new(dv_dt, dqv_dt)
    }
}

impl XState<SVector<Fxd, 2>> for OrthSigGenSogi {
    open spec fn x_spec(&self) -> SVector<Fxd, 2> {
        self.x
    }

    open spec fn with_x(&self, x: SVector<Fxd, 2>) -> Self {
        OrthSigGenSogi { x, ..*self }
    }

    fn get_x(&self) -> (r: &SVector<Fxd, 2>) {
        &self.x
    }

    fn set_x(&mut self, x: SVector<Fxd, 2>) {
        self.x = x;
    }
}

impl StepDynamics<SVector<Fxd, 2>, 1> for OrthSigGenSogi {
    open spec fn step_ok(&self, dt: Fxd, u: Seq<Fxd>) -> bool {
        true
    }

    open spec fn step_post(&self, next: Self, dt: Fxd, u: Seq<Fxd>, dx: Seq<Fxd>) -> bool {
        &&& dx == method_dx::<SVector<Fxd, 2>, OrthSigGenSogi, 1>(
            self.step_method,
            *self,
            self.x.items(),
            u,
            dt,
        )
        &&& next == self.with_x(next.x)
        &&& next.x.items() == axpy(self.x.items(), dx, dt, 2)
    }

    /// Steps the SOGI states with the step method.
    fn step(&mut self, dt: Fxd, u: [Fxd; 1]) -> (dx: SVector<Fxd, 2>) {
        let m = self.step_method;
        step_with(m, self, dt, u)
    }
}

impl NoInputStep<SVector<Fxd, 2>, 1> for OrthSigGenSogi {
    open spec fn step_zero_ok(&self, dt: Fxd) -> bool {
        true
    }

    open spec fn step_zero_post(&self, next: Self, dt: Fxd) -> bool {
        exists|dx: Seq<Fxd>| self.step_post(next, dt, seq![zero()], dx)
    }

    /// Steps the generator with a zero input.
    fn step_(&mut self, dt: Fxd) {
        let u = [Fxd { bits: ZERO_BITS }];
        assert(u@ =~= seq![zero()]);
        let dx = self.step(dt, u);
        assert(old(self).step_post(*self, dt, seq![zero()], dx.items()));
    }
}

impl OrthogonalSignalGenerator<SVector<Fxd, 2>> for OrthSigGenSogi {
    open spec fn signals_spec(&self) -> (Fxd, Fxd) {
        (self.x.items()[0], self.x.items()[1])
    }

    open spec fn set_resonant_frequency_post(&self, next: Self, omega: Fxd) -> bool {
        next == OrthSigGenSogi { w_res: omega, ..*self }
    }

    fn get_signals(&self) -> (r: [Fxd; 2]) {
        let r = [vec2_get(&self.x, 0), vec2_get(&self.x, 1)];
        assert(r@ =~= seq![r[0], r[1]]);
        r
    }

    fn set_resonant_frequency(&mut self, omega: Fxd) {
        self.w_res = omega;
    }
}

/// A SOGI orthogonal system generator given by its resonant frequency and
/// bandwidth gain only.
pub struct OrthogonalSysGenSogi {
    /// Resonant frequency (rad/s).
    pub w_res: Fxd,
    /// Bandwidth gain.
    pub k: Fxd,
    /// States: the in-phase and the quadrature signal.
    pub x: SVector<Fxd, 2>,
}

impl Dynamics<SVector<Fxd, 2>, 1> for OrthogonalSysGenSogi {
    open spec fn dynamics_ok(&self, x: Seq<Fxd>, u: Seq<Fxd>) -> bool {
        true
    }

    open spec fn dynamics_spec(&self, x: Seq<Fxd>, u: Seq<Fxd>) -> Seq<Fxd> {
        sogi_dynamics(self.w_res, self.k, x, u)
    }

    fn dynamics(&self, x: &SVector<Fxd, 2>, u: [Fxd; 1]) -> (dx: SVector<Fxd, 2>) {
        let x0 = vec2_get(x, 0);
        let v_err = u[0].sub(x0);
        let dv_dt = self.w_res.mul(self.k.mul(v_err).sub(vec2_get(x, 1)));
        let dqv_dt = self.w_res.mul(x0);
        vec2_new(dv_dt, dqv_dt)
    }
}

impl XState<SVector<Fxd, 2>> for OrthogonalSysGenSogi {
    open spec fn x_spec(&self) -> SVector<Fxd, 2> {
        self.x
    }

    open spec fn with_x(&self, x: SVector<Fxd, 2>) -> Self {
        OrthogonalSysGenSogi { x, ..*self }
    }

    fn get_x(&self) -> (r: &SVector<Fxd, 2>) {
        &self.x
    }

    fn set_x(&mut self, x: SVector<Fxd, 2>) {
        self.x = x;
    }
}

} // verus!
