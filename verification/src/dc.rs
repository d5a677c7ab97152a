//! DC-side objects: a PI controller and a capacitor.
use crate::dynamics::{
    axpy, method_dx, step_with, Dynamics, NoInputStep, StepDynamics, StepMethod,
    XState,
};
use crate::fixed_point::{
    fx_add, fx_div, fx_mul, fx_sub, lemma_fx_mul_no_wrap, lemma_fx_sub_no_wrap, lemma_fx_zero,
    lemma_gain_times_gap_sign, wrap_i32, Fxd, ONE_BITS, ZERO_BITS,
};
use crate::reference_frames::{fxc, zero};
use crate::state::{vec1_get, vec1_new, StateVector};
use nalgebra::SVector;
use vstd::prelude::*;

verus! {

/* PI controller */

/// A proportional-integral controller of the error between its input and a
/// reference value.
pub struct PiController {
    /// Proportional gain.
    pub kp: Fxd,
    /// Integral gain.
    pub ki: Fxd,
    /// Reference value.
    pub u_ref: Fxd,
    /// State: the integral of the error.
    pub x: SVector<Fxd, 1>,
    /// The output of the last step.
    pub y: Fxd,
}

impl PiController {
    /// Constructs a PI controller with a zero integral and a zero output.
    pub fn new(kp: Fxd, ki: Fxd, ref_val: Fxd) -> (r: PiController)
        ensures
            r.kp == kp,
            r.ki == ki,
            r.u_ref == ref_val,
            r.x.items() == seq![zero()],
            r.y == zero(),
    {
        PiController {
            kp,
            ki,
            u_ref: ref_val,
            x: vec1_new(Fxd { bits: ZERO_BITS }),
            y: Fxd { bits: ZERO_BITS },
        }
    }

    /// The PI output `kp * (u - u_ref) + ki * integral`.
    pub open spec fn law(&self, u: Fxd, integral: Fxd) -> Fxd {
        fx_add(fx_mul(self.kp, fx_sub(u, self.u_ref)), fx_mul(self.ki, integral))
    }

    /// Returns the controller output for the input `u` without stepping.
    pub fn output(&self, u: [Fxd; 1]) -> (r: [Fxd; 1])
        ensures
            r@ == seq![self.law(u@[0], self.x.items()[0])],
    {
        let u_err = u[0].sub(self.u_ref);
        let r = [self.kp.mul(u_err).add(self.ki.mul(vec1_get(&self.x, 0)))];
        assert(r@ =~= seq![r[0]]);
        r
    }

    /// Integrates the error over `dt`, then returns the output with the new
    /// integral and the error.
    pub fn output_step(&mut self, dt: Fxd, u: [Fxd; 1]) -> (r: ([Fxd; 1], [Fxd; 1]))
        ensures
            ({
                let e = fx_sub(u@[0], old(self).u_ref);
                let integral = fx_add(old(self).x.items()[0], fx_mul(dt, e));
                &&& final(self).x.items() == old(self).x.items().update(0, integral)
                &&& *final(self) == (PiController { x: final(self).x, ..*old(self) })
                &&& r.0@ == seq![old(self).law(u@[0], integral)]
                &&& r.1@ == seq![e]
            }),
    {
        let u_err = u[0].sub(self.u_ref);
        let integral = vec1_get(&self.x, 0).add(dt.mul(u_err));
        StateVector::set(&mut self.x, 0, integral);
        let out = [self.kp.mul(u_err).add(self.ki.mul(integral))];
        let err = [u_err];
        assert(out@ =~= seq![out[0]]);
        assert(err@ =~= seq![u_err]);
        (out, err)
    }

    /// Sets the reference value.
    pub fn set_ref(&mut self, ref_val: Fxd)
        ensures
            *final(self) == (PiController { u_ref: ref_val, ..*old(self) }),
    {
        self.u_ref = ref_val;
    }

    /// Returns the output of the last step.
    pub fn get_output(&self) -> (r: Fxd)
        ensures
            r == self.y,
    {
        self.y
    }
}

impl Dynamics<SVector<Fxd, 1>, 1> for PiController {
    open spec fn dynamics_ok(&self, x: Seq<Fxd>, u: Seq<Fxd>) -> bool {
        true
    }

    open spec fn dynamics_spec(&self, x: Seq<Fxd>, u: Seq<Fxd>) -> Seq<Fxd> {
        seq![fx_sub(u[0], self.u_ref)]
    }

    /// The integrator dynamics: the error of the input.
    fn dynamics(&self, x: &SVector<Fxd, 1>, u: [Fxd; 1]) -> (dx: SVector<Fxd, 1>) {
        vec1_new(u[0].sub(self.u_ref))
    }
}

impl XState<SVector<Fxd, 1>> for PiController {
    open spec fn x_spec(&self) -> SVector<Fxd, 1> {
        self.x
    }

    open spec fn with_x(&self, x: SVector<Fxd, 1>) -> Self {
        PiController { x, ..*self }
    }

    fn get_x(&self) -> (r: &SVector<Fxd, 1>) {
        &self.x
    }

    fn set_x(&mut self, x: SVector<Fxd, 1>) {
        self.x = x;
    }
}

impl StepDynamics<SVector<Fxd, 1>, 1> for PiController {
    open spec fn step_ok(&self, dt: Fxd, u: Seq<Fxd>) -> bool {
        true
    }

    /// A step integrates the error and keeps the new output.
    open spec fn step_post(&self, next: Self, dt: Fxd, u: Seq<Fxd>, dx: Seq<Fxd>) -> bool {
        let e = fx_sub(u[0], self.u_ref);
        let integral = fx_add(self.x.items()[0], fx_mul(dt, e));
        &&& dx == seq![e]
        &&& next.x.items() == self.x.items().update(0, integral)
        &&& next == (PiController { x: next.x, y: self.law(u[0], integral), ..*self })
    }

    fn step(&mut self, dt: Fxd, u: [Fxd; 1]) -> (dx: SVector<Fxd, 1>) {
        let (output, dx_dt) = self.output_step(dt, u);
        self.y = output[0];
        let dx = vec1_new(dx_dt[0]);
        assert(dx.items() =~= seq![dx_dt[0]]);
        dx
    }
}

impl NoInputStep<SVector<Fxd, 1>, 1> for PiController {
    open spec fn step_zero_ok(&self, dt: Fxd) -> bool {
        true
    }

    open spec fn step_zero_post(&self, next: Self, dt: Fxd) -> bool {
        exists|dx: Seq<Fxd>| self.step_post(next, dt, seq![zero()], dx)
    }

    /// Steps the controller with a zero input.
    fn step_(&mut self, dt: Fxd) {
        let u = [Fxd { bits: ZERO_BITS }];
        assert(u@ =~= seq![zero()]);
        let dx = self.step(dt, u);
        assert(old(self).step_post(*self, dt, seq![zero()], dx.items()));
    }
}

/* Capacitor */

/// A capacitor with a series resistance, in per unit.
pub struct Capacitor {
    /// Nominal voltage (V).
    pub v_nom: Fxd,
    /// Series (leakage) resistance (p.u.).
    pub rc: Fxd,
    /// Capacitance (p.u.).
    pub c: Fxd,
    /// State: the capacitor voltage (p.u.).
    pub x: SVector<Fxd, 1>,
    pub step_method: StepMethod,
}

impl Capacitor {
    /// Constructs a capacitor charged to one per unit, stepped with the forward
    /// Euler method.
    pub fn new(v_nom: Fxd, rc: Fxd, c: Fxd) -> (r: Capacitor)
        ensures
            r.v_nom == v_nom,
            r.rc == rc,
            r.c == c,
            r.x.items() == seq![fxc(ONE_BITS)],
            r.step_method == StepMethod::ForwardEuler,
    {
        Capacitor { v_nom, rc, c, x: vec1_new(Fxd { bits: ONE_BITS }), step_method: StepMethod::ForwardEuler }
    }

    /// Returns the terminal voltage `v_c + rc * i` for the current `u`.
    pub fn get_voltage(&self, u: [Fxd; 1]) -> (r: [Fxd; 1])
        ensures
            r@ == seq![fx_add(self.x.items()[0], fx_mul(self.rc, u@[0]))],
    {
        let r = [vec1_get(&self.x, 0).add(self.rc.mul(u[0]))];
        assert(r@ =~= seq![r[0]]);
        r
    }
}

impl Dynamics<SVector<Fxd, 1>, 1> for Capacitor {
    open spec fn dynamics_ok(&self, x: Seq<Fxd>, u: Seq<Fxd>) -> bool {
        self.c.bits != 0
    }

    open spec fn dynamics_spec(&self, x: Seq<Fxd>, u: Seq<Fxd>) -> Seq<Fxd> {
        seq![fx_div(u[0], self.c)]
    }

    /// The voltage dynamics `i / c` for the current `u`.
    fn dynamics(&self, x: &SVector<Fxd, 1>, u: [Fxd; 1]) -> (dx: SVector<Fxd, 1>) {
        vec1_new(u[0].div(self.c))
    }
}

impl XState<SVector<Fxd, 1>> for Capacitor {
    open spec fn x_spec(&self) -> SVector<Fxd, 1> {
        self.x
    }

    open spec fn with_x(&self, x: SVector<Fxd, 1>) -> Self {
        Capacitor { x, ..*self }
    }

    fn get_x(&self) -> (r: &SVector<Fxd, 1>) {
        &self.x
    }

    fn set_x(&mut self, x: SVector<Fxd, 1>) {
        self.x = x;
    }
}

impl StepDynamics<SVector<Fxd, 1>, 1> for Capacitor {
    open spec fn step_ok(&self, dt: Fxd, u: Seq<Fxd>) -> bool {
        self.c.bits != 0
    }

    open spec fn step_post(&self, next: Self, dt: Fxd, u: Seq<Fxd>, dx: Seq<Fxd>) -> bool {
        &&& dx == method_dx::<SVector<Fxd, 1>, Capacitor, 1>(
            self.step_method,
            *self,
            self.x.items(),
            u,
            dt,
        )
        &&& next == self.with_x(next.x)
        &&& next.x.items() == axpy(self.x.items(), dx, dt, 1)
    }

    /// Steps the capacitor voltage with its step method.
    fn step(&mut self, dt: Fxd, u: [Fxd; 1]) -> (dx: SVector<Fxd, 1>) {
        let m = self.step_method;
        step_with(m, self, dt, u)
    }
}

impl NoInputStep<SVector<Fxd, 1>, 1> for Capacitor {
    open spec fn step_zero_ok(&self, dt: Fxd) -> bool {
        self.c.bits != 0
    }

    open spec fn step_zero_post(&self, next: Self, dt: Fxd) -> bool {
        exists|dx: Seq<Fxd>| self.step_post(next, dt, seq![zero()], dx)
    }

    /// Steps the capacitor with zero current.
    fn step_(&mut self, dt: Fxd) {
        let u = [Fxd { bits: ZERO_BITS }];
        assert(u@ =~= seq![zero()]);
        let dx = self.step(dt, u);
        assert(old(self).step_post(*self, dt, seq![zero()], dx.items()));
    }
}


/// The PI controller acts on the input minus its reference: with the
/// integral at zero the output is zero when the input meets the reference,
/// and with a positive `kp` it is not negative above the reference and
/// negative below it (nothing wrapping around); a step moves the integral by
/// `dt` times that error, so with a positive `dt` the integral grows while the
/// input is above the reference.
pub proof fn law_pi_acts_on_the_input_minus_the_reference(c: PiController, u: Fxd, dt: Fxd, next: PiController, dx: Seq<Fxd>)
    ensures
        ({
            let e = u.bits - c.u_ref.bits;
            let no_wrap = -0x8000_0000 <= e < 0x8000_0000 && -0x4000_0000 <= (c.kp.bits * e) / 65536
                < 0x4000_0000;
            let zero_int = Fxd { bits: 0 };
            &&& u == c.u_ref ==> c.law(u, zero_int).bits == 0
            &&& no_wrap && c.kp.bits > 0 && e > 0 ==> c.law(u, zero_int).bits >= 0
            &&& no_wrap && c.kp.bits > 0 && e < 0 ==> c.law(u, zero_int).bits < 0
            &&& c.step_post(next, dt, seq![u], dx) ==> dx == seq![fx_sub(u, c.u_ref)]
            &&& c.step_post(next, dt, seq![u], dx) && -0x8000_0000 <= e < 0x8000_0000 && 0 < dt.bits
                && -0x8000_0000 <= (dt.bits * e) / 65536 < 0x8000_0000 && -0x8000_0000
                <= c.x.items()[0].bits + (dt.bits * e) / 65536 < 0x8000_0000 && e > 0
                ==> next.x.items()[0].bits >= c.x.items()[0].bits
        }),
{
    let zero_int = Fxd { bits: 0 };
    lemma_gain_times_gap_sign(c.kp, u, c.u_ref);
    lemma_fx_zero(c.ki);
    let m = fx_mul(c.kp, fx_sub(u, c.u_ref));
    assert(fx_mul(c.ki, zero_int) == zero_int);
    assert(wrap_i32(m.bits + 0) == m.bits);
    let e = u.bits - c.u_ref.bits;
    if -0x8000_0000 <= e < 0x8000_0000 && 0 < dt.bits && -0x8000_0000 <= (dt.bits * e) / 65536
        < 0x8000_0000 && e > 0 {
        lemma_fx_sub_no_wrap(u, c.u_ref);
        lemma_fx_mul_no_wrap(dt, fx_sub(u, c.u_ref));
        assert(dt.bits * e > 0) by (nonlinear_arith)
            requires
                dt.bits > 0,
                e > 0,
        ;
        let a = fx_mul(dt, fx_sub(u, c.u_ref));
        assert(wrap_i32(c.x.items()[0].bits + a.bits) == c.x.items()[0].bits + a.bits ||
            !(-0x8000_0000 <= c.x.items()[0].bits + a.bits < 0x8000_0000));
    }
}

} // verus!
