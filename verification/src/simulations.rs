//! Dynamic objects for simulating small power systems: RL and RC branches, an
//! LCL filter, a stiff AC voltage source, and a line connected to a bus.
use crate::dynamics::{Dynamics, NoInputStep, StepDynamics, XState};
use crate::fixed_point::{
    abs, fx_add, fx_div, fx_mul, fx_sub, law_div_then_mul_round_trip, lemma_fx_div_pos_no_wrap,
    lemma_fx_mul_no_wrap, lemma_fx_sub_no_wrap, lemma_fx_zero, trunc_div, Fxd, ONE_BITS, SQRT_2_BITS,
    ZERO_BITS,
};
use crate::reference_frames::{fxc, polar_to_ab, zero, AlphaBeta, ToFromPolar};
use crate::state::{
    vec2_get, vec2_new, vec6_get, vec6_new, StateVector,
};
use core::marker::PhantomData;
use nalgebra::SVector;
use vstd::prelude::*;

verus! {

/// Whether an object has an angle state, and its index.
#[derive(Clone, Copy, PartialEq, Eq, Structural, Debug)]
pub struct ThetaIdx {
    pub has_theta: bool,
    pub theta_idx: usize,
}

/// An object with a voltage state with dynamics.
pub trait NodeInterface<V: StateVector>: StepDynamics<V, 2> + NoInputStep<V, 2> + XState<V> {
    /// Voltage magnitude (V) and angle (rad).
    spec fn node_voltage_spec(&self) -> (Fxd, Fxd);

    /// Voltage magnitude and angle in per unit.
    spec fn node_pu_voltage_spec(&self) -> (Fxd, Fxd);

    /// What setting the voltage `v` does.
    spec fn set_node_voltage_post(&self, next: Self, v: (Fxd, Fxd)) -> bool;

    /// Returns the voltage state values of the node.
    fn get_voltage(&self) -> (r: [Fxd; 2])
        ensures
            r@ == seq![self.node_voltage_spec().0, self.node_voltage_spec().1],
    ;

    /// Returns the voltage state values of the node in per unit.
    fn get_pu_voltage(&self) -> (r: [Fxd; 2])
        ensures
            r@ == seq![self.node_pu_voltage_spec().0, self.node_pu_voltage_spec().1],
    ;

    /// Sets the voltage state values of the node.
    fn set_voltage(&mut self, v: [Fxd; 2])
        ensures
            old(self).set_node_voltage_post(*final(self), (v@[0], v@[1])),
    ;
}

/// An object with a current state with dynamics.
pub trait EdgeInterface<V: StateVector>: StepDynamics<V, 2> + NoInputStep<V, 2> + XState<V> {
    /// Current (A).
    spec fn edge_current_spec(&self) -> (Fxd, Fxd);

    /// Current in per unit.
    spec fn edge_pu_current_spec(&self) -> (Fxd, Fxd);

    /// What setting the current `i` does.
    spec fn set_edge_current_post(&self, next: Self, i: (Fxd, Fxd)) -> bool;

    /// Returns the current state values of the edge.
    fn get_current(&self) -> (r: [Fxd; 2])
        ensures
            r@ == seq![self.edge_current_spec().0, self.edge_current_spec().1],
    ;

    /// Returns the current state values of the edge in per unit.
    fn get_pu_current(&self) -> (r: [Fxd; 2])
        ensures
            r@ == seq![self.edge_pu_current_spec().0, self.edge_pu_current_spec().1],
    ;

    /// Sets the current state values of the edge.
    fn set_current(&mut self, i: [Fxd; 2])
        ensures
            old(self).set_edge_current_post(*final(self), (i@[0], i@[1])),
    ;
}

/// An object with current states between a "from" and a "to" side, with a
/// switch on the "to" side.
pub trait Line<V: StateVector>: XState<V> + Dynamics<V, 4> {
    spec fn switch_closed_spec(&self) -> bool;

    /// The object with the switch set to `closed` and all else kept.
    spec fn with_switch(&self, closed: bool) -> Self;

    spec fn fr_current_spec(&self) -> (Fxd, Fxd);

    spec fn to_current_spec(&self) -> (Fxd, Fxd);

    spec fn fr_pu_current_spec(&self) -> (Fxd, Fxd);

    spec fn to_pu_current_spec(&self) -> (Fxd, Fxd);

    spec fn set_current_ok(&self) -> bool;

    spec fn set_fr_current_post(&self, next: Self, i: (Fxd, Fxd)) -> bool;

    spec fn set_to_current_post(&self, next: Self, i: (Fxd, Fxd)) -> bool;

    /// Returns the "from"-side current (A).
    fn get_fr_current(&self) -> (r: [Fxd; 2])
        ensures
            r@ == seq![self.fr_current_spec().0, self.fr_current_spec().1],
    ;

    /// Returns the "to"-side current (A).
    fn get_to_current(&self) -> (r: [Fxd; 2])
        ensures
            r@ == seq![self.to_current_spec().0, self.to_current_spec().1],
    ;

    /// Returns the "from"-side current (p.u.).
    fn get_fr_pu_current(&self) -> (r: [Fxd; 2])
        ensures
            r@ == seq![self.fr_pu_current_spec().0, self.fr_pu_current_spec().1],
    ;

    /// Returns the "to"-side current (p.u.).
    fn get_to_pu_current(&self) -> (r: [Fxd; 2])
        ensures
            r@ == seq![self.to_pu_current_spec().0, self.to_pu_current_spec().1],
    ;

    /// Sets the "from"-side current.
    fn set_fr_current(&mut self, i: [Fxd; 2])
        requires
            old(self).set_current_ok(),
        ensures
            old(self).set_fr_current_post(*final(self), (i@[0], i@[1])),
    ;

    /// Sets the "to"-side current.
    fn set_to_current(&mut self, i: [Fxd; 2])
        requires
            old(self).set_current_ok(),
        ensures
            old(self).set_to_current_post(*final(self), (i@[0], i@[1])),
    ;

    /// Opens the switch.
    fn open_switch(&mut self)
        ensures
            *final(self) == old(self).with_switch(false),
            !final(self).switch_closed_spec(),
    ;

    /// Closes the switch.
    fn close_switch(&mut self)
        ensures
            *final(self) == old(self).with_switch(true),
            final(self).switch_closed_spec(),
    ;

    /// Whether the switch is closed.
    fn switch_is_closed(&self) -> (r: bool)
        ensures
            r == self.switch_closed_spec(),
    ;
}

/* RL branch */

/// A series resistor-inductor branch carrying an alpha-beta current.
pub struct RlBranch {
    /// Base current (A).
    pub i_base: Fxd,
    /// Nominal frequency (rad/s).
    pub w_nom: Fxd,
    /// Resistance (p.u.).
    pub rf: Fxd,
    /// Inductance (p.u.).
    pub lf: Fxd,
    /// Whether the switch on the "to" side is closed.
    pub switch_closed: bool,
    pub i_alpha: Fxd,
    pub i_beta: Fxd,
    /// States: the alpha and beta currents (p.u.).
    pub x: SVector<Fxd, 2>,
    pub theta_idx: ThetaIdx,
}

/// The RL branch dynamics `(v1 - v2 - rf i) / lf` for the currents `x` and the
/// voltages `u` = [v1 alpha, v1 beta, v2 alpha, v2 beta]; with the switch open,
/// the "from" voltage is the "to" voltage.
pub open spec fn rl_dynamics(rf: Fxd, lf: Fxd, closed: bool, x: Seq<Fxd>, u: Seq<Fxd>) -> Seq<Fxd> {
    let v1a = if closed {
        u[0]
    } else {
        u[2]
    };
    let v1b = if closed {
        u[1]
    } else {
        u[3]
    };
    seq![
        fx_div(fx_sub(fx_sub(v1a, u[2]), fx_mul(rf, x[0])), lf),
        fx_div(fx_sub(fx_sub(v1b, u[3]), fx_mul(rf, x[1])), lf),
    ]
}

impl RlBranch {
    /// The current (A): the per-unit current scaled by the base current.
    pub open spec fn current_spec(&self) -> (Fxd, Fxd) {
        (fx_mul(self.i_base, self.x.items()[0]), fx_mul(self.i_base, self.x.items()[1]))
    }

    /// Returns the current (A).
    pub fn get_current(&self) -> (r: [Fxd; 2])
        ensures
            r@ == seq![self.current_spec().0, self.current_spec().1],
    {
        let r = [self.i_base.mul(vec2_get(&self.x, 0)), self.i_base.mul(vec2_get(&self.x, 1))];
        assert(r@ =~= seq![r[0], r[1]]);
        r
    }

    /// Returns the current (p.u.).
    pub fn get_pu_current(&self) -> (r: [Fxd; 2])
        ensures
            r@ == seq![self.x.items()[0], self.x.items()[1]],
    {
        let r = [vec2_get(&self.x, 0), vec2_get(&self.x, 1)];
        assert(r@ =~= seq![r[0], r[1]]);
        r
    }

    /// Setting the current `i` (A): the current states become `i` over the base
    /// current, all else is kept.
    pub open spec fn set_current_post(&self, next: Self, i: (Fxd, Fxd)) -> bool {
        &&& next == self.with_x(next.x)
        &&& next.x.items() == self.x.items().update(0, fx_div(i.0, self.i_base)).update(
            1,
            fx_div(i.1, self.i_base),
        )
    }

    /// Sets the current from a value in amperes.
    pub fn set_current(&mut self, i: [Fxd; 2])
        requires
            old(self).i_base.bits != 0,
        ensures
            old(self).set_current_post(*final(self), (i@[0], i@[1])),
    {
        StateVector::set(&mut self.x, 0, i[0].div(self.i_base));
        StateVector::set(&mut self.x, 1, i[1].div(self.i_base));
    }

    /// Setting the per-unit current `i`: the current states become `i`, all else
    /// is kept.
    pub open spec fn set_pu_current_post(&self, next: Self, i: (Fxd, Fxd)) -> bool {
        &&& next == self.with_x(next.x)
        &&& next.x.items() == self.x.items().update(0, i.0).update(1, i.1)
    }

    /// Sets the current from a per-unit value.
    pub fn set_pu_current(&mut self, i: [Fxd; 2])
        ensures
            old(self).set_pu_current_post(*final(self), (i@[0], i@[1])),
    {
        StateVector::set(&mut self.x, 0, i[0]);
        StateVector::set(&mut self.x, 1, i[1]);
    }
}

impl RlBranch {
    /// The current dynamics of the branch with its switch closed, for the
    /// voltages `u` at its two ends.
    fn connected_dynamics(&self, x: &SVector<Fxd, 2>, u: [Fxd; 4]) -> (dx: SVector<Fxd, 2>)
        requires
            self.lf.bits != 0,
        ensures
            dx.items() == rl_dynamics(self.rf, self.lf, true, x.items(), u@),
    {
        let di_alpha_dt = u[0].sub(u[2]).sub(self.rf.mul(vec2_get(x, 0))).div(self.lf);
        let di_beta_dt = u[1].sub(u[3]).sub(self.rf.mul(vec2_get(x, 1))).div(self.lf);
        vec2_new(di_alpha_dt, di_beta_dt)
    }
}

impl Dynamics<SVector<Fxd, 2>, 4> for RlBranch {
    open spec fn dynamics_ok(&self, x: Seq<Fxd>, u: Seq<Fxd>) -> bool {
        self.lf.bits != 0
    }

    open spec fn dynamics_spec(&self, x: Seq<Fxd>, u: Seq<Fxd>) -> Seq<Fxd> {
        rl_dynamics(self.rf, self.lf, self.switch_closed, x, u)
    }

    /// The per-unit current dynamics for the end voltages `u`.
    fn dynamics(&self, x: &SVector<Fxd, 2>, u: [Fxd; 4]) -> (dx: SVector<Fxd, 2>) {
        let mut v1_ab = AlphaBeta::from_ab_(u[0], u[1]);
        if !self.switch_closed {
            v1_ab.alpha = u[2];
            v1_ab.beta = u[3];
        }
        let v2_ab = AlphaBeta::from_ab_(u[2], u[3]);
        let i_ab = AlphaBeta::from_ab_(vec2_get(x, 0), vec2_get(x, 1));
        let di_alpha_dt = v1_ab.alpha.sub(v2_ab.alpha).sub(self.rf.mul(i_ab.alpha)).div(self.lf);
        let di_beta_dt = v1_ab.beta.sub(v2_ab.beta).sub(self.rf.mul(i_ab.beta)).div(self.lf);
        vec2_new(di_alpha_dt, di_beta_dt)
    }
}

impl XState<SVector<Fxd, 2>> for RlBranch {
    open spec fn x_spec(&self) -> SVector<Fxd, 2> {
        self.x
    }

    open spec fn with_x(&self, x: SVector<Fxd, 2>) -> Self {
        RlBranch { x, ..*self }
    }

    fn get_x(&self) -> (r: &SVector<Fxd, 2>) {
        &self.x
    }

    fn set_x(&mut self, x: SVector<Fxd, 2>) {
        self.x = x;
    }
}

impl Line<SVector<Fxd, 2>> for RlBranch {
    open spec fn switch_closed_spec(&self) -> bool {
        self.switch_closed
    }

    open spec fn with_switch(&self, closed: bool) -> Self {
        RlBranch { switch_closed: closed, ..*self }
    }

    open spec fn fr_current_spec(&self) -> (Fxd, Fxd) {
        (fx_mul(self.i_base, self.x.items()[0]), fx_mul(self.i_base, self.x.items()[1]))
    }

    open spec fn to_current_spec(&self) -> (Fxd, Fxd) {
        self.fr_current_spec()
    }

    open spec fn fr_pu_current_spec(&self) -> (Fxd, Fxd) {
        (self.x.items()[0], self.x.items()[1])
    }

    open spec fn to_pu_current_spec(&self) -> (Fxd, Fxd) {
        self.fr_pu_current_spec()
    }

    open spec fn set_current_ok(&self) -> bool {
        self.i_base.bits != 0
    }

    /// The single current of the branch is set from a value in amperes.
    open spec fn set_fr_current_post(&self, next: Self, i: (Fxd, Fxd)) -> bool {
        &&& next == self.with_x(next.x)
        &&& next.x.items() == self.x.items().update(0, fx_div(i.0, self.i_base)).update(
            1,
            fx_div(i.1, self.i_base),
        )
    }

    open spec fn set_to_current_post(&self, next: Self, i: (Fxd, Fxd)) -> bool {
        self.set_fr_current_post(next, i)
    }

    fn get_fr_current(&self) -> (r: [Fxd; 2]) {
        self.get_current()
    }

    fn get_to_current(&self) -> (r: [Fxd; 2]) {
        self.get_current()
    }

    fn get_fr_pu_current(&self) -> (r: [Fxd; 2]) {
        self.get_pu_current()
    }

    fn get_to_pu_current(&self) -> (r: [Fxd; 2]) {
        self.get_pu_current()
    }

    fn set_fr_current(&mut self, i: [Fxd; 2]) {
        self.set_current(i)
    }

    fn set_to_current(&mut self, i: [Fxd; 2]) {
        self.set_current(i)
    }

    fn open_switch(&mut self) {
        self.switch_closed = false;
    }

    fn close_switch(&mut self) {
        self.switch_closed = true;
    }

    fn switch_is_closed(&self) -> (r: bool) {
        self.switch_closed
    }
}

/// Constructs an RL branch with zero current and an open switch.
pub fn build_rl_branch(i_base: Fxd, w_nom: Fxd, rf: Fxd, lf: Fxd) -> (r: RlBranch)
    ensures
        r.i_base == i_base,
        r.w_nom == w_nom,
        r.rf == rf,
        r.lf == lf,
        !r.switch_closed,
        r.i_alpha == zero(),
        r.i_beta == zero(),
        r.x.items() == seq![zero(), zero()],
        r.theta_idx == (ThetaIdx { has_theta: false, theta_idx: 1 }),
{
    let z = Fxd { bits: ZERO_BITS };
    RlBranch {
        i_base,
        w_nom,
        rf,
        lf,
        switch_closed: false,
        i_alpha: z,
        i_beta: z,
        x: vec2_new(z, z),
        theta_idx: ThetaIdx { has_theta: false, theta_idx: 1 },
    }
}

/* RC branch */

/// A capacitor with a series resistance holding an alpha-beta voltage.
pub struct RcBranch {
    /// Nominal voltage (V).
    pub v_nom: Fxd,
    /// Series resistance (p.u.).
    pub rc: Fxd,
    /// Capacitance (p.u.).
    pub cf: Fxd,
    /// States: the alpha and beta capacitor voltages (p.u.).
    pub x: SVector<Fxd, 2>,
    pub theta_idx: ThetaIdx,
}

impl Dynamics<SVector<Fxd, 2>, 2> for RcBranch {
    open spec fn dynamics_ok(&self, x: Seq<Fxd>, u: Seq<Fxd>) -> bool {
        self.cf.bits != 0
    }

    open spec fn dynamics_spec(&self, x: Seq<Fxd>, u: Seq<Fxd>) -> Seq<Fxd> {
        seq![fx_div(u[0], self.cf), fx_div(u[1], self.cf)]
    }

    /// The voltage dynamics `i / cf` for the alpha-beta current `u`.
    fn dynamics(&self, _x: &SVector<Fxd, 2>, u: [Fxd; 2]) -> (dx: SVector<Fxd, 2>) {
        vec2_new(u[0].div(self.cf), u[1].div(self.cf))
    }
}

impl XState<SVector<Fxd, 2>> for RcBranch {
    open spec fn x_spec(&self) -> SVector<Fxd, 2> {
        self.x
    }

    open spec fn with_x(&self, x: SVector<Fxd, 2>) -> Self {
        RcBranch { x, ..*self }
    }

    fn get_x(&self) -> (r: &SVector<Fxd, 2>) {
        &self.x
    }

    fn set_x(&mut self, x: SVector<Fxd, 2>) {
        self.x = x;
    }
}

/// Constructs an RC branch charged to `sqrt 2` on the alpha axis.
pub fn build_rc_branch(v_nom: Fxd, rc: Fxd, cf: Fxd) -> (r: RcBranch)
    ensures
        r.v_nom == v_nom,
        r.rc == rc,
        r.cf == cf,
        r.x.items() == seq![fxc(SQRT_2_BITS), zero()],
        r.theta_idx == (ThetaIdx { has_theta: false, theta_idx: 1 }),
{
    RcBranch {
        v_nom,
        rc,
        cf,
        x: vec2_new(Fxd { bits: SQRT_2_BITS }, Fxd { bits: ZERO_BITS }),
        theta_idx: ThetaIdx { has_theta: false, theta_idx: 1 },
    }
}

/* LCL filter */

/// An LCL filter: an RL branch, a shunt RC branch and a second RL branch.
pub struct LclFilter {
    pub v_nom: Fxd,
    /// Base current (A).
    pub i_base: Fxd,
    pub from_rl_branch: RlBranch,
    pub rc_branch: RcBranch,
    pub to_rl_branch: RlBranch,
    /// Whether the switch on the "to" side is closed.
    pub switch_closed: bool,
    /// States: "from" current, capacitor voltage and "to" current, each as
    /// alpha and beta (p.u.).
    pub x: SVector<Fxd, 6>,
    pub theta_idx: ThetaIdx,
}

impl LclFilter {
    /// The capacitor current `i_from - i_to` on axis `k` (0 alpha, 1 beta).
    pub open spec fn cap_current(x: Seq<Fxd>, k: int) -> Fxd {
        fx_sub(x[k], x[k + 4])
    }

    /// The node voltage: capacitor voltage plus the drop on its resistance.
    pub open spec fn node_voltage(&self, x: Seq<Fxd>, k: int) -> Fxd {
        fx_add(x[k + 2], fx_mul(Self::cap_current(x, k), self.rc_branch.rc))
    }

    /// The per-unit dynamics: the inverter-side branch is driven by the
    /// inverter voltage `[u0, u1]` against the node voltage, the capacitor by
    /// the difference of the branch currents, and the grid-side branch by the
    /// node voltage against the grid voltage `[u2, u3]` while the filter's
    /// switch is closed, and against the node voltage itself while it is
    /// open. The branches inside the filter are always connected.
    pub open spec fn dynamics_of(&self, x: Seq<Fxd>, u: Seq<Fxd>) -> Seq<Fxd> {
        let vna = self.node_voltage(x, 0);
        let vnb = self.node_voltage(x, 1);
        let u3 = if self.switch_closed {
            seq![vna, vnb, u[2], u[3]]
        } else {
            seq![vna, vnb, vna, vnb]
        };
        let from = rl_dynamics(
            self.from_rl_branch.rf,
            self.from_rl_branch.lf,
            true,
            seq![x[0], x[1]],
            seq![u[0], u[1], vna, vnb],
        );
        let dv = self.rc_branch.dynamics_spec(
            seq![x[2], x[3]],
            seq![Self::cap_current(x, 0), Self::cap_current(x, 1)],
        );
        let to = rl_dynamics(self.to_rl_branch.rf, self.to_rl_branch.lf, true, seq![x[4], x[5]], u3);
        seq![from[0], from[1], dv[0], dv[1], to[0], to[1]]
    }

    /// Returns the "from"-side current (p.u.).
    pub fn get_fr_current(&self) -> (r: [Fxd; 2])
        ensures
            r@ == seq![self.x.items()[0], self.x.items()[1]],
    {
        let r = [vec6_get(&self.x, 0), vec6_get(&self.x, 1)];
        assert(r@ =~= seq![r[0], r[1]]);
        r
    }

    /// Returns the "from"-side current (p.u.), as `get_fr_current` does.
    pub fn get_from_current(&self) -> (r: [Fxd; 2])
        ensures
            r@ == seq![self.x.items()[0], self.x.items()[1]],
    {
        self.get_fr_current()
    }

    /// Returns the "to"-side current (p.u.).
    pub fn get_to_current(&self) -> (r: [Fxd; 2])
        ensures
            r@ == seq![self.x.items()[4], self.x.items()[5]],
    {
        let r = [vec6_get(&self.x, 4), vec6_get(&self.x, 5)];
        assert(r@ =~= seq![r[0], r[1]]);
        r
    }

    /// Returns the node voltage: the capacitor voltage plus the voltage on its
    /// series resistance.
    pub fn get_voltage(&self) -> (r: [Fxd; 2])
        ensures
            r@ == seq![
                fx_add(
                    self.x.items()[2],
                    fx_mul(self.rc_branch.rc, fx_sub(self.x.items()[0], self.x.items()[4])),
                ),
                fx_add(
                    self.x.items()[3],
                    fx_mul(self.rc_branch.rc, fx_sub(self.x.items()[1], self.x.items()[5])),
                ),
            ],
    {
        let rc = self.rc_branch.rc;
        let r = [
            vec6_get(&self.x, 2).add(rc.mul(vec6_get(&self.x, 0).sub(vec6_get(&self.x, 4)))),
            vec6_get(&self.x, 3).add(rc.mul(vec6_get(&self.x, 1).sub(vec6_get(&self.x, 5)))),
        ];
        assert(r@ =~= seq![r[0], r[1]]);
        r
    }
}

impl Dynamics<SVector<Fxd, 6>, 4> for LclFilter {
    open spec fn dynamics_ok(&self, x: Seq<Fxd>, u: Seq<Fxd>) -> bool {
        &&& self.from_rl_branch.lf.bits != 0
        &&& self.rc_branch.cf.bits != 0
        &&& self.to_rl_branch.lf.bits != 0
    }

    open spec fn dynamics_spec(&self, x: Seq<Fxd>, u: Seq<Fxd>) -> Seq<Fxd> {
        self.dynamics_of(x, u)
    }

    /// The per-unit dynamics of the three branches for the end voltages `u`.
    fn dynamics(&self, x: &SVector<Fxd, 6>, u: [Fxd; 4]) -> (dx: SVector<Fxd, 6>) {
        let x0 = vec6_get(x, 0);
        let x1 = vec6_get(x, 1);
        let x2 = vec6_get(x, 2);
        let x3 = vec6_get(x, 3);
        let x4 = vec6_get(x, 4);
        let x5 = vec6_get(x, 5);
        let xs1 = vec2_new(x0, x1);
        let xs2 = vec2_new(x2, x3);
        let xs3 = vec2_new(x4, x5);
        let i_cap_alpha = x0.sub(x4);
        let i_cap_beta = x1.sub(x5);
        let v_node_alpha = x2.add(i_cap_alpha.mul(self.rc_branch.rc));
        let v_node_beta = x3.add(i_cap_beta.mul(self.rc_branch.rc));
        let u1 = [u[0], u[1], v_node_alpha, v_node_beta];
        let u2 = [i_cap_alpha, i_cap_beta];
        let mut u3 = [v_node_alpha, v_node_beta, u[2], u[3]];
        if !self.switch_closed {
            u3[2] = v_node_alpha;
            u3[3] = v_node_beta;
        }
        assert(u1@ =~= seq![u@[0], u@[1], v_node_alpha, v_node_beta]);
        assert(u2@ =~= seq![i_cap_alpha, i_cap_beta]);
        assert(xs1.items() =~= seq![x.items()[0], x.items()[1]]);
        assert(xs2.items() =~= seq![x.items()[2], x.items()[3]]);
        assert(xs3.items() =~= seq![x.items()[4], x.items()[5]]);
        if self.switch_closed {
            assert(u3@ =~= seq![v_node_alpha, v_node_beta, u@[2], u@[3]]);
        } else {
            assert(u3@ =~= seq![v_node_alpha, v_node_beta, v_node_alpha, v_node_beta]);
        }
        let from_di_dt = self.from_rl_branch.connected_dynamics(&xs1, u1);
        let dv_dt = self.rc_branch.dynamics(&xs2, u2);
        let to_di_dt = self.to_rl_branch.connected_dynamics(&xs3, u3);
        let dx = vec6_new(
            vec2_get(&from_di_dt, 0),
            vec2_get(&from_di_dt, 1),
            vec2_get(&dv_dt, 0),
            vec2_get(&dv_dt, 1),
            vec2_get(&to_di_dt, 0),
            vec2_get(&to_di_dt, 1),
        );
        assert(dx.items() =~= self.dynamics_of(x.items(), u@));
        dx
    }
}

impl XState<SVector<Fxd, 6>> for LclFilter {
    open spec fn x_spec(&self) -> SVector<Fxd, 6> {
        self.x
    }

    open spec fn with_x(&self, x: SVector<Fxd, 6>) -> Self {
        LclFilter { x, ..*self }
    }

    fn get_x(&self) -> (r: &SVector<Fxd, 6>) {
        &self.x
    }

    fn set_x(&mut self, x: SVector<Fxd, 6>) {
        self.x = x;
    }
}

impl Line<SVector<Fxd, 6>> for LclFilter {
    open spec fn switch_closed_spec(&self) -> bool {
        self.switch_closed
    }

    open spec fn with_switch(&self, closed: bool) -> Self {
        LclFilter { switch_closed: closed, ..*self }
    }

    open spec fn fr_current_spec(&self) -> (Fxd, Fxd) {
        (fx_mul(self.x.items()[0], self.i_base), fx_mul(self.x.items()[1], self.i_base))
    }

    open spec fn to_current_spec(&self) -> (Fxd, Fxd) {
        (fx_mul(self.x.items()[4], self.i_base), fx_mul(self.x.items()[5], self.i_base))
    }

    open spec fn fr_pu_current_spec(&self) -> (Fxd, Fxd) {
        (self.x.items()[0], self.x.items()[1])
    }

    open spec fn to_pu_current_spec(&self) -> (Fxd, Fxd) {
        (self.x.items()[4], self.x.items()[5])
    }

    open spec fn set_current_ok(&self) -> bool {
        true
    }

    /// The "from" current states are set to the given values.
    open spec fn set_fr_current_post(&self, next: Self, i: (Fxd, Fxd)) -> bool {
        &&& next == self.with_x(next.x)
        &&& next.x.items() == self.x.items().update(0, i.0).update(1, i.1)
    }

    /// The "to" current states are set to the given values.
    open spec fn set_to_current_post(&self, next: Self, i: (Fxd, Fxd)) -> bool {
        &&& next == self.with_x(next.x)
        &&& next.x.items() == self.x.items().update(4, i.0).update(5, i.1)
    }

    fn get_fr_current(&self) -> (r: [Fxd; 2]) {
        let r = [vec6_get(&self.x, 0).mul(self.i_base), vec6_get(&self.x, 1).mul(self.i_base)];
        assert(r@ =~= seq![r[0], r[1]]);
        r
    }

    fn get_to_current(&self) -> (r: [Fxd; 2]) {
        let r = [vec6_get(&self.x, 4).mul(self.i_base), vec6_get(&self.x, 5).mul(self.i_base)];
        assert(r@ =~= seq![r[0], r[1]]);
        r
    }

    fn get_fr_pu_current(&self) -> (r: [Fxd; 2]) {
        let r = [vec6_get(&self.x, 0), vec6_get(&self.x, 1)];
        assert(r@ =~= seq![r[0], r[1]]);
        r
    }

    fn get_to_pu_current(&self) -> (r: [Fxd; 2]) {
        let r = [vec6_get(&self.x, 4), vec6_get(&self.x, 5)];
        assert(r@ =~= seq![r[0], r[1]]);
        r
    }

    fn set_fr_current(&mut self, i: [Fxd; 2]) {
        StateVector::set(&mut self.x, 0, i[0]);
        StateVector::set(&mut self.x, 1, i[1]);
    }

    fn set_to_current(&mut self, i: [Fxd; 2]) {
        StateVector::set(&mut self.x, 4, i[0]);
        StateVector::set(&mut self.x, 5, i[1]);
    }

    fn open_switch(&mut self) {
        self.switch_closed = false;
    }

    fn close_switch(&mut self) {
        self.switch_closed = true;
    }

    fn switch_is_closed(&self) -> (r: bool) {
        self.switch_closed
    }
}

/// Constructs an LCL filter from its component values, with zero currents,
/// the capacitor charged to `sqrt 2` on the alpha axis and an open switch.
pub fn build_lcl_filter(
    w_nom: Fxd,
    i_base: Fxd,
    v_nom: Fxd,
    rf: Fxd,
    lf: Fxd,
    rc: Fxd,
    cf: Fxd,
    rg: Fxd,
    lg: Fxd,
) -> (r: LclFilter)
    ensures
        r.i_base == i_base,
        r.v_nom == v_nom,
        r.from_rl_branch.i_base == i_base && r.from_rl_branch.w_nom == w_nom,
        r.from_rl_branch.rf == rf && r.from_rl_branch.lf == lf,
        !r.from_rl_branch.switch_closed,
        r.from_rl_branch.x.items() == seq![zero(), zero()],
        r.rc_branch.v_nom == v_nom && r.rc_branch.rc == rc && r.rc_branch.cf == cf,
        r.rc_branch.x.items() == seq![fxc(SQRT_2_BITS), zero()],
        r.to_rl_branch.i_base == i_base && r.to_rl_branch.w_nom == w_nom,
        r.to_rl_branch.rf == rg && r.to_rl_branch.lf == lg,
        !r.to_rl_branch.switch_closed,
        r.to_rl_branch.x.items() == seq![zero(), zero()],
        !r.switch_closed,
        r.x.items() == seq![zero(), zero(), fxc(SQRT_2_BITS), zero(), zero(), zero()],
        r.theta_idx == (ThetaIdx { has_theta: false, theta_idx: 0 }),
{
    let from_rl_branch = build_rl_branch(i_base, w_nom, rf, lf);
    let rc_branch = build_rc_branch(v_nom, rc, cf);
    let to_rl_branch = build_rl_branch(i_base, w_nom, rg, lg);
    let z = Fxd { bits: ZERO_BITS };
    LclFilter {
        i_base,
        v_nom,
        from_rl_branch,
        rc_branch,
        to_rl_branch,
        switch_closed: false,
        x: vec6_new(z, z, Fxd { bits: SQRT_2_BITS }, z, z, z),
        theta_idx: ThetaIdx { has_theta: false, theta_idx: 0 },
    }
}

/* Stiff AC voltage source */

/// An ideal AC voltage source at nominal frequency.
pub struct AcVoltSrc {
    /// Nominal RMS line-to-neutral voltage (V).
    pub v_nom: Fxd,
    /// Nominal frequency (rad/s).
    pub w_nom: Fxd,
    pub v: Fxd,
    pub theta: Fxd,
    /// States: voltage magnitude and angle (p.u.).
    pub x: SVector<Fxd, 2>,
    pub theta_idx: ThetaIdx,
}

impl Dynamics<SVector<Fxd, 2>, 0> for AcVoltSrc {
    open spec fn dynamics_ok(&self, x: Seq<Fxd>, u: Seq<Fxd>) -> bool {
        true
    }

    /// Constant magnitude, angle advancing at nominal frequency.
    open spec fn dynamics_spec(&self, x: Seq<Fxd>, u: Seq<Fxd>) -> Seq<Fxd> {
        seq![zero(), fxc(ONE_BITS)]
    }

    fn dynamics(&self, _x: &SVector<Fxd, 2>, _u: [Fxd; 0]) -> (dx: SVector<Fxd, 2>) {
        vec2_new(Fxd { bits: ZERO_BITS }, Fxd { bits: ONE_BITS })
    }
}

impl XState<SVector<Fxd, 2>> for AcVoltSrc {
    open spec fn x_spec(&self) -> SVector<Fxd, 2> {
        self.x
    }

    open spec fn with_x(&self, x: SVector<Fxd, 2>) -> Self {
        AcVoltSrc { x, ..*self }
    }

    fn get_x(&self) -> (r: &SVector<Fxd, 2>) {
        &self.x
    }

    fn set_x(&mut self, x: SVector<Fxd, 2>) {
        self.x = x;
    }
}

/// Constructs an AC voltage source at one per unit and zero angle.
pub fn build_ac_volt_src(v_nom: Fxd, w_nom: Fxd) -> (r: AcVoltSrc)
    ensures
        r.v_nom == v_nom,
        r.w_nom == w_nom,
        r.v == fxc(ONE_BITS),
        r.theta == zero(),
        r.x.items() == seq![fxc(ONE_BITS), zero()],
        r.theta_idx == (ThetaIdx { has_theta: true, theta_idx: 1 }),
{
    AcVoltSrc {
        v_nom,
        w_nom,
        v: Fxd { bits: ONE_BITS },
        theta: Fxd { bits: ZERO_BITS },
        x: vec2_new(Fxd { bits: ONE_BITS }, Fxd { bits: ZERO_BITS }),
        theta_idx: ThetaIdx { has_theta: true, theta_idx: 1 },
    }
}

/* A line connected to a bus */

/// A line whose "to" side is connected to an AC voltage source bus. The states
/// `x` (of the type `V`) hold the bus states (magnitude and angle) in rows 0
/// and 1 and the line states (of the type `W`) in the last rows.
pub struct LineToBus<V: StateVector, W: StateVector, L: Line<W>> {
    pub line: L,
    pub bus: AcVoltSrc,
    /// States: bus magnitude and angle, then the line states in the last rows.
    pub x: V,
    pub line_states: PhantomData<W>,
}

/// The last `n` of the states `x`.
pub open spec fn last_rows(x: Seq<Fxd>, n: nat) -> Seq<Fxd> {
    x.subrange(x.len() - n, x.len() as int)
}

/// `m` states with `tail` in the last rows and `head` in the first two rows
/// that `tail` leaves free; zero elsewhere.
pub open spec fn bus_and_line_rows(head: Seq<Fxd>, tail: Seq<Fxd>, m: nat) -> Seq<Fxd> {
    Seq::new(
        m,
        |k: int|
            if k >= m - tail.len() {
                tail[k - (m - tail.len())]
            } else if k < 2 {
                head[k]
            } else {
                zero()
            },
    )
}

/// The initial states of a line connected to a bus: `m` states with the bus
/// states in rows 0 and 1 and then the `n` line states from row `n - 1` on
/// (which, for a line of two states, overwrite row 1); zero elsewhere.
pub open spec fn built_line_to_bus_states(bus: Seq<Fxd>, line: Seq<Fxd>, m: nat) -> Seq<Fxd> {
    Seq::new(
        m,
        |k: int|
            if line.len() - 1 <= k < 2 * line.len() - 1 {
                line[k - (line.len() - 1)]
            } else if k < 2 {
                bus[k]
            } else {
                zero()
            },
    )
}

impl<V: StateVector, W: StateVector, L: Line<W>> LineToBus<V, W, L> {
    /// Opens the line switch.
    pub fn open_switch(&mut self)
        ensures
            *final(self) == (LineToBus { line: old(self).line.with_switch(false), ..*old(self) }),
            !final(self).line.switch_closed_spec(),
    {
        self.line.open_switch();
    }

    /// Closes the line switch.
    pub fn close_switch(&mut self)
        ensures
            *final(self) == (LineToBus { line: old(self).line.with_switch(true), ..*old(self) }),
            final(self).line.switch_closed_spec(),
    {
        self.line.close_switch();
    }

    /// Whether the line switch is closed.
    pub fn switch_is_closed(&self) -> (r: bool)
        ensures
            r == self.line.switch_closed_spec(),
    {
        self.line.switch_is_closed()
    }

    /// The bus voltage in alpha-beta coordinates for the states `x`.
    pub open spec fn bus_voltage_of(&self, x: Seq<Fxd>) -> AlphaBeta {
        polar_to_ab(x[0], fx_mul(x[1], self.bus.w_nom))
    }

    /// The line inputs: the voltage `u` on the "from" side, the bus voltage on
    /// the "to" side.
    pub open spec fn line_input_of(&self, x: Seq<Fxd>, u: Seq<Fxd>) -> Seq<Fxd> {
        seq![u[0], u[1], self.bus_voltage_of(x).alpha, self.bus_voltage_of(x).beta]
    }

    /// The bus dynamics in rows 0 and 1 and the line dynamics in the last rows
    /// (these win where the two overlap); zero elsewhere.
    pub open spec fn dynamics_of(&self, x: Seq<Fxd>, u: Seq<Fxd>) -> Seq<Fxd> {
        let d_bus = self.bus.dynamics_spec(seq![x[0], x[1]], seq![]);
        let d_line = self.line.dynamics_spec(
            last_rows(x, W::dim_spec()),
            self.line_input_of(x, u),
        );
        bus_and_line_rows(d_bus, d_line, V::dim_spec())
    }
}

impl<V: StateVector, W: StateVector, L: Line<W>> Dynamics<V, 2> for LineToBus<V, W, L> {
    /// The states hold the bus states and the line states, and the line
    /// dynamics are defined.
    open spec fn dynamics_ok(&self, x: Seq<Fxd>, u: Seq<Fxd>) -> bool {
        &&& V::dim_spec() >= 2
        &&& V::dim_spec() >= W::dim_spec()
        &&& self.line.dynamics_ok(last_rows(x, W::dim_spec()), self.line_input_of(x, u))
    }

    open spec fn dynamics_spec(&self, x: Seq<Fxd>, u: Seq<Fxd>) -> Seq<Fxd> {
        self.dynamics_of(x, u)
    }

    /// The bus dynamics, and the line dynamics between the voltage `u` and the
    /// bus voltage.
    fn dynamics(&self, x: &V, u: [Fxd; 2]) -> (dx: V) {
        let m = V::dim();
        let n = W::dim();
        let off = m - n;
        proof {
            V::lemma_items_len(x);
        }
        let x_bus = vec2_new(x.get(0), x.get(1));
        let mut x_line = W::zeros();
        let mut k: usize = 0;
        while k < n
            invariant
                k <= n,
                n == W::dim_spec(),
                m == V::dim_spec(),
                off == m - n,
                x.items().len() == m,
                x_line.items().len() == n,
                forall|j: int| 0 <= j < k ==> x_line.items()[j] == x.items()[off + j],
            decreases n - k,
        {
            let v = x.get(off + k);
            x_line.set(k, v);
            k = k + 1;
        }
        assert(x_line.items() =~= last_rows(x.items(), W::dim_spec()));
        let x_bus_alpha_beta = AlphaBeta::from_polar(
            vec2_get(&x_bus, 0),
            vec2_get(&x_bus, 1).mul(self.bus.w_nom),
        );
        let u_line = [u[0], u[1], x_bus_alpha_beta.alpha, x_bus_alpha_beta.beta];
        let no_input: [Fxd; 0] = [];
        assert(x_bus.items() =~= seq![x.items()[0], x.items()[1]]);
        assert(no_input@ =~= seq![]);
        assert(u_line@ =~= self.line_input_of(x.items(), u@));
        let dx_dt_bus = self.bus.dynamics(&x_bus, no_input);
        let dx_dt_line = self.line.dynamics(&x_line, u_line);
        proof {
            W::lemma_items_len(&dx_dt_line);
        }
        let ghost d_bus = dx_dt_bus.items();
        let ghost d_line = dx_dt_line.items();
        let mut dx = V::zeros();
        dx.set(0, vec2_get(&dx_dt_bus, 0));
        dx.set(1, vec2_get(&dx_dt_bus, 1));
        let mut k: usize = 0;
        while k < n
            invariant
                k <= n,
                n == W::dim_spec(),
                m == V::dim_spec(),
                m >= 2,
                off == m - n,
                d_line == dx_dt_line.items(),
                d_line.len() == n,
                dx.items().len() == m,
                forall|j: int| 0 <= j < k ==> dx.items()[off + j] == d_line[j],
                forall|j: int| 0 <= j < off && j < 2 ==> dx.items()[j] == d_bus[j],
                forall|j: int| 2 <= j < off ==> dx.items()[j] == zero(),
            decreases n - k,
        {
            let v = dx_dt_line.get(k);
            dx.set(off + k, v);
            k = k + 1;
        }
        assert(dx.items() =~= self.dynamics_of(x.items(), u@));
        dx
    }
}

impl<V: StateVector, W: StateVector, L: Line<W>> XState<V> for LineToBus<V, W, L> {
    open spec fn x_spec(&self) -> V {
        self.x
    }

    open spec fn with_x(&self, x: V) -> Self {
        LineToBus { x, ..*self }
    }

    fn get_x(&self) -> (r: &V) {
        &self.x
    }

    fn set_x(&mut self, x: V) {
        self.x = x;
    }
}

/// Connects a line to a bus. The states start zero with the bus states
/// (magnitude and angle) in rows 0 and 1 and then the line states from row
/// `n - 1` on, `n` being the number of line states; there must be room for
/// them (`2 n - 1` states at least, and two).
pub fn build_line_to_bus<V: StateVector, W: StateVector, L: Line<W>>(line: L, bus: AcVoltSrc) -> (r:
    LineToBus<V, W, L>)
    requires
        V::dim_spec() >= 2,
        2 * W::dim_spec() - 1 <= V::dim_spec(),
    ensures
        r.line == line,
        r.bus == bus,
        r.x.items() == built_line_to_bus_states(
            bus.x.items(),
            line.x_spec().items(),
            V::dim_spec(),
        ),
{
    let m = V::dim();
    let n = W::dim();
    let x_bus = bus.get_x();
    let x_line = line.get_x();
    proof {
        W::lemma_items_len(x_line);
    }
    let mut x = V::zeros();
    x.set(0, vec2_get(x_bus, 0));
    x.set(1, vec2_get(x_bus, 1));
    let ghost lx = x_line.items();
    let ghost bx = x_bus.items();
    let mut k: usize = 0;
    while k < n
        invariant
            k <= n,
            n == W::dim_spec(),
            m == V::dim_spec(),
            m >= 2,
            2 * n - 1 <= m,
            lx == x_line.items(),
            lx.len() == n,
            bx == x_bus.items(),
            x.items().len() == m,
            forall|j: int| 0 <= j < k ==> x.items()[n - 1 + j] == lx[j],
            forall|j: int| 0 <= j < 2 && (j < n - 1 || j >= n - 1 + k) ==> x.items()[j] == bx[j],
            forall|j: int| 2 <= j < m && (j < n - 1 || j >= n - 1 + k) ==> x.items()[j] == zero(),
        decreases n - k,
    {
        let v = x_line.get(k);
        x.set(n - 1 + k, v);
        k = k + 1;
    }
    assert(x.items() =~= built_line_to_bus_states(bx, lx, m as nat));
    LineToBus { line, bus, x, line_states: PhantomData }
}

/* Laws of the lines */

/// Setting the per-unit current of an RL branch and reading it back gives the
/// current that was set, and the current in amperes is that current times the
/// base current.
pub proof fn law_rl_pu_current_reads_back(b: RlBranch, next: RlBranch, i: (Fxd, Fxd))
    requires
        b.set_pu_current_post(next, i),
    ensures
        next.fr_pu_current_spec() == i,
        next.to_pu_current_spec() == i,
        next.current_spec() == (fx_mul(b.i_base, i.0), fx_mul(b.i_base, i.1)),
{
}

/// One axis of the RL branch dynamics `(v1 - v2 - rf i) / lf`: with equal
/// voltages a current decays (for positive `rf` and `lf`), and without current
/// the current grows in the direction of the voltage difference (positive
/// `lf`), when nothing wraps around.
proof fn lemma_rl_axis_sign(v1: Fxd, v2: Fxd, rf: Fxd, lf: Fxd, i: Fxd)
    ensures
        ({
            let r = fx_div(fx_sub(fx_sub(v1, v2), fx_mul(rf, i)), lf);
            let m = (rf.bits * i.bits) / 65536;
            let e = v1.bits - v2.bits;
            let nw1 = -0x8000_0000 < m < 0x8000_0000 && -0x8000_0000 <= trunc_div(-m * 65536, lf.bits as int)
                < 0x8000_0000;
            let nw2 = -0x8000_0000 <= e < 0x8000_0000 && -0x8000_0000 <= trunc_div(e * 65536, lf.bits as int)
                < 0x8000_0000;
            &&& lf.bits > 0 && v1 == v2 && rf.bits > 0 && nw1 && i.bits > 0 ==> r.bits <= 0
            &&& lf.bits > 0 && v1 == v2 && rf.bits > 0 && nw1 && i.bits < 0 ==> r.bits >= 0
            &&& lf.bits > 0 && i.bits == 0 && nw2 && e > 0 ==> r.bits >= 0
            &&& lf.bits > 0 && i.bits == 0 && nw2 && e < 0 ==> r.bits <= 0
        }),
{
    let m = (rf.bits * i.bits) / 65536;
    let e = v1.bits - v2.bits;
    if lf.bits > 0 && v1 == v2 && rf.bits > 0 && -0x8000_0000 < m < 0x8000_0000 && -0x8000_0000
        <= trunc_div(-m * 65536, lf.bits as int) < 0x8000_0000 && i.bits != 0 {
        lemma_fx_zero(v1);
        lemma_fx_mul_no_wrap(rf, i);
        let mm = fx_mul(rf, i);
        assert(mm.bits == m);
        lemma_fx_sub_no_wrap(fx_sub(v1, v2), mm);
        let a = fx_sub(fx_sub(v1, v2), mm);
        assert(a.bits == -m);
        lemma_fx_div_pos_no_wrap(a, lf);
        if i.bits > 0 {
            assert(rf.bits * i.bits > 0) by (nonlinear_arith)
                requires
                    rf.bits > 0,
                    i.bits > 0,
            ;
        } else {
            assert(rf.bits * i.bits < 0) by (nonlinear_arith)
                requires
                    rf.bits > 0,
                    i.bits < 0,
            ;
        }
    }
    if lf.bits > 0 && i.bits == 0 && -0x8000_0000 <= e < 0x8000_0000 && -0x8000_0000 <= trunc_div(
        e * 65536,
        lf.bits as int,
    ) < 0x8000_0000 {
        lemma_fx_zero(rf);
        assert(i == Fxd { bits: 0 });
        lemma_fx_sub_no_wrap(v1, v2);
        let d = fx_sub(v1, v2);
        lemma_fx_zero(d);
        assert(fx_sub(d, fx_mul(rf, i)) == d);
        lemma_fx_div_pos_no_wrap(d, lf);
    }
}

/// The RL branch current dynamics: with the switch open (the "from" side at
/// the "to" voltage) each current decays toward zero, and with the switch
/// closed and no current each current grows in the direction of the voltage
/// difference across the branch (for positive `rf` and `lf`, nothing wrapping
/// around).
pub proof fn law_rl_current_follows_the_voltage_difference(b: RlBranch, x: Seq<Fxd>, u: Seq<Fxd>)
    ensures
        ({
            let dx = b.dynamics_spec(x, u);
            &&& dx.len() == 2
            &&& forall|k: int|
                #![trigger dx[k]]
                0 <= k < 2 ==> {
                    let i = x[k];
                    let m = (b.rf.bits * i.bits) / 65536;
                    let nw1 = -0x8000_0000 < m < 0x8000_0000 && -0x8000_0000 <= trunc_div(
                        -m * 65536,
                        b.lf.bits as int,
                    ) < 0x8000_0000;
                    let e = u[k].bits - u[k + 2].bits;
                    let nw2 = -0x8000_0000 <= e < 0x8000_0000 && -0x8000_0000 <= trunc_div(
                        e * 65536,
                        b.lf.bits as int,
                    ) < 0x8000_0000;
                    &&& !b.switch_closed && b.lf.bits > 0 && b.rf.bits > 0 && nw1 && i.bits > 0
                        ==> dx[k].bits <= 0
                    &&& !b.switch_closed && b.lf.bits > 0 && b.rf.bits > 0 && nw1 && i.bits < 0
                        ==> dx[k].bits >= 0
                    &&& b.switch_closed && b.lf.bits > 0 && i.bits == 0 && nw2 && e > 0
                        ==> dx[k].bits >= 0
                    &&& b.switch_closed && b.lf.bits > 0 && i.bits == 0 && nw2 && e < 0
                        ==> dx[k].bits <= 0
                }
        }),
{
    let closed = b.switch_closed;
    let v1a = if closed { u[0] } else { u[2] };
    let v1b = if closed { u[1] } else { u[3] };
    lemma_rl_axis_sign(v1a, u[2], b.rf, b.lf, x[0]);
    lemma_rl_axis_sign(v1b, u[3], b.rf, b.lf, x[1]);
}

/// Setting the current of an RL branch in amperes and reading it back gives
/// the current that was set up to `|i_base| / 2^16 + 1` units of the last
/// place, when the base current is nonzero and the per-unit current fits the
/// fixed-point range (for every current when `|i_base| >= 1`).
pub proof fn law_rl_current_reads_back(b: RlBranch, next: RlBranch, i: (Fxd, Fxd))
    requires
        b.i_base.bits != 0,
        abs(i.0.bits as int) * 65536 <= abs(b.i_base.bits as int) * 0x7fff_ffff,
        abs(i.1.bits as int) * 65536 <= abs(b.i_base.bits as int) * 0x7fff_ffff,
        b.set_current_post(next, i),
    ensures
        abs(next.current_spec().0.bits - i.0.bits) * 65536 <= abs(b.i_base.bits as int) + 65536,
        abs(next.current_spec().1.bits - i.1.bits) * 65536 <= abs(b.i_base.bits as int) + 65536,
{
    law_div_then_mul_round_trip(i.0, b.i_base);
    law_div_then_mul_round_trip(i.1, b.i_base);
}

/// Setting a current of an LCL filter and reading it back gives the current
/// that was set; the current on the other side is kept.
pub proof fn law_lcl_current_reads_back(f: LclFilter, next: LclFilter, i: (Fxd, Fxd))
    ensures
        f.set_fr_current_post(next, i) ==> next.fr_pu_current_spec() == i
            && next.to_pu_current_spec() == f.to_pu_current_spec(),
        f.set_to_current_post(next, i) ==> next.to_pu_current_spec() == i
            && next.fr_pu_current_spec() == f.fr_pu_current_spec(),
{
}

} // verus!
