//! Objects with state dynamics, numerical integration of their states, and the
//! wrapping and saturation of selected states.
use crate::fixed_point::{
    fx_add, fx_div, fx_lt, fx_mul, fx_rem, fx_sub, Fxd, ONE_HALF_BITS, ONE_SIXTH_BITS, PI_BITS,
    TWO_BITS, trunc_rem,
};
use crate::reference_frames::fxc;
use crate::state::StateVector;
use vstd::prelude::*;

verus! {

/// The state dynamics of an object with state vector `V` and `U` inputs.
pub trait Dynamics<V: StateVector, const U: usize> {
    /// The states and inputs at which `dynamics` is defined (no division by zero).
    spec fn dynamics_ok(&self, x: Seq<Fxd>, u: Seq<Fxd>) -> bool;

    /// The derivative of the states `x` under the inputs `u`.
    spec fn dynamics_spec(&self, x: Seq<Fxd>, u: Seq<Fxd>) -> Seq<Fxd>;

    /// Returns the state dynamics for the given states `x` and inputs `u`.
    fn dynamics(&self, x: &V, u: [Fxd; U]) -> (dx: V)
        requires
            self.dynamics_ok(x.items(), u@),
        ensures
            dx.items() == self.dynamics_spec(x.items(), u@),
    ;
}

/// Access to the state vector of an object.
pub trait XState<V: StateVector>: Sized {
    /// The state vector.
    spec fn x_spec(&self) -> V;

    /// The object with its state vector replaced by `x` and all else kept.
    spec fn with_x(&self, x: V) -> Self;

    fn get_x(&self) -> (r: &V)
        ensures
            *r == self.x_spec(),
    ;

    fn set_x(&mut self, x: V)
        ensures
            *final(self) == old(self).with_x(x),
            final(self).x_spec() == x,
    ;
}

/// Objects that can step their states forward in time.
pub trait StepDynamics<V: StateVector, const U: usize>: XState<V> + Dynamics<V, U> {
    /// The step sizes and inputs for which `step` is defined.
    spec fn step_ok(&self, dt: Fxd, u: Seq<Fxd>) -> bool;

    /// What a step from `self` to `next` with the dynamics `dx` is.
    spec fn step_post(&self, next: Self, dt: Fxd, u: Seq<Fxd>, dx: Seq<Fxd>) -> bool;

    /// Steps the states by `dt` seconds under the inputs `u`; returns the
    /// dynamics used for the step.
    fn step(&mut self, dt: Fxd, u: [Fxd; U]) -> (dx: V)
        requires
            old(self).step_ok(dt, u@),
        ensures
            old(self).step_post(*final(self), dt, u@, dx.items()),
    ;
}

/// Stepping an object with all inputs zero.
pub trait NoInputStep<V: StateVector, const U: usize>: Sized {
    spec fn step_zero_ok(&self, dt: Fxd) -> bool;

    spec fn step_zero_post(&self, next: Self, dt: Fxd) -> bool;

    /// Steps the object with all-zero inputs.
    fn step_(&mut self, dt: Fxd)
        requires
            old(self).step_zero_ok(dt),
        ensures
            old(self).step_zero_post(*final(self), dt),
    ;
}

/// The numerical method used to step an object's states.
#[derive(Clone, Copy, PartialEq, Eq, Structural, Debug)]
pub enum StepMethod {
    ForwardEuler,
    Rk2,
    Rk4,
}

/* Vector arithmetic on state entries */

/// `x + k * h`, entry by entry, over the first `n` entries.
pub open spec fn axpy(x: Seq<Fxd>, k: Seq<Fxd>, h: Fxd, n: nat) -> Seq<Fxd> {
    Seq::new(n, |i: int| fx_add(x[i], fx_mul(k[i], h)))
}

/// `x + (k * h) * s`, entry by entry.
pub open spec fn axpy_scaled(x: Seq<Fxd>, k: Seq<Fxd>, h: Fxd, s: Fxd, n: nat) -> Seq<Fxd> {
    Seq::new(n, |i: int| fx_add(x[i], fx_mul(fx_mul(k[i], h), s)))
}

/// `(k1 + k2) * 0.5`, entry by entry.
pub open spec fn rk2_mix(k1: Seq<Fxd>, k2: Seq<Fxd>, n: nat) -> Seq<Fxd> {
    Seq::new(n, |i: int| fx_mul(fx_add(k1[i], k2[i]), fxc(ONE_HALF_BITS)))
}

/// `(k1 + 2 k2 + 2 k3 + k4) / 6`, entry by entry.
pub open spec fn rk4_mix(k1: Seq<Fxd>, k2: Seq<Fxd>, k3: Seq<Fxd>, k4: Seq<Fxd>, n: nat) -> Seq<
    Fxd,
> {
    Seq::new(
        n,
        |i: int|
            fx_mul(
                fx_add(
                    fx_add(
                        fx_add(k1[i], fx_mul(fxc(TWO_BITS), k2[i])),
                        fx_mul(fxc(TWO_BITS), k3[i]),
                    ),
                    k4[i],
                ),
                fxc(ONE_SIXTH_BITS),
            ),
    )
}

pub(crate) fn vec_axpy<V: StateVector>(x: &V, k: &V, h: Fxd) -> (r: V)
    ensures
        r.items() == axpy(x.items(), k.items(), h, V::dim_spec()),
{
    let n = V::dim();
    let mut r = V::zeros();
    let mut i: usize = 0;
    while i < n
        invariant
            n == V::dim_spec(),
            i <= n,
            r.items().len() == n,
            forall|j: int| 0 <= j < i ==> r.items()[j] == fx_add(x.items()[j], fx_mul(k.items()[j], h)),
        decreases n - i,
    {
        let v = x.get(i).add(k.get(i).mul(h));
        r.set(i, v);
        i = i + 1;
    }
    assert(r.items() =~= axpy(x.items(), k.items(), h, V::dim_spec()));
    r
}

pub(crate) fn vec_axpy_scaled<V: StateVector>(x: &V, k: &V, h: Fxd, s: Fxd) -> (r: V)
    ensures
        r.items() == axpy_scaled(x.items(), k.items(), h, s, V::dim_spec()),
{
    let n = V::dim();
    let mut r = V::zeros();
    let mut i: usize = 0;
    while i < n
        invariant
            n == V::dim_spec(),
            i <= n,
            r.items().len() == n,
            forall|j: int|
                0 <= j < i ==> r.items()[j] == fx_add(
                    x.items()[j],
                    fx_mul(fx_mul(k.items()[j], h), s),
                ),
        decreases n - i,
    {
        let v = x.get(i).add(k.get(i).mul(h).mul(s));
        r.set(i, v);
        i = i + 1;
    }
    assert(r.items() =~= axpy_scaled(x.items(), k.items(), h, s, V::dim_spec()));
    r
}

fn vec_rk2_mix<V: StateVector>(k1: &V, k2: &V) -> (r: V)
    ensures
        r.items() == rk2_mix(k1.items(), k2.items(), V::dim_spec()),
{
    let n = V::dim();
    let mut r = V::zeros();
    let half = Fxd { bits: ONE_HALF_BITS };
    let mut i: usize = 0;
    while i < n
        invariant
            n == V::dim_spec(),
            i <= n,
            r.items().len() == n,
            half == fxc(ONE_HALF_BITS),
            forall|j: int|
                0 <= j < i ==> r.items()[j] == fx_mul(fx_add(k1.items()[j], k2.items()[j]), half),
        decreases n - i,
    {
        let v = k1.get(i).add(k2.get(i)).mul(half);
        r.set(i, v);
        i = i + 1;
    }
    assert(r.items() =~= rk2_mix(k1.items(), k2.items(), V::dim_spec()));
    r
}

fn vec_rk4_mix<V: StateVector>(k1: &V, k2: &V, k3: &V, k4: &V) -> (r: V)
    ensures
        r.items() == rk4_mix(k1.items(), k2.items(), k3.items(), k4.items(), V::dim_spec()),
{
    let n = V::dim();
    let mut r = V::zeros();
    let two = Fxd { bits: TWO_BITS };
    let sixth = Fxd { bits: ONE_SIXTH_BITS };
    let mut i: usize = 0;
    while i < n
        invariant
            n == V::dim_spec(),
            i <= n,
            r.items().len() == n,
            two == fxc(TWO_BITS),
            sixth == fxc(ONE_SIXTH_BITS),
            forall|j: int|
                0 <= j < i ==> r.items()[j] == fx_mul(
                    fx_add(
                        fx_add(
                            fx_add(k1.items()[j], fx_mul(two, k2.items()[j])),
                            fx_mul(two, k3.items()[j]),
                        ),
                        k4.items()[j],
                    ),
                    sixth,
                ),
        decreases n - i,
    {
        let v = k1.get(i).add(two.mul(k2.get(i))).add(two.mul(k3.get(i))).add(k4.get(i)).mul(
            sixth,
        );
        r.set(i, v);
        i = i + 1;
    }
    assert(r.items() =~= rk4_mix(k1.items(), k2.items(), k3.items(), k4.items(), V::dim_spec()));
    r
}

/* Integration methods */

/// The second-order Runge-Kutta (Heun) increment `(k1 + k2) / 2`.
pub open spec fn rk2_dx<V: StateVector, C: Dynamics<V, U>, const U: usize>(
    c: C,
    x: Seq<Fxd>,
    u: Seq<Fxd>,
    dt: Fxd,
) -> Seq<Fxd> {
    let k1 = c.dynamics_spec(x, u);
    let k2 = c.dynamics_spec(axpy(x, k1, dt, V::dim_spec()), u);
    rk2_mix(k1, k2, V::dim_spec())
}

pub open spec fn rk2_ok<V: StateVector, C: Dynamics<V, U>, const U: usize>(
    c: C,
    x: Seq<Fxd>,
    u: Seq<Fxd>,
    dt: Fxd,
) -> bool {
    c.dynamics_ok(x, u) && c.dynamics_ok(axpy(x, c.dynamics_spec(x, u), dt, V::dim_spec()), u)
}

/// The classical fourth-order Runge-Kutta increment.
pub open spec fn rk4_dx<V: StateVector, C: Dynamics<V, U>, const U: usize>(
    c: C,
    x: Seq<Fxd>,
    u: Seq<Fxd>,
    dt: Fxd,
) -> Seq<Fxd> {
    let n = V::dim_spec();
    let half = fxc(ONE_HALF_BITS);
    let k1 = c.dynamics_spec(x, u);
    let k2 = c.dynamics_spec(axpy_scaled(x, k1, dt, half, n), u);
    let k3 = c.dynamics_spec(axpy_scaled(x, k2, dt, half, n), u);
    let k4 = c.dynamics_spec(axpy(x, k3, dt, n), u);
    rk4_mix(k1, k2, k3, k4, n)
}

pub open spec fn rk4_ok<V: StateVector, C: Dynamics<V, U>, const U: usize>(
    c: C,
    x: Seq<Fxd>,
    u: Seq<Fxd>,
    dt: Fxd,
) -> bool {
    let n = V::dim_spec();
    let half = fxc(ONE_HALF_BITS);
    let k1 = c.dynamics_spec(x, u);
    let k2 = c.dynamics_spec(axpy_scaled(x, k1, dt, half, n), u);
    let k3 = c.dynamics_spec(axpy_scaled(x, k2, dt, half, n), u);
    &&& c.dynamics_ok(x, u)
    &&& c.dynamics_ok(axpy_scaled(x, k1, dt, half, n), u)
    &&& c.dynamics_ok(axpy_scaled(x, k2, dt, half, n), u)
    &&& c.dynamics_ok(axpy(x, k3, dt, n), u)
}

/// Steps a component's states by `dt` with the first-order forward Euler
/// method and returns the dynamics used.
pub fn forward_euler_step<V: StateVector, C: XState<V> + Dynamics<V, U>, const U: usize>(
    component: &mut C,
    dt: Fxd,
    u: [Fxd; U],
) -> (dx: V)
    requires
        old(component).dynamics_ok(old(component).x_spec().items(), u@),
    ensures
        dx.items() == old(component).dynamics_spec(old(component).x_spec().items(), u@),
        *final(component) == old(component).with_x(final(component).x_spec()),
        final(component).x_spec().items() == axpy(
            old(component).x_spec().items(),
            dx.items(),
            dt,
            V::dim_spec(),
        ),
{
    let x = *component.get_x();
    let dx_dt = component.dynamics(&x, u);
    let x1 = vec_axpy(&x, &dx_dt, dt);
    component.set_x(x1);
    dx_dt
}

/// Steps a component's states by `dt` with the second-order Runge-Kutta
/// (Heun) method and returns the dynamics used.
pub fn rk2_step<V: StateVector, C: XState<V> + Dynamics<V, U>, const U: usize>(
    component: &mut C,
    dt: Fxd,
    u: [Fxd; U],
) -> (dx: V)
    requires
        rk2_ok::<V, C, U>(*old(component), old(component).x_spec().items(), u@, dt),
    ensures
        dx.items() == rk2_dx::<V, C, U>(*old(component), old(component).x_spec().items(), u@, dt),
        *final(component) == old(component).with_x(final(component).x_spec()),
        final(component).x_spec().items() == axpy(
            old(component).x_spec().items(),
            dx.items(),
            dt,
            V::dim_spec(),
        ),
{
    let x = *component.get_x();
    let dx_dt1 = component.dynamics(&x, u);
    let x2 = vec_axpy(&x, &dx_dt1, dt);
    let dx_dt2 = component.dynamics(&x2, u);
    let dx_dt = vec_rk2_mix(&dx_dt1, &dx_dt2);
    let x1 = vec_axpy(&x, &dx_dt, dt);
    component.set_x(x1);
    dx_dt
}

/// Steps a component's states by `dt` with the classical fourth-order
/// Runge-Kutta method and returns the dynamics used.
pub fn rk4_step<V: StateVector, C: XState<V> + Dynamics<V, U>, const U: usize>(
    component: &mut C,
    dt: Fxd,
    u: [Fxd; U],
) -> (dx: V)
    requires
        rk4_ok::<V, C, U>(*old(component), old(component).x_spec().items(), u@, dt),
    ensures
        dx.items() == rk4_dx::<V, C, U>(*old(component), old(component).x_spec().items(), u@, dt),
        *final(component) == old(component).with_x(final(component).x_spec()),
        final(component).x_spec().items() == axpy(
            old(component).x_spec().items(),
            dx.items(),
            dt,
            V::dim_spec(),
        ),
{
    let half = Fxd { bits: ONE_HALF_BITS };
    let x = *component.get_x();
    let dx_dt1 = component.dynamics(&x, u);
    let x2 = vec_axpy_scaled(&x, &dx_dt1, dt, half);
    let dx_dt2 = component.dynamics(&x2, u);
    let x3 = vec_axpy_scaled(&x, &dx_dt2, dt, half);
    let dx_dt3 = component.dynamics(&x3, u);
    let x4 = vec_axpy(&x, &dx_dt3, dt);
    let dx_dt4 = component.dynamics(&x4, u);
    let dx_dt = vec_rk4_mix(&dx_dt1, &dx_dt2, &dx_dt3, &dx_dt4);
    let x1 = vec_axpy(&x, &dx_dt, dt);
    component.set_x(x1);
    dx_dt
}

/// What stepping with a method gives: the dynamics used.
pub open spec fn method_dx<V: StateVector, C: Dynamics<V, U>, const U: usize>(
    m: StepMethod,
    c: C,
    x: Seq<Fxd>,
    u: Seq<Fxd>,
    dt: Fxd,
) -> Seq<Fxd> {
    match m {
        StepMethod::ForwardEuler => c.dynamics_spec(x, u),
        StepMethod::Rk2 => rk2_dx::<V, C, U>(c, x, u, dt),
        StepMethod::Rk4 => rk4_dx::<V, C, U>(c, x, u, dt),
    }
}

pub open spec fn method_ok<V: StateVector, C: Dynamics<V, U>, const U: usize>(
    m: StepMethod,
    c: C,
    x: Seq<Fxd>,
    u: Seq<Fxd>,
    dt: Fxd,
) -> bool {
    match m {
        StepMethod::ForwardEuler => c.dynamics_ok(x, u),
        StepMethod::Rk2 => rk2_ok::<V, C, U>(c, x, u, dt),
        StepMethod::Rk4 => rk4_ok::<V, C, U>(c, x, u, dt),
    }
}

/// Steps a component with the given method.
pub fn step_with<V: StateVector, C: XState<V> + Dynamics<V, U>, const U: usize>(
    method: StepMethod,
    component: &mut C,
    dt: Fxd,
    u: [Fxd; U],
) -> (dx: V)
    requires
        method_ok::<V, C, U>(method, *old(component), old(component).x_spec().items(), u@, dt),
    ensures
        dx.items() == method_dx::<V, C, U>(
            method,
            *old(component),
            old(component).x_spec().items(),
            u@,
            dt,
        ),
        *final(component) == old(component).with_x(final(component).x_spec()),
        final(component).x_spec().items() == axpy(
            old(component).x_spec().items(),
            dx.items(),
            dt,
            V::dim_spec(),
        ),
{
    match method {
        StepMethod::ForwardEuler => forward_euler_step(component, dt, u),
        StepMethod::Rk2 => rk2_step(component, dt, u),
        StepMethod::Rk4 => rk4_step(component, dt, u),
    }
}

/* State wrapping and saturation */

/// The indices of the states that need wrapping or saturation, with their
/// lower and upper limits.
pub struct StateLimits<const N: usize> {
    pub idxs: [usize; N],
    pub mins: [Fxd; N],
    pub maxs: [Fxd; N],
}

impl<const N: usize> StateLimits<N> {
    pub fn new(idxs: [usize; N], mins: [Fxd; N], maxs: [Fxd; N]) -> (r: StateLimits<N>)
        ensures
            r.idxs == idxs,
            r.mins == mins,
            r.maxs == maxs,
    {
        StateLimits { idxs, mins, maxs }
    }
}

/// The period `2 pi / w_nom` of an angle state that is kept in per unit.
pub open spec fn theta_period(w_nom: Fxd) -> Fxd {
    fx_div(fx_mul(fxc(TWO_BITS), fxc(PI_BITS)), w_nom)
}

impl StateLimits<1> {
    /// Limits that wrap the angle state at `idxs` between zero and one period.
    pub fn new_theta_wrap(idxs: [usize; 1], w_nom: Fxd) -> (r: StateLimits<1>)
        requires
            w_nom.bits != 0,
        ensures
            r.idxs == idxs,
            r.mins@ == seq![Fxd { bits: 0 }],
            r.maxs@ == seq![theta_period(w_nom)],
    {
        let period = Fxd { bits: TWO_BITS }.mul(Fxd { bits: PI_BITS }).div(w_nom);
        let r = StateLimits { idxs, mins: [Fxd { bits: 0 }], maxs: [period] };
        assert(r.mins@ =~= seq![Fxd { bits: 0 }]);
        assert(r.maxs@ =~= seq![theta_period(w_nom)]);
        r
    }
}

/// All limit indices address a state.
pub open spec fn idxs_in_range(idxs: Seq<usize>, dim: nat) -> bool {
    forall|i: int| 0 <= i < idxs.len() ==> idxs[i] < dim
}

/// The states after wrapping, in order, the first `k` limited states: a state
/// above its upper limit is replaced by its remainder modulo that limit.
pub open spec fn wrap_angle_spec(x: Seq<Fxd>, idxs: Seq<usize>, maxs: Seq<Fxd>, k: nat) -> Seq<Fxd>
    decreases k,
{
    if k == 0 {
        x
    } else {
        let prev = wrap_angle_spec(x, idxs, maxs, (k - 1) as nat);
        let j = idxs[k - 1] as int;
        if fx_lt(maxs[k - 1], prev[j]) {
            prev.update(j, fx_rem(prev[j], maxs[k - 1]))
        } else {
            prev
        }
    }
}

/// No remainder by a zero limit occurs while wrapping the first `k` states.
pub open spec fn wrap_angle_ok(x: Seq<Fxd>, idxs: Seq<usize>, maxs: Seq<Fxd>, k: nat) -> bool
    decreases k,
{
    if k == 0 {
        true
    } else {
        let prev = wrap_angle_spec(x, idxs, maxs, (k - 1) as nat);
        let j = idxs[k - 1] as int;
        wrap_angle_ok(x, idxs, maxs, (k - 1) as nat) && (fx_lt(maxs[k - 1], prev[j])
            ==> maxs[k - 1].bits != 0)
    }
}

/// Cheap wrapping of angle states that only increase: each listed state above
/// its upper limit is replaced by its remainder modulo the limit.
pub fn wrap_angle<V: StateVector, const N: usize>(x: &mut V, wrap_info: &StateLimits<N>)
    requires
        idxs_in_range(wrap_info.idxs@, V::dim_spec()),
        wrap_angle_ok(old(x).items(), wrap_info.idxs@, wrap_info.maxs@, N as nat),
    ensures
        final(x).items() == wrap_angle_spec(
            old(x).items(),
            wrap_info.idxs@,
            wrap_info.maxs@,
            N as nat,
        ),
{
    let ghost x0 = x.items();
    let mut i: usize = 0;
    while i < N
        invariant
            i <= N,
            idxs_in_range(wrap_info.idxs@, V::dim_spec()),
            wrap_angle_ok(x0, wrap_info.idxs@, wrap_info.maxs@, N as nat),
            x.items() == wrap_angle_spec(x0, wrap_info.idxs@, wrap_info.maxs@, i as nat),
        decreases N - i,
    {
        proof {
            lemma_wrap_angle_ok_prefix(x0, wrap_info.idxs@, wrap_info.maxs@, N as nat, (i + 1) as nat);
        }
        let idx = wrap_info.idxs[i];
        let max = wrap_info.maxs[i];
        let v = x.get(idx);
        if v.bits > max.bits {
            x.set(idx, v.rem(max));
        }
        i = i + 1;
    }
}

/// Wrapping a single listed angle is defined exactly when the angle is not
/// above a zero limit.
pub(crate) proof fn lemma_wrap_angle_ok_single(y: Seq<Fxd>, idxs: Seq<usize>, maxs: Seq<Fxd>)
    ensures
        wrap_angle_ok(y, idxs, maxs, 1) == (fx_lt(maxs[0], y[idxs[0] as int]) ==> maxs[0].bits
            != 0),
{
    assert(wrap_angle_spec(y, idxs, maxs, 0) == y);
    assert(wrap_angle_ok(y, idxs, maxs, 0));
}

proof fn lemma_wrap_angle_ok_prefix(x: Seq<Fxd>, idxs: Seq<usize>, maxs: Seq<Fxd>, k: nat, j: nat)
    requires
        wrap_angle_ok(x, idxs, maxs, k),
        j <= k,
    ensures
        wrap_angle_ok(x, idxs, maxs, j),
    decreases k,
{
    if j < k {
        lemma_wrap_angle_ok_prefix(x, idxs, maxs, (k - 1) as nat, j);
    }
}

/// The states after wrapping the first `k` limited states between their
/// limits: above the upper limit the state becomes
/// `(x - min) % (max - min) + min`, below the lower limit
/// `(x - min) % (max - min) + max`, and within the limits it stays.
pub open spec fn wrap_states_spec(
    x: Seq<Fxd>,
    idxs: Seq<usize>,
    mins: Seq<Fxd>,
    maxs: Seq<Fxd>,
    k: nat,
) -> Seq<Fxd>
    decreases k,
{
    if k == 0 {
        x
    } else {
        let prev = wrap_states_spec(x, idxs, mins, maxs, (k - 1) as nat);
        let j = idxs[k - 1] as int;
        let lo = mins[k - 1];
        let hi = maxs[k - 1];
        if fx_lt(hi, prev[j]) {
            prev.update(j, fx_add(fx_rem(fx_sub(prev[j], lo), fx_sub(hi, lo)), lo))
        } else if fx_lt(prev[j], lo) {
            prev.update(j, fx_add(fx_rem(fx_sub(prev[j], lo), fx_sub(hi, lo)), hi))
        } else {
            prev
        }
    }
}

/// No remainder by a zero span occurs while wrapping the first `k` states.
pub open spec fn wrap_states_ok(
    x: Seq<Fxd>,
    idxs: Seq<usize>,
    mins: Seq<Fxd>,
    maxs: Seq<Fxd>,
    k: nat,
) -> bool
    decreases k,
{
    if k == 0 {
        true
    } else {
        let prev = wrap_states_spec(x, idxs, mins, maxs, (k - 1) as nat);
        let j = idxs[k - 1] as int;
        wrap_states_ok(x, idxs, mins, maxs, (k - 1) as nat) && ((fx_lt(maxs[k - 1], prev[j])
            || fx_lt(prev[j], mins[k - 1])) ==> fx_sub(maxs[k - 1], mins[k - 1]).bits != 0)
    }
}

proof fn lemma_wrap_states_ok_prefix(
    x: Seq<Fxd>,
    idxs: Seq<usize>,
    mins: Seq<Fxd>,
    maxs: Seq<Fxd>,
    k: nat,
    j: nat,
)
    requires
        wrap_states_ok(x, idxs, mins, maxs, k),
        j <= k,
    ensures
        wrap_states_ok(x, idxs, mins, maxs, j),
    decreases k,
{
    if j < k {
        lemma_wrap_states_ok_prefix(x, idxs, mins, maxs, (k - 1) as nat, j);
    }
}

/// Wraps the listed states around between their lower and upper limits;
/// states within their limits stay.
pub fn wrap_states<V: StateVector, const N: usize>(x: &mut V, wrap_info: &StateLimits<N>)
    requires
        idxs_in_range(wrap_info.idxs@, V::dim_spec()),
        wrap_states_ok(old(x).items(), wrap_info.idxs@, wrap_info.mins@, wrap_info.maxs@, N as nat),
    ensures
        final(x).items() == wrap_states_spec(
            old(x).items(),
            wrap_info.idxs@,
            wrap_info.mins@,
            wrap_info.maxs@,
            N as nat,
        ),
{
    let ghost x0 = x.items();
    let mut i: usize = 0;
    while i < N
        invariant
            i <= N,
            idxs_in_range(wrap_info.idxs@, V::dim_spec()),
            wrap_states_ok(x0, wrap_info.idxs@, wrap_info.mins@, wrap_info.maxs@, N as nat),
            x.items() == wrap_states_spec(
                x0,
                wrap_info.idxs@,
                wrap_info.mins@,
                wrap_info.maxs@,
                i as nat,
            ),
        decreases N - i,
    {
        proof {
            lemma_wrap_states_ok_prefix(
                x0,
                wrap_info.idxs@,
                wrap_info.mins@,
                wrap_info.maxs@,
                N as nat,
                (i + 1) as nat,
            );
        }
        let idx = wrap_info.idxs[i];
        let lo = wrap_info.mins[i];
        let hi = wrap_info.maxs[i];
        let v = x.get(idx);
        if v.bits > hi.bits {
            x.set(idx, v.sub(lo).rem(hi.sub(lo)).add(lo));
        } else if v.bits < lo.bits {
            x.set(idx, v.sub(lo).rem(hi.sub(lo)).add(hi));
        }
        i = i + 1;
    }
}

/// The states after saturating, in order, the first `k` limited states.
pub open spec fn saturate_spec(
    x: Seq<Fxd>,
    idxs: Seq<usize>,
    mins: Seq<Fxd>,
    maxs: Seq<Fxd>,
    k: nat,
) -> Seq<Fxd>
    decreases k,
{
    if k == 0 {
        x
    } else {
        let prev = saturate_spec(x, idxs, mins, maxs, (k - 1) as nat);
        let j = idxs[k - 1] as int;
        if fx_lt(maxs[k - 1], prev[j]) {
            prev.update(j, maxs[k - 1])
        } else if fx_lt(prev[j], mins[k - 1]) {
            prev.update(j, mins[k - 1])
        } else {
            prev
        }
    }
}

/// Saturates the listed states at their lower and upper limits.
pub fn saturate_states<V: StateVector, const N: usize>(x: &mut V, sat_info: &StateLimits<N>)
    requires
        idxs_in_range(sat_info.idxs@, V::dim_spec()),
    ensures
        final(x).items() == saturate_spec(
            old(x).items(),
            sat_info.idxs@,
            sat_info.mins@,
            sat_info.maxs@,
            N as nat,
        ),
{
    let ghost x0 = x.items();
    let mut i: usize = 0;
    while i < N
        invariant
            i <= N,
            idxs_in_range(sat_info.idxs@, V::dim_spec()),
            x.items() == saturate_spec(x0, sat_info.idxs@, sat_info.mins@, sat_info.maxs@, i as nat),
        decreases N - i,
    {
        let idx = sat_info.idxs[i];
        let v = x.get(idx);
        if v.bits > sat_info.maxs[i].bits {
            x.set(idx, sat_info.maxs[i]);
        } else if v.bits < sat_info.mins[i].bits {
            x.set(idx, sat_info.mins[i]);
        }
        i = i + 1;
    }
}

/* Laws of wrapping and saturation */

/// No index occurs twice among the first `n` limit indices.
pub open spec fn idxs_distinct(idxs: Seq<usize>, n: nat) -> bool {
    forall|a: int, b: int| 0 <= a < b < n ==> idxs[a] != idxs[b]
}

/// Each of the first `n` lower limits is at most its upper limit.
pub open spec fn limits_ordered(mins: Seq<Fxd>, maxs: Seq<Fxd>, n: nat) -> bool {
    forall|k: int| 0 <= k < n ==> mins[k].bits <= maxs[k].bits
}

/// The state `j` is none of the first `n` limited states.
pub open spec fn not_listed(idxs: Seq<usize>, n: nat, j: int) -> bool {
    forall|k: int| 0 <= k < n ==> idxs[k] != j
}

/// Every one of the first `n` limited states lies within its limits.
pub open spec fn within_limits(x: Seq<Fxd>, idxs: Seq<usize>, mins: Seq<Fxd>, maxs: Seq<Fxd>, n: nat) -> bool {
    forall|k: int| 0 <= k < n ==> mins[k].bits <= #[trigger] x[idxs[k] as int].bits <= maxs[k].bits
}

/// `x` saturated at `[lo, hi]`: the upper limit above it, the lower limit
/// below, itself in between (the upper limit is tested first).
pub open spec fn saturated(x: Fxd, lo: Fxd, hi: Fxd) -> Fxd {
    if fx_lt(hi, x) {
        hi
    } else if fx_lt(x, lo) {
        lo
    } else {
        x
    }
}

/// Saturation keeps the number of states, brings every listed state within
/// its limits and leaves the other states as they were, when the listed
/// indices are distinct and no lower limit exceeds its upper limit.
pub proof fn law_saturate_within_limits(
    x: Seq<Fxd>,
    idxs: Seq<usize>,
    mins: Seq<Fxd>,
    maxs: Seq<Fxd>,
    n: nat,
)
    requires
        n <= idxs.len(),
        idxs_in_range(idxs, x.len()),
        idxs_distinct(idxs, n),
        limits_ordered(mins, maxs, n),
    ensures
        saturate_spec(x, idxs, mins, maxs, n).len() == x.len(),
        within_limits(saturate_spec(x, idxs, mins, maxs, n), idxs, mins, maxs, n),
        forall|k: int|
            0 <= k < n ==> #[trigger] saturate_spec(x, idxs, mins, maxs, n)[idxs[k] as int] == saturated(
                x[idxs[k] as int],
                mins[k],
                maxs[k],
            ),
        forall|j: int|
            0 <= j < x.len() && not_listed(idxs, n, j) ==> #[trigger] saturate_spec(
                x,
                idxs,
                mins,
                maxs,
                n,
            )[j] == x[j],
    decreases n,
{
    if n > 0 {
        let m = (n - 1) as nat;
        law_saturate_within_limits(x, idxs, mins, maxs, m);
        let prev = saturate_spec(x, idxs, mins, maxs, m);
        let cur = saturate_spec(x, idxs, mins, maxs, n);
        let j = idxs[m as int] as int;
        assert(0 <= j < x.len());
        assert forall|k: int| 0 <= k < n implies mins[k].bits <= #[trigger] cur[idxs[k] as int].bits
            <= maxs[k].bits by {
            if k < m {
                assert(idxs[k] != idxs[m as int]);
                assert(cur[idxs[k] as int] == prev[idxs[k] as int]);
            }
        }
        assert forall|k: int| 0 <= k < n implies #[trigger] cur[idxs[k] as int] == saturated(
            x[idxs[k] as int],
            mins[k],
            maxs[k],
        ) by {
            if k < m {
                assert(idxs[k] != idxs[m as int]);
                assert(cur[idxs[k] as int] == prev[idxs[k] as int]);
            }
        }
        assert forall|i: int| 0 <= i < x.len() && not_listed(idxs, n, i) implies #[trigger] cur[i]
            == x[i] by {
            assert(idxs[m as int] != i);
            assert(not_listed(idxs, m, i));
        }
    }
}

/// Saturating states that already lie within their limits changes nothing.
proof fn lemma_saturate_within_unchanged(
    y: Seq<Fxd>,
    idxs: Seq<usize>,
    mins: Seq<Fxd>,
    maxs: Seq<Fxd>,
    n: nat,
)
    requires
        n <= idxs.len(),
        idxs_in_range(idxs, y.len()),
        within_limits(y, idxs, mins, maxs, n),
    ensures
        saturate_spec(y, idxs, mins, maxs, n) == y,
    decreases n,
{
    if n > 0 {
        let m = (n - 1) as nat;
        lemma_saturate_within_unchanged(y, idxs, mins, maxs, m);
        assert(mins[m as int].bits <= y[idxs[m as int] as int].bits <= maxs[m as int].bits);
    }
}

/// Saturating twice gives what saturating once gives, when the listed indices
/// are distinct and no lower limit exceeds its upper limit.
pub proof fn law_saturate_idempotent(
    x: Seq<Fxd>,
    idxs: Seq<usize>,
    mins: Seq<Fxd>,
    maxs: Seq<Fxd>,
    n: nat,
)
    requires
        n <= idxs.len(),
        idxs_in_range(idxs, x.len()),
        idxs_distinct(idxs, n),
        limits_ordered(mins, maxs, n),
    ensures
        saturate_spec(saturate_spec(x, idxs, mins, maxs, n), idxs, mins, maxs, n)
            == saturate_spec(x, idxs, mins, maxs, n),
{
    law_saturate_within_limits(x, idxs, mins, maxs, n);
    lemma_saturate_within_unchanged(saturate_spec(x, idxs, mins, maxs, n), idxs, mins, maxs, n);
}

/// `x` wrapped at the upper limit `hi`: its remainder modulo `hi` above it,
/// itself otherwise.
pub open spec fn wrapped_angle(x: Fxd, hi: Fxd) -> Fxd {
    if fx_lt(hi, x) {
        fx_rem(x, hi)
    } else {
        x
    }
}

/// With positive upper limits and distinct indices, wrapping angles never
/// takes a remainder by zero, keeps the number of states, replaces each listed
/// state above its limit by its remainder modulo the limit and keeps the
/// others, leaves every listed state at or below its upper limit, brings
/// every listed state that starts at or above zero (or above its limit) into
/// `[0, max]`, and leaves the other states as they were.
pub proof fn law_wrap_angle_below_limit(x: Seq<Fxd>, idxs: Seq<usize>, maxs: Seq<Fxd>, n: nat)
    requires
        n <= idxs.len(),
        idxs_in_range(idxs, x.len()),
        idxs_distinct(idxs, n),
        forall|k: int| 0 <= k < n ==> maxs[k].bits > 0,
    ensures
        wrap_angle_ok(x, idxs, maxs, n),
        wrap_angle_spec(x, idxs, maxs, n).len() == x.len(),
        forall|k: int|
            0 <= k < n ==> #[trigger] wrap_angle_spec(x, idxs, maxs, n)[idxs[k] as int]
                == wrapped_angle(x[idxs[k] as int], maxs[k]),
        forall|k: int|
            0 <= k < n ==> #[trigger] wrap_angle_spec(x, idxs, maxs, n)[idxs[k] as int].bits
                <= maxs[k].bits,
        forall|k: int|
            0 <= k < n && (x[idxs[k] as int].bits > maxs[k].bits || x[idxs[k] as int].bits >= 0)
                ==> 0 <= #[trigger] wrap_angle_spec(
                x,
                idxs,
                maxs,
                n,
            )[idxs[k] as int].bits,
        forall|j: int|
            0 <= j < x.len() && not_listed(idxs, n, j) ==> #[trigger] wrap_angle_spec(
                x,
                idxs,
                maxs,
                n,
            )[j] == x[j],
    decreases n,
{
    if n > 0 {
        let m = (n - 1) as nat;
        law_wrap_angle_below_limit(x, idxs, maxs, m);
        let prev = wrap_angle_spec(x, idxs, maxs, m);
        let cur = wrap_angle_spec(x, idxs, maxs, n);
        let j = idxs[m as int] as int;
        assert(0 <= j < x.len());
        assert(not_listed(idxs, m, j));
        assert(prev[j] == x[j]);
        let mx = maxs[m as int];
        if fx_lt(mx, prev[j]) {
            let v = prev[j].bits as int;
            let r = trunc_rem(v, mx.bits as int);
            assert(r == v % (mx.bits as int));
            assert(0 <= r < mx.bits);
        }
        assert forall|k: int| 0 <= k < n implies #[trigger] cur[idxs[k] as int].bits <= maxs[k].bits by {
            if k < m {
                assert(idxs[k] != idxs[m as int]);
            }
        }
        assert forall|k: int| 0 <= k < n implies #[trigger] cur[idxs[k] as int] == wrapped_angle(
            x[idxs[k] as int],
            maxs[k],
        ) by {
            if k < m {
                assert(idxs[k] != idxs[m as int]);
            }
        }
        assert forall|k: int|
            0 <= k < n && (x[idxs[k] as int].bits > maxs[k].bits || x[idxs[k] as int].bits >= 0)
                implies 0 <= #[trigger] cur[idxs[k] as int].bits by {
            if k < m {
                assert(idxs[k] != idxs[m as int]);
            }
        }
        assert forall|i: int| 0 <= i < x.len() && not_listed(idxs, n, i) implies #[trigger] cur[i]
            == x[i] by {
            assert(idxs[m as int] != i);
            assert(not_listed(idxs, m, i));
        }
    }
}

/// Wrapping angles that already lie at or below their limits changes nothing.
proof fn lemma_wrap_angle_below_unchanged(y: Seq<Fxd>, idxs: Seq<usize>, maxs: Seq<Fxd>, n: nat)
    requires
        n <= idxs.len(),
        idxs_in_range(idxs, y.len()),
        forall|k: int| 0 <= k < n ==> #[trigger] y[idxs[k] as int].bits <= maxs[k].bits,
    ensures
        wrap_angle_spec(y, idxs, maxs, n) == y,
    decreases n,
{
    if n > 0 {
        let m = (n - 1) as nat;
        lemma_wrap_angle_below_unchanged(y, idxs, maxs, m);
        assert(y[idxs[m as int] as int].bits <= maxs[m as int].bits);
    }
}

/// Wrapping angles twice gives what wrapping once gives, when the upper
/// limits are positive and the listed indices distinct.
pub proof fn law_wrap_angle_idempotent(x: Seq<Fxd>, idxs: Seq<usize>, maxs: Seq<Fxd>, n: nat)
    requires
        n <= idxs.len(),
        idxs_in_range(idxs, x.len()),
        idxs_distinct(idxs, n),
        forall|k: int| 0 <= k < n ==> maxs[k].bits > 0,
    ensures
        wrap_angle_ok(wrap_angle_spec(x, idxs, maxs, n), idxs, maxs, n),
        wrap_angle_spec(wrap_angle_spec(x, idxs, maxs, n), idxs, maxs, n)
            == wrap_angle_spec(x, idxs, maxs, n),
{
    law_wrap_angle_below_limit(x, idxs, maxs, n);
    let y = wrap_angle_spec(x, idxs, maxs, n);
    law_wrap_angle_below_limit(y, idxs, maxs, n);
    lemma_wrap_angle_below_unchanged(y, idxs, maxs, n);
}

/// With distinct indices and each lower limit strictly below its upper limit
/// by a span that fits the fixed-point range, wrapping between limits never
/// takes a remainder by zero, keeps the number of states, leaves a listed
/// state within its limits as it is, brings every other listed state into
/// `[min, max]` when its offset `x - min` fits the range too, and leaves the
/// unlisted states as they were.
pub proof fn law_wrap_states_within_limits(
    x: Seq<Fxd>,
    idxs: Seq<usize>,
    mins: Seq<Fxd>,
    maxs: Seq<Fxd>,
    n: nat,
)
    requires
        n <= idxs.len(),
        idxs_in_range(idxs, x.len()),
        idxs_distinct(idxs, n),
        forall|k: int|
            0 <= k < n ==> mins[k].bits < maxs[k].bits && maxs[k].bits - mins[k].bits
                <= 0x7fff_ffff,
    ensures
        wrap_states_ok(x, idxs, mins, maxs, n),
        wrap_states_spec(x, idxs, mins, maxs, n).len() == x.len(),
        forall|k: int|
            0 <= k < n && mins[k].bits <= x[idxs[k] as int].bits <= maxs[k].bits
                ==> #[trigger] wrap_states_spec(x, idxs, mins, maxs, n)[idxs[k] as int]
                == x[idxs[k] as int],
        forall|k: int|
            0 <= k < n && -0x8000_0000 <= x[idxs[k] as int].bits - mins[k].bits <= 0x7fff_ffff
                ==> mins[k].bits <= #[trigger] wrap_states_spec(
                x,
                idxs,
                mins,
                maxs,
                n,
            )[idxs[k] as int].bits <= maxs[k].bits,
        forall|j: int|
            0 <= j < x.len() && not_listed(idxs, n, j) ==> #[trigger] wrap_states_spec(
                x,
                idxs,
                mins,
                maxs,
                n,
            )[j] == x[j],
    decreases n,
{
    if n > 0 {
        let m = (n - 1) as nat;
        law_wrap_states_within_limits(x, idxs, mins, maxs, m);
        let prev = wrap_states_spec(x, idxs, mins, maxs, m);
        let cur = wrap_states_spec(x, idxs, mins, maxs, n);
        let j = idxs[m as int] as int;
        assert(0 <= j < x.len());
        assert(not_listed(idxs, m, j));
        assert(prev[j] == x[j]);
        let lo = mins[m as int];
        let hi = maxs[m as int];
        let span = hi.bits - lo.bits;
        assert(crate::fixed_point::wrap_i32(span) == span);
        if -0x8000_0000 <= prev[j].bits - lo.bits <= 0x7fff_ffff {
            let off = prev[j].bits - lo.bits;
            assert(crate::fixed_point::wrap_i32(off) == off);
            let r = trunc_rem(off, span);
            if off >= 0 {
                assert(r == off % span);
                assert(0 <= r < span);
            } else {
                assert(r == -((-off) % span));
                assert(-span < r <= 0);
            }
            if fx_lt(hi, prev[j]) {
                assert(crate::fixed_point::wrap_i32(r + lo.bits) == r + lo.bits);
            } else if fx_lt(prev[j], lo) {
                assert(crate::fixed_point::wrap_i32(r + hi.bits) == r + hi.bits);
            }
        }
        assert forall|k: int|
            0 <= k < n && -0x8000_0000 <= x[idxs[k] as int].bits - mins[k].bits <= 0x7fff_ffff
                implies mins[k].bits <= #[trigger] cur[idxs[k] as int].bits <= maxs[k].bits by {
            if k < m {
                assert(idxs[k] != idxs[m as int]);
            }
        }
        assert forall|k: int|
            0 <= k < n && mins[k].bits <= x[idxs[k] as int].bits <= maxs[k].bits
                implies #[trigger] cur[idxs[k] as int] == x[idxs[k] as int] by {
            if k < m {
                assert(idxs[k] != idxs[m as int]);
            }
        }
        assert forall|i: int| 0 <= i < x.len() && not_listed(idxs, n, i) implies #[trigger] cur[i]
            == x[i] by {
            assert(idxs[m as int] != i);
            assert(not_listed(idxs, m, i));
        }
    }
}

} // verus!
