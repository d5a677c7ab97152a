//! Active and reactive power of voltage and current pairs.
use crate::fixed_point::{
    fx_add, fx_div, fx_mul, fx_sub, law_add_mul_commute, trunc_div, Fxd, TWO_BITS,
};
use crate::reference_frames::{fxc, AlphaBeta, DQZ};
use vstd::prelude::*;

verus! {

/// `n_phase * (x1 * y1 + x2 * y2) / 2`, the active power of a voltage `x` and
/// a current `y` given by two orthogonal components.
pub open spec fn active_power(x1: Fxd, x2: Fxd, y1: Fxd, y2: Fxd, n_phase: Fxd) -> Fxd {
    fx_div(fx_mul(n_phase, fx_add(fx_mul(x1, y1), fx_mul(x2, y2))), fxc(TWO_BITS))
}

/// `n_phase * (x2 * y1 - x1 * y2) / 2`, the reactive power.
pub open spec fn reactive_power(x1: Fxd, x2: Fxd, y1: Fxd, y2: Fxd, n_phase: Fxd) -> Fxd {
    fx_div(fx_mul(n_phase, fx_sub(fx_mul(x2, y1), fx_mul(x1, y2))), fxc(TWO_BITS))
}

/// Active and reactive power of the alpha-beta voltage `v` and current `i`.
pub fn calc_ab_power(v: &AlphaBeta, i: &AlphaBeta, n_phase: Fxd) -> (r: (Fxd, Fxd))
    ensures
        r.0 == active_power(v.alpha, v.beta, i.alpha, i.beta, n_phase),
        r.1 == reactive_power(v.alpha, v.beta, i.alpha, i.beta, n_phase),
{
    (calc_ab_p(v, i, n_phase), calc_ab_q(v, i, n_phase))
}

/// Active power of the alpha-beta voltage `v` and current `i`.
pub fn calc_ab_p(v: &AlphaBeta, i: &AlphaBeta, n_phase: Fxd) -> (r: Fxd)
    ensures
        r == active_power(v.alpha, v.beta, i.alpha, i.beta, n_phase),
{
    n_phase.mul(v.alpha.mul(i.alpha).add(v.beta.mul(i.beta))).div(Fxd { bits: TWO_BITS })
}

/// Reactive power of the alpha-beta voltage `v` and current `i`.
pub fn calc_ab_q(v: &AlphaBeta, i: &AlphaBeta, n_phase: Fxd) -> (r: Fxd)
    ensures
        r == reactive_power(v.alpha, v.beta, i.alpha, i.beta, n_phase),
{
    n_phase.mul(v.beta.mul(i.alpha).sub(v.alpha.mul(i.beta))).div(Fxd { bits: TWO_BITS })
}

/// Active and reactive power of the DQZ voltage `v` and current `i`.
pub fn calc_dq_power(v: &DQZ, i: &DQZ, n_phase: Fxd) -> (r: (Fxd, Fxd))
    ensures
        r.0 == active_power(v.d, v.q, i.d, i.q, n_phase),
        r.1 == reactive_power(v.d, v.q, i.d, i.q, n_phase),
{
    (calc_dq_p(v, i, n_phase), calc_dq_q(v, i, n_phase))
}

/// Active power of the DQZ voltage `v` and current `i`.
pub fn calc_dq_p(v: &DQZ, i: &DQZ, n_phase: Fxd) -> (r: Fxd)
    ensures
        r == active_power(v.d, v.q, i.d, i.q, n_phase),
{
    n_phase.mul(v.d.mul(i.d).add(v.q.mul(i.q))).div(Fxd { bits: TWO_BITS })
}

/// Reactive power of the DQZ voltage `v` and current `i`.
pub fn calc_dq_q(v: &DQZ, i: &DQZ, n_phase: Fxd) -> (r: Fxd)
    ensures
        r == reactive_power(v.d, v.q, i.d, i.q, n_phase),
{
    n_phase.mul(v.q.mul(i.d).sub(v.d.mul(i.q))).div(Fxd { bits: TWO_BITS })
}

/// A current in phase with the voltage, here the voltage itself, carries no
/// reactive power.
pub proof fn law_in_phase_no_reactive_power(x1: Fxd, x2: Fxd, n_phase: Fxd)
    ensures
        reactive_power(x1, x2, x1, x2, n_phase) == fxc(0),
{
    law_add_mul_commute(x2, x1);
    assert(fx_sub(fx_mul(x2, x1), fx_mul(x1, x2)).bits == 0);
    assert((n_phase.bits * 0) / 65536 == 0);
    assert(trunc_div(0int, TWO_BITS as int) == 0);
}

} // verus!
