//! The guarantees the controller gives an outer simulation loop, stated and
//! proved over the ghost transition [`step`] that `advance` is specified by.

use vstd::math::{max, min};
use vstd::prelude::*;

use crate::fluid::{fluids_wf, lemma_fluids_max_sq_prefix_bounds, max_look_sq, FluidModel};
use crate::math::{lemma_ceil_div, lemma_floor_div, lemma_sqrt_floor, sqrt_floor, SCALE};
use crate::timestep_manager::{
    spec_candidate, spec_max_allowed, spec_min_allowed, spec_speed, spec_substep, step,
    ManagerModel,
};

verus! {

/// The controller state after `k` successive `advance` calls against the
/// same fluid field.
pub open spec fn iterate(m: ManagerModel, fs: Seq<FluidModel>, k: nat) -> ManagerModel
    decreases k,
{
    if k == 0 {
        m
    } else {
        step(iterate(m, fs, (k - 1) as nat), fs)
    }
}

/// Sum of the substep lengths the first `k` `advance` calls produce.
pub open spec fn substep_sum(m: ManagerModel, fs: Seq<FluidModel>, k: nat) -> int
    decreases k,
{
    if k == 0 {
        0
    } else {
        substep_sum(m, fs, (k - 1) as nat) + step(iterate(m, fs, (k - 1) as nat), fs).dt
    }
}

/// One `advance` preserves well-formedness and the whole configuration,
/// deducts exactly the substep it records, never overshoots the remaining
/// budget, and — as long as budget remains — always consumes at least the
/// nominal minimum substep, so a frame always makes progress.
pub proof fn lemma_step_basics(m: ManagerModel, fs: Seq<FluidModel>)
    requires
        m.wf(),
        fluids_wf(fs),
    ensures
        step(m, fs).wf(),
        step(m, fs).cfl_coeff == m.cfl_coeff,
        step(m, fs).min_num_substeps == m.min_num_substeps,
        step(m, fs).max_num_substeps == m.max_num_substeps,
        step(m, fs).particle_radius == m.particle_radius,
        step(m, fs).total_step_size == m.total_step_size,
        0 <= step(m, fs).dt <= m.remaining_time,
        step(m, fs).remaining_time == m.remaining_time - step(m, fs).dt,
        step(m, fs).dt >= min(spec_min_allowed(m), m.remaining_time),
        step(m, fs).inv_dt == if step(m, fs).dt == 0 {
            0int
        } else {
            (SCALE as int) * (SCALE as int) / step(m, fs).dt
        },
{
    lemma_ceil_div(m.total_step_size, m.max_num_substeps);
    lemma_floor_div(m.total_step_size, m.min_num_substeps);
    let t = m.remaining_time;
    lemma_fluids_max_sq_prefix_bounds(fs, t, fs.len());
    lemma_sqrt_floor(max_look_sq(fs, t));
    lemma_floor_div(sqrt_floor(max_look_sq(fs, t)), SCALE as int);
    let speed = spec_speed(fs, t);
    if speed != 0 {
        lemma_floor_div(2 * m.particle_radius * m.cfl_coeff, speed);
        assert(2 * m.particle_radius * m.cfl_coeff >= 0) by (nonlinear_arith)
            requires
                m.particle_radius > 0,
                m.cfl_coeff > 0,
        ;
    }
    let d = spec_substep(m, fs);
    if d != 0 {
        lemma_floor_div((SCALE as int) * (SCALE as int), d);
    }
}

/// **Monotonic non-negative budget.** The remaining time never increases
/// across an `advance` and never goes negative.
pub proof fn lemma_budget_monotonic(m: ManagerModel, fs: Seq<FluidModel>)
    requires
        m.wf(),
        fluids_wf(fs),
    ensures
        0 <= step(m, fs).remaining_time <= m.remaining_time,
{
    lemma_step_basics(m, fs);
}

/// **Inverse consistency.** The recorded reciprocal of a zero substep is
/// zero; of a positive substep, it is one squared scale unit over the
/// substep, exact to the floor.
pub proof fn lemma_inverse_consistency(m: ManagerModel, fs: Seq<FluidModel>)
    requires
        m.wf(),
        fluids_wf(fs),
    ensures
        step(m, fs).dt == 0 ==> step(m, fs).inv_dt == 0,
        step(m, fs).dt > 0 ==> step(m, fs).inv_dt == (SCALE as int) * (SCALE as int) / step(
            m,
            fs,
        ).dt,
{
    lemma_step_basics(m, fs);
}

/// **Final remainder.** When the clamped admissible step would meet or
/// exceed the remaining budget, the produced substep equals the remaining
/// time exactly, and the controller is done right after.
pub proof fn lemma_final_remainder(m: ManagerModel, fs: Seq<FluidModel>)
    requires
        m.wf(),
        fluids_wf(fs),
        spec_candidate(m, fs) >= m.remaining_time,
    ensures
        step(m, fs).dt == m.remaining_time,
        step(m, fs).done(),
{
    lemma_step_basics(m, fs);
}

/// **Bounding.** While more than the nominal minimum remains of the budget,
/// every produced substep lies between the nominal minimum and maximum.
/// Integer rounding asks that the two bounds be ordered: for a frame shorter
/// than the minimum substep count (in fixed-point units) the rounded-up
/// minimum can exceed the rounded-down maximum, and only the lower bound is
/// honored there.
pub proof fn lemma_bounding(m: ManagerModel, fs: Seq<FluidModel>)
    requires
        m.wf(),
        fluids_wf(fs),
        spec_min_allowed(m) <= spec_max_allowed(m),
        m.remaining_time > spec_min_allowed(m),
    ensures
        spec_min_allowed(m) <= step(m, fs).dt <= spec_max_allowed(m),
{
    lemma_step_basics(m, fs);
}

/// Once the budget is spent, further `advance` calls produce zero substeps
/// and leave the state fixed.
pub proof fn lemma_done_stable(m: ManagerModel, fs: Seq<FluidModel>)
    requires
        m.wf(),
        fluids_wf(fs),
        m.done(),
    ensures
        step(m, fs).dt == 0,
        step(m, fs).inv_dt == 0,
        step(m, fs).remaining_time == 0,
{
    lemma_step_basics(m, fs);
}

/// Running invariant of a frame: after any number of `advance` calls the
/// state stays well-formed with its configuration fixed, the produced
/// substeps sum to exactly the budget consumed so far, and after `k` calls
/// at most `budget - k * minimum` remains.
pub proof fn lemma_iterate_invariant(m: ManagerModel, fs: Seq<FluidModel>, k: nat)
    requires
        m.wf(),
        fluids_wf(fs),
    ensures
        iterate(m, fs, k).wf(),
        iterate(m, fs, k).total_step_size == m.total_step_size,
        iterate(m, fs, k).min_num_substeps == m.min_num_substeps,
        iterate(m, fs, k).max_num_substeps == m.max_num_substeps,
        substep_sum(m, fs, k) + iterate(m, fs, k).remaining_time == m.remaining_time,
        iterate(m, fs, k).remaining_time <= max(
            m.remaining_time - k * spec_min_allowed(m),
            0,
        ),
    decreases k,
{
    if k == 0 {
        assert(m.remaining_time - 0 * spec_min_allowed(m) == m.remaining_time);
        lemma_ceil_div(m.total_step_size, m.max_num_substeps);
    } else {
        lemma_iterate_invariant(m, fs, (k - 1) as nat);
        let prev = iterate(m, fs, (k - 1) as nat);
        lemma_step_basics(prev, fs);
        let q = spec_min_allowed(m);
        assert(spec_min_allowed(prev) == q);
        lemma_ceil_div(m.total_step_size, m.max_num_substeps);
        assert(k * q == (k - 1) * q + q) by (nonlinear_arith);
        assert(prev.remaining_time - step(prev, fs).dt <= max(m.remaining_time - k * q, 0)) by {
            if prev.remaining_time <= q {
                assert(step(prev, fs).dt >= min(q, prev.remaining_time) == prev.remaining_time);
            } else {
                assert(step(prev, fs).dt >= min(q, prev.remaining_time) == q);
                assert((k - 1) * q >= 0) by (nonlinear_arith)
                    requires
                        q >= 0,
                        k >= 1,
                ;
            }
        }
    }
}

/// **Exhaustion.** Starting from a freshly reset frame, the produced
/// substeps exhaust the whole budget: within at most `max_num_substeps`
/// `advance` calls the controller is done, and the substep lengths then sum
/// to exactly the frame duration.
pub proof fn lemma_exhaustion(m: ManagerModel, fs: Seq<FluidModel>)
    requires
        m.wf(),
        fluids_wf(fs),
        m.remaining_time == m.total_step_size,
    ensures
        iterate(m, fs, m.max_num_substeps as nat).done(),
        substep_sum(m, fs, m.max_num_substeps as nat) == m.total_step_size,
{
    let k = m.max_num_substeps as nat;
    let q = spec_min_allowed(m);
    lemma_iterate_invariant(m, fs, k);
    lemma_ceil_div(m.total_step_size, m.max_num_substeps);
    assert(k * q >= m.total_step_size) by (nonlinear_arith)
        requires
            q * m.max_num_substeps >= m.total_step_size,
            k == m.max_num_substeps,
    ;
    assert(iterate(m, fs, k).remaining_time <= 0);
    assert(iterate(m, fs, k).remaining_time >= 0);
}

} // verus!

