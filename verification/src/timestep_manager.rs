//! The adaptive substep controller.
//!
//! Per frame, a driver calls [`TimestepManager::reset`] with the frame
//! duration, then loops: while [`TimestepManager::is_done`] is false, call
//! [`TimestepManager::advance`] and integrate one substep of length
//! [`TimestepManager::dt`]. Each substep is the Courant–Friedrichs–Lewy
//! admissible step for the current particle field, clamped into the range the
//! substep-count limits allow, and capped by the remaining budget.

use vstd::math::{max, min};
use vstd::prelude::*;

use crate::fluid::{fluid_models, fluids_wf, max_look_sq, max_look_sq_exec, Fluid, FluidModel};
use crate::math::{
    isqrt, lemma_ceil_div, lemma_floor_div, lemma_sqrt_floor, sqrt_floor, RADIUS_BOUND, SCALE,
    TIME_BOUND,
};

verus! {

/// What can go wrong when configuring the controller.
#[derive(Clone, Copy, Debug, PartialEq, Eq, Structural)]
pub enum TimestepError {
    /// A construction parameter is out of range: the particle radius or the
    /// safety coefficient is not positive, the coefficient exceeds one whole
    /// unit, the minimum substep count is zero, or it exceeds the maximum.
    InvalidConfiguration,
    /// A frame was reset to a negative duration.
    InvalidArgument,
}

/// Safety factor applied by default to the raw admissible step: 0.4.
pub const DEFAULT_CFL_COEFF: i64 = 400_000;

/// Default lower bound on how many substeps may subdivide a frame.
pub const DEFAULT_MIN_SUBSTEPS: u32 = 1;

/// Default upper bound on how many substeps may subdivide a frame.
pub const DEFAULT_MAX_SUBSTEPS: u32 = 10;

/// Regulates the substep length of the simulation within each outer frame.
pub struct TimestepManager {
    cfl_coeff: i64,
    min_num_substeps: u32,
    max_num_substeps: u32,
    dt: i64,
    inv_dt: i64,
    total_step_size: i64,
    remaining_time: i64,
    particle_radius: i64,
}

/// Ghost image of the controller: configuration and cursor as plain integers.
pub struct ManagerModel {
    pub cfl_coeff: int,
    pub min_num_substeps: int,
    pub max_num_substeps: int,
    pub dt: int,
    pub inv_dt: int,
    pub total_step_size: int,
    pub remaining_time: int,
    pub particle_radius: int,
}

impl View for TimestepManager {
    type V = ManagerModel;

    closed spec fn view(&self) -> ManagerModel {
        ManagerModel {
            cfl_coeff: self.cfl_coeff as int,
            min_num_substeps: self.min_num_substeps as int,
            max_num_substeps: self.max_num_substeps as int,
            dt: self.dt as int,
            inv_dt: self.inv_dt as int,
            total_step_size: self.total_step_size as int,
            remaining_time: self.remaining_time as int,
            particle_radius: self.particle_radius as int,
        }
    }
}

impl ManagerModel {
    /// Well-formed controller state: the configuration is in range and the
    /// cursor sits within the frame budget.
    pub open spec fn wf(self) -> bool {
        &&& 0 < self.cfl_coeff <= SCALE
        &&& 1 <= self.min_num_substeps
        &&& self.min_num_substeps <= self.max_num_substeps
        &&& self.max_num_substeps <= u32::MAX
        &&& 0 < self.particle_radius <= RADIUS_BOUND
        &&& 0 <= self.total_step_size <= TIME_BOUND
        &&& 0 <= self.remaining_time <= self.total_step_size
        &&& 0 <= self.dt <= TIME_BOUND
        &&& 0 <= self.inv_dt <= (SCALE as int) * (SCALE as int)
    }

    /// The frame budget is spent.
    pub open spec fn done(self) -> bool {
        self.remaining_time <= 0
    }
}

/// Shortest substep the frame may nominally be divided into:
/// the frame duration over the maximum substep count, rounded up so that
/// that many substeps always cover the whole frame.
pub open spec fn spec_min_allowed(m: ManagerModel) -> int {
    (m.total_step_size + m.max_num_substeps - 1) / m.max_num_substeps
}

/// Longest substep the frame allows: the frame duration over the minimum
/// substep count, rounded down.
pub open spec fn spec_max_allowed(m: ManagerModel) -> int {
    m.total_step_size / m.min_num_substeps
}

/// Greatest end-of-frame particle speed, in fixed-point units: the floor
/// square root of the greatest squared look-ahead norm, scaled back down.
pub open spec fn spec_speed(fs: Seq<FluidModel>, t: int) -> int {
    sqrt_floor(max_look_sq(fs, t)) / (SCALE as int)
}

/// Raw admissible substep for a positive speed: the step over which the
/// fastest particle travels at most one particle diameter, scaled by the
/// safety coefficient.
pub open spec fn spec_raw_substep(m: ManagerModel, speed: int) -> int {
    2 * m.particle_radius * m.cfl_coeff / speed
}

/// The raw admissible substep, clamped into the allowed range. A zero speed
/// leaves the raw step unbounded, so only the upper clamp applies; the lower
/// clamp wins last so that a positive frame always makes progress.
pub open spec fn spec_candidate(m: ManagerModel, fs: Seq<FluidModel>) -> int {
    let speed = spec_speed(fs, m.remaining_time);
    let capped = if speed == 0 {
        spec_max_allowed(m)
    } else {
        min(spec_raw_substep(m, speed), spec_max_allowed(m))
    };
    max(capped, spec_min_allowed(m))
}

/// The substep the next `advance` produces: the clamped admissible step,
/// capped by the remaining budget so the frame is never overshot.
pub open spec fn spec_substep(m: ManagerModel, fs: Seq<FluidModel>) -> int {
    min(spec_candidate(m, fs), m.remaining_time)
}

/// Reciprocal of a substep in fixed-point units; zero stays zero.
pub open spec fn spec_inv(d: int) -> int {
    if d == 0 {
        0
    } else {
        (SCALE as int) * (SCALE as int) / d
    }
}

/// The controller state after one `advance`: the substep and its reciprocal
/// are recorded and the substep is deducted from the remaining budget.
pub open spec fn step(m: ManagerModel, fs: Seq<FluidModel>) -> ManagerModel {
    let d = spec_substep(m, fs);
    ManagerModel {
        dt: d,
        inv_dt: spec_inv(d),
        remaining_time: m.remaining_time - d,
        ..m
    }
}

impl TimestepManager {
    /// Well-formed controller.
    pub open spec fn wf(self) -> bool {
        self@.wf()
    }

    /// Initialize a new timestep manager with default parameters: safety
    /// coefficient 0.4, between 1 and 10 substeps per frame.
    ///
    /// Fails with `InvalidConfiguration` exactly when the particle radius is
    /// not positive.
    pub fn new(particle_radius: i64) -> (r: Result<TimestepManager, TimestepError>)
        requires
            particle_radius <= RADIUS_BOUND,
        ensures
            r is Ok <==> particle_radius > 0,
            r is Err ==> r->Err_0 == TimestepError::InvalidConfiguration,
            r is Ok ==> (r->Ok_0).wf() && (r->Ok_0)@ == (ManagerModel {
                cfl_coeff: DEFAULT_CFL_COEFF as int,
                min_num_substeps: DEFAULT_MIN_SUBSTEPS as int,
                max_num_substeps: DEFAULT_MAX_SUBSTEPS as int,
                dt: 0,
                inv_dt: 0,
                total_step_size: 0,
                remaining_time: 0,
                particle_radius: particle_radius as int,
            }),
    {
        Self::new_with_config(
            particle_radius,
            DEFAULT_CFL_COEFF,
            DEFAULT_MIN_SUBSTEPS,
            DEFAULT_MAX_SUBSTEPS,
        )
    }

    /// Initialize a new timestep manager with the given safety coefficient
    /// (in fixed-point units, within `(0, SCALE]`) and substep-count bounds.
    ///
    /// Fails with `InvalidConfiguration` exactly when the particle radius or
    /// the coefficient is out of range, the minimum substep count is zero,
    /// or the minimum exceeds the maximum. All cursor state starts at zero,
    /// so `is_done` is true before any `reset`.
    pub fn new_with_config(
        particle_radius: i64,
        cfl_coeff: i64,
        min_num_substeps: u32,
        max_num_substeps: u32,
    ) -> (r: Result<TimestepManager, TimestepError>)
        requires
            particle_radius <= RADIUS_BOUND,
        ensures
            r is Ok <==> (particle_radius > 0 && 0 < cfl_coeff <= SCALE && 1 <= min_num_substeps
                && min_num_substeps <= max_num_substeps),
            r is Err ==> r->Err_0 == TimestepError::InvalidConfiguration,
            r is Ok ==> (r->Ok_0).wf() && (r->Ok_0)@ == (ManagerModel {
                cfl_coeff: cfl_coeff as int,
                min_num_substeps: min_num_substeps as int,
                max_num_substeps: max_num_substeps as int,
                dt: 0,
                inv_dt: 0,
                total_step_size: 0,
                remaining_time: 0,
                particle_radius: particle_radius as int,
            }),
    {
        if particle_radius <= 0 || cfl_coeff <= 0 || cfl_coeff > SCALE || min_num_substeps == 0
            || min_num_substeps > max_num_substeps {
            return Err(TimestepError::InvalidConfiguration);
        }
        Ok(TimestepManager {
            cfl_coeff,
            min_num_substeps,
            max_num_substeps,
            dt: 0,
            inv_dt: 0,
            total_step_size: 0,
            remaining_time: 0,
            particle_radius,
        })
    }

    /// Resets the remaining time of the timestep manager to a whole new
    /// frame of the given duration.
    ///
    /// Fails with `InvalidArgument` exactly when the duration is negative,
    /// leaving the state untouched. The recorded substep of the previous
    /// frame stays in `dt`/`inv_dt` until the first `advance`.
    pub fn reset(&mut self, total_step_size: i64) -> (r: Result<(), TimestepError>)
        requires
            old(self).wf(),
            total_step_size <= TIME_BOUND,
        ensures
            final(self).wf(),
            r is Ok <==> total_step_size >= 0,
            r is Err ==> r->Err_0 == TimestepError::InvalidArgument && final(self)@ == old(self)@,
            r is Ok ==> final(self)@ == (ManagerModel {
                total_step_size: total_step_size as int,
                remaining_time: total_step_size as int,
                ..old(self)@
            }),
    {
        if total_step_size < 0 {
            return Err(TimestepError::InvalidArgument);
        }
        self.total_step_size = total_step_size;
        self.remaining_time = total_step_size;
        Ok(())
    }

    /// Checks if all the time of this timestep has been consumed. Integer
    /// arithmetic is exact, so the tail of the frame leaves no rounding
    /// residue and the tolerance is zero.
    pub fn is_done(&self) -> (done: bool)
        ensures
            done == self@.done(),
    {
        self.remaining_time <= 0
    }

    /// The current substep length.
    pub fn dt(&self) -> (d: i64)
        ensures
            d == self@.dt,
    {
        self.dt
    }

    /// The inverse of the current substep length.
    ///
    /// If the substep length is zero, this inverse is also zero.
    pub fn inv_dt(&self) -> (d: i64)
        ensures
            d == self@.inv_dt,
    {
        self.inv_dt
    }

    /// Time left to simulate within the current frame.
    pub fn remaining_time(&self) -> (t: i64)
        ensures
            t == self@.remaining_time,
    {
        self.remaining_time
    }

    /// The frame duration set by the most recent `reset`.
    pub fn total_step_size(&self) -> (t: i64)
        ensures
            t == self@.total_step_size,
    {
        self.total_step_size
    }

    /// Raw admissible substep from the current particle field: the step over
    /// which the fastest particle, at its anticipated end-of-frame speed,
    /// travels at most one particle diameter scaled by the safety
    /// coefficient. `None` when nothing moves, leaving the step unbounded.
    fn max_substep(&self, fluids: &Vec<Fluid>) -> (r: Option<i64>)
        requires
            self.wf(),
            fluids_wf(fluid_models(fluids@)),
        ensures
            r is None <==> spec_speed(fluid_models(fluids@), self@.remaining_time) == 0,
            r is Some ==> r->Some_0 == spec_raw_substep(
                self@,
                spec_speed(fluid_models(fluids@), self@.remaining_time),
            ) && r->Some_0 >= 0,
    {
        let max_sq: u128 = max_look_sq_exec(fluids, self.remaining_time);
        proof {
            lemma_sqrt_floor(max_sq as int);
            assert(sqrt_floor(max_sq as int) < 18_446_744_073_709_551_616) by {
                let s = sqrt_floor(max_sq as int);
                assert(s >= 18_446_744_073_709_551_616 ==> s * s > u128::MAX) by (nonlinear_arith);
            }
        }
        let root: u64 = isqrt(max_sq);
        let speed: u64 = root / (SCALE as u64);
        proof {
            lemma_floor_div(root as int, SCALE as int);
        }
        if speed == 0 {
            None
        } else {
            proof {
                assert(2 * (self.particle_radius as int) * (self.cfl_coeff as int) <= 2
                    * RADIUS_BOUND * SCALE) by (nonlinear_arith)
                    requires
                        0 < self.particle_radius as int <= RADIUS_BOUND,
                        0 < self.cfl_coeff as int <= SCALE,
                ;
            }
            let num: u128 = 2 * (self.particle_radius as u128) * (self.cfl_coeff as u128);
            proof {
                lemma_floor_div(num as int, speed as int);
            }
            let raw: u128 = num / (speed as u128);
            Some(raw as i64)
        }
    }

    /// The substep to produce now: the raw admissible step (unbounded when
    /// nothing moves), clamped into the allowed range, capped by the
    /// remaining budget.
    fn compute_substep(&self, fluids: &Vec<Fluid>) -> (s: i64)
        requires
            self.wf(),
            fluids_wf(fluid_models(fluids@)),
        ensures
            s == spec_substep(self@, fluid_models(fluids@)),
            0 <= s <= self@.remaining_time,
    {
        proof {
            lemma_ceil_div(self@.total_step_size, self@.max_num_substeps);
            lemma_floor_div(self@.total_step_size, self@.min_num_substeps);
        }
        let min_allowed: i64 = (((self.total_step_size as u64) + (self.max_num_substeps as u64)
            - 1) / (self.max_num_substeps as u64)) as i64;
        let max_allowed: i64 = ((self.total_step_size as u64) / (self.min_num_substeps as u64))
            as i64;
        let capped: i64 = match self.max_substep(fluids) {
            None => max_allowed,
            Some(raw) => if raw < max_allowed {
                raw
            } else {
                max_allowed
            },
        };
        let candidate: i64 = if capped < min_allowed {
            min_allowed
        } else {
            capped
        };
        if candidate < self.remaining_time {
            candidate
        } else {
            self.remaining_time
        }
    }

    /// Advance to the next substep: estimate the admissible step from the
    /// fluids' current velocity and acceleration fields, record it and its
    /// reciprocal, and deduct it from the remaining budget.
    pub fn advance(&mut self, fluids: &Vec<Fluid>)
        requires
            old(self).wf(),
            fluids_wf(fluid_models(fluids@)),
        ensures
            final(self).wf(),
            final(self)@ == step(old(self)@, fluid_models(fluids@)),
    {
        let substep: i64 = self.compute_substep(fluids);
        self.dt = substep;
        self.inv_dt = if substep == 0 {
            0
        } else {
            proof {
                lemma_floor_div(SCALE as int * SCALE as int, substep as int);
            }
            (((SCALE as u64) * (SCALE as u64)) / (substep as u64)) as i64
        };
        self.remaining_time = self.remaining_time - substep;
    }
}

} // verus!
