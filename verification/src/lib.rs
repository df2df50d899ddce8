//! Adaptive substep timestep controller for particle-based fluid simulation.
//!
//! An outer simulation loop runs in fixed frames. Within one frame, the
//! [`timestep_manager::TimestepManager`] subdivides the frame duration into
//! one or more integration substeps, each short enough to keep the fastest
//! particle within a Courant–Friedrichs–Lewy style travel bound, while the
//! substep count stays within a configured range.
//!
//! All quantities are fixed-point integers: one whole unit of time, length or
//! speed equals [`math::SCALE`] units. Exact integer arithmetic lets every
//! budgeting step be stated and proved exactly: the produced substeps sum to
//! the frame duration with no residue.

pub mod demo;
pub mod fluid;
pub mod laws;
pub mod math;
pub mod timestep_manager;

pub use fluid::{Fluid, Vector};
pub use timestep_manager::{TimestepError, TimestepManager};
