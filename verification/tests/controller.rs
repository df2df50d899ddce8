//! Frame-level behavior of the timestep controller.
//!
//! All quantities are fixed-point: 1_000_000 units is one whole unit of
//! time, length or speed.

use salva_timestep::{Fluid, TimestepError, TimestepManager, Vector};

fn vec2(x: i64, y: i64) -> Vector {
    Vector { coords: vec![x, y] }
}

fn fluid2(parts: Vec<((i64, i64), (i64, i64))>) -> Fluid {
    let mut velocities = Vec::new();
    let mut accelerations = Vec::new();
    for ((vx, vy), (ax, ay)) in parts {
        velocities.push(vec2(vx, vy));
        accelerations.push(vec2(ax, ay));
    }
    Fluid { velocities, accelerations }
}

#[test]
fn new_rejects_nonpositive_radius() {
    assert_eq!(
        TimestepManager::new(0).err(),
        Some(TimestepError::InvalidConfiguration)
    );
    assert_eq!(
        TimestepManager::new(-5).err(),
        Some(TimestepError::InvalidConfiguration)
    );
    assert!(TimestepManager::new(100_000).is_ok());
}

#[test]
fn config_validation() {
    // Safety coefficient must lie in (0, 1] whole units.
    assert_eq!(
        TimestepManager::new_with_config(100_000, 0, 1, 10).err(),
        Some(TimestepError::InvalidConfiguration)
    );
    assert_eq!(
        TimestepManager::new_with_config(100_000, 1_000_001, 1, 10).err(),
        Some(TimestepError::InvalidConfiguration)
    );
    // Substep counts: minimum positive and not above the maximum.
    assert_eq!(
        TimestepManager::new_with_config(100_000, 400_000, 0, 10).err(),
        Some(TimestepError::InvalidConfiguration)
    );
    assert_eq!(
        TimestepManager::new_with_config(100_000, 400_000, 11, 10).err(),
        Some(TimestepError::InvalidConfiguration)
    );
    let manager = TimestepManager::new_with_config(100_000, 1_000_000, 2, 2).unwrap();
    assert!(manager.is_done());
    assert_eq!(manager.dt(), 0);
    assert_eq!(manager.inv_dt(), 0);
    assert_eq!(manager.remaining_time(), 0);
    assert_eq!(manager.total_step_size(), 0);
}

#[test]
fn reset_rejects_negative_duration() {
    let mut manager = TimestepManager::new(100_000).unwrap();
    assert_eq!(manager.reset(-1).err(), Some(TimestepError::InvalidArgument));
    assert!(manager.is_done());
    assert_eq!(manager.total_step_size(), 0);
    assert!(manager.reset(10_000).is_ok());
    assert!(!manager.is_done());
    assert_eq!(manager.remaining_time(), 10_000);
    assert_eq!(manager.total_step_size(), 10_000);
}

#[test]
fn advance_before_reset_is_a_zero_substep() {
    let mut manager = TimestepManager::new(100_000).unwrap();
    let fluids = vec![fluid2(vec![((0, 5_000_000), (0, 0))])];
    manager.advance(&fluids);
    assert_eq!(manager.dt(), 0);
    assert_eq!(manager.inv_dt(), 0);
    assert!(manager.is_done());
}

#[test]
fn quiescent_fluid_takes_one_full_substep() {
    // Stationary particles leave the admissible step unbounded, so a whole
    // 1.0-unit frame is simulated in a single substep.
    let mut manager = TimestepManager::new(100_000).unwrap();
    manager.reset(1_000_000).unwrap();
    let fluids = vec![fluid2(vec![((0, 0), (0, 0)), ((0, 0), (0, 0))])];
    assert!(!manager.is_done());
    manager.advance(&fluids);
    assert_eq!(manager.dt(), 1_000_000);
    assert_eq!(manager.inv_dt(), 1_000_000);
    assert!(manager.is_done());
}

#[test]
fn empty_fluid_set_takes_one_full_substep() {
    let mut manager = TimestepManager::new(100_000).unwrap();
    manager.reset(1_000_000).unwrap();
    let fluids: Vec<Fluid> = Vec::new();
    manager.advance(&fluids);
    assert_eq!(manager.dt(), 1_000_000);
    assert!(manager.is_done());
}

#[test]
fn falling_jet_scenario() {
    // Radius 0.1, coefficient 0.4, 1..10 substeps, frame 0.01; one particle
    // at velocity (0, 5) under gravity (0, -9.81). The end-of-frame speed is
    // |5 - 9.81 * 0.01| = 4.9019, the raw admissible step 0.0163..., clamped
    // to the longest allowed substep 0.01: one substep exhausts the frame.
    let mut manager = TimestepManager::new(100_000).unwrap();
    manager.reset(10_000).unwrap();
    let fluids = vec![fluid2(vec![((0, 5_000_000), (0, -9_810_000))])];
    manager.advance(&fluids);
    assert_eq!(manager.dt(), 10_000);
    assert_eq!(manager.inv_dt(), 100_000_000);
    assert!(manager.is_done());
}

#[test]
fn fast_fluid_is_clamped_to_the_substep_floor() {
    // An 80-units-per-second fluid asks for rawer, far shorter substeps than
    // the ten-per-frame limit allows; every substep is clamped up to the
    // nominal minimum and the frame finishes in exactly ten.
    let mut manager = TimestepManager::new(100_000).unwrap();
    manager.reset(1_000_000).unwrap();
    let fluids = vec![fluid2(vec![((80_000_000, 0), (0, 0))])];
    let mut produced: Vec<i64> = Vec::new();
    let mut budget = manager.remaining_time();
    while !manager.is_done() {
        manager.advance(&fluids);
        produced.push(manager.dt());
        // The budget never grows and never goes negative.
        assert!(manager.remaining_time() <= budget);
        assert!(manager.remaining_time() >= 0);
        budget = manager.remaining_time();
    }
    assert_eq!(produced.len(), 10);
    for dt in &produced {
        assert_eq!(*dt, 100_000);
    }
    assert_eq!(produced.iter().sum::<i64>(), 1_000_000);
}

#[test]
fn final_substep_is_the_exact_remainder() {
    // Speed 0.16 units/s gives a raw admissible substep of exactly 0.5
    // units; a 1.2-unit frame is simulated as 0.5 + 0.5 + 0.2, the last
    // substep exactly exhausting the budget.
    let mut manager = TimestepManager::new(100_000).unwrap();
    manager.reset(1_200_000).unwrap();
    let fluids = vec![fluid2(vec![((160_000, 0), (0, 0))])];
    manager.advance(&fluids);
    assert_eq!(manager.dt(), 500_000);
    assert_eq!(manager.inv_dt(), 2_000_000);
    assert!(!manager.is_done());
    manager.advance(&fluids);
    assert_eq!(manager.dt(), 500_000);
    assert!(!manager.is_done());
    manager.advance(&fluids);
    assert_eq!(manager.dt(), 200_000);
    assert!(manager.is_done());
    assert_eq!(manager.remaining_time(), 0);
}

#[test]
fn reciprocal_rounds_down() {
    // A 7-unit frame advanced in one substep records the floor of the exact
    // fixed-point reciprocal.
    let mut manager = TimestepManager::new(100_000).unwrap();
    manager.reset(7).unwrap();
    let fluids: Vec<Fluid> = Vec::new();
    manager.advance(&fluids);
    assert_eq!(manager.dt(), 7);
    assert_eq!(manager.inv_dt(), 1_000_000_000_000 / 7);
    assert!(manager.is_done());
}

#[test]
fn acceleration_drives_the_lookahead() {
    // A particle at rest but accelerating hard is anticipated at its
    // end-of-frame speed: the substep shrinks below the frame length even
    // though the current velocity is zero.
    let mut manager = TimestepManager::new(100_000).unwrap();
    manager.reset(10_000).unwrap();
    let fluids = vec![fluid2(vec![((0, 0), (0, 1_000_000_000))])];
    manager.advance(&fluids);
    assert_eq!(manager.dt(), 8_000);
    assert!(!manager.is_done());
}

#[test]
fn fastest_particle_of_any_fluid_governs() {
    let mut manager = TimestepManager::new(100_000).unwrap();
    manager.reset(1_000_000).unwrap();
    let fluids = vec![
        fluid2(vec![((100_000, 0), (0, 0))]),
        fluid2(vec![((0, 0), (0, 0)), ((160_000, 0), (0, 0))]),
    ];
    manager.advance(&fluids);
    // The 0.16-units/s particle, not the 0.1-units/s one, sets the step.
    assert_eq!(manager.dt(), 500_000);
}

#[test]
fn three_dimensional_norm_is_exact() {
    // A (3, 4, 0)-units/s velocity has norm 5 exactly; the raw admissible
    // substep is 2 * 0.1 / 5 * 0.4 = 0.016 units.
    let mut manager = TimestepManager::new(100_000).unwrap();
    manager.reset(100_000).unwrap();
    let fluids = vec![Fluid {
        velocities: vec![Vector { coords: vec![3_000_000, 4_000_000, 0] }],
        accelerations: vec![Vector { coords: vec![0, 0, 0] }],
    }];
    manager.advance(&fluids);
    assert_eq!(manager.dt(), 16_000);
}

#[test]
fn zero_duration_frame_is_done_at_once() {
    let mut manager = TimestepManager::new(100_000).unwrap();
    manager.reset(0).unwrap();
    assert!(manager.is_done());
}
