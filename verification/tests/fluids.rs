//! Well-formedness checks on the fluid data, and the demo-name fallback.

use salva_timestep::demo::demo_name_from_url;
use salva_timestep::fluid::fluids_well_formed;
use salva_timestep::{Fluid, Vector};

fn vector(coords: Vec<i64>) -> Vector {
    Vector { coords }
}

#[test]
fn aligned_fluid_is_well_formed() {
    let fluid = Fluid {
        velocities: vec![vector(vec![1, 2]), vector(vec![3, 4])],
        accelerations: vec![vector(vec![0, -5]), vector(vec![6, 0])],
    };
    assert!(fluid.is_well_formed());
}

#[test]
fn empty_fluid_is_well_formed() {
    let fluid = Fluid { velocities: Vec::new(), accelerations: Vec::new() };
    assert!(fluid.is_well_formed());
}

#[test]
fn mismatched_particle_counts_are_rejected() {
    let fluid = Fluid {
        velocities: vec![vector(vec![1, 2])],
        accelerations: Vec::new(),
    };
    assert!(!fluid.is_well_formed());
}

#[test]
fn mismatched_dimensions_are_rejected() {
    let fluid = Fluid {
        velocities: vec![vector(vec![1, 2, 3])],
        accelerations: vec![vector(vec![1, 2])],
    };
    assert!(!fluid.is_well_formed());
}

#[test]
fn four_dimensional_vectors_are_rejected() {
    let fluid = Fluid {
        velocities: vec![vector(vec![1, 2, 3, 4])],
        accelerations: vec![vector(vec![1, 2, 3, 4])],
    };
    assert!(!fluid.is_well_formed());
}

#[test]
fn oversized_coordinates_are_rejected() {
    let fluid = Fluid {
        velocities: vec![vector(vec![0, 1_000_000_001])],
        accelerations: vec![vector(vec![0, 0])],
    };
    assert!(!fluid.is_well_formed());
    let fluid = Fluid {
        velocities: vec![vector(vec![0, 0])],
        accelerations: vec![vector(vec![-1_000_000_001, 0])],
    };
    assert!(!fluid.is_well_formed());
}

#[test]
fn boundary_coordinates_are_accepted() {
    let fluid = Fluid {
        velocities: vec![vector(vec![1_000_000_000, -1_000_000_000])],
        accelerations: vec![vector(vec![-1_000_000_000, 1_000_000_000])],
    };
    assert!(fluid.is_well_formed());
}

#[test]
fn collection_check_covers_every_fluid() {
    let good = Fluid {
        velocities: vec![vector(vec![1, 2])],
        accelerations: vec![vector(vec![3, 4])],
    };
    let bad = Fluid {
        velocities: vec![vector(vec![1, 2])],
        accelerations: Vec::new(),
    };
    assert!(fluids_well_formed(&Vec::new()));
    assert!(fluids_well_formed(&vec![good]));
    let good = Fluid {
        velocities: vec![vector(vec![1, 2])],
        accelerations: vec![vector(vec![3, 4])],
    };
    assert!(!fluids_well_formed(&vec![good, bad]));
}

#[test]
fn no_demo_name_comes_from_a_url() {
    assert_eq!(demo_name_from_url(), None);
}
