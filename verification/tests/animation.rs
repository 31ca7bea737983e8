//! Tests of the animation function: exact samples, determinism, periodicity,
//! phase offsets, and the camera's key folding.

use gloom_rs::anim::{sample_heading, spin_angle, Heading, PERIOD_MS, PHASE_STEP_MS};
use gloom_rs::camera::Camera;
use gloom_rs::input::{KEY_D, KEY_LEFT, KEY_S, KEY_SPACE};
use gloom_rs::transform::Vec3;

#[test]
fn heading_at_the_diamond_vertices() {
    // Start of each quarter: the four diamond vertices.
    let h0 = sample_heading(0, 0);
    assert_eq!((h0.x, h0.z), (0, 30000));
    let h1 = sample_heading(4000, 0);
    assert_eq!((h1.x, h1.z), (30000, 0));
    let h2 = sample_heading(8000, 0);
    assert_eq!((h2.x, h2.z), (0, -30000));
    let h3 = sample_heading(12000, 0);
    assert_eq!((h3.x, h3.z), (-30000, 0));
}

#[test]
fn heading_exact_sample_mid_quarter() {
    // 1000 ms into the first quarter: a quarter of the way along the edge.
    let h = sample_heading(1000, 0);
    assert_eq!(
        h,
        Heading { x: 7500, z: 22500, yaw: -785, pitch: -200, roll: 150 }
    );
    // Second quarter banks the other way.
    let h = sample_heading(5000, 0);
    assert_eq!(
        h,
        Heading { x: 22500, z: -7500, yaw: -2356, pitch: -200, roll: -150 }
    );
}

#[test]
fn heading_is_deterministic_and_periodic() {
    let a = sample_heading(12345, 678);
    let b = sample_heading(12345, 678);
    assert_eq!(a, b);
    let c = sample_heading(12345 + PERIOD_MS, 678);
    assert_eq!(a, c);
    // Phase enters the sample exactly like time.
    assert_eq!(sample_heading(1000, PHASE_STEP_MS), sample_heading(1000 + PHASE_STEP_MS, 0));
}

#[test]
fn spin_angle_exact_values() {
    assert_eq!(spin_angle(0, 1), 0);
    assert_eq!(spin_angle(250, 1), 1570);
    assert_eq!(spin_angle(500, 2), 0);
    assert_eq!(spin_angle(250, 2), 3141);
    // A whole second later the rotor is back where it was.
    assert_eq!(spin_angle(1250, 1), spin_angle(250, 1));
}

#[test]
fn camera_folds_negative_axes_too() {
    let mut cam = Camera::new();
    let held = vec![KEY_D, KEY_SPACE, KEY_S, KEY_LEFT];
    cam.fold_keys(&held, 10);
    assert_eq!(cam.trans, Vec3 { x: -200, y: -200, z: -200 });
    assert_eq!(cam.rot_x, 0);
    assert_eq!(cam.rot_y, -10);
}

#[test]
fn unbound_keys_fold_to_nothing() {
    let mut cam = Camera::new();
    let held = vec![99, 100];
    cam.fold_keys(&held, 16);
    assert_eq!(cam, Camera::new());
}
