//! Tests of the fixed-point transform primitives: pivot behaviour, exact
//! point application, and normal forms.

use gloom_rs::transform::{normalize, transform_point, Prim, Vec3};

fn v(x: i64, y: i64, z: i64) -> Vec3 {
    Vec3 { x, y, z }
}

#[test]
fn pivot_point_lands_on_pivot_plus_position() {
    // Zero rotation, reference point R, position D: the pivot point R maps
    // to R + D.
    let r = v(0, 2300, 0);
    let d = v(0, 20000, 0);
    let got = transform_point(d, v(0, 0, 0), r, r);
    assert_eq!(got, Some(v(0, 22300, 0)));
}

#[test]
fn zero_rotation_moves_every_point_by_position() {
    let got = transform_point(v(7, -8, 9), v(0, 0, 0), v(100, 200, 300), v(1, 2, 3));
    assert_eq!(got, Some(v(8, -6, 12)));
}

#[test]
fn nonzero_rotation_has_no_exact_point_image() {
    assert_eq!(transform_point(v(1, 2, 3), v(0, 785, 0), v(0, 0, 0), v(4, 5, 6)), None);
    assert_eq!(transform_point(v(0, 0, 0), v(1, 0, 0), v(0, 0, 0), v(0, 0, 0)), None);
    assert_eq!(transform_point(v(0, 0, 0), v(0, 0, -1), v(0, 0, 0), v(0, 0, 0)), None);
}

#[test]
fn normalize_drops_identity_factors_only() {
    let w = vec![
        Prim::Translate(v(0, 0, 0)),
        Prim::Perspective { width: 800, height: 600 },
        Prim::RotX(0),
        Prim::Translate(v(1, 0, 0)),
        Prim::RotY(0),
        Prim::RotZ(42),
        Prim::RotZ(0),
    ];
    let n = normalize(&w);
    assert_eq!(
        n,
        vec![
            Prim::Perspective { width: 800, height: 600 },
            Prim::Translate(v(1, 0, 0)),
            Prim::RotZ(42),
        ]
    );
}

#[test]
fn normalize_of_all_identities_is_empty() {
    let w = vec![Prim::Translate(v(0, 0, 0)), Prim::RotX(0), Prim::RotY(0), Prim::RotZ(0)];
    assert_eq!(normalize(&w), vec![]);
}
