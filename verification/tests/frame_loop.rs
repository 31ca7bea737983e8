//! Tests of the transform composer and the frame scheduler: composability
//! of world transforms, the pivoted-rotor scenario, and a whole frame step.

use gloom_rs::camera::Camera;
use gloom_rs::compose::compose;
use gloom_rs::frame::{
    body_id, build_scene, frame_step, main_rotor_id, tail_rotor_id, NODE_COUNT, ROOT_ID,
    SQUADRON_SIZE, TERRAIN_ID,
};
use gloom_rs::input::{KEY_A, KEY_UP};
use gloom_rs::scene::SceneGraph;
use gloom_rs::transform::{normalize, Prim, Vec3};

fn v(x: i64, y: i64, z: i64) -> Vec3 {
    Vec3 { x, y, z }
}

fn persp() -> Prim {
    Prim::Perspective { width: 800, height: 600 }
}

#[test]
fn rotor_world_is_root_times_pivoted_rotation() {
    // Root -> body -> {door, main rotor, tail rotor}; body placed at
    // (0, 20, 0), the rotor pivoting about (0, 2.3, 0) by theta around y.
    let theta = 1234;
    let mut g = SceneGraph::new();
    let root = g.create_node();
    let body = g.create_node();
    let door = g.create_node();
    let main_rotor = g.create_node();
    let tail_rotor = g.create_node();
    g.add_child(root, body).unwrap();
    g.add_child(body, door).unwrap();
    g.add_child(body, main_rotor).unwrap();
    g.add_child(body, tail_rotor).unwrap();
    g.attach_drawable(body, 1, 300).unwrap();
    g.attach_drawable(door, 2, 30).unwrap();
    g.attach_drawable(main_rotor, 3, 60).unwrap();
    g.attach_drawable(tail_rotor, 4, 24).unwrap();
    g.set_transform(body, v(0, 20000, 0), v(0, 0, 0), v(0, 0, 0)).unwrap();
    g.set_transform(main_rotor, v(0, 0, 0), v(0, theta, 0), v(0, 2300, 0)).unwrap();

    let vp = vec![persp()];
    let cmds = compose(&g, root, &vp).unwrap();
    // Pre-order: body, door, main rotor, tail rotor.
    assert_eq!(cmds.len(), 4);
    assert_eq!(cmds[2].node, main_rotor);
    assert_eq!(cmds[2].vao, 3);
    assert_eq!(cmds[2].index_count, 60);
    // world(rotor) == world(root) * T(0,20,0) * T(0,2.3,0) * Ry(theta)
    //                * T(0,-2.3,0), with world(root) the view-projection.
    assert_eq!(
        normalize(&cmds[2].world),
        vec![
            persp(),
            Prim::Translate(v(0, 20000, 0)),
            Prim::Translate(v(0, 2300, 0)),
            Prim::RotY(theta),
            Prim::Translate(v(0, -2300, 0)),
        ]
    );
}

#[test]
fn world_of_child_is_world_of_parent_times_local() {
    let mut g = SceneGraph::new();
    let root = g.create_node();
    let body = g.create_node();
    let door = g.create_node();
    g.add_child(root, body).unwrap();
    g.add_child(body, door).unwrap();
    g.attach_drawable(body, 1, 3).unwrap();
    g.attach_drawable(door, 2, 3).unwrap();
    g.set_transform(body, v(5000, 0, 0), v(0, 900, 0), v(0, 0, 0)).unwrap();
    g.set_transform(door, v(1000, 0, 0), v(0, 0, 0), v(0, 0, 0)).unwrap();

    let vp = vec![persp()];
    let cmds = compose(&g, root, &vp).unwrap();
    assert_eq!(cmds.len(), 2);
    let body_world = normalize(&cmds[0].world);
    let door_world = normalize(&cmds[1].world);
    // The door's world transform is the body's with the door's own local
    // factor appended.
    let mut expected = body_world.clone();
    expected.push(Prim::Translate(v(1000, 0, 0)));
    assert_eq!(door_world, expected);
    // And the root's world is the view-projection itself.
    assert_eq!(body_world, vec![persp(), Prim::Translate(v(5000, 0, 0)), Prim::RotY(900)]);
}

#[test]
fn compose_rejects_an_unknown_root() {
    let g = SceneGraph::new();
    let vp = vec![persp()];
    assert!(compose(&g, 0, &vp).is_err());
}

#[test]
fn built_scene_has_the_squadron_structure() {
    let g = build_scene((10, 3000), (11, 300), (12, 30), (13, 60), (14, 24));
    assert_eq!(g.len(), NODE_COUNT);
    assert_eq!(g.children_of(ROOT_ID), Ok(vec![TERRAIN_ID]));
    assert_eq!(g.children_of(TERRAIN_ID), Ok(vec![2, 6, 10, 14, 18]));
    for i in 0..SQUADRON_SIZE {
        let b = body_id(i);
        assert_eq!(g.parent_of(b), Ok(Some(TERRAIN_ID)));
        assert_eq!(g.children_of(b), Ok(vec![b + 1, b + 2, b + 3]));
    }
    // A negative index count would have marked a container instead.
    let g2 = build_scene((10, -1), (11, 300), (12, 30), (13, 60), (14, 24));
    assert_eq!(g2.drawable_of(TERRAIN_ID), Ok(None));
}

#[test]
fn frame_step_folds_input_and_composes_the_scene() {
    let mut g = build_scene((10, 3000), (11, 300), (12, 30), (13, 60), (14, 24));
    let mut cam = Camera::new();
    let held = vec![KEY_A, KEY_UP];
    let out = frame_step(&mut g, &mut cam, 0, 16, &held, None, 800, 600);

    assert_eq!(out.viewport, None);
    // One frame of 16 ms: A adds 20 * 16 to x, Up subtracts 16 from pitch.
    assert_eq!(cam.trans, v(320, 0, 0));
    assert_eq!(cam.rot_x, -16);
    assert_eq!(cam.rot_y, 0);
    assert_eq!(
        out.camera,
        vec![
            persp(),
            Prim::RotX(-16),
            Prim::RotY(0),
            Prim::Translate(v(320, 0, 0)),
            Prim::Translate(v(0, 0, -2000)),
        ]
    );

    // Terrain plus four drawable parts per member.
    assert_eq!(out.cmds.len(), 1 + 4 * SQUADRON_SIZE);
    assert_eq!(out.cmds[0].node, TERRAIN_ID);
    assert_eq!(out.cmds[0].vao, 10);
    assert_eq!(out.cmds[0].index_count, 3000);

    // Member 0 at elapsed 0: heading (0, 30000), yaw -785, pitch -200,
    // roll 150; rotors at spin angle 0.
    let body_world = normalize(&out.cmds[1].world);
    assert_eq!(out.cmds[1].node, body_id(0));
    assert_eq!(
        body_world,
        vec![
            persp(),
            Prim::RotX(-16),
            Prim::Translate(v(320, 0, 0)),
            Prim::Translate(v(0, 0, -2000)),
            Prim::Translate(v(0, 20000, 30000)),
            Prim::RotZ(150),
            Prim::RotY(-785),
            Prim::RotX(-200),
        ]
    );
}

#[test]
fn frame_step_applies_a_pending_resize_to_the_camera() {
    let mut g = build_scene((10, 3000), (11, 300), (12, 30), (13, 60), (14, 24));
    let mut cam = Camera::new();
    let held = vec![];
    let out = frame_step(&mut g, &mut cam, 0, 16, &held, Some((1024, 768)), 800, 600);
    assert_eq!(out.viewport, Some((1024, 768)));
    assert_eq!(out.camera[0], Prim::Perspective { width: 1024, height: 768 });
}

#[test]
fn rotors_spin_between_frames() {
    let mut g = build_scene((10, 3000), (11, 300), (12, 30), (13, 60), (14, 24));
    let mut cam = Camera::new();
    let held = vec![];
    let _ = frame_step(&mut g, &mut cam, 250, 0, &held, None, 800, 600);
    // Main rotor: 1 rev/s, a quarter turn after 250 ms.
    assert_eq!(g.rotation_of(main_rotor_id(0)), Ok(v(0, 1570, 0)));
    // Tail rotor: 2 rev/s, a half turn after 250 ms, about x.
    assert_eq!(g.rotation_of(tail_rotor_id(0)), Ok(v(3141, 0, 0)));
    // The pivots are the rotor mount points.
    assert_eq!(g.reference_point_of(main_rotor_id(0)), Ok(v(0, 2300, 0)));
    assert_eq!(g.reference_point_of(tail_rotor_id(0)), Ok(v(350, 2300, 10400)));
}
