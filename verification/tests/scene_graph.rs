//! Tests of the scene-graph arena: ownership, cycle refusal, explicit
//! drawable/container marking, and loud bounds errors.

use gloom_rs::scene::{Drawable, SceneError, SceneGraph};
use gloom_rs::transform::Vec3;

fn v(x: i64, y: i64, z: i64) -> Vec3 {
    Vec3 { x, y, z }
}

#[test]
fn create_node_hands_out_consecutive_ids() {
    let mut g = SceneGraph::new();
    assert_eq!(g.len(), 0);
    assert_eq!(g.create_node(), 0);
    assert_eq!(g.create_node(), 1);
    assert_eq!(g.create_node(), 2);
    assert_eq!(g.len(), 3);
}

#[test]
fn fresh_node_is_an_empty_group() {
    let mut g = SceneGraph::new();
    let n = g.create_node();
    assert_eq!(g.drawable_of(n), Ok(None));
    assert_eq!(g.parent_of(n), Ok(None));
    assert_eq!(g.child_count(n), Ok(0));
    assert_eq!(g.position_of(n), Ok(v(0, 0, 0)));
    assert_eq!(g.rotation_of(n), Ok(v(0, 0, 0)));
    assert_eq!(g.reference_point_of(n), Ok(v(0, 0, 0)));
}

#[test]
fn add_child_transfers_ownership_once() {
    let mut g = SceneGraph::new();
    let root = g.create_node();
    let a = g.create_node();
    let b = g.create_node();
    assert_eq!(g.add_child(root, a), Ok(()));
    assert_eq!(g.add_child(root, b), Ok(()));
    assert_eq!(g.children_of(root), Ok(vec![a, b]));
    assert_eq!(g.parent_of(a), Ok(Some(root)));
    // `a` is already owned: a second owner is refused.
    assert_eq!(g.add_child(b, a), Err(SceneError::AlreadyOwned));
    assert_eq!(g.add_child(root, a), Err(SceneError::AlreadyOwned));
}

#[test]
fn add_child_refuses_cycles_and_backward_edges() {
    let mut g = SceneGraph::new();
    let root = g.create_node();
    let child = g.create_node();
    assert_eq!(g.add_child(root, child), Ok(()));
    // Attaching a node under itself or under its own descendant would make a
    // cycle; both run against the creation-order discipline and are refused.
    assert_eq!(g.add_child(child, root), Err(SceneError::AttachOrder));
    assert_eq!(g.add_child(root, root), Err(SceneError::AttachOrder));
}

#[test]
fn add_child_checks_identifiers() {
    let mut g = SceneGraph::new();
    let root = g.create_node();
    assert_eq!(g.add_child(root, 7), Err(SceneError::InvalidNode));
    assert_eq!(g.add_child(7, root), Err(SceneError::InvalidNode));
}

#[test]
fn attach_drawable_marks_drawables_and_containers_explicitly() {
    let mut g = SceneGraph::new();
    let n = g.create_node();
    assert_eq!(g.attach_drawable(n, 42, 360), Ok(()));
    assert_eq!(g.drawable_of(n), Ok(Some(Drawable { vao: 42, index_count: 360 })));
    // A zero count is still explicitly drawable.
    assert_eq!(g.attach_drawable(n, 42, 0), Ok(()));
    assert_eq!(g.drawable_of(n), Ok(Some(Drawable { vao: 42, index_count: 0 })));
    // The negative sentinel marks a pure container.
    assert_eq!(g.attach_drawable(n, 42, -1), Ok(()));
    assert_eq!(g.drawable_of(n), Ok(None));
    assert_eq!(g.attach_drawable(9, 42, 360), Err(SceneError::InvalidNode));
}

#[test]
fn child_access_fails_loudly_out_of_range() {
    let mut g = SceneGraph::new();
    let root = g.create_node();
    let a = g.create_node();
    g.add_child(root, a).unwrap();
    assert_eq!(g.child_at(root, 0), Ok(a));
    assert_eq!(g.child_at(root, 1), Err(SceneError::IndexOutOfBounds));
    assert_eq!(g.child_at(99, 0), Err(SceneError::InvalidNode));
    assert_eq!(g.child_count(99), Err(SceneError::InvalidNode));
    assert_eq!(g.children_of(99), Err(SceneError::InvalidNode));
}

#[test]
fn set_transform_mutates_only_the_named_node() {
    let mut g = SceneGraph::new();
    let root = g.create_node();
    let a = g.create_node();
    g.add_child(root, a).unwrap();
    assert_eq!(g.set_transform(a, v(1, 2, 3), v(4, 5, 6), v(7, 8, 9)), Ok(()));
    assert_eq!(g.position_of(a), Ok(v(1, 2, 3)));
    assert_eq!(g.rotation_of(a), Ok(v(4, 5, 6)));
    assert_eq!(g.reference_point_of(a), Ok(v(7, 8, 9)));
    assert_eq!(g.position_of(root), Ok(v(0, 0, 0)));
    assert_eq!(g.set_transform(5, v(0, 0, 0), v(0, 0, 0), v(0, 0, 0)), Err(SceneError::InvalidNode));
}

#[test]
fn sibling_order_is_insertion_order() {
    let mut g = SceneGraph::new();
    let root = g.create_node();
    let a = g.create_node();
    let b = g.create_node();
    let c = g.create_node();
    g.add_child(root, b).unwrap();
    g.add_child(root, a).unwrap();
    g.add_child(root, c).unwrap();
    assert_eq!(g.children_of(root), Ok(vec![b, a, c]));
    assert_eq!(g.child_at(root, 0), Ok(b));
    assert_eq!(g.child_at(root, 1), Ok(a));
    assert_eq!(g.child_at(root, 2), Ok(c));
}
