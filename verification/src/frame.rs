//! The frame scheduler: building the persistent scene once, and the
//! per-iteration step that folds input into the camera, advances the
//! animation by mutating the squadron's transform fields in place, and
//! composes the frame's draw commands.
//!
//! The scene is one arena: node 0 is the root group, node 1 the terrain,
//! and each of the [`SQUADRON_SIZE`] squadron members owns four consecutive
//! nodes under the terrain — body, door, main rotor, tail rotor. The
//! structure is allocated once at startup; every frame only the transform
//! fields move.

use vstd::prelude::*;

use crate::anim::{heading_spec, sample_heading, spin_angle, spin_spec, PHASE_STEP_MS};
use crate::camera::{camera_prims, camera_prims_spec, fold_keys_spec, Camera};
use crate::compose::{cmds_view, compose, draw_list, DrawCmd};
use crate::scene::{NodeV, SceneError, SceneGraph};
use crate::transform::{Prim, Vec3};

verus! {

/// How many animated vehicles fly over the terrain.
pub const SQUADRON_SIZE: usize = 5;

/// The node identifier of the root group node.
pub const ROOT_ID: usize = 0;

/// The node identifier of the terrain node.
pub const TERRAIN_ID: usize = 1;

/// Nodes in the whole scene: root, terrain, and four per squadron member.
pub const NODE_COUNT: usize = 22;

/// A vehicle's fixed flying altitude, in milliunits.
pub const ALTITUDE_MILLI: i64 = 20000;

/// Main rotor revolutions per second.
pub const MAIN_ROTOR_RPS: u64 = 1;

/// Tail rotor revolutions per second.
pub const TAIL_ROTOR_RPS: u64 = 2;

/// The zero vector, under a spec name.
pub open spec fn zero_vec() -> Vec3 {
    Vec3 { x: 0, y: 0, z: 0 }
}

/// The main rotor's pivot in body space, in milliunits.
pub open spec fn main_rotor_pivot() -> Vec3 {
    Vec3 { x: 0, y: 2300, z: 0 }
}

/// The tail rotor's pivot in body space, in milliunits.
pub open spec fn tail_rotor_pivot() -> Vec3 {
    Vec3 { x: 350, y: 2300, z: 10400 }
}

/// The node identifier of member `i`'s body.
pub fn body_id(i: usize) -> (id: usize)
    requires
        i < SQUADRON_SIZE,
    ensures
        id == 2 + 4 * i,
{
    2 + 4 * i
}

/// The node identifier of member `i`'s door.
pub fn door_id(i: usize) -> (id: usize)
    requires
        i < SQUADRON_SIZE,
    ensures
        id == 3 + 4 * i,
{
    3 + 4 * i
}

/// The node identifier of member `i`'s main rotor.
pub fn main_rotor_id(i: usize) -> (id: usize)
    requires
        i < SQUADRON_SIZE,
    ensures
        id == 4 + 4 * i,
{
    4 + 4 * i
}

/// The node identifier of member `i`'s tail rotor.
pub fn tail_rotor_id(i: usize) -> (id: usize)
    requires
        i < SQUADRON_SIZE,
    ensures
        id == 5 + 4 * i,
{
    5 + 4 * i
}

/// What [`SceneGraph::attach_drawable`] stores for a handle and a signed
/// index count: a drawable for a non-negative count, a pure container for
/// the negative sentinel.
pub open spec fn mk_drawable(vao: u32, index_count: i32) -> Option<crate::scene::Drawable> {
    if index_count >= 0 {
        Some(crate::scene::Drawable { vao, index_count: index_count as u32 })
    } else {
        None
    }
}

/// The edges of one squadron member: the body under the terrain node, the
/// three parts under the body, in door / main rotor / tail rotor order.
pub open spec fn member_structure_ok(g: Seq<NodeV>, i: int) -> bool {
    let b = 2 + 4 * i;
    let d = 3 + 4 * i;
    let m = 4 + 4 * i;
    let t = 5 + 4 * i;
    &&& g[b].parent == Some(TERRAIN_ID)
    &&& g[b].children == seq![d as usize, m as usize, t as usize]
    &&& g[d].parent == Some(b as usize)
    &&& g[d].children == Seq::<usize>::empty()
    &&& g[m].parent == Some(b as usize)
    &&& g[m].children == Seq::<usize>::empty()
    &&& g[t].parent == Some(b as usize)
    &&& g[t].children == Seq::<usize>::empty()
}

/// The whole scene's edges: root over terrain, terrain over the squadron's
/// bodies in member order, each member as in [`member_structure_ok`].
pub open spec fn squadron_structure_ok(g: Seq<NodeV>) -> bool {
    &&& g.len() == NODE_COUNT
    &&& g[0].parent is None
    &&& g[0].children == seq![TERRAIN_ID]
    &&& g[1].parent == Some(ROOT_ID)
    &&& g[1].children == seq![2usize, 6usize, 10usize, 14usize, 18usize]
    &&& forall|i: int| 0 <= i < 5 ==> #[trigger] member_structure_ok(g, i)
}

/// The drawables of the whole scene: the root draws nothing, the terrain and
/// every member part carry what [`build_scene`] was handed for their role.
pub open spec fn squadron_drawables_ok(
    g: Seq<NodeV>,
    terrain: (u32, i32),
    body: (u32, i32),
    door: (u32, i32),
    main_rotor: (u32, i32),
    tail_rotor: (u32, i32),
) -> bool {
    &&& g[0].drawable is None
    &&& g[1].drawable == mk_drawable(terrain.0, terrain.1)
    &&& forall|i: int|
        0 <= i < 5 ==> (#[trigger] g[2 + 4 * i].drawable) == mk_drawable(body.0, body.1)
    &&& forall|i: int|
        0 <= i < 5 ==> (#[trigger] g[3 + 4 * i].drawable) == mk_drawable(door.0, door.1)
    &&& forall|i: int|
        0 <= i < 5 ==> (#[trigger] g[4 + 4 * i].drawable) == mk_drawable(
            main_rotor.0,
            main_rotor.1,
        )
    &&& forall|i: int|
        0 <= i < 5 ==> (#[trigger] g[5 + 4 * i].drawable) == mk_drawable(
            tail_rotor.0,
            tail_rotor.1,
        )
}

/// Every transform field of every node is still the identity.
pub open spec fn all_transforms_zero(g: Seq<NodeV>) -> bool {
    forall|j: int|
        0 <= j < g.len() ==> (#[trigger] g[j]).position == zero_vec() && g[j].rotation == zero_vec()
            && g[j].reference_point == zero_vec()
}

/// Attaches `child` under `parent`, for builders that have already
/// established every condition under which attachment succeeds.
fn must_add(g: &mut SceneGraph, parent: usize, child: usize)
    requires
        old(g).wf(),
        parent < old(g)@.len(),
        child < old(g)@.len(),
        old(g)@[child as int].parent is None,
        parent < child,
    ensures
        final(g).wf(),
        final(g)@ =~= old(g)@.update(
            parent as int,
            NodeV {
                children: old(g)@[parent as int].children.push(child),
                ..old(g)@[parent as int]
            },
        ).update(child as int, NodeV { parent: Some(parent), ..old(g)@[child as int] }),
{
    match g.add_child(parent, child) {
        Ok(_) => {},
        Err(_) => {
            proof {
                assert(false);
            }
        },
    }
}

/// Attaches a drawable, for builders that have already checked the
/// identifier.
fn must_attach(g: &mut SceneGraph, id: usize, vao: u32, index_count: i32)
    requires
        old(g).wf(),
        id < old(g)@.len(),
    ensures
        final(g).wf(),
        final(g)@ =~= old(g)@.update(
            id as int,
            NodeV { drawable: mk_drawable(vao, index_count), ..old(g)@[id as int] },
        ),
{
    match g.attach_drawable(id, vao, index_count) {
        Ok(_) => {},
        Err(_) => {
            proof {
                assert(false);
            }
        },
    }
}

/// Sets a node's transform fields, for callers that have already checked the
/// identifier.
fn must_set(g: &mut SceneGraph, id: usize, position: Vec3, rotation: Vec3, reference_point: Vec3)
    requires
        old(g).wf(),
        id < old(g)@.len(),
        reference_point.x > i64::MIN,
        reference_point.y > i64::MIN,
        reference_point.z > i64::MIN,
    ensures
        final(g).wf(),
        final(g)@ =~= old(g)@.update(
            id as int,
            NodeV { position, rotation, reference_point, ..old(g)@[id as int] },
        ),
{
    match g.set_transform(id, position, rotation, reference_point) {
        Ok(_) => {},
        Err(_) => {
            proof {
                assert(false);
            }
        },
    }
}

/// Builds the persistent scene once: the root group, the terrain under it,
/// and the squadron's members under the terrain, each member a body with
/// door, main rotor and tail rotor. Every transform field starts at the
/// identity; the drawables are the given `(handle, index count)` pairs, a
/// negative count marking a pure container.
pub fn build_scene(
    terrain: (u32, i32),
    body: (u32, i32),
    door: (u32, i32),
    main_rotor: (u32, i32),
    tail_rotor: (u32, i32),
) -> (g: SceneGraph)
    ensures
        g.wf(),
        squadron_structure_ok(g@),
        squadron_drawables_ok(g@, terrain, body, door, main_rotor, tail_rotor),
        all_transforms_zero(g@),
{
    let mut g = SceneGraph::new();
    let root = g.create_node();
    let terrain_id = g.create_node();
    must_add(&mut g, root, terrain_id);
    must_attach(&mut g, terrain_id, terrain.0, terrain.1);
    let mut m: usize = 0;
    while m < SQUADRON_SIZE
        invariant
            g.wf(),
            m <= SQUADRON_SIZE,
            g@.len() == 2 + 4 * m,
            g@[0].parent is None,
            g@[0].children == seq![TERRAIN_ID],
            g@[0].drawable is None,
            g@[1].parent == Some(ROOT_ID),
            g@[1].children.len() == m,
            forall|j: int| 0 <= j < m ==> (#[trigger] g@[1].children[j]) as int == 2 + 4 * j,
            g@[1].drawable == mk_drawable(terrain.0, terrain.1),
            forall|i: int| 0 <= i < m ==> #[trigger] member_structure_ok(g@, i),
            forall|i: int|
                0 <= i < m ==> (#[trigger] g@[2 + 4 * i].drawable) == mk_drawable(body.0, body.1),
            forall|i: int|
                0 <= i < m ==> (#[trigger] g@[3 + 4 * i].drawable) == mk_drawable(door.0, door.1),
            forall|i: int|
                0 <= i < m ==> (#[trigger] g@[4 + 4 * i].drawable) == mk_drawable(
                    main_rotor.0,
                    main_rotor.1,
                ),
            forall|i: int|
                0 <= i < m ==> (#[trigger] g@[5 + 4 * i].drawable) == mk_drawable(
                    tail_rotor.0,
                    tail_rotor.1,
                ),
            all_transforms_zero(g@),
        decreases SQUADRON_SIZE - m,
    {
        let ghost g0 = g@;
        let b = g.create_node();
        must_add(&mut g, TERRAIN_ID, b);
        must_attach(&mut g, b, body.0, body.1);
        let d = g.create_node();
        must_add(&mut g, b, d);
        must_attach(&mut g, d, door.0, door.1);
        let mr = g.create_node();
        must_add(&mut g, b, mr);
        must_attach(&mut g, mr, main_rotor.0, main_rotor.1);
        let tr = g.create_node();
        must_add(&mut g, b, tr);
        must_attach(&mut g, tr, tail_rotor.0, tail_rotor.1);
        proof {
            let mi = m as int;
            let gf = g@;
            assert(gf[2 + 4 * mi].children =~= seq![d, mr, tr]);
            assert(member_structure_ok(gf, mi));
            assert(gf[1].children =~= g0[1].children.push(b));
            assert forall|j: int| 0 <= j < mi + 1 implies (#[trigger] gf[1].children[j]) as int == 2
                + 4 * j by {
                if j < mi {
                    assert(gf[1].children[j] == g0[1].children[j]);
                } else {
                    assert(gf[1].children[j] == b);
                }
            }
            assert forall|i: int| 0 <= i < mi implies #[trigger] member_structure_ok(gf, i) by {
                assert(member_structure_ok(g0, i));
                assert(gf[2 + 4 * i] == g0[2 + 4 * i]);
                assert(gf[3 + 4 * i] == g0[3 + 4 * i]);
                assert(gf[4 + 4 * i] == g0[4 + 4 * i]);
                assert(gf[5 + 4 * i] == g0[5 + 4 * i]);
            }
        }
        m = m + 1;
    }
    proof {
        assert(g@[1].children =~= seq![2usize, 6usize, 10usize, 14usize, 18usize]);
    }
    g
}

/// Member `i`'s body position this frame: the heading sample's ground-plane
/// position at the member's phase, at the fixed altitude.
pub open spec fn body_position_spec(elapsed_ms: u64, i: int) -> Vec3 {
    let h = heading_spec(elapsed_ms, (i * (PHASE_STEP_MS as int)) as u64);
    Vec3 { x: h.x, y: ALTITUDE_MILLI, z: h.z }
}

/// Member `i`'s body rotation this frame: the heading sample's pitch, yaw
/// and roll about local x, y and z.
pub open spec fn body_rotation_spec(elapsed_ms: u64, i: int) -> Vec3 {
    let h = heading_spec(elapsed_ms, (i * (PHASE_STEP_MS as int)) as u64);
    Vec3 { x: h.pitch, y: h.yaw, z: h.roll }
}

/// The main rotor's rotation this frame: spinning about its local y axis.
pub open spec fn main_rotor_rotation_spec(elapsed_ms: u64) -> Vec3 {
    Vec3 { x: 0, y: spin_spec(elapsed_ms, MAIN_ROTOR_RPS), z: 0 }
}

/// The tail rotor's rotation this frame: spinning about its local x axis.
pub open spec fn tail_rotor_rotation_spec(elapsed_ms: u64) -> Vec3 {
    Vec3 { x: spin_spec(elapsed_ms, TAIL_ROTOR_RPS), y: 0, z: 0 }
}

/// What one frame of animation does to one member's four nodes: only the
/// transform fields move — drawables, edges, everything else stays.
pub open spec fn member_updated(g1: Seq<NodeV>, g2: Seq<NodeV>, elapsed_ms: u64, i: int) -> bool {
    let b = 2 + 4 * i;
    let d = 3 + 4 * i;
    let m = 4 + 4 * i;
    let t = 5 + 4 * i;
    &&& g2[b] == NodeV {
        position: body_position_spec(elapsed_ms, i),
        rotation: body_rotation_spec(elapsed_ms, i),
        reference_point: zero_vec(),
        ..g1[b]
    }
    &&& g2[d] == NodeV {
        position: zero_vec(),
        rotation: zero_vec(),
        reference_point: zero_vec(),
        ..g1[d]
    }
    &&& g2[m] == NodeV {
        position: zero_vec(),
        rotation: main_rotor_rotation_spec(elapsed_ms),
        reference_point: main_rotor_pivot(),
        ..g1[m]
    }
    &&& g2[t] == NodeV {
        position: zero_vec(),
        rotation: tail_rotor_rotation_spec(elapsed_ms),
        reference_point: tail_rotor_pivot(),
        ..g1[t]
    }
}

/// What one frame of animation does to the whole scene: the root and the
/// terrain stay, every member moves as [`member_updated`] says.
pub open spec fn squadron_updated(g1: Seq<NodeV>, g2: Seq<NodeV>, elapsed_ms: u64) -> bool {
    &&& g2.len() == g1.len()
    &&& g2[0] == g1[0]
    &&& g2[1] == g1[1]
    &&& forall|i: int| 0 <= i < 5 ==> #[trigger] member_updated(g1, g2, elapsed_ms, i)
}

/// Advances the animation: samples the heading of every squadron member at
/// `elapsed + phase_i` and writes the members' transform fields in place.
/// Structure and drawables are untouched.
pub fn update_squadron(g: &mut SceneGraph, elapsed_ms: u64)
    requires
        old(g).wf(),
        squadron_structure_ok(old(g)@),
    ensures
        final(g).wf(),
        squadron_structure_ok(final(g)@),
        squadron_updated(old(g)@, final(g)@, elapsed_ms),
{
    let mut i: usize = 0;
    while i < SQUADRON_SIZE
        invariant
            g.wf(),
            i <= SQUADRON_SIZE,
            g@.len() == old(g)@.len(),
            squadron_structure_ok(old(g)@),
            g@[0] == old(g)@[0],
            g@[1] == old(g)@[1],
            forall|j: int| 0 <= j < i ==> #[trigger] member_updated(old(g)@, g@, elapsed_ms, j),
            forall|j: int|
                4 * i + 2 <= j < g@.len() ==> (#[trigger] g@[j]) == old(g)@[j],
        decreases SQUADRON_SIZE - i,
    {
        let ghost g0 = g@;
        let h = sample_heading(elapsed_ms, (i as u64) * PHASE_STEP_MS);
        let b = body_id(i);
        let d = door_id(i);
        let mr = main_rotor_id(i);
        let tr = tail_rotor_id(i);
        must_set(
            g,
            b,
            Vec3 { x: h.x, y: ALTITUDE_MILLI, z: h.z },
            Vec3 { x: h.pitch, y: h.yaw, z: h.roll },
            Vec3 { x: 0, y: 0, z: 0 },
        );
        must_set(g, d, Vec3 { x: 0, y: 0, z: 0 }, Vec3 { x: 0, y: 0, z: 0 }, Vec3 { x: 0, y: 0, z: 0 });
        let spin_main = spin_angle(elapsed_ms, MAIN_ROTOR_RPS);
        must_set(
            g,
            mr,
            Vec3 { x: 0, y: 0, z: 0 },
            Vec3 { x: 0, y: spin_main, z: 0 },
            Vec3 { x: 0, y: 2300, z: 0 },
        );
        let spin_tail = spin_angle(elapsed_ms, TAIL_ROTOR_RPS);
        must_set(
            g,
            tr,
            Vec3 { x: 0, y: 0, z: 0 },
            Vec3 { x: spin_tail, y: 0, z: 0 },
            Vec3 { x: 350, y: 2300, z: 10400 },
        );
        proof {
            let ii = i as int;
            assert(member_updated(old(g)@, g@, elapsed_ms, ii));
            assert forall|j: int| 0 <= j < ii implies #[trigger] member_updated(
                old(g)@,
                g@,
                elapsed_ms,
                j,
            ) by {
                assert(member_updated(old(g)@, g0, elapsed_ms, j));
                assert(g@[2 + 4 * j] == g0[2 + 4 * j]);
                assert(g@[3 + 4 * j] == g0[3 + 4 * j]);
                assert(g@[4 + 4 * j] == g0[4 + 4 * j]);
                assert(g@[5 + 4 * j] == g0[5 + 4 * j]);
            }
        }
        i = i + 1;
    }
    proof {
        assert(squadron_structure_ok(g@)) by {
            assert forall|i: int| 0 <= i < 5 implies #[trigger] member_structure_ok(g@, i) by {
                assert(member_structure_ok(old(g)@, i));
                assert(member_updated(old(g)@, g@, elapsed_ms, i));
            }
        }
    }
}

/// What one whole frame step hands back to the render thread.
pub struct FrameOutput {
    /// A pending window resize to apply to the viewport, if one arrived.
    pub viewport: Option<(u32, u32)>,
    /// This frame's view-projection transform.
    pub camera: Vec<Prim>,
    /// This frame's draw commands, in pre-order.
    pub cmds: Vec<DrawCmd>,
}

/// One iteration of the frame scheduler, after the caller has read the
/// input cells: applies a pending resize to the frame's viewport, folds
/// every held key into exactly one control update scaled by the frame's
/// delta time, recomputes the view-projection, advances the squadron's
/// animation at `elapsed_ms`, and composes the frame's draw commands.
pub fn frame_step(
    g: &mut SceneGraph,
    cam: &mut Camera,
    elapsed_ms: u64,
    delta_ms: u32,
    held: &Vec<u32>,
    resize: Option<(u32, u32)>,
    width: u32,
    height: u32,
) -> (out: FrameOutput)
    requires
        old(g).wf(),
        squadron_structure_ok(old(g)@),
    ensures
        final(g).wf(),
        squadron_structure_ok(final(g)@),
        squadron_updated(old(g)@, final(g)@, elapsed_ms),
        *final(cam) == fold_keys_spec(*old(cam), held@, delta_ms),
        out.viewport == resize,
        ({
            let wh = match resize {
                Some(wh) => wh,
                None => (width, height),
            };
            out.camera@ == camera_prims_spec(*final(cam), wh.0, wh.1)
        }),
        cmds_view(out.cmds@) == draw_list(final(g)@, ROOT_ID as int, out.camera@),
{
    let (w, h) = match resize {
        Some((w, h)) => (w, h),
        None => (width, height),
    };
    cam.fold_keys(held, delta_ms);
    let camera = camera_prims(cam, w, h);
    update_squadron(g, elapsed_ms);
    let cmds = match compose(g, ROOT_ID, &camera) {
        Ok(c) => c,
        Err(_) => {
            proof {
                assert(false);
            }
            Vec::new()
        },
    };
    FrameOutput { viewport: resize, camera, cmds }
}

} // verus!
