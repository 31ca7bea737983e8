//! The transform composer: a depth-first pre-order walk that turns the scene
//! graph into world transforms and draw commands.
//!
//! The world transform of a node is defined recursively along its parent
//! chain: `world(N) = world(parent(N)) * local(N)`, with the local transform
//! of [`crate::transform::local_prims`]; the walk hands the whole scene as a
//! command list to whatever evaluates the symbolic factors and issues the
//! GPU calls. For a drawn root the full transform also carries the
//! view-projection in front: `viewProjection * world(N)`.

use vstd::prelude::*;

use crate::scene::{graph_wf, node_wf, Drawable, NodeV, SceneError, SceneGraph};
use crate::transform::{local_prims, norm, Prim, Vec3};

verus! {

/// One draw call: bind the node's GPU resource and draw `index_count`
/// indices under the world transform `world`.
pub struct DrawCmd {
    pub node: usize,
    pub vao: u32,
    pub index_count: u32,
    pub world: Vec<Prim>,
}

/// The mathematical value of one draw call.
pub struct DrawCmdV {
    pub node: usize,
    pub vao: u32,
    pub index_count: u32,
    pub world: Seq<Prim>,
}

impl View for DrawCmd {
    type V = DrawCmdV;

    open spec fn view(&self) -> DrawCmdV {
        DrawCmdV {
            node: self.node,
            vao: self.vao,
            index_count: self.index_count,
            world: self.world@,
        }
    }
}

/// The values of a command list.
pub open spec fn cmds_view(s: Seq<DrawCmd>) -> Seq<DrawCmdV> {
    Seq::new(s.len(), |j: int| s[j]@)
}

/// The local transform of a node value.
pub open spec fn local_of(n: NodeV) -> Seq<Prim> {
    local_prims(n.position, n.rotation, n.reference_point)
}

/// The world transform of node `i`, relative to the space the root sits in:
/// the product of the local transforms along the path from the root down to
/// `i`.
pub open spec fn world_prims(g: Seq<NodeV>, i: int) -> Seq<Prim>
    decreases i,
        when graph_wf(g) && 0 <= i < g.len()
{
    match g[i].parent {
        None => local_of(g[i]),
        Some(p) => {
            proof {
                assert(node_wf(g, i));
            }
            world_prims(g, p as int) + local_of(g[i])
        },
    }
}

/// The command a node emits for itself under the full transform `w`: one
/// draw call if it is drawable, nothing if it is a pure container.
pub open spec fn own_cmds(n: NodeV, i: usize, w: Seq<Prim>) -> Seq<DrawCmdV> {
    match n.drawable {
        Some(d) => seq![DrawCmdV { node: i, vao: d.vao, index_count: d.index_count, world: w }],
        None => Seq::empty(),
    }
}

/// The commands of the pre-order walk of the subtree rooted at `i`, where
/// `w` is the full transform of `i`'s parent (view-projection included):
/// first the node's own command under `w * local(i)`, then its children's
/// subtrees in sibling (insertion) order.
pub open spec fn draw_list(g: Seq<NodeV>, i: int, w: Seq<Prim>) -> Seq<DrawCmdV>
    decreases g.len() - i, g[i].children.len() + 1,
        when graph_wf(g) && 0 <= i < g.len()
{
    let wl = w + local_of(g[i]);
    own_cmds(g[i], i as usize, wl) + draw_kids(g, i, 0, wl)
}

/// The commands of the subtrees of `i`'s children from sibling index `k` on,
/// where `wl` is the full transform of `i` itself.
pub open spec fn draw_kids(g: Seq<NodeV>, i: int, k: int, wl: Seq<Prim>) -> Seq<DrawCmdV>
    decreases g.len() - i, g[i].children.len() - k,
        when graph_wf(g) && 0 <= i < g.len() && 0 <= k <= g[i].children.len()
{
    if k == g[i].children.len() {
        Seq::empty()
    } else {
        proof {
            assert(node_wf(g, i));
        }
        draw_list(g, g[i].children[k] as int, wl) + draw_kids(g, i, k + 1, wl)
    }
}

/// An exact copy of a transform.
fn copy_prims(w: &Vec<Prim>) -> (r: Vec<Prim>)
    ensures
        r@ == w@,
{
    let mut out: Vec<Prim> = Vec::new();
    let mut t: usize = 0;
    while t < w.len()
        invariant
            t <= w@.len(),
            out@ =~= w@.subrange(0, t as int),
        decreases w@.len() - t,
    {
        out.push(w[t]);
        t = t + 1;
    }
    proof {
        assert(out@ =~= w@);
    }
    out
}

/// Appends the subtree of node `i` to `out`, in pre-order, where `w` is the
/// full transform of `i`'s parent.
fn walk(g: &SceneGraph, i: usize, w: &Vec<Prim>, out: &mut Vec<DrawCmd>)
    requires
        g.wf(),
        i < g@.len(),
    ensures
        cmds_view(final(out)@) == cmds_view(old(out)@) + draw_list(g@, i as int, w@),
    decreases g@.len() - i,
{
    proof {
        assert(node_wf(g@, i as int));
    }
    let pos = g.node_position(i);
    let rot = g.node_rotation(i);
    let refp = g.node_reference_point(i);
    let mut wl = copy_prims(w);
    wl.push(Prim::Translate(pos));
    wl.push(Prim::Translate(refp));
    wl.push(Prim::RotZ(rot.z));
    wl.push(Prim::RotY(rot.y));
    wl.push(Prim::RotX(rot.x));
    wl.push(Prim::Translate(Vec3 { x: -refp.x, y: -refp.y, z: -refp.z }));
    proof {
        assert(wl@ =~= w@ + local_of(g@[i as int]));
    }
    match g.node_drawable(i) {
        Some(d) => {
            let world = copy_prims(&wl);
            out.push(DrawCmd { node: i, vao: d.vao, index_count: d.index_count, world });
            proof {
                assert(cmds_view(out@) =~= cmds_view(old(out)@) + own_cmds(
                    g@[i as int],
                    i,
                    wl@,
                ));
            }
        },
        None => {
            proof {
                assert(cmds_view(out@) =~= cmds_view(old(out)@) + own_cmds(
                    g@[i as int],
                    i,
                    wl@,
                ));
            }
        },
    }
    let n = g.kid_count(i);
    let mut k: usize = 0;
    proof {
        assert(cmds_view(out@) + draw_kids(g@, i as int, 0, wl@) =~= cmds_view(old(out)@)
            + draw_list(g@, i as int, w@));
    }
    while k < n
        invariant
            g.wf(),
            i < g@.len(),
            k <= n,
            n == g@[i as int].children.len(),
            wl@ == w@ + local_of(g@[i as int]),
            cmds_view(out@) + draw_kids(g@, i as int, k as int, wl@) == cmds_view(old(out)@)
                + draw_list(g@, i as int, w@),
        decreases n - k,
    {
        proof {
            assert(node_wf(g@, i as int));
        }
        let c = g.kid_at(i, k);
        let ghost pre = out@;
        walk(g, c, &wl, out);
        proof {
            assert(draw_kids(g@, i as int, k as int, wl@) == draw_list(g@, c as int, wl@)
                + draw_kids(g@, i as int, k as int + 1, wl@));
            assert(cmds_view(out@) =~= cmds_view(pre) + draw_list(g@, c as int, wl@));
            assert(cmds_view(out@) + draw_kids(g@, i as int, k as int + 1, wl@) =~= cmds_view(pre)
                + draw_kids(g@, i as int, k as int, wl@));
        }
        k = k + 1;
    }
}

/// Walks the graph from `root` depth-first in pre-order and returns the draw
/// commands of every drawable node, each under its full world transform
/// `viewProjection * world(N)`, siblings in insertion order, no node visited
/// twice. An identifier out of range is a reported error.
pub fn compose(g: &SceneGraph, root: usize, view_projection: &Vec<Prim>) -> (r: Result<
    Vec<DrawCmd>,
    SceneError,
>)
    requires
        g.wf(),
    ensures
        root < g@.len() ==> (r matches Ok(cmds) && cmds_view(cmds@) == draw_list(
            g@,
            root as int,
            view_projection@,
        )),
        root >= g@.len() ==> r == Err::<Vec<DrawCmd>, SceneError>(SceneError::InvalidNode),
{
    if root >= g.len() {
        return Err(SceneError::InvalidNode);
    }
    let mut out: Vec<DrawCmd> = Vec::new();
    walk(g, root, view_projection, &mut out);
    proof {
        assert(cmds_view(out@) =~= cmds_view(Seq::empty()) + draw_list(
            g@,
            root as int,
            view_projection@,
        ));
        assert(cmds_view(Seq::empty()) + draw_list(g@, root as int, view_projection@) =~= draw_list(
            g@,
            root as int,
            view_projection@,
        ));
    }
    Ok(out)
}

/// Composability, along an edge: the world transform of a node with a parent
/// is its parent's world transform times its own local transform.
pub proof fn lemma_world_composes(g: Seq<NodeV>, n: int, p: usize)
    requires
        graph_wf(g),
        0 <= n < g.len(),
        g[n].parent == Some(p),
    ensures
        world_prims(g, n) == world_prims(g, p as int) + local_of(g[n]),
{
    assert(node_wf(g, n));
}

/// What the composability law says of one emitted command: it draws a
/// drawable node of the graph, under exactly `base * world(node)`.
pub open spec fn cmd_world_ok(g: Seq<NodeV>, base: Seq<Prim>, c: DrawCmdV) -> bool {
    &&& 0 <= (c.node as int) < g.len()
    &&& g[c.node as int].drawable == Some(Drawable { vao: c.vao, index_count: c.index_count })
    &&& c.world == base + world_prims(g, c.node as int)
}

/// Composability, over the composer's output: every command the walk of the
/// subtree at `i` emits draws a drawable node of the graph under exactly
/// `base * world(node)`, where `base` stands for the view-projection and the
/// walk was handed `base * world(parent(i))` (just `base` at a root).
pub proof fn lemma_draw_list_worlds(g: Seq<NodeV>, i: int, base: Seq<Prim>, w0: Seq<Prim>)
    requires
        graph_wf(g),
        g.len() <= usize::MAX,
        0 <= i < g.len(),
        w0 == (match g[i].parent {
            None => base,
            Some(p) => base + world_prims(g, p as int),
        }),
    ensures
        forall|j: int|
            0 <= j < draw_list(g, i, w0).len() ==> cmd_world_ok(
                g,
                base,
                #[trigger] draw_list(g, i, w0)[j],
            ),
    decreases g.len() - i, g[i].children.len() + 1,
{
    assert(node_wf(g, i));
    let wl = w0 + local_of(g[i]);
    assert(wl =~= base + world_prims(g, i));
    let own = own_cmds(g[i], i as usize, wl);
    let kids = draw_kids(g, i, 0, wl);
    let cmds = draw_list(g, i, w0);
    assert(cmds == own + kids);
    lemma_draw_kids_worlds(g, i, 0, base);
    assert forall|j: int| 0 <= j < cmds.len() implies cmd_world_ok(g, base, #[trigger] cmds[j]) by {
        if j < own.len() {
            assert(cmds[j] == own[j]);
            assert(own[j].node as int == i);
            assert(cmd_world_ok(g, base, own[j]));
        } else {
            assert(cmds[j] == kids[j - own.len()]);
            assert(cmd_world_ok(g, base, draw_kids(g, i, 0, base + world_prims(g, i))[j - own.len()]));
        }
    }
}

/// Composability, over the children of `i` from sibling index `k` on.
proof fn lemma_draw_kids_worlds(g: Seq<NodeV>, i: int, k: int, base: Seq<Prim>)
    requires
        graph_wf(g),
        g.len() <= usize::MAX,
        0 <= i < g.len(),
        0 <= k <= g[i].children.len(),
    ensures
        forall|j: int|
            0 <= j < draw_kids(g, i, k, base + world_prims(g, i)).len() ==> cmd_world_ok(
                g,
                base,
                #[trigger] draw_kids(g, i, k, base + world_prims(g, i))[j],
            ),
    decreases g.len() - i, g[i].children.len() - k,
{
    assert(node_wf(g, i));
    let wl = base + world_prims(g, i);
    if k == g[i].children.len() {
    } else {
        let c = g[i].children[k] as int;
        assert(i < c && c < g.len());
        assert(g[c].parent matches Some(pp) && pp as int == i);
        let w0c = match g[c].parent {
            None => base,
            Some(p) => base + world_prims(g, p as int),
        };
        assert(w0c == wl);
        lemma_draw_list_worlds(g, c, base, wl);
        lemma_draw_kids_worlds(g, i, k + 1, base);
        let a = draw_list(g, c, wl);
        let b = draw_kids(g, i, k + 1, base + world_prims(g, i));
        let cmds = draw_kids(g, i, k, wl);
        assert(cmds == a + b);
        assert forall|j: int| 0 <= j < cmds.len() implies cmd_world_ok(
            g,
            base,
            #[trigger] cmds[j],
        ) by {
            if j < a.len() {
                assert(cmds[j] == a[j]);
                assert(cmd_world_ok(g, base, draw_list(g, c, wl)[j]));
            } else {
                assert(cmds[j] == b[j - a.len()]);
                assert(cmd_world_ok(g, base, draw_kids(g, i, k + 1, base + world_prims(g, i))[j - a.len()]));
            }
        }
    }
}

/// The world transform of a root with identity transform fields is the
/// view-projection itself: the two agree factor for factor once identity
/// factors are elided.
pub proof fn lemma_root_world(g: Seq<NodeV>, root: int, view_projection: Seq<Prim>)
    requires
        graph_wf(g),
        0 <= root < g.len(),
        g[root].parent is None,
        g[root].position == (Vec3 { x: 0, y: 0, z: 0 }),
        g[root].rotation == (Vec3 { x: 0, y: 0, z: 0 }),
        g[root].reference_point == (Vec3 { x: 0, y: 0, z: 0 }),
    ensures
        norm(view_projection + world_prims(g, root)) == norm(view_projection),
{
    let l = local_of(g[root]);
    assert(world_prims(g, root) == l);
    let pred = |p: Prim| !crate::transform::is_identity(p);
    assert(l.filter(pred).len() == 0) by {
        assert forall|j: int| 0 <= j < l.len() implies !(#[trigger] pred(l[j])) by {
            assert(crate::transform::neg_vec3(Vec3 { x: 0, y: 0, z: 0 }) == (Vec3 {
                x: 0,
                y: 0,
                z: 0,
            }));
            if j == 0 {
                assert(l[0] == Prim::Translate(g[root].position));
            } else if j == 1 {
                assert(l[1] == Prim::Translate(g[root].reference_point));
            } else if j == 2 {
                assert(l[2] == Prim::RotZ(0i64));
            } else if j == 3 {
                assert(l[3] == Prim::RotY(0i64));
            } else if j == 4 {
                assert(l[4] == Prim::RotX(0i64));
            } else {
                assert(l[5] == Prim::Translate(Vec3 { x: 0, y: 0, z: 0 }));
            }
        }
        l.lemma_all_neg_filter_empty(pred);
    }
    Seq::filter_distributes_over_add(view_projection, l, pred);
    assert(norm(view_projection + l) =~= norm(view_projection));
}

} // verus!
