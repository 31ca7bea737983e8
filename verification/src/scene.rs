//! The scene graph: an arena of nodes addressed by stable integer
//! identifiers.
//!
//! Every node holds an optional drawable, the three transform fields
//! (position, rotation, reference point) and an ordered list of child
//! identifiers. The arena admits only creation-ordered edges — a child's
//! identifier is always greater than its parent's — so the graph is a strict
//! forest by construction: ownership is single (a node has at most one
//! parent) and no downward walk can revisit a node, since identifiers
//! strictly increase along every edge. An attachment that would create a
//! cycle always has the prospective child's identifier below the parent's
//! and is therefore refused.

use vstd::prelude::*;

use crate::transform::Vec3;

verus! {

/// A GPU geometry resource: an opaque handle and the number of indices to
/// draw. A node whose `index_count` would be the negative sentinel carries
/// no `Drawable` at all (see [`SceneGraph::attach_drawable`]).
#[derive(Clone, Copy, Debug, PartialEq, Eq, Structural)]
pub struct Drawable {
    pub vao: u32,
    pub index_count: u32,
}

/// What can go wrong when addressing the arena.
#[derive(Clone, Copy, Debug, PartialEq, Eq, Structural)]
pub enum SceneError {
    /// The identifier does not name a node of this graph.
    InvalidNode,
    /// A child index is not below the node's child count.
    IndexOutOfBounds,
    /// The child already has a parent; ownership is single.
    AlreadyOwned,
    /// The child was created no later than the parent. The arena admits only
    /// creation-ordered edges, which is what rules out cycles.
    AttachOrder,
}

/// The mathematical value of one node.
pub struct NodeV {
    pub drawable: Option<Drawable>,
    pub position: Vec3,
    pub rotation: Vec3,
    pub reference_point: Vec3,
    pub parent: Option<usize>,
    pub children: Seq<usize>,
}

/// Whether `s` holds an identifier whose value is `i`.
pub open spec fn holds_id(s: Seq<usize>, i: int) -> bool {
    exists|k: int| 0 <= k < s.len() && (#[trigger] s[k]) as int == i
}

/// Well-formedness of one node of the arena: its parent edge and child edges
/// agree, every edge goes from a smaller to a strictly greater identifier,
/// the child list has no duplicates, and the reference point can be negated.
pub open spec fn node_wf(g: Seq<NodeV>, i: int) -> bool {
    &&& (match g[i].parent {
        Some(p) => (p as int) < i && holds_id(g[p as int].children, i),
        None => true,
    })
    &&& (forall|k: int|
        0 <= k < g[i].children.len() ==> {
            let c = (#[trigger] g[i].children[k]) as int;
            i < c && c < g.len() && (g[c].parent matches Some(pp) && pp as int == i)
        })
    &&& (forall|k1: int, k2: int|
        0 <= k1 < k2 < g[i].children.len() ==> #[trigger] g[i].children[k1]
            != #[trigger] g[i].children[k2])
    &&& g[i].reference_point.x > i64::MIN
    &&& g[i].reference_point.y > i64::MIN
    &&& g[i].reference_point.z > i64::MIN
}

/// Well-formedness of the whole arena.
pub open spec fn graph_wf(g: Seq<NodeV>) -> bool {
    forall|i: int| 0 <= i < g.len() ==> #[trigger] node_wf(g, i)
}

/// The value of a node fresh from [`SceneGraph::create_node`]: a pure
/// grouping node with identity transform fields and no edges.
pub open spec fn empty_node_v() -> NodeV {
    NodeV {
        drawable: None,
        position: Vec3 { x: 0, y: 0, z: 0 },
        rotation: Vec3 { x: 0, y: 0, z: 0 },
        reference_point: Vec3 { x: 0, y: 0, z: 0 },
        parent: None,
        children: Seq::empty(),
    }
}

/// The arena. The node fields are kept in parallel columns so that a
/// per-frame transform update replaces scalar entries and never allocates.
pub struct SceneGraph {
    drawables: Vec<Option<Drawable>>,
    positions: Vec<Vec3>,
    rotations: Vec<Vec3>,
    reference_points: Vec<Vec3>,
    parents: Vec<Option<usize>>,
    children: Vec<Vec<usize>>,
}

impl View for SceneGraph {
    type V = Seq<NodeV>;

    closed spec fn view(&self) -> Seq<NodeV> {
        Seq::new(
            self.parents@.len(),
            |i: int|
                NodeV {
                    drawable: self.drawables@[i],
                    position: self.positions@[i],
                    rotation: self.rotations@[i],
                    reference_point: self.reference_points@[i],
                    parent: self.parents@[i],
                    children: self.children@[i]@,
                },
        )
    }
}

impl SceneGraph {
    /// The columns all have the node count's length.
    pub closed spec fn columns_ok(&self) -> bool {
        &&& self.drawables@.len() == self.parents@.len()
        &&& self.positions@.len() == self.parents@.len()
        &&& self.rotations@.len() == self.parents@.len()
        &&& self.reference_points@.len() == self.parents@.len()
        &&& self.children@.len() == self.parents@.len()
    }

    /// The arena's invariant: constructors establish it and every method
    /// preserves it.
    pub open spec fn wf(&self) -> bool {
        self.columns_ok() && graph_wf(self@)
    }

    /// An empty arena.
    pub fn new() -> (g: SceneGraph)
        ensures
            g@ =~= Seq::<NodeV>::empty(),
            g.wf(),
    {
        SceneGraph {
            drawables: Vec::new(),
            positions: Vec::new(),
            rotations: Vec::new(),
            reference_points: Vec::new(),
            parents: Vec::new(),
            children: Vec::new(),
        }
    }

    /// The number of nodes.
    pub fn len(&self) -> (n: usize)
        requires
            self.wf(),
        ensures
            n == self@.len(),
    {
        self.parents.len()
    }

    /// Allocates an empty grouping node — no drawable, identity transform
    /// fields, no edges — and returns its identifier.
    pub fn create_node(&mut self) -> (id: usize)
        requires
            old(self).wf(),
        ensures
            final(self).wf(),
            id == old(self)@.len(),
            final(self)@ =~= old(self)@.push(empty_node_v()),
    {
        let id = self.parents.len();
        self.drawables.push(None);
        self.positions.push(Vec3 { x: 0, y: 0, z: 0 });
        self.rotations.push(Vec3 { x: 0, y: 0, z: 0 });
        self.reference_points.push(Vec3 { x: 0, y: 0, z: 0 });
        self.parents.push(None);
        self.children.push(Vec::new());
        proof {
            let g = old(self)@;
            let g2 = self@;
            assert(g2 =~= g.push(empty_node_v()));
            assert forall|i: int| 0 <= i < g2.len() implies #[trigger] node_wf(g2, i) by {
                if i < g.len() {
                    assert(node_wf(g, i));
                    assert(g2[i] == g[i]);
                    match g[i].parent {
                        Some(p) => {
                            assert(g2[p as int] == g[p as int]);
                        },
                        None => {},
                    }
                    assert forall|k: int| 0 <= k < g2[i].children.len() implies {
                        let c = (#[trigger] g2[i].children[k]) as int;
                        i < c && c < g2.len() && (g2[c].parent matches Some(pp) && pp as int == i)
                    } by {
                        let c = g2[i].children[k] as int;
                        assert(i < c && c < g.len());
                        assert(g2[c] == g[c]);
                    }
                } else {
                    assert(g2[i] == empty_node_v());
                }
            }
        }
        id
    }

    /// Associates a GPU resource with the node. A non-negative `index_count`
    /// marks the node drawable with that many indices; the negative sentinel
    /// marks it a pure container, stored explicitly as the absence of a
    /// drawable. Fails only on an identifier out of range.
    pub fn attach_drawable(&mut self, id: usize, vao: u32, index_count: i32) -> (r: Result<
        (),
        SceneError,
    >)
        requires
            old(self).wf(),
        ensures
            final(self).wf(),
            id >= old(self)@.len() ==> r == Err::<(), SceneError>(SceneError::InvalidNode)
                && final(self)@ =~= old(self)@,
            id < old(self)@.len() ==> r == Ok::<(), SceneError>(()) && final(self)@ =~= old(
                self,
            )@.update(
                id as int,
                NodeV {
                    drawable: if index_count >= 0 {
                        Some(Drawable { vao, index_count: index_count as u32 })
                    } else {
                        None
                    },
                    ..old(self)@[id as int]
                },
            ),
    {
        if id >= self.parents.len() {
            return Err(SceneError::InvalidNode);
        }
        let d: Option<Drawable> = if index_count >= 0 {
            Some(Drawable { vao, index_count: index_count as u32 })
        } else {
            None
        };
        self.drawables[id] = d;
        proof {
            let g = old(self)@;
            let g2 = self@;
            assert(g2 =~= g.update(id as int, NodeV { drawable: d, ..g[id as int] }));
            assert forall|i: int|
                0 <= i < g.len() implies (#[trigger] g2[i]).parent == g[i].parent && g2[i].children
                == g[i].children && g2[i].reference_point.x > i64::MIN
                && g2[i].reference_point.y > i64::MIN && g2[i].reference_point.z > i64::MIN by {
                assert(node_wf(g, i));
            }
            Self::lemma_same_structure_wf(g, g2);
        }
        Ok(())
    }

    /// Mutates the three transform fields in place; no allocation, callable
    /// every frame. Fails only on an identifier out of range. The reference
    /// point must stay negatable in `i64`, which every in-world coordinate
    /// is.
    pub fn set_transform(
        &mut self,
        id: usize,
        position: Vec3,
        rotation: Vec3,
        reference_point: Vec3,
    ) -> (r: Result<(), SceneError>)
        requires
            old(self).wf(),
            reference_point.x > i64::MIN,
            reference_point.y > i64::MIN,
            reference_point.z > i64::MIN,
        ensures
            final(self).wf(),
            id >= old(self)@.len() ==> r == Err::<(), SceneError>(SceneError::InvalidNode)
                && final(self)@ =~= old(self)@,
            id < old(self)@.len() ==> r == Ok::<(), SceneError>(()) && final(self)@ =~= old(
                self,
            )@.update(
                id as int,
                NodeV { position, rotation, reference_point, ..old(self)@[id as int] },
            ),
    {
        if id >= self.parents.len() {
            return Err(SceneError::InvalidNode);
        }
        self.positions[id] = position;
        self.rotations[id] = rotation;
        self.reference_points[id] = reference_point;
        proof {
            let g = old(self)@;
            let g2 = self@;
            assert(g2 =~= g.update(
                id as int,
                NodeV { position, rotation, reference_point, ..g[id as int] },
            ));
            assert forall|i: int|
                0 <= i < g.len() implies (#[trigger] g2[i]).parent == g[i].parent && g2[i].children
                == g[i].children && g2[i].reference_point.x > i64::MIN
                && g2[i].reference_point.y > i64::MIN && g2[i].reference_point.z > i64::MIN by {
                assert(node_wf(g, i));
            }
            Self::lemma_same_structure_wf(g, g2);
        }
        Ok(())
    }

    /// Transfers ownership of `child` into `parent`'s child list, at the end
    /// (sibling order is insertion order). Fails — loudly, never silently —
    /// if either identifier is out of range, if the child already has a
    /// parent (ownership is single; this is what prevents graph corruption),
    /// or if the edge is not creation-ordered (which is how a cycle would
    /// arise).
    pub fn add_child(&mut self, parent: usize, child: usize) -> (r: Result<(), SceneError>)
        requires
            old(self).wf(),
        ensures
            final(self).wf(),
            r == Ok::<(), SceneError>(()) <==> (parent < old(self)@.len() && child < old(
                self,
            )@.len() && old(self)@[child as int].parent is None && parent < child),
            r is Err ==> final(self)@ =~= old(self)@,
            r is Ok ==> final(self)@ =~= old(self)@.update(
                parent as int,
                NodeV {
                    children: old(self)@[parent as int].children.push(child),
                    ..old(self)@[parent as int]
                },
            ).update(
                child as int,
                NodeV { parent: Some(parent), ..old(self)@[child as int] },
            ),
            r == Err::<(), SceneError>(SceneError::InvalidNode) <==> (parent >= old(self)@.len()
                || child >= old(self)@.len()),
            r == Err::<(), SceneError>(SceneError::AlreadyOwned) <==> (parent < old(self)@.len()
                && child < old(self)@.len() && old(self)@[child as int].parent is Some),
            r == Err::<(), SceneError>(SceneError::AttachOrder) <==> (parent < old(self)@.len()
                && child < old(self)@.len() && old(self)@[child as int].parent is None && child
                <= parent),
    {
        let n = self.parents.len();
        if parent >= n || child >= n {
            return Err(SceneError::InvalidNode);
        }
        if self.parents[child].is_some() {
            return Err(SceneError::AlreadyOwned);
        }
        if child <= parent {
            return Err(SceneError::AttachOrder);
        }
        let mut kids = self.children.remove(parent);
        kids.push(child);
        self.children.insert(parent, kids);
        self.parents[child] = Some(parent);
        proof {
            let g = old(self)@;
            let g2 = self@;
            let p = parent as int;
            let c = child as int;
            assert(g2 =~= g.update(
                p,
                NodeV { children: g[p].children.push(child), ..g[p] },
            ).update(c, NodeV { parent: Some(parent), ..g[c] }));
            Self::lemma_add_edge_wf(g, g2, p, c);
        }
        Ok(())
    }

    /// The node's number of children.
    pub fn child_count(&self, id: usize) -> (r: Result<usize, SceneError>)
        requires
            self.wf(),
        ensures
            id < self@.len() ==> r == Ok::<usize, SceneError>(
                self@[id as int].children.len() as usize,
            ),
            id >= self@.len() ==> r == Err::<usize, SceneError>(SceneError::InvalidNode),
    {
        if id >= self.parents.len() {
            return Err(SceneError::InvalidNode);
        }
        Ok(self.children[id].len())
    }

    /// The node's `k`-th child, in insertion order. An index at or above the
    /// child count is a reported bounds error, never a silently substituted
    /// default node.
    pub fn child_at(&self, id: usize, k: usize) -> (r: Result<usize, SceneError>)
        requires
            self.wf(),
        ensures
            id < self@.len() && k < self@[id as int].children.len() ==> r == Ok::<
                usize,
                SceneError,
            >(self@[id as int].children[k as int]),
            id >= self@.len() ==> r == Err::<usize, SceneError>(SceneError::InvalidNode),
            id < self@.len() && k >= self@[id as int].children.len() ==> r == Err::<
                usize,
                SceneError,
            >(SceneError::IndexOutOfBounds),
    {
        if id >= self.parents.len() {
            return Err(SceneError::InvalidNode);
        }
        if k >= self.children[id].len() {
            return Err(SceneError::IndexOutOfBounds);
        }
        Ok(self.children[id][k])
    }

    /// A copy of the node's child list, in insertion order.
    pub fn children_of(&self, id: usize) -> (r: Result<Vec<usize>, SceneError>)
        requires
            self.wf(),
        ensures
            id < self@.len() ==> (r matches Ok(v) && v@ == self@[id as int].children),
            id >= self@.len() ==> r == Err::<Vec<usize>, SceneError>(SceneError::InvalidNode),
    {
        if id >= self.parents.len() {
            return Err(SceneError::InvalidNode);
        }
        let mut out: Vec<usize> = Vec::new();
        let mut k: usize = 0;
        let list = &self.children[id];
        while k < list.len()
            invariant
                k <= list@.len(),
                out@ =~= list@.subrange(0, k as int),
            decreases list@.len() - k,
        {
            out.push(list[k]);
            k = k + 1;
        }
        proof {
            assert(out@ =~= list@);
        }
        Ok(out)
    }

    /// The node's parent, if it has one.
    pub fn parent_of(&self, id: usize) -> (r: Result<Option<usize>, SceneError>)
        requires
            self.wf(),
        ensures
            id < self@.len() ==> r == Ok::<Option<usize>, SceneError>(self@[id as int].parent),
            id >= self@.len() ==> r == Err::<Option<usize>, SceneError>(SceneError::InvalidNode),
    {
        if id >= self.parents.len() {
            return Err(SceneError::InvalidNode);
        }
        Ok(self.parents[id])
    }

    /// The node's drawable, if it has one.
    pub fn drawable_of(&self, id: usize) -> (r: Result<Option<Drawable>, SceneError>)
        requires
            self.wf(),
        ensures
            id < self@.len() ==> r == Ok::<Option<Drawable>, SceneError>(
                self@[id as int].drawable,
            ),
            id >= self@.len() ==> r == Err::<Option<Drawable>, SceneError>(SceneError::InvalidNode),
    {
        if id >= self.parents.len() {
            return Err(SceneError::InvalidNode);
        }
        Ok(self.drawables[id])
    }

    /// The node's position.
    pub fn position_of(&self, id: usize) -> (r: Result<Vec3, SceneError>)
        requires
            self.wf(),
        ensures
            id < self@.len() ==> r == Ok::<Vec3, SceneError>(self@[id as int].position),
            id >= self@.len() ==> r == Err::<Vec3, SceneError>(SceneError::InvalidNode),
    {
        if id >= self.parents.len() {
            return Err(SceneError::InvalidNode);
        }
        Ok(self.positions[id])
    }

    /// The node's rotation angles.
    pub fn rotation_of(&self, id: usize) -> (r: Result<Vec3, SceneError>)
        requires
            self.wf(),
        ensures
            id < self@.len() ==> r == Ok::<Vec3, SceneError>(self@[id as int].rotation),
            id >= self@.len() ==> r == Err::<Vec3, SceneError>(SceneError::InvalidNode),
    {
        if id >= self.parents.len() {
            return Err(SceneError::InvalidNode);
        }
        Ok(self.rotations[id])
    }

    /// The node's reference point (pivot).
    pub fn reference_point_of(&self, id: usize) -> (r: Result<Vec3, SceneError>)
        requires
            self.wf(),
        ensures
            id < self@.len() ==> r == Ok::<Vec3, SceneError>(self@[id as int].reference_point),
            id >= self@.len() ==> r == Err::<Vec3, SceneError>(SceneError::InvalidNode),
    {
        if id >= self.parents.len() {
            return Err(SceneError::InvalidNode);
        }
        Ok(self.reference_points[id])
    }

    /// The node's position, for callers that have already checked the
    /// identifier.
    pub(crate) fn node_position(&self, id: usize) -> (v: Vec3)
        requires
            self.wf(),
            id < self@.len(),
        ensures
            v == self@[id as int].position,
    {
        self.positions[id]
    }

    /// The node's rotation, for callers that have already checked the
    /// identifier.
    pub(crate) fn node_rotation(&self, id: usize) -> (v: Vec3)
        requires
            self.wf(),
            id < self@.len(),
        ensures
            v == self@[id as int].rotation,
    {
        self.rotations[id]
    }

    /// The node's reference point, for callers that have already checked the
    /// identifier.
    pub(crate) fn node_reference_point(&self, id: usize) -> (v: Vec3)
        requires
            self.wf(),
            id < self@.len(),
        ensures
            v == self@[id as int].reference_point,
    {
        self.reference_points[id]
    }

    /// The node's drawable, for callers that have already checked the
    /// identifier.
    pub(crate) fn node_drawable(&self, id: usize) -> (d: Option<Drawable>)
        requires
            self.wf(),
            id < self@.len(),
        ensures
            d == self@[id as int].drawable,
    {
        self.drawables[id]
    }

    /// The node's child count, for callers that have already checked the
    /// identifier.
    pub(crate) fn kid_count(&self, id: usize) -> (n: usize)
        requires
            self.wf(),
            id < self@.len(),
        ensures
            n == self@[id as int].children.len(),
    {
        self.children[id].len()
    }

    /// The node's `k`-th child, for callers that have already checked both
    /// the identifier and the index.
    pub(crate) fn kid_at(&self, id: usize, k: usize) -> (c: usize)
        requires
            self.wf(),
            id < self@.len(),
            k < self@[id as int].children.len(),
        ensures
            c == self@[id as int].children[k as int],
    {
        self.children[id][k]
    }

    /// An update that changes no `parent` or `children` field and keeps the
    /// reference points negatable keeps the arena well-formed.
    proof fn lemma_same_structure_wf(g: Seq<NodeV>, g2: Seq<NodeV>)
        requires
            graph_wf(g),
            g2.len() == g.len(),
            forall|i: int|
                0 <= i < g.len() ==> (#[trigger] g2[i]).parent == g[i].parent && g2[i].children
                    == g[i].children && g2[i].reference_point.x > i64::MIN
                    && g2[i].reference_point.y > i64::MIN && g2[i].reference_point.z > i64::MIN,
        ensures
            graph_wf(g2),
    {
        assert forall|i: int| 0 <= i < g2.len() implies #[trigger] node_wf(g2, i) by {
            assert(node_wf(g, i));
            match g2[i].parent {
                Some(p) => {
                    assert(g2[p as int].children == g[p as int].children);
                },
                None => {},
            }
            assert forall|k: int| 0 <= k < g2[i].children.len() implies {
                let c = (#[trigger] g2[i].children[k]) as int;
                i < c && c < g2.len() && (g2[c].parent matches Some(pp) && pp as int == i)
            } by {
                let c = g2[i].children[k] as int;
                assert(g[i].children[k] == g2[i].children[k]);
                assert(i < c && c < g.len());
                assert(g2[c].parent == g[c].parent);
            }
        }
    }

    /// Adding a creation-ordered edge from `p` to an unowned `c` keeps the
    /// arena well-formed.
    proof fn lemma_add_edge_wf(g: Seq<NodeV>, g2: Seq<NodeV>, p: int, c: int)
        requires
            graph_wf(g),
            0 <= p < g.len(),
            p < c < g.len(),
            c <= usize::MAX,
            g[c].parent is None,
            g2 =~= g.update(
                p,
                NodeV { children: g[p].children.push(c as usize), ..g[p] },
            ).update(c, NodeV { parent: Some(p as usize), ..g[c] }),
        ensures
            graph_wf(g2),
    {
        // `c` is in no child list of `g`: a node that holds it would be its
        // parent, and `c` has none.
        assert forall|i: int, k: int|
            0 <= i < g.len() && 0 <= k < g[i].children.len() implies (
        #[trigger] g[i].children[k]) as int != c by {
            assert(node_wf(g, i));
            if g[i].children[k] as int == c {
                assert(g[c].parent is Some);
            }
        }
        assert forall|i: int| 0 <= i < g2.len() implies #[trigger] node_wf(g2, i) by {
            assert(node_wf(g, i));
            if i == c {
                // New parent edge: the pushed entry witnesses `holds_id`.
                let kids2 = g2[p].children;
                assert(kids2 == g[p].children.push(c as usize));
                assert(kids2[kids2.len() - 1] as int == c);
                assert(holds_id(kids2, c));
                assert(g2[c].children == g[c].children);
                assert forall|k: int| 0 <= k < g2[c].children.len() implies {
                    let d = (#[trigger] g2[c].children[k]) as int;
                    c < d && d < g2.len() && (g2[d].parent matches Some(pp) && pp as int == c)
                } by {
                    let d = g2[c].children[k] as int;
                    assert(c < d && d < g.len());
                    assert(g2[d].parent == g[d].parent);
                }
            } else if i == p {
                match g2[p].parent {
                    Some(q) => {
                        assert(g[p].parent == Some(q));
                        assert(holds_id(g[q as int].children, p));
                        assert(q as int != p && q as int != c);
                        assert(g2[q as int].children == g[q as int].children);
                    },
                    None => {},
                }
                let kids = g[p].children;
                let kids2 = g2[p].children;
                assert(kids2 == kids.push(c as usize));
                assert forall|k: int| 0 <= k < kids2.len() implies {
                    let d = (#[trigger] kids2[k]) as int;
                    p < d && d < g2.len() && (g2[d].parent matches Some(pp) && pp as int == p)
                } by {
                    if k < kids.len() {
                        let d = kids[k] as int;
                        assert(kids2[k] == kids[k]);
                        assert(p < d && d < g.len());
                        assert(d != c);
                        assert(g2[d].parent == g[d].parent);
                    } else {
                        assert(kids2[k] as int == c);
                        assert(g2[c].parent == Some(p as usize));
                    }
                }
                assert forall|k1: int, k2: int| 0 <= k1 < k2 < kids2.len() implies #[trigger] kids2[k1]
                    != #[trigger] kids2[k2] by {
                    if k2 < kids.len() {
                        assert(kids2[k1] == kids[k1] && kids2[k2] == kids[k2]);
                    } else {
                        assert(kids2[k2] as int == c);
                        assert(kids[k1] as int != c);
                    }
                }
            } else {
                assert(g2[i] == g[i]);
                match g[i].parent {
                    Some(q) => {
                        assert(holds_id(g[q as int].children, i));
                        if q as int == p {
                            let kids = g[p].children;
                            let k = choose|k: int|
                                0 <= k < kids.len() && (#[trigger] kids[k]) as int == i;
                            assert(g2[p].children[k] as int == i);
                            assert(holds_id(g2[p].children, i));
                        } else {
                            assert(g2[q as int].children == g[q as int].children);
                        }
                    },
                    None => {},
                }
                assert forall|k: int| 0 <= k < g2[i].children.len() implies {
                    let d = (#[trigger] g2[i].children[k]) as int;
                    i < d && d < g2.len() && (g2[d].parent matches Some(pp) && pp as int == i)
                } by {
                    let d = g2[i].children[k] as int;
                    assert(g[i].children[k] == g2[i].children[k]);
                    assert(i < d && d < g.len());
                    assert(d != c);
                    if d == p {
                        assert(g2[p].parent == g[p].parent);
                    } else {
                        assert(g2[d].parent == g[d].parent);
                    }
                }
            }
        }
    }
}

} // verus!
