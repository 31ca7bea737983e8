//! Fixed-point vectors and symbolic transform primitives.
//!
//! Every coordinate and angle in the library is an `i64` in thousandths:
//! a position of `2.3` world units is stored as `2300` milliunits, an angle
//! of one radian as `1000` milliradians. A transform is a sequence of
//! primitive matrix factors ([`Prim`]); the sequence `[M1, M2, M3]` denotes
//! the matrix product `M1 * M2 * M3`, so the rightmost factor is applied to
//! a point first.

use vstd::prelude::*;

verus! {

/// A point or direction in fixed-point thousandths.
#[derive(Clone, Copy, Debug, PartialEq, Eq, Structural)]
pub struct Vec3 {
    pub x: i64,
    pub y: i64,
    pub z: i64,
}

/// One primitive matrix factor of a transform.
///
/// Rotation angles are milliradians about the named local axis; translations
/// are milliunit offsets. `Perspective` stands for the fixed-constant
/// projection (vertical field of view `FOVY_DEG` degrees, near plane
/// `NEAR_MILLI`, far plane `FAR_MILLI` milliunits) at the aspect ratio of the
/// given viewport in pixels.
#[derive(Clone, Copy, Debug, PartialEq, Eq, Structural)]
pub enum Prim {
    Perspective { width: u32, height: u32 },
    Translate(Vec3),
    RotX(i64),
    RotY(i64),
    RotZ(i64),
}

/// Vertical field of view of the fixed projection, in degrees.
pub const FOVY_DEG: u32 = 90;

/// Near clipping plane of the fixed projection, in milliunits.
pub const NEAR_MILLI: i64 = 1000;

/// Far clipping plane of the fixed projection, in milliunits.
pub const FAR_MILLI: i64 = 1000000;

/// The componentwise negation, with each component wrapped into `i64`
/// (exact whenever no component is `i64::MIN`).
pub open spec fn neg_vec3(v: Vec3) -> Vec3 {
    Vec3 { x: (-(v.x as int)) as i64, y: (-(v.y as int)) as i64, z: (-(v.z as int)) as i64 }
}

/// Whether a primitive factor is an identity matrix: a zero translation or a
/// rotation by a zero angle. A projection is never an identity.
pub open spec fn is_identity(p: Prim) -> bool {
    match p {
        Prim::Perspective { .. } => false,
        Prim::Translate(v) => v == (Vec3 { x: 0, y: 0, z: 0 }),
        Prim::RotX(a) => a == 0,
        Prim::RotY(a) => a == 0,
        Prim::RotZ(a) => a == 0,
    }
}

/// A transform with its identity factors elided. Two transforms with equal
/// normal forms denote the same matrix.
pub open spec fn norm(s: Seq<Prim>) -> Seq<Prim> {
    s.filter(|p: Prim| !is_identity(p))
}

/// The local transform of a scene node, as the product
/// `T(position) * T(reference_point) * Rz * Ry * Rx * T(-reference_point)`:
/// the node rotates about its declared pivot (the reference point) and is
/// then placed at `position` in its parent's space.
pub open spec fn local_prims(position: Vec3, rotation: Vec3, reference_point: Vec3) -> Seq<Prim> {
    seq![
        Prim::Translate(position),
        Prim::Translate(reference_point),
        Prim::RotZ(rotation.z),
        Prim::RotY(rotation.y),
        Prim::RotX(rotation.x),
        Prim::Translate(neg_vec3(reference_point)),
    ]
}

/// What one primitive factor does to a point, where this is exact: a
/// translation adds its offset, a rotation by a zero angle is the identity.
/// Applying a non-zero rotation or a projection is not exact in fixed point,
/// so those yield `None`.
pub open spec fn apply_prim(p: Prim, q: (int, int, int)) -> Option<(int, int, int)> {
    match p {
        Prim::Perspective { .. } => None,
        Prim::Translate(v) => Some((q.0 + v.x, q.1 + v.y, q.2 + v.z)),
        Prim::RotX(a) => if a == 0 { Some(q) } else { None },
        Prim::RotY(a) => if a == 0 { Some(q) } else { None },
        Prim::RotZ(a) => if a == 0 { Some(q) } else { None },
    }
}

/// What a transform does to a point, applying the rightmost factor first.
pub open spec fn apply_prims(s: Seq<Prim>, q: (int, int, int)) -> Option<(int, int, int)>
    decreases s.len(),
{
    if s.len() == 0 {
        Some(q)
    } else {
        match apply_prim(s.last(), q) {
            Some(q2) => apply_prims(s.drop_last(), q2),
            None => None,
        }
    }
}

/// Bound on coordinates accepted by [`transform_point`]: sums of up to four
/// in-bound components stay far inside `i64`.
pub const COORD_BOUND: i64 = 0x100_0000_0000;

pub open spec fn coord_in_bounds(c: i64) -> bool {
    -COORD_BOUND <= c && c <= COORD_BOUND
}

pub open spec fn vec3_in_bounds(v: Vec3) -> bool {
    coord_in_bounds(v.x) && coord_in_bounds(v.y) && coord_in_bounds(v.z)
}

/// Pivot invariance: a node with zero rotation moves every point by exactly
/// `position`; in particular the pivot `reference_point` lands on
/// `reference_point + position`, so pivoted rotation leaves the pivot fixed
/// before translation.
pub proof fn lemma_pivot_invariance(position: Vec3, reference_point: Vec3)
    requires
        reference_point.x > i64::MIN,
        reference_point.y > i64::MIN,
        reference_point.z > i64::MIN,
    ensures
        apply_prims(
            local_prims(position, Vec3 { x: 0, y: 0, z: 0 }, reference_point),
            (reference_point.x as int, reference_point.y as int, reference_point.z as int),
        ) == Some(
            (
                reference_point.x + position.x,
                reference_point.y + position.y,
                reference_point.z + position.z,
            ),
        ),
{
    let r = reference_point;
    let d = position;
    let s = local_prims(d, Vec3 { x: 0, y: 0, z: 0 }, r);
    let p0 = (r.x as int, r.y as int, r.z as int);
    let p1 = (0int, 0int, 0int);
    let p2 = (r.x + d.x, r.y + d.y, r.z + d.z);
    assert(s.last() == Prim::Translate(neg_vec3(r)));
    assert(apply_prim(s.last(), p0) == Some(p1));
    let s1 = s.drop_last();
    assert(s1.last() == Prim::RotX(0i64));
    let s2 = s1.drop_last();
    assert(s2.last() == Prim::RotY(0i64));
    let s3 = s2.drop_last();
    assert(s3.last() == Prim::RotZ(0i64));
    let s4 = s3.drop_last();
    assert(s4.last() == Prim::Translate(r));
    assert(apply_prim(s4.last(), p1) == Some(p0));
    let s5 = s4.drop_last();
    assert(s5.last() == Prim::Translate(d));
    assert(apply_prim(s5.last(), p0) == Some(p2));
    let s6 = s5.drop_last();
    assert(s6.len() == 0);
    assert(apply_prims(s6, p2) == Some(p2));
    assert(apply_prims(s5, p0) == Some(p2));
    assert(apply_prims(s4, p1) == Some(p2));
    assert(apply_prims(s3, p1) == Some(p2));
    assert(apply_prims(s2, p1) == Some(p2));
    assert(apply_prims(s1, p1) == Some(p2));
    assert(apply_prims(s, p0) == Some(p2));
}

/// Applies a node's local transform to a point, where that is exact: with a
/// zero rotation the result is the point moved by `position`; with any
/// non-zero rotation angle there is no exact fixed-point answer and the
/// result is `None`, exactly as [`apply_prims`] says.
pub fn transform_point(position: Vec3, rotation: Vec3, reference_point: Vec3, p: Vec3) -> (r: Option<
    Vec3,
>)
    requires
        vec3_in_bounds(position),
        vec3_in_bounds(reference_point),
        vec3_in_bounds(p),
    ensures
        match r {
            Some(q) => apply_prims(
                local_prims(position, rotation, reference_point),
                (p.x as int, p.y as int, p.z as int),
            ) == Some((q.x as int, q.y as int, q.z as int)),
            None => apply_prims(
                local_prims(position, rotation, reference_point),
                (p.x as int, p.y as int, p.z as int),
            ) is None,
        },
{
    let ghost s = local_prims(position, rotation, reference_point);
    let ghost p0 = (p.x as int, p.y as int, p.z as int);
    if rotation.x != 0 || rotation.y != 0 || rotation.z != 0 {
        proof {
            let q1 = (p.x - reference_point.x, p.y - reference_point.y, p.z - reference_point.z);
            let s1 = s.drop_last();
            let s2 = s1.drop_last();
            let s3 = s2.drop_last();
            assert(s.last() == Prim::Translate(neg_vec3(reference_point)));
            assert(apply_prim(s.last(), p0) == Some(q1));
            assert(s1.last() == Prim::RotX(rotation.x));
            assert(s2.last() == Prim::RotY(rotation.y));
            assert(s3.last() == Prim::RotZ(rotation.z));
            if rotation.x != 0 {
                assert(apply_prims(s1, q1) is None);
            } else if rotation.y != 0 {
                assert(apply_prims(s2, q1) is None);
                assert(apply_prims(s1, q1) is None);
            } else {
                assert(apply_prims(s3, q1) is None);
                assert(apply_prims(s2, q1) is None);
                assert(apply_prims(s1, q1) is None);
            }
            assert(apply_prims(s, p0) is None);
        }
        None
    } else {
        let q = Vec3 {
            x: p.x - reference_point.x + reference_point.x + position.x,
            y: p.y - reference_point.y + reference_point.y + position.y,
            z: p.z - reference_point.z + reference_point.z + position.z,
        };
        proof {
            let q1 = (p.x - reference_point.x, p.y - reference_point.y, p.z - reference_point.z);
            let pp = (p.x as int, p.y as int, p.z as int);
            let q2 = (p.x + position.x, p.y + position.y, p.z + position.z);
            let s1 = s.drop_last();
            let s2 = s1.drop_last();
            let s3 = s2.drop_last();
            let s4 = s3.drop_last();
            let s5 = s4.drop_last();
            let s6 = s5.drop_last();
            assert(s.last() == Prim::Translate(neg_vec3(reference_point)));
            assert(s1.last() == Prim::RotX(0i64));
            assert(s2.last() == Prim::RotY(0i64));
            assert(s3.last() == Prim::RotZ(0i64));
            assert(s4.last() == Prim::Translate(reference_point));
            assert(s5.last() == Prim::Translate(position));
            assert(s6.len() == 0);
            assert(apply_prim(s.last(), p0) == Some(q1));
            assert(apply_prim(s4.last(), q1) == Some(pp));
            assert(apply_prim(s5.last(), pp) == Some(q2));
            assert(apply_prims(s6, q2) == Some(q2));
            assert(apply_prims(s5, pp) == Some(q2));
            assert(apply_prims(s4, q1) == Some(q2));
            assert(apply_prims(s3, q1) == Some(q2));
            assert(apply_prims(s2, q1) == Some(q2));
            assert(apply_prims(s1, q1) == Some(q2));
            assert(apply_prims(s, p0) == Some(q2));
            assert(q.x as int == q2.0 && q.y as int == q2.1 && q.z as int == q2.2);
        }
        Some(q)
    }
}

/// The mathematical sum clamped into `i64`.
pub open spec fn clamp_i64(v: int) -> int {
    if v > i64::MAX {
        i64::MAX as int
    } else if v < i64::MIN {
        i64::MIN as int
    } else {
        v
    }
}

/// Saturating addition on `i64`, exactly [`clamp_i64`] of the true sum.
pub fn sat_add_i64(a: i64, b: i64) -> (r: i64)
    ensures
        r == clamp_i64(a + b),
{
    if b >= 0 {
        if a > i64::MAX - b {
            i64::MAX
        } else {
            a + b
        }
    } else {
        if a < i64::MIN - b {
            i64::MIN
        } else {
            a + b
        }
    }
}

/// Drops every identity factor from a transform, leaving its normal form.
pub fn normalize(w: &Vec<Prim>) -> (r: Vec<Prim>)
    ensures
        r@ == norm(w@),
{
    let mut out: Vec<Prim> = Vec::new();
    let mut i: usize = 0;
    proof {
        assert(w@.subrange(0, 0) =~= Seq::<Prim>::empty());
        assert(norm(w@.subrange(0, 0)) =~= Seq::<Prim>::empty()) by {
            reveal(Seq::filter);
        }
    }
    while i < w.len()
        invariant
            i <= w.len(),
            out@ == norm(w@.subrange(0, i as int)),
        decreases w.len() - i,
    {
        let p = w[i];
        let keep = match p {
            Prim::Perspective { .. } => true,
            Prim::Translate(v) => !(v.x == 0 && v.y == 0 && v.z == 0),
            Prim::RotX(a) => a != 0,
            Prim::RotY(a) => a != 0,
            Prim::RotZ(a) => a != 0,
        };
        proof {
            assert(keep == !is_identity(p));
            let pred = |q: Prim| !is_identity(q);
            let before = w@.subrange(0, i as int);
            assert(w@.subrange(0, i as int + 1) =~= before.push(p));
            reveal(Seq::filter);
            assert(before.push(p).drop_last() =~= before);
            assert(before.push(p).filter(pred) == if pred(p) {
                before.filter(pred).push(p)
            } else {
                before.filter(pred)
            });
        }
        if keep {
            out.push(p);
        }
        i = i + 1;
    }
    proof {
        assert(w@.subrange(0, w@.len() as int) =~= w@);
    }
    out
}

} // verus!
