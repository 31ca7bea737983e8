//! The camera: accumulated control state, the key table that folds held
//! keys into control axes, and the symbolic view-projection transform.
//!
//! Translation speed is 20 units per second and rotation speed 1 radian per
//! second; both scale with the frame's delta time. The view-projection is
//! `Perspective * Rx * Ry * T(translation) * T(0, 0, -2)`, with the fixed
//! projection constants of [`crate::transform`].

use vstd::prelude::*;

use crate::input::{
    KEY_A, KEY_D, KEY_DOWN, KEY_LEFT, KEY_LSHIFT, KEY_RIGHT, KEY_S, KEY_SPACE, KEY_UP, KEY_W,
};
use crate::transform::{clamp_i64, sat_add_i64, Prim, Vec3};

verus! {

/// Translation speed: milliunits per millisecond (20 units per second).
pub const TRANS_SPEED: i64 = 20;

/// Rotation speed: milliradians per millisecond (1 radian per second).
pub const ROT_SPEED: i64 = 1;

/// The camera's accumulated control state: translation in milliunits,
/// pitch/yaw angles in milliradians.
#[derive(Clone, Copy, Debug, PartialEq, Eq, Structural)]
pub struct Camera {
    pub trans: Vec3,
    pub rot_x: i64,
    pub rot_y: i64,
}

/// A control axis a key can drive.
#[derive(Clone, Copy, Debug, PartialEq, Eq, Structural)]
pub enum Axis {
    TransX,
    TransY,
    TransZ,
    RotX,
    RotY,
}

/// The key table: which control axis a key identifier drives, and with which
/// sign; `None` for an unbound key.
pub open spec fn binding_spec(code: u32) -> Option<(Axis, i64)> {
    if code == KEY_A {
        Some((Axis::TransX, 1int as i64))
    } else if code == KEY_D {
        Some((Axis::TransX, -1int as i64))
    } else if code == KEY_LSHIFT {
        Some((Axis::TransY, 1int as i64))
    } else if code == KEY_SPACE {
        Some((Axis::TransY, -1int as i64))
    } else if code == KEY_W {
        Some((Axis::TransZ, 1int as i64))
    } else if code == KEY_S {
        Some((Axis::TransZ, -1int as i64))
    } else if code == KEY_DOWN {
        Some((Axis::RotX, 1int as i64))
    } else if code == KEY_UP {
        Some((Axis::RotX, -1int as i64))
    } else if code == KEY_RIGHT {
        Some((Axis::RotY, 1int as i64))
    } else if code == KEY_LEFT {
        Some((Axis::RotY, -1int as i64))
    } else {
        None
    }
}

/// The key table, as the one executable lookup every bound key goes
/// through.
pub fn key_binding(code: u32) -> (r: Option<(Axis, i64)>)
    ensures
        r == binding_spec(code),
{
    if code == KEY_A {
        Some((Axis::TransX, 1))
    } else if code == KEY_D {
        Some((Axis::TransX, -1))
    } else if code == KEY_LSHIFT {
        Some((Axis::TransY, 1))
    } else if code == KEY_SPACE {
        Some((Axis::TransY, -1))
    } else if code == KEY_W {
        Some((Axis::TransZ, 1))
    } else if code == KEY_S {
        Some((Axis::TransZ, -1))
    } else if code == KEY_DOWN {
        Some((Axis::RotX, 1))
    } else if code == KEY_UP {
        Some((Axis::RotX, -1))
    } else if code == KEY_RIGHT {
        Some((Axis::RotY, 1))
    } else if code == KEY_LEFT {
        Some((Axis::RotY, -1))
    } else {
        None
    }
}

/// What folding one held key into the camera does: the bound axis moves by
/// `sign * speed * delta_ms` (saturating at the ends of `i64`); an unbound
/// key does nothing.
pub open spec fn apply_key_spec(c: Camera, code: u32, delta_ms: u32) -> Camera {
    match binding_spec(code) {
        None => c,
        Some((axis, sign)) => {
            let amount: int = match axis {
                Axis::TransX | Axis::TransY | Axis::TransZ => sign * TRANS_SPEED * delta_ms,
                Axis::RotX | Axis::RotY => sign * ROT_SPEED * delta_ms,
            };
            match axis {
                Axis::TransX => Camera {
                    trans: Vec3 { x: clamp_i64(c.trans.x + amount) as i64, ..c.trans },
                    ..c
                },
                Axis::TransY => Camera {
                    trans: Vec3 { y: clamp_i64(c.trans.y + amount) as i64, ..c.trans },
                    ..c
                },
                Axis::TransZ => Camera {
                    trans: Vec3 { z: clamp_i64(c.trans.z + amount) as i64, ..c.trans },
                    ..c
                },
                Axis::RotX => Camera { rot_x: clamp_i64(c.rot_x + amount) as i64, ..c },
                Axis::RotY => Camera { rot_y: clamp_i64(c.rot_y + amount) as i64, ..c },
            }
        },
    }
}

/// A whole frame's worth of held keys folded in, left to right: every key
/// observed as held goes into exactly one control update.
pub open spec fn fold_keys_spec(c: Camera, held: Seq<u32>, delta_ms: u32) -> Camera
    decreases held.len(),
{
    if held.len() == 0 {
        c
    } else {
        apply_key_spec(fold_keys_spec(c, held.drop_last(), delta_ms), held.last(), delta_ms)
    }
}

impl Camera {
    /// The initial camera: no translation, no rotation.
    pub fn new() -> (c: Camera)
        ensures
            c == (Camera { trans: Vec3 { x: 0, y: 0, z: 0 }, rot_x: 0, rot_y: 0 }),
    {
        Camera { trans: Vec3 { x: 0, y: 0, z: 0 }, rot_x: 0, rot_y: 0 }
    }

    /// Folds one held key into the camera.
    pub fn apply_key(&mut self, code: u32, delta_ms: u32)
        ensures
            *final(self) == apply_key_spec(*old(self), code, delta_ms),
    {
        match key_binding(code) {
            None => {},
            Some((axis, sign)) => {
                proof {
                    assert(sign == 1 || sign == -1i64);
                }
                let d = delta_ms as i64;
                let mag: i64 = match axis {
                    Axis::TransX | Axis::TransY | Axis::TransZ => TRANS_SPEED * d,
                    Axis::RotX | Axis::RotY => ROT_SPEED * d,
                };
                let amount: i64 = if sign >= 0 {
                    mag
                } else {
                    -mag
                };
                proof {
                    let di = delta_ms as int;
                    let sp: int = match axis {
                        Axis::TransX | Axis::TransY | Axis::TransZ => TRANS_SPEED as int,
                        Axis::RotX | Axis::RotY => ROT_SPEED as int,
                    };
                    assert(mag == sp * di);
                    if sign == 1 {
                        assert(amount == sign * sp * di);
                    } else {
                        assert((-1) * sp * di == -(sp * di)) by (nonlinear_arith);
                        assert(amount == sign * sp * di);
                    }
                }
                match axis {
                    Axis::TransX => {
                        self.trans.x = sat_add_i64(self.trans.x, amount);
                    },
                    Axis::TransY => {
                        self.trans.y = sat_add_i64(self.trans.y, amount);
                    },
                    Axis::TransZ => {
                        self.trans.z = sat_add_i64(self.trans.z, amount);
                    },
                    Axis::RotX => {
                        self.rot_x = sat_add_i64(self.rot_x, amount);
                    },
                    Axis::RotY => {
                        self.rot_y = sat_add_i64(self.rot_y, amount);
                    },
                }
            },
        }
    }

    /// Folds the frame's held keys into the camera, in the order given.
    pub fn fold_keys(&mut self, held: &Vec<u32>, delta_ms: u32)
        ensures
            *final(self) == fold_keys_spec(*old(self), held@, delta_ms),
    {
        let mut k: usize = 0;
        while k < held.len()
            invariant
                k <= held@.len(),
                *self == fold_keys_spec(*old(self), held@.subrange(0, k as int), delta_ms),
            decreases held@.len() - k,
        {
            self.apply_key(held[k], delta_ms);
            proof {
                let pre = held@.subrange(0, k as int);
                let cur = held@.subrange(0, k as int + 1);
                assert(cur.drop_last() =~= pre);
                assert(cur.last() == held@[k as int]);
            }
            k = k + 1;
        }
        proof {
            assert(held@.subrange(0, held@.len() as int) =~= held@);
        }
    }
}

/// The view-projection transform of a camera state, for a viewport of the
/// given pixel size: the fixed perspective projection, then pitch and yaw,
/// then the accumulated translation, then the fixed 2-unit pull-back.
pub open spec fn camera_prims_spec(c: Camera, width: u32, height: u32) -> Seq<Prim> {
    seq![
        Prim::Perspective { width, height },
        Prim::RotX(c.rot_x),
        Prim::RotY(c.rot_y),
        Prim::Translate(c.trans),
        Prim::Translate(Vec3 { x: 0, y: 0, z: (-2000int) as i64 }),
    ]
}

/// Builds the camera's view-projection transform for this frame.
pub fn camera_prims(c: &Camera, width: u32, height: u32) -> (v: Vec<Prim>)
    ensures
        v@ == camera_prims_spec(*c, width, height),
{
    let mut v: Vec<Prim> = Vec::new();
    v.push(Prim::Perspective { width, height });
    v.push(Prim::RotX(c.rot_x));
    v.push(Prim::RotY(c.rot_y));
    v.push(Prim::Translate(c.trans));
    v.push(Prim::Translate(Vec3 { x: 0, y: 0, z: -2000 }));
    proof {
        assert(v@ =~= camera_prims_spec(*c, width, height));
    }
    v
}

} // verus!
