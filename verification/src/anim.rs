//! The animation function: a pure, deterministic map from elapsed time and a
//! per-instance phase offset to a heading sample — position over the ground
//! plane plus yaw, pitch and roll — and the rotor spin angles.
//!
//! A vehicle flies a closed diamond circuit of half-diagonal
//! [`RADIUS_MILLI`] once every [`PERIOD_MS`] milliseconds, heading along its
//! direction of travel, with a fixed nose-down pitch and a bank that
//! alternates with the circuit's quarters. All output is exact fixed-point
//! arithmetic on the inputs; two calls on equal inputs are equal.

use vstd::prelude::*;

verus! {

/// One heading sample: ground-plane position in milliunits, orientation
/// angles in milliradians.
#[derive(Clone, Copy, Debug, PartialEq, Eq, Structural)]
pub struct Heading {
    pub x: i64,
    pub z: i64,
    pub yaw: i64,
    pub pitch: i64,
    pub roll: i64,
}

/// The circuit's period in milliseconds.
pub const PERIOD_MS: u64 = 16000;

/// One quarter of the circuit, in milliseconds.
pub const QUARTER_MS: u64 = 4000;

/// Half-diagonal of the diamond circuit, in milliunits.
pub const RADIUS_MILLI: u64 = 30000;

/// Per-squadron-member phase offset, in milliseconds.
pub const PHASE_STEP_MS: u64 = 3200;

/// A full turn, in milliradians.
pub const TWO_PI_MILLI: u64 = 6283;

/// Fixed nose-down pitch of a flying vehicle, in milliradians.
pub const PITCH_MILLI: i64 = -200;

/// Bank magnitude, in milliradians; the sign alternates with the quarters.
pub const ROLL_MILLI: i64 = 150;

/// Yaw while flying the quarter towards +x/-z, in milliradians.
pub const YAW_Q0: i64 = -785;

/// Yaw while flying the quarter towards -x/-z, in milliradians.
pub const YAW_Q1: i64 = -2356;

/// Yaw while flying the quarter towards -x/+z, in milliradians.
pub const YAW_Q2: i64 = -3927;

/// Yaw while flying the quarter towards +x/+z, in milliradians.
pub const YAW_Q3: i64 = -5498;

/// The heading sample at `time_ms + phase_ms`, defined piecewise-linearly
/// over the circuit's four quarters: the vehicle moves from diamond vertex
/// to diamond vertex — `(0, R)`, `(R, 0)`, `(0, -R)`, `(-R, 0)` — with a
/// per-quarter constant yaw, fixed pitch, and alternating roll.
pub open spec fn heading_spec(time_ms: u64, phase_ms: u64) -> Heading {
    let p = PERIOD_MS as int;
    let quarter = QUARTER_MS as int;
    let r = RADIUS_MILLI as int;
    let t = (((time_ms as int) % p) + ((phase_ms as int) % p)) % p;
    let q = t / quarter;
    let u = ((t % quarter) * r) / quarter;
    let roll: i64 = if q % 2 == 0 {
        ROLL_MILLI
    } else {
        (-ROLL_MILLI as int) as i64
    };
    if q == 0 {
        Heading { x: u as i64, z: (r - u) as i64, yaw: YAW_Q0, pitch: PITCH_MILLI, roll }
    } else if q == 1 {
        Heading { x: (r - u) as i64, z: (-u) as i64, yaw: YAW_Q1, pitch: PITCH_MILLI, roll }
    } else if q == 2 {
        Heading { x: (-u) as i64, z: (u - r) as i64, yaw: YAW_Q2, pitch: PITCH_MILLI, roll }
    } else {
        Heading { x: (u - r) as i64, z: u as i64, yaw: YAW_Q3, pitch: PITCH_MILLI, roll }
    }
}

/// Samples the animation at `time_ms + phase_ms`.
pub fn sample_heading(time_ms: u64, phase_ms: u64) -> (h: Heading)
    ensures
        h == heading_spec(time_ms, phase_ms),
{
    let t = ((time_ms % PERIOD_MS) + (phase_ms % PERIOD_MS)) % PERIOD_MS;
    let q = t / QUARTER_MS;
    let u = ((t % QUARTER_MS) * RADIUS_MILLI) / QUARTER_MS;
    let x = u as i64;
    let r = RADIUS_MILLI as i64;
    let roll: i64 = if q % 2 == 0 {
        ROLL_MILLI
    } else {
        -ROLL_MILLI
    };
    if q == 0 {
        Heading { x, z: r - x, yaw: YAW_Q0, pitch: PITCH_MILLI, roll }
    } else if q == 1 {
        Heading { x: r - x, z: -x, yaw: YAW_Q1, pitch: PITCH_MILLI, roll }
    } else if q == 2 {
        Heading { x: -x, z: x - r, yaw: YAW_Q2, pitch: PITCH_MILLI, roll }
    } else {
        Heading { x: x - r, z: x, yaw: YAW_Q3, pitch: PITCH_MILLI, roll }
    }
}

/// The animation is periodic: a whole period later, the sample is the same.
pub proof fn lemma_heading_periodic(time_ms: u64, phase_ms: u64)
    requires
        time_ms + PERIOD_MS <= u64::MAX,
    ensures
        heading_spec((time_ms + PERIOD_MS) as u64, phase_ms) == heading_spec(time_ms, phase_ms),
{
    let p = PERIOD_MS as int;
    let tm = time_ms as int;
    assert((tm + p) % p == tm % p) by (nonlinear_arith)
        requires
            p > 0,
            tm >= 0,
    ;
}

/// The spin angle of a rotor turning `revs_per_sec` whole revolutions each
/// second, at `time_ms`: where within the current revolution the rotor
/// stands, in milliradians.
pub open spec fn spin_spec(time_ms: u64, revs_per_sec: u64) -> i64 {
    let period = (1000 as int) / (revs_per_sec as int);
    ((((time_ms as int) % period) * (TWO_PI_MILLI as int)) / period) as i64
}

/// Samples a rotor's spin angle.
pub fn spin_angle(time_ms: u64, revs_per_sec: u64) -> (a: i64)
    requires
        1 <= revs_per_sec <= 1000,
    ensures
        a == spin_spec(time_ms, revs_per_sec),
{
    let period = 1000 / revs_per_sec;
    proof {
        assert(period >= 1) by (nonlinear_arith)
            requires
                1 <= revs_per_sec <= 1000,
                period == (1000 as int) / (revs_per_sec as int),
        ;
    }
    (((time_ms % period) * TWO_PI_MILLI) / period) as i64
}

} // verus!
