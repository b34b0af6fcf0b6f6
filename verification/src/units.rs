//! Fixed-point units and the arithmetic of the gameplay rules.
//!
//! Screen positions are measured in micro-pixels (millionths of a pixel,
//! `SCALE` per pixel), with the origin at the screen centre. Gravity and the
//! fall-speed accumulator are measured in milli-units (`GRAVITY_BASE` is the
//! baseline difficulty of 1). Frame time is measured in milliseconds. In
//! these units every rule of the game is exact integer arithmetic.

use vstd::prelude::*;

verus! {

/// Micro-pixels per pixel.
pub const SCALE: i64 = 1_000_000;

/// Half of `SCALE`; `dim * HALF_SCALE` is half a screen dimension in micro-pixels.
pub const HALF_SCALE: i64 = 500_000;

/// Baseline difficulty, in milli-units: gravity 1.
pub const GRAVITY_BASE: i64 = 1000;

/// Difficulty gained per hit, in milli-units: gravity 0.1.
pub const GRAVITY_STEP: i64 = 100;

/// Largest accepted screen dimension, in pixels.
pub const MAX_DIM: i64 = 10_000;

/// Largest accepted frame delta, in milliseconds.
pub const MAX_DT: i64 = 10_000;

/// A fall speed no target that is still on screen after a frame can exceed
/// (in milli-units): a faster target crosses the whole screen in one frame.
pub const SPEED_SETTLED: i64 = 1_000_001_000;

/// Largest fall speed (milli-units) a single physics step accepts.
pub const ADVANCE_SPEED_MAX: i64 = 2_000_000_000_000;

/// Lowest target height (micro-pixels) a single physics step accepts.
pub const ADVANCE_Y_MIN: i64 = -1_000_000_000_000_000_000;

/// A floor below which no reachable target height ever lies (micro-pixels).
pub const TARGET_Y_FLOOR: i64 = -2_000_000_000_000_000_000;

/// Largest magnitude of a click coordinate (micro-pixels) the hit test accepts.
pub const CLICK_BOUND: i64 = 20_000_000_000;

/// Side length of the target square in micro-pixels: the rule
/// `(width / 30) * (height / 30) / 8` pixels, that is `width * height / 7200`.
pub open spec fn size_mu(w: int, h: int) -> int {
    (w * h * 1250) / 9
}

/// Half the target's side, in micro-pixels: the hit-test radius, and the
/// margin the target keeps from the screen edges.
pub open spec fn half_size_mu(w: int, h: int) -> int {
    size_mu(w, h) / 2
}

/// Height at which a fresh target appears: half its side below the top edge.
pub open spec fn spawn_y_mu(w: int, h: int) -> int {
    h * HALF_SCALE - half_size_mu(w, h)
}

/// Smallest horizontal centre a fresh target may take (inclusive).
pub open spec fn spawn_lo_mu(w: int, h: int) -> int {
    -(w * HALF_SCALE) + half_size_mu(w, h)
}

/// Largest horizontal centre a fresh target may take (exclusive).
pub open spec fn spawn_hi_mu(w: int, h: int) -> int {
    w * HALF_SCALE - half_size_mu(w, h)
}

/// Height of the bottom edge of the screen; a target strictly below it is a miss.
pub open spec fn bottom_y_mu(h: int) -> int {
    -(h * HALF_SCALE)
}

/// How far a target falls in one frame, in micro-pixels: the rule
/// `speed * (height / 1000) * seconds`, taken here with speed in
/// milli-units, `h` in pixels and `dt` in milliseconds.
pub open spec fn fall_delta_mu(speed: int, h: int, dt: int) -> int {
    (speed * h * dt) / 1000
}

/// Whether a click at `(cx, cy)` lands on a target centred at `(tx, ty)`:
/// Euclidean distance at most the radius `r`, compared without rounding.
pub open spec fn hits_mu(cx: int, cy: int, tx: int, ty: int, r: int) -> bool {
    (cx - tx) * (cx - tx) + (cy - ty) * (cy - ty) <= r * r
}

/// Computes the target's side length for the given screen, in micro-pixels.
pub fn target_size(width: i64, height: i64) -> (s: i64)
    requires
        1 <= width <= MAX_DIM,
        1 <= height <= MAX_DIM,
    ensures
        s == size_mu(width as int, height as int),
        0 < s,
{
    proof {
        assert(1 <= width * height * 1250 <= 125_000_000_000) by (nonlinear_arith)
            requires
                1 <= width <= 10_000,
                1 <= height <= 10_000;
    }
    let prod: u64 = (width as u64) * (height as u64) * 1250;
    let s64: u64 = prod / 9;
    s64 as i64
}

} // verus!
