//! The first-person camera state and its per-frame position update.
//!
//! The camera holds a position and two accumulated look angles, all in
//! fixed-point units. Each frame the held movement keys move the position
//! along the horizontal forward and strafe directions; mouse motion
//! accumulates into the angles. Neither angle is clamped, matching the
//! documented look-around behaviour.

use vstd::prelude::*;
use crate::fixed::{fxm, lemma_fxm_bound, lemma_mul_bounds, DT_LIMIT, SCALE};
use crate::input::InputState;
use crate::vec3::{
    coord_bounded, forward_dir, forward_vec, right_dir, right_vec, vadd, vec_add, vec_neg,
    vec_scaled, vneg, vscale, vzero, Vec3, Vec3i, COORD_LIMIT,
};

verus! {

/// Largest coordinate magnitude from which one frame's movement cannot
/// leave [`COORD_LIMIT`].
pub const MOVE_COORD_LIMIT: i64 = COORD_LIMIT - 4 * DT_LIMIT;

/// Mouse sensitivity: `0.01` radians of look rotation per count of mouse
/// travel, in fixed-point units.
pub const SENSITIVITY: i64 = 100;

/// Largest accumulated look angle magnitude, in fixed-point radians.
pub const ANGLE_LIMIT: i64 = 1_000_000_000_000_000;

/// Largest mouse delta magnitude accepted in one event.
pub const DELTA_LIMIT: i64 = 1_000_000_000_000;

/// The displacement one held key contributes: its direction scaled by the
/// frame time, or zero when the key is up.
pub open spec fn key_disp(held: bool, dir: Vec3i, dt: int) -> Vec3i {
    if held {
        vscale(dir, dt)
    } else {
        vzero()
    }
}

/// The whole frame's displacement: the sum of the four per-key
/// displacements, each along plus or minus the forward or strafe direction
/// for the yaw whose sine and cosine are `s` and `c`. Keys are independent
/// and additive; a diagonal is the unnormalized vector sum.
pub open spec fn displacement(keys: InputState, s: int, c: int, dt: int) -> Vec3i {
    vadd(
        vadd(
            key_disp(keys.forward, forward_dir(s, c), dt),
            key_disp(keys.back, vneg(forward_dir(s, c)), dt),
        ),
        vadd(
            key_disp(keys.strafe_left, vneg(right_dir(s, c)), dt),
            key_disp(keys.strafe_right, right_dir(s, c), dt),
        ),
    )
}

/// Holding no key leaves the position unchanged, whatever the yaw and the
/// frame time.
pub proof fn lemma_no_keys_no_motion(s: int, c: int, dt: int)
    ensures
        displacement(
            InputState { forward: false, back: false, strafe_left: false, strafe_right: false },
            s,
            c,
            dt,
        ) == vzero(),
{
}

/// A frame of zero elapsed time moves nothing, whatever keys are held.
pub proof fn lemma_zero_dt_no_motion(keys: InputState, s: int, c: int)
    ensures
        displacement(keys, s, c, 0) == vzero(),
{
}

/// The camera: a world-space position, a yaw about the world up axis and a
/// pitch about the local right axis, both in fixed-point radians.
#[derive(Clone, Copy, PartialEq, Eq, Structural, Debug)]
pub struct Camera {
    pub pos: Vec3,
    pub yaw: i64,
    pub pitch: i64,
}

impl Camera {
    /// A camera at `pos`, looking straight down the negative `z` axis.
    pub fn new(pos: Vec3) -> (c: Camera)
        ensures
            c == (Camera { pos, yaw: 0i64, pitch: 0i64 }),
    {
        Camera { pos, yaw: 0, pitch: 0 }
    }

    /// Accumulate a raw mouse delta into the look angles: each counts
    /// `-delta * 0.01` radians. Nothing else changes; pitch is deliberately
    /// not clamped.
    pub fn on_mouse_delta(&mut self, dx: i64, dy: i64)
        requires
            -DELTA_LIMIT <= dx <= DELTA_LIMIT,
            -DELTA_LIMIT <= dy <= DELTA_LIMIT,
            -ANGLE_LIMIT <= old(self).yaw <= ANGLE_LIMIT,
            -ANGLE_LIMIT <= old(self).pitch <= ANGLE_LIMIT,
        ensures
            final(self).yaw == old(self).yaw - fxm(dx as int, SENSITIVITY as int),
            final(self).pitch == old(self).pitch - fxm(dy as int, SENSITIVITY as int),
            final(self).pos == old(self).pos,
    {
        proof {
            lemma_mul_bounds(dx as int, SENSITIVITY as int, DELTA_LIMIT as int, SENSITIVITY as int);
            lemma_fxm_bound(dx as int, SENSITIVITY as int, DELTA_LIMIT as int);
            lemma_mul_bounds(dy as int, SENSITIVITY as int, DELTA_LIMIT as int, SENSITIVITY as int);
            lemma_fxm_bound(dy as int, SENSITIVITY as int, DELTA_LIMIT as int);
        }
        self.yaw = self.yaw - crate::fixed::fx_mul(dx, SENSITIVITY);
        self.pitch = self.pitch - crate::fixed::fx_mul(dy, SENSITIVITY);
    }

    /// One frame's movement: for each held key, add that key's direction
    /// scaled by the elapsed time `dt` to the position. The new position is
    /// exactly the old one plus the sum of the per-key displacements; the
    /// look angles are untouched.
    pub fn update_position(&mut self, keys: &InputState, s: i64, c: i64, dt: i64)
        requires
            -SCALE <= s <= SCALE,
            -SCALE <= c <= SCALE,
            0 <= dt <= DT_LIMIT,
            coord_bounded(old(self).pos@, MOVE_COORD_LIMIT as int),
        ensures
            final(self).pos@ == vadd(
                old(self).pos@,
                displacement(*keys, s as int, c as int, dt as int),
            ),
            final(self).yaw == old(self).yaw,
            final(self).pitch == old(self).pitch,
            coord_bounded(final(self).pos@, COORD_LIMIT as int),
    {
        let forward = forward_vec(s, c);
        let right = right_vec(s, c);
        let mut p = self.pos;
        if keys.forward {
            p = vec_add(p, vec_scaled(forward, dt));
        }
        if keys.strafe_left {
            p = vec_add(p, vec_scaled(vec_neg(right), dt));
        }
        if keys.back {
            p = vec_add(p, vec_scaled(vec_neg(forward), dt));
        }
        if keys.strafe_right {
            p = vec_add(p, vec_scaled(right, dt));
        }
        self.pos = p;
    }
}

} // verus!
