//! Perspective projection parameters.
//!
//! The projection is rebuilt from these parameters whenever the window
//! resizes; the aspect ratio is kept exactly, as the width/height pair.

use vstd::prelude::*;
use crate::fixed::{div_floor, lemma_mul_bounds, SCALE};
use crate::mat4::{Mat4, Mat4i};

verus! {

/// The perspective projection parameters: a vertical field of view in
/// fixed-point degrees, the window size in pixels, and the near and far
/// plane distances in fixed-point units.
#[derive(Clone, Copy, PartialEq, Eq, Structural, Debug)]
pub struct Projection {
    pub fov_deg: i64,
    pub width: i64,
    pub height: i64,
    pub near: i64,
    pub far: i64,
}

impl Projection {
    /// The parameters are usable: positive size, a proper view volume.
    pub open spec fn wf(self) -> bool {
        &&& 0 < self.width
        &&& 0 < self.height
        &&& 0 < self.near < self.far
        &&& 0 < self.fov_deg
    }

    pub fn new(fov_deg: i64, width: i64, height: i64, near: i64, far: i64) -> (p: Projection)
        requires
            0 < width,
            0 < height,
            0 < near < far,
            0 < fov_deg,
        ensures
            p == (Projection { fov_deg, width, height, near, far }),
            p.wf(),
    {
        Projection { fov_deg, width, height, near, far }
    }

    /// A window resize: the aspect ratio becomes exactly `width / height`;
    /// the field of view and the planes are untouched.
    pub fn resize(&mut self, width: i64, height: i64)
        requires
            0 < width,
            0 < height,
        ensures
            final(self).width == width,
            final(self).height == height,
            final(self).fov_deg == old(self).fov_deg,
            final(self).near == old(self).near,
            final(self).far == old(self).far,
            old(self).wf() ==> final(self).wf(),
    {
        self.width = width;
        self.height = height;
    }
}


/// The right-handed perspective matrix for a cotangent `f` of the half
/// field of view, window size `w` by `h`, and planes `n` and `fa`, all in
/// fixed-point units; quotients round toward zero.
pub open spec fn perspective_m(f: int, w: int, h: int, n: int, fa: int) -> Mat4i {
    Mat4i {
        m00: (f * h) / w,
        m01: 0,
        m02: 0,
        m03: 0,
        m10: 0,
        m11: f,
        m12: 0,
        m13: 0,
        m20: 0,
        m21: 0,
        m22: -(((fa + n) * (SCALE as int)) / (fa - n)),
        m23: -((2 * (fa * n)) / (fa - n)),
        m30: 0,
        m31: 0,
        m32: -(SCALE as int),
        m33: 0,
    }
}

impl Projection {
    /// The projection matrix for these parameters, given the cotangent of
    /// the half field of view as a fixed-point scalar; the matrix reflects
    /// the current aspect pair exactly.
    pub fn matrix(&self, cot_half_fov: i64) -> (m: Mat4)
        requires
            self.wf(),
            0 < cot_half_fov <= 100 * SCALE,
            self.width <= 100_000,
            self.height <= 100_000,
            self.far <= 1_000_000_000,
        ensures
            m@ == perspective_m(
                cot_half_fov as int,
                self.width as int,
                self.height as int,
                self.near as int,
                self.far as int,
            ),
    {
        proof {
            lemma_mul_bounds(cot_half_fov as int, self.height as int, 1_000_000, 100_000);
            lemma_mul_bounds(self.far as int, self.near as int, 1_000_000_000, 1_000_000_000);
            assert(cot_half_fov as int * self.height as int >= 0) by (nonlinear_arith)
                requires
                    cot_half_fov > 0,
                    self.height > 0,
            ;
            assert(self.far as int * self.near as int >= 0) by (nonlinear_arith)
                requires
                    self.far > 0,
                    self.near > 0,
            ;
        }
        let m00 = div_floor(cot_half_fov * self.height, self.width);
        let m22 = -(div_floor((self.far + self.near) * SCALE, self.far - self.near));
        let m23 = -(div_floor(2 * (self.far * self.near), self.far - self.near));
        Mat4 {
            m00,
            m01: 0,
            m02: 0,
            m03: 0,
            m10: 0,
            m11: cot_half_fov,
            m12: 0,
            m13: 0,
            m20: 0,
            m21: 0,
            m22,
            m23,
            m30: 0,
            m31: 0,
            m32: -SCALE,
            m33: 0,
        }
    }
}

} // verus!
