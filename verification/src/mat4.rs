//! Homogeneous 4x4 fixed-point matrices.
//!
//! A matrix entry is an `i64`; the camera matrices carry the fixed-point
//! scale of their factors, so the rotation block of a camera matrix holds
//! the real entries times the square of the scale. The view matrix is
//! built directly as the transposed rotation composed with the opposite
//! translation, the closed form of the world transform's inverse.

use vstd::prelude::*;
use crate::fixed::{lemma_mul_bounds, SCALE};
use crate::vec3::{coord_bounded, Vec3, COORD_LIMIT};

verus! {

/// A 4x4 matrix of fixed-point scalars; `mRC` is row `R`, column `C`.
#[derive(Clone, Copy, PartialEq, Eq, Structural, Debug)]
pub struct Mat4 {
    pub m00: i64,
    pub m01: i64,
    pub m02: i64,
    pub m03: i64,
    pub m10: i64,
    pub m11: i64,
    pub m12: i64,
    pub m13: i64,
    pub m20: i64,
    pub m21: i64,
    pub m22: i64,
    pub m23: i64,
    pub m30: i64,
    pub m31: i64,
    pub m32: i64,
    pub m33: i64,
}

/// The mathematical (unbounded) counterpart of [`Mat4`].
#[verifier::ext_equal]
pub ghost struct Mat4i {
    pub m00: int,
    pub m01: int,
    pub m02: int,
    pub m03: int,
    pub m10: int,
    pub m11: int,
    pub m12: int,
    pub m13: int,
    pub m20: int,
    pub m21: int,
    pub m22: int,
    pub m23: int,
    pub m30: int,
    pub m31: int,
    pub m32: int,
    pub m33: int,
}

impl View for Mat4 {
    type V = Mat4i;

    open spec fn view(&self) -> Mat4i {
        Mat4i {
            m00: self.m00 as int,
            m01: self.m01 as int,
            m02: self.m02 as int,
            m03: self.m03 as int,
            m10: self.m10 as int,
            m11: self.m11 as int,
            m12: self.m12 as int,
            m13: self.m13 as int,
            m20: self.m20 as int,
            m21: self.m21 as int,
            m22: self.m22 as int,
            m23: self.m23 as int,
            m30: self.m30 as int,
            m31: self.m31 as int,
            m32: self.m32 as int,
            m33: self.m33 as int,
        }
    }
}

/// The matrix with `q` on the diagonal and zero elsewhere; `mat_id(1)` is
/// the identity, and `mat_id(q)` acts as the identity on homogeneous
/// fixed-point vectors up to the uniform factor `q`.
pub open spec fn mat_id(q: int) -> Mat4i {
    Mat4i {
        m00: q,
        m01: 0,
        m02: 0,
        m03: 0,
        m10: 0,
        m11: q,
        m12: 0,
        m13: 0,
        m20: 0,
        m21: 0,
        m22: q,
        m23: 0,
        m30: 0,
        m31: 0,
        m32: 0,
        m33: q,
    }
}

/// The matrix product `a * b`.
pub open spec fn mmul(a: Mat4i, b: Mat4i) -> Mat4i {
    Mat4i {
        m00: a.m00 * b.m00 + a.m01 * b.m10 + a.m02 * b.m20 + a.m03 * b.m30,
        m01: a.m00 * b.m01 + a.m01 * b.m11 + a.m02 * b.m21 + a.m03 * b.m31,
        m02: a.m00 * b.m02 + a.m01 * b.m12 + a.m02 * b.m22 + a.m03 * b.m32,
        m03: a.m00 * b.m03 + a.m01 * b.m13 + a.m02 * b.m23 + a.m03 * b.m33,
        m10: a.m10 * b.m00 + a.m11 * b.m10 + a.m12 * b.m20 + a.m13 * b.m30,
        m11: a.m10 * b.m01 + a.m11 * b.m11 + a.m12 * b.m21 + a.m13 * b.m31,
        m12: a.m10 * b.m02 + a.m11 * b.m12 + a.m12 * b.m22 + a.m13 * b.m32,
        m13: a.m10 * b.m03 + a.m11 * b.m13 + a.m12 * b.m23 + a.m13 * b.m33,
        m20: a.m20 * b.m00 + a.m21 * b.m10 + a.m22 * b.m20 + a.m23 * b.m30,
        m21: a.m20 * b.m01 + a.m21 * b.m11 + a.m22 * b.m21 + a.m23 * b.m31,
        m22: a.m20 * b.m02 + a.m21 * b.m12 + a.m22 * b.m22 + a.m23 * b.m32,
        m23: a.m20 * b.m03 + a.m21 * b.m13 + a.m22 * b.m23 + a.m23 * b.m33,
        m30: a.m30 * b.m00 + a.m31 * b.m10 + a.m32 * b.m20 + a.m33 * b.m30,
        m31: a.m30 * b.m01 + a.m31 * b.m11 + a.m32 * b.m21 + a.m33 * b.m31,
        m32: a.m30 * b.m02 + a.m31 * b.m12 + a.m32 * b.m22 + a.m33 * b.m32,
        m33: a.m30 * b.m03 + a.m31 * b.m13 + a.m32 * b.m23 + a.m33 * b.m33,
    }
}

/// The transpose of `a`.
pub open spec fn transpose_m(a: Mat4i) -> Mat4i {
    Mat4i {
        m00: a.m00,
        m01: a.m10,
        m02: a.m20,
        m03: a.m30,
        m10: a.m01,
        m11: a.m11,
        m12: a.m21,
        m13: a.m31,
        m20: a.m02,
        m21: a.m12,
        m22: a.m22,
        m23: a.m32,
        m30: a.m03,
        m31: a.m13,
        m32: a.m23,
        m33: a.m33,
    }
}

/// Pure translation by `(x, y, z)` fixed-point units.
pub open spec fn translation_m(x: int, y: int, z: int) -> Mat4i {
    Mat4i {
        m00: 1,
        m01: 0,
        m02: 0,
        m03: x,
        m10: 0,
        m11: 1,
        m12: 0,
        m13: y,
        m20: 0,
        m21: 0,
        m22: 1,
        m23: z,
        m30: 0,
        m31: 0,
        m32: 0,
        m33: 1,
    }
}

/// Rotation about the world up axis by a yaw whose sine and cosine,
/// times `k`, are `s` and `c`; the whole matrix carries the factor `k`.
pub open spec fn rot_y_m(s: int, c: int, k: int) -> Mat4i {
    Mat4i {
        m00: c,
        m01: 0,
        m02: s,
        m03: 0,
        m10: 0,
        m11: k,
        m12: 0,
        m13: 0,
        m20: -s,
        m21: 0,
        m22: c,
        m23: 0,
        m30: 0,
        m31: 0,
        m32: 0,
        m33: k,
    }
}

/// Rotation about the local right axis by a pitch whose sine and cosine,
/// times `k`, are `s` and `c`; the whole matrix carries the factor `k`.
pub open spec fn rot_x_m(s: int, c: int, k: int) -> Mat4i {
    Mat4i {
        m00: k,
        m01: 0,
        m02: 0,
        m03: 0,
        m10: 0,
        m11: c,
        m12: -s,
        m13: 0,
        m20: 0,
        m21: s,
        m22: c,
        m23: 0,
        m30: 0,
        m31: 0,
        m32: 0,
        m33: k,
    }
}

/// The camera's rotation: yaw about the world up axis applied first,
/// pitch about the local right axis second. The rotation block carries
/// the factor `k * k`.
pub open spec fn rotation_m(sy: int, cy: int, sp: int, cp: int, k: int) -> Mat4i {
    Mat4i {
        m00: cy * k,
        m01: sy * sp,
        m02: sy * cp,
        m03: 0,
        m10: 0,
        m11: k * cp,
        m12: -(k * sp),
        m13: 0,
        m20: -(sy * k),
        m21: cy * sp,
        m22: cy * cp,
        m23: 0,
        m30: 0,
        m31: 0,
        m32: 0,
        m33: k * k,
    }
}

/// The camera's world transform: translation to the camera position
/// composed with its rotation, all carrying the factor `k * k`.
pub open spec fn world_m(
    sy: int,
    cy: int,
    sp: int,
    cp: int,
    px: int,
    py: int,
    pz: int,
    k: int,
) -> Mat4i {
    Mat4i {
        m00: cy * k,
        m01: sy * sp,
        m02: sy * cp,
        m03: px * (k * k),
        m10: 0,
        m11: k * cp,
        m12: -(k * sp),
        m13: py * (k * k),
        m20: -(sy * k),
        m21: cy * sp,
        m22: cy * cp,
        m23: pz * (k * k),
        m30: 0,
        m31: 0,
        m32: 0,
        m33: k * k,
    }
}

/// The view matrix, built directly as the transposed rotation composed
/// with the translation to the opposite of the camera position (the
/// closed form a matrix inversion of the world transform would produce).
pub open spec fn view_m(
    sy: int,
    cy: int,
    sp: int,
    cp: int,
    px: int,
    py: int,
    pz: int,
    k: int,
) -> Mat4i {
    Mat4i {
        m00: cy * k,
        m01: 0,
        m02: -(sy * k),
        m03: -((cy * k) * px - (sy * k) * pz),
        m10: sy * sp,
        m11: k * cp,
        m12: cy * sp,
        m13: -((sy * sp) * px + (k * cp) * py + (cy * sp) * pz),
        m20: sy * cp,
        m21: -(k * sp),
        m22: cy * cp,
        m23: -((sy * cp) * px - (k * sp) * py + (cy * cp) * pz),
        m30: 0,
        m31: 0,
        m32: 0,
        m33: k * k,
    }
}

/// The camera rotation is the yaw rotation composed with the pitch
/// rotation, in that order.
pub proof fn lemma_rotation_compose(sy: int, cy: int, sp: int, cp: int, k: int)
    ensures
        rotation_m(sy, cy, sp, cp, k) == mmul(rot_y_m(sy, cy, k), rot_x_m(sp, cp, k)),
{
    let a = rot_y_m(sy, cy, k);
    let b = rot_x_m(sp, cp, k);
    let c = rotation_m(sy, cy, sp, cp, k);
    let p = mmul(a, b);
    assert(p.m00 == c.m00 && p.m01 == c.m01 && p.m02 == c.m02 && p.m03 == c.m03) by (nonlinear_arith)
        requires
            p.m00 == a.m00 * b.m00 + a.m01 * b.m10 + a.m02 * b.m20 + a.m03 * b.m30,
            p.m01 == a.m00 * b.m01 + a.m01 * b.m11 + a.m02 * b.m21 + a.m03 * b.m31,
            p.m02 == a.m00 * b.m02 + a.m01 * b.m12 + a.m02 * b.m22 + a.m03 * b.m32,
            p.m03 == a.m00 * b.m03 + a.m01 * b.m13 + a.m02 * b.m23 + a.m03 * b.m33,
            a.m00 == cy,
            a.m01 == 0,
            a.m02 == sy,
            a.m03 == 0,
            b.m00 == k,
            b.m01 == 0,
            b.m02 == 0,
            b.m03 == 0,
            b.m10 == 0,
            b.m11 == cp,
            b.m12 == -sp,
            b.m13 == 0,
            b.m20 == 0,
            b.m21 == sp,
            b.m22 == cp,
            b.m23 == 0,
            b.m30 == 0,
            b.m31 == 0,
            b.m32 == 0,
            b.m33 == k,
            c.m00 == cy * k,
            c.m01 == sy * sp,
            c.m02 == sy * cp,
            c.m03 == 0
    ;
    assert(p.m10 == c.m10 && p.m11 == c.m11 && p.m12 == c.m12 && p.m13 == c.m13) by (nonlinear_arith)
        requires
            p.m10 == a.m10 * b.m00 + a.m11 * b.m10 + a.m12 * b.m20 + a.m13 * b.m30,
            p.m11 == a.m10 * b.m01 + a.m11 * b.m11 + a.m12 * b.m21 + a.m13 * b.m31,
            p.m12 == a.m10 * b.m02 + a.m11 * b.m12 + a.m12 * b.m22 + a.m13 * b.m32,
            p.m13 == a.m10 * b.m03 + a.m11 * b.m13 + a.m12 * b.m23 + a.m13 * b.m33,
            a.m10 == 0,
            a.m11 == k,
            a.m12 == 0,
            a.m13 == 0,
            b.m00 == k,
            b.m01 == 0,
            b.m02 == 0,
            b.m03 == 0,
            b.m10 == 0,
            b.m11 == cp,
            b.m12 == -sp,
            b.m13 == 0,
            b.m20 == 0,
            b.m21 == sp,
            b.m22 == cp,
            b.m23 == 0,
            b.m30 == 0,
            b.m31 == 0,
            b.m32 == 0,
            b.m33 == k,
            c.m10 == 0,
            c.m11 == k * cp,
            c.m12 == -(k * sp),
            c.m13 == 0
    ;
    assert(p.m20 == c.m20 && p.m21 == c.m21 && p.m22 == c.m22 && p.m23 == c.m23) by (nonlinear_arith)
        requires
            p.m20 == a.m20 * b.m00 + a.m21 * b.m10 + a.m22 * b.m20 + a.m23 * b.m30,
            p.m21 == a.m20 * b.m01 + a.m21 * b.m11 + a.m22 * b.m21 + a.m23 * b.m31,
            p.m22 == a.m20 * b.m02 + a.m21 * b.m12 + a.m22 * b.m22 + a.m23 * b.m32,
            p.m23 == a.m20 * b.m03 + a.m21 * b.m13 + a.m22 * b.m23 + a.m23 * b.m33,
            a.m20 == -sy,
            a.m21 == 0,
            a.m22 == cy,
            a.m23 == 0,
            b.m00 == k,
            b.m01 == 0,
            b.m02 == 0,
            b.m03 == 0,
            b.m10 == 0,
            b.m11 == cp,
            b.m12 == -sp,
            b.m13 == 0,
            b.m20 == 0,
            b.m21 == sp,
            b.m22 == cp,
            b.m23 == 0,
            b.m30 == 0,
            b.m31 == 0,
            b.m32 == 0,
            b.m33 == k,
            c.m20 == -(sy * k),
            c.m21 == cy * sp,
            c.m22 == cy * cp,
            c.m23 == 0
    ;
    assert(p.m30 == c.m30 && p.m31 == c.m31 && p.m32 == c.m32 && p.m33 == c.m33) by (nonlinear_arith)
        requires
            p.m30 == a.m30 * b.m00 + a.m31 * b.m10 + a.m32 * b.m20 + a.m33 * b.m30,
            p.m31 == a.m30 * b.m01 + a.m31 * b.m11 + a.m32 * b.m21 + a.m33 * b.m31,
            p.m32 == a.m30 * b.m02 + a.m31 * b.m12 + a.m32 * b.m22 + a.m33 * b.m32,
            p.m33 == a.m30 * b.m03 + a.m31 * b.m13 + a.m32 * b.m23 + a.m33 * b.m33,
            a.m30 == 0,
            a.m31 == 0,
            a.m32 == 0,
            a.m33 == k,
            b.m00 == k,
            b.m01 == 0,
            b.m02 == 0,
            b.m03 == 0,
            b.m10 == 0,
            b.m11 == cp,
            b.m12 == -sp,
            b.m13 == 0,
            b.m20 == 0,
            b.m21 == sp,
            b.m22 == cp,
            b.m23 == 0,
            b.m30 == 0,
            b.m31 == 0,
            b.m32 == 0,
            b.m33 == k,
            c.m30 == 0,
            c.m31 == 0,
            c.m32 == 0,
            c.m33 == k * k
    ;
    assert(c =~= p);
}

/// The world transform is the translation to the camera position composed
/// with the camera rotation.
pub proof fn lemma_world_compose(
    sy: int,
    cy: int,
    sp: int,
    cp: int,
    px: int,
    py: int,
    pz: int,
    k: int,
)
    ensures
        world_m(sy, cy, sp, cp, px, py, pz, k) == mmul(
            translation_m(px, py, pz),
            rotation_m(sy, cy, sp, cp, k),
        ),
{
    let a = translation_m(px, py, pz);
    let b = rotation_m(sy, cy, sp, cp, k);
    let c = world_m(sy, cy, sp, cp, px, py, pz, k);
    let p = mmul(a, b);
    assert(p.m00 == c.m00 && p.m01 == c.m01 && p.m02 == c.m02 && p.m03 == c.m03) by (nonlinear_arith)
        requires
            p.m00 == a.m00 * b.m00 + a.m01 * b.m10 + a.m02 * b.m20 + a.m03 * b.m30,
            p.m01 == a.m00 * b.m01 + a.m01 * b.m11 + a.m02 * b.m21 + a.m03 * b.m31,
            p.m02 == a.m00 * b.m02 + a.m01 * b.m12 + a.m02 * b.m22 + a.m03 * b.m32,
            p.m03 == a.m00 * b.m03 + a.m01 * b.m13 + a.m02 * b.m23 + a.m03 * b.m33,
            a.m00 == 1,
            a.m01 == 0,
            a.m02 == 0,
            a.m03 == px,
            b.m00 == cy * k,
            b.m01 == sy * sp,
            b.m02 == sy * cp,
            b.m03 == 0,
            b.m10 == 0,
            b.m11 == k * cp,
            b.m12 == -(k * sp),
            b.m13 == 0,
            b.m20 == -(sy * k),
            b.m21 == cy * sp,
            b.m22 == cy * cp,
            b.m23 == 0,
            b.m30 == 0,
            b.m31 == 0,
            b.m32 == 0,
            b.m33 == k * k,
            c.m00 == cy * k,
            c.m01 == sy * sp,
            c.m02 == sy * cp,
            c.m03 == px * (k * k)
    ;
    assert(p.m10 == c.m10 && p.m11 == c.m11 && p.m12 == c.m12 && p.m13 == c.m13) by (nonlinear_arith)
        requires
            p.m10 == a.m10 * b.m00 + a.m11 * b.m10 + a.m12 * b.m20 + a.m13 * b.m30,
            p.m11 == a.m10 * b.m01 + a.m11 * b.m11 + a.m12 * b.m21 + a.m13 * b.m31,
            p.m12 == a.m10 * b.m02 + a.m11 * b.m12 + a.m12 * b.m22 + a.m13 * b.m32,
            p.m13 == a.m10 * b.m03 + a.m11 * b.m13 + a.m12 * b.m23 + a.m13 * b.m33,
            a.m10 == 0,
            a.m11 == 1,
            a.m12 == 0,
            a.m13 == py,
            b.m00 == cy * k,
            b.m01 == sy * sp,
            b.m02 == sy * cp,
            b.m03 == 0,
            b.m10 == 0,
            b.m11 == k * cp,
            b.m12 == -(k * sp),
            b.m13 == 0,
            b.m20 == -(sy * k),
            b.m21 == cy * sp,
            b.m22 == cy * cp,
            b.m23 == 0,
            b.m30 == 0,
            b.m31 == 0,
            b.m32 == 0,
            b.m33 == k * k,
            c.m10 == 0,
            c.m11 == k * cp,
            c.m12 == -(k * sp),
            c.m13 == py * (k * k)
    ;
    assert(p.m20 == c.m20 && p.m21 == c.m21 && p.m22 == c.m22 && p.m23 == c.m23) by (nonlinear_arith)
        requires
            p.m20 == a.m20 * b.m00 + a.m21 * b.m10 + a.m22 * b.m20 + a.m23 * b.m30,
            p.m21 == a.m20 * b.m01 + a.m21 * b.m11 + a.m22 * b.m21 + a.m23 * b.m31,
            p.m22 == a.m20 * b.m02 + a.m21 * b.m12 + a.m22 * b.m22 + a.m23 * b.m32,
            p.m23 == a.m20 * b.m03 + a.m21 * b.m13 + a.m22 * b.m23 + a.m23 * b.m33,
            a.m20 == 0,
            a.m21 == 0,
            a.m22 == 1,
            a.m23 == pz,
            b.m00 == cy * k,
            b.m01 == sy * sp,
            b.m02 == sy * cp,
            b.m03 == 0,
            b.m10 == 0,
            b.m11 == k * cp,
            b.m12 == -(k * sp),
            b.m13 == 0,
            b.m20 == -(sy * k),
            b.m21 == cy * sp,
            b.m22 == cy * cp,
            b.m23 == 0,
            b.m30 == 0,
            b.m31 == 0,
            b.m32 == 0,
            b.m33 == k * k,
            c.m20 == -(sy * k),
            c.m21 == cy * sp,
            c.m22 == cy * cp,
            c.m23 == pz * (k * k)
    ;
    assert(p.m30 == c.m30 && p.m31 == c.m31 && p.m32 == c.m32 && p.m33 == c.m33) by (nonlinear_arith)
        requires
            p.m30 == a.m30 * b.m00 + a.m31 * b.m10 + a.m32 * b.m20 + a.m33 * b.m30,
            p.m31 == a.m30 * b.m01 + a.m31 * b.m11 + a.m32 * b.m21 + a.m33 * b.m31,
            p.m32 == a.m30 * b.m02 + a.m31 * b.m12 + a.m32 * b.m22 + a.m33 * b.m32,
            p.m33 == a.m30 * b.m03 + a.m31 * b.m13 + a.m32 * b.m23 + a.m33 * b.m33,
            a.m30 == 0,
            a.m31 == 0,
            a.m32 == 0,
            a.m33 == 1,
            b.m00 == cy * k,
            b.m01 == sy * sp,
            b.m02 == sy * cp,
            b.m03 == 0,
            b.m10 == 0,
            b.m11 == k * cp,
            b.m12 == -(k * sp),
            b.m13 == 0,
            b.m20 == -(sy * k),
            b.m21 == cy * sp,
            b.m22 == cy * cp,
            b.m23 == 0,
            b.m30 == 0,
            b.m31 == 0,
            b.m32 == 0,
            b.m33 == k * k,
            c.m30 == 0,
            c.m31 == 0,
            c.m32 == 0,
            c.m33 == k * k
    ;
    assert(c =~= p);
}

/// The view matrix is the transposed rotation composed with the
/// translation to the opposite of the camera position.
pub proof fn lemma_view_compose(
    sy: int,
    cy: int,
    sp: int,
    cp: int,
    px: int,
    py: int,
    pz: int,
    k: int,
)
    ensures
        view_m(sy, cy, sp, cp, px, py, pz, k) == mmul(
            transpose_m(rotation_m(sy, cy, sp, cp, k)),
            translation_m(-px, -py, -pz),
        ),
{
    let a = transpose_m(rotation_m(sy, cy, sp, cp, k));
    let b = translation_m(-px, -py, -pz);
    let c = view_m(sy, cy, sp, cp, px, py, pz, k);
    let p = mmul(a, b);
    assert(p.m00 == c.m00 && p.m01 == c.m01 && p.m02 == c.m02 && p.m03 == c.m03) by (nonlinear_arith)
        requires
            p.m00 == a.m00 * b.m00 + a.m01 * b.m10 + a.m02 * b.m20 + a.m03 * b.m30,
            p.m01 == a.m00 * b.m01 + a.m01 * b.m11 + a.m02 * b.m21 + a.m03 * b.m31,
            p.m02 == a.m00 * b.m02 + a.m01 * b.m12 + a.m02 * b.m22 + a.m03 * b.m32,
            p.m03 == a.m00 * b.m03 + a.m01 * b.m13 + a.m02 * b.m23 + a.m03 * b.m33,
            a.m00 == cy * k,
            a.m01 == 0,
            a.m02 == -(sy * k),
            a.m03 == 0,
            b.m00 == 1,
            b.m01 == 0,
            b.m02 == 0,
            b.m03 == -px,
            b.m10 == 0,
            b.m11 == 1,
            b.m12 == 0,
            b.m13 == -py,
            b.m20 == 0,
            b.m21 == 0,
            b.m22 == 1,
            b.m23 == -pz,
            b.m30 == 0,
            b.m31 == 0,
            b.m32 == 0,
            b.m33 == 1,
            c.m00 == cy * k,
            c.m01 == 0,
            c.m02 == -(sy * k),
            c.m03 == -((cy * k) * px - (sy * k) * pz)
    ;
    assert(p.m10 == c.m10 && p.m11 == c.m11 && p.m12 == c.m12 && p.m13 == c.m13) by (nonlinear_arith)
        requires
            p.m10 == a.m10 * b.m00 + a.m11 * b.m10 + a.m12 * b.m20 + a.m13 * b.m30,
            p.m11 == a.m10 * b.m01 + a.m11 * b.m11 + a.m12 * b.m21 + a.m13 * b.m31,
            p.m12 == a.m10 * b.m02 + a.m11 * b.m12 + a.m12 * b.m22 + a.m13 * b.m32,
            p.m13 == a.m10 * b.m03 + a.m11 * b.m13 + a.m12 * b.m23 + a.m13 * b.m33,
            a.m10 == sy * sp,
            a.m11 == k * cp,
            a.m12 == cy * sp,
            a.m13 == 0,
            b.m00 == 1,
            b.m01 == 0,
            b.m02 == 0,
            b.m03 == -px,
            b.m10 == 0,
            b.m11 == 1,
            b.m12 == 0,
            b.m13 == -py,
            b.m20 == 0,
            b.m21 == 0,
            b.m22 == 1,
            b.m23 == -pz,
            b.m30 == 0,
            b.m31 == 0,
            b.m32 == 0,
            b.m33 == 1,
            c.m10 == sy * sp,
            c.m11 == k * cp,
            c.m12 == cy * sp,
            c.m13 == -((sy * sp) * px + (k * cp) * py + (cy * sp) * pz)
    ;
    assert(p.m20 == c.m20 && p.m21 == c.m21 && p.m22 == c.m22 && p.m23 == c.m23) by (nonlinear_arith)
        requires
            p.m20 == a.m20 * b.m00 + a.m21 * b.m10 + a.m22 * b.m20 + a.m23 * b.m30,
            p.m21 == a.m20 * b.m01 + a.m21 * b.m11 + a.m22 * b.m21 + a.m23 * b.m31,
            p.m22 == a.m20 * b.m02 + a.m21 * b.m12 + a.m22 * b.m22 + a.m23 * b.m32,
            p.m23 == a.m20 * b.m03 + a.m21 * b.m13 + a.m22 * b.m23 + a.m23 * b.m33,
            a.m20 == sy * cp,
            a.m21 == -(k * sp),
            a.m22 == cy * cp,
            a.m23 == 0,
            b.m00 == 1,
            b.m01 == 0,
            b.m02 == 0,
            b.m03 == -px,
            b.m10 == 0,
            b.m11 == 1,
            b.m12 == 0,
            b.m13 == -py,
            b.m20 == 0,
            b.m21 == 0,
            b.m22 == 1,
            b.m23 == -pz,
            b.m30 == 0,
            b.m31 == 0,
            b.m32 == 0,
            b.m33 == 1,
            c.m20 == sy * cp,
            c.m21 == -(k * sp),
            c.m22 == cy * cp,
            c.m23 == -((sy * cp) * px - (k * sp) * py + (cy * cp) * pz)
    ;
    assert(p.m30 == c.m30 && p.m31 == c.m31 && p.m32 == c.m32 && p.m33 == c.m33) by (nonlinear_arith)
        requires
            p.m30 == a.m30 * b.m00 + a.m31 * b.m10 + a.m32 * b.m20 + a.m33 * b.m30,
            p.m31 == a.m30 * b.m01 + a.m31 * b.m11 + a.m32 * b.m21 + a.m33 * b.m31,
            p.m32 == a.m30 * b.m02 + a.m31 * b.m12 + a.m32 * b.m22 + a.m33 * b.m32,
            p.m33 == a.m30 * b.m03 + a.m31 * b.m13 + a.m32 * b.m23 + a.m33 * b.m33,
            a.m30 == 0,
            a.m31 == 0,
            a.m32 == 0,
            a.m33 == k * k,
            b.m00 == 1,
            b.m01 == 0,
            b.m02 == 0,
            b.m03 == -px,
            b.m10 == 0,
            b.m11 == 1,
            b.m12 == 0,
            b.m13 == -py,
            b.m20 == 0,
            b.m21 == 0,
            b.m22 == 1,
            b.m23 == -pz,
            b.m30 == 0,
            b.m31 == 0,
            b.m32 == 0,
            b.m33 == 1,
            c.m30 == 0,
            c.m31 == 0,
            c.m32 == 0,
            c.m33 == k * k
    ;
    assert(c =~= p);
}


/// The camera's world transform as a fixed-point matrix, for a yaw and a
/// pitch given by their fixed-point sines and cosines.
pub fn world_matrix(sy: i64, cy: i64, sp: i64, cp: i64, pos: Vec3) -> (m: Mat4)
    requires
        -SCALE <= sy <= SCALE,
        -SCALE <= cy <= SCALE,
        -SCALE <= sp <= SCALE,
        -SCALE <= cp <= SCALE,
        coord_bounded(pos@, COORD_LIMIT as int),
    ensures
        m@ == world_m(
            sy as int,
            cy as int,
            sp as int,
            cp as int,
            pos@.x,
            pos@.y,
            pos@.z,
            SCALE as int,
        ),
{
    proof {
        lemma_mul_bounds(sy as int, sp as int, SCALE as int, SCALE as int);
        lemma_mul_bounds(sy as int, cp as int, SCALE as int, SCALE as int);
        lemma_mul_bounds(cy as int, sp as int, SCALE as int, SCALE as int);
        lemma_mul_bounds(cy as int, cp as int, SCALE as int, SCALE as int);
        let s2 = (SCALE as int) * (SCALE as int);
        let cl = COORD_LIMIT as int;
        lemma_mul_bounds(pos@.x, s2, cl, s2);
        lemma_mul_bounds(pos@.y, s2, cl, s2);
        lemma_mul_bounds(pos@.z, s2, cl, s2);
    }
    Mat4 {
        m00: cy * SCALE,
        m01: sy * sp,
        m02: sy * cp,
        m03: pos.x * (SCALE * SCALE),
        m10: 0,
        m11: SCALE * cp,
        m12: -(SCALE * sp),
        m13: pos.y * (SCALE * SCALE),
        m20: -(sy * SCALE),
        m21: cy * sp,
        m22: cy * cp,
        m23: pos.z * (SCALE * SCALE),
        m30: 0,
        m31: 0,
        m32: 0,
        m33: SCALE * SCALE,
    }
}

/// The view matrix for the same camera state, built as the transposed
/// rotation composed with the opposite translation; multiplied with
/// [`world_matrix`] in either order it yields the scaled identity
/// whenever the sine/cosine pairs lie exactly on the fixed-point circle.
pub fn view_matrix(sy: i64, cy: i64, sp: i64, cp: i64, pos: Vec3) -> (m: Mat4)
    requires
        -SCALE <= sy <= SCALE,
        -SCALE <= cy <= SCALE,
        -SCALE <= sp <= SCALE,
        -SCALE <= cp <= SCALE,
        coord_bounded(pos@, COORD_LIMIT as int),
    ensures
        m@ == view_m(
            sy as int,
            cy as int,
            sp as int,
            cp as int,
            pos@.x,
            pos@.y,
            pos@.z,
            SCALE as int,
        ),
{
    proof {
        lemma_mul_bounds(sy as int, sp as int, SCALE as int, SCALE as int);
        lemma_mul_bounds(sy as int, cp as int, SCALE as int, SCALE as int);
        lemma_mul_bounds(cy as int, sp as int, SCALE as int, SCALE as int);
        lemma_mul_bounds(cy as int, cp as int, SCALE as int, SCALE as int);
        let s2 = (SCALE as int) * (SCALE as int);
        let cl = COORD_LIMIT as int;
        lemma_mul_bounds((cy as int) * (SCALE as int), pos@.x, s2, cl);
        lemma_mul_bounds((sy as int) * (SCALE as int), pos@.z, s2, cl);
        lemma_mul_bounds((sy as int) * (sp as int), pos@.x, s2, cl);
        lemma_mul_bounds((SCALE as int) * (cp as int), pos@.y, s2, cl);
        lemma_mul_bounds((cy as int) * (sp as int), pos@.z, s2, cl);
        lemma_mul_bounds((sy as int) * (cp as int), pos@.x, s2, cl);
        lemma_mul_bounds((SCALE as int) * (sp as int), pos@.y, s2, cl);
        lemma_mul_bounds((cy as int) * (cp as int), pos@.z, s2, cl);
    }
    Mat4 {
        m00: cy * SCALE,
        m01: 0,
        m02: -(sy * SCALE),
        m03: -((cy * SCALE) * pos.x - (sy * SCALE) * pos.z),
        m10: sy * sp,
        m11: SCALE * cp,
        m12: cy * sp,
        m13: -((sy * sp) * pos.x + (SCALE * cp) * pos.y + (cy * sp) * pos.z),
        m20: sy * cp,
        m21: -(SCALE * sp),
        m22: cy * cp,
        m23: -((sy * cp) * pos.x - (SCALE * sp) * pos.y + (cy * cp) * pos.z),
        m30: 0,
        m31: 0,
        m32: 0,
        m33: SCALE * SCALE,
    }
}

} // verus!
