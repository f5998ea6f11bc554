//! Fixed-point 3-vectors and the horizontal movement directions.

use vstd::prelude::*;
use crate::fixed::{fx_mul, fxm, lemma_fxm_bound, lemma_mul_bounds, DT_LIMIT, SCALE};

verus! {

/// A 3-vector of fixed-point scalars.
#[derive(Clone, Copy, PartialEq, Eq, Structural, Debug)]
pub struct Vec3 {
    pub x: i64,
    pub y: i64,
    pub z: i64,
}

/// The mathematical (unbounded) counterpart of [`Vec3`].
pub ghost struct Vec3i {
    pub x: int,
    pub y: int,
    pub z: int,
}

impl View for Vec3 {
    type V = Vec3i;

    open spec fn view(&self) -> Vec3i {
        Vec3i { x: self.x as int, y: self.y as int, z: self.z as int }
    }
}

/// The zero vector.
pub open spec fn vzero() -> Vec3i {
    Vec3i { x: 0, y: 0, z: 0 }
}

/// Componentwise sum.
pub open spec fn vadd(a: Vec3i, b: Vec3i) -> Vec3i {
    Vec3i { x: a.x + b.x, y: a.y + b.y, z: a.z + b.z }
}

/// Componentwise negation.
pub open spec fn vneg(a: Vec3i) -> Vec3i {
    Vec3i { x: -a.x, y: -a.y, z: -a.z }
}

/// The dot product.
pub open spec fn dot(a: Vec3i, b: Vec3i) -> int {
    a.x * b.x + a.y * b.y + a.z * b.z
}

/// Each component scaled by the fixed-point factor `t`.
pub open spec fn vscale(a: Vec3i, t: int) -> Vec3i {
    Vec3i { x: fxm(a.x, t), y: fxm(a.y, t), z: fxm(a.z, t) }
}

/// Largest coordinate magnitude the camera matrices accept.
pub const COORD_LIMIT: i64 = 10_000_000_000;

/// Every coordinate of `v` has magnitude at most `bound`.
pub open spec fn coord_bounded(v: Vec3i, bound: int) -> bool {
    &&& -bound <= v.x <= bound
    &&& -bound <= v.y <= bound
    &&& -bound <= v.z <= bound
}

/// Componentwise sum of two fixed-point vectors.
pub fn vec_add(a: Vec3, b: Vec3) -> (r: Vec3)
    requires
        -0x8000_0000_0000_0000 <= a@.x + b@.x <= 0x7fff_ffff_ffff_ffff,
        -0x8000_0000_0000_0000 <= a@.y + b@.y <= 0x7fff_ffff_ffff_ffff,
        -0x8000_0000_0000_0000 <= a@.z + b@.z <= 0x7fff_ffff_ffff_ffff,
    ensures
        r@ == vadd(a@, b@),
{
    Vec3 { x: a.x + b.x, y: a.y + b.y, z: a.z + b.z }
}

/// Componentwise negation of a fixed-point vector.
pub fn vec_neg(v: Vec3) -> (r: Vec3)
    requires
        coord_bounded(v@, 0x7fff_ffff_ffff_ffff),
    ensures
        r@ == vneg(v@),
{
    Vec3 { x: -v.x, y: -v.y, z: -v.z }
}

/// A direction vector scaled by the fixed-point time `t`.
pub fn vec_scaled(v: Vec3, t: i64) -> (r: Vec3)
    requires
        coord_bounded(v@, SCALE as int),
        -DT_LIMIT <= t <= DT_LIMIT,
    ensures
        r@ == vscale(v@, t as int),
        coord_bounded(r@, DT_LIMIT as int),
{
    proof {
        lemma_mul_bounds(v@.x, t as int, SCALE as int, DT_LIMIT as int);
        lemma_mul_bounds(v@.y, t as int, SCALE as int, DT_LIMIT as int);
        lemma_mul_bounds(v@.z, t as int, SCALE as int, DT_LIMIT as int);
        lemma_fxm_bound(v@.x, t as int, DT_LIMIT as int);
        lemma_fxm_bound(v@.y, t as int, DT_LIMIT as int);
        lemma_fxm_bound(v@.z, t as int, DT_LIMIT as int);
    }
    Vec3 { x: fx_mul(v.x, t), y: fx_mul(v.y, t), z: fx_mul(v.z, t) }
}

/// The horizontal facing direction for a yaw whose sine and cosine are
/// `s` and `c`: `(-sin yaw, 0, -cos yaw)`.
pub open spec fn forward_dir(s: int, c: int) -> Vec3i {
    Vec3i { x: -s, y: 0, z: -c }
}

/// The horizontal strafe direction for the same yaw: `(cos yaw, 0, -sin yaw)`.
pub open spec fn right_dir(s: int, c: int) -> Vec3i {
    Vec3i { x: c, y: 0, z: -s }
}

/// The forward movement direction, as a fixed-point vector.
pub fn forward_vec(s: i64, c: i64) -> (r: Vec3)
    requires
        -SCALE <= s <= SCALE,
        -SCALE <= c <= SCALE,
    ensures
        r@ == forward_dir(s as int, c as int),
{
    Vec3 { x: -s, y: 0, z: -c }
}

/// The strafe movement direction, as a fixed-point vector.
pub fn right_vec(s: i64, c: i64) -> (r: Vec3)
    requires
        -SCALE <= s <= SCALE,
        -SCALE <= c <= SCALE,
    ensures
        r@ == right_dir(s as int, c as int),
{
    Vec3 { x: c, y: 0, z: -s }
}

/// For every yaw, the forward and strafe directions are mutually
/// perpendicular, and both have squared length `k * k` whenever the yaw's
/// sine and cosine lie on the circle of radius `k`; in particular they are
/// unit vectors when `(s, c)` is an exact sine/cosine pair.
pub proof fn lemma_forward_right_orthonormal(s: int, c: int, k: int)
    requires
        s * s + c * c == k * k,
    ensures
        dot(forward_dir(s, c), forward_dir(s, c)) == k * k,
        dot(right_dir(s, c), right_dir(s, c)) == k * k,
        dot(forward_dir(s, c), right_dir(s, c)) == 0,
{
    assert((-s) * (-s) + 0 * 0 + (-c) * (-c) == k * k) by (nonlinear_arith)
        requires
            s * s + c * c == k * k,
    ;
    assert(c * c + 0 * 0 + (-s) * (-s) == k * k) by (nonlinear_arith)
        requires
            s * s + c * c == k * k,
    ;
    assert((-s) * c + 0 * 0 + (-c) * (-s) == 0) by (nonlinear_arith);
}

} // verus!
