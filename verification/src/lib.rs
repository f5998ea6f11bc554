//! A first-person camera core for a small instanced-triangle demo.
//!
//! All state lives in exact fixed-point arithmetic: a scalar is an `i64`
//! holding the real value times [`fixed::SCALE`]. The windowing and GPU
//! layers convert at the boundary; everything in this crate is verified.

pub mod camera;
pub mod fixed;
pub mod mat4;
pub mod projection;
pub mod input;
pub mod vec3;

use vstd::prelude::*;

verus! {

} // verus!
