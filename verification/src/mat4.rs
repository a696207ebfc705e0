//! Homogeneous four-component vectors and column-major 4x4 fixed-point
//! matrices, as far as the camera needs them: construction and
//! matrix-vector multiplication.

use vstd::prelude::*;
use crate::fx::{fx_add, fx_add_s, fx_mul, fx_mul_s, SCALE};

verus! {

#[derive(Clone, Copy, Debug, PartialEq, Eq, Structural)]
pub struct Vec4 {
    pub x: i64,
    pub y: i64,
    pub z: i64,
    pub w: i64,
}

/// Column-major 4x4 matrix: `cN` is the N-th column.
#[derive(Clone, Copy, Debug, PartialEq, Eq, Structural)]
pub struct Mat4 {
    pub c0: Vec4,
    pub c1: Vec4,
    pub c2: Vec4,
    pub c3: Vec4,
}

pub open spec fn v4add_s(a: Vec4, b: Vec4) -> Vec4 {
    Vec4 {
        x: fx_add_s(a.x as int, b.x as int) as i64,
        y: fx_add_s(a.y as int, b.y as int) as i64,
        z: fx_add_s(a.z as int, b.z as int) as i64,
        w: fx_add_s(a.w as int, b.w as int) as i64,
    }
}

pub open spec fn v4scale_s(a: Vec4, s: i64) -> Vec4 {
    Vec4 {
        x: fx_mul_s(a.x as int, s as int) as i64,
        y: fx_mul_s(a.y as int, s as int) as i64,
        z: fx_mul_s(a.z as int, s as int) as i64,
        w: fx_mul_s(a.w as int, s as int) as i64,
    }
}

/// `m * v` for a column vector `v`: the columns weighted by the components.
pub open spec fn mat4_mul_vec4_s(m: Mat4, v: Vec4) -> Vec4 {
    v4add_s(
        v4add_s(v4scale_s(m.c0, v.x), v4scale_s(m.c1, v.y)),
        v4add_s(v4scale_s(m.c2, v.z), v4scale_s(m.c3, v.w)),
    )
}

/// The identity at fixed-point scale.
pub open spec fn mat4_identity_s() -> Mat4 {
    Mat4 {
        c0: Vec4 { x: SCALE, y: 0, z: 0, w: 0 },
        c1: Vec4 { x: 0, y: SCALE, z: 0, w: 0 },
        c2: Vec4 { x: 0, y: 0, z: SCALE, w: 0 },
        c3: Vec4 { x: 0, y: 0, z: 0, w: SCALE },
    }
}

pub fn v4_add(a: Vec4, b: Vec4) -> (r: Vec4)
    ensures
        r == v4add_s(a, b),
{
    Vec4 { x: fx_add(a.x, b.x), y: fx_add(a.y, b.y), z: fx_add(a.z, b.z), w: fx_add(a.w, b.w) }
}

pub fn v4_scale(a: Vec4, s: i64) -> (r: Vec4)
    ensures
        r == v4scale_s(a, s),
{
    Vec4 { x: fx_mul(a.x, s), y: fx_mul(a.y, s), z: fx_mul(a.z, s), w: fx_mul(a.w, s) }
}

pub fn mat4_mul_vec4(m: &Mat4, v: Vec4) -> (r: Vec4)
    ensures
        r == mat4_mul_vec4_s(*m, v),
{
    v4_add(
        v4_add(v4_scale(m.c0, v.x), v4_scale(m.c1, v.y)),
        v4_add(v4_scale(m.c2, v.z), v4_scale(m.c3, v.w)),
    )
}

pub fn mat4_identity() -> (r: Mat4)
    ensures
        r == mat4_identity_s(),
{
    Mat4 {
        c0: Vec4 { x: SCALE, y: 0, z: 0, w: 0 },
        c1: Vec4 { x: 0, y: SCALE, z: 0, w: 0 },
        c2: Vec4 { x: 0, y: 0, z: SCALE, w: 0 },
        c3: Vec4 { x: 0, y: 0, z: 0, w: SCALE },
    }
}

} // verus!
