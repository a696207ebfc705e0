//! Three-component fixed-point vectors: the carrier of positions, directions
//! and colors. Every executable operation is pinned to a spec-level
//! counterpart; the mirror-reflection law is proved of the exact integer
//! model at the bottom of the file.

use vstd::prelude::*;
use crate::fx::{
    fx_add, fx_add_s, fx_div, fx_div_s, fx_mul, fx_mul_s, fx_sqrt, fx_sqrt_s, fx_sub, fx_sub_s,
    SCALE,
};

verus! {

#[derive(Clone, Copy, Debug, PartialEq, Eq, Structural)]
#[verifier::ext_equal]
pub struct Vec3 {
    pub x: i64,
    pub y: i64,
    pub z: i64,
}

pub open spec fn vadd_s(a: Vec3, b: Vec3) -> Vec3 {
    Vec3 {
        x: fx_add_s(a.x as int, b.x as int) as i64,
        y: fx_add_s(a.y as int, b.y as int) as i64,
        z: fx_add_s(a.z as int, b.z as int) as i64,
    }
}

pub open spec fn vsub_s(a: Vec3, b: Vec3) -> Vec3 {
    Vec3 {
        x: fx_sub_s(a.x as int, b.x as int) as i64,
        y: fx_sub_s(a.y as int, b.y as int) as i64,
        z: fx_sub_s(a.z as int, b.z as int) as i64,
    }
}

/// Component-wise product, used for color attenuation.
pub open spec fn vmul_s(a: Vec3, b: Vec3) -> Vec3 {
    Vec3 {
        x: fx_mul_s(a.x as int, b.x as int) as i64,
        y: fx_mul_s(a.y as int, b.y as int) as i64,
        z: fx_mul_s(a.z as int, b.z as int) as i64,
    }
}

/// The vector scaled by a fixed-point scalar.
pub open spec fn vscale_s(a: Vec3, s: i64) -> Vec3 {
    Vec3 {
        x: fx_mul_s(a.x as int, s as int) as i64,
        y: fx_mul_s(a.y as int, s as int) as i64,
        z: fx_mul_s(a.z as int, s as int) as i64,
    }
}

/// Fixed-point dot product.
pub open spec fn dot_s(a: Vec3, b: Vec3) -> int {
    fx_add_s(
        fx_add_s(fx_mul_s(a.x as int, b.x as int), fx_mul_s(a.y as int, b.y as int)),
        fx_mul_s(a.z as int, b.z as int),
    )
}

pub open spec fn cross_s(a: Vec3, b: Vec3) -> Vec3 {
    Vec3 {
        x: fx_sub_s(fx_mul_s(a.y as int, b.z as int), fx_mul_s(a.z as int, b.y as int)) as i64,
        y: fx_sub_s(fx_mul_s(a.z as int, b.x as int), fx_mul_s(a.x as int, b.z as int)) as i64,
        z: fx_sub_s(fx_mul_s(a.x as int, b.y as int), fx_mul_s(a.y as int, b.x as int)) as i64,
    }
}

/// Fixed-point length of a vector.
pub open spec fn length_s(a: Vec3) -> int {
    fx_sqrt_s(dot_s(a, a))
}

/// The vector scaled to unit length; a vector whose fixed-point length
/// truncates to zero has no usable direction, so the convention here is to
/// fall back to the positive z axis.
pub open spec fn normalize_s(a: Vec3) -> Vec3 {
    let len = length_s(a);
    if len == 0 {
        Vec3 { x: 0, y: 0, z: SCALE }
    } else {
        Vec3 {
            x: fx_div_s(a.x as int, len) as i64,
            y: fx_div_s(a.y as int, len) as i64,
            z: fx_div_s(a.z as int, len) as i64,
        }
    }
}

/// Mirror reflection of direction `d` about normal `n`:
/// `d - 2 * dot(d, n) * n`, computed in fixed point.
pub open spec fn reflect_s(d: Vec3, n: Vec3) -> Vec3 {
    let twice = fx_add_s(dot_s(d, n), dot_s(d, n));
    vsub_s(d, vscale_s(n, twice as i64))
}

pub fn v_add(a: Vec3, b: Vec3) -> (r: Vec3)
    ensures
        r == vadd_s(a, b),
{
    Vec3 { x: fx_add(a.x, b.x), y: fx_add(a.y, b.y), z: fx_add(a.z, b.z) }
}

pub fn v_sub(a: Vec3, b: Vec3) -> (r: Vec3)
    ensures
        r == vsub_s(a, b),
{
    Vec3 { x: fx_sub(a.x, b.x), y: fx_sub(a.y, b.y), z: fx_sub(a.z, b.z) }
}

pub fn v_mul(a: Vec3, b: Vec3) -> (r: Vec3)
    ensures
        r == vmul_s(a, b),
{
    Vec3 { x: fx_mul(a.x, b.x), y: fx_mul(a.y, b.y), z: fx_mul(a.z, b.z) }
}

pub fn v_scale(a: Vec3, s: i64) -> (r: Vec3)
    ensures
        r == vscale_s(a, s),
{
    Vec3 { x: fx_mul(a.x, s), y: fx_mul(a.y, s), z: fx_mul(a.z, s) }
}

pub fn v_dot(a: Vec3, b: Vec3) -> (r: i64)
    ensures
        r as int == dot_s(a, b),
{
    fx_add(fx_add(fx_mul(a.x, b.x), fx_mul(a.y, b.y)), fx_mul(a.z, b.z))
}

pub fn v_cross(a: Vec3, b: Vec3) -> (r: Vec3)
    ensures
        r == cross_s(a, b),
{
    Vec3 {
        x: fx_sub(fx_mul(a.y, b.z), fx_mul(a.z, b.y)),
        y: fx_sub(fx_mul(a.z, b.x), fx_mul(a.x, b.z)),
        z: fx_sub(fx_mul(a.x, b.y), fx_mul(a.y, b.x)),
    }
}

pub fn v_normalize(a: Vec3) -> (r: Vec3)
    ensures
        r == normalize_s(a),
{
    let len = fx_sqrt(v_dot(a, a));
    if len == 0 {
        Vec3 { x: 0, y: 0, z: SCALE }
    } else {
        Vec3 { x: fx_div(a.x, len), y: fx_div(a.y, len), z: fx_div(a.z, len) }
    }
}

pub fn v_reflect(d: Vec3, n: Vec3) -> (r: Vec3)
    ensures
        r == reflect_s(d, n),
{
    let dd = v_dot(d, n);
    v_sub(d, v_scale(n, fx_add(dd, dd)))
}

/// Exact integer dot product: the unrounded model of `dot_s`, at scale
/// `SCALE` squared.
pub open spec fn mdot(a: (int, int, int), b: (int, int, int)) -> int {
    a.0 * b.0 + a.1 * b.1 + a.2 * b.2
}

/// Exact integer mirror reflection, scaled by `mdot(n, n)` so that no
/// division occurs: for a unit normal at fixed-point scale
/// (`mdot(n, n) == SCALE * SCALE`) this is the reflection of `d` magnified
/// by `SCALE` squared.
pub open spec fn mreflect(d: (int, int, int), n: (int, int, int)) -> (int, int, int) {
    (
        d.0 * mdot(n, n) - 2 * mdot(d, n) * n.0,
        d.1 * mdot(n, n) - 2 * mdot(d, n) * n.1,
        d.2 * mdot(n, n) - 2 * mdot(d, n) * n.2,
    )
}

/// Reflection law: the mirrored direction reverses the normal component of
/// the incoming direction — `dot(d_out, n) == -dot(d_in, n)` once the
/// `mdot(n, n)` magnification is divided out. That the outgoing direction
/// lies in the plane spanned by the incoming direction and the normal is the
/// definition of `mreflect` itself: a linear combination of `d` and `n` with
/// coefficients `mdot(n, n)` and `-2 * mdot(d, n)`. The law is stated of the
/// exact integer model; the executable `v_reflect` computes the same formula
/// with fixed-point rounding at each step, which perturbs the identity below
/// the scale's resolution.
pub proof fn lemma_reflection_law(d: (int, int, int), n: (int, int, int))
    ensures
        mdot(mreflect(d, n), n) == -(mdot(d, n) * mdot(n, n)),
{
    let nn = mdot(n, n);
    let dn = mdot(d, n);
    let p0 = d.0 * n.0;
    let p1 = d.1 * n.1;
    let p2 = d.2 * n.2;
    let q0 = n.0 * n.0;
    let q1 = n.1 * n.1;
    let q2 = n.2 * n.2;
    assert((d.0 * nn - 2 * dn * n.0) * n.0 == nn * p0 - 2 * dn * q0) by (nonlinear_arith)
        requires
            p0 == d.0 * n.0,
            q0 == n.0 * n.0,
    ;
    assert((d.1 * nn - 2 * dn * n.1) * n.1 == nn * p1 - 2 * dn * q1) by (nonlinear_arith)
        requires
            p1 == d.1 * n.1,
            q1 == n.1 * n.1,
    ;
    assert((d.2 * nn - 2 * dn * n.2) * n.2 == nn * p2 - 2 * dn * q2) by (nonlinear_arith)
        requires
            p2 == d.2 * n.2,
            q2 == n.2 * n.2,
    ;
    assert(nn * p0 + nn * p1 + nn * p2 == nn * (p0 + p1 + p2)) by (nonlinear_arith);
    assert(2 * dn * q0 + 2 * dn * q1 + 2 * dn * q2 == 2 * dn * (q0 + q1 + q2)) by (nonlinear_arith);
    assert(nn * dn - 2 * (dn * nn) == -(dn * nn)) by (nonlinear_arith);
    assert(nn * (p0 + p1 + p2) == nn * dn);
    assert(2 * dn * (q0 + q1 + q2) == 2 * (dn * nn)) by (nonlinear_arith)
        requires
            nn == q0 + q1 + q2,
    ;
}

} // verus!
