//! Three-component vectors and two-component points over fixed-point
//! scalars, with the handful of operations the tracer needs: sum,
//! difference, scaling, dot product, linear interpolation and
//! normalization. Every operation reports an out-of-range intermediate as
//! `None` instead of producing a wrapped value.

use vstd::prelude::*;
use crate::fixed::s_fx_add;
use crate::fixed::s_fx_sub;
use crate::fixed::s_fx_mul;
use crate::fixed::s_fx_div;
use crate::fixed::s_fx_sqrt;
use crate::fixed::fx_add;
use crate::fixed::fx_sub;
use crate::fixed::fx_mul;
use crate::fixed::fx_div;
use crate::fixed::fx_sqrt;

verus! {

/// A 3-vector of fixed-point scalars; `z` is the optical axis.
#[derive(Clone, Copy, Debug, PartialEq, Eq, Structural)]
pub struct Vec3 {
    pub x: i64,
    pub y: i64,
    pub z: i64,
}

/// A point in a surface's local transverse plane.
#[derive(Clone, Copy, Debug, PartialEq, Eq, Structural)]
pub struct Point2 {
    pub x: i64,
    pub y: i64,
}

/// What componentwise vector addition returns.
pub open spec fn s_v_add(a: Vec3, b: Vec3) -> Option<Vec3> {
    match (s_fx_add(a.x, b.x), s_fx_add(a.y, b.y), s_fx_add(a.z, b.z)) {
        (Some(x), Some(y), Some(z)) => Some(Vec3 { x, y, z }),
        _ => None,
    }
}

/// What componentwise vector subtraction returns.
pub open spec fn s_v_sub(a: Vec3, b: Vec3) -> Option<Vec3> {
    match (s_fx_sub(a.x, b.x), s_fx_sub(a.y, b.y), s_fx_sub(a.z, b.z)) {
        (Some(x), Some(y), Some(z)) => Some(Vec3 { x, y, z }),
        _ => None,
    }
}

/// What scaling a vector by the fixed-point factor `t` returns.
pub open spec fn s_v_scale(t: i64, v: Vec3) -> Option<Vec3> {
    match (s_fx_mul(t, v.x), s_fx_mul(t, v.y), s_fx_mul(t, v.z)) {
        (Some(x), Some(y), Some(z)) => Some(Vec3 { x, y, z }),
        _ => None,
    }
}

/// What vector negation returns.
pub open spec fn s_v_neg(v: Vec3) -> Option<Vec3> {
    match (s_fx_sub(0, v.x), s_fx_sub(0, v.y), s_fx_sub(0, v.z)) {
        (Some(x), Some(y), Some(z)) => Some(Vec3 { x, y, z }),
        _ => None,
    }
}

/// What the fixed-point dot product returns.
pub open spec fn s_v_dot(a: Vec3, b: Vec3) -> Option<i64> {
    match (s_fx_mul(a.x, b.x), s_fx_mul(a.y, b.y), s_fx_mul(a.z, b.z)) {
        (Some(xx), Some(yy), Some(zz)) => match s_fx_add(xx, yy) {
            Some(s) => s_fx_add(s, zz),
            None => None,
        },
        _ => None,
    }
}

/// What linear interpolation `a + t * (b - a)` returns, one component at a
/// time. When `a == b` the difference is exactly zero, so the result is
/// exactly `a` for every parameter `t`.
pub open spec fn s_lerp1(a: i64, b: i64, t: i64) -> Option<i64> {
    match s_fx_sub(b, a) {
        Some(d) => match s_fx_mul(t, d) {
            Some(m) => s_fx_add(a, m),
            None => None,
        },
        None => None,
    }
}

/// What vector linear interpolation returns.
pub open spec fn s_v_lerp(a: Vec3, b: Vec3, t: i64) -> Option<Vec3> {
    match (s_lerp1(a.x, b.x, t), s_lerp1(a.y, b.y, t), s_lerp1(a.z, b.z, t)) {
        (Some(x), Some(y), Some(z)) => Some(Vec3 { x, y, z }),
        _ => None,
    }
}

/// What normalization returns: each component divided by the fixed-point
/// length, `None` for the zero vector or when an intermediate leaves range.
pub open spec fn s_v_norm(v: Vec3) -> Option<Vec3> {
    match s_v_dot(v, v) {
        Some(n2) => match s_fx_sqrt(n2) {
            Some(len) => if len == 0 {
                None
            } else {
                match (s_fx_div(v.x, len), s_fx_div(v.y, len), s_fx_div(v.z, len)) {
                    (Some(x), Some(y), Some(z)) => Some(Vec3 { x, y, z }),
                    _ => None,
                }
            },
            None => None,
        },
        None => None,
    }
}

/// Componentwise vector addition.
pub fn v_add(a: Vec3, b: Vec3) -> (r: Option<Vec3>)
    ensures
        r == s_v_add(a, b),
{
    let x = match fx_add(a.x, b.x) {
        Some(v) => v,
        None => return None,
    };
    let y = match fx_add(a.y, b.y) {
        Some(v) => v,
        None => return None,
    };
    let z = match fx_add(a.z, b.z) {
        Some(v) => v,
        None => return None,
    };
    Some(Vec3 { x, y, z })
}

/// Componentwise vector subtraction.
pub fn v_sub(a: Vec3, b: Vec3) -> (r: Option<Vec3>)
    ensures
        r == s_v_sub(a, b),
{
    let x = match fx_sub(a.x, b.x) {
        Some(v) => v,
        None => return None,
    };
    let y = match fx_sub(a.y, b.y) {
        Some(v) => v,
        None => return None,
    };
    let z = match fx_sub(a.z, b.z) {
        Some(v) => v,
        None => return None,
    };
    Some(Vec3 { x, y, z })
}

/// Scales a vector by the fixed-point factor `t`.
pub fn v_scale(t: i64, v: Vec3) -> (r: Option<Vec3>)
    ensures
        r == s_v_scale(t, v),
{
    let x = match fx_mul(t, v.x) {
        Some(c) => c,
        None => return None,
    };
    let y = match fx_mul(t, v.y) {
        Some(c) => c,
        None => return None,
    };
    let z = match fx_mul(t, v.z) {
        Some(c) => c,
        None => return None,
    };
    Some(Vec3 { x, y, z })
}

/// Negates a vector.
pub fn v_neg(v: Vec3) -> (r: Option<Vec3>)
    ensures
        r == s_v_neg(v),
{
    let x = match fx_sub(0, v.x) {
        Some(c) => c,
        None => return None,
    };
    let y = match fx_sub(0, v.y) {
        Some(c) => c,
        None => return None,
    };
    let z = match fx_sub(0, v.z) {
        Some(c) => c,
        None => return None,
    };
    Some(Vec3 { x, y, z })
}

/// Fixed-point dot product.
pub fn v_dot(a: Vec3, b: Vec3) -> (r: Option<i64>)
    ensures
        r == s_v_dot(a, b),
{
    let xx = match fx_mul(a.x, b.x) {
        Some(v) => v,
        None => return None,
    };
    let yy = match fx_mul(a.y, b.y) {
        Some(v) => v,
        None => return None,
    };
    let zz = match fx_mul(a.z, b.z) {
        Some(v) => v,
        None => return None,
    };
    let s = match fx_add(xx, yy) {
        Some(v) => v,
        None => return None,
    };
    fx_add(s, zz)
}

/// Linear interpolation of one component.
fn lerp1(a: i64, b: i64, t: i64) -> (r: Option<i64>)
    ensures
        r == s_lerp1(a, b, t),
{
    let d = match fx_sub(b, a) {
        Some(v) => v,
        None => return None,
    };
    let m = match fx_mul(t, d) {
        Some(v) => v,
        None => return None,
    };
    fx_add(a, m)
}

/// Vector linear interpolation `a + t * (b - a)`.
pub fn v_lerp(a: Vec3, b: Vec3, t: i64) -> (r: Option<Vec3>)
    ensures
        r == s_v_lerp(a, b, t),
{
    let x = match lerp1(a.x, b.x, t) {
        Some(v) => v,
        None => return None,
    };
    let y = match lerp1(a.y, b.y, t) {
        Some(v) => v,
        None => return None,
    };
    let z = match lerp1(a.z, b.z, t) {
        Some(v) => v,
        None => return None,
    };
    Some(Vec3 { x, y, z })
}

/// Normalizes a vector to fixed-point unit length.
pub fn v_norm(v: Vec3) -> (r: Option<Vec3>)
    ensures
        r == s_v_norm(v),
{
    let n2 = match v_dot(v, v) {
        Some(n) => n,
        None => return None,
    };
    let len = match fx_sqrt(n2) {
        Some(l) => l,
        None => return None,
    };
    if len == 0 {
        return None;
    }
    let x = match fx_div(v.x, len) {
        Some(c) => c,
        None => return None,
    };
    let y = match fx_div(v.y, len) {
        Some(c) => c,
        None => return None,
    };
    let z = match fx_div(v.z, len) {
        Some(c) => c,
        None => return None,
    };
    Some(Vec3 { x, y, z })
}

/// Interpolating between a boundary direction and itself changes nothing:
/// the difference is exactly zero, so every sample equals the boundary.
pub proof fn lemma_lerp_degenerate(a: Vec3, t: i64)
    ensures
        s_v_lerp(a, a, t) == Some(a),
{
    lemma_lerp1_degenerate(a.x, t);
    lemma_lerp1_degenerate(a.y, t);
    lemma_lerp1_degenerate(a.z, t);
}

proof fn lemma_lerp1_degenerate(a: i64, t: i64)
    ensures
        s_lerp1(a, a, t) == Some(a),
{
    assert(s_fx_sub(a, a) == Some(0i64));
    assert((t as int) * 0 == 0);
    assert(crate::fixed::mul_val(t as int, 0) == 0);
    assert(s_fx_mul(t, 0) == Some(0i64));
    assert(s_fx_add(a, 0) == Some(a));
}

} // verus!
