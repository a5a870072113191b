//! The record a trace produces at each surface: the incoming ray, the
//! surface normal at the hit point, and the ray parameter of the hit.

use vstd::prelude::*;
use crate::ray::Ray;
use crate::vector::Vec3;
use crate::vector::s_v_add;
use crate::vector::s_v_scale;
use crate::vector::v_add;
use crate::vector::v_scale;

verus! {

/// One ray-surface intersection. The hit point is
/// `ray.origin + t * ray.direction`; `normal` is the unit surface normal
/// there, oriented against the incoming ray.
#[derive(Clone, Copy, Debug, PartialEq, Eq, Structural)]
pub struct Intersection {
    pub ray: Ray,
    pub normal: Vec3,
    pub t: i64,
}

/// What `Intersection::point` returns.
pub open spec fn s_point(i: Intersection) -> Option<Vec3> {
    match s_v_scale(i.t, i.ray.direction) {
        Some(step) => s_v_add(i.ray.origin, step),
        None => None,
    }
}

impl Intersection {
    /// The hit point on the surface, or `None` if the fixed-point step
    /// leaves the representable range.
    pub fn point(&self) -> (r: Option<Vec3>)
        ensures
            r == s_point(*self),
    {
        let step = match v_scale(self.t, self.ray.direction) {
            Some(v) => v,
            None => return None,
        };
        v_add(self.ray.origin, step)
    }
}

} // verus!
