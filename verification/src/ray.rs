//! Rays: an origin and a direction.

use vstd::prelude::*;
use crate::vector::Vec3;

verus! {

/// A ray of light. The direction should be unit length in fixed-point
/// terms; callers are responsible for normalization, the tracer does not
/// re-normalize.
#[derive(Clone, Copy, Debug, PartialEq, Eq, Structural)]
pub struct Ray {
    pub origin: Vec3,
    pub direction: Vec3,
}

impl Ray {
    /// Builds a ray from an origin point and a direction.
    pub fn new(origin: Vec3, direction: Vec3) -> (r: Self)
        ensures
            r.origin == origin,
            r.direction == direction,
    {
        Ray { origin, direction }
    }
}

} // verus!
