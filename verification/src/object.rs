//! The object plane: the source of every traced ray.

use vstd::prelude::*;
use crate::vector::Vec3;

verus! {

/// The source plane, `distance` units before the first surface.
/// `refractive_index` is the index of the medium between the object and the
/// first surface. All fields are nonnegative in a well-formed system.
#[derive(Clone, Copy, Debug, PartialEq, Eq, Structural, Default)]
pub struct Object {
    pub distance: i64,
    pub semi_diameter: i64,
    pub refractive_index: i64,
}

impl Object {
    /// The top edge of the object: the off-axis point rays fan out from.
    pub fn top(&self) -> (r: Vec3)
        requires
            self.distance >= 0,
        ensures
            r == (Vec3 { x: 0i64, y: self.semi_diameter, z: (-(self.distance as int)) as i64 }),
    {
        Vec3 { x: 0, y: self.semi_diameter, z: -self.distance }
    }
}

} // verus!
