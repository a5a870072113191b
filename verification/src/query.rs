//! Parameter queries over a trace result: small strategy values that read
//! one quantity (a curvature, a radius, an accumulated thickness) off the
//! system a trace was run against.

use vstd::prelude::*;
use crate::fixed::SCALE;
use crate::fixed::s_fx_add;
use crate::fixed::s_fx_sub;
use crate::fixed::s_fx_div;
use crate::fixed::fx_add;
use crate::fixed::fx_sub;
use crate::fixed::fx_div;
use crate::intersection::Intersection;
use crate::surface::GeomError;
use crate::surface::Surface;
use crate::surface::s_z;
use crate::system::System;
use crate::vector::Point2;

verus! {

/// A trace result bundled with the system it was computed for, so queries
/// can address surfaces by index.
#[derive(Clone, Debug)]
pub struct RayTracingResult {
    pub system: System,
    pub intersections: Vec<Intersection>,
}

/// A parameter that can be read off a trace result. Each implementation
/// says for which results it is addressable (`valid`) and what value it
/// denotes (`value`); `query` computes exactly that value.
pub trait QueryParameter {
    type Output;

    /// Whether this query addresses the given trace result.
    spec fn valid(&self, raytrace: RayTracingResult) -> bool;

    /// The value this query denotes on the given trace result.
    spec fn value(&self, raytrace: RayTracingResult) -> Self::Output;

    /// Evaluates the query.
    fn query(&self, raytrace: &RayTracingResult) -> (r: Self::Output)
        requires
            self.valid(*raytrace),
        ensures
            r == self.value(*raytrace),
    ;
}

/// The curvature of the surface at `index`.
pub struct Curvature {
    pub index: usize,
}

/// The radius (reciprocal curvature) of the surface at `index`; `None` on
/// a flat surface, whose radius is not a finite number.
pub struct Radius {
    pub index: usize,
}

/// The accumulated axial thickness from surface `from` (inclusive) to
/// surface `to` (exclusive), each surface's contribution reduced by its
/// sag at `origin`.
pub struct Thickness {
    pub from: usize,
    pub to: usize,
    pub origin: Point2,
}

impl QueryParameter for Curvature {
    type Output = i64;

    open spec fn valid(&self, raytrace: RayTracingResult) -> bool {
        self.index < raytrace.system.surfaces@.len()
    }

    open spec fn value(&self, raytrace: RayTracingResult) -> i64 {
        raytrace.system.surfaces@[self.index as int].curvature
    }

    fn query(&self, raytrace: &RayTracingResult) -> (r: i64) {
        raytrace.system.surfaces[self.index].curvature
    }
}

impl QueryParameter for Radius {
    type Output = Option<i64>;

    open spec fn valid(&self, raytrace: RayTracingResult) -> bool {
        self.index < raytrace.system.surfaces@.len()
    }

    open spec fn value(&self, raytrace: RayTracingResult) -> Option<i64> {
        s_fx_div(SCALE, raytrace.system.surfaces@[self.index as int].curvature)
    }

    fn query(&self, raytrace: &RayTracingResult) -> (r: Option<i64>) {
        fx_div(SCALE, raytrace.system.surfaces[self.index].curvature)
    }
}

/// What the thickness query accumulates, one surface at a time from `from`
/// up to `to`: the running sum gains each surface's thickness and loses
/// its sag at the query origin.
pub open spec fn s_thickness_from(
    surfaces: Seq<Surface>,
    from: int,
    to: int,
    origin: Point2,
    acc: i64,
) -> Result<i64, GeomError>
    decreases to - from,
{
    if from >= to {
        Ok(acc)
    } else {
        match s_fx_add(acc, surfaces[from].thickness) {
            None => Err(GeomError::OutOfRange),
            Some(grown) => match s_z(surfaces[from], origin) {
                Err(e) => Err(e),
                Ok(sag) => match s_fx_sub(grown, sag) {
                    None => Err(GeomError::OutOfRange),
                    Some(next) => s_thickness_from(surfaces, from + 1, to, origin, next),
                },
            },
        }
    }
}

impl QueryParameter for Thickness {
    type Output = Result<i64, GeomError>;

    open spec fn valid(&self, raytrace: RayTracingResult) -> bool {
        self.from <= self.to <= raytrace.system.surfaces@.len()
    }

    open spec fn value(&self, raytrace: RayTracingResult) -> Result<i64, GeomError> {
        s_thickness_from(
            raytrace.system.surfaces@,
            self.from as int,
            self.to as int,
            self.origin,
            0,
        )
    }

    fn query(&self, raytrace: &RayTracingResult) -> (r: Result<i64, GeomError>) {
        let surfaces = &raytrace.system.surfaces;
        let mut acc: i64 = 0;
        let mut i: usize = self.from;
        while i < self.to
            invariant
                self.from <= i <= self.to <= surfaces@.len(),
                surfaces@ == raytrace.system.surfaces@,
                s_thickness_from(
                    surfaces@,
                    self.from as int,
                    self.to as int,
                    self.origin,
                    0,
                ) == s_thickness_from(surfaces@, i as int, self.to as int, self.origin, acc),
            decreases self.to - i,
        {
            let grown = match fx_add(acc, surfaces[i].thickness) {
                Some(v) => v,
                None => return Err(GeomError::OutOfRange),
            };
            let sag = match surfaces[i].z(self.origin) {
                Ok(v) => v,
                Err(e) => return Err(e),
            };
            acc = match fx_sub(grown, sag) {
                Some(v) => v,
                None => return Err(GeomError::OutOfRange),
            };
            i = i + 1;
        }
        Ok(acc)
    }
}

} // verus!
