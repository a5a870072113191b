//! The optical system: an object plane, an ordered stack of surfaces, and a
//! designated stop surface.

use vstd::prelude::*;
use crate::fixed::s_fx_sub;
use crate::fixed::fx_sub;
use crate::object::Object;
use crate::surface::Surface;
use crate::surface::s_sagitta;
use crate::vector::Vec3;

verus! {

/// A sequential optical system. Surfaces are stored in axial traversal
/// order: surface `i` sits at the cumulative sum of the thicknesses of
/// surfaces `0..i`. `stop_index` designates the aperture stop.
#[derive(Clone, Debug, Default)]
pub struct System {
    pub object: Object,
    pub stop_index: u32,
    pub surfaces: Vec<Surface>,
}

/// Well-formedness of a system, as the data model requires: nonnegative
/// distances and apertures, positive refractive indices, and a stop index
/// that designates one of the surfaces.
pub open spec fn s_system_wf(sys: System) -> bool {
    &&& sys.object.distance >= 0
    &&& sys.object.semi_diameter >= 0
    &&& sys.object.refractive_index > 0
    &&& sys.stop_index < sys.surfaces@.len()
    &&& forall|i: int|
        0 <= i < sys.surfaces@.len() ==> {
            &&& (#[trigger] sys.surfaces@[i]).thickness >= 0
            &&& sys.surfaces@[i].refractive_index > 0
            &&& sys.surfaces@[i].semi_diameter >= 0
        }
}

/// What `System::surface_edges` returns: the two aperture-edge points of
/// the indexed surface, at `(0, +/- semi_diameter, sagitta)` in the
/// surface's own frame, or `None` when the index is out of range or the
/// edge is not representable.
pub open spec fn s_surface_edges(sys: System, index: int) -> Option<(Vec3, Vec3)> {
    if !(0 <= index < sys.surfaces@.len()) {
        None
    } else {
        let surface = sys.surfaces@[index];
        match s_sagitta(surface) {
            Ok(sag) => match s_fx_sub(0, surface.semi_diameter) {
                Some(neg_sd) => Some(
                    (
                        Vec3 { x: 0i64, y: surface.semi_diameter, z: sag },
                        Vec3 { x: 0i64, y: neg_sd, z: sag },
                    ),
                ),
                None => None,
            },
            Err(_) => None,
        }
    }
}

impl System {
    /// Checks the data-model invariant: nonnegative object distance and
    /// apertures, positive refractive indices everywhere, and a stop index
    /// that designates one of the surfaces. The tracer itself is total and
    /// reports rather than assumes; this is what example systems satisfy
    /// and what callers should validate their inputs against.
    pub fn is_well_formed(&self) -> (r: bool)
        ensures
            r == s_system_wf(*self),
    {
        if !(self.object.distance >= 0 && self.object.semi_diameter >= 0
            && self.object.refractive_index > 0) {
            return false;
        }
        if !((self.stop_index as usize) < self.surfaces.len()) {
            return false;
        }
        let mut i: usize = 0;
        while i < self.surfaces.len()
            invariant
                i <= self.surfaces@.len(),
                (self.stop_index as int) < self.surfaces@.len(),
                self.object.distance >= 0,
                self.object.semi_diameter >= 0,
                self.object.refractive_index > 0,
                forall|j: int|
                    0 <= j < i as int ==> {
                        &&& (#[trigger] self.surfaces@[j]).thickness >= 0
                        &&& self.surfaces@[j].refractive_index > 0
                        &&& self.surfaces@[j].semi_diameter >= 0
                    },
            decreases self.surfaces@.len() - i,
        {
            let surface = self.surfaces[i];
            if !(surface.thickness >= 0 && surface.refractive_index > 0
                && surface.semi_diameter >= 0) {
                return false;
            }
            i = i + 1;
        }
        true
    }

    /// The entry limits of the surface at `index`: its top and bottom
    /// aperture-edge points in the surface's own frame (the caller applies
    /// the cumulative thickness offset for a global position). `None` when
    /// the index is out of range or the sagitta is not computable.
    pub fn surface_edges(&self, index: usize) -> (r: Option<(Vec3, Vec3)>)
        ensures
            r == s_surface_edges(*self, index as int),
            index >= self.surfaces@.len() ==> r is None,
    {
        if index >= self.surfaces.len() {
            return None;
        }
        let surface = self.surfaces[index];
        let sag = match surface.sagitta() {
            Ok(v) => v,
            Err(_) => return None,
        };
        let neg_sd = match fx_sub(0, surface.semi_diameter) {
            Some(v) => v,
            None => return None,
        };
        Some(
            (
                Vec3 { x: 0, y: surface.semi_diameter, z: sag },
                Vec3 { x: 0, y: neg_sd, z: sag },
            ),
        )
    }
}

} // verus!
