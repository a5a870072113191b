//! A single refractive surface and its geometric primitives: the sag `z` at
//! an off-axis point and the sagitta at the aperture edge.

use vstd::prelude::*;
use crate::fixed::SCALE;
use crate::fixed::s_fx_add;
use crate::fixed::s_fx_sub;
use crate::fixed::s_fx_mul;
use crate::fixed::s_fx_div;
use crate::fixed::s_fx_sqrt;
use crate::fixed::fx_add;
use crate::fixed::fx_sub;
use crate::fixed::fx_mul;
use crate::fixed::fx_div;
use crate::fixed::fx_sqrt;
use crate::vector::Point2;

verus! {

/// Failure of a surface height query.
#[derive(Clone, Copy, Debug, PartialEq, Eq, Structural)]
pub enum GeomError {
    /// The queried point lies outside the sphere the surface belongs to, so
    /// the sag is not a real number there.
    OutsideAperture,
    /// A fixed-point intermediate left the representable range.
    OutOfRange,
}

/// One refractive surface. `curvature` is the reciprocal of the radius
/// (zero means flat), `thickness` the axial distance to the next surface,
/// `refractive_index` the index of the medium *after* this surface, and
/// `semi_diameter` the clear-aperture half-height.
#[derive(Clone, Copy, Debug, PartialEq, Eq, Structural)]
pub struct Surface {
    pub thickness: i64,
    pub refractive_index: i64,
    pub curvature: i64,
    pub semi_diameter: i64,
}

impl Default for Surface {
    /// A zero-thickness flat surface in a medium of index one.
    fn default() -> (r: Self)
        ensures
            r.thickness == 0,
            r.refractive_index == SCALE,
            r.curvature == 0,
            r.semi_diameter == 0,
    {
        Surface { thickness: 0, refractive_index: SCALE, curvature: 0, semi_diameter: 0 }
    }
}

/// The sag of a surface of reciprocal radius `r` at squared transverse
/// distance `h2`: `r - sign(r) * sqrt(r^2 - h2)`, truncating fixed-point
/// arithmetic throughout.
pub open spec fn s_sag_of(r: i64, h2: i64) -> Result<i64, GeomError> {
    match s_fx_mul(r, r) {
        Some(r2) => match s_fx_sub(r2, h2) {
            Some(arg) => if arg < 0 {
                Err(GeomError::OutsideAperture)
            } else {
                match s_fx_sqrt(arg) {
                    Some(s) => match if r >= 0 {
                        s_fx_sub(r, s)
                    } else {
                        s_fx_add(r, s)
                    } {
                        Some(v) => Ok(v),
                        None => Err(GeomError::OutOfRange),
                    },
                    None => Err(GeomError::OutOfRange),
                }
            },
            None => Err(GeomError::OutOfRange),
        },
        None => Err(GeomError::OutOfRange),
    }
}

/// What `Surface::z` returns: zero on a flat surface, otherwise the sag at
/// the point's squared distance from the axis.
pub open spec fn s_z(surface: Surface, point: Point2) -> Result<i64, GeomError> {
    if surface.curvature == 0 {
        Ok(0)
    } else {
        match s_fx_div(SCALE, surface.curvature) {
            Some(r) => match (s_fx_mul(point.x, point.x), s_fx_mul(point.y, point.y)) {
                (Some(x2), Some(y2)) => match s_fx_add(x2, y2) {
                    Some(h2) => s_sag_of(r, h2),
                    None => Err(GeomError::OutOfRange),
                },
                _ => Err(GeomError::OutOfRange),
            },
            None => Err(GeomError::OutOfRange),
        }
    }
}

/// What `Surface::sagitta` returns: the sag at the aperture edge.
pub open spec fn s_sagitta(surface: Surface) -> Result<i64, GeomError> {
    if surface.curvature == 0 {
        Ok(0)
    } else {
        match s_fx_div(SCALE, surface.curvature) {
            Some(r) => match s_fx_mul(surface.semi_diameter, surface.semi_diameter) {
                Some(d2) => s_sag_of(r, d2),
                None => Err(GeomError::OutOfRange),
            },
            None => Err(GeomError::OutOfRange),
        }
    }
}

impl Surface {
    /// The axial coordinate of the surface at the given transverse point,
    /// relative to its own vertex. A flat surface has sag zero everywhere; a
    /// point beyond the surface's sphere is a domain error, never a silently
    /// propagated non-value.
    pub fn z(&self, point: Point2) -> (r: Result<i64, GeomError>)
        ensures
            r == s_z(*self, point),
            self.curvature == 0 ==> r == Ok::<i64, GeomError>(0),
    {
        if self.curvature == 0 {
            return Ok(0);
        }
        let radius = match fx_div(SCALE, self.curvature) {
            Some(v) => v,
            None => return Err(GeomError::OutOfRange),
        };
        let x2 = match fx_mul(point.x, point.x) {
            Some(v) => v,
            None => return Err(GeomError::OutOfRange),
        };
        let y2 = match fx_mul(point.y, point.y) {
            Some(v) => v,
            None => return Err(GeomError::OutOfRange),
        };
        let h2 = match fx_add(x2, y2) {
            Some(v) => v,
            None => return Err(GeomError::OutOfRange),
        };
        sag_of(radius, h2)
    }

    /// The sag at the aperture edge: `sign(r) * (|r| - sqrt(r^2 - s^2))`,
    /// zero on a flat surface.
    pub fn sagitta(&self) -> (r: Result<i64, GeomError>)
        ensures
            r == s_sagitta(*self),
            self.curvature == 0 ==> r == Ok::<i64, GeomError>(0),
    {
        if self.curvature == 0 {
            return Ok(0);
        }
        let radius = match fx_div(SCALE, self.curvature) {
            Some(v) => v,
            None => return Err(GeomError::OutOfRange),
        };
        let d2 = match fx_mul(self.semi_diameter, self.semi_diameter) {
            Some(v) => v,
            None => return Err(GeomError::OutOfRange),
        };
        sag_of(radius, d2)
    }
}

/// Shared sag kernel of `z` and `sagitta`.
fn sag_of(r: i64, h2: i64) -> (res: Result<i64, GeomError>)
    ensures
        res == s_sag_of(r, h2),
{
    let r2 = match fx_mul(r, r) {
        Some(v) => v,
        None => return Err(GeomError::OutOfRange),
    };
    let arg = match fx_sub(r2, h2) {
        Some(v) => v,
        None => return Err(GeomError::OutOfRange),
    };
    if arg < 0 {
        return Err(GeomError::OutsideAperture);
    }
    let s = match fx_sqrt(arg) {
        Some(v) => v,
        None => return Err(GeomError::OutOfRange),
    };
    let v = if r >= 0 {
        fx_sub(r, s)
    } else {
        fx_add(r, s)
    };
    match v {
        Some(v) => Ok(v),
        None => Err(GeomError::OutOfRange),
    }
}

/// The two sag formulas agree at the aperture edge: querying `z` at either
/// edge point `(0, semi_diameter)` or `(0, -semi_diameter)` gives exactly
/// the sagitta, outcome for outcome.
pub proof fn lemma_edge_sag_consistency(surface: Surface, point: Point2)
    requires
        point.x == 0,
        point.y == surface.semi_diameter || point.y as int == -(surface.semi_diameter as int),
    ensures
        s_z(surface, point) == s_sagitta(surface),
{
    if surface.curvature != 0 {
        assert(s_fx_mul(0, 0) == Some(0i64)) by {
            assert(crate::fixed::mul_val(0, 0) == 0);
        }
        vstd::arithmetic::mul::lemma_mul_cancels_negatives(
            point.y as int,
            point.y as int,
        );
        assert((point.y as int) * (point.y as int) == (surface.semi_diameter as int) * (
        surface.semi_diameter as int));
        assert(s_fx_mul(point.y, point.y) == s_fx_mul(
            surface.semi_diameter,
            surface.semi_diameter,
        ));
        match s_fx_mul(surface.semi_diameter, surface.semi_diameter) {
            Some(d2) => {
                assert(s_fx_add(0, d2) == Some(d2));
            },
            None => {},
        }
    }
}

} // verus!
