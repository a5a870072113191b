//! The fan evaluator: sample a one-parameter family of rays whose
//! directions interpolate linearly between two boundaries, trace each one,
//! and report the signed transverse height where it meets the last surface.
//! Each sample carries its own success-or-error slot, so one clipped ray
//! does not invalidate the rest of the fan.

use vstd::prelude::*;
use crate::fixed::SCALE;
use crate::fixed::s_fx_div;
use crate::fixed::fx_div;
use crate::fixed::iabs;
use crate::intersection::s_point;
use crate::ray::Ray;
use crate::raytracing::TraceError;
use crate::raytracing::s_trace_ray;
use crate::system::System;
use crate::vector::Vec3;
use crate::vector::s_v_lerp;
use crate::vector::s_v_norm;
use crate::vector::v_lerp;
use crate::vector::v_norm;
use crate::vector::lemma_lerp_degenerate;

verus! {

/// A fan request: trace `resolution` rays from `origin` whose directions
/// interpolate from `dir_a` to `dir_b`.
#[derive(Clone, Copy, Debug, PartialEq, Eq, Structural)]
pub struct Query {
    pub origin: Vec3,
    pub dir_a: Vec3,
    pub dir_b: Vec3,
    pub resolution: u32,
}

/// A fan response: one height (or per-ray failure) per sample, index-aligned
/// with the interpolation parameter `i / (resolution - 1)`.
#[derive(Clone, Debug)]
pub struct Response {
    pub heights: Vec<Result<i64, TraceError>>,
}

/// The interpolation parameter of sample `i`: `i / (resolution - 1)` in
/// fixed point.
pub open spec fn s_fan_t(resolution: u32, i: u32) -> Option<i64> {
    s_fx_div(
        ((i as int) * (SCALE as int)) as i64,
        (((resolution as int) - 1) * (SCALE as int)) as i64,
    )
}

/// The direction of sample `i`: the normalized interpolation between the
/// two boundary directions.
pub open spec fn s_fan_dir(dir_a: Vec3, dir_b: Vec3, resolution: u32, i: u32) -> Option<Vec3> {
    match s_fan_t(resolution, i) {
        None => None,
        Some(t) => match s_v_lerp(dir_a, dir_b, t) {
            None => None,
            Some(v) => s_v_norm(v),
        },
    }
}

/// The signed transverse height (the local `y` coordinate) where a traced
/// ray meets the last surface; the trace's own error when it fails, and an
/// out-of-range report when the system has no surface to measure at.
pub open spec fn s_height(sys: System, ray: Ray) -> Result<i64, TraceError> {
    match s_trace_ray(sys, ray) {
        Err(e) => Err(e),
        Ok(s) => if s.len() == 0 {
            Err(TraceError::OutOfRange)
        } else {
            match s_point(s.last()) {
                None => Err(TraceError::OutOfRange),
                Some(p) => Ok(p.y),
            }
        },
    }
}

/// What sample `i` of a fan evaluates to.
pub open spec fn s_fan_sample(
    sys: System,
    origin: Vec3,
    dir_a: Vec3,
    dir_b: Vec3,
    resolution: u32,
    i: u32,
) -> Result<i64, TraceError> {
    match s_fan_dir(dir_a, dir_b, resolution, i) {
        None => Err(TraceError::OutOfRange),
        Some(d) => s_height(sys, Ray { origin, direction: d }),
    }
}

/// With at least two samples the interpolation parameter is always
/// representable: the divisor is at least one whole unit, so the quotient
/// never exceeds the numerator.
pub proof fn lemma_fan_t_some(resolution: u32, i: u32)
    requires
        resolution >= 2,
    ensures
        s_fan_t(resolution, i) is Some,
{
    let num = (i as int) * (SCALE as int);
    let den = ((resolution as int) - 1) * (SCALE as int);
    vstd::arithmetic::mul::lemma_mul_nonnegative(i as int, SCALE as int);
    vstd::arithmetic::mul::lemma_mul_inequality(1, (resolution as int) - 1, SCALE as int);
    crate::fixed::lemma_iabs_mul(num, SCALE as int);
    vstd::arithmetic::mul::lemma_mul_nonnegative(num, SCALE as int);
    assert(iabs(num * (SCALE as int)) == num * (SCALE as int));
    vstd::arithmetic::div_mod::lemma_div_is_ordered_by_denominator(
        num * (SCALE as int),
        SCALE as int,
        den,
    );
    vstd::arithmetic::div_mod::lemma_div_multiples_vanish(num, SCALE as int);
    vstd::arithmetic::div_mod::lemma_div_pos_is_pos(num * (SCALE as int), den);
    assert(crate::fixed::div_val(num, den) <= num);
}

/// A degenerate fan, both boundary directions equal, yields one repeated
/// sample: every height slot equals every other, so no crossing can be
/// detected anywhere in the fan.
pub proof fn lemma_fan_degenerate(
    sys: System,
    origin: Vec3,
    d: Vec3,
    resolution: u32,
    i: u32,
    j: u32,
)
    requires
        resolution >= 2,
    ensures
        s_fan_sample(sys, origin, d, d, resolution, i) == s_fan_sample(
            sys,
            origin,
            d,
            d,
            resolution,
            j,
        ),
{
    lemma_fan_t_some(resolution, i);
    lemma_fan_t_some(resolution, j);
    let ti = s_fan_t(resolution, i)->Some_0;
    let tj = s_fan_t(resolution, j)->Some_0;
    lemma_lerp_degenerate(d, ti);
    lemma_lerp_degenerate(d, tj);
}

/// The direction of sample `i` of a fan between `dir_a` and `dir_b`:
/// normalized interpolation at parameter `i / (resolution - 1)`. `None`
/// when the interpolated vector cannot be normalized or leaves range.
pub fn fan_direction(dir_a: Vec3, dir_b: Vec3, resolution: u32, i: u32) -> (r: Option<Vec3>)
    requires
        resolution >= 2,
    ensures
        r == s_fan_dir(dir_a, dir_b, resolution, i),
{
    let num: i64 = (i as i64) * SCALE;
    let den: i64 = ((resolution - 1) as i64) * SCALE;
    let t = match fx_div(num, den) {
        Some(v) => v,
        None => return None,
    };
    let v = match v_lerp(dir_a, dir_b, t) {
        Some(v) => v,
        None => return None,
    };
    v_norm(v)
}

impl System {
    /// The signed height at the final surface of one traced ray.
    pub fn trace_height(&self, ray: &Ray) -> (r: Result<i64, TraceError>)
        ensures
            r == s_height(*self, *ray),
    {
        let isecs = match self.trace_ray(ray) {
            Ok(v) => v,
            Err(e) => return Err(e),
        };
        if isecs.len() == 0 {
            return Err(TraceError::OutOfRange);
        }
        let last = isecs[isecs.len() - 1];
        match last.point() {
            Some(p) => Ok(p.y),
            None => Err(TraceError::OutOfRange),
        }
    }

    /// Evaluates a fan: `resolution` samples, sample `i` obtained by
    /// tracing the ray whose direction is the normalized interpolation at
    /// parameter `i / (resolution - 1)`. A pure batch map: no aggregation,
    /// one independent result slot per sample.
    pub fn fan(&self, query: &Query) -> (r: Response)
        requires
            query.resolution >= 2,
        ensures
            r.heights@.len() == query.resolution as int,
            forall|i: int|
                0 <= i < query.resolution as int ==> #[trigger] r.heights@[i] == s_fan_sample(
                    *self,
                    query.origin,
                    query.dir_a,
                    query.dir_b,
                    query.resolution,
                    i as u32,
                ),
    {
        let mut heights: Vec<Result<i64, TraceError>> = Vec::new();
        let mut i: u32 = 0;
        while i < query.resolution
            invariant
                query.resolution >= 2,
                i <= query.resolution,
                heights@.len() == i as int,
                forall|k: int|
                    0 <= k < i as int ==> #[trigger] heights@[k] == s_fan_sample(
                        *self,
                        query.origin,
                        query.dir_a,
                        query.dir_b,
                        query.resolution,
                        k as u32,
                    ),
            decreases query.resolution - i,
        {
            let sample = match fan_direction(query.dir_a, query.dir_b, query.resolution, i) {
                None => Err(TraceError::OutOfRange),
                Some(d) => self.trace_height(&Ray { origin: query.origin, direction: d }),
            };
            heights.push(sample);
            i = i + 1;
        }
        Response { heights }
    }
}

} // verus!
