//! The sequential tracer: intersect each ray with each surface in index
//! order, clip at the clear aperture, and bend the ray by the vector form
//! of Snell's law at every boundary.
//!
//! The executable tracer is specified exactly: every function returns
//! precisely what the fixed-point model functions (`s_hit`, `s_refract`,
//! `s_trace_ray`, ...) compute, including which error it reports and when.

use vstd::prelude::*;
use crate::fixed::SCALE;
use crate::fixed::s_fx_add;
use crate::fixed::s_fx_sub;
use crate::fixed::s_fx_mul;
use crate::fixed::s_fx_div;
use crate::fixed::s_fx_sqrt;
use crate::fixed::fx_add;
use crate::fixed::fx_sub;
use crate::fixed::fx_mul;
use crate::fixed::fx_div;
use crate::fixed::fx_sqrt;
use crate::intersection::Intersection;
use crate::ray::Ray;
use crate::surface::Surface;
use crate::system::System;
use crate::vector::Vec3;
use crate::vector::s_v_add;
use crate::vector::s_v_sub;
use crate::vector::s_v_scale;
use crate::vector::s_v_neg;
use crate::vector::s_v_dot;
use crate::vector::s_v_norm;
use crate::vector::v_add;
use crate::vector::v_sub;
use crate::vector::v_scale;
use crate::vector::v_neg;
use crate::vector::v_dot;
use crate::vector::v_norm;

verus! {

/// Failure of one ray's trace, and at which surface.
#[derive(Clone, Copy, Debug, PartialEq, Eq, Structural)]
pub enum TraceError {
    /// The ray never meets the surface, meets it behind its origin, or
    /// meets it outside the clear aperture: no physically meaningful hit.
    ApertureMiss { surface: usize },
    /// Snell's law has no solution: the refraction discriminant is
    /// negative, the ray would be totally internally reflected.
    TotalInternalReflection { surface: usize },
    /// A fixed-point intermediate left the representable range.
    OutOfRange,
}

/// A batch trace request: one system, many rays.
#[derive(Clone, Debug)]
pub struct Query {
    pub rays: Vec<Ray>,
}

/// A batch trace response: one intersection per (ray, surface) pair,
/// ray-major then surface-minor.
#[derive(Clone, Debug, Default)]
pub struct Response {
    pub intersections: Vec<Intersection>,
}

/// A whole-batch failure: the first failing ray and its error.
#[derive(Clone, Copy, Debug, PartialEq, Eq, Structural)]
pub struct BatchError {
    pub ray: usize,
    pub error: TraceError,
}

/// The hit point `ray.origin + t * ray.direction`.
pub open spec fn s_ray_at(ray: Ray, t: i64) -> Option<Vec3> {
    match s_v_scale(t, ray.direction) {
        Some(step) => s_v_add(ray.origin, step),
        None => None,
    }
}

/// Clips a candidate hit at parameter `t` against the clear aperture:
/// the hit stands only if its squared transverse distance is at most the
/// squared semi-diameter (a ray aimed exactly at the edge still hits).
pub open spec fn s_clip(surface: Surface, ray: Ray, t: i64, index: usize) -> Result<
    (i64, Vec3),
    TraceError,
> {
    match s_ray_at(ray, t) {
        None => Err(TraceError::OutOfRange),
        Some(p) => match (s_fx_mul(p.x, p.x), s_fx_mul(p.y, p.y)) {
            (Some(x2), Some(y2)) => match s_fx_add(x2, y2) {
                None => Err(TraceError::OutOfRange),
                Some(h2) => match s_fx_mul(surface.semi_diameter, surface.semi_diameter) {
                    None => Err(TraceError::OutOfRange),
                    Some(s2) => if h2 > s2 {
                        Err(TraceError::ApertureMiss { surface: index })
                    } else {
                        Ok((t, p))
                    },
                },
            },
            _ => Err(TraceError::OutOfRange),
        },
    }
}

/// Intersection of a ray with a flat surface whose vertex plane sits at
/// axial offset `z_off`: solve `origin.z + t * direction.z == z_off`.
pub open spec fn s_hit_flat(surface: Surface, z_off: i64, ray: Ray, index: usize) -> Result<
    (i64, Vec3),
    TraceError,
> {
    if ray.direction.z == 0 {
        Err(TraceError::ApertureMiss { surface: index })
    } else {
        match s_fx_sub(z_off, ray.origin.z) {
            None => Err(TraceError::OutOfRange),
            Some(num) => match s_fx_div(num, ray.direction.z) {
                None => Err(TraceError::OutOfRange),
                Some(t) => if t < 0 {
                    Err(TraceError::ApertureMiss { surface: index })
                } else {
                    s_clip(surface, ray, t, index)
                },
            },
        }
    }
}

/// Intersection of a ray with a spherical surface of reciprocal radius
/// `curvature`, vertex at axial offset `z_off`, center on the axis one
/// radius past the vertex: solve the quadratic
/// `(d.d) t^2 + 2 (l.d) t + (l.l - r^2) == 0` for `l = origin - center`
/// and keep the root on the vertex side of the sphere.
pub open spec fn s_hit_sphere(surface: Surface, z_off: i64, ray: Ray, index: usize) -> Result<
    (i64, Vec3),
    TraceError,
> {
    match s_fx_div(SCALE, surface.curvature) {
        None => Err(TraceError::OutOfRange),
        Some(r) => match s_fx_add(z_off, r) {
            None => Err(TraceError::OutOfRange),
            Some(cz) => match s_v_sub(ray.origin, Vec3 { x: 0i64, y: 0i64, z: cz }) {
                None => Err(TraceError::OutOfRange),
                Some(l) => match (
                    s_v_dot(ray.direction, ray.direction),
                    s_v_dot(l, ray.direction),
                    s_v_dot(l, l),
                ) {
                    (Some(qa), Some(qb), Some(ll)) => match s_fx_mul(r, r) {
                        None => Err(TraceError::OutOfRange),
                        Some(r2) => match s_fx_sub(ll, r2) {
                            None => Err(TraceError::OutOfRange),
                            Some(qc) => match (s_fx_mul(qb, qb), s_fx_mul(qa, qc)) {
                                (Some(b2), Some(ac)) => match s_fx_sub(b2, ac) {
                                    None => Err(TraceError::OutOfRange),
                                    Some(disc) => if disc < 0 {
                                        Err(TraceError::ApertureMiss { surface: index })
                                    } else {
                                        s_hit_sphere_root(surface, ray, qa, qb, disc, index)
                                    },
                                },
                                _ => Err(TraceError::OutOfRange),
                            },
                        },
                    },
                    _ => Err(TraceError::OutOfRange),
                },
            },
        },
    }
}

/// Picks the quadratic root on the vertex side: the nearer root when the
/// center lies past the vertex (positive curvature), the farther one when
/// it lies before it, then clips at the aperture.
pub open spec fn s_hit_sphere_root(
    surface: Surface,
    ray: Ray,
    qa: i64,
    qb: i64,
    disc: i64,
    index: usize,
) -> Result<(i64, Vec3), TraceError> {
    match s_fx_sqrt(disc) {
        None => Err(TraceError::OutOfRange),
        Some(sq) => match s_fx_sub(0, qb) {
            None => Err(TraceError::OutOfRange),
            Some(nb) => match (if surface.curvature > 0 {
                s_fx_sub(nb, sq)
            } else {
                s_fx_add(nb, sq)
            }) {
                None => Err(TraceError::OutOfRange),
                Some(tn) => match s_fx_div(tn, qa) {
                    None => Err(TraceError::OutOfRange),
                    Some(t) => if t < 0 {
                        Err(TraceError::ApertureMiss { surface: index })
                    } else {
                        s_clip(surface, ray, t, index)
                    },
                },
            },
        },
    }
}

/// Where a ray first meets the surface, with the hit point, or why not.
pub open spec fn s_hit(surface: Surface, z_off: i64, ray: Ray, index: usize) -> Result<
    (i64, Vec3),
    TraceError,
> {
    if surface.curvature == 0 {
        s_hit_flat(surface, z_off, ray, index)
    } else {
        s_hit_sphere(surface, z_off, ray, index)
    }
}

/// The unit surface normal at the hit point, oriented against the incoming
/// direction (their dot product is never positive).
pub open spec fn s_normal(surface: Surface, z_off: i64, point: Vec3, dir: Vec3) -> Result<
    Vec3,
    TraceError,
> {
    if surface.curvature == 0 {
        if dir.z > 0 {
            Ok(Vec3 { x: 0i64, y: 0i64, z: (-(SCALE as int)) as i64 })
        } else {
            Ok(Vec3 { x: 0i64, y: 0i64, z: SCALE })
        }
    } else {
        match s_fx_div(SCALE, surface.curvature) {
            None => Err(TraceError::OutOfRange),
            Some(r) => match s_fx_add(z_off, r) {
                None => Err(TraceError::OutOfRange),
                Some(cz) => match s_v_sub(point, Vec3 { x: 0i64, y: 0i64, z: cz }) {
                    None => Err(TraceError::OutOfRange),
                    Some(m) => match s_v_norm(m) {
                        None => Err(TraceError::OutOfRange),
                        Some(u) => match s_v_dot(u, dir) {
                            None => Err(TraceError::OutOfRange),
                            Some(ud) => if ud > 0 {
                                match s_v_neg(u) {
                                    None => Err(TraceError::OutOfRange),
                                    Some(n) => Ok(n),
                                }
                            } else {
                                Ok(u)
                            },
                        },
                    },
                },
            },
        }
    }
}

/// Vector-form Snell's law: for index ratio `mu = n_in / n_out`, cosine
/// `ci = -(n . d)`, the refracted direction is
/// `mu * d + (mu * ci - sqrt(1 - mu^2 (1 - ci^2))) * n`. A ratio of exactly
/// one bends nothing: the direction passes through unchanged. A negative
/// discriminant is total internal reflection.
pub open spec fn s_refract(d: Vec3, n: Vec3, n_in: i64, n_out: i64, index: usize) -> Result<
    Vec3,
    TraceError,
> {
    match s_fx_div(n_in, n_out) {
        None => Err(TraceError::OutOfRange),
        Some(mu) => if mu == SCALE {
            Ok(d)
        } else {
            match s_v_dot(n, d) {
                None => Err(TraceError::OutOfRange),
                Some(nd) => match s_fx_sub(0, nd) {
                    None => Err(TraceError::OutOfRange),
                    Some(ci) => match (s_fx_mul(ci, ci), s_fx_mul(mu, mu)) {
                        (Some(c2), Some(mu2)) => match s_fx_sub(SCALE, c2) {
                            None => Err(TraceError::OutOfRange),
                            Some(onemc) => match s_fx_mul(mu2, onemc) {
                                None => Err(TraceError::OutOfRange),
                                Some(k) => match s_fx_sub(SCALE, k) {
                                    None => Err(TraceError::OutOfRange),
                                    Some(disc) => if disc < 0 {
                                        Err(TraceError::TotalInternalReflection { surface: index })
                                    } else {
                                        s_refract_bend(d, n, mu, ci, disc)
                                    },
                                },
                            },
                        },
                        _ => Err(TraceError::OutOfRange),
                    },
                },
            }
        },
    }
}

/// The bent direction once the refraction discriminant is known
/// nonnegative.
pub open spec fn s_refract_bend(d: Vec3, n: Vec3, mu: i64, ci: i64, disc: i64) -> Result<
    Vec3,
    TraceError,
> {
    match s_fx_sqrt(disc) {
        None => Err(TraceError::OutOfRange),
        Some(sq) => match s_fx_mul(mu, ci) {
            None => Err(TraceError::OutOfRange),
            Some(mc) => match s_fx_sub(mc, sq) {
                None => Err(TraceError::OutOfRange),
                Some(coef) => match (s_v_scale(mu, d), s_v_scale(coef, n)) {
                    (Some(a), Some(b)) => match s_v_add(a, b) {
                        None => Err(TraceError::OutOfRange),
                        Some(v) => Ok(v),
                    },
                    _ => Err(TraceError::OutOfRange),
                },
            },
        },
    }
}

/// One full surface step: hit, normal, intersection record, refraction.
/// Yields the record for this surface and the outgoing ray that feeds the
/// next one.
pub open spec fn s_step(surface: Surface, z_off: i64, ray: Ray, n_in: i64, index: usize) -> Result<
    (Intersection, Ray),
    TraceError,
> {
    match s_hit(surface, z_off, ray, index) {
        Err(e) => Err(e),
        Ok((t, point)) => match s_normal(surface, z_off, point, ray.direction) {
            Err(e) => Err(e),
            Ok(n) => match s_refract(ray.direction, n, n_in, surface.refractive_index, index) {
                Err(e) => Err(e),
                Ok(out_dir) => Ok(
                    (
                        Intersection { ray, normal: n, t },
                        Ray { origin: point, direction: out_dir },
                    ),
                ),
            },
        },
    }
}

/// The refractive index the ray travels in before it reaches surface `i`:
/// the object's medium for the first surface, the previous surface's
/// outgoing medium after that.
pub open spec fn s_index_before(sys: System, i: int) -> i64 {
    if i == 0 {
        sys.object.refractive_index
    } else {
        sys.surfaces@[i - 1].refractive_index
    }
}

/// Traces a ray from surface `i` (vertex at axial offset `z_off`) through
/// the rest of the stack, collecting one intersection per surface.
pub open spec fn s_trace_from(sys: System, ray: Ray, z_off: i64, i: int) -> Result<
    Seq<Intersection>,
    TraceError,
>
    decreases sys.surfaces@.len() - i,
{
    if i < 0 || i >= sys.surfaces@.len() {
        Ok(Seq::empty())
    } else {
        match s_step(sys.surfaces@[i], z_off, ray, s_index_before(sys, i), i as usize) {
            Err(e) => Err(e),
            Ok((isec, next_ray)) => match s_fx_add(z_off, sys.surfaces@[i].thickness) {
                None => Err(TraceError::OutOfRange),
                Some(z_next) => match s_trace_from(sys, next_ray, z_next, i + 1) {
                    Err(e) => Err(e),
                    Ok(rest) => Ok(seq![isec] + rest),
                },
            },
        }
    }
}

/// What tracing one ray through the whole system returns: one intersection
/// per surface in ascending surface order, or the first error.
pub open spec fn s_trace_ray(sys: System, ray: Ray) -> Result<Seq<Intersection>, TraceError> {
    s_trace_from(sys, ray, 0, 0)
}

/// Prefixes an already-produced run of intersections onto a trace result.
pub open spec fn s_prepend(pre: Seq<Intersection>, r: Result<Seq<Intersection>, TraceError>)
    -> Result<Seq<Intersection>, TraceError> {
    match r {
        Ok(s) => Ok(pre + s),
        Err(e) => Err(e),
    }
}

/// A successful trace records exactly one intersection per surface.
pub proof fn lemma_trace_from_len(sys: System, ray: Ray, z_off: i64, i: int)
    requires
        0 <= i <= sys.surfaces@.len(),
    ensures
        (s_trace_from(sys, ray, z_off, i) matches Ok(s) ==> s.len() == sys.surfaces@.len() - i),
    decreases sys.surfaces@.len() - i,
{
    if i < sys.surfaces@.len() {
        match s_step(sys.surfaces@[i], z_off, ray, s_index_before(sys, i), i as usize) {
            Err(_) => {},
            Ok((isec, next_ray)) => {
                match s_fx_add(z_off, sys.surfaces@[i].thickness) {
                    None => {},
                    Some(z_next) => {
                        lemma_trace_from_len(sys, next_ray, z_next, i + 1);
                    },
                }
            },
        }
    }
}

/// When every refractive-index ratio is one (the object's medium and every
/// surface's medium share one index), refraction bends nothing: a traced
/// ray propagates in a straight line, so the incoming direction recorded at
/// every surface equals the direction the ray started with.
pub proof fn lemma_uniform_index_straight(sys: System, ray: Ray, z_off: i64, i: int)
    requires
        sys.object.refractive_index != 0,
        forall|k: int|
            0 <= k < sys.surfaces@.len() ==> (#[trigger] sys.surfaces@[k]).refractive_index
                == sys.object.refractive_index,
        0 <= i <= sys.surfaces@.len(),
    ensures
        s_trace_from(sys, ray, z_off, i) matches Ok(s) ==> forall|k: int|
            0 <= k < s.len() ==> (#[trigger] s[k]).ray.direction == ray.direction,
    decreases sys.surfaces@.len() - i,
{
    if i < sys.surfaces@.len() {
        let surface = sys.surfaces@[i];
        let n_in = s_index_before(sys, i);
        assert(n_in == sys.object.refractive_index);
        assert(surface.refractive_index == sys.object.refractive_index);
        match s_step(surface, z_off, ray, n_in, i as usize) {
            Err(_) => {},
            Ok((isec, next_ray)) => {
                crate::fixed::lemma_fx_div_self(n_in);
                assert(next_ray.direction == ray.direction);
                assert(isec.ray == ray);
                match s_fx_add(z_off, surface.thickness) {
                    None => {},
                    Some(z_next) => {
                        lemma_uniform_index_straight(sys, next_ray, z_next, i + 1);
                        match s_trace_from(sys, next_ray, z_next, i + 1) {
                            Err(_) => {},
                            Ok(rest) => {
                                let s = seq![isec] + rest;
                                assert(forall|k: int|
                                    1 <= k < s.len() ==> s[k] == rest[k - 1]);
                            },
                        }
                    },
                }
            },
        }
    }
}

/// Executable surface hit: mirrors `s_hit` exactly.
fn hit(surface: &Surface, z_off: i64, ray: &Ray, index: usize) -> (r: Result<
    (i64, Vec3),
    TraceError,
>)
    ensures
        r == s_hit(*surface, z_off, *ray, index),
{
    if surface.curvature == 0 {
        if ray.direction.z == 0 {
            return Err(TraceError::ApertureMiss { surface: index });
        }
        let num = match fx_sub(z_off, ray.origin.z) {
            Some(v) => v,
            None => return Err(TraceError::OutOfRange),
        };
        let t = match fx_div(num, ray.direction.z) {
            Some(v) => v,
            None => return Err(TraceError::OutOfRange),
        };
        if t < 0 {
            return Err(TraceError::ApertureMiss { surface: index });
        }
        clip(surface, ray, t, index)
    } else {
        let r = match fx_div(SCALE, surface.curvature) {
            Some(v) => v,
            None => return Err(TraceError::OutOfRange),
        };
        let cz = match fx_add(z_off, r) {
            Some(v) => v,
            None => return Err(TraceError::OutOfRange),
        };
        let l = match v_sub(ray.origin, Vec3 { x: 0, y: 0, z: cz }) {
            Some(v) => v,
            None => return Err(TraceError::OutOfRange),
        };
        let qa = match v_dot(ray.direction, ray.direction) {
            Some(v) => v,
            None => return Err(TraceError::OutOfRange),
        };
        let qb = match v_dot(l, ray.direction) {
            Some(v) => v,
            None => return Err(TraceError::OutOfRange),
        };
        let ll = match v_dot(l, l) {
            Some(v) => v,
            None => return Err(TraceError::OutOfRange),
        };
        let r2 = match fx_mul(r, r) {
            Some(v) => v,
            None => return Err(TraceError::OutOfRange),
        };
        let qc = match fx_sub(ll, r2) {
            Some(v) => v,
            None => return Err(TraceError::OutOfRange),
        };
        let b2 = match fx_mul(qb, qb) {
            Some(v) => v,
            None => return Err(TraceError::OutOfRange),
        };
        let ac = match fx_mul(qa, qc) {
            Some(v) => v,
            None => return Err(TraceError::OutOfRange),
        };
        let disc = match fx_sub(b2, ac) {
            Some(v) => v,
            None => return Err(TraceError::OutOfRange),
        };
        if disc < 0 {
            return Err(TraceError::ApertureMiss { surface: index });
        }
        let sq = match fx_sqrt(disc) {
            Some(v) => v,
            None => return Err(TraceError::OutOfRange),
        };
        let nb = match fx_sub(0, qb) {
            Some(v) => v,
            None => return Err(TraceError::OutOfRange),
        };
        let tn = match (if surface.curvature > 0 {
            fx_sub(nb, sq)
        } else {
            fx_add(nb, sq)
        }) {
            Some(v) => v,
            None => return Err(TraceError::OutOfRange),
        };
        let t = match fx_div(tn, qa) {
            Some(v) => v,
            None => return Err(TraceError::OutOfRange),
        };
        if t < 0 {
            return Err(TraceError::ApertureMiss { surface: index });
        }
        clip(surface, ray, t, index)
    }
}

/// Executable aperture clip: mirrors `s_clip` exactly.
fn clip(surface: &Surface, ray: &Ray, t: i64, index: usize) -> (r: Result<
    (i64, Vec3),
    TraceError,
>)
    ensures
        r == s_clip(*surface, *ray, t, index),
{
    let step = match v_scale(t, ray.direction) {
        Some(v) => v,
        None => return Err(TraceError::OutOfRange),
    };
    let p = match v_add(ray.origin, step) {
        Some(v) => v,
        None => return Err(TraceError::OutOfRange),
    };
    let x2 = match fx_mul(p.x, p.x) {
        Some(v) => v,
        None => return Err(TraceError::OutOfRange),
    };
    let y2 = match fx_mul(p.y, p.y) {
        Some(v) => v,
        None => return Err(TraceError::OutOfRange),
    };
    let h2 = match fx_add(x2, y2) {
        Some(v) => v,
        None => return Err(TraceError::OutOfRange),
    };
    let s2 = match fx_mul(surface.semi_diameter, surface.semi_diameter) {
        Some(v) => v,
        None => return Err(TraceError::OutOfRange),
    };
    if h2 > s2 {
        return Err(TraceError::ApertureMiss { surface: index });
    }
    Ok((t, p))
}

/// Executable oriented normal: mirrors `s_normal` exactly.
fn normal_at(surface: &Surface, z_off: i64, point: Vec3, dir: Vec3) -> (r: Result<
    Vec3,
    TraceError,
>)
    ensures
        r == s_normal(*surface, z_off, point, dir),
{
    if surface.curvature == 0 {
        if dir.z > 0 {
            return Ok(Vec3 { x: 0, y: 0, z: -SCALE });
        }
        return Ok(Vec3 { x: 0, y: 0, z: SCALE });
    }
    let r = match fx_div(SCALE, surface.curvature) {
        Some(v) => v,
        None => return Err(TraceError::OutOfRange),
    };
    let cz = match fx_add(z_off, r) {
        Some(v) => v,
        None => return Err(TraceError::OutOfRange),
    };
    let m = match v_sub(point, Vec3 { x: 0, y: 0, z: cz }) {
        Some(v) => v,
        None => return Err(TraceError::OutOfRange),
    };
    let u = match v_norm(m) {
        Some(v) => v,
        None => return Err(TraceError::OutOfRange),
    };
    let ud = match v_dot(u, dir) {
        Some(v) => v,
        None => return Err(TraceError::OutOfRange),
    };
    if ud > 0 {
        match v_neg(u) {
            Some(n) => Ok(n),
            None => Err(TraceError::OutOfRange),
        }
    } else {
        Ok(u)
    }
}

/// Executable Snell refraction: mirrors `s_refract` exactly.
fn refract(d: Vec3, n: Vec3, n_in: i64, n_out: i64, index: usize) -> (r: Result<Vec3, TraceError>)
    ensures
        r == s_refract(d, n, n_in, n_out, index),
{
    let mu = match fx_div(n_in, n_out) {
        Some(v) => v,
        None => return Err(TraceError::OutOfRange),
    };
    if mu == SCALE {
        return Ok(d);
    }
    let nd = match v_dot(n, d) {
        Some(v) => v,
        None => return Err(TraceError::OutOfRange),
    };
    let ci = match fx_sub(0, nd) {
        Some(v) => v,
        None => return Err(TraceError::OutOfRange),
    };
    let c2 = match fx_mul(ci, ci) {
        Some(v) => v,
        None => return Err(TraceError::OutOfRange),
    };
    let mu2 = match fx_mul(mu, mu) {
        Some(v) => v,
        None => return Err(TraceError::OutOfRange),
    };
    let onemc = match fx_sub(SCALE, c2) {
        Some(v) => v,
        None => return Err(TraceError::OutOfRange),
    };
    let k = match fx_mul(mu2, onemc) {
        Some(v) => v,
        None => return Err(TraceError::OutOfRange),
    };
    let disc = match fx_sub(SCALE, k) {
        Some(v) => v,
        None => return Err(TraceError::OutOfRange),
    };
    if disc < 0 {
        return Err(TraceError::TotalInternalReflection { surface: index });
    }
    let sq = match fx_sqrt(disc) {
        Some(v) => v,
        None => return Err(TraceError::OutOfRange),
    };
    let mc = match fx_mul(mu, ci) {
        Some(v) => v,
        None => return Err(TraceError::OutOfRange),
    };
    let coef = match fx_sub(mc, sq) {
        Some(v) => v,
        None => return Err(TraceError::OutOfRange),
    };
    let a = match v_scale(mu, d) {
        Some(v) => v,
        None => return Err(TraceError::OutOfRange),
    };
    let b = match v_scale(coef, n) {
        Some(v) => v,
        None => return Err(TraceError::OutOfRange),
    };
    match v_add(a, b) {
        Some(v) => Ok(v),
        None => Err(TraceError::OutOfRange),
    }
}

/// Executable surface step: mirrors `s_step` exactly.
fn step(surface: &Surface, z_off: i64, ray: &Ray, n_in: i64, index: usize) -> (r: Result<
    (Intersection, Ray),
    TraceError,
>)
    ensures
        r == s_step(*surface, z_off, *ray, n_in, index),
{
    let (t, point) = match hit(surface, z_off, ray, index) {
        Ok(v) => v,
        Err(e) => return Err(e),
    };
    let n = match normal_at(surface, z_off, point, ray.direction) {
        Ok(v) => v,
        Err(e) => return Err(e),
    };
    let out_dir = match refract(ray.direction, n, n_in, surface.refractive_index, index) {
        Ok(v) => v,
        Err(e) => return Err(e),
    };
    Ok(
        (
            Intersection { ray: *ray, normal: n, t },
            Ray { origin: point, direction: out_dir },
        ),
    )
}

impl System {
    /// Traces one ray through every surface in index order. On success the
    /// vector holds exactly one intersection per surface, in surface order;
    /// otherwise the first failure is reported, exactly as the model
    /// `s_trace_ray` determines it.
    pub fn trace_ray(&self, ray: &Ray) -> (r: Result<Vec<Intersection>, TraceError>)
        ensures
            (r matches Ok(v) ==> s_trace_ray(*self, *ray) == Ok::<_, TraceError>(v@)),
            (r matches Ok(v) ==> v@.len() == self.surfaces@.len()),
            (r matches Err(e) ==> s_trace_ray(*self, *ray) == Err::<Seq<Intersection>, _>(e)),
    {
        let mut out: Vec<Intersection> = Vec::new();
        let mut cur: Ray = *ray;
        let mut z_off: i64 = 0;
        let mut i: usize = 0;
        proof {
            assert(out@ + s_trace_from(*self, cur, z_off, 0)->Ok_0 =~= s_trace_from(
                *self,
                cur,
                z_off,
                0,
            )->Ok_0);
        }
        while i < self.surfaces.len()
            invariant
                i <= self.surfaces@.len(),
                s_trace_ray(*self, *ray) == s_prepend(
                    out@,
                    s_trace_from(*self, cur, z_off, i as int),
                ),
                out@.len() == i,
            decreases self.surfaces@.len() - i,
        {
            let surface = self.surfaces[i];
            let n_in = if i == 0 {
                self.object.refractive_index
            } else {
                self.surfaces[i - 1].refractive_index
            };
            let ghost pre = out@;
            match step(&surface, z_off, &cur, n_in, i) {
                Err(e) => {
                    return Err(e);
                },
                Ok((isec, next_ray)) => {
                    out.push(isec);
                    cur = next_ray;
                    z_off = match fx_add(z_off, surface.thickness) {
                        Some(v) => v,
                        None => return Err(TraceError::OutOfRange),
                    };
                    i = i + 1;
                    proof {
                        let rest = s_trace_from(*self, cur, z_off, i as int);
                        match rest {
                            Ok(rs) => {
                                assert(pre + (seq![isec] + rs) =~= (pre.push(isec)) + rs);
                            },
                            Err(_) => {},
                        }
                    }
                },
            }
        }
        proof {
            assert(s_trace_from(*self, cur, z_off, i as int) == Ok::<_, TraceError>(
                Seq::<Intersection>::empty(),
            ));
            assert(out@ + Seq::<Intersection>::empty() =~= out@);
        }
        Ok(out)
    }

    /// Traces a whole batch of rays. On success the flat response holds
    /// `rays.len() * surfaces.len()` intersections, ray-major then
    /// surface-minor: the records of ray `j` occupy positions
    /// `j * surfaces.len() ..` in ray order. On failure the error names the
    /// first ray that cannot be traced and why; every earlier ray traces.
    pub fn trace(&self, query: &Query) -> (r: Result<Response, BatchError>)
        ensures
            (r matches Ok(resp) ==> {
                &&& resp.intersections@.len() == query.rays@.len() * self.surfaces@.len()
                &&& forall|j: int|
                    0 <= j < query.rays@.len() ==> {
                        &&& (#[trigger] s_trace_ray(*self, query.rays@[j])) matches Ok(s)
                        &&& resp.intersections@.subrange(
                            j * self.surfaces@.len(),
                            (j + 1) * self.surfaces@.len(),
                        ) == s_trace_ray(*self, query.rays@[j])->Ok_0
                    }
            }),
            (r matches Err(e) ==> {
                &&& e.ray < query.rays@.len()
                &&& s_trace_ray(*self, query.rays@[e.ray as int]) == Err::<
                    Seq<Intersection>,
                    _,
                >(e.error)
                &&& forall|j: int|
                    0 <= j < e.ray ==> (#[trigger] s_trace_ray(
                        *self,
                        query.rays@[j],
                    )) matches Ok(s)
            }),
    {
        let m = self.surfaces.len();
        let mut out: Vec<Intersection> = Vec::new();
        let mut j: usize = 0;
        while j < query.rays.len()
            invariant
                j <= query.rays@.len(),
                m == self.surfaces@.len(),
                out@.len() == j * m,
                forall|k: int|
                    0 <= k < j ==> {
                        &&& (#[trigger] s_trace_ray(*self, query.rays@[k])) matches Ok(s)
                        &&& out@.subrange(k * m, (k + 1) * m) == s_trace_ray(
                            *self,
                            query.rays@[k],
                        )->Ok_0
                    },
            decreases query.rays@.len() - j,
        {
            let ghost pre = out@;
            let mut traced = match self.trace_ray(&query.rays[j]) {
                Ok(v) => v,
                Err(e) => {
                    return Err(BatchError { ray: j, error: e });
                },
            };
            let ghost tr = traced@;
            out.append(&mut traced);
            proof {
                vstd::arithmetic::mul::lemma_mul_is_distributive_add_other_way(
                    m as int,
                    j as int,
                    1,
                );
                assert(out@.subrange(j as int * m, (j + 1) as int * m) =~= tr);
                assert forall|k: int| 0 <= k < j implies (#[trigger] out@.subrange(
                    k * m,
                    (k + 1) * m,
                )) =~= pre.subrange(k * m, (k + 1) * m) by {
                    vstd::arithmetic::mul::lemma_mul_inequality(k + 1, j as int, m as int);
                    vstd::arithmetic::mul::lemma_mul_nonnegative(k, m as int);
                    vstd::arithmetic::mul::lemma_mul_inequality(k, k + 1, m as int);
                }
            }
            j = j + 1;
        }
        Ok(Response { intersections: out })
    }
}

} // verus!
