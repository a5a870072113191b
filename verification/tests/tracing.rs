//! The sequential tracer: straight-line propagation, aperture clipping,
//! total internal reflection, batch shape and order.

use optics::SCALE;
use optics::fixed::fx_div;
use optics::object::Object;
use optics::ray::Ray;
use optics::raytracing::Query;
use optics::raytracing::TraceError;
use optics::surface::Surface;
use optics::system::System;
use optics::vector::Vec3;

fn flat(thickness: i64, refractive_index: i64, semi_diameter: i64) -> Surface {
    Surface { thickness, refractive_index, curvature: 0, semi_diameter }
}

fn spherical(thickness: i64, refractive_index: i64, radius: i64, semi_diameter: i64) -> Surface {
    Surface {
        thickness,
        refractive_index,
        curvature: fx_div(SCALE, radius).unwrap(),
        semi_diameter,
    }
}

fn uniform_system() -> System {
    // A sphere and two flats, all media of index one.
    System {
        object: Object { distance: 2 * SCALE, semi_diameter: SCALE, refractive_index: SCALE },
        stop_index: 2,
        surfaces: vec![
            spherical(SCALE, SCALE, 5 * SCALE, 2 * SCALE),
            flat(SCALE, SCALE, 2 * SCALE),
            flat(0, SCALE, 2 * SCALE),
        ],
    }
}

#[test]
fn uniform_index_traces_straight_lines() {
    // With every refractive-index ratio equal to one, refraction bends
    // nothing: the recorded incoming direction at each surface equals the
    // direction the ray started with.
    let system = uniform_system();
    let direction = Vec3 { x: 0, y: 99_503_719, z: 995_037_190 }; // ~unit, tilted up
    let ray = Ray::new(Vec3 { x: 0, y: 0, z: -2 * SCALE }, direction);
    let trace = system.trace_ray(&ray).unwrap();
    assert_eq!(trace.len(), 3);
    for record in &trace {
        assert_eq!(record.ray.direction, direction);
    }
}

#[test]
fn aperture_edge_hit_is_not_an_error() {
    // A ray aimed exactly at the semi-diameter edge of a flat surface hits.
    let system = System {
        object: Object { distance: SCALE, semi_diameter: SCALE, refractive_index: SCALE },
        stop_index: 0,
        surfaces: vec![flat(0, SCALE, SCALE)],
    };
    let ray = Ray::new(
        Vec3 { x: 0, y: SCALE, z: -SCALE },
        Vec3 { x: 0, y: 0, z: SCALE },
    );
    let trace = system.trace_ray(&ray).unwrap();
    assert_eq!(trace.len(), 1);
    assert_eq!(trace[0].t, SCALE);
    // The edge height itself is reported, no silent non-value.
    assert_eq!(system.trace_height(&ray), Ok(SCALE));
}

#[test]
fn aperture_miss_one_percent_beyond_edge() {
    // One percent beyond the edge is a classified aperture miss, not a
    // wrapped or propagated non-value.
    let system = System {
        object: Object { distance: SCALE, semi_diameter: SCALE, refractive_index: SCALE },
        stop_index: 0,
        surfaces: vec![flat(0, SCALE, SCALE)],
    };
    let ray = Ray::new(
        Vec3 { x: 0, y: 1_010_000_000, z: -SCALE },
        Vec3 { x: 0, y: 0, z: SCALE },
    );
    assert_eq!(
        system.trace_ray(&ray),
        Err(TraceError::ApertureMiss { surface: 0 })
    );
}

#[test]
fn total_internal_reflection_is_distinct_error() {
    // Dense-to-thin boundary, incidence beyond the critical angle: the
    // failure names total internal reflection, not an aperture miss.
    let system = System {
        object: Object { distance: SCALE, semi_diameter: SCALE, refractive_index: 1_800_000_000 },
        stop_index: 0,
        surfaces: vec![flat(0, SCALE, 2 * SCALE)],
    };
    let ray = Ray::new(
        Vec3 { x: 0, y: 0, z: -SCALE },
        Vec3 { x: 0, y: 800_000_000, z: 600_000_000 },
    );
    assert_eq!(
        system.trace_ray(&ray),
        Err(TraceError::TotalInternalReflection { surface: 0 })
    );
}

#[test]
fn overflowing_trace_is_range_error() {
    // A hit point too far off axis for its square to be representable is
    // reported as out of range, never silently wrapped.
    let system = System {
        object: Object { distance: SCALE, semi_diameter: SCALE, refractive_index: SCALE },
        stop_index: 0,
        surfaces: vec![flat(0, SCALE, SCALE)],
    };
    let ray = Ray::new(
        Vec3 { x: 0, y: i64::MAX, z: -SCALE },
        Vec3 { x: 0, y: 0, z: SCALE },
    );
    assert_eq!(system.trace_ray(&ray), Err(TraceError::OutOfRange));
}

#[test]
fn batch_trace_is_ray_major_surface_minor() {
    let system = uniform_system();
    let ray_a = Ray::new(
        Vec3 { x: 0, y: 100_000_000, z: -2 * SCALE },
        Vec3 { x: 0, y: 0, z: SCALE },
    );
    let ray_b = Ray::new(
        Vec3 { x: 0, y: -200_000_000, z: -2 * SCALE },
        Vec3 { x: 0, y: 0, z: SCALE },
    );
    let response = system.trace(&Query { rays: vec![ray_a, ray_b] }).unwrap();
    // Exactly len(surfaces) * len(rays) records, grouped by ray.
    assert_eq!(response.intersections.len(), 6);
    for record in &response.intersections[0..3] {
        assert_eq!(record.ray.origin.y, 100_000_000);
    }
    for record in &response.intersections[3..6] {
        assert_eq!(record.ray.origin.y, -200_000_000);
    }
    // Surface-minor order within one ray: axial hit positions advance.
    let first = response.intersections[0].point().unwrap();
    let second = response.intersections[1].point().unwrap();
    let third = response.intersections[2].point().unwrap();
    assert!(first.z < second.z && second.z < third.z);
}

#[test]
fn batch_trace_reports_first_failing_ray() {
    let system = uniform_system();
    let good = Ray::new(Vec3 { x: 0, y: 0, z: -2 * SCALE }, Vec3 { x: 0, y: 0, z: SCALE });
    let bad = Ray::new(
        Vec3 { x: 0, y: 3 * SCALE, z: -2 * SCALE },
        Vec3 { x: 0, y: 0, z: SCALE },
    );
    let err = system.trace(&Query { rays: vec![good, bad] }).unwrap_err();
    assert_eq!(err.ray, 1);
    assert_eq!(err.error, TraceError::ApertureMiss { surface: 0 });
}

#[test]
fn flat_surface_height_of_centered_ray() {
    // A ray down the axis of a flat-only system keeps height zero.
    let system = System {
        object: Object { distance: 2 * SCALE, semi_diameter: SCALE, refractive_index: SCALE },
        stop_index: 1,
        surfaces: vec![flat(SCALE, SCALE, SCALE), flat(0, SCALE, SCALE)],
    };
    let ray = Ray::new(Vec3 { x: 0, y: 0, z: -2 * SCALE }, Vec3 { x: 0, y: 0, z: SCALE });
    assert_eq!(system.trace_height(&ray), Ok(0));
}
