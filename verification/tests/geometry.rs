//! Geometry primitives: fixed-point arithmetic, sag, sagitta, edges.

use optics::SCALE;
use optics::fixed::fx_add;
use optics::fixed::fx_div;
use optics::fixed::fx_mul;
use optics::fixed::fx_sqrt;
use optics::fixed::fx_sub;
use optics::intersection::Intersection;
use optics::object::Object;
use optics::ray::Ray;
use optics::surface::GeomError;
use optics::surface::Surface;
use optics::system::System;
use optics::vector::Point2;
use optics::vector::Vec3;

fn sphere(reciprocal_radius_denominator: i64, semi_diameter: i64) -> Surface {
    Surface {
        thickness: 0,
        refractive_index: SCALE,
        curvature: fx_div(SCALE, reciprocal_radius_denominator).unwrap(),
        semi_diameter,
    }
}

#[test]
fn fixed_point_exact_values() {
    assert_eq!(fx_mul(2_500_000_000, 4_000_000_000), Some(10_000_000_000));
    assert_eq!(fx_mul(1, 1), Some(0)); // truncates toward zero
    assert_eq!(fx_mul(-2_000_000_000, 3_000_000_000), Some(-6_000_000_000));
    assert_eq!(fx_div(SCALE, 3 * SCALE), Some(333_333_333));
    assert_eq!(fx_div(-SCALE, 3 * SCALE), Some(-333_333_333));
    assert_eq!(fx_div(SCALE, 0), None);
    assert_eq!(fx_sqrt(4 * SCALE), Some(2 * SCALE));
    assert_eq!(fx_sqrt(2 * SCALE), Some(1_414_213_562));
    assert_eq!(fx_sqrt(-1), None);
    assert_eq!(fx_add(i64::MAX, 1), None);
    assert_eq!(fx_sub(i64::MIN, 1), None);
    assert_eq!(fx_mul(i64::MAX, i64::MAX), None);
}

#[test]
fn flat_surface_sag_is_zero() {
    // Every in-aperture height query on a flat surface is exactly zero, and
    // so is the sagitta.
    let flat = Surface {
        thickness: 0,
        refractive_index: SCALE,
        curvature: 0,
        semi_diameter: 2 * SCALE,
    };
    assert_eq!(flat.z(Point2 { x: 0, y: 0 }), Ok(0));
    assert_eq!(flat.z(Point2 { x: SCALE, y: -SCALE }), Ok(0));
    assert_eq!(flat.z(Point2 { x: 123, y: 456_789 }), Ok(0));
    assert_eq!(flat.sagitta(), Ok(0));
}

#[test]
fn spherical_sagitta_exact_value() {
    // radius 5, semi-diameter 2: sagitta = 5 - sqrt(21) in fixed point.
    let s = sphere(5 * SCALE, 2 * SCALE);
    assert_eq!(s.sagitta(), Ok(417_424_306));
}

#[test]
fn edge_height_equals_sagitta() {
    // The sag queried at either aperture edge point is exactly the sagitta.
    let s = sphere(5 * SCALE, 2 * SCALE);
    let sag = s.sagitta();
    assert_eq!(s.z(Point2 { x: 0, y: 2 * SCALE }), sag);
    assert_eq!(s.z(Point2 { x: 0, y: -2 * SCALE }), sag);

    let concave = sphere(-5 * SCALE, 2 * SCALE);
    let sag_concave = concave.sagitta();
    assert_eq!(sag_concave, Ok(-417_424_306));
    assert_eq!(concave.z(Point2 { x: 0, y: 2 * SCALE }), sag_concave);
    assert_eq!(concave.z(Point2 { x: 0, y: -2 * SCALE }), sag_concave);
}

#[test]
fn out_of_aperture_height_is_domain_error() {
    // radius 1, query at height 2: the point lies outside the sphere.
    let s = sphere(SCALE, SCALE);
    assert_eq!(
        s.z(Point2 { x: 0, y: 2 * SCALE }),
        Err(GeomError::OutsideAperture)
    );
}

#[test]
fn overflowing_height_query_is_range_error() {
    // A query point whose square does not fit the fixed-point range is an
    // explicit out-of-range report, not a wrapped value.
    let s = sphere(5 * SCALE, 2 * SCALE);
    assert_eq!(
        s.z(Point2 { x: 0, y: i64::MAX }),
        Err(GeomError::OutOfRange)
    );
}

#[test]
fn surface_edges_of_valid_and_invalid_index() {
    let system = System {
        object: Object { distance: 2 * SCALE, semi_diameter: SCALE, refractive_index: SCALE },
        stop_index: 0,
        surfaces: vec![sphere(5 * SCALE, 2 * SCALE)],
    };
    let (top, bottom) = system.surface_edges(0).unwrap();
    assert_eq!(top, Vec3 { x: 0, y: 2 * SCALE, z: 417_424_306 });
    assert_eq!(bottom, Vec3 { x: 0, y: -2 * SCALE, z: 417_424_306 });
    assert!(system.surface_edges(1).is_none());
}

#[test]
fn object_top_point() {
    let object = Object { distance: 2 * SCALE, semi_diameter: SCALE, refractive_index: SCALE };
    assert_eq!(object.top(), Vec3 { x: 0, y: SCALE, z: -2 * SCALE });
}

#[test]
fn ray_new_keeps_fields() {
    let origin = Vec3 { x: 1, y: 2, z: 3 };
    let direction = Vec3 { x: 0, y: 0, z: SCALE };
    let ray = Ray::new(origin, direction);
    assert_eq!(ray.origin, origin);
    assert_eq!(ray.direction, direction);
}

#[test]
fn intersection_point_is_origin_plus_t_direction() {
    let i = Intersection {
        ray: Ray {
            origin: Vec3 { x: 0, y: SCALE, z: -2 * SCALE },
            direction: Vec3 { x: 0, y: 0, z: SCALE },
        },
        normal: Vec3 { x: 0, y: 0, z: -SCALE },
        t: 2 * SCALE,
    };
    assert_eq!(i.point(), Some(Vec3 { x: 0, y: SCALE, z: 0 }));
}

#[test]
fn default_surface_is_flat_unit_index() {
    let s = Surface::default();
    assert_eq!(s.thickness, 0);
    assert_eq!(s.refractive_index, SCALE);
    assert_eq!(s.curvature, 0);
    assert_eq!(s.semi_diameter, 0);
}
