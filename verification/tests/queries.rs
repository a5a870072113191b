//! Parameter queries over a trace result.

use optics::SCALE;
use optics::fixed::fx_div;
use optics::object::Object;
use optics::query::Curvature;
use optics::query::QueryParameter;
use optics::query::Radius;
use optics::query::RayTracingResult;
use optics::query::Thickness;
use optics::surface::Surface;
use optics::system::System;
use optics::vector::Point2;

fn traced_system() -> RayTracingResult {
    RayTracingResult {
        system: System {
            object: Object {
                distance: 2 * SCALE,
                semi_diameter: SCALE,
                refractive_index: SCALE,
            },
            stop_index: 1,
            surfaces: vec![
                Surface {
                    thickness: SCALE,
                    refractive_index: 1_500_000_000,
                    curvature: fx_div(SCALE, 5 * SCALE).unwrap(),
                    semi_diameter: 2 * SCALE,
                },
                Surface {
                    thickness: 2 * SCALE,
                    refractive_index: SCALE,
                    curvature: 0,
                    semi_diameter: 2 * SCALE,
                },
            ],
        },
        intersections: Vec::new(),
    }
}

#[test]
fn curvature_query_reads_surface() {
    let result = traced_system();
    assert_eq!(Curvature { index: 0 }.query(&result), 200_000_000);
    assert_eq!(Curvature { index: 1 }.query(&result), 0);
}

#[test]
fn radius_query_is_reciprocal_curvature() {
    let result = traced_system();
    assert_eq!(Radius { index: 0 }.query(&result), Some(5 * SCALE));
    // A flat surface has no finite radius.
    assert_eq!(Radius { index: 1 }.query(&result), None);
}

#[test]
fn thickness_query_accumulates_axial_gaps() {
    let result = traced_system();
    // On the axis both sags are zero: the full span is the thickness sum.
    let on_axis = Thickness { from: 0, to: 2, origin: Point2 { x: 0, y: 0 } };
    assert_eq!(on_axis.query(&result), Ok(3 * SCALE));
    // Off axis, the spherical surface's sag shortens the first gap:
    // sag(radius 5, height 2) = 417424306.
    let off_axis = Thickness { from: 0, to: 2, origin: Point2 { x: 0, y: 2 * SCALE } };
    assert_eq!(off_axis.query(&result), Ok(3 * SCALE - 417_424_306));
    // An empty range accumulates nothing.
    let empty = Thickness { from: 1, to: 1, origin: Point2 { x: 0, y: 0 } };
    assert_eq!(empty.query(&result), Ok(0));
}
