//! Fan evaluation and the chief-ray root search, on the worked example
//! system: three spherical surfaces and a flat stop.

use optics::SCALE;
use optics::fan::Query;
use optics::fixed::fx_div;
use optics::object::Object;
use optics::ray::Ray;
use optics::raytracing::TraceError;
use optics::search::CrossingPolicy;
use optics::search::CrossingScan;
use optics::search::SearchError;
use optics::search::SearchOutcome;
use optics::search::TOLERANCE;
use optics::search::scan_crossings;
use optics::surface::Surface;
use optics::system::System;
use optics::vector::Vec3;
use optics::vector::v_norm;
use optics::vector::v_sub;

fn spherical(thickness: i64, refractive_index: i64, radius: i64, semi_diameter: i64) -> Surface {
    Surface {
        thickness,
        refractive_index,
        curvature: fx_div(SCALE, radius).unwrap(),
        semi_diameter,
    }
}

/// The worked example: three spherical surfaces and the flat stop, object
/// two units out, all lengths in fixed-point billionths.
fn example_system() -> System {
    System {
        object: Object { distance: 2 * SCALE, semi_diameter: SCALE, refractive_index: SCALE },
        stop_index: 3,
        surfaces: vec![
            spherical(1_050_000_000, 1_517_000_000, 7_389_500_000, 2 * SCALE),
            spherical(400_000_000, 1_649_000_000, -5_178_400_000, 2 * SCALE),
            spherical(10_550_000_000, SCALE, -16_222_500_000, 2 * SCALE),
            Surface { thickness: 0, refractive_index: SCALE, curvature: 0, semi_diameter: SCALE },
        ],
    }
}

/// The aperture-edge bracket of a system, as the chief-ray search builds it.
fn entry_bracket(system: &System) -> (Vec3, Vec3, Vec3) {
    let origin = system.object.top();
    let (top, bottom) = system.surface_edges(0).unwrap();
    let dir_a = v_norm(v_sub(top, origin).unwrap()).unwrap();
    let dir_b = v_norm(v_sub(bottom, origin).unwrap()).unwrap();
    (origin, dir_a, dir_b)
}

#[test]
fn example_system_is_well_formed() {
    assert!(example_system().is_well_formed());
    // A vanishing refractive index breaks the data-model invariant.
    let mut broken = example_system();
    broken.surfaces[2].refractive_index = 0;
    assert!(!broken.is_well_formed());
    // So does a stop index past the last surface.
    let mut no_stop = example_system();
    no_stop.stop_index = 4;
    assert!(!no_stop.is_well_formed());
}

#[test]
fn single_surface_fan_has_exactly_one_crossing() {
    // One spherical refracting surface, four directions spanning the axis:
    // exactly one sign change.
    let system = System {
        object: Object { distance: 2 * SCALE, semi_diameter: SCALE, refractive_index: SCALE },
        stop_index: 0,
        surfaces: vec![spherical(1_050_000_000, 1_517_000_000, 7_389_500_000, 2 * SCALE)],
    };
    let (origin, dir_a, dir_b) = entry_bracket(&system);
    let response = system.fan(&Query { origin, dir_a, dir_b, resolution: 4 });
    assert_eq!(response.heights.len(), 4);
    assert_eq!(
        scan_crossings(&response.heights, CrossingPolicy::Product),
        CrossingScan::One { index: 1 }
    );
    assert_eq!(
        scan_crossings(&response.heights, CrossingPolicy::Ordered),
        CrossingScan::One { index: 1 }
    );
}

#[test]
fn example_system_search_terminates() {
    // The root search on the worked example must terminate, and not on the
    // multiple-crossing fatal path.
    let system = example_system();
    let solution = system.find_chief_ray().unwrap();
    match solution.outcome {
        SearchOutcome::Converged { height } => {
            assert!(-TOLERANCE < height && height < TOLERANCE)
        },
        SearchOutcome::IterationCap { .. } => {},
        SearchOutcome::MidpointFallback => {},
    }
}

#[test]
fn search_outcomes_are_mutually_exclusive() {
    // Exactly one of the three terminal outcomes occurs, and a converged
    // outcome carries a height within tolerance of zero.
    let system = example_system();
    let solution = system.find_chief_ray().unwrap();
    let mut terminal_states = 0;
    if let SearchOutcome::Converged { height } = solution.outcome {
        assert!(-TOLERANCE < height && height < TOLERANCE);
        terminal_states += 1;
    }
    if let SearchOutcome::IterationCap { height } = solution.outcome {
        assert!(height <= -TOLERANCE || TOLERANCE <= height);
        terminal_states += 1;
    }
    if let SearchOutcome::MidpointFallback = solution.outcome {
        terminal_states += 1;
    }
    assert_eq!(terminal_states, 1);
    // On this system the search in fact converges by tolerance.
    assert!(matches!(solution.outcome, SearchOutcome::Converged { .. }));
}

#[test]
fn chief_ray_height_is_within_tolerance() {
    // Re-trace the returned chief ray: its height at the stop really is
    // within tolerance of zero.
    let system = example_system();
    let solution = system.find_chief_ray().unwrap();
    let height = system.trace_height(&solution.ray).unwrap();
    assert!(-TOLERANCE < height && height < TOLERANCE);
}

#[test]
fn degenerate_fan_returns_identical_heights() {
    // dir_a == dir_b: every sample interpolates to the same direction, so
    // all heights are identical and no crossing exists.
    let system = example_system();
    let (origin, dir_a, _) = entry_bracket(&system);
    let response = system.fan(
        &Query { origin, dir_a, dir_b: dir_a, resolution: 16 },
    );
    assert_eq!(response.heights.len(), 16);
    for slot in &response.heights {
        assert_eq!(*slot, response.heights[0]);
    }
    assert_eq!(
        scan_crossings(&response.heights, CrossingPolicy::Ordered),
        CrossingScan::NoCrossing
    );
    assert_eq!(
        scan_crossings(&response.heights, CrossingPolicy::Product),
        CrossingScan::NoCrossing
    );
}

#[test]
fn degenerate_bracket_search_falls_back_to_midpoint() {
    // A first surface of zero semi-diameter collapses the bracket: both
    // boundary directions coincide, so the search ends at once on the
    // midpoint-fallback terminal state.
    let system = System {
        object: Object { distance: 2 * SCALE, semi_diameter: SCALE, refractive_index: SCALE },
        stop_index: 0,
        surfaces: vec![
            Surface { thickness: 0, refractive_index: SCALE, curvature: 0, semi_diameter: 0 },
        ],
    };
    let solution = system.find_chief_ray().unwrap();
    assert_eq!(solution.outcome, SearchOutcome::MidpointFallback);
}

#[test]
fn search_without_surfaces_is_degenerate() {
    // With no first surface there is no entry bracket to search in.
    let system = System {
        object: Object { distance: 2 * SCALE, semi_diameter: SCALE, refractive_index: SCALE },
        stop_index: 0,
        surfaces: Vec::new(),
    };
    assert_eq!(system.find_chief_ray(), Err(SearchError::Degenerate));
}

#[test]
fn fan_samples_span_the_bracket() {
    // Sample 0 follows dir_a, the last sample follows dir_b: the two edge
    // rays of the single-surface fan land at opposite aperture edges.
    let system = System {
        object: Object { distance: 2 * SCALE, semi_diameter: SCALE, refractive_index: SCALE },
        stop_index: 0,
        surfaces: vec![spherical(1_050_000_000, 1_517_000_000, 7_389_500_000, 2 * SCALE)],
    };
    let (origin, dir_a, dir_b) = entry_bracket(&system);
    let response = system.fan(&Query { origin, dir_a, dir_b, resolution: 4 });
    let first = response.heights[0].unwrap();
    let last = response.heights[3].unwrap();
    // Within one truncation step of +/- the semi-diameter.
    assert!((first - 2 * SCALE).abs() < 10);
    assert!((last + 2 * SCALE).abs() < 10);
}

#[test]
fn scan_classifies_crossing_patterns() {
    let err: Result<i64, TraceError> = Err(TraceError::OutOfRange);
    // One true crossing.
    let heights: Vec<Result<i64, TraceError>> = vec![Ok(3 * SCALE), Ok(-SCALE)];
    assert_eq!(
        scan_crossings(&heights, CrossingPolicy::Product),
        CrossingScan::One { index: 0 }
    );
    // Two crossings: fatal pattern.
    let heights = vec![Ok(5), Ok(-3), Ok(2)];
    assert_eq!(scan_crossings(&heights, CrossingPolicy::Product), CrossingScan::Multiple);
    assert_eq!(scan_crossings(&heights, CrossingPolicy::Ordered), CrossingScan::Multiple);
    // No sign change at all.
    let heights = vec![Ok(3), Ok(1), Ok(7)];
    assert_eq!(scan_crossings(&heights, CrossingPolicy::Product), CrossingScan::NoCrossing);
    // A failed sample breaks both pairs around it.
    let heights = vec![Ok(-1), err, Ok(2)];
    assert_eq!(scan_crossings(&heights, CrossingPolicy::Product), CrossingScan::NoCrossing);
    // The ordered test needs a strictly positive sample on one side, so a
    // zero that starts a descending pair is not counted...
    let heights = vec![Ok(0), Ok(-5)];
    assert_eq!(scan_crossings(&heights, CrossingPolicy::Ordered), CrossingScan::NoCrossing);
    // ... while the within-segment test counts any zero product.
    assert_eq!(
        scan_crossings(&heights, CrossingPolicy::Product),
        CrossingScan::One { index: 0 }
    );
    let heights = vec![Ok(0), Ok(5)];
    assert_eq!(
        scan_crossings(&heights, CrossingPolicy::Ordered),
        CrossingScan::One { index: 0 }
    );
}

#[test]
fn chief_ray_starts_at_object_top() {
    let system = example_system();
    let solution = system.find_chief_ray().unwrap();
    let Ray { origin, direction } = solution.ray;
    assert_eq!(origin, Vec3 { x: 0, y: SCALE, z: -2 * SCALE });
    // The chief ray of this system points slightly below the axis.
    assert!(direction.y < 0 && direction.z > 0);
}
