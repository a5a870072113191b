//! The root search: narrow a bracket of directions around a sign change of
//! the fan height until the height at the crossing sample is within
//! tolerance, the iteration cap is reached, or no crossing remains and the
//! bracket midpoint is returned as a best-effort answer. Finding more than
//! one crossing violates the single-crossing assumption and is fatal.

use vstd::prelude::*;
use crate::fan;
use crate::fan::fan_direction;
use crate::fan::s_fan_dir;
use crate::fan::s_fan_sample;
use crate::fixed::HALF;
use crate::ray::Ray;
use crate::raytracing::TraceError;
use crate::system::System;
use crate::vector::Vec3;
use crate::vector::s_v_lerp;
use crate::vector::s_v_norm;
use crate::vector::v_lerp;
use crate::vector::v_norm;

verus! {

/// Height within which a crossing sample counts as converged: one
/// millionth of a unit.
pub const TOLERANCE: i64 = 1_000;

/// The iteration cap of the root search.
pub const MAX_ITERATIONS: u32 = 128;

/// How many rays each chief-ray search iteration samples across the
/// bracket.
pub const CHIEF_RAY_RESOLUTION: u32 = 1024;

/// How consecutive fan samples are tested for a sign change.
#[derive(Clone, Copy, Debug, PartialEq, Eq, Structural)]
pub enum CrossingPolicy {
    /// Within-segment test `a * b <= 0`: an exact zero on either side
    /// counts, as does a true crossing. Used by the general fan search.
    Product,
    /// Ordered-boundary test: `a <= 0 < b` when `a < b`, else
    /// `b <= 0 < a`. Rules out a zero lower bound being counted twice;
    /// used by the high-resolution chief-ray solve.
    Ordered,
}

/// What a crossing scan over one fan response finds.
#[derive(Clone, Copy, Debug, PartialEq, Eq, Structural)]
pub enum CrossingScan {
    /// No adjacent pair of successful samples changes sign.
    NoCrossing,
    /// Exactly one crossing, between samples `index` and `index + 1`.
    One { index: usize },
    /// Two or more crossings: the height is not single-crossing here.
    Multiple,
}

/// Adjacent samples `k` and `k + 1` are both successfully traced and their
/// heights change sign under the policy.
pub open spec fn s_is_crossing(
    hs: Seq<Result<i64, TraceError>>,
    policy: CrossingPolicy,
    k: int,
) -> bool {
    &&& 0 <= k
    &&& k + 1 < hs.len()
    &&& hs[k] is Ok
    &&& hs[k + 1] is Ok
    &&& {
        let a = hs[k]->Ok_0;
        let b = hs[k + 1]->Ok_0;
        match policy {
            CrossingPolicy::Product => (a as int) * (b as int) <= 0,
            CrossingPolicy::Ordered => if a < b {
                a <= 0 && 0 < b
            } else {
                b <= 0 && 0 < a
            },
        }
    }
}

/// What a scan of a height sequence finds: no crossing, the unique one, or
/// several.
pub open spec fn s_scan(hs: Seq<Result<i64, TraceError>>, policy: CrossingPolicy) -> CrossingScan {
    if !(exists|k: int| s_is_crossing(hs, policy, k)) {
        CrossingScan::NoCrossing
    } else if exists|k1: int, k2: int|
        k1 != k2 && s_is_crossing(hs, policy, k1) && s_is_crossing(hs, policy, k2) {
        CrossingScan::Multiple
    } else {
        CrossingScan::One { index: (choose|k: int| s_is_crossing(hs, policy, k)) as usize }
    }
}

/// Executable crossing test for one adjacent pair.
fn is_crossing_at(heights: &Vec<Result<i64, TraceError>>, policy: CrossingPolicy, k: usize) -> (b:
    bool)
    requires
        k + 1 < heights@.len(),
    ensures
        b == s_is_crossing(heights@, policy, k as int),
{
    let n = heights.len();
    assert(k + 1 < n);
    let ha = heights[k];
    let hb = heights[k + 1];
    match (ha, hb) {
        (Ok(a), Ok(b)) => match policy {
            CrossingPolicy::Product => {
                proof {
                    vstd::arithmetic::mul::lemma_mul_upper_bound(
                        crate::fixed::iabs(a as int),
                        0x8000000000000000,
                        crate::fixed::iabs(b as int),
                        0x8000000000000000,
                    );
                    crate::fixed::lemma_iabs_mul(a as int, b as int);
                }
                (a as i128) * (b as i128) <= 0
            },
            CrossingPolicy::Ordered => if a < b {
                a <= 0 && 0 < b
            } else {
                b <= 0 && 0 < a
            },
        },
        _ => false,
    }
}

/// Scans a fan response for sign changes between adjacent successful
/// samples: reports none, the unique one, or that several exist.
pub fn scan_crossings(heights: &Vec<Result<i64, TraceError>>, policy: CrossingPolicy) -> (r:
    CrossingScan)
    ensures
        r == s_scan(heights@, policy),
{
    let n = heights.len();
    let mut found: Option<usize> = None;
    let mut k: usize = 0;
    if n < 2 {
        return CrossingScan::NoCrossing;
    }
    while k < n - 1
        invariant
            n == heights@.len(),
            2 <= n,
            k <= n - 1,
            match found {
                None => forall|j: int| j < k as int ==> !s_is_crossing(heights@, policy, j),
                Some(f) => {
                    &&& (f as int) < k as int
                    &&& s_is_crossing(heights@, policy, f as int)
                    &&& forall|j: int|
                        j < k as int && j != f as int ==> !s_is_crossing(heights@, policy, j)
                },
            },
        decreases n - k,
    {
        let crossing = is_crossing_at(heights, policy, k);
        if crossing {
            match found {
                None => {
                    found = Some(k);
                },
                Some(f) => {
                    proof {
                        assert(s_is_crossing(heights@, policy, f as int));
                        assert(s_is_crossing(heights@, policy, k as int));
                        assert(f as int != k as int);
                    }
                    return CrossingScan::Multiple;
                },
            }
        }
        k = k + 1;
    }
    match found {
        None => {
            proof {
                assert forall|j: int| !s_is_crossing(heights@, policy, j) by {
                    if j >= k as int {
                        assert(j + 1 >= heights@.len());
                    }
                }
            }
            CrossingScan::NoCrossing
        },
        Some(f) => {
            proof {
                assert forall|j: int| j != f as int implies !s_is_crossing(
                    heights@,
                    policy,
                    j,
                ) by {
                    if j >= k as int {
                        assert(j + 1 >= heights@.len());
                    }
                }
                let c = choose|j: int| s_is_crossing(heights@, policy, j);
                assert(s_is_crossing(heights@, policy, f as int));
                assert(s_is_crossing(heights@, policy, c));
                assert(c == f as int);
            }
            CrossingScan::One { index: f }
        },
    }
}

/// Which terminal state the root search reached. The three outcomes are
/// mutually exclusive by construction: `Converged` holds exactly when the
/// crossing height met the tolerance, `IterationCap` exactly when it did
/// not but the cap was passed, `MidpointFallback` exactly when the final
/// bracket had no crossing at all.
#[derive(Clone, Copy, Debug, PartialEq, Eq, Structural)]
pub enum SearchOutcome {
    /// The height at the crossing sample is within `TOLERANCE` of zero.
    Converged { height: i64 },
    /// The iteration cap was passed before the tolerance was met; `height`
    /// is the last crossing height seen.
    IterationCap { height: i64 },
    /// No sign change in the bracket: the returned direction is the
    /// bracket midpoint, a best-effort answer.
    MidpointFallback,
}

/// A solved chief ray and how the search terminated.
#[derive(Clone, Copy, Debug, PartialEq, Eq, Structural)]
pub struct ChiefRay {
    pub ray: Ray,
    pub outcome: SearchOutcome,
}

/// A fatal root-search failure.
#[derive(Clone, Copy, Debug, PartialEq, Eq, Structural)]
pub enum SearchError {
    /// More than one crossing in a bracket presumed single-crossing: the
    /// monotonicity assumption is violated, the search aborts.
    MultipleCrossings,
    /// The bracket geometry degenerated: an edge, an interpolated
    /// direction or a midpoint could not be computed in range.
    Degenerate,
}

/// The heights of a whole fan at the chief-ray resolution, as a sequence.
pub open spec fn s_fan_heights(
    sys: System,
    origin: Vec3,
    dir_a: Vec3,
    dir_b: Vec3,
    resolution: u32,
) -> Seq<Result<i64, TraceError>> {
    Seq::new(resolution as nat, |i: int| s_fan_sample(sys, origin, dir_a, dir_b, resolution, i as u32))
}

/// The bracket midpoint direction: normalized interpolation at one half.
pub open spec fn s_mid_dir(dir_a: Vec3, dir_b: Vec3) -> Option<Vec3> {
    match s_v_lerp(dir_a, dir_b, HALF) {
        None => None,
        Some(v) => s_v_norm(v),
    }
}

/// One round of the chief-ray search, and all the rounds after it: sample
/// a fan across the bracket, scan it with the ordered-boundary test, and
/// either terminate or narrow the bracket to the crossing segment and
/// recurse.
pub open spec fn s_chief_loop(sys: System, origin: Vec3, dir_a: Vec3, dir_b: Vec3, iter: u32)
    -> Result<ChiefRay, SearchError>
    decreases 130 - iter,
{
    let hs = s_fan_heights(sys, origin, dir_a, dir_b, CHIEF_RAY_RESOLUTION);
    match s_scan(hs, CrossingPolicy::Ordered) {
        CrossingScan::Multiple => Err(SearchError::MultipleCrossings),
        CrossingScan::NoCrossing => match s_mid_dir(dir_a, dir_b) {
            None => Err(SearchError::Degenerate),
            Some(d) => Ok(
                ChiefRay {
                    ray: Ray { origin, direction: d },
                    outcome: SearchOutcome::MidpointFallback,
                },
            ),
        },
        CrossingScan::One { index } => {
            let h = hs[index as int]->Ok_0;
            match (
                s_fan_dir(dir_a, dir_b, CHIEF_RAY_RESOLUTION, index as u32),
                s_fan_dir(dir_a, dir_b, CHIEF_RAY_RESOLUTION, (index + 1) as u32),
            ) {
                (Some(narrow_a), Some(narrow_b)) => if -TOLERANCE < h && h < TOLERANCE {
                    Ok(
                        ChiefRay {
                            ray: Ray { origin, direction: narrow_a },
                            outcome: SearchOutcome::Converged { height: h },
                        },
                    )
                } else if iter > MAX_ITERATIONS {
                    Ok(
                        ChiefRay {
                            ray: Ray { origin, direction: narrow_a },
                            outcome: SearchOutcome::IterationCap { height: h },
                        },
                    )
                } else {
                    s_chief_loop(sys, origin, narrow_a, narrow_b, (iter + 1) as u32)
                },
                _ => Err(SearchError::Degenerate),
            }
        },
    }
}

/// What the whole chief-ray solve returns: the initial bracket spans the
/// first surface's aperture edges as seen from the object's top point, and
/// the loop narrows it from there.
pub open spec fn s_find_chief_ray(sys: System) -> Result<ChiefRay, SearchError> {
    let origin = Vec3 {
        x: 0i64,
        y: sys.object.semi_diameter,
        z: (-(sys.object.distance as int)) as i64,
    };
    match crate::system::s_surface_edges(sys, 0) {
        None => Err(SearchError::Degenerate),
        Some((top_edge, bottom_edge)) => match (
            crate::vector::s_v_sub(top_edge, origin),
            crate::vector::s_v_sub(bottom_edge, origin),
        ) {
            (Some(va), Some(vb)) => match (s_v_norm(va), s_v_norm(vb)) {
                (Some(da), Some(db)) => s_chief_loop(sys, origin, da, db, 0),
                _ => Err(SearchError::Degenerate),
            },
            _ => Err(SearchError::Degenerate),
        },
    }
}

/// The search outcome is faithful: a `Converged` result carries a height
/// strictly within tolerance, an `IterationCap` result one that is not.
/// Together with the enum itself this makes the three terminal outcomes
/// mutually exclusive and exhaustive.
pub proof fn lemma_chief_outcomes(sys: System, origin: Vec3, dir_a: Vec3, dir_b: Vec3, iter: u32)
    ensures
        match s_chief_loop(sys, origin, dir_a, dir_b, iter) {
            Ok(c) => match c.outcome {
                SearchOutcome::Converged { height } => -TOLERANCE < height < TOLERANCE,
                SearchOutcome::IterationCap { height } => !(-TOLERANCE < height < TOLERANCE),
                SearchOutcome::MidpointFallback => true,
            },
            Err(_) => true,
        },
    decreases 130 - iter,
{
    let hs = s_fan_heights(sys, origin, dir_a, dir_b, CHIEF_RAY_RESOLUTION);
    match s_scan(hs, CrossingPolicy::Ordered) {
        CrossingScan::Multiple => {},
        CrossingScan::NoCrossing => {},
        CrossingScan::One { index } => {
            let h = hs[index as int]->Ok_0;
            match (
                s_fan_dir(dir_a, dir_b, CHIEF_RAY_RESOLUTION, index as u32),
                s_fan_dir(dir_a, dir_b, CHIEF_RAY_RESOLUTION, (index + 1) as u32),
            ) {
                (Some(narrow_a), Some(narrow_b)) => {
                    if !(-TOLERANCE < h && h < TOLERANCE) && !(iter > MAX_ITERATIONS) {
                        lemma_chief_outcomes(sys, origin, narrow_a, narrow_b, (iter + 1) as u32);
                    }
                },
                _ => {},
            }
        },
    }
}

/// A degenerate bracket (both directions equal) ends the search in its
/// first round: every fan sample is identical, the ordered-boundary test
/// finds no crossing, and the midpoint fallback is returned at once (or a
/// degenerate-geometry error where even the midpoint cannot be computed).
pub proof fn lemma_chief_degenerate(sys: System, origin: Vec3, d: Vec3, iter: u32)
    ensures
        s_chief_loop(sys, origin, d, d, iter) == match s_mid_dir(d, d) {
            None => Err::<ChiefRay, SearchError>(SearchError::Degenerate),
            Some(m) => Ok::<ChiefRay, SearchError>(
                ChiefRay {
                    ray: Ray { origin, direction: m },
                    outcome: SearchOutcome::MidpointFallback,
                },
            ),
        },
{
    let hs = s_fan_heights(sys, origin, d, d, CHIEF_RAY_RESOLUTION);
    assert forall|k: int| !s_is_crossing(hs, CrossingPolicy::Ordered, k) by {
        if 0 <= k && k + 1 < hs.len() {
            fan::lemma_fan_degenerate(
                sys,
                origin,
                d,
                CHIEF_RAY_RESOLUTION,
                k as u32,
                (k + 1) as u32,
            );
            assert(hs[k] == hs[k + 1]);
        }
    }
    assert(s_scan(hs, CrossingPolicy::Ordered) == CrossingScan::NoCrossing);
}

impl System {
    /// Locates the chief ray: the ray from the object's top point whose
    /// height at the final surface crosses zero. Starts from the bracket
    /// spanned by the first surface's aperture edges, narrows it around
    /// the unique ordered-boundary crossing of a high-resolution fan each
    /// round, and terminates on tolerance, on the iteration cap, or by the
    /// midpoint fallback when no crossing remains. More than one crossing
    /// is a fatal monotonicity violation, never retried.
    pub fn find_chief_ray(&self) -> (r: Result<ChiefRay, SearchError>)
        requires
            self.object.distance >= 0,
        ensures
            r == s_find_chief_ray(*self),
            (r matches Ok(c) ==> match c.outcome {
                SearchOutcome::Converged { height } => -TOLERANCE < height < TOLERANCE,
                SearchOutcome::IterationCap { height } => !(-TOLERANCE < height < TOLERANCE),
                SearchOutcome::MidpointFallback => true,
            }),
    {
        let origin = self.object.top();
        let edges = match self.surface_edges(0) {
            Some(e) => e,
            None => return Err(SearchError::Degenerate),
        };
        let va = match crate::vector::v_sub(edges.0, origin) {
            Some(v) => v,
            None => return Err(SearchError::Degenerate),
        };
        let vb = match crate::vector::v_sub(edges.1, origin) {
            Some(v) => v,
            None => return Err(SearchError::Degenerate),
        };
        let mut dir_a = match v_norm(va) {
            Some(v) => v,
            None => return Err(SearchError::Degenerate),
        };
        let mut dir_b = match v_norm(vb) {
            Some(v) => v,
            None => return Err(SearchError::Degenerate),
        };
        let mut iter: u32 = 0;
        proof {
            lemma_chief_outcomes(*self, origin, dir_a, dir_b, 0);
        }
        loop
            invariant
                iter <= 129,
                self.object.distance >= 0,
                s_find_chief_ray(*self) == s_chief_loop(*self, origin, dir_a, dir_b, iter),
                match s_chief_loop(*self, origin, dir_a, dir_b, iter) {
                    Ok(c) => match c.outcome {
                        SearchOutcome::Converged { height } => -TOLERANCE < height < TOLERANCE,
                        SearchOutcome::IterationCap { height } => !(-TOLERANCE < height
                            < TOLERANCE),
                        SearchOutcome::MidpointFallback => true,
                    },
                    Err(_) => true,
                },
            decreases 130 - iter,
        {
            let response = self.fan(
                &fan::Query {
                    origin,
                    dir_a,
                    dir_b,
                    resolution: CHIEF_RAY_RESOLUTION,
                },
            );
            let ghost hs = s_fan_heights(*self, origin, dir_a, dir_b, CHIEF_RAY_RESOLUTION);
            proof {
                assert(response.heights@ =~= hs);
            }
            match scan_crossings(&response.heights, CrossingPolicy::Ordered) {
                CrossingScan::Multiple => {
                    return Err(SearchError::MultipleCrossings);
                },
                CrossingScan::NoCrossing => {
                    let v = match v_lerp(dir_a, dir_b, HALF) {
                        Some(v) => v,
                        None => return Err(SearchError::Degenerate),
                    };
                    let d = match v_norm(v) {
                        Some(v) => v,
                        None => return Err(SearchError::Degenerate),
                    };
                    return Ok(
                        ChiefRay {
                            ray: Ray { origin, direction: d },
                            outcome: SearchOutcome::MidpointFallback,
                        },
                    );
                },
                CrossingScan::One { index } => {
                    proof {
                        let c = choose|k: int|
                            s_is_crossing(hs, CrossingPolicy::Ordered, k);
                        assert(s_is_crossing(hs, CrossingPolicy::Ordered, c));
                        assert(c == index as int);
                    }
                    // A crossing is only ever reported between successfully
                    // traced samples, so this slot holds a height.
                    let h = match response.heights[index] {
                        Ok(v) => v,
                        Err(_) => {
                            proof {
                                assert(false);
                            }
                            return Err(SearchError::Degenerate);
                        },
                    };
                    let narrow_a = match fan_direction(
                        dir_a,
                        dir_b,
                        CHIEF_RAY_RESOLUTION,
                        index as u32,
                    ) {
                        Some(v) => v,
                        None => return Err(SearchError::Degenerate),
                    };
                    let narrow_b = match fan_direction(
                        dir_a,
                        dir_b,
                        CHIEF_RAY_RESOLUTION,
                        (index + 1) as u32,
                    ) {
                        Some(v) => v,
                        None => return Err(SearchError::Degenerate),
                    };
                    if -TOLERANCE < h && h < TOLERANCE {
                        return Ok(
                            ChiefRay {
                                ray: Ray { origin, direction: narrow_a },
                                outcome: SearchOutcome::Converged { height: h },
                            },
                        );
                    }
                    if iter > MAX_ITERATIONS {
                        return Ok(
                            ChiefRay {
                                ray: Ray { origin, direction: narrow_a },
                                outcome: SearchOutcome::IterationCap { height: h },
                            },
                        );
                    }
                    dir_a = narrow_a;
                    dir_b = narrow_b;
                    iter = iter + 1;
                },
            }
        }
    }
}

} // verus!
