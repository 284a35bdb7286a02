//! Pairing each step of a route with the slice of its leg's flat
//! telemetry that belongs to it.
//!
//! A step's share of the telemetry is determined by decoding its
//! geometry: a path of `c` coordinates covers `c - 1` telemetry samples
//! (one per segment). A running cursor over the flat record assigns each
//! step the inclusive sample range `[cursor, cursor + samples - 1]`; a
//! step whose geometry is absent, fails to decode, or decodes to fewer
//! than two coordinates consumes no samples, and its range ends one
//! before it starts. A range is materialized as an actual slice only
//! when it holds at least two samples and lies inside the record.

use vstd::prelude::*;

use crate::extensions::RouteStepExt;
use crate::json::spec_value_to_string;
use crate::models::Annotation;
use crate::models::Route;
use crate::models::RouteLeg;
use crate::models::RouteStep;
use crate::models::RouteStepBundle;
use crate::utilities::spec_field_text;

verus! {

/// The number of coordinates the polyline codec yields for this encoded
/// path at this precision, or none when decoding fails. Decoding is a
/// pure function of the two, so its outcome can be named.
pub uninterp spec fn spec_decoded_point_count(path: Seq<char>, precision: u32) -> Option<nat>;

/// Relies on `polyline::decode_polyline`: the wrapper decodes and only
/// counts the coordinates of the resulting line string. The codec raises
/// ten to the precision in a 32-bit integer, which panics above nine, so
/// those precisions are left out.
#[verifier::external_body]
fn decoded_point_count(path: &str, precision: u32) -> (r: Option<usize>)
    requires
        precision <= 9,
    ensures
        match r {
            Some(n) => spec_decoded_point_count(path@, precision) == Some(n as nat),
            None => spec_decoded_point_count(path@, precision) is None,
        },
{
    polyline::decode_polyline(path, precision).ok().map(|ls| ls.0.len())
}

/// The steps a leg contributes to the flat step list.
pub open spec fn spec_leg_steps(leg: RouteLeg) -> Seq<RouteStep> {
    match leg.steps {
        Some(s) => s@,
        None => Seq::<RouteStep>::empty(),
    }
}

/// The concatenation of the steps of the first `n` legs.
pub open spec fn spec_flat_steps_prefix(legs: Seq<RouteLeg>, n: int) -> Seq<RouteStep>
    decreases n,
{
    if n <= 0 {
        Seq::<RouteStep>::empty()
    } else {
        spec_flat_steps_prefix(legs, n - 1) + spec_leg_steps(legs[n - 1])
    }
}

/// All steps of the route, legs in order.
pub open spec fn spec_flat_steps(route: Route) -> Seq<RouteStep> {
    match route.legs {
        Some(l) => spec_flat_steps_prefix(l@, l@.len() as int),
        None => Seq::<RouteStep>::empty(),
    }
}

/// The first telemetry record found among the legs, as the bundler uses
/// it for every step of the route.
pub open spec fn spec_first_annotation(legs: Seq<RouteLeg>) -> Option<Annotation>
    decreases legs.len(),
{
    if legs.len() == 0 {
        None
    } else if legs[0].annotation is Some {
        legs[0].annotation
    } else {
        spec_first_annotation(legs.drop_first())
    }
}

/// How many telemetry samples a step consumes: one less than its decoded
/// coordinate count, and zero when the geometry is absent, fails to
/// decode, or yields fewer than two coordinates.
pub open spec fn spec_step_samples(step: RouteStep, precision: u32) -> int {
    match spec_field_text(step.geometry, "geometry"@) {
        None => 0,
        Some(g) => match spec_decoded_point_count(g, precision) {
            None => 0,
            Some(c) => if c >= 2 {
                c - 1
            } else {
                0
            },
        },
    }
}

/// The cursor position before step `n`: the total number of samples the
/// first `n` steps consume.
pub open spec fn spec_cursor(steps: Seq<RouteStep>, precision: u32, n: int) -> int
    decreases n,
{
    if n <= 0 {
        0
    } else {
        spec_cursor(steps, precision, n - 1) + spec_step_samples(steps[n - 1], precision)
    }
}

/// The cursor never moves backwards.
pub proof fn lemma_cursor_monotone(steps: Seq<RouteStep>, precision: u32, i: int, j: int)
    requires
        0 <= i <= j,
    ensures
        spec_cursor(steps, precision, i) <= spec_cursor(steps, precision, j),
    decreases j - i,
{
    if i < j {
        lemma_cursor_monotone(steps, precision, i, j - 1);
    }
}

/// Bundler index contiguity: with the inclusive sample ranges
/// `[cursor(i), cursor(i+1) - 1]` that the bundles carry, each step's
/// range begins one past where the previous one ends, the first begins
/// at zero, and together they tile `[0, total - 1]` with no gaps and no
/// overlaps.
pub proof fn lemma_bundle_ranges_tile(steps: Seq<RouteStep>, precision: u32)
    ensures
        spec_cursor(steps, precision, 0) == 0,
        forall|i: int|
            0 <= i < steps.len() ==> #[trigger] spec_cursor(steps, precision, i + 1)
                == spec_cursor(steps, precision, i) + spec_step_samples(steps[i], precision),
        forall|i: int|
            0 <= i < steps.len() ==> spec_cursor(steps, precision, i) <= #[trigger] spec_cursor(
                steps,
                precision,
                i + 1,
            ) <= spec_cursor(steps, precision, steps.len() as int),
{
    assert forall|i: int| 0 <= i < steps.len() implies spec_cursor(steps, precision, i)
        <= #[trigger] spec_cursor(steps, precision, i + 1) <= spec_cursor(
        steps,
        precision,
        steps.len() as int,
    ) by {
        lemma_cursor_monotone(steps, precision, i, i + 1);
        lemma_cursor_monotone(steps, precision, i + 1, steps.len() as int);
    }
}

/// How one sliced sequence relates to its source: present in the slice
/// exactly when present in the source and long enough to cover the
/// inclusive range `[start, end]`, and then equal to that range's
/// elements.
pub open spec fn spec_slice_matches<T>(
    src: Option<Vec<T>>,
    start: int,
    end: int,
    out: Option<Vec<T>>,
) -> bool {
    match src {
        None => out is None,
        Some(v) => if 0 <= start && end < v@.len() {
            out matches Some(o) && o@ == v@.subrange(start, end + 1)
        } else {
            out is None
        },
    }
}

/// How a telemetry slice relates to its source record: no slice at all
/// unless the inclusive range `[start, end]` holds at least two samples
/// (`start < end`), and otherwise a record whose parallel sequences are
/// all cut to that range and whose metadata is carried over whole.
pub open spec fn spec_annotation_slice_rel(
    a: Annotation,
    start: int,
    end: int,
    out: Option<Annotation>,
) -> bool {
    if start >= end {
        out is None
    } else {
        &&& out matches Some(o)
        &&& spec_slice_matches(a.distance, start, end, o.distance)
        &&& spec_slice_matches(a.duration, start, end, o.duration)
        &&& spec_slice_matches(a.datasources, start, end, o.datasources)
        &&& spec_slice_matches(a.nodes, start, end, o.nodes)
        &&& spec_slice_matches(a.weight, start, end, o.weight)
        &&& spec_slice_matches(a.speed, start, end, o.speed)
        &&& spec_slice_matches(a.maxspeed, start, end, o.maxspeed)
        &&& (o.metadata is Some <==> a.metadata is Some)
        &&& (o.metadata matches Some(m) ==> m.names_view() == a.metadata.unwrap().names_view())
    }
}

fn subvec<T: Copy>(v: &Vec<T>, start: usize, end: usize) -> (r: Vec<T>)
    requires
        start <= end <= v@.len(),
    ensures
        r@ == v@.subrange(start as int, end as int),
{
    let mut r: Vec<T> = Vec::new();
    let mut i: usize = start;
    while i < end
        invariant
            start <= i <= end <= v@.len(),
            r@.len() == i - start,
            forall|j: int| 0 <= j < r@.len() ==> r@[j] == v@[start + j],
        decreases end - i,
    {
        r.push(v[i]);
        i = i + 1;
    }
    proof {
        assert(r@ =~= v@.subrange(start as int, end as int));
    }
    r
}

fn slice_opt<T: Copy>(v: &Option<Vec<T>>, start: i64, end: i64) -> (r: Option<Vec<T>>)
    requires
        start < end,
    ensures
        spec_slice_matches(*v, start as int, end as int, r),
{
    match v {
        None => None,
        Some(vec) => {
            if 0 <= start && (end as u64) < (vec.len() as u64) {
                let s = start as usize;
                let e = end as usize;
                Some(subvec(vec, s, e + 1))
            } else {
                None
            }
        },
    }
}

/// Cuts the inclusive sample range `[start_index, end_index]` out of
/// every parallel sequence of the record at once; metadata is carried
/// over whole, not sliced. A range holding fewer than two samples
/// (`start_index >= end_index`), like any reversed range, yields no
/// slice at all.
pub fn get_annotation_slice(
    annotations: Option<&Annotation>,
    start_index: i64,
    end_index: i64,
) -> (r: Option<Annotation>)
    requires
        annotations matches Some(a) ==> a.wf(),
    ensures
        match annotations {
            None => r is None,
            Some(a) => spec_annotation_slice_rel(*a, start_index as int, end_index as int, r),
        },
        r matches Some(o) ==> o.wf(),
{
    if start_index >= end_index {
        return None;
    }
    match annotations {
        None => None,
        Some(ann) => {
            let out = Annotation {
                distance: slice_opt(&ann.distance, start_index, end_index),
                duration: slice_opt(&ann.duration, start_index, end_index),
                datasources: slice_opt(&ann.datasources, start_index, end_index),
                nodes: slice_opt(&ann.nodes, start_index, end_index),
                weight: slice_opt(&ann.weight, start_index, end_index),
                speed: slice_opt(&ann.speed, start_index, end_index),
                maxspeed: slice_opt(&ann.maxspeed, start_index, end_index),
                metadata: match &ann.metadata {
                    None => None,
                    Some(m) => Some(m.clone()),
                },
            };
            Some(out)
        },
    }
}

/// The per-bundle guarantee of `get_step_bundles`: the bundle borrows the
/// route's `i`-th step, its inclusive range runs from the cursor before
/// the step to one before the cursor after it, and its telemetry slice
/// relates to the route's first telemetry record as
/// `spec_annotation_slice_rel` describes.
pub open spec fn spec_bundle_ok<'a>(
    route: Route,
    precision: u32,
    b: RouteStepBundle<'a>,
    i: int,
) -> bool {
    let steps = spec_flat_steps(route);
    &&& *b.step == steps[i]
    &&& b.start_index == spec_cursor(steps, precision, i)
    &&& b.end_index == spec_cursor(steps, precision, i + 1) - 1
    &&& match spec_first_annotation(route.legs.unwrap()@) {
        None => b.annotation is None,
        Some(a) => spec_annotation_slice_rel(
            a,
            b.start_index as int,
            b.end_index as int,
            b.annotation,
        ),
    }
}

proof fn lemma_flat_steps_wf(legs: Seq<RouteLeg>, n: int)
    requires
        0 <= n <= legs.len(),
        forall|i: int| 0 <= i < legs.len() ==> (#[trigger] legs[i]).wf(),
    ensures
        forall|k: int|
            0 <= k < spec_flat_steps_prefix(legs, n).len() ==> (#[trigger] spec_flat_steps_prefix(
                legs,
                n,
            )[k]).wf(),
    decreases n,
{
    if n > 0 {
        lemma_flat_steps_wf(legs, n - 1);
        assert(legs[n - 1].wf());
        let prev = spec_flat_steps_prefix(legs, n - 1);
        let cur = spec_leg_steps(legs[n - 1]);
        assert forall|k: int|
            0 <= k < spec_flat_steps_prefix(legs, n).len() implies (#[trigger] spec_flat_steps_prefix(
            legs,
            n,
        )[k]).wf() by {
            if k < prev.len() {
                assert(prev[k].wf());
            } else {
                assert(spec_flat_steps_prefix(legs, n)[k] == cur[k - prev.len()]);
                match legs[n - 1].steps {
                    Some(s) => {
                        assert(s@[k - prev.len()].wf());
                    },
                    None => {},
                }
            }
        }
    }
}

proof fn lemma_first_annotation_wf(legs: Seq<RouteLeg>)
    requires
        forall|i: int| 0 <= i < legs.len() ==> (#[trigger] legs[i]).wf(),
    ensures
        spec_first_annotation(legs) matches Some(a) ==> a.wf(),
    decreases legs.len(),
{
    if legs.len() > 0 {
        assert(legs[0].wf());
        if !(legs[0].annotation is Some) {
            assert(forall|i: int|
                0 <= i < legs.drop_first().len() ==> (#[trigger] legs.drop_first()[i]).wf());
            lemma_first_annotation_wf(legs.drop_first());
        }
    }
}

/// Decodes each step's geometry to count its telemetry samples and pairs
/// the step with its inclusive sample range and, where one applies, its
/// telemetry slice. Returns none when the route has no legs, or when the
/// sample count overflows the signed index space.
pub fn get_step_bundles<'a>(route: &'a Route, polyline_precision: u32) -> (r: Option<
    Vec<RouteStepBundle<'a>>,
>)
    requires
        route.wf(),
        polyline_precision <= 9,
    ensures
        match r {
            None => route.legs is None || spec_cursor(
                spec_flat_steps(*route),
                polyline_precision,
                spec_flat_steps(*route).len() as int,
            ) > i64::MAX,
            Some(bundles) => {
                &&& route.legs is Some
                &&& bundles@.len() == spec_flat_steps(*route).len()
                &&& forall|i: int|
                    0 <= i < bundles@.len() ==> spec_bundle_ok(
                        *route,
                        polyline_precision,
                        #[trigger] bundles@[i],
                        i,
                    )
                &&& forall|i: int| 0 <= i < bundles@.len() ==> (#[trigger] bundles@[i]).wf()
            },
        },
{
    let legs = match &route.legs {
        None => {
            return None;
        },
        Some(l) => l,
    };
    let ghost legs_seq = legs@;

    // The one telemetry record the bundler reads: the first among the legs.
    let mut first_ann: Option<&Annotation> = None;
    let mut li: usize = 0;
    proof {
        assert(legs_seq.skip(0) =~= legs_seq);
    }
    while li < legs.len()
        invariant
            0 <= li <= legs.len(),
            legs_seq == legs@,
            first_ann is None ==> spec_first_annotation(legs_seq) == spec_first_annotation(
                legs_seq.skip(li as int),
            ),
            first_ann matches Some(a) ==> spec_first_annotation(legs_seq) matches Some(sa) && *a
                == sa,
        decreases legs.len() - li,
    {
        if first_ann.is_none() {
            match &legs[li].annotation {
                Some(a) => {
                    proof {
                        assert(legs_seq.skip(li as int)[0] == legs_seq[li as int]);
                    }
                    first_ann = Some(a);
                },
                None => {
                    proof {
                        assert(legs_seq.skip(li as int)[0] == legs_seq[li as int]);
                        assert(legs_seq.skip(li as int).drop_first() =~= legs_seq.skip(
                            li as int + 1,
                        ));
                    }
                },
            }
        }
        li = li + 1;
    }
    proof {
        if first_ann is None {
            assert(legs_seq.skip(legs_seq.len() as int) =~= Seq::<RouteLeg>::empty());
        }
        lemma_first_annotation_wf(legs_seq);
    }

    // Flatten the legs' steps, borrowing each step in order.
    let mut refs: Vec<&RouteStep> = Vec::new();
    let mut li2: usize = 0;
    while li2 < legs.len()
        invariant
            0 <= li2 <= legs.len(),
            legs_seq == legs@,
            refs@.len() == spec_flat_steps_prefix(legs_seq, li2 as int).len(),
            forall|k: int|
                0 <= k < refs@.len() ==> *(#[trigger] refs@[k]) == spec_flat_steps_prefix(
                    legs_seq,
                    li2 as int,
                )[k],
        decreases legs.len() - li2,
    {
        let ghost prev = spec_flat_steps_prefix(legs_seq, li2 as int);
        match &legs[li2].steps {
            None => {
                proof {
                    assert(spec_flat_steps_prefix(legs_seq, li2 as int + 1) =~= prev);
                }
            },
            Some(steps) => {
                let mut j: usize = 0;
                while j < steps.len()
                    invariant
                        0 <= j <= steps.len(),
                        0 <= li2 < legs_seq.len(),
                        steps@ == spec_leg_steps(legs_seq[li2 as int]),
                        prev == spec_flat_steps_prefix(legs_seq, li2 as int),
                        refs@.len() == prev.len() + j,
                        forall|k: int|
                            0 <= k < prev.len() ==> *(#[trigger] refs@[k]) == prev[k],
                        forall|k: int|
                            prev.len() <= k < refs@.len() ==> *(#[trigger] refs@[k]) == steps@[k
                                - prev.len()],
                    decreases steps.len() - j,
                {
                    refs.push(&steps[j]);
                    j = j + 1;
                }
                proof {
                    assert(spec_flat_steps_prefix(legs_seq, li2 as int + 1) =~= prev
                        + spec_leg_steps(legs_seq[li2 as int]));
                }
            },
        }
        li2 = li2 + 1;
    }
    let ghost flat = spec_flat_steps(*route);
    proof {
        assert(flat =~= spec_flat_steps_prefix(legs_seq, legs_seq.len() as int));
        lemma_flat_steps_wf(legs_seq, legs_seq.len() as int);
    }

    // Walk the flat steps, assigning each its sample range and slice.
    let mut bundles: Vec<RouteStepBundle<'a>> = Vec::new();
    let mut cursor: u64 = 0;
    let mut k: usize = 0;
    while k < refs.len()
        invariant
            0 <= k <= refs.len(),
            refs@.len() == flat.len(),
            forall|m: int| 0 <= m < refs@.len() ==> *(#[trigger] refs@[m]) == flat[m],
            forall|m: int| 0 <= m < flat.len() ==> (#[trigger] flat[m]).wf(),
            route.legs is Some,
            legs_seq == route.legs.unwrap()@,
            flat == spec_flat_steps(*route),
            first_ann is None ==> spec_first_annotation(legs_seq) is None,
            first_ann matches Some(a) ==> spec_first_annotation(legs_seq) matches Some(sa) && *a
                == sa && sa.wf(),
            bundles@.len() == k,
            polyline_precision <= 9,
            cursor <= i64::MAX,
            cursor == spec_cursor(flat, polyline_precision, k as int),
            forall|i: int|
                0 <= i < k ==> spec_bundle_ok(
                    *route,
                    polyline_precision,
                    #[trigger] bundles@[i],
                    i,
                ),
            forall|i: int| 0 <= i < k ==> (#[trigger] bundles@[i]).wf(),
        decreases refs.len() - k,
    {
        let step: &RouteStep = refs[k];
        let geometry_text: Option<String> = match step.geometry_string() {
            Ok(o) => o,
            Err(_) => None,
        };
        let count: usize = match geometry_text {
            None => 0,
            Some(g) => {
                match decoded_point_count(g.as_str(), polyline_precision) {
                    None => 0,
                    Some(c) => c,
                }
            },
        };
        let samples: usize = if count >= 2 {
            count - 1
        } else {
            0
        };
        proof {
            assert(spec_step_samples(flat[k as int], polyline_precision) == samples as int);
        }
        let samples_u64: u64 = samples as u64;
        if samples_u64 > i64::MAX as u64 - cursor {
            proof {
                lemma_cursor_monotone(flat, polyline_precision, k as int + 1, flat.len() as int);
            }
            return None;
        }
        let start_index: i64 = cursor as i64;
        let end_index: i64 = start_index + samples_u64 as i64 - 1;
        let annotation = get_annotation_slice(first_ann, start_index, end_index);
        bundles.push(RouteStepBundle { step, annotation, start_index, end_index });
        cursor = cursor + samples_u64;
        k = k + 1;
    }
    Some(bundles)
}

} // verus!
