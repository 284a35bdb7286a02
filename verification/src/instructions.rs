//! The assembler: walks a whole route and attaches a banner instruction
//! to every step and voice instructions to every step that has a
//! following one.
//!
//! Steps are bundled with their telemetry once per route; within each
//! leg, a step's bundle is looked up by the step's position in the leg,
//! counted from the start of the route's flat step list.

use vstd::prelude::*;

use crate::banner_instruction::BannerInstructionsFactory;
use crate::banner_instruction::spec_banner_ok;
use crate::bundler::get_step_bundles;
use crate::bundler::spec_cursor;
use crate::bundler::spec_flat_steps;
use crate::bundler::spec_flat_steps_prefix;
use crate::bundler::spec_leg_steps;
use crate::models::BannerInstruction;
use crate::models::Route;
use crate::models::RouteLeg;
use crate::models::RouteStep;
use crate::models::VoiceInstruction;
use crate::voice_instructions::VoiceInstructionFactory;

verus! {

/// Earlier flat prefixes are never longer than later ones.
pub proof fn lemma_flat_prefix_len_monotone(legs: Seq<RouteLeg>, i: int, j: int)
    requires
        0 <= i <= j,
    ensures
        spec_flat_steps_prefix(legs, i).len() <= spec_flat_steps_prefix(legs, j).len(),
    decreases j - i,
{
    if i < j {
        lemma_flat_prefix_len_monotone(legs, i, j - 1);
    }
}

/// The fields the assembler never touches are carried over unchanged.
pub open spec fn spec_step_fields_kept(out: RouteStep, orig: RouteStep) -> bool {
    &&& out.distance == orig.distance
    &&& out.geometry == orig.geometry
    &&& out.segment_lengths == orig.segment_lengths
    &&& out.maneuver == orig.maneuver
    &&& out.name == orig.name
    &&& out.reference == orig.reference
    &&& out.destinations == orig.destinations
    &&& out.exits == orig.exits
}

/// What the assembler guarantees for the step at leg-local position `si`:
/// its own fields kept, exactly one banner built from the flat steps at
/// `si` and `si + 1`, and voice instructions attached exactly when a
/// flat step follows at `si + 1` (otherwise the field is left as it
/// was). The flat indices deliberately restart with each leg, as the
/// bundle lookup is by leg-local position.
pub open spec fn spec_step_annotated(
    flat: Seq<RouteStep>,
    si: int,
    orig: RouteStep,
    out: RouteStep,
) -> bool {
    &&& spec_step_fields_kept(out, orig)
    &&& out.banner_instructions matches Some(b) && b@.len() == 1 && spec_banner_ok(
        if si + 1 < flat.len() {
            Some(flat[si + 1])
        } else {
            None
        },
        if si < flat.len() {
            Some(flat[si])
        } else {
            None
        },
        b@[0],
    )
    &&& if si + 1 < flat.len() {
        out.voice_instructions matches Some(v) && forall|i: int|
            0 <= i < v@.len() ==> (#[trigger] v@[i]).ssml_announcement is None
    } else {
        out.voice_instructions == orig.voice_instructions
    }
}

/// What the assembler guarantees for one leg: telemetry kept, step count
/// kept, each step annotated at its leg-local position.
pub open spec fn spec_leg_annotated(flat: Seq<RouteStep>, in_leg: RouteLeg, out_leg: RouteLeg) -> bool {
    &&& out_leg.annotation == in_leg.annotation
    &&& match in_leg.steps {
        None => out_leg.steps is None,
        Some(s) => out_leg.steps matches Some(o) && o@.len() == s@.len() && forall|si: int|
            0 <= si < s@.len() ==> spec_step_annotated(flat, si, s@[si], #[trigger] o@[si]),
    }
}

/// What a successful `apply` guarantees for the whole route.
pub open spec fn spec_apply_ok(route: Route, out: Route) -> bool {
    let flat = spec_flat_steps(route);
    &&& route.legs is Some
    &&& out.legs matches Some(ol) && ol@.len() == route.legs.unwrap()@.len()
    &&& forall|li: int|
        0 <= li < out.legs.unwrap()@.len() ==> spec_leg_annotated(
            flat,
            route.legs.unwrap()@[li],
            #[trigger] out.legs.unwrap()@[li],
        )
}

/// What one planned (banner, voice) pair holds before it is attached.
pub open spec fn spec_pair_ok(
    flat: Seq<RouteStep>,
    si: int,
    pair: (Vec<BannerInstruction>, Option<Vec<VoiceInstruction>>),
) -> bool {
    &&& pair.0@.len() == 1
    &&& spec_banner_ok(
        if si + 1 < flat.len() {
            Some(flat[si + 1])
        } else {
            None
        },
        if si < flat.len() {
            Some(flat[si])
        } else {
            None
        },
        pair.0@[0],
    )
    &&& (pair.1 is Some <==> si + 1 < flat.len())
    &&& (pair.1 matches Some(v) ==> forall|i: int|
        0 <= i < v@.len() ==> (#[trigger] v@[i]).ssml_announcement is None)
}

/// What the planning pass produced for one leg.
pub open spec fn spec_planned_ok(
    flat: Seq<RouteStep>,
    leg: RouteLeg,
    res: Seq<(Vec<BannerInstruction>, Option<Vec<VoiceInstruction>>)>,
) -> bool {
    match leg.steps {
        None => res.len() == 0,
        Some(s) => res.len() == s@.len() && forall|si: int|
            0 <= si < res.len() ==> spec_pair_ok(flat, si, #[trigger] res[si]),
    }
}

/// Attaches voice and banner instructions to every step of a route.
pub struct InstructionsFactory {
    pub polyline_precision: u32,
    pub metric: bool,
}

impl InstructionsFactory {
    /// Builds an assembler for the given polyline precision and unit
    /// system.
    pub fn new(polyline_precision: u32, metric: bool) -> (r: InstructionsFactory)
        ensures
            r.polyline_precision == polyline_precision,
            r.metric == metric,
    {
        InstructionsFactory { polyline_precision, metric }
    }

    /// Annotates every step of the route: one banner each, and voice
    /// instructions wherever a next flat step exists. Returns none when
    /// the route has no legs or its sample count overflows the signed
    /// index space; the input route is otherwise returned annotated,
    /// with all other data unchanged.
    pub fn apply(&self, route: Route) -> (r: Option<Route>)
        requires
            route.wf(),
            self.polyline_precision <= 9,
        ensures
            r is None ==> route.legs is None || spec_cursor(
                spec_flat_steps(route),
                self.polyline_precision,
                spec_flat_steps(route).len() as int,
            ) > i64::MAX,
            r matches Some(out) ==> spec_apply_ok(route, out),
    {
        let ghost flat = spec_flat_steps(route);
        let mut results: Vec<Vec<(Vec<BannerInstruction>, Option<Vec<VoiceInstruction>>)>> =
            Vec::new();

        // Plan every step's instructions while the route is borrowed.
        {
            let bundles = match get_step_bundles(&route, self.polyline_precision) {
                None => {
                    return None;
                },
                Some(b) => b,
            };
            let legs = match &route.legs {
                None => {
                    return None;
                },
                Some(l) => l,
            };
            let ghost legs_seq = legs@;
            let mut li: usize = 0;
            while li < legs.len()
                invariant
                    0 <= li <= legs.len(),
                    legs_seq == legs@,
                    route.legs matches Some(l) && l@ == legs_seq,
                    route.wf(),
                    flat == spec_flat_steps(route),
                    bundles@.len() == flat.len(),
                    forall|i: int|
                        0 <= i < bundles@.len() ==> crate::bundler::spec_bundle_ok(
                            route,
                            self.polyline_precision,
                            #[trigger] bundles@[i],
                            i,
                        ),
                    forall|i: int| 0 <= i < bundles@.len() ==> (#[trigger] bundles@[i]).wf(),
                    results@.len() == li,
                    forall|i: int|
                        0 <= i < li ==> spec_planned_ok(
                            flat,
                            legs_seq[i],
                            (#[trigger] results@[i])@,
                        ),
                decreases legs.len() - li,
            {
                let mut leg_results: Vec<(Vec<BannerInstruction>, Option<Vec<VoiceInstruction>>)> =
                    Vec::new();
                match &legs[li].steps {
                    None => {},
                    Some(steps) => {
                        let ghost leg_steps = steps@;
                        proof {
                            assert(spec_flat_steps_prefix(legs_seq, li as int + 1)
                                =~= spec_flat_steps_prefix(legs_seq, li as int) + spec_leg_steps(
                                legs_seq[li as int],
                            ));
                            lemma_flat_prefix_len_monotone(
                                legs_seq,
                                li as int + 1,
                                legs_seq.len() as int,
                            );
                        }
                        let mut si: usize = 0;
                        while si < steps.len()
                            invariant
                                0 <= si <= steps.len(),
                                steps@ == leg_steps,
                                leg_steps.len() <= flat.len(),
                                route.wf(),
                                flat == spec_flat_steps(route),
                                bundles@.len() == flat.len(),
                                forall|i: int|
                                    0 <= i < bundles@.len() ==> crate::bundler::spec_bundle_ok(
                                        route,
                                        self.polyline_precision,
                                        #[trigger] bundles@[i],
                                        i,
                                    ),
                                forall|i: int|
                                    0 <= i < bundles@.len() ==> (#[trigger] bundles@[i]).wf(),
                                leg_results@.len() == si,
                                forall|i: int|
                                    0 <= i < si ==> spec_pair_ok(
                                        flat,
                                        i,
                                        #[trigger] leg_results@[i],
                                    ),
                            decreases steps.len() - si,
                        {
                            let current = &bundles[si];
                            let remaining = bundles.len() - si;
                            let next = if remaining > 1 {
                                Some(&bundles[si + 1])
                            } else {
                                None
                            };
                            let step_after_next = if remaining > 2 {
                                Some(&bundles[si + 2])
                            } else {
                                None
                            };
                            let banner_factory = BannerInstructionsFactory::new(
                                match next {
                                    Some(b) => Some(b.step),
                                    None => None,
                                },
                                Some(current.step),
                            );
                            let banner = banner_factory.build();
                            let voice = match next {
                                Some(next_bundle) => {
                                    let voice_factory = VoiceInstructionFactory::new(
                                        current,
                                        next_bundle,
                                        step_after_next,
                                        self.metric,
                                        self.polyline_precision,
                                    );
                                    Some(voice_factory.build())
                                },
                                None => None,
                            };
                            leg_results.push((banner, voice));
                            si = si + 1;
                        }
                    },
                }
                results.push(leg_results);
                li = li + 1;
            }
        }

        // Rebuild the route, attaching what was planned.
        let legs_vec = match route.legs {
            None => {
                return None;
            },
            Some(v) => v,
        };
        let ghost legs_seq = legs_vec@;
        let ghost planned = results@;
        let mut legs_vec = legs_vec;
        let mut results = results;
        let mut new_legs: Vec<RouteLeg> = Vec::new();
        let mut li: usize = 0;
        while legs_vec.len() > 0
            invariant
                0 <= li <= legs_seq.len(),
                legs_seq.len() <= usize::MAX,
                li as int + legs_vec@.len() == legs_seq.len(),
                legs_vec@ == legs_seq.skip(li as int),
                results@ == planned.skip(li as int),
                planned.len() == legs_seq.len(),
                forall|i: int|
                    0 <= i < legs_seq.len() ==> spec_planned_ok(
                        flat,
                        legs_seq[i],
                        (#[trigger] planned[i])@,
                    ),
                new_legs@.len() == li,
                forall|i: int|
                    0 <= i < li ==> spec_leg_annotated(
                        flat,
                        legs_seq[i],
                        #[trigger] new_legs@[i],
                    ),
            decreases legs_vec@.len(),
        {
            let leg = legs_vec.remove(0);
            let leg_results = results.remove(0);
            proof {
                assert(legs_seq.skip(li as int)[0] == legs_seq[li as int]);
                assert(planned.skip(li as int)[0] == planned[li as int]);
                assert(legs_seq.skip(li as int).remove(0) =~= legs_seq.skip(li as int + 1));
                assert(planned.skip(li as int).remove(0) =~= planned.skip(li as int + 1));
            }
            let new_leg = match leg.steps {
                None => RouteLeg { steps: None, annotation: leg.annotation },
                Some(steps_vec) => {
                    let ghost in_steps = steps_vec@;
                    let ghost leg_planned = leg_results@;
                    proof {
                        assert(vstd::std_specs::vec::spec_vec_len(&steps_vec) == steps_vec@.len());
                    }
                    let mut steps_vec = steps_vec;
                    let mut leg_results = leg_results;
                    let mut new_steps: Vec<RouteStep> = Vec::new();
                    let mut si: usize = 0;
                    while steps_vec.len() > 0
                        invariant
                            0 <= si <= in_steps.len(),
                            in_steps.len() <= usize::MAX,
                            si as int + steps_vec@.len() == in_steps.len(),
                            steps_vec@ == in_steps.skip(si as int),
                            leg_results@ == leg_planned.skip(si as int),
                            leg_planned.len() == in_steps.len(),
                            forall|i: int|
                                0 <= i < leg_planned.len() ==> spec_pair_ok(
                                    flat,
                                    i,
                                    #[trigger] leg_planned[i],
                                ),
                            new_steps@.len() == si,
                            forall|i: int|
                                0 <= i < si ==> spec_step_annotated(
                                    flat,
                                    i,
                                    in_steps[i],
                                    #[trigger] new_steps@[i],
                                ),
                        decreases steps_vec@.len(),
                    {
                        let step = steps_vec.remove(0);
                        let pair = leg_results.remove(0);
                        proof {
                            assert(in_steps.skip(si as int)[0] == in_steps[si as int]);
                            assert(leg_planned.skip(si as int)[0] == leg_planned[si as int]);
                            assert(in_steps.skip(si as int).remove(0) =~= in_steps.skip(
                                si as int + 1,
                            ));
                            assert(leg_planned.skip(si as int).remove(0) =~= leg_planned.skip(
                                si as int + 1,
                            ));
                        }
                        let (banner, voice) = pair;
                        let voice_instructions = match voice {
                            Some(v) => Some(v),
                            None => step.voice_instructions,
                        };
                        let new_step = RouteStep {
                            distance: step.distance,
                            geometry: step.geometry,
                            segment_lengths: step.segment_lengths,
                            maneuver: step.maneuver,
                            name: step.name,
                            reference: step.reference,
                            destinations: step.destinations,
                            exits: step.exits,
                            voice_instructions,
                            banner_instructions: Some(banner),
                        };
                        new_steps.push(new_step);
                        si = si + 1;
                    }
                    RouteLeg { steps: Some(new_steps), annotation: leg.annotation }
                },
            };
            new_legs.push(new_leg);
            li = li + 1;
        }
        proof {
            assert(legs_seq.skip(legs_seq.len() as int) =~= Seq::<RouteLeg>::empty());
        }
        Some(Route { legs: Some(new_legs) })
    }
}

} // verus!
