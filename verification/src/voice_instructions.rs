//! Turning a step pair's announcement plan into localized voice
//! instructions.
//!
//! The text of each announcement is assembled from the next step's
//! maneuver instruction, the current step's display name and the spoken
//! form of the announcement distance; a step pair whose next step has no
//! instruction text yields no voice instructions at all.

use vstd::prelude::*;

use crate::distance::Distance;
use crate::distance::MAX_BASE;
use crate::distance::Unit;
use crate::distance::spec_round_div;
use crate::extensions::StepManeuverExt;
use crate::models::RouteStepBundle;
use crate::models::StepManeuver;
use crate::models::VoiceInstruction;
use crate::spoken_distance::SpokenDistance;
use crate::spoken_distance::spec_spoken;
use crate::utilities::spec_step_maneuver_name;
use crate::utilities::step_maneuver_name;
use crate::voice_announcements::AnnounceAt;
use crate::voice_announcements::VoiceAnnouncements;
use crate::voice_announcements::spec_distance_of;

verus! {

/// The lowercase form of a piece of text. Case folding is a pure
/// function of the characters, so its outcome gets a name.
pub uninterp spec fn lower_of(s: Seq<char>) -> Seq<char>;

/// Relies on `str::to_lowercase`: the result depends on the characters
/// alone.
#[verifier::external_body]
fn lowercase(s: &str) -> (r: String)
    ensures
        r@ == lower_of(s@),
{
    s.to_lowercase()
}

/// The instruction text a maneuver carries, if any.
pub open spec fn spec_instruction_text(m: Option<StepManeuver>) -> Option<Seq<char>> {
    match m {
        None => None,
        Some(man) => match man.instruction {
            None => None,
            Some(s) => Some(s@),
        },
    }
}

/// Builds voice instructions for one (current, next) step pair, with the
/// step after next consulted for the very-short-next-step narration.
pub struct VoiceInstructionFactory<'a> {
    pub current: &'a RouteStepBundle<'a>,
    pub next: &'a RouteStepBundle<'a>,
    pub step_after_next: Option<&'a RouteStepBundle<'a>>,
    pub metric: bool,
    pub polyline_precision: u32,
}

impl<'a> VoiceInstructionFactory<'a> {
    pub open spec fn wf(self) -> bool {
        &&& self.current.wf()
        &&& self.next.wf()
        &&& (self.step_after_next matches Some(b) ==> b.wf())
    }

    /// The announcement planner this factory consults.
    pub open spec fn spec_planner(self) -> VoiceAnnouncements<'a> {
        VoiceAnnouncements {
            current: self.current,
            next: Some(self.next),
            metric: self.metric,
            polyline_precision: self.polyline_precision,
        }
    }

    /// The instruction text of the step after next, if any.
    pub open spec fn spec_after_instruction(self) -> Option<Seq<char>> {
        match self.step_after_next {
            Some(b) => spec_instruction_text(b.step.maneuver),
            None => None,
        }
    }

    /// The announcement text for one planned notice: nothing when the
    /// next step has no instruction text; otherwise the depart greeting,
    /// a continue phrase over the current step's name, an "In {distance},
    /// {instruction}" phrase with the instruction lowercased, the plain
    /// instruction at the maneuver, or the instruction joined with the
    /// step after next's for a very short next step.
    pub open spec fn spec_announcement(self, a: AnnounceAt) -> Option<Seq<char>> {
        match spec_instruction_text(self.next.step.maneuver) {
            None => None,
            Some(instruction) => {
                let name = spec_step_maneuver_name(*self.current.step);
                Some(
                    match a {
                        AnnounceAt::Depart(_) => match spec_instruction_text(
                            self.current.step.maneuver,
                        ) {
                            Some(ci) => ci,
                            None => "depart"@,
                        },
                        AnnounceAt::Continue(d) => "Continue on "@ + name + " for "@ + spec_spoken(
                            d.base as int,
                            self.metric,
                        ),
                        AnnounceAt::PreApproach(d) => "In "@ + spec_spoken(
                            d.base as int,
                            self.metric,
                        ) + ", "@ + lower_of(instruction),
                        AnnounceAt::Approach(d) => "In "@ + spec_spoken(d.base as int, self.metric)
                            + ", "@ + lower_of(instruction),
                        AnnounceAt::Maneuver(_) => instruction,
                        AnnounceAt::ManeuverAndThen(_) => match self.spec_after_instruction() {
                            Some(n) => instruction + " Then "@ + n,
                            None => instruction,
                        },
                    },
                )
            },
        }
    }

    /// The (text, distance in micro-meters) views of the instructions a
    /// plan yields, in order, skipping notices without text.
    pub open spec fn spec_voice_views(self, plan: Seq<AnnounceAt>) -> Seq<(Seq<char>, int)>
        decreases plan.len(),
    {
        if plan.len() == 0 {
            Seq::<(Seq<char>, int)>::empty()
        } else {
            self.spec_voice_views(plan.drop_last()) + (match self.spec_announcement(plan.last()) {
                None => Seq::<(Seq<char>, int)>::empty(),
                Some(t) => seq![(t, spec_round_div(spec_distance_of(plan.last()).base as int, 10_000))],
            })
        }
    }

    /// Builds a factory over one step pair.
    pub fn new(
        current: &'a RouteStepBundle<'a>,
        next: &'a RouteStepBundle<'a>,
        step_after_next: Option<&'a RouteStepBundle<'a>>,
        metric: bool,
        polyline_precision: u32,
    ) -> (r: VoiceInstructionFactory<'a>)
        ensures
            r.current == current,
            r.next == next,
            r.step_after_next == step_after_next,
            r.metric == metric,
            r.polyline_precision == polyline_precision,
    {
        VoiceInstructionFactory { current, next, step_after_next, metric, polyline_precision }
    }

    /// The announcement distance in micro-meters.
    fn meters(&self, distance: Distance) -> (v: i64)
        requires
            distance.wf(),
        ensures
            v == spec_round_div(distance.base as int, 10_000),
    {
        distance.to(Unit::Meters).value()
    }

    /// A reserved synthesized-speech variant; currently always absent.
    fn ssml_announcement(&self) -> (r: Option<String>)
        ensures
            r is None,
    {
        None
    }

    /// The spoken phrase for an announcement distance, under the
    /// factory's metric/imperial flag.
    fn spoken_distance(&self, distance: Distance) -> (r: String)
        requires
            distance.wf(),
        ensures
            r@ == spec_spoken(distance.base as int, self.metric),
    {
        let converted = if self.metric {
            distance.to(Unit::Kilometers)
        } else {
            distance.to(Unit::Miles)
        };
        SpokenDistance::from_distance(converted).spoken()
    }

    /// Assembles the announcement text for one planned notice.
    fn announcement(&self, announce_at: AnnounceAt) -> (r: Option<String>)
        requires
            spec_distance_of(announce_at).wf(),
        ensures
            r is Some <==> self.spec_announcement(announce_at) is Some,
            r matches Some(s) ==> s@ == self.spec_announcement(announce_at).unwrap(),
    {
        let instruction = match &self.next.step.maneuver {
            None => None,
            Some(m) => match m.instruction_string() {
                Ok(o) => o,
                Err(_) => None,
            },
        };
        let instruction = match instruction {
            None => {
                return None;
            },
            Some(s) => s,
        };
        let current_instruction = match &self.current.step.maneuver {
            None => None,
            Some(m) => match m.instruction_string() {
                Ok(o) => o,
                Err(_) => None,
            },
        };
        let name = step_maneuver_name(self.current.step);
        match announce_at {
            AnnounceAt::Depart(..) => {
                match current_instruction {
                    Some(ci) => Some(ci),
                    None => Some(String::from_str("depart")),
                }
            },
            AnnounceAt::Continue(d) => {
                let mut s = String::from_str("Continue on ");
                s.append(name.as_str());
                s.append(" for ");
                let spoken = self.spoken_distance(d);
                s.append(spoken.as_str());
                Some(s)
            },
            AnnounceAt::PreApproach(d) => {
                let mut s = String::from_str("In ");
                let spoken = self.spoken_distance(d);
                s.append(spoken.as_str());
                s.append(", ");
                let lowered = lowercase(instruction.as_str());
                s.append(lowered.as_str());
                Some(s)
            },
            AnnounceAt::Approach(d) => {
                let mut s = String::from_str("In ");
                let spoken = self.spoken_distance(d);
                s.append(spoken.as_str());
                s.append(", ");
                let lowered = lowercase(instruction.as_str());
                s.append(lowered.as_str());
                Some(s)
            },
            AnnounceAt::Maneuver(..) => Some(instruction),
            AnnounceAt::ManeuverAndThen(..) => {
                let after = match self.step_after_next {
                    Some(b) => match &b.step.maneuver {
                        None => None,
                        Some(m) => match m.instruction_string() {
                            Ok(o) => o,
                            Err(_) => None,
                        },
                    },
                    None => None,
                };
                match after {
                    Some(n) => {
                        let mut s = instruction;
                        s.append(" Then ");
                        s.append(n.as_str());
                        Some(s)
                    },
                    None => Some(instruction),
                }
            },
        }
    }

    /// Builds the voice instruction for one planned notice, if the pair
    /// yields text for it.
    fn generate(&self, announce_at: AnnounceAt) -> (r: Option<VoiceInstruction>)
        requires
            spec_distance_of(announce_at).wf(),
        ensures
            r is Some <==> self.spec_announcement(announce_at) is Some,
            r matches Some(vi) ==> {
                &&& vi.announcement@ == self.spec_announcement(announce_at).unwrap()
                &&& vi.distance_along_geometry == spec_round_div(
                    spec_distance_of(announce_at).base as int,
                    10_000,
                )
                &&& vi.ssml_announcement is None
            },
    {
        let announcement = match self.announcement(announce_at) {
            None => {
                return None;
            },
            Some(s) => s,
        };
        let distance = match announce_at {
            AnnounceAt::Depart(d) => d,
            AnnounceAt::Continue(d) => d,
            AnnounceAt::PreApproach(d) => d,
            AnnounceAt::Approach(d) => d,
            AnnounceAt::Maneuver(d) => d,
            AnnounceAt::ManeuverAndThen(d) => d,
        };
        Some(
            VoiceInstruction {
                distance_along_geometry: self.meters(distance),
                announcement,
                ssml_announcement: self.ssml_announcement(),
            },
        )
    }

    /// Builds the ordered voice instructions for this step pair: the
    /// planner's applicable announcements, each rendered to text, with
    /// notices the pair yields no text for skipped.
    pub fn build(&self) -> (r: Vec<VoiceInstruction>)
        requires
            self.wf(),
        ensures
            ({
                let views = self.spec_voice_views(self.spec_planner().spec_build());
                &&& r@.len() == views.len()
                &&& forall|i: int|
                    0 <= i < views.len() ==> {
                        &&& (#[trigger] r@[i]).announcement@ == views[i].0
                        &&& r@[i].distance_along_geometry == views[i].1
                        &&& r@[i].ssml_announcement is None
                    }
            }),
    {
        let planner = VoiceAnnouncements::new(
            self.current,
            Some(self.next),
            self.metric,
            self.polyline_precision,
        );
        let plan = planner.build();
        let ghost plan_seq = plan@;
        let mut r: Vec<VoiceInstruction> = Vec::new();
        let mut k: usize = 0;
        while k < plan.len()
            invariant
                0 <= k <= plan.len(),
                plan@ == plan_seq,
                plan_seq == self.spec_planner().spec_build(),
                forall|i: int|
                    0 <= i < plan_seq.len() ==> 0 <= spec_distance_of(
                        #[trigger] plan_seq[i],
                    ).base <= MAX_BASE,
                ({
                    let views = self.spec_voice_views(plan_seq.take(k as int));
                    &&& r@.len() == views.len()
                    &&& forall|i: int|
                        0 <= i < views.len() ==> {
                            &&& (#[trigger] r@[i]).announcement@ == views[i].0
                            &&& r@[i].distance_along_geometry == views[i].1
                            &&& r@[i].ssml_announcement is None
                        }
                }),
            decreases plan.len() - k,
        {
            let ghost prefix = plan_seq.take(k as int);
            let announce_at = plan[k];
            match self.generate(announce_at) {
                None => {},
                Some(vi) => {
                    r.push(vi);
                },
            }
            proof {
                assert(plan_seq.take(k as int + 1).drop_last() =~= prefix);
                assert(plan_seq.take(k as int + 1).last() == plan_seq[k as int]);
            }
            k = k + 1;
        }
        proof {
            assert(plan_seq.take(plan_seq.len() as int) =~= plan_seq);
        }
        r
    }
}

} // verus!
