//! The library's route model: legs of steps with geometry, maneuver
//! metadata and per-segment telemetry, plus the instruction types the
//! engine produces.
//!
//! Quantities are fixed-point integers throughout: lengths in
//! micro-meters, durations in micro-seconds, speeds in thousandths of a
//! meter per second. A step additionally carries the great-circle length
//! of each segment of its decoded geometry (`segment_lengths`, computed
//! by the caller from the decoded coordinates), which the timing rules
//! use to map a distance into the step to a telemetry sample.

use vstd::prelude::*;

use crate::geometry::spec_total;

verus! {

/// Largest step length (micro-meters) the planner's fixed-point
/// arithmetic accepts: the distance module's well-formed bound,
/// re-expressed on the micro-meter grid.
pub const MAX_MICRO_METERS: i64 = 9_000_000_000_000;

#[derive(Debug, Clone, Copy, PartialEq, Eq, Structural)]
pub enum ManeuverType {
    Turn,
    NewName,
    Depart,
    Arrive,
    Merge,
    OnRamp,
    OffRamp,
    Fork,
    EndOfRoad,
    UseLane,
    Continue,
    Roundabout,
    Rotary,
    RoundaboutTurn,
    Notification,
    ExitRoundabout,
    ExitRotary,
}

#[derive(Debug, Clone, Copy, PartialEq, Eq, Structural)]
pub enum ManeuverModifier {
    Uturn,
    SharpRight,
    Right,
    SlightRight,
    Straight,
    SlightLeft,
    Left,
    SharpLeft,
}

/// The unit of a posted maximum speed.
#[derive(Debug, Clone, Copy, PartialEq, Eq, Structural)]
pub enum SpeedUnit {
    KilometersPerHour,
    MilesPerHour,
}

/// A posted maximum speed for one telemetry segment; `no_limit` marks a
/// segment without a posted limit, `unknown` one where it is not known.
#[derive(Debug, Clone, Copy, PartialEq, Eq, Structural)]
pub struct MaxSpeed {
    pub speed: Option<i32>,
    pub unit: Option<SpeedUnit>,
    pub unknown: Option<bool>,
    pub no_limit: Option<bool>,
}

/// Leg-scoped telemetry metadata; copied as a whole, never sliced.
#[derive(Debug)]
pub struct AnnotationMetadata {
    pub datasource_names: Option<Vec<String>>,
}

impl AnnotationMetadata {
    /// The metadata's content as plain values.
    pub open spec fn names_view(self) -> Option<Seq<String>> {
        match self.datasource_names {
            None => None,
            Some(v) => Some(v@),
        }
    }
}

fn clone_string_vec(v: &Vec<String>) -> (r: Vec<String>)
    ensures
        r@ == v@,
{
    let mut r: Vec<String> = Vec::new();
    let mut i: usize = 0;
    while i < v.len()
        invariant
            0 <= i <= v.len(),
            r@.len() == i,
            forall|j: int| 0 <= j < i ==> r@[j] == v@[j],
        decreases v.len() - i,
    {
        r.push(v[i].clone());
        i = i + 1;
    }
    proof {
        assert(r@ =~= v@);
    }
    r
}

impl Clone for AnnotationMetadata {
    /// A clone carries the same content.
    fn clone(&self) -> (r: AnnotationMetadata)
        ensures
            r.names_view() == self.names_view(),
    {
        match &self.datasource_names {
            None => AnnotationMetadata { datasource_names: None },
            Some(v) => AnnotationMetadata { datasource_names: Some(clone_string_vec(v)) },
        }
    }
}

/// A leg's flat telemetry: parallel sequences with one entry per
/// coordinate segment. Lengths are micro-meters, durations micro-seconds,
/// speeds thousandths of a meter per second.
#[derive(Debug)]
pub struct Annotation {
    pub distance: Option<Vec<i64>>,
    pub duration: Option<Vec<i64>>,
    pub datasources: Option<Vec<i64>>,
    pub nodes: Option<Vec<i64>>,
    pub weight: Option<Vec<i64>>,
    pub speed: Option<Vec<i64>>,
    pub maxspeed: Option<Vec<MaxSpeed>>,
    pub metadata: Option<AnnotationMetadata>,
}

impl Annotation {
    /// The length of the first present sequence (0 when none is present).
    pub open spec fn common_len(self) -> int {
        if self.distance is Some {
            self.distance.unwrap()@.len() as int
        } else if self.duration is Some {
            self.duration.unwrap()@.len() as int
        } else if self.datasources is Some {
            self.datasources.unwrap()@.len() as int
        } else if self.nodes is Some {
            self.nodes.unwrap()@.len() as int
        } else if self.weight is Some {
            self.weight.unwrap()@.len() as int
        } else if self.speed is Some {
            self.speed.unwrap()@.len() as int
        } else if self.maxspeed is Some {
            self.maxspeed.unwrap()@.len() as int
        } else {
            0
        }
    }

    /// All sequences present in the record share one length.
    pub open spec fn wf(self) -> bool {
        &&& (self.distance is Some ==> self.distance.unwrap()@.len() == self.common_len())
        &&& (self.duration is Some ==> self.duration.unwrap()@.len() == self.common_len())
        &&& (self.datasources is Some ==> self.datasources.unwrap()@.len() == self.common_len())
        &&& (self.nodes is Some ==> self.nodes.unwrap()@.len() == self.common_len())
        &&& (self.weight is Some ==> self.weight.unwrap()@.len() == self.common_len())
        &&& (self.speed is Some ==> self.speed.unwrap()@.len() == self.common_len())
        &&& (self.maxspeed is Some ==> self.maxspeed.unwrap()@.len() == self.common_len())
    }
}

/// A step's maneuver metadata.
#[derive(Debug, Clone)]
pub struct StepManeuver {
    pub maneuver_type: Option<ManeuverType>,
    pub modifier: Option<ManeuverModifier>,
    pub instruction: Option<String>,
}

impl Default for StepManeuver {
    /// An empty maneuver: every field absent.
    fn default() -> (r: StepManeuver)
        ensures
            r.maneuver_type is None,
            r.modifier is None,
            r.instruction is None,
    {
        StepManeuver { maneuver_type: None, modifier: None, instruction: None }
    }
}

/// One maneuver-bounded unit of a leg. `distance` is the step's length in
/// micro-meters (nonnegative in a well-formed step); `geometry` is the encoded path as delivered (a JSON
/// value); `segment_lengths` is the great-circle length of each segment
/// of the decoded path, in micro-meters, supplied by the caller alongside
/// the geometry (absent when the path does not decode to at least two
/// coordinates).
#[derive(Debug)]
pub struct RouteStep {
    pub distance: Option<i64>,
    pub geometry: Option<serde_json::Value>,
    pub segment_lengths: Option<Vec<u64>>,
    pub maneuver: Option<StepManeuver>,
    pub name: Option<String>,
    pub reference: Option<String>,
    pub destinations: Option<serde_json::Value>,
    pub exits: Option<serde_json::Value>,
    pub voice_instructions: Option<Vec<VoiceInstruction>>,
    pub banner_instructions: Option<Vec<BannerInstruction>>,
}

impl RouteStep {
    /// The step's quantities stay within what the fixed-point arithmetic
    /// of the timing rules accepts.
    pub open spec fn wf(self) -> bool {
        &&& (self.distance matches Some(d) ==> 0 <= d <= MAX_MICRO_METERS)
        &&& (self.segment_lengths matches Some(s) ==> spec_total(s@) <= u64::MAX)
    }
}

impl Default for RouteStep {
    /// An empty step: every field absent.
    fn default() -> (r: RouteStep)
        ensures
            r.distance is None,
            r.geometry is None,
            r.segment_lengths is None,
            r.maneuver is None,
            r.name is None,
            r.reference is None,
            r.destinations is None,
            r.exits is None,
            r.voice_instructions is None,
            r.banner_instructions is None,
            r.wf(),
    {
        RouteStep {
            distance: None,
            geometry: None,
            segment_lengths: None,
            maneuver: None,
            name: None,
            reference: None,
            destinations: None,
            exits: None,
            voice_instructions: None,
            banner_instructions: None,
        }
    }
}

/// One origin-to-destination or waypoint-to-waypoint part of a route.
#[derive(Debug)]
pub struct RouteLeg {
    pub steps: Option<Vec<RouteStep>>,
    pub annotation: Option<Annotation>,
}

impl RouteLeg {
    pub open spec fn wf(self) -> bool {
        &&& (self.steps matches Some(s) ==> forall|i: int|
            0 <= i < s@.len() ==> (#[trigger] s@[i]).wf())
        &&& (self.annotation matches Some(a) ==> a.wf())
    }
}

/// A route as delivered by the routing engine, read-only for this core.
#[derive(Debug)]
pub struct Route {
    pub legs: Option<Vec<RouteLeg>>,
}

impl Route {
    pub open spec fn wf(self) -> bool {
        self.legs matches Some(l) ==> forall|i: int| 0 <= i < l@.len() ==> (#[trigger] l@[i]).wf()
    }
}

/// A step together with the slice of its leg's telemetry that belongs to
/// it. The index range is inclusive: the step's samples are those at
/// `start_index..=end_index` in the leg's flat telemetry, so a step that
/// consumes no samples has `end_index == start_index - 1`. The indices
/// are signed precisely so that this degenerate range stays
/// representable for a first step that consumes nothing.
#[derive(Debug)]
pub struct RouteStepBundle<'a> {
    pub step: &'a RouteStep,
    pub annotation: Option<Annotation>,
    pub start_index: i64,
    pub end_index: i64,
}

impl<'a> RouteStepBundle<'a> {
    pub open spec fn wf(self) -> bool {
        &&& self.step.wf()
        &&& (self.annotation matches Some(a) ==> a.wf())
    }
}

/// A timed voice announcement: the text to speak and the remaining
/// distance into the step (micro-meters) at which to speak it.
#[derive(Debug, Clone, PartialEq)]
pub struct VoiceInstruction {
    pub distance_along_geometry: i64,
    pub announcement: String,
    pub ssml_announcement: Option<String>,
}

/// One line of banner text with its maneuver indication.
#[derive(Debug, Clone, PartialEq)]
pub struct BannerContent {
    pub text: String,
    pub maneuver_type: Option<ManeuverType>,
    pub modifier: Option<ManeuverModifier>,
    pub components: Option<Vec<BannerContentComponentsInner>>,
}

/// A piece of a banner line.
#[derive(Debug, Clone, PartialEq)]
pub struct BannerContentComponentsInner {
    pub component_type: Option<String>,
    pub text: Option<String>,
}

/// An on-screen instruction shown while a step is traversed.
#[derive(Debug, Clone, PartialEq)]
pub struct BannerInstruction {
    pub distance_along_geometry: i64,
    pub primary: BannerContent,
    pub secondary: Option<BannerContent>,
}

} // verus!
