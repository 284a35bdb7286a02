//! The six-rule announcement-timing policy: for one step (and optionally
//! the next), which notices to speak and at what remaining distance into
//! the step each one fires.
//!
//! Each rule independently computes a candidate distance and is then
//! filtered by an applicability predicate; the result is the ordered
//! union of the applicable candidates, in the fixed rule order Depart,
//! Continue, PreApproach, Approach, Maneuver, ManeuverAndThen. "Unit"
//! below means kilometers under the metric flag and miles otherwise,
//! independent of how any distance is stored.

use vstd::arithmetic::div_mod::lemma_div_is_ordered;
use vstd::arithmetic::div_mod::lemma_div_multiples_vanish;
use vstd::arithmetic::mul::lemma_mul_inequality;
use vstd::arithmetic::mul::lemma_mul_upper_bound;
use vstd::prelude::*;

use crate::distance::Distance;
use crate::distance::MAX_BASE;
use crate::distance::Unit;
use crate::distance::spec_distance;
use crate::extensions::RouteStepExt;
use crate::models::ManeuverType;
use crate::models::RouteStepBundle;
use crate::speed_class::SpeedClass;
use crate::speed_class::spec_speed_class;
use crate::utilities::spec_field_text;
use crate::utilities::spec_speed_at_distance;
use crate::utilities::speed_at_distance;

verus! {

#[derive(Debug, Clone, Copy, PartialEq, Eq, Structural)]
pub enum AnnouncementType {
    Depart,
    Continue,
    PreApproach,
    Approach,
    Maneuver,
    ManeuverAndThen,
}

/// One planned notice: the kind of announcement and the remaining
/// distance into the current step at which to make it.
#[derive(Debug, Clone, Copy, PartialEq)]
pub enum AnnounceAt {
    /// An announcement made immediately at the start of the route.
    Depart(Distance),
    /// A notice shortly after the start of a longer step.
    Continue(Distance),
    /// A fixed wake-up notice one or two units before the maneuver of a
    /// long step.
    PreApproach(Distance),
    /// An essential notice a fraction of a unit before the maneuver.
    Approach(Distance),
    /// The announcement right before the maneuver.
    Maneuver(Distance),
    /// The announcement right before the maneuver, with an added notice
    /// for a very short next step.
    ManeuverAndThen(Distance),
}

/// The kind of an announcement.
pub open spec fn spec_kind_of(a: AnnounceAt) -> AnnouncementType {
    match a {
        AnnounceAt::Depart(_) => AnnouncementType::Depart,
        AnnounceAt::Continue(_) => AnnouncementType::Continue,
        AnnounceAt::PreApproach(_) => AnnouncementType::PreApproach,
        AnnounceAt::Approach(_) => AnnouncementType::Approach,
        AnnounceAt::Maneuver(_) => AnnouncementType::Maneuver,
        AnnounceAt::ManeuverAndThen(_) => AnnouncementType::ManeuverAndThen,
    }
}

/// The distance an announcement carries.
pub open spec fn spec_distance_of(a: AnnounceAt) -> Distance {
    match a {
        AnnounceAt::Depart(d) => d,
        AnnounceAt::Continue(d) => d,
        AnnounceAt::PreApproach(d) => d,
        AnnounceAt::Approach(d) => d,
        AnnounceAt::Maneuver(d) => d,
        AnnounceAt::ManeuverAndThen(d) => d,
    }
}

/// The planner for one (current, optional next) step pair.
pub struct VoiceAnnouncements<'a> {
    pub current: &'a RouteStepBundle<'a>,
    pub next: Option<&'a RouteStepBundle<'a>>,
    pub metric: bool,
    pub polyline_precision: u32,
}

/// The current step's length on the base grid (0 when absent).
pub open spec fn spec_step_distance_base(b: RouteStepBundle) -> int {
    (match b.step.distance {
        Some(d) => d as int,
        None => 0,
    }) * 10_000
}

/// `micro` millionths of the flag's unit (kilometers when metric, miles
/// otherwise) on the base grid.
pub open spec fn spec_unit_base(metric: bool, micro: int) -> int {
    micro * (if metric {
        10_000_000int
    } else {
        16_093_440int
    })
}

/// `pct` percent of a base-grid magnitude, rounded down.
pub open spec fn spec_pct(base: int, pct: int) -> int {
    base * pct / 100
}

/// The speed class at a target distance (base grid) into the step: the
/// class of the telemetry sample nearest to that distance, or none when
/// the geometry text, the decoded segment lengths, or the telemetry
/// record is missing.
pub open spec fn spec_speed_class_at(b: RouteStepBundle, target_base: int) -> Option<SpeedClass> {
    if spec_field_text(b.step.geometry, "geometry"@) is None {
        None
    } else if b.step.segment_lengths is None {
        None
    } else if b.annotation is None {
        None
    } else {
        spec_speed_class(
            spec_speed_at_distance(
                b.step.segment_lengths.unwrap()@,
                b.annotation.unwrap(),
                target_base / 10_000,
            ),
        )
    }
}

/// The speed-adaptive distance of the maneuver announcement: 150 m when
/// fast at 95% of the step, 100 m when medium, 70 m otherwise, each
/// capped at the step's own length.
pub open spec fn spec_maneuver_distance(b: RouteStepBundle, sd: int) -> Distance {
    let cap = match spec_speed_class_at(b, spec_pct(sd, 95)) {
        Some(SpeedClass::Fast) => 1_500_000_000_000int,
        Some(SpeedClass::Medium) => 1_000_000_000_000int,
        _ => 700_000_000_000int,
    };
    if cap <= sd {
        spec_distance(cap, Unit::Meters)
    } else {
        spec_distance(sd, Unit::Meters)
    }
}

impl<'a> VoiceAnnouncements<'a> {
    pub open spec fn wf(self) -> bool {
        &&& self.current.wf()
        &&& (self.next matches Some(n) ==> n.wf())
    }

    /// Whether the next step is so short that the maneuver announcement
    /// must also narrate it: its length is known and below a tenth of a
    /// unit.
    pub open spec fn spec_needs_then(self) -> bool {
        match self.next {
            Some(n) => match n.step.distance {
                Some(d) => d * 10_000 < spec_unit_base(self.metric, 100_000),
                None => false,
            },
            None => false,
        }
    }

    /// The candidate announcement of each kind, before applicability is
    /// weighed: Depart and the two maneuver notices always have one;
    /// Continue requires a full unit of step (and moves from 98% to 90%
    /// of the step when the step is short and travel there is slow);
    /// PreApproach requires two units and fires two units early on steps
    /// above five units, one unit early otherwise; Approach requires one
    /// unit and fires a quarter unit early when slow at 95% of the step,
    /// half a unit early otherwise.
    pub open spec fn spec_create(self, t: AnnouncementType) -> Option<AnnounceAt> {
        let sd = spec_step_distance_base(*self.current);
        match t {
            AnnouncementType::Depart => Some(
                AnnounceAt::Depart(spec_distance(spec_pct(sd, 98), Unit::Meters)),
            ),
            AnnouncementType::Continue => {
                if sd < spec_unit_base(self.metric, 1_000_000) {
                    None
                } else {
                    let ideal = spec_pct(sd, 98);
                    if sd < spec_unit_base(self.metric, 500_000) && spec_speed_class_at(
                        *self.current,
                        ideal,
                    ) == Some(SpeedClass::Slow) {
                        Some(AnnounceAt::Continue(spec_distance(spec_pct(sd, 90), Unit::Meters)))
                    } else {
                        Some(AnnounceAt::Continue(spec_distance(ideal, Unit::Meters)))
                    }
                }
            },
            AnnouncementType::PreApproach => {
                if sd < spec_unit_base(self.metric, 2_000_000) {
                    None
                } else if sd > spec_unit_base(self.metric, 5_000_000) {
                    Some(
                        AnnounceAt::PreApproach(
                            spec_distance(
                                spec_unit_base(self.metric, 2_000_000),
                                spec_flag_unit(self.metric),
                            ),
                        ),
                    )
                } else {
                    Some(
                        AnnounceAt::PreApproach(
                            spec_distance(
                                spec_unit_base(self.metric, 1_000_000),
                                spec_flag_unit(self.metric),
                            ),
                        ),
                    )
                }
            },
            AnnouncementType::Approach => {
                if sd < spec_unit_base(self.metric, 1_000_000) {
                    None
                } else {
                    match spec_speed_class_at(*self.current, spec_pct(sd, 95)) {
                        Some(SpeedClass::Slow) => Some(
                            AnnounceAt::Approach(
                                spec_distance(
                                    spec_unit_base(self.metric, 250_000),
                                    spec_flag_unit(self.metric),
                                ),
                            ),
                        ),
                        _ => Some(
                            AnnounceAt::Approach(
                                spec_distance(
                                    spec_unit_base(self.metric, 500_000),
                                    spec_flag_unit(self.metric),
                                ),
                            ),
                        ),
                    }
                }
            },
            AnnouncementType::Maneuver => Some(
                AnnounceAt::Maneuver(spec_maneuver_distance(*self.current, sd)),
            ),
            AnnouncementType::ManeuverAndThen => Some(
                AnnounceAt::ManeuverAndThen(spec_maneuver_distance(*self.current, sd)),
            ),
        }
    }

    /// Whether an announcement applies to this step pair: Depart only on
    /// a depart maneuver; Continue, PreApproach and Approach only from
    /// one, two and one whole units of step length; and exactly one of
    /// Maneuver and ManeuverAndThen, by whether the next step is very
    /// short.
    pub open spec fn spec_should(self, a: AnnounceAt) -> bool {
        let len = spec_step_distance_base(*self.current);
        match a {
            AnnounceAt::Depart(_) => self.current.step.maneuver matches Some(m) && m.maneuver_type
                == Some(ManeuverType::Depart),
            AnnounceAt::Continue(_) => len >= spec_unit_base(self.metric, 1_000_000),
            AnnounceAt::PreApproach(_) => len >= spec_unit_base(self.metric, 2_000_000),
            AnnounceAt::Approach(_) => len >= spec_unit_base(self.metric, 1_000_000),
            AnnounceAt::Maneuver(_) => !self.spec_needs_then(),
            AnnounceAt::ManeuverAndThen(_) => self.spec_needs_then(),
        }
    }

    /// What one rule contributes to the plan: its candidate when it
    /// exists and applies, nothing otherwise.
    pub open spec fn spec_entry(self, t: AnnouncementType) -> Seq<AnnounceAt> {
        match self.spec_create(t) {
            Some(a) => if self.spec_should(a) {
                seq![a]
            } else {
                Seq::<AnnounceAt>::empty()
            },
            None => Seq::<AnnounceAt>::empty(),
        }
    }

    /// The whole plan: the applicable candidates in fixed rule order.
    pub open spec fn spec_build(self) -> Seq<AnnounceAt> {
        self.spec_entry(AnnouncementType::Depart) + self.spec_entry(AnnouncementType::Continue)
            + self.spec_entry(AnnouncementType::PreApproach) + self.spec_entry(
            AnnouncementType::Approach,
        ) + self.spec_entry(AnnouncementType::Maneuver) + self.spec_entry(
            AnnouncementType::ManeuverAndThen,
        )
    }

    /// Builds a planner over one step pair.
    pub fn new(
        current: &'a RouteStepBundle<'a>,
        next: Option<&'a RouteStepBundle<'a>>,
        metric: bool,
        polyline_precision: u32,
    ) -> (r: VoiceAnnouncements<'a>)
        ensures
            r.current == current,
            r.next == next,
            r.metric == metric,
            r.polyline_precision == polyline_precision,
    {
        VoiceAnnouncements { current, next, metric, polyline_precision }
    }

    /// The current step's length as a meter distance.
    fn step_distance(&self) -> (d: Distance)
        requires
            self.current.step.wf(),
        ensures
            d.base == spec_step_distance_base(*self.current),
            d.unit == Unit::Meters,
            0 <= d.base <= MAX_BASE,
    {
        let micro = match self.current.step.distance {
            Some(d) => d,
            None => 0,
        };
        Distance::from_meters(micro)
    }

    /// A whole-unit distance under the metric/imperial flag, from a count
    /// in millionths of a unit.
    fn flag_distance(&self, micro: i64) -> (d: Distance)
        requires
            0 <= micro <= 5_000_000,
        ensures
            d.base == spec_unit_base(self.metric, micro as int),
            d.unit == spec_flag_unit(self.metric),
            d.wf(),
    {
        if self.metric {
            Distance::from_kilometers(micro)
        } else {
            Distance::from_miles(micro)
        }
    }

    /// `pct` percent of a distance, in the distance's own unit.
    fn pct_of_distance(&self, distance: Distance, pct: i64) -> (r: Distance)
        requires
            0 <= distance.base <= MAX_BASE,
            0 <= pct <= 100,
        ensures
            r.base == spec_pct(distance.base as int, pct as int),
            r.unit == distance.unit,
            0 <= r.base <= distance.base,
    {
        proof {
            lemma_mul_upper_bound(distance.base as int, MAX_BASE as int, pct as int, 100);
            lemma_pct_bounds(distance.base as int, pct as int);
        }
        let scaled = distance.base * pct;
        Distance::from_base_units(scaled / 100, distance.unit)
    }

    /// The speed class at a target distance into the current step, read
    /// from the step's decoded segment lengths and telemetry slice.
    fn speed_class(&self, distance: Distance) -> (r: Option<SpeedClass>)
        requires
            self.current.wf(),
            distance.base >= 0,
        ensures
            r == spec_speed_class_at(*self.current, distance.base as int),
    {
        let target = distance.base_units() / 10_000;
        let geometry_text = match self.current.step.geometry_string() {
            Ok(o) => o,
            Err(_) => None,
        };
        if geometry_text.is_none() {
            return None;
        }
        let segments = match &self.current.step.segment_lengths {
            None => {
                return None;
            },
            Some(s) => s,
        };
        let annotation = match &self.current.annotation {
            None => {
                return None;
            },
            Some(a) => a,
        };
        let mps = speed_at_distance(segments, annotation, target);
        SpeedClass::from_meters_per_second(mps)
    }

    /// The maneuver announcement's distance: speed-adaptive and capped at
    /// the step's length.
    fn get_maneuver_distance(&self, step_distance: Distance) -> (r: Distance)
        requires
            self.current.wf(),
            step_distance.base == spec_step_distance_base(*self.current),
            step_distance.unit == Unit::Meters,
            0 <= step_distance.base <= MAX_BASE,
        ensures
            r == spec_maneuver_distance(*self.current, step_distance.base as int),
    {
        let probe = self.pct_of_distance(step_distance, 95);
        match self.speed_class(probe) {
            Some(SpeedClass::Fast) => Distance::from_meters(150_000_000).min(step_distance),
            Some(SpeedClass::Medium) => Distance::from_meters(100_000_000).min(step_distance),
            _ => Distance::from_meters(70_000_000).min(step_distance),
        }
    }

    /// Computes the candidate announcement of one kind, regardless of
    /// whether it should be made.
    fn create_announcement(&self, announcement: AnnouncementType) -> (r: Option<AnnounceAt>)
        requires
            self.wf(),
        ensures
            r == self.spec_create(announcement),
    {
        let step_distance = self.step_distance();
        match announcement {
            AnnouncementType::Depart => Some(
                AnnounceAt::Depart(self.pct_of_distance(step_distance, 98)),
            ),
            AnnouncementType::Continue => {
                if step_distance < self.flag_distance(1_000_000) {
                    None
                } else {
                    let ideal_distance = self.pct_of_distance(step_distance, 98);
                    let is_slow = match self.speed_class(ideal_distance) {
                        Some(SpeedClass::Slow) => true,
                        _ => false,
                    };
                    if step_distance < self.flag_distance(500_000) && is_slow {
                        Some(AnnounceAt::Continue(self.pct_of_distance(step_distance, 90)))
                    } else {
                        Some(AnnounceAt::Continue(ideal_distance))
                    }
                }
            },
            AnnouncementType::PreApproach => {
                if step_distance < self.flag_distance(2_000_000) {
                    None
                } else if self.flag_distance(5_000_000) < step_distance {
                    Some(AnnounceAt::PreApproach(self.flag_distance(2_000_000)))
                } else {
                    Some(AnnounceAt::PreApproach(self.flag_distance(1_000_000)))
                }
            },
            AnnouncementType::Approach => {
                if step_distance < self.flag_distance(1_000_000) {
                    None
                } else {
                    let probe = self.pct_of_distance(step_distance, 95);
                    match self.speed_class(probe) {
                        Some(SpeedClass::Slow) => Some(
                            AnnounceAt::Approach(self.flag_distance(250_000)),
                        ),
                        _ => Some(AnnounceAt::Approach(self.flag_distance(500_000))),
                    }
                }
            },
            AnnouncementType::Maneuver => Some(
                AnnounceAt::Maneuver(self.get_maneuver_distance(step_distance)),
            ),
            AnnouncementType::ManeuverAndThen => Some(
                AnnounceAt::ManeuverAndThen(self.get_maneuver_distance(step_distance)),
            ),
        }
    }

    /// Decides whether an announcement should be made for this step pair.
    fn should_announce(&self, announce_at: AnnounceAt) -> (r: bool)
        requires
            self.wf(),
        ensures
            r == self.spec_should(announce_at),
    {
        let length = self.step_distance();
        let needs_then = match self.next {
            Some(n) => {
                match n.step.distance {
                    Some(d) => Distance::from_meters(d) < self.flag_distance(100_000),
                    None => false,
                }
            },
            None => false,
        };
        let is_depart = match &self.current.step.maneuver {
            Some(m) => match m.maneuver_type {
                Some(ManeuverType::Depart) => true,
                _ => false,
            },
            None => false,
        };
        match announce_at {
            AnnounceAt::Depart(..) => is_depart,
            AnnounceAt::Continue(..) => !(length < self.flag_distance(1_000_000)),
            AnnounceAt::PreApproach(..) => !(length < self.flag_distance(2_000_000)),
            AnnounceAt::Approach(..) => !(length < self.flag_distance(1_000_000)),
            AnnounceAt::Maneuver(..) => !needs_then,
            AnnounceAt::ManeuverAndThen(..) => needs_then,
        }
    }

    /// Builds the ordered announcement plan for this step pair.
    pub fn build(&self) -> (r: Vec<AnnounceAt>)
        requires
            self.wf(),
        ensures
            r@ == self.spec_build(),
            forall|i: int|
                0 <= i < r@.len() ==> 0 <= spec_distance_of(#[trigger] r@[i]).base <= MAX_BASE,
    {
        let mut r: Vec<AnnounceAt> = Vec::new();
        self.build_entry(AnnouncementType::Depart, &mut r);
        self.build_entry(AnnouncementType::Continue, &mut r);
        self.build_entry(AnnouncementType::PreApproach, &mut r);
        self.build_entry(AnnouncementType::Approach, &mut r);
        self.build_entry(AnnouncementType::Maneuver, &mut r);
        self.build_entry(AnnouncementType::ManeuverAndThen, &mut r);
        proof {
            assert(r@ =~= self.spec_build());
        }
        r
    }

    /// Appends one rule's contribution to the plan.
    fn build_entry(&self, t: AnnouncementType, out: &mut Vec<AnnounceAt>)
        requires
            self.wf(),
        ensures
            final(out)@ == old(out)@ + self.spec_entry(t),
            forall|i: int|
                old(out)@.len() <= i < final(out)@.len() ==> 0 <= spec_distance_of(
                    #[trigger] final(out)@[i],
                ).base <= MAX_BASE,
    {
        match self.create_announcement(t) {
            Some(a) => {
                if self.should_announce(a) {
                    proof {
                        lemma_create_bounds(*self, t);
                    }
                    out.push(a);
                } else {
                    proof {
                        assert(out@ =~= old(out)@ + self.spec_entry(t));
                    }
                }
            },
            None => {
                proof {
                    assert(out@ =~= old(out)@ + self.spec_entry(t));
                }
            },
        }
        proof {
            assert(out@ =~= old(out)@ + self.spec_entry(t));
        }
    }
}

/// A percentage of a nonnegative magnitude stays between zero and the
/// magnitude itself.
pub proof fn lemma_pct_bounds(base: int, pct: int)
    requires
        0 <= base,
        0 <= pct <= 100,
    ensures
        0 <= spec_pct(base, pct) <= base,
{
    assert(base * pct == pct * base) by (nonlinear_arith);
    assert(base * 100 == 100 * base) by (nonlinear_arith);
    assert(base * pct >= 0) by (nonlinear_arith)
        requires
            base >= 0 && pct >= 0,
    ;
    lemma_mul_inequality(pct, 100, base);
    lemma_div_is_ordered(base * pct, base * 100, 100);
    lemma_div_multiples_vanish(base, 100);
    lemma_div_is_ordered(0, base * pct, 100);
}

/// Every candidate announcement carries a distance within the
/// well-formed range.
pub proof fn lemma_create_bounds(va: VoiceAnnouncements, t: AnnouncementType)
    requires
        va.wf(),
    ensures
        va.spec_create(t) matches Some(a) ==> 0 <= spec_distance_of(a).base <= MAX_BASE,
{
    let sd = spec_step_distance_base(*va.current);
    assert(0 <= sd <= MAX_BASE);
    lemma_pct_bounds(sd, 98);
    lemma_pct_bounds(sd, 90);
    lemma_pct_bounds(sd, 95);
}

/// The unit a whole-unit constant is expressed in under the flag.
pub open spec fn spec_flag_unit(metric: bool) -> Unit {
    if metric {
        Unit::Kilometers
    } else {
        Unit::Miles
    }
}

/// Whether the plan contains an announcement of the given kind.
pub open spec fn spec_has_kind(s: Seq<AnnounceAt>, t: AnnouncementType) -> bool {
    exists|i: int| 0 <= i < s.len() && spec_kind_of(#[trigger] s[i]) == t
}

/// Exactly one of the two maneuver announcements fires per step pair:
/// the plan contains a ManeuverAndThen exactly when the next step is
/// very short, and a plain Maneuver exactly otherwise — never both and
/// never neither.
pub proof fn lemma_maneuver_exclusive(va: VoiceAnnouncements)
    ensures
        spec_has_kind(va.spec_build(), AnnouncementType::Maneuver) <==> !va.spec_needs_then(),
        spec_has_kind(va.spec_build(), AnnouncementType::ManeuverAndThen) <==> va.spec_needs_then(),
{
    let b = va.spec_build();
    let head = va.spec_entry(AnnouncementType::Depart) + va.spec_entry(AnnouncementType::Continue)
        + va.spec_entry(AnnouncementType::PreApproach) + va.spec_entry(AnnouncementType::Approach);
    let man = va.spec_entry(AnnouncementType::Maneuver);
    let then = va.spec_entry(AnnouncementType::ManeuverAndThen);
    assert(forall|i: int|
        0 <= i < head.len() ==> spec_kind_of(#[trigger] head[i]) != AnnouncementType::Maneuver
            && spec_kind_of(head[i]) != AnnouncementType::ManeuverAndThen);
    if va.spec_needs_then() {
        assert(man =~= Seq::<AnnounceAt>::empty());
        assert(b[b.len() - 1] == then[0]);
        assert(spec_kind_of(b[b.len() - 1]) == AnnouncementType::ManeuverAndThen);
        assert forall|i: int| 0 <= i < b.len() implies spec_kind_of(#[trigger] b[i])
            != AnnouncementType::Maneuver by {
            if i < head.len() {
                assert(b[i] == head[i]);
            } else {
                assert(b[i] == then[i - head.len()]);
            }
        }
    } else {
        assert(then =~= Seq::<AnnounceAt>::empty());
        assert(b[b.len() - 1] == man[0]);
        assert(spec_kind_of(b[b.len() - 1]) == AnnouncementType::Maneuver);
        assert forall|i: int| 0 <= i < b.len() implies spec_kind_of(#[trigger] b[i])
            != AnnouncementType::ManeuverAndThen by {
            if i < head.len() {
                assert(b[i] == head[i]);
            } else {
                assert(b[i] == man[i - head.len()]);
            }
        }
    }
}

} // verus!
