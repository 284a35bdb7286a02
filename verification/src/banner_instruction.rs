//! The on-screen banner for a step: the next maneuver's display name and
//! indication, shown over the current step's remaining length, or an
//! arrival banner when there is no next step.

use vstd::prelude::*;

use crate::models::BannerContent;
use crate::models::BannerContentComponentsInner;
use crate::models::BannerInstruction;
use crate::models::ManeuverModifier;
use crate::models::ManeuverType;
use crate::models::RouteStep;
use crate::utilities::spec_step_maneuver_name;
use crate::utilities::step_maneuver_name;

verus! {

/// Builds the banner for one (current step, next step) pair.
pub struct BannerInstructionsFactory<'a> {
    pub next_step: Option<&'a RouteStep>,
    pub step: Option<&'a RouteStep>,
}

/// The distance the banner is shown over: the current step's length in
/// micro-meters, or zero when the step or its length is absent.
pub open spec fn spec_banner_length(step: Option<RouteStep>) -> int {
    match step {
        Some(s) => match s.distance {
            Some(d) => d as int,
            None => 0,
        },
        None => 0,
    }
}

/// The maneuver type the banner shows for a next step.
pub open spec fn spec_banner_type(step: RouteStep) -> Option<ManeuverType> {
    match step.maneuver {
        Some(m) => m.maneuver_type,
        None => None,
    }
}

/// The maneuver modifier the banner shows for a next step.
pub open spec fn spec_banner_modifier(step: RouteStep) -> Option<ManeuverModifier> {
    match step.maneuver {
        Some(m) => m.modifier,
        None => None,
    }
}

/// What a built banner content looks like: the given text, the given
/// indication, and a single text component repeating the text.
pub open spec fn spec_content_ok(
    c: BannerContent,
    text: Seq<char>,
    maneuver_type: Option<ManeuverType>,
    modifier: Option<ManeuverModifier>,
) -> bool {
    &&& c.text@ == text
    &&& c.maneuver_type == maneuver_type
    &&& c.modifier == modifier
    &&& c.components matches Some(cs) && cs@.len() == 1
    &&& (c.components.unwrap()@[0].component_type matches Some(t) && t@ == "text"@)
    &&& (c.components.unwrap()@[0].text matches Some(t) && t@ == text)
}

/// What the banner for this pair must hold: with a next step, its
/// maneuver name and indication over the current step's length; without
/// one, an arrival banner at distance zero.
pub open spec fn spec_banner_ok(
    next_step: Option<RouteStep>,
    step: Option<RouteStep>,
    r: BannerInstruction,
) -> bool {
    &&& r.secondary is None
    &&& match next_step {
        Some(next) => {
            &&& r.distance_along_geometry == spec_banner_length(step)
            &&& spec_content_ok(
                r.primary,
                spec_step_maneuver_name(next),
                spec_banner_type(next),
                spec_banner_modifier(next),
            )
        },
        None => {
            &&& r.distance_along_geometry == 0
            &&& spec_content_ok(r.primary, "arrive"@, Some(ManeuverType::Arrive), None)
        },
    }
}

impl<'a> BannerInstructionsFactory<'a> {
    /// The value of `self.next_step`, as plain data.
    pub open spec fn spec_next_step(self) -> Option<RouteStep> {
        match self.next_step {
            Some(s) => Some(*s),
            None => None,
        }
    }

    /// The value of `self.step`, as plain data.
    pub open spec fn spec_step(self) -> Option<RouteStep> {
        match self.step {
            Some(s) => Some(*s),
            None => None,
        }
    }

    /// Builds a factory over a (next step, current step) pair.
    pub fn new(next_step: Option<&'a RouteStep>, step: Option<&'a RouteStep>) -> (r:
        BannerInstructionsFactory<'a>)
        ensures
            r.next_step == next_step,
            r.step == step,
    {
        BannerInstructionsFactory { next_step, step }
    }

    /// Builds the banner list for this pair: always exactly one banner.
    pub fn build(&self) -> (r: Vec<BannerInstruction>)
        ensures
            r@.len() == 1,
            spec_banner_ok(self.spec_next_step(), self.spec_step(), r@[0]),
    {
        let banner = self.generate();
        let mut r: Vec<BannerInstruction> = Vec::new();
        r.push(banner);
        r
    }

    /// The banner for this pair: the next step's maneuver over the
    /// current step's length, or the arrival banner.
    fn generate(&self) -> (r: BannerInstruction)
        ensures
            spec_banner_ok(self.spec_next_step(), self.spec_step(), r),
    {
        match self.next_step {
            Some(step) => {
                let length = match self.step {
                    Some(s) => match s.distance {
                        Some(d) => d,
                        None => 0,
                    },
                    None => 0,
                };
                let name = step_maneuver_name(step);
                let (maneuver_type, modifier) = match &step.maneuver {
                    Some(m) => (m.maneuver_type, m.modifier),
                    None => (None, None),
                };
                let component = BannerContentComponentsInner {
                    component_type: Some(String::from_str("text")),
                    text: Some(name.clone()),
                };
                let mut components: Vec<BannerContentComponentsInner> = Vec::new();
                components.push(component);
                let primary = BannerContent {
                    text: name,
                    maneuver_type,
                    modifier,
                    components: Some(components),
                };
                BannerInstruction { distance_along_geometry: length, primary, secondary: None }
            },
            None => self.arrival(),
        }
    }

    /// The banner shown at the end of a leg: an arrival indication at
    /// distance zero.
    fn arrival(&self) -> (r: BannerInstruction)
        ensures
            r.distance_along_geometry == 0,
            r.secondary is None,
            spec_content_ok(r.primary, "arrive"@, Some(ManeuverType::Arrive), None),
    {
        let text = String::from_str("arrive");
        let component = BannerContentComponentsInner {
            component_type: Some(String::from_str("text")),
            text: Some(text.clone()),
        };
        let mut components: Vec<BannerContentComponentsInner> = Vec::new();
        components.push(component);
        let primary = BannerContent {
            text,
            maneuver_type: Some(ManeuverType::Arrive),
            modifier: None,
            components: Some(components),
        };
        BannerInstruction { distance_along_geometry: 0, primary, secondary: None }
    }
}

} // verus!
