//! Helpers shared by the instruction factories: the display name of a
//! step's maneuver, and the telemetry speed at a distance into a step.

use vstd::prelude::*;

use crate::geometry::locate;
use crate::geometry::spec_locate;
use crate::geometry::spec_total;
use crate::json::spec_value_to_string;
use crate::json::value_to_string;
use crate::models::Annotation;
use crate::models::RouteStep;

verus! {

/// The text a JSON field contributes to a name: its string when the
/// extraction succeeds with one, nothing when the field is absent, null,
/// or of an unsupported shape.
pub open spec fn spec_field_text(v: Option<serde_json::Value>, field: Seq<char>) -> Option<
    Seq<char>,
> {
    match spec_value_to_string(v, field) {
        Ok(Some(s)) => Some(s),
        Ok(None) => None,
        Err(_) => None,
    }
}

/// The fallback name drawn from exits and destinations: with destinations
/// alone, their text when non-empty; with both, the two texts joined by a
/// space (each replaced by the empty string when it yields nothing);
/// nothing otherwise.
pub open spec fn spec_fallback_name(step: RouteStep) -> Option<Seq<char>> {
    if step.exits is None && step.destinations is Some {
        match spec_field_text(step.destinations, "destinations"@) {
            Some(s) => if s.len() > 0 {
                Some(s)
            } else {
                None
            },
            None => None,
        }
    } else if step.exits is Some && step.destinations is Some {
        let e = match spec_field_text(step.exits, "exits"@) {
            Some(s) => s,
            None => Seq::<char>::empty(),
        };
        let d = match spec_field_text(step.destinations, "destinations"@) {
            Some(s) => s,
            None => Seq::<char>::empty(),
        };
        Some(e + " "@ + d)
    } else {
        None
    }
}

/// The display name of a step's maneuver: the first non-empty among the
/// step's name and reference, then the exits/destinations fallback, and
/// the empty string when nothing applies.
pub open spec fn spec_step_maneuver_name(step: RouteStep) -> Seq<char> {
    if step.name is Some && step.name.unwrap()@.len() > 0 {
        step.name.unwrap()@
    } else if step.reference is Some && step.reference.unwrap()@.len() > 0 {
        step.reference.unwrap()@
    } else {
        match spec_fallback_name(step) {
            Some(s) => s,
            None => Seq::<char>::empty(),
        }
    }
}

/// Resolves the display name of a step's maneuver, preferring the street
/// name, then the road reference, then the exits/destinations texts.
pub fn step_maneuver_name(step: &RouteStep) -> (r: String)
    ensures
        r@ == spec_step_maneuver_name(*step),
{
    if let Some(n) = &step.name {
        if n.unicode_len() > 0 {
            return n.clone();
        }
    }
    if let Some(n) = &step.reference {
        if n.unicode_len() > 0 {
            return n.clone();
        }
    }
    let has_exits = step.exits.is_some();
    let has_destinations = step.destinations.is_some();
    if !has_exits && has_destinations {
        match value_to_string(step.destinations.as_ref(), "destinations") {
            Ok(Some(s)) => {
                if s.unicode_len() > 0 {
                    s
                } else {
                    String::new()
                }
            },
            _ => String::new(),
        }
    } else if has_exits && has_destinations {
        let mut joined = match value_to_string(step.exits.as_ref(), "exits") {
            Ok(Some(s)) => s,
            _ => String::new(),
        };
        let destinations = match value_to_string(step.destinations.as_ref(), "destinations") {
            Ok(Some(s)) => s,
            _ => String::new(),
        };
        joined.append(" ");
        joined.append(destinations.as_str());
        joined
    } else {
        String::new()
    }
}

/// The telemetry speed sample (thousandths of m/s) nearest to a distance
/// into a step: the sample at the point index `locate` resolves, or
/// nothing when the path is degenerate, the speeds are absent, or the
/// index falls past the last sample.
pub open spec fn spec_speed_at_distance(segs: Seq<u64>, ann: Annotation, d: int) -> Option<i64> {
    match spec_locate(segs, d) {
        None => None,
        Some(i) => match ann.speed {
            None => None,
            Some(v) => if 0 <= i < v@.len() {
                Some(v@[i])
            } else {
                None
            },
        },
    }
}

/// Reads the speed sample nearest to `distance` (micro-meters into the
/// step) from the step's telemetry.
pub fn speed_at_distance(segment_lengths: &Vec<u64>, annotation: &Annotation, distance: i64) -> (r:
    Option<i64>)
    requires
        spec_total(segment_lengths@) <= u64::MAX,
    ensures
        r == spec_speed_at_distance(segment_lengths@, *annotation, distance as int),
{
    let index = match locate(segment_lengths, distance) {
        None => {
            return None;
        },
        Some(i) => i,
    };
    match &annotation.speed {
        None => None,
        Some(v) => {
            if index < v.len() {
                Some(v[index])
            } else {
                None
            }
        },
    }
}

} // verus!
