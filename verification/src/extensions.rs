//! Extension traits for reading the loosely-typed fields of a step.

use vstd::prelude::*;

use crate::json::json_shape;
use crate::json::spec_shape_to_string;
use crate::json::spec_string_result_view;
use crate::json::spec_value_to_string;
use crate::json::value_to_string;
use crate::models::RouteStep;
use crate::models::StepManeuver;

verus! {

/// Extension trait for `RouteStep` to safely extract strings from its
/// JSON-valued fields.
pub trait RouteStepExt {
    /// The step's raw geometry field.
    spec fn spec_geometry(&self) -> Option<serde_json::Value>;

    /// The step's raw destinations field.
    spec fn spec_destinations(&self) -> Option<serde_json::Value>;

    /// The step's raw exits field.
    spec fn spec_exits(&self) -> Option<serde_json::Value>;

    /// Extracts the geometry as a string, with a recoverable error for
    /// the unsupported structured shapes.
    fn geometry_string(&self) -> (r: Result<Option<String>, String>)
        ensures
            spec_string_result_view(r) == spec_value_to_string(self.spec_geometry(), "geometry"@),
    ;

    /// Extracts the destinations as a string, with a recoverable error
    /// for the unsupported structured shapes.
    fn destinations_string(&self) -> (r: Result<Option<String>, String>)
        ensures
            spec_string_result_view(r) == spec_value_to_string(
                self.spec_destinations(),
                "destinations"@,
            ),
    ;

    /// Extracts the exits as a string, with a recoverable error for the
    /// unsupported structured shapes.
    fn exits_string(&self) -> (r: Result<Option<String>, String>)
        ensures
            spec_string_result_view(r) == spec_value_to_string(self.spec_exits(), "exits"@),
    ;
}

/// Extension trait for `StepManeuver` to extract its instruction text.
pub trait StepManeuverExt {
    /// The maneuver's raw instruction field.
    spec fn spec_instruction(&self) -> Option<String>;

    /// Extracts the instruction as a string. The instruction is already
    /// plain text, so this never fails.
    fn instruction_string(&self) -> (r: Result<Option<String>, String>)
        ensures
            spec_string_result_view(r) == (match self.spec_instruction() {
                None => Ok::<Option<Seq<char>>, Seq<char>>(None),
                Some(s) => Ok(Some(s@)),
            }),
    ;
}

impl RouteStepExt for RouteStep {
    open spec fn spec_geometry(&self) -> Option<serde_json::Value> {
        self.geometry
    }

    open spec fn spec_destinations(&self) -> Option<serde_json::Value> {
        self.destinations
    }

    open spec fn spec_exits(&self) -> Option<serde_json::Value> {
        self.exits
    }

    fn geometry_string(&self) -> (r: Result<Option<String>, String>) {
        value_to_string(self.geometry.as_ref(), "geometry")
    }

    fn destinations_string(&self) -> (r: Result<Option<String>, String>) {
        value_to_string(self.destinations.as_ref(), "destinations")
    }

    fn exits_string(&self) -> (r: Result<Option<String>, String>) {
        value_to_string(self.exits.as_ref(), "exits")
    }
}

impl StepManeuverExt for StepManeuver {
    open spec fn spec_instruction(&self) -> Option<String> {
        self.instruction
    }

    fn instruction_string(&self) -> (r: Result<Option<String>, String>) {
        match &self.instruction {
            None => Ok(None),
            Some(s) => Ok(Some(s.clone())),
        }
    }
}

} // verus!
