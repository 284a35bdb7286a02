//! Safe extraction of strings from loosely-typed JSON fields.
//!
//! Route fields such as `geometry`, `exits` and `destinations` arrive as
//! arbitrary JSON values. This module reduces such a value to its
//! [`JsonShape`] — the one piece of outside state the library reasons
//! about — and turns the shape into either a string, an absent result, or
//! a recoverable error for the structured shapes the library does not
//! support. The error case is kept distinct from plain absence because it
//! indicates an upstream contract violation worth surfacing.

use vstd::prelude::*;

verus! {

#[verifier::external_type_specification]
#[verifier::external_body]
pub struct ExValue(serde_json::Value);

/// What a JSON value holds, reduced to plain library data: nothing, a
/// piece of text (its own, or the rendering of a number), a boolean, or
/// one of the two structured shapes the library does not read into.
#[derive(Debug, Clone, PartialEq)]
pub enum JsonShape {
    Null,
    Text(String),
    NumberText(String),
    BoolValue(bool),
    Array,
    Object,
}

/// The shape of a JSON value. A given value always reduces to the same
/// shape, so the result is a function of the value alone.
pub uninterp spec fn json_shape(v: serde_json::Value) -> JsonShape;

/// Relies on `serde_json::Value`: one match arm per variant of the value
/// enum, moving the string payload out by clone, the boolean by copy, and
/// rendering a number with serde_json's own formatter.
#[verifier::external_body]
pub fn value_shape(v: &serde_json::Value) -> (s: JsonShape)
    ensures
        s == json_shape(*v),
{
    match v {
        serde_json::Value::Null => JsonShape::Null,
        serde_json::Value::Bool(b) => JsonShape::BoolValue(*b),
        serde_json::Value::Number(n) => JsonShape::NumberText(n.to_string()),
        serde_json::Value::String(s) => JsonShape::Text(s.clone()),
        serde_json::Value::Array(_) => JsonShape::Array,
        serde_json::Value::Object(_) => JsonShape::Object,
    }
}

/// The string a shape reduces to: absent for null, the text for textual
/// and scalar shapes, and an error naming the field for arrays and
/// objects.
pub open spec fn spec_shape_to_string(shape: JsonShape, field: Seq<char>) -> Result<
    Option<Seq<char>>,
    Seq<char>,
> {
    match shape {
        JsonShape::Null => Ok(None),
        JsonShape::Text(s) => Ok(Some(s@)),
        JsonShape::NumberText(s) => Ok(Some(s@)),
        JsonShape::BoolValue(b) => Ok(Some(if b {
            "true"@
        } else {
            "false"@
        })),
        JsonShape::Object => Err(
            field + " field contains a JSON object, which is not yet supported. Please file an issue with your use case."@,
        ),
        JsonShape::Array => Err(
            field + " field contains a JSON array, which is not yet supported. Please file an issue with your use case."@,
        ),
    }
}

/// The view of an extraction result, for stating contracts.
pub open spec fn spec_string_result_view(r: Result<Option<String>, String>) -> Result<
    Option<Seq<char>>,
    Seq<char>,
> {
    match r {
        Ok(None) => Ok(None),
        Ok(Some(s)) => Ok(Some(s@)),
        Err(e) => Err(e@),
    }
}

/// Turns the shape of a JSON field into the field's string: nothing for a
/// null, the text for text, numbers and booleans, and a recoverable error
/// naming the field for an object or array.
pub fn shape_to_string(shape: JsonShape, field_name: &str) -> (r: Result<Option<String>, String>)
    ensures
        spec_string_result_view(r) == spec_shape_to_string(shape, field_name@),
{
    match shape {
        JsonShape::Null => Ok(None),
        JsonShape::Text(s) => Ok(Some(s)),
        JsonShape::NumberText(s) => Ok(Some(s)),
        JsonShape::BoolValue(b) => {
            if b {
                Ok(Some(String::from_str("true")))
            } else {
                Ok(Some(String::from_str("false")))
            }
        },
        JsonShape::Object => {
            let mut e = String::from_str(field_name);
            e.append(
                " field contains a JSON object, which is not yet supported. Please file an issue with your use case.",
            );
            Err(e)
        },
        JsonShape::Array => {
            let mut e = String::from_str(field_name);
            e.append(
                " field contains a JSON array, which is not yet supported. Please file an issue with your use case.",
            );
            Err(e)
        },
    }
}

/// What `value_to_string` yields for an optional JSON field of the given
/// shape.
pub open spec fn spec_value_to_string(value: Option<serde_json::Value>, field: Seq<char>) -> Result<
    Option<Seq<char>>,
    Seq<char>,
> {
    match value {
        None => Ok(None),
        Some(v) => spec_shape_to_string(json_shape(v), field),
    }
}

/// Safely converts an optional JSON field to a string, treating an absent
/// field and a JSON null alike and reporting the unsupported structured
/// shapes as a recoverable error that names the field.
pub fn value_to_string(value: Option<&serde_json::Value>, field_name: &str) -> (r: Result<
    Option<String>,
    String,
>)
    ensures
        match value {
            None => r matches Ok(o) && o is None,
            Some(v) => spec_string_result_view(r) == spec_shape_to_string(
                json_shape(*v),
                field_name@,
            ),
        },
{
    match value {
        None => Ok(None),
        Some(v) => {
            let shape = value_shape(v);
            shape_to_string(shape, field_name)
        },
    }
}

} // verus!
