//! The normalizer of command output.
//!
//! A query that finds nothing prints nothing, or `null`; one that finds a
//! single record prints a bare JSON object; one that finds several prints a JSON
//! array. The normalizer turns each of the three shapes into one sequence of
//! records, in the order of the output. The JSON itself is read by `serde_json`.

use crate::powershell::{FailureModel, PowerShellError};
use crate::text::same_text;
use vstd::prelude::*;
use vstd::string::*;

verus! {

/// A JSON value of `serde_json`. Its inside is not visible to the verifier;
/// [`string_members`] names what this library reads of it.
#[verifier::external_type_specification]
#[verifier::external_body]
pub struct ExJsonValue(serde_json::Value);

/// What a record holds: for a JSON object, the members whose value is a JSON
/// string, each name with the text of its string. A member with a value of
/// another kind is not in the map, and a value that is no object has an empty
/// map.
pub uninterp spec fn string_members(value: serde_json::Value) -> Map<Seq<char>, Seq<char>>;

/// What `serde_json::from_str` makes of a text read as one JSON value: the
/// string members of that value, or the message of the decoding error.
pub uninterp spec fn decoded_value(text: Seq<char>) -> Result<Map<Seq<char>, Seq<char>>, Seq<char>>;

/// What `serde_json::from_str` makes of a text read as an array of JSON values:
/// the string members of each element, in the order of the text, or the message
/// of the decoding error.
pub uninterp spec fn decoded_array(text: Seq<char>) -> Result<
    Seq<Map<Seq<char>, Seq<char>>>,
    Seq<char>,
>;

/// The string members of each record of a sequence.
pub open spec fn members_of(records: Seq<serde_json::Value>) -> Seq<Map<Seq<char>, Seq<char>>> {
    records.map_values(|value: serde_json::Value| string_members(value))
}

/// Reads a text as one JSON value with `serde_json::from_str`. The outcome is a
/// function of the text alone, which [`decoded_value`] names: the value read,
/// or the text of the error as `serde_json` prints it.
#[verifier::external_body]
fn decode_value(text: &str) -> (outcome: Result<serde_json::Value, String>)
    ensures
        match outcome {
            Ok(value) => decoded_value(text@) == Ok::<_, Seq<char>>(string_members(value)),
            Err(message) => decoded_value(text@) == Err::<Map<Seq<char>, Seq<char>>, _>(message@),
        },
{
    match serde_json::from_str::<serde_json::Value>(text) {
        Ok(value) => Ok(value),
        Err(error) => Err(error.to_string()),
    }
}

/// Reads a text as an array of JSON values with `serde_json::from_str`. The
/// outcome is a function of the text alone, which [`decoded_array`] names: the
/// elements in the order of the text, or the text of the error as `serde_json`
/// prints it.
#[verifier::external_body]
fn decode_array(text: &str) -> (outcome: Result<Vec<serde_json::Value>, String>)
    ensures
        match outcome {
            Ok(values) => decoded_array(text@) == Ok::<_, Seq<char>>(members_of(values@)),
            Err(message) => decoded_array(text@) == Err::<Seq<Map<Seq<char>, Seq<char>>>, _>(
                message@,
            ),
        },
{
    match serde_json::from_str::<Vec<serde_json::Value>>(text) {
        Ok(values) => Ok(values),
        Err(error) => Err(error.to_string()),
    }
}

/// Looks a member up by name with `Value::get` and takes its text with
/// `Value::as_str`: the text of the member `name` where the value is an object
/// that has such a member and the member is a JSON string, nothing otherwise.
#[verifier::external_body]
pub(crate) fn string_member(value: &serde_json::Value, name: &str) -> (text: Option<String>)
    ensures
        text is Some == string_members(*value).contains_key(name@),
        text matches Some(t) ==> t@ == string_members(*value)[name@],
{
    value.get(name).and_then(|member| member.as_str()).map(|text| text.to_string())
}

/// The three shapes of command output.
#[derive(Debug, Clone, Copy, PartialEq, Eq, Structural)]
pub enum PayloadShape {
    /// No output, or the null marker: no record.
    Empty,
    /// Output that opens an array: any number of records.
    Array,
    /// Any other output: one record.
    Single,
}

/// The text that a query prints when it finds nothing.
pub const NULL_MARKER: &'static str = "null";

/// The shape of an output.
pub open spec fn shape_of(text: Seq<char>) -> PayloadShape {
    if text.len() == 0 || text == NULL_MARKER@ {
        PayloadShape::Empty
    } else if text[0] == '[' {
        PayloadShape::Array
    } else {
        PayloadShape::Single
    }
}

/// The records of an output, each by its string members, or the message of
/// the decoding error.
pub open spec fn normalized(text: Seq<char>) -> Result<Seq<Map<Seq<char>, Seq<char>>>, Seq<char>> {
    match shape_of(text) {
        PayloadShape::Empty => Ok(Seq::empty()),
        PayloadShape::Array => decoded_array(text),
        PayloadShape::Single => match decoded_value(text) {
            Ok(members) => Ok(seq![members]),
            Err(message) => Err(message),
        },
    }
}

/// Tells the shape of an output by its first character, without decoding it.
/// Every consumer of command output branches on this, so that none drops or
/// doubles a record that another keeps.
pub fn payload_shape(raw: &str) -> (shape: PayloadShape)
    ensures
        shape == shape_of(raw@),
{
    if raw.is_empty() || same_text(raw, NULL_MARKER) {
        PayloadShape::Empty
    } else if raw.get_char(0) == '[' {
        PayloadShape::Array
    } else {
        PayloadShape::Single
    }
}

/// The records of an output, in its order: none for an empty output, each
/// element for an array, the one value otherwise. An output that does not
/// decode gives `ParseError` with the message of the decoder.
pub fn normalize(raw: &str) -> (outcome: Result<Vec<serde_json::Value>, PowerShellError>)
    ensures
        match outcome {
            Ok(records) => normalized(raw@) == Ok::<_, Seq<char>>(members_of(records@)),
            Err(failure) => normalized(raw@) is Err && failure@ == FailureModel::ParseError(
                normalized(raw@)->Err_0,
            ),
        },
        shape_of(raw@) == PayloadShape::Empty ==> outcome is Ok && outcome->Ok_0@.len() == 0,
        shape_of(raw@) == PayloadShape::Single && outcome is Ok ==> outcome->Ok_0@.len() == 1,
{
    match payload_shape(raw) {
        PayloadShape::Empty => {
            let records: Vec<serde_json::Value> = Vec::new();
            assert(members_of(records@) =~= Seq::empty());
            Ok(records)
        },
        PayloadShape::Array => match decode_array(raw) {
            Ok(records) => Ok(records),
            Err(message) => Err(PowerShellError::ParseError(message)),
        },
        PayloadShape::Single => match decode_value(raw) {
            Ok(value) => {
                let mut records: Vec<serde_json::Value> = Vec::new();
                records.push(value);
                assert(members_of(records@) =~= seq![string_members(value)]);
                Ok(records)
            },
            Err(message) => Err(PowerShellError::ParseError(message)),
        },
    }
}

} // verus!
