//! The arguments of a tool call, as they are given on the command line.

use vstd::prelude::*;

verus! {

/// `serde_json::Value`, a JSON value.
#[verifier::external_type_specification]
#[verifier::external_body]
pub struct ExValue(serde_json::Value);

/// `serde_json::Map`, the members of a JSON object.
#[verifier::external_type_specification]
#[verifier::external_body]
#[verifier::reject_recursive_types(K)]
#[verifier::reject_recursive_types(V)]
pub struct ExJsonMap<K, V>(serde_json::Map<K, V>);

/// A JSON object as compact text: what `serde_json` displays it as.
pub uninterp spec fn object_text(object: serde_json::Map<String, serde_json::Value>) -> Seq<char>;

/// A JSON value that was parsed: an object with its members, or which other kind
/// of value it is.
pub enum ParsedJson {
    Null,
    Bool,
    Number,
    Text,
    Array,
    Object(serde_json::Map<String, serde_json::Value>),
}

/// A JSON value: an object as its compact text, or which other kind of value it
/// is.
pub enum JsonModel {
    Null,
    Bool,
    Number,
    Text,
    Array,
    Object(Seq<char>),
}

impl View for ParsedJson {
    type V = JsonModel;

    open spec fn view(&self) -> JsonModel {
        match self {
            ParsedJson::Null => JsonModel::Null,
            ParsedJson::Bool => JsonModel::Bool,
            ParsedJson::Number => JsonModel::Number,
            ParsedJson::Text => JsonModel::Text,
            ParsedJson::Array => JsonModel::Array,
            ParsedJson::Object(members) => JsonModel::Object(object_text(*members)),
        }
    }
}

/// What `serde_json::from_str` makes of a text: a JSON value, or the description
/// of an error.
pub uninterp spec fn json_of(text: Seq<char>) -> Result<JsonModel, Seq<char>>;

/// The outcome of parsing, as mathematical values.
pub open spec fn outcome(parsed: Result<ParsedJson, String>) -> Result<JsonModel, Seq<char>> {
    match parsed {
        Ok(value) => Ok(value@),
        Err(error) => Err(error@),
    }
}

/// `serde_json::from_str`, to a `serde_json::Value`: the value that `text` is, or
/// the displayed error where it is no JSON.
#[verifier::external_body]
fn parse_json(text: &str) -> (parsed: Result<ParsedJson, String>)
    ensures
        outcome(parsed) == json_of(text@),
{
    match serde_json::from_str::<serde_json::Value>(text) {
        Ok(serde_json::Value::Null) => Ok(ParsedJson::Null),
        Ok(serde_json::Value::Bool(_)) => Ok(ParsedJson::Bool),
        Ok(serde_json::Value::Number(_)) => Ok(ParsedJson::Number),
        Ok(serde_json::Value::String(_)) => Ok(ParsedJson::Text),
        Ok(serde_json::Value::Array(_)) => Ok(ParsedJson::Array),
        Ok(serde_json::Value::Object(members)) => Ok(ParsedJson::Object(members)),
        Err(error) => Err(error.to_string()),
    }
}

/// The `Display` of `serde_json::Value` on an object: its compact text.
#[verifier::external_body]
pub(crate) fn display_object(object: &serde_json::Map<String, serde_json::Value>) -> (text: String)
    ensures
        text@ == object_text(*object),
{
    serde_json::Value::Object(object.clone()).to_string()
}

/// Why arguments cannot be used.
pub enum ArgumentsError {
    /// They are no JSON; the parser says why.
    Malformed(String),
    /// They are JSON, but no object.
    NotAnObject,
}

impl ArgumentsError {
    /// The text of each error.
    pub open spec fn text(self) -> Seq<char> {
        match self {
            ArgumentsError::Malformed(error) => "Failed to parse JSON arguments: "@ + error@,
            ArgumentsError::NotAnObject =>
                "JSON arguments must be an object (e.g., {\"key\": \"value\"})"@,
        }
    }

    /// What is wrong with the arguments, in words.
    pub fn message(&self) -> (text: String)
        ensures
            text@ == self.text(),
    {
        match self {
            ArgumentsError::Malformed(error) => {
                let mut text: String = "Failed to parse JSON arguments: ".to_string();
                text.append(error.as_str());
                text
            },
            ArgumentsError::NotAnObject =>
                "JSON arguments must be an object (e.g., {\"key\": \"value\"})".to_string(),
        }
    }
}

/// Why a text gives no arguments.
pub enum ArgumentsProblem {
    Malformed(Seq<char>),
    NotAnObject,
}

/// The arguments that a text gives, as compact text, where it gives any.
pub open spec fn arguments_in(text: Seq<char>) -> Result<Option<Seq<char>>, ArgumentsProblem> {
    if text.len() == 0 {
        Ok(None)
    } else {
        match json_of(text) {
            Ok(JsonModel::Object(compact)) => Ok(Some(compact)),
            Ok(_) => Err(ArgumentsProblem::NotAnObject),
            Err(error) => Err(ArgumentsProblem::Malformed(error)),
        }
    }
}

/// Whether `arguments` are those that were `expected`, or the error is.
pub open spec fn gives(
    arguments: Result<Option<serde_json::Map<String, serde_json::Value>>, ArgumentsError>,
    expected: Result<Option<Seq<char>>, ArgumentsProblem>,
) -> bool {
    match (arguments, expected) {
        (Ok(None), Ok(None)) => true,
        (Ok(Some(object)), Ok(Some(compact))) => object_text(object) == compact,
        (Err(ArgumentsError::NotAnObject), Err(ArgumentsProblem::NotAnObject)) => true,
        (Err(ArgumentsError::Malformed(m)), Err(ArgumentsProblem::Malformed(e))) => m@ == e,
        _ => false,
    }
}

/// The members of the object that was parsed; an error where there was another
/// value, or none.
pub fn require_object(parsed: Result<ParsedJson, String>) -> (object: Result<
    serde_json::Map<String, serde_json::Value>,
    ArgumentsError,
>)
    ensures
        match parsed {
            Ok(ParsedJson::Object(members)) => object matches Ok(o) && o == members,
            Ok(_) => object matches Err(e) && e is NotAnObject,
            Err(error) => object matches Err(e) && e == ArgumentsError::Malformed(error),
        },
{
    match parsed {
        Ok(ParsedJson::Object(members)) => Ok(members),
        Ok(_) => Err(ArgumentsError::NotAnObject),
        Err(error) => Err(ArgumentsError::Malformed(error)),
    }
}

/// The arguments that `text` gives: none where it is empty, and else the
/// members of the JSON object that it is.
pub fn tool_arguments(text: &str) -> (arguments: Result<
    Option<serde_json::Map<String, serde_json::Value>>,
    ArgumentsError,
>)
    ensures
        text@.len() == 0 ==> (arguments matches Ok(a) && a is None),
        text@.len() > 0 ==> match json_of(text@) {
            Ok(JsonModel::Object(compact)) => arguments matches Ok(a) && a matches Some(object)
                && object_text(object) == compact,
            Ok(_) => arguments matches Err(e) && e is NotAnObject,
            Err(error) => arguments matches Err(e) && e matches ArgumentsError::Malformed(m) && m@
                == error,
        },
        gives(arguments, arguments_in(text@)),
{
    if text.is_empty() {
        return Ok(None);
    }
    match require_object(parse_json(text)) {
        Ok(object) => Ok(Some(object)),
        Err(error) => Err(error),
    }
}

} // verus!
