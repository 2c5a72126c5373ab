//! The JSON editor: whether the typed text is a JSON object, and what the
//! editor says when it is not.
use vstd::prelude::*;
use vstd::string::StringExecFns;

verus! {

/// A JSON value as serde_json holds it.
#[verifier::external_type_specification]
#[verifier::external_body]
pub struct ExJsonValue(serde_json::Value);

/// A JSON object as serde_json holds it.
#[verifier::external_type_specification]
#[verifier::external_body]
#[verifier::reject_recursive_types(K)]
#[verifier::reject_recursive_types(V)]
pub struct ExJsonMap<K, V>(serde_json::Map<K, V>);

/// What `serde_json::from_str::<serde_json::Value>` makes of a text: 0 for a
/// JSON object, 1 for any other JSON value, 2 for a text that is not JSON;
/// and, for the last, serde_json's description of the error (empty
/// otherwise).
pub uninterp spec fn json_parse_of(text: Seq<char>) -> (u8, Seq<char>);

/// What parsing a text as JSON gave.
pub enum JsonParse {
    /// A JSON object.
    Object(serde_json::Map<String, serde_json::Value>),
    /// A JSON value that is not an object.
    NotObject,
    /// Not JSON; serde_json's description of the error.
    Invalid(String),
}

/// The kind of a parse (0 object, 1 other value, 2 invalid) and its error text.
pub open spec fn parse_summary(p: JsonParse) -> (u8, Seq<char>) {
    match p {
        JsonParse::Object(_) => (0, Seq::empty()),
        JsonParse::NotObject => (1, Seq::empty()),
        JsonParse::Invalid(m) => (2, m@),
    }
}

/// `serde_json::from_str::<serde_json::Value>`, with the value told apart as
/// an object or not and the error written by its `Display`. The contract
/// claims that which of these comes out, and the error's text, are a function
/// of the text; what the object holds is not stated.
#[verifier::external_body]
fn parse_json_text(text: &str) -> (r: JsonParse)
    ensures
        parse_summary(r) == json_parse_of(text@),
{
    match serde_json::from_str::<serde_json::Value>(text) {
        Ok(serde_json::Value::Object(map)) => JsonParse::Object(map),
        Ok(_) => JsonParse::NotObject,
        Err(e) => JsonParse::Invalid(e.to_string()),
    }
}

/// The message for JSON that is not an object.
pub open spec fn not_object_message() -> Seq<char> {
    "Expected a JSON object (key-value pairs)"@
}

/// What the editor does with a parse: an object is saved; any other value is
/// refused as not an object; invalid JSON is refused with serde_json's
/// description of the error.
pub fn editor_outcome_of(parse: JsonParse) -> (r: Result<serde_json::Map<String, serde_json::Value>, String>)
    ensures
        match parse {
            JsonParse::Object(map) => r == Ok::<serde_json::Map<String, serde_json::Value>, String>(map),
            JsonParse::NotObject => r matches Err(m) && m@ == not_object_message(),
            JsonParse::Invalid(e) => r matches Err(m) && m@ == "Invalid JSON: "@ + e@,
        },
{
    match parse {
        JsonParse::Object(map) => Ok(map),
        JsonParse::NotObject => Err(String::from_str("Expected a JSON object (key-value pairs)")),
        JsonParse::Invalid(e) => Err(String::from_str("Invalid JSON: ").concat(e.as_str())),
    }
}

/// What the editor does with the typed text when it is saved: a JSON object
/// is saved; any other JSON value is refused with "Expected a JSON object
/// (key-value pairs)"; a text that is not JSON is refused with "Invalid JSON: "
/// and serde_json's description of the error.
pub fn editor_outcome(text: &str) -> (r: Result<serde_json::Map<String, serde_json::Value>, String>)
    ensures
        json_parse_of(text@).0 == 0 ==> r is Ok,
        json_parse_of(text@).0 == 1 ==> (r matches Err(m) && m@ == not_object_message()),
        json_parse_of(text@).0 == 2 ==> (r matches Err(m) && m@ == "Invalid JSON: "@
            + json_parse_of(text@).1),
        json_parse_of(text@).0 <= 2,
{
    editor_outcome_of(parse_json_text(text))
}

} // verus!
