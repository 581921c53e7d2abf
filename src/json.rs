//! The settings document: an untyped JSON value, rendered and parsed by
//! serde_json.
use vstd::prelude::*;

verus! {

#[verifier::external_type_specification]
#[verifier::external_body]
pub struct ExValue(serde_json::Value);

#[verifier::external_type_specification]
#[verifier::external_body]
pub struct ExJsonError(serde_json::Error);

/// Relies on the derived Clone of serde_json::Value: a member-by-member
/// copy, the same document as the original.
pub assume_specification[ <serde_json::Value as core::clone::Clone>::clone ](v: &serde_json::Value) -> (r: serde_json::Value)
    ensures
        r == *v,
;

/// Whether serde_json's parser accepts `text` as one complete JSON value.
pub uninterp spec fn json_accepts(text: Seq<char>) -> bool;

/// The value that serde_json's parser builds from `text`, where it accepts it.
pub uninterp spec fn parsed_doc(text: Seq<char>) -> serde_json::Value;

/// The indented JSON text that serde_json's pretty printer makes of `doc`.
pub uninterp spec fn pretty_text(doc: serde_json::Value) -> Seq<char>;

/// The default settings document: the empty object.
pub open spec fn default_doc() -> serde_json::Value {
    parsed_doc("{}"@)
}

/// Relies on serde_json::from_str: it either parses the text into one JSON
/// value or fails; which of the two, and the value, depend on the text alone.
#[verifier::external_body]
pub(crate) fn parse_document(text: &str) -> (r: Result<serde_json::Value, serde_json::Error>)
    ensures
        r is Ok <==> json_accepts(text@),
        r is Ok ==> r->Ok_0 == parsed_doc(text@),
{
    serde_json::from_str(text)
}

/// Relies on serde_json::to_string_pretty: renders the value as indented
/// JSON text, which depends on the value alone. For a `Value` it does not
/// fail: every object key is a string and the output goes to a `Vec`.
#[verifier::external_body]
pub(crate) fn render_document(doc: &serde_json::Value) -> (r: Result<String, serde_json::Error>)
    ensures
        r is Ok,
        r->Ok_0@ == pretty_text(*doc),
{
    serde_json::to_string_pretty(doc)
}

/// Relies on serde_json::Map::new: an object with no members, which is what
/// the parser builds from `{}`, and which the pretty printer renders as `{}`.
#[verifier::external_body]
pub(crate) fn empty_document() -> (r: serde_json::Value)
    ensures
        r == parsed_doc("{}"@),
        pretty_text(r) == "{}"@,
        json_accepts(pretty_text(r)),
{
    serde_json::Value::Object(serde_json::Map::new())
}

/// Relies on the Display impl of serde_json::Error, for the message that
/// reports a failed render or parse.
#[verifier::external_body]
pub(crate) fn json_error_text(e: &serde_json::Error) -> (r: String) {
    e.to_string()
}

} // verus!
