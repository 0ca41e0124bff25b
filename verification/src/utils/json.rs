use vstd::prelude::*;

verus! {

/// A JSON document as `serde_json` holds it. Nothing in this crate looks
/// inside one: documents are parsed, compared and handed on.
#[verifier::external_type_specification]
#[verifier::external_body]
pub struct ExValue(serde_json::Value);

/// The error of `serde_json`. Only its message is used.
#[verifier::external_type_specification]
#[verifier::external_body]
pub struct ExError(serde_json::Error);

/// What `serde_json::from_str` makes of `text` when a `serde_json::Value` is
/// asked for: the document, or the error that names the first fault.
pub uninterp spec fn json_parse(text: Seq<char>) -> Result<serde_json::Value, serde_json::Error>;

/// The message of a `serde_json::Error`, as its `Display` writes it.
pub uninterp spec fn json_error_text(error: serde_json::Error) -> Seq<char>;

/// What `==` gives for two documents that are not one and the same value.
pub uninterp spec fn json_equal(a: serde_json::Value, b: serde_json::Value) -> bool;

/// Whether two documents compare equal. A document equals itself; of two
/// different values `serde_json` decides.
pub open spec fn same_document(a: serde_json::Value, b: serde_json::Value) -> bool {
    a == b || json_equal(a, b)
}

/// Whether two readings agree: both hold no document, or both hold
/// documents that compare equal.
pub open spec fn same_reading(a: Option<serde_json::Value>, b: Option<serde_json::Value>) -> bool {
    match (a, b) {
        (Some(x), Some(y)) => same_document(x, y),
        (None, None) => true,
        _ => false,
    }
}

/// Calls `serde_json::from_str` for a `serde_json::Value`. The result is a
/// function of the text alone; the contract gives it the name `json_parse`
/// and says nothing else of it.
#[verifier::external_body]
pub(crate) fn parse_json(text: &str) -> (parsed: Result<serde_json::Value, serde_json::Error>)
    ensures
        parsed == json_parse(text@),
{
    serde_json::from_str::<serde_json::Value>(text)
}

/// Calls `to_string` of a `serde_json::Error`, which writes the cause, the
/// line and the column. The contract names the message `json_error_text`.
#[verifier::external_body]
pub(crate) fn error_text(error: &serde_json::Error) -> (text: String)
    ensures
        text@ == json_error_text(*error),
{
    error.to_string()
}

/// Calls `==` of `serde_json::Value`. The type implements `Eq`, since a
/// number in a document is never NaN: a value equals itself. For two
/// different values the contract names the result `json_equal`.
#[verifier::external_body]
pub(crate) fn documents_equal(a: &serde_json::Value, b: &serde_json::Value) -> (equal: bool)
    ensures
        equal == (*a == *b || json_equal(*a, *b)),
{
    a == b
}

/// Compares two readings as `==` on `Option<serde_json::Value>` does.
pub fn readings_agree(a: &Option<serde_json::Value>, b: &Option<serde_json::Value>) -> (agree: bool)
    ensures
        agree == same_reading(*a, *b),
{
    match (a, b) {
        (Some(x), Some(y)) => documents_equal(x, y),
        (None, None) => true,
        _ => false,
    }
}

} // verus!
