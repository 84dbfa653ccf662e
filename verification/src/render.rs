use vstd::prelude::*;

verus! {

/// Whether a text parses as a JSON document.
pub uninterp spec fn is_json_text(s: Seq<char>) -> bool;

/// The indented rendering of a JSON text; meaningful only where
/// `is_json_text` holds.
pub uninterp spec fn pretty_json_of(s: Seq<char>) -> Seq<char>;

/// Relies on serde_json::from_str::<Value>, which succeeds exactly when the
/// text is one valid JSON document, and on serde_json::to_string_pretty,
/// whose indented rendering depends on the parsed text alone.
#[verifier::external_body]
fn parse_and_render(text: &str) -> (r: Option<String>)
    ensures
        r is Some <==> is_json_text(text@),
        r is Some ==> r->0@ == pretty_json_of(text@),
{
    match serde_json::from_str::<serde_json::Value>(text) {
        Ok(json) => Some(serde_json::to_string_pretty(&json).unwrap_or(text.to_string())),
        Err(_) => None,
    }
}

/// Renders a response body for display: a body that parses as JSON is
/// re-serialized with human-readable indentation; any other body comes back
/// verbatim, never as an error.
pub fn format_json_simple(text: &str) -> (r: String)
    ensures
        is_json_text(text@) ==> r@ == pretty_json_of(text@),
        !is_json_text(text@) ==> r@ == text@,
{
    match parse_and_render(text) {
        Some(pretty) => pretty,
        None => String::from_str(text),
    }
}

} // verus!
