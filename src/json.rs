//! Display of raw JSON text: indented when it parses, as given otherwise.

use vstd::prelude::*;

verus! {

#[verifier::external_type_specification]
#[verifier::external_body]
pub struct ExJsonValue(serde_json::Value);

#[verifier::external_type_specification]
#[verifier::external_body]
pub struct ExJsonError(serde_json::Error);

/// Whether a text is one well-formed JSON value. Depends on the text alone.
pub uninterp spec fn json_parses(s: Seq<char>) -> bool;

/// Relies on serde_json::from_str into a serde_json::Value: it succeeds
/// exactly on well-formed JSON text.
#[verifier::external_body]
fn parse_json(input: &str) -> (r: Result<serde_json::Value, serde_json::Error>)
    ensures
        r is Ok == json_parses(input@),
{
    serde_json::from_str::<serde_json::Value>(input)
}

/// Relies on serde_json::to_string_pretty: the value as indented JSON text.
#[verifier::external_body]
fn pretty_text(v: &serde_json::Value) -> (r: Result<String, serde_json::Error>) {
    serde_json::to_string_pretty(v)
}

/// The text to show for `input`, given its indented form if one was made.
pub fn choose_display(input: &str, pretty: Option<String>) -> (r: String)
    ensures
        r@ == match pretty {
            Some(p) => p@,
            None => input@,
        },
{
    match pretty {
        Some(p) => p,
        None => String::from_str(input),
    }
}

/// The text to show for raw JSON: text that does not parse is shown as given.
pub fn json_display(input: &str) -> (r: String)
    ensures
        !json_parses(input@) ==> r@ == input@,
{
    let pretty = match parse_json(input) {
        Ok(v) => match pretty_text(&v) {
            Ok(p) => Some(p),
            Err(_) => None,
        },
        Err(_) => None,
    };
    choose_display(input, pretty)
}

} // verus!
