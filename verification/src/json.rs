//! The JSON decoding step, behind a trusted boundary around `serde_json`.
//! The parsed value is an arbitrary tree and is carried opaquely; what the
//! library states of it is named, never rebuilt.

use vstd::prelude::*;
use crate::errors::FetchError;

verus! {

#[verifier::external_type_specification]
#[verifier::external_body]
pub struct ExValue(serde_json::Value);

#[verifier::external_type_specification]
#[verifier::external_body]
pub struct ExJsonError(serde_json::Error);

/// Whether a text is well-formed JSON: exactly the texts that
/// `serde_json::from_str` accepts as a `serde_json::Value`.
pub uninterp spec fn json_wf(s: Seq<char>) -> bool;

/// The value that parsing a well-formed JSON text yields. Parsing depends on
/// the text alone.
pub uninterp spec fn json_value_of(s: Seq<char>) -> serde_json::Value;

/// The display rendering of a JSON value: compact JSON text, a function of
/// the value alone.
pub uninterp spec fn rendered(v: serde_json::Value) -> Seq<char>;

/// The error that parsing an ill-formed JSON text yields. Parsing depends on
/// the text alone.
pub uninterp spec fn json_error_of(s: Seq<char>) -> serde_json::Error;

/// The display rendering of a JSON parse error, a function of the error
/// alone.
pub uninterp spec fn error_description(e: serde_json::Error) -> Seq<char>;

/// Relies on serde_json::from_str: it returns `Ok` exactly on well-formed
/// JSON text, and the parsed value, or the parse error, depends on the text
/// alone.
#[verifier::external_body]
fn parse_json(text: &str) -> (r: Result<serde_json::Value, serde_json::Error>)
    ensures
        r is Ok <==> json_wf(text@),
        (r matches Ok(v) ==> v == json_value_of(text@)),
        (r matches Err(e) ==> e == json_error_of(text@)),
{
    serde_json::from_str::<serde_json::Value>(text)
}

/// Relies on the Display impl of serde_json::Value: it renders the value as
/// compact JSON text, from the value alone.
#[verifier::external_body]
pub(crate) fn render_value(v: &serde_json::Value) -> (r: String)
    ensures
        r@ == rendered(*v),
{
    v.to_string()
}

/// Relies on the Display impl of serde_json::Error: the rendered description
/// of the parse failure, from the error alone.
#[verifier::external_body]
fn describe_json_error(e: &serde_json::Error) -> (r: String)
    ensures
        r@ == error_description(*e),
{
    e.to_string()
}

/// Parse a response body as JSON. Returns the parsed value exactly when the
/// text is well-formed JSON; any other text is a decode failure carrying the
/// parse error's description, never a partial value.
pub fn to_json(text: &str) -> (r: Result<serde_json::Value, FetchError>)
    ensures
        r is Ok <==> json_wf(text@),
        (r matches Ok(v) ==> v == json_value_of(text@)),
        (r matches Err(e) ==> (e matches FetchError::Decode(m)
            && m@ == error_description(json_error_of(text@)))),
{
    match parse_json(text) {
        Ok(v) => Ok(v),
        Err(e) => Err(FetchError::Decode(describe_json_error(&e))),
    }
}

} // verus!
