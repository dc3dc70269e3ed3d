use vstd::prelude::*;
use crate::codec::{decode_response, decode_response_spec, response_result_model};
use crate::data::{DecodeError, LeaderboardResponse, ResponseModel};
use crate::json::Json;

verus! {

/// serde_json's value type, declared so that it can stand in the trusted
/// conversion below.
#[verifier::external_type_specification]
#[verifier::external_body]
pub struct ExValue(serde_json::Value);

/// The document that parsing a text yields when the text is valid JSON:
/// what `serde_json::from_str` parses, carried over to the library's
/// document type. It is a function of the text alone.
pub uninterp spec fn parse_of(s: Seq<char>) -> Option<Json>;

/// Relies on serde_json::Value: one arm for each variant of a parsed
/// document, moving its contents over to the library's document type. A
/// number is kept only when serde_json can give it as an `i64`; any other
/// number (the schema has no use for one) becomes `UnsupportedNumber`.
/// Called only from `parse_json` below.
#[verifier::external_body]
fn value_to_json(v: &serde_json::Value) -> Json {
    match v {
        serde_json::Value::Null => Json::Null,
        serde_json::Value::Bool(b) => Json::Bool(*b),
        serde_json::Value::Number(n) => match n.as_i64() {
            Some(i) => Json::Int(i),
            None => Json::UnsupportedNumber,
        },
        serde_json::Value::String(s) => Json::Str(s.clone()),
        serde_json::Value::Array(a) => Json::Arr(a.iter().map(value_to_json).collect()),
        serde_json::Value::Object(m) => Json::Obj(
            m.iter().map(|(k, x)| (k.clone(), value_to_json(x))).collect(),
        ),
    }
}

/// Relies on serde_json::from_str::<serde_json::Value>: returns Ok exactly
/// when the text is valid JSON, and the parsed document is a function of
/// the text alone; `parse_of` names it.
#[verifier::external_body]
fn parse_json(s: &str) -> (r: Option<Json>)
    ensures
        r == parse_of(s@),
{
    match serde_json::from_str::<serde_json::Value>(s) {
        Ok(v) => Some(value_to_json(&v)),
        Err(_) => None,
    }
}

/// What decoding a response body text yields: a syntax error when the text
/// is not valid JSON, otherwise the schema decode of the parsed document.
pub open spec fn decode_body_spec(s: Seq<char>) -> Result<ResponseModel, DecodeError> {
    match parse_of(s) {
        Option::None => Err(DecodeError::Syntax),
        Option::Some(j) => decode_response_spec(j),
    }
}

/// Decodes an HTTP response body against the leaderboard schema.
pub fn decode_body(s: &str) -> (r: Result<LeaderboardResponse, DecodeError>)
    ensures
        response_result_model(r) == decode_body_spec(s@),
{
    match parse_json(s) {
        Some(j) => decode_response(&j),
        None => Err(DecodeError::Syntax),
    }
}

} // verus!
