//! JSON parsing. The text is handed to serde_json; its value is carried
//! over, shape for shape, into the library's own structured form, which the
//! verified decoders then read.

use vstd::prelude::*;
use crate::error::ElasticSearchError;
use crate::json::Json;

verus! {

#[verifier::external_type_specification]
#[verifier::external_body]
pub struct ExValue(serde_json::Value);

/// What serde_json makes of a text: the parsed value, or nothing where the
/// text is not valid JSON.
pub uninterp spec fn json_of(s: Seq<char>) -> Option<Json>;

/// The structured content of a serde_json value.
pub uninterp spec fn value_content(v: serde_json::Value) -> Json;

/// Relies on serde_json::from_str::<Value>: the verdict and the parsed
/// value are a function of the text alone.
#[verifier::external_body]
fn parse_value(s: &str) -> (r: Result<serde_json::Value, String>)
    ensures
        r is Ok <==> json_of(s@) is Some,
        r matches Ok(v) ==> json_of(s@) == Some(value_content(v)),
{
    serde_json::from_str::<serde_json::Value>(s).map_err(|e| e.to_string())
}

/// Relies on the shape of serde_json::Value: each variant is carried over
/// as it stands, with numbers rendered to their text.
#[verifier::external_body]
fn value_to_json(v: serde_json::Value) -> (r: Json)
    ensures
        r == value_content(v),
{
    match v {
        serde_json::Value::Null => Json::Null,
        serde_json::Value::Bool(b) => Json::Bool(b),
        serde_json::Value::Number(n) => Json::Num(n.to_string()),
        serde_json::Value::String(s) => Json::Str(s),
        serde_json::Value::Array(a) => Json::Arr(a.into_iter().map(value_to_json).collect()),
        serde_json::Value::Object(o) => Json::Obj(
            o.into_iter().map(|f| (f.0, value_to_json(f.1))).collect(),
        ),
    }
}

/// Parses a response or request body as JSON.
pub fn parse_json(s: &str) -> (r: Result<Json, ElasticSearchError>)
    ensures
        r is Ok <==> json_of(s@) is Some,
        r matches Ok(j) ==> json_of(s@) == Some(j),
        r matches Err(e) ==> e.message@ == "invalid json"@ && e.spec_causes().len() == 1,
{
    match parse_value(s) {
        Ok(v) => Ok(value_to_json(v)),
        Err(cause) => Err(ElasticSearchError::with_cause("invalid json".to_owned(), cause)),
    }
}

/// The body a caller supplied as free text: absent where the text is
/// empty, else parsed as JSON.
pub fn parse_optional_body(s: &str) -> (r: Result<Option<Json>, ElasticSearchError>)
    ensures
        s@.len() == 0 ==> (r matches Ok(b) && b is None),
        s@.len() > 0 ==> match r {
            Ok(b) => b matches Some(j) && json_of(s@) == Some(j),
            Err(e) => json_of(s@) is None && e.message@ == "invalid json"@,
        },
{
    if s.is_empty() {
        Ok(None)
    } else {
        match parse_json(s) {
            Ok(j) => Ok(Some(j)),
            Err(e) => Err(e),
        }
    }
}

} // verus!
