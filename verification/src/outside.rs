//! The trusted boundary: the few outside calls the library leans on, each
//! behind a contract that the rest of the crate is verified against.
use vstd::prelude::*;
use crate::json::{Json, JsonV, jview};

verus! {

/// What serde_json's parser yields on `s`: `None` where the text is not a
/// JSON document, otherwise the document as a tree. The result depends on
/// the text alone.
pub uninterp spec fn json_parsed(s: Seq<char>) -> Option<JsonV>;

pub open spec fn opt_jview(r: Option<Json>) -> Option<JsonV> {
    match r {
        Some(j) => Some(jview(j)),
        None => None,
    }
}

/// Relies on std's `FromIterator` impl for `String`: collecting characters
/// keeps them, in order.
#[verifier::external_body]
pub fn chars_to_string(v: &Vec<char>) -> (r: String)
    ensures
        r@ == v@,
{
    v.iter().collect()
}

#[verifier::external_type_specification]
#[verifier::external_body]
pub struct ExValue(serde_json::Value);

/// Relies on the `serde_json::Value` enum alone: each variant is moved into
/// the library's own tree, one arm each, numbers as their decimal text.
#[verifier::external_body]
fn value_to_json(v: &serde_json::Value) -> Json {
    match v {
        serde_json::Value::Null => Json::Null,
        serde_json::Value::Bool(b) => Json::Bool(*b),
        serde_json::Value::Number(n) => Json::Num(n.to_string()),
        serde_json::Value::String(s) => Json::Str(s.clone()),
        serde_json::Value::Array(a) => Json::Arr(a.iter().map(value_to_json).collect()),
        serde_json::Value::Object(m) => Json::Obj(
            m.iter().map(|(k, x)| (k.clone(), value_to_json(x))).collect(),
        ),
    }
}

/// Relies on `serde_json::from_str`: whether a text parses as JSON, and to
/// what document, depends on the text alone.
#[verifier::external_body]
pub fn json_parse(s: &str) -> (r: Option<Json>)
    ensures
        opt_jview(r) == json_parsed(s@),
{
    match serde_json::from_str::<serde_json::Value>(s) {
        Ok(v) => Some(value_to_json(&v)),
        Err(_) => None,
    }
}

} // verus!
