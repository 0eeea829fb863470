//! Trusted readers for the JSON response bodies. Each reader is a function
//! of the body and the keys alone, so its result carries a name that the
//! contracts of the parsing functions speak of exactly.

use vstd::prelude::*;

verus! {

/// The view of an optional string.
pub open spec fn opt_str_view(o: Option<String>) -> Option<Seq<char>> {
    match o {
        Some(s) => Some(s@),
        None => None,
    }
}

/// An extracted optional string that is present and non-empty.
pub open spec fn nonempty(o: Option<Seq<char>>) -> bool {
    o matches Some(s) && s.len() > 0
}

/// Whether `body` is a well-formed JSON document.
pub uninterp spec fn json_wellformed_of(body: Seq<char>) -> bool;

/// The string member of the JSON document `body` under key `k`: Some
/// exactly when the body parses, its root object has that member, and the
/// member is a string.
pub uninterp spec fn json_str1_of(body: Seq<char>, k: Seq<char>) -> Option<Seq<char>>;

/// As `json_str1_of`, two object keys deep.
pub uninterp spec fn json_str2_of(body: Seq<char>, k1: Seq<char>, k2: Seq<char>) -> Option<
    Seq<char>,
>;

/// As `json_str1_of`, three object keys deep.
pub uninterp spec fn json_str3_of(
    body: Seq<char>,
    k1: Seq<char>,
    k2: Seq<char>,
    k3: Seq<char>,
) -> Option<Seq<char>>;

/// The non-negative integer member of the JSON document `body` under key
/// `k`, when it fits in u64.
pub uninterp spec fn json_u64_1_of(body: Seq<char>, k: Seq<char>) -> Option<u64>;

/// Relies on serde_json::from_str::<serde_json::Value>: whether the body
/// is well-formed JSON. The answer depends on the body alone.
#[verifier::external_body]
pub(crate) fn json_wellformed(body: &str) -> (r: bool)
    ensures
        r == json_wellformed_of(body@),
{
    serde_json::from_str::<serde_json::Value>(body).is_ok()
}

/// Relies on serde_json::from_str, Value::get and Value::as_str: the
/// string under one key, or None when the body does not parse, the member
/// is absent, or it is not a string. A function of body and key alone.
#[verifier::external_body]
pub(crate) fn json_str1(body: &str, k: &str) -> (r: Option<String>)
    ensures
        opt_str_view(r) == json_str1_of(body@, k@),
{
    match serde_json::from_str::<serde_json::Value>(body) {
        Ok(v) => v.get(k).and_then(|x| x.as_str()).map(|s| s.to_owned()),
        Err(_) => None,
    }
}

/// Relies on serde_json::from_str, Value::get and Value::as_str: the
/// string two object keys deep, under the same absence rules.
#[verifier::external_body]
pub(crate) fn json_str2(body: &str, k1: &str, k2: &str) -> (r: Option<String>)
    ensures
        opt_str_view(r) == json_str2_of(body@, k1@, k2@),
{
    match serde_json::from_str::<serde_json::Value>(body) {
        Ok(v) => v.get(k1).and_then(|x| x.get(k2)).and_then(|x| x.as_str()).map(|s| s.to_owned()),
        Err(_) => None,
    }
}

/// Relies on serde_json::from_str, Value::get and Value::as_str: the
/// string three object keys deep, under the same absence rules.
#[verifier::external_body]
pub(crate) fn json_str3(body: &str, k1: &str, k2: &str, k3: &str) -> (r: Option<String>)
    ensures
        opt_str_view(r) == json_str3_of(body@, k1@, k2@, k3@),
{
    match serde_json::from_str::<serde_json::Value>(body) {
        Ok(v) => v
            .get(k1)
            .and_then(|x| x.get(k2))
            .and_then(|x| x.get(k3))
            .and_then(|x| x.as_str())
            .map(|s| s.to_owned()),
        Err(_) => None,
    }
}

/// Relies on serde_json::from_str, Value::get and Value::as_u64: the
/// non-negative integer under one key, when the body parses, the member is
/// present, and it is an integer within u64.
#[verifier::external_body]
pub(crate) fn json_u64_1(body: &str, k: &str) -> (r: Option<u64>)
    ensures
        r == json_u64_1_of(body@, k@),
{
    match serde_json::from_str::<serde_json::Value>(body) {
        Ok(v) => v.get(k).and_then(|x| x.as_u64()),
        Err(_) => None,
    }
}

} // verus!
