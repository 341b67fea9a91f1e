//! The trusted boundary to serde_json. Payloads travel through the core as
//! opaque `serde_json::Value`s; the accessors here hand the logic the few
//! plain fields it reads. Each accessor's result is a pure function of its
//! arguments, so it is given a name that the contracts upstream speak of.

use vstd::prelude::*;

verus! {

#[verifier::external_type_specification]
#[verifier::external_body]
pub struct ExValue(serde_json::Value);

/// Whether serde_json accepts this text as a JSON document; parsing is a
/// function of the text alone.
pub uninterp spec fn json_parses(s: Seq<char>) -> bool;

/// The JSON value that serde_json parses this text into; meaningful only
/// where `json_parses` holds.
pub uninterp spec fn json_value_of(s: Seq<char>) -> serde_json::Value;

/// What `serde_json::Value::get` finds under a string key: the member of
/// a JSON object, `None` for a missing key or a non-object.
pub uninterp spec fn json_get_of(v: serde_json::Value, key: Seq<char>) -> Option<
    serde_json::Value,
>;

/// The elements of a JSON array, `None` for a non-array.
pub uninterp spec fn json_array_of(v: serde_json::Value) -> Option<Seq<serde_json::Value>>;

/// The characters of a JSON string, `None` for a non-string.
pub uninterp spec fn json_str_of(v: serde_json::Value) -> Option<Seq<char>>;

/// The `i64` a JSON number represents, `None` for a non-number or one out
/// of `i64` range.
pub uninterp spec fn json_i64_of(v: serde_json::Value) -> Option<i64>;

/// Relies on `serde_json::from_str::<Value>`: it returns `Ok` exactly when
/// the text is a well-formed JSON document, its outcome depends on the
/// text alone, and the parsed value is a function of the text.
#[verifier::external_body]
pub(crate) fn json_parse(text: &str) -> (r: Result<serde_json::Value, String>)
    ensures
        r is Ok <==> json_parses(text@),
        r matches Ok(v) ==> v == json_value_of(text@),
{
    serde_json::from_str::<serde_json::Value>(text).map_err(|e| e.to_string())
}

/// Relies on `serde_json::Value::get` with a string index: looks the key
/// up when the value is a JSON object, returns `None` otherwise; total and
/// deterministic in the value and the key. The clone preserves the found
/// value.
#[verifier::external_body]
pub(crate) fn json_get(v: &serde_json::Value, key: &str) -> (r: Option<serde_json::Value>)
    ensures
        r == json_get_of(*v, key@),
{
    v.get(key).cloned()
}

/// Relies on `serde_json::Value::as_array`: returns the elements when the
/// value is a JSON array, `None` otherwise; total and deterministic in the
/// value. The clone preserves the elements.
#[verifier::external_body]
pub(crate) fn json_as_array(v: &serde_json::Value) -> (r: Option<Vec<serde_json::Value>>)
    ensures
        r is Some <==> json_array_of(*v) is Some,
        r matches Some(arr) ==> json_array_of(*v) == Some(arr@),
{
    v.as_array().cloned()
}

/// Relies on `serde_json::Value::as_str`: returns the text when the value
/// is a JSON string, `None` otherwise; total and deterministic in the
/// value.
#[verifier::external_body]
pub(crate) fn json_as_str(v: &serde_json::Value) -> (r: Option<String>)
    ensures
        r is Some <==> json_str_of(*v) is Some,
        r matches Some(s) ==> json_str_of(*v) == Some(s@),
{
    v.as_str().map(|s| s.to_owned())
}

/// Relies on `serde_json::Value::as_i64`: returns the integer when the
/// value is a JSON number representable as `i64`, `None` otherwise; total
/// and deterministic in the value.
#[verifier::external_body]
pub(crate) fn json_as_i64(v: &serde_json::Value) -> (r: Option<i64>)
    ensures
        r == json_i64_of(*v),
{
    v.as_i64()
}

/// Relies on `serde_json::Value`'s derived `Clone`: the copy equals the
/// original.
#[verifier::external_body]
pub(crate) fn json_clone(v: &serde_json::Value) -> (r: serde_json::Value)
    ensures
        r == *v,
{
    v.clone()
}

} // verus!
