//! The trusted boundary to the JSON parser.
//!
//! Configuration documents are JSON; parsing them and walking the parsed
//! tree is delegated to the `serde_json` crate.  A parsed value is opaque
//! here: what the contracts say of it goes through the named functions
//! below, which stand for what the crate's accessors return.

use vstd::prelude::*;

verus! {

#[verifier::external_type_specification]
#[verifier::external_body]
pub struct ExValue(serde_json::Value);

#[verifier::external_type_specification]
#[verifier::external_body]
pub struct ExJsonError(serde_json::Error);

/// Whether the bytes form one valid JSON document.
pub uninterp spec fn is_valid_json(data: Seq<u8>) -> bool;

/// The JSON value a valid document denotes.
pub uninterp spec fn json_value_of(data: Seq<u8>) -> serde_json::Value;

/// The value of the named object field, if the value is an object holding
/// that field.
pub uninterp spec fn field_of(v: serde_json::Value, key: Seq<char>) -> Option<serde_json::Value>;

/// The characters of a JSON string value, if the value is a string.
pub uninterp spec fn str_of(v: serde_json::Value) -> Option<Seq<char>>;

/// The elements of a JSON array value, if the value is an array.
pub uninterp spec fn items_of(v: serde_json::Value) -> Option<Seq<serde_json::Value>>;

/// Whether a JSON value is an object.
pub uninterp spec fn is_object(v: serde_json::Value) -> bool;

/// Relies on `serde_json::from_slice::<Value>`: it returns `Ok` exactly when
/// the bytes are one valid JSON document, and the parsed value is a function
/// of the bytes alone.
#[verifier::external_body]
pub(crate) fn parse_json(data: &[u8]) -> (r: Result<serde_json::Value, serde_json::Error>)
    ensures
        r is Ok <==> is_valid_json(data@),
        r matches Ok(v) ==> v == json_value_of(data@),
{
    serde_json::from_slice(data)
}

/// Relies on `Display` for `serde_json::Error`: a human-readable description
/// of the parse failure.  Nothing is promised of the text.
#[verifier::external_body]
pub(crate) fn json_error_message(e: &serde_json::Error) -> String {
    e.to_string()
}

/// Relies on `serde_json::Value::get` with a string index: the value of the
/// named object field, or `None` when the value is not an object or the key
/// is absent.
#[verifier::external_body]
pub(crate) fn json_get<'a>(v: &'a serde_json::Value, key: &str) -> (r: Option<
    &'a serde_json::Value,
>)
    ensures
        match r {
            Some(f) => field_of(*v, key@) == Some(*f),
            None => field_of(*v, key@) is None,
        },
{
    v.get(key)
}

/// Relies on `serde_json::Value::as_str`: the characters of a JSON string
/// value, or `None` for every other kind of value.
#[verifier::external_body]
pub(crate) fn json_as_str(v: &serde_json::Value) -> (r: Option<String>)
    ensures
        match r {
            Some(s) => str_of(*v) == Some(s@),
            None => str_of(*v) is None,
        },
{
    match v.as_str() {
        Some(s) => Some(s.to_owned()),
        None => None,
    }
}

/// Relies on `serde_json::Value::as_array`: the elements of a JSON array
/// value, or `None` for every other kind of value.
#[verifier::external_body]
pub(crate) fn json_as_array<'a>(v: &'a serde_json::Value) -> (r: Option<
    &'a Vec<serde_json::Value>,
>)
    ensures
        match r {
            Some(a) => items_of(*v) == Some(a@),
            None => items_of(*v) is None,
        },
{
    v.as_array()
}

/// Relies on `serde_json::Value::is_object`: whether the value is a JSON
/// object.
#[verifier::external_body]
pub(crate) fn json_is_object(v: &serde_json::Value) -> (r: bool)
    ensures
        r == is_object(*v),
{
    v.is_object()
}

/// Relies on `Clone` for `serde_json::Value`: a structural copy that denotes
/// the same JSON value.
#[verifier::external_body]
pub(crate) fn json_clone(v: &serde_json::Value) -> (r: serde_json::Value)
    ensures
        r == *v,
{
    v.clone()
}

} // verus!
