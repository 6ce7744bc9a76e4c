//! Trusted boundary to serde_json: the parsed document type and the
//! accessors the response decoder walks it with.  Each function wraps a
//! single serde_json call.  A parsed document is opaque to the rest of
//! the library; every accessor's result is a function of its arguments
//! alone, so each is tied to a name that the decoder's contracts are
//! then stated over.

use vstd::prelude::*;

verus! {

#[verifier::external_type_specification]
#[verifier::external_body]
pub struct ExValue(serde_json::Value);

/// Name for what serde_json's `from_str::<Value>` returns on a text:
/// the parsed document, or `None` when the text is not one JSON
/// document.
pub uninterp spec fn json_parse_of(s: Seq<char>) -> Option<serde_json::Value>;

/// Name for what serde_json's `Value::is_object` returns.
pub uninterp spec fn json_is_object_of(v: serde_json::Value) -> bool;

/// Name for what serde_json's `Value::get` with a string key returns:
/// the member of a JSON object under that key, `None` for a missing key
/// or a non-object.
pub uninterp spec fn json_member_of(v: serde_json::Value, key: Seq<char>) -> Option<
    serde_json::Value,
>;

/// Name for what serde_json's `Value::is_null` returns.
pub uninterp spec fn json_is_null_of(v: serde_json::Value) -> bool;

/// Name for what serde_json's `Value::as_i64` returns.
pub uninterp spec fn json_as_i64_of(v: serde_json::Value) -> Option<i64>;

/// Name for what serde_json's `Value::as_u64` returns.
pub uninterp spec fn json_as_u64_of(v: serde_json::Value) -> Option<u64>;

/// Name for what serde_json's `Value::as_bool` returns.
pub uninterp spec fn json_as_bool_of(v: serde_json::Value) -> Option<bool>;

/// Name for the contents of a JSON string, per serde_json's
/// `Value::as_str`: `None` for any other value.
pub uninterp spec fn json_as_str_of(v: serde_json::Value) -> Option<Seq<char>>;

/// Name for serde_json's decimal rendering of a JSON number, per
/// `Value::as_number` and `Number`'s display form: `None` for any other
/// value.
pub uninterp spec fn json_number_text_of(v: serde_json::Value) -> Option<Seq<char>>;

/// Relies on serde_json's `from_str::<Value>`: parses the text as one
/// JSON document — a function of the text alone — or hands back serde's
/// error message.
#[verifier::external_body]
pub(crate) fn json_from_str(s: &str) -> (r: Result<serde_json::Value, String>)
    ensures
        (r matches Ok(v) ==> json_parse_of(s@) == Some(v)),
        (r is Err ==> json_parse_of(s@) is None),
{
    serde_json::from_str::<serde_json::Value>(s).map_err(|e| e.to_string())
}

/// Relies on serde_json's `Value::is_object`.
#[verifier::external_body]
pub(crate) fn json_is_object(v: &serde_json::Value) -> (r: bool)
    ensures
        r == json_is_object_of(*v),
{
    v.is_object()
}

/// Relies on serde_json's `Value::get` with a string key: the member of
/// a JSON object under that key; `None` for a missing key or when the
/// value is not an object.
#[verifier::external_body]
pub(crate) fn json_get<'a>(v: &'a serde_json::Value, key: &str) -> (r: Option<
    &'a serde_json::Value,
>)
    ensures
        match r {
            Some(m) => json_member_of(*v, key@) == Some(*m),
            None => json_member_of(*v, key@) is None,
        },
{
    v.get(key)
}

/// Relies on serde_json's `Value::is_null`.
#[verifier::external_body]
pub(crate) fn json_is_null(v: &serde_json::Value) -> (r: bool)
    ensures
        r == json_is_null_of(*v),
{
    v.is_null()
}

/// Relies on serde_json's `Value::as_i64`: the value of an integer JSON
/// number representable in `i64`, `None` otherwise.
#[verifier::external_body]
pub(crate) fn json_as_i64(v: &serde_json::Value) -> (r: Option<i64>)
    ensures
        r == json_as_i64_of(*v),
{
    v.as_i64()
}

/// Relies on serde_json's `Value::as_u64`: the value of an integer JSON
/// number representable in `u64`, `None` otherwise.
#[verifier::external_body]
pub(crate) fn json_as_u64(v: &serde_json::Value) -> (r: Option<u64>)
    ensures
        r == json_as_u64_of(*v),
{
    v.as_u64()
}

/// Relies on serde_json's `Value::as_bool`.
#[verifier::external_body]
pub(crate) fn json_as_bool(v: &serde_json::Value) -> (r: Option<bool>)
    ensures
        r == json_as_bool_of(*v),
{
    v.as_bool()
}

/// Relies on serde_json's `Value::as_str`: the contents of a JSON
/// string, `None` for any other value.
#[verifier::external_body]
pub(crate) fn json_as_str(v: &serde_json::Value) -> (r: Option<String>)
    ensures
        match r {
            Some(s) => json_as_str_of(*v) == Some(s@),
            None => json_as_str_of(*v) is None,
        },
{
    v.as_str().map(|s| s.to_owned())
}

/// Relies on serde_json's `Value::as_number` and `Number`'s display
/// form: serde_json's decimal rendering of a JSON number, `None` for
/// any other value.
#[verifier::external_body]
pub(crate) fn json_number_text(v: &serde_json::Value) -> (r: Option<String>)
    ensures
        match r {
            Some(s) => json_number_text_of(*v) == Some(s@),
            None => json_number_text_of(*v) is None,
        },
{
    v.as_number().map(|n| n.to_string())
}

} // verus!
