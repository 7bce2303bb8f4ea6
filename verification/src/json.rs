//! The trusted boundary to `serde_json` and to std's lossy UTF-8 decoding.
//!
//! Parsing is deterministic: what a text parses to, and what its top-level
//! fields hold, are functions of the text alone.  Each such reading therefore
//! gets a name -- an uninterpreted spec function over the payload text and the
//! key -- applied by the `ensures` of the wrapper that performs it, so that
//! every verified decoder downstream can say exactly when it succeeds and
//! what it returns.  A whole sub-document is carried as a `serde_json::Value`,
//! which stays opaque here.

use vstd::prelude::*;
use vstd::utf8::decode_utf8;
use vstd::utf8::valid_utf8;

verus! {

/// Declares `serde_json::Value`, the parsed-JSON document type, for use in
/// signatures and fields; its inside stays invisible to the verifier.
#[verifier::external_type_specification]
#[verifier::external_body]
pub struct ExValue(serde_json::Value);

/// What `String::from_utf8_lossy` returns on a byte sequence: a function of
/// the bytes alone.
pub uninterp spec fn lossy_decode(bytes: Seq<u8>) -> Seq<char>;

/// Whether `serde_json` accepts a text as a JSON document: parsing is a
/// function of the text alone.
pub uninterp spec fn json_parses(text: Seq<char>) -> bool;

/// Whether the document parsed from `text` is an object with the top-level
/// field `key`.
pub uninterp spec fn json_has_field(text: Seq<char>, key: Seq<char>) -> bool;

/// The string held by the top-level field `key` of the document parsed from
/// `text`, if the text parses, the field is there, and it is a JSON string.
pub uninterp spec fn json_str_field(text: Seq<char>, key: Seq<char>) -> Option<Seq<char>>;

/// The number held by the top-level field `key` of the document parsed from
/// `text`, if it is there and is a number stored as a non-negative integer
/// that fits in `u64`.
pub uninterp spec fn json_u64_field(text: Seq<char>, key: Seq<char>) -> Option<u64>;

/// Whether the top-level field `key` of the document parsed from `text` is
/// there and holds JSON `null`.
pub uninterp spec fn json_null_field(text: Seq<char>, key: Seq<char>) -> bool;

/// Whether the top-level field `outer` of the document parsed from `text` is
/// there and holds an object with the field `inner`.
pub uninterp spec fn json_nested_has_field(
    text: Seq<char>,
    outer: Seq<char>,
    inner: Seq<char>,
) -> bool;

/// The string held by `inner` inside the top-level object field `outer` of
/// the document parsed from `text`, if that chain is there and ends in a
/// JSON string.
pub uninterp spec fn json_nested_str_field(
    text: Seq<char>,
    outer: Seq<char>,
    inner: Seq<char>,
) -> Option<Seq<char>>;

/// Relies on `String::from_utf8_lossy`: invalid UTF-8 sequences are replaced,
/// never rejected, and valid UTF-8 decodes unchanged.
#[verifier::external_body]
pub fn bytes_to_string_lossy(b: &[u8]) -> (s: String)
    ensures
        s@ == lossy_decode(b@),
        valid_utf8(b@) ==> s@ == decode_utf8(b@),
{
    String::from_utf8_lossy(b).into_owned()
}

/// Relies on `serde_json::from_str::<Value>`: whether a text is well-formed
/// JSON.  Errors are returned, never panicked.
#[verifier::external_body]
pub fn text_parses(text: &str) -> (r: bool)
    ensures
        r == json_parses(text@),
{
    serde_json::from_str::<serde_json::Value>(text).is_ok()
}

/// Relies on `serde_json::from_str::<Value>` and `Value::get`: whether the
/// parsed document has the top-level field `key`.  A text that does not
/// parse, or does not parse to an object, has no fields.
#[verifier::external_body]
pub fn get_field_exists(text: &str, key: &str) -> (r: bool)
    ensures
        r == json_has_field(text@, key@),
        !json_parses(text@) ==> !r,
        !r ==> json_str_field(text@, key@) is None && json_u64_field(text@, key@) is None
            && !json_null_field(text@, key@),
{
    serde_json::from_str::<serde_json::Value>(text).ok().and_then(|v| v.get(key).map(|_| ()))
        .is_some()
}

/// Relies on `serde_json::from_str::<Value>`, `Value::get` and
/// `Value::as_str`: the field's string, `Some` exactly when the field is
/// there and is a JSON string (`null` is not).
#[verifier::external_body]
pub fn get_str_field(text: &str, key: &str) -> (r: Option<String>)
    ensures
        r is Some <==> json_str_field(text@, key@) is Some,
        r matches Some(s) ==> json_str_field(text@, key@) == Some(s@),
        r is Some ==> json_has_field(text@, key@) && !json_null_field(text@, key@),
        !json_parses(text@) ==> r is None,
{
    serde_json::from_str::<serde_json::Value>(text).ok().and_then(
        |v| v.get(key).and_then(|f| f.as_str().map(|s| s.to_owned())),
    )
}

/// Relies on `serde_json::from_str::<Value>`, `Value::get` and
/// `Value::as_u64`: the field's number, `Some` exactly when the field is
/// there and holds a number stored as a non-negative integer fitting `u64`.
#[verifier::external_body]
pub fn get_u64_field(text: &str, key: &str) -> (r: Option<u64>)
    ensures
        r == json_u64_field(text@, key@),
        r is Some ==> json_has_field(text@, key@) && !json_null_field(text@, key@),
        !json_parses(text@) ==> r is None,
{
    serde_json::from_str::<serde_json::Value>(text).ok().and_then(
        |v| v.get(key).and_then(|f| f.as_u64()),
    )
}

/// Relies on `serde_json::from_str::<Value>`, `Value::get` and
/// `Value::is_null`: whether the field is there and holds `null`.  A `null`
/// field is neither a string nor a number.
#[verifier::external_body]
pub fn get_null_field(text: &str, key: &str) -> (r: bool)
    ensures
        r == json_null_field(text@, key@),
        r ==> json_has_field(text@, key@) && json_str_field(text@, key@) is None
            && json_u64_field(text@, key@) is None,
{
    serde_json::from_str::<serde_json::Value>(text).ok().and_then(
        |v| v.get(key).map(|f| f.is_null()),
    ).unwrap_or(false)
}

/// Relies on `serde_json::from_str::<Value>`, `Value::get` and
/// `Value::clone`: the field's raw sub-document, `Some` exactly when the
/// field is there.
#[verifier::external_body]
pub fn get_value_field(text: &str, key: &str) -> (r: Option<serde_json::Value>)
    ensures
        r is Some <==> json_has_field(text@, key@),
{
    serde_json::from_str::<serde_json::Value>(text).ok().and_then(
        |v| v.get(key).map(|f| f.clone()),
    )
}

/// Relies on `serde_json::from_str::<Value>` and `Value::get` twice: whether
/// the chain `outer`, then `inner`, is there.
#[verifier::external_body]
pub fn get_nested_field_exists(text: &str, outer: &str, inner: &str) -> (r: bool)
    ensures
        r == json_nested_has_field(text@, outer@, inner@),
        r ==> json_has_field(text@, outer@),
        !r ==> json_nested_str_field(text@, outer@, inner@) is None,
{
    serde_json::from_str::<serde_json::Value>(text).ok().and_then(
        |v| v.get(outer).and_then(|o| o.get(inner).map(|_| ())),
    ).is_some()
}

/// Relies on `serde_json::from_str::<Value>`, `Value::get` twice and
/// `Value::as_str`: the nested field's string, `Some` exactly when the chain
/// is there and ends in a JSON string.
#[verifier::external_body]
pub fn get_nested_str_field(text: &str, outer: &str, inner: &str) -> (r: Option<String>)
    ensures
        r is Some <==> json_nested_str_field(text@, outer@, inner@) is Some,
        r matches Some(s) ==> json_nested_str_field(text@, outer@, inner@) == Some(s@),
        r is Some ==> json_nested_has_field(text@, outer@, inner@) && json_has_field(
            text@,
            outer@,
        ),
{
    serde_json::from_str::<serde_json::Value>(text).ok().and_then(
        |v| v.get(outer).and_then(|o| o.get(inner)).and_then(|f| f.as_str().map(|s| s.to_owned())),
    )
}

} // verus!
