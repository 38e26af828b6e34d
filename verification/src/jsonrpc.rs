//! The trusted boundary to the JSON parser and the identifier generator.
//! Each observation of a line is named as a function of the line's characters
//! alone; the verified translator's contracts are stated over these names.

use vstd::prelude::*;

verus! {

/// Whether a line parses as one JSON document, or the parser's error text.
pub uninterp spec fn json_parse_res(s: Seq<char>) -> Result<(), Seq<char>>;

/// The string value of a top-level field of the document a line parses to,
/// when the line parses and the field holds a string.
pub uninterp spec fn json_field_str(s: Seq<char>, key: Seq<char>) -> Option<Seq<char>>;

/// The integer value of a top-level field of the document a line parses to,
/// when the line parses and the field holds an integer in signed 64-bit
/// range.
pub uninterp spec fn json_field_i64(s: Seq<char>, key: Seq<char>) -> Option<int>;

/// The compact reserialization of a top-level field of the document a line
/// parses to, when the line parses and the field is present.
pub uninterp spec fn json_field_doc(s: Seq<char>, key: Seq<char>) -> Option<Seq<char>>;

/// The compact reserialization of the whole document a line parses to.
pub uninterp spec fn json_compact(s: Seq<char>) -> Seq<char>;

/// Relies on serde_json::from_str::<Value> and the parse error's Display
/// text: whether a line is one valid JSON document, and the parser's message
/// when it is not. Both depend on the line's characters alone.
#[verifier::external_body]
pub(crate) fn json_check(line: &str) -> (r: Result<(), String>)
    ensures
        r is Ok <==> json_parse_res(line@) is Ok,
        r matches Err(m) ==> (json_parse_res(line@) matches Err(m2) && m2 == m@),
{
    match serde_json::from_str::<serde_json::Value>(line) {
        Ok(_) => Ok(()),
        Err(e) => Err(e.to_string()),
    }
}

/// Relies on serde_json::from_str::<Value>, Value::get and Value::as_str:
/// the string value of a top-level field. Depends on the line and key alone.
#[verifier::external_body]
pub(crate) fn json_str_field(line: &str, key: &str) -> (r: Option<String>)
    ensures
        r is Some <==> json_field_str(line@, key@) is Some,
        r matches Some(v) ==> json_field_str(line@, key@) == Some(v@),
{
    serde_json::from_str::<serde_json::Value>(line).ok().as_ref().and_then(|d| d.get(key)).and_then(
        |v| v.as_str(),
    ).map(|s| s.to_string())
}

/// Relies on serde_json::from_str::<Value>, Value::get and Value::as_i64:
/// the integer value of a top-level field. Depends on the line and key
/// alone.
#[verifier::external_body]
pub(crate) fn json_i64_field(line: &str, key: &str) -> (r: Option<i64>)
    ensures
        r is Some <==> json_field_i64(line@, key@) is Some,
        r matches Some(v) ==> json_field_i64(line@, key@) == Some(v as int),
{
    serde_json::from_str::<serde_json::Value>(line).ok().as_ref().and_then(|d| d.get(key)).and_then(
        |v| v.as_i64(),
    )
}

/// Relies on serde_json::from_str::<Value>, Value::get and Value's Display,
/// which writes compact JSON: a top-level field of the parsed document,
/// reserialized. Depends on the line and key alone.
#[verifier::external_body]
pub(crate) fn json_doc_field(line: &str, key: &str) -> (r: Option<String>)
    ensures
        r is Some <==> json_field_doc(line@, key@) is Some,
        r matches Some(v) ==> json_field_doc(line@, key@) == Some(v@),
{
    serde_json::from_str::<serde_json::Value>(line).ok().as_ref().and_then(|d| d.get(key)).map(
        |v| v.to_string(),
    )
}

/// Relies on serde_json::from_str::<Value> and Value's Display, which writes
/// compact JSON: the parsed document, reserialized. Returns a value exactly
/// when the line parses; depends on the line's characters alone.
#[verifier::external_body]
pub(crate) fn json_doc_text(line: &str) -> (r: Option<String>)
    ensures
        r is Some <==> json_parse_res(line@) is Ok,
        r matches Some(t) ==> t@ == json_compact(line@),
{
    serde_json::from_str::<serde_json::Value>(line).ok().map(|v| v.to_string())
}

/// Relies on uuid::Uuid::new_v4 and its hyphenated Display form, which is
/// always 36 characters. The value itself is random, so nothing more is
/// claimed of it.
#[verifier::external_body]
pub(crate) fn fresh_uuid_string() -> (r: String)
    ensures
        r@.len() == 36,
{
    uuid::Uuid::new_v4().to_string()
}

} // verus!
