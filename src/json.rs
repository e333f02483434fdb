use vstd::prelude::*;

use crate::error::ParserError;

verus! {

#[verifier::external_type_specification]
#[verifier::external_body]
pub struct ExValue(serde_json::Value);

/// The document that serde_json reads from a text, if the text is JSON.
pub uninterp spec fn json_document(text: Seq<char>) -> Option<serde_json::Value>;

/// The member under `key` of a JSON object; none for any other kind of value.
pub uninterp spec fn json_member(v: serde_json::Value, key: Seq<char>) -> Option<serde_json::Value>;

/// The element at `index` of a JSON array; none for any other kind of value.
pub uninterp spec fn json_element(v: serde_json::Value, index: int) -> Option<serde_json::Value>;

/// The text of a JSON string; none for any other kind of value.
pub uninterp spec fn json_string(v: serde_json::Value) -> Option<Seq<char>>;

/// Relies on `serde_json::from_str::<Value>`: the document is a function of
/// the text alone; an error is dropped.
#[verifier::external_body]
fn parse_document(text: &str) -> (r: Option<serde_json::Value>)
    ensures
        r == json_document(text@),
{
    serde_json::from_str::<serde_json::Value>(text).ok()
}

/// Relies on `Value::get` with a `&str` index: the member of an object.
#[verifier::external_body]
fn member<'a>(v: &'a serde_json::Value, key: &str) -> (r: Option<&'a serde_json::Value>)
    ensures
        r matches Some(m) ==> json_member(*v, key@) == Some(*m),
        r is None <==> json_member(*v, key@) is None,
{
    v.get(key)
}

/// Relies on `Value::get` with a `usize` index: the element of an array.
#[verifier::external_body]
fn element(v: &serde_json::Value, index: usize) -> (r: Option<&serde_json::Value>)
    ensures
        r matches Some(e) ==> json_element(*v, index as int) == Some(*e),
        r is None <==> json_element(*v, index as int) is None,
{
    v.get(index)
}

/// Relies on `Value::as_str`: the text of a JSON string.
#[verifier::external_body]
fn string_of(v: &serde_json::Value) -> (r: Option<&str>)
    ensures
        r matches Some(s) ==> json_string(*v) == Some(s@),
        r is None <==> json_string(*v) is None,
{
    v.as_str()
}

/// The string under `key` in a JSON value, if it is an object with such a
/// member.
pub open spec fn member_string(v: serde_json::Value, key: Seq<char>) -> Option<Seq<char>> {
    match json_member(v, key) {
        Some(m) => json_string(m),
        None => None,
    }
}

/// The latest release in a GitHub releases response: the string `tag_name` of
/// the top-level object.
pub open spec fn github_latest(body: Seq<char>) -> Option<Seq<char>> {
    match json_document(body) {
        Some(doc) => member_string(doc, "tag_name"@),
        None => None,
    }
}

/// The latest tag in a GitLab tags response: the string `name` of the first
/// element of the array.
pub open spec fn gitlab_latest(body: Seq<char>) -> Option<Seq<char>> {
    match json_document(body) {
        Some(doc) => match json_element(doc, 0) {
            Some(first) => member_string(first, "name"@),
            None => None,
        },
        None => None,
    }
}

/// A version found in a response, or the parser error for a response that
/// lacks it.
pub fn version_from_field(field: Option<&str>) -> (r: Result<String, ParserError>)
    ensures
        r is Ok <==> field is Some,
        r matches Ok(v) ==> field matches Some(f) && v@ == f@,
{
    match field {
        Some(f) => Ok(f.to_owned()),
        None => Err(ParserError {  }),
    }
}

/// The string member `key` of a JSON value.
fn member_str<'a>(v: &'a serde_json::Value, key: &str) -> (r: Option<&'a str>)
    ensures
        r is Some <==> member_string(*v, key@) is Some,
        r matches Some(s) ==> member_string(*v, key@) == Some(s@),
{
    match member(v, key) {
        Some(m) => string_of(m),
        None => None,
    }
}

/// The latest release named in a GitHub releases response body.
pub fn parse_github_release(body: &str) -> (r: Result<String, ParserError>)
    ensures
        r is Ok <==> github_latest(body@) is Some,
        r matches Ok(v) ==> github_latest(body@) == Some(v@),
{
    match parse_document(body) {
        Some(doc) => version_from_field(member_str(&doc, "tag_name")),
        None => Err(ParserError {  }),
    }
}

/// The latest tag named in a GitLab tags response body: the first element's
/// name, since the API lists the newest tag first.
pub fn parse_gitlab_tags(body: &str) -> (r: Result<String, ParserError>)
    ensures
        r is Ok <==> gitlab_latest(body@) is Some,
        r matches Ok(v) ==> gitlab_latest(body@) == Some(v@),
{
    match parse_document(body) {
        Some(doc) => match element(&doc, 0) {
            Some(first) => version_from_field(member_str(first, "name")),
            None => Err(ParserError {  }),
        },
        None => Err(ParserError {  }),
    }
}

} // verus!
