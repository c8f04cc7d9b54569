//! JSON documents as the protocol reads them: by their top-level string
//! members.

use vstd::prelude::*;

verus! {

#[verifier::external_type_specification]
#[verifier::external_body]
pub struct ExJsonValue(serde_json::Value);

#[verifier::external_type_specification]
#[verifier::external_body]
pub struct ExJsonError(serde_json::Error);

/// The top-level members of a JSON value whose value is a string, by key:
/// what `Value::get` with a string key finds and `Value::as_str` reads.
pub uninterp spec fn string_members(doc: serde_json::Value) -> Map<Seq<char>, Seq<char>>;

/// What `serde_json::from_str` makes of a text: `None` where it reports an
/// error, else the top-level string members of the value it returns.
pub uninterp spec fn json_members(text: Seq<char>) -> Option<Map<Seq<char>, Seq<char>>>;

/// Calls `serde_json::from_str` for a `Value`. Trusted: whether the text
/// parses, and which string members the value then has, depends on the text
/// alone and is named [`json_members`].
#[verifier::external_body]
pub(crate) fn parse_json(text: &str) -> (r: Result<serde_json::Value, serde_json::Error>)
    ensures
        match r {
            Ok(doc) => json_members(text@) == Some(string_members(doc)),
            Err(_) => json_members(text@) is None,
        },
{
    serde_json::from_str::<serde_json::Value>(text)
}

/// Calls `Value::get` with a string key and `Value::as_str` on what it
/// finds. Trusted: the result is the member of that key in
/// [`string_members`], and `None` where the value has no such member or the
/// member is no string.
#[verifier::external_body]
pub(crate) fn string_member(doc: &serde_json::Value, key: &str) -> (r: Option<String>)
    ensures
        r.deep_view() == (if string_members(*doc).contains_key(key@) {
            Some(string_members(*doc)[key@])
        } else {
            None
        }),
{
    match doc.get(key) {
        Some(member) => match member.as_str() {
            Some(s) => Some(s.to_string()),
            None => None,
        },
        None => None,
    }
}

} // verus!
