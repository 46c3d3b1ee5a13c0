//! Text fields of a JSON request body.

use vstd::prelude::*;

verus! {

#[verifier::external_type_specification]
#[verifier::external_body]
pub struct ExValue(serde_json::Value);

/// The members of a JSON object that are strings, each under its key. A
/// value that is no object has none.
pub uninterp spec fn text_members(value: serde_json::Value) -> Map<Seq<char>, Seq<char>>;

/// The member of `value` under `key`, if `value` is an object that has such
/// a member and the member is a string.
///
/// Calls `serde_json::Value::get` with the key and takes the text out of
/// the `String` variant. Not proved, but taken from that crate: `get` with
/// a text key looks the key up in an object and gives nothing for any other
/// value. What comes back is stated as the entry of `text_members` under
/// the key, or the lack of one.
#[verifier::external_body]
pub(crate) fn text_member(value: &serde_json::Value, key: &str) -> (text: Option<String>)
    ensures
        match text {
            Some(t) => text_members(*value).contains_key(key@) && text_members(*value)[key@] == t@,
            None => !text_members(*value).contains_key(key@),
        },
{
    match value.get(key) {
        Some(serde_json::Value::String(text)) => Some(text.clone()),
        _ => None,
    }
}

/// The text under `key` among the string members of `value`, if there is
/// one.
pub open spec fn member_text(value: serde_json::Value, key: Seq<char>) -> Option<Seq<char>> {
    if text_members(value).contains_key(key) {
        Some(text_members(value)[key])
    } else {
        None
    }
}

} // verus!
