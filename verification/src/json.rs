use vstd::prelude::*;

verus! {

/// Whether `text` is one JSON document (`serde_json::from_str::<Value>`
/// succeeds on it).
pub uninterp spec fn json_parses(text: Seq<char>) -> bool;

/// The string held by member `key` of the JSON object in `text`; none where
/// `text` is not JSON, is not an object, lacks the member, or the member is
/// not a string.
pub uninterp spec fn json_string_member(text: Seq<char>, key: Seq<char>) -> Option<Seq<char>>;

/// Calls `serde_json::from_str::<serde_json::Value>` on `text` and reports
/// whether it succeeded. Claimed: the answer is a function of `text`.
#[verifier::external_body]
pub(crate) fn parses_as_json(text: &str) -> (r: bool)
    ensures
        r == json_parses(text@),
{
    serde_json::from_str::<serde_json::Value>(text).is_ok()
}

/// Parses `text` with `serde_json::from_str::<serde_json::Value>`, then reads
/// member `key` with `Value::get` and `Value::as_str`. Claimed: the answer
/// is a function of `text` and `key`, and there is one only where `text`
/// parses.
#[verifier::external_body]
pub(crate) fn string_member(text: &str, key: &str) -> (r: Option<String>)
    ensures
        match r {
            Some(s) => json_string_member(text@, key@) == Some(s@),
            None => json_string_member(text@, key@) is None,
        },
        r is Some ==> json_parses(text@),
{
    let value = serde_json::from_str::<serde_json::Value>(text).ok()?;
    let member = value.get(key)?.as_str()?;
    Some(member.to_string())
}

} // verus!
