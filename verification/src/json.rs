//! JSON texts.

use vstd::prelude::*;

verus! {

/// What `serde_json` makes of a JSON text that is parsed to a value and
/// written again: the compact text, or `None` for a text that is no JSON.
pub uninterp spec fn compact_of(text: Seq<char>) -> Option<Seq<char>>;

/// The boolean that a member of a JSON object holds: `None` when the bytes are
/// no JSON, `Some(None)` when there is no such member or it is no boolean.
pub uninterp spec fn bool_member_of(bytes: Seq<u8>, member: Seq<char>) -> Option<Option<bool>>;

/// Calls `serde_json::from_str` to a `serde_json::Value` and
/// `serde_json::to_string` on that. Claimed: the outcome depends on the text
/// alone.
#[verifier::external_body]
pub(crate) fn compact(text: &str) -> (r: Option<String>)
    ensures
        match r {
            Some(t) => compact_of(text@) == Some(t@),
            None => compact_of(text@) is None,
        },
{
    let value = serde_json::from_str::<serde_json::Value>(text).ok()?;
    serde_json::to_string(&value).ok()
}

/// Calls `serde_json::from_slice` to a `serde_json::Value`, indexes it and
/// calls `Value::as_bool`. Claimed: the outcome depends on the bytes and the
/// member's name alone.
#[verifier::external_body]
pub(crate) fn bool_member(bytes: &[u8], member: &str) -> (r: Option<Option<bool>>)
    ensures
        r == bool_member_of(bytes@, member@),
{
    serde_json::from_slice::<serde_json::Value>(bytes).ok().map(|v| v[member].as_bool())
}

} // verus!
