//! Fields of JSON texts, as the `serde_json` crate reads them.

use crate::text::text_of;
use vstd::prelude::*;

verus! {

/// What `serde_json` reads as the string under a key of a JSON object.
pub uninterp spec fn json_text_at(text: Seq<char>, key: Seq<char>) -> Option<Seq<char>>;

/// What `serde_json` reads as the unsigned number under a key of a JSON object.
pub uninterp spec fn json_number_at(text: Seq<char>, key: Seq<char>) -> Option<u64>;

/// `serde_json::from_str` into a `Value`, then `Value::get` with a key and
/// `Value::as_str`: the string under that key, where the text is a JSON object that
/// has one. The result depends on the text and the key alone.
#[verifier::external_body]
pub(crate) fn json_text(text: &str, key: &str) -> (r: Option<String>)
    ensures
        text_of(r) == json_text_at(text@, key@),
{
    let value: serde_json::Value = serde_json::from_str(text).ok()?;
    value.get(key)?.as_str().map(|s| s.to_owned())
}

/// `serde_json::from_str` into a `Value`, then `Value::get` with a key and
/// `Value::as_u64`: the number under that key, where the text is a JSON object that
/// has one and it is an integer that a `u64` holds. The result depends on the text
/// and the key alone.
#[verifier::external_body]
pub(crate) fn json_number(text: &str, key: &str) -> (r: Option<u64>)
    ensures
        r == json_number_at(text@, key@),
{
    let value: serde_json::Value = serde_json::from_str(text).ok()?;
    value.get(key)?.as_u64()
}

} // verus!
