//! The calls into serde_json that the codec makes.

use vstd::prelude::*;

verus! {

#[verifier::external_type_specification]
#[verifier::external_body]
pub struct ExJsonError(serde_json::Error);

/// The members of the JSON object written in `text`, each with the exact
/// source text of its value, in the order of their names; `None` where
/// `text` is not a JSON object.
pub uninterp spec fn json_object_members(text: Seq<u8>) -> Option<Seq<(Seq<char>, Seq<char>)>>;

/// The unsigned integer that the JSON text `text` denotes; `None` where it
/// denotes no value of `u64`.
pub uninterp spec fn json_u64(text: Seq<char>) -> Option<u64>;

/// The JSON string literal that stands for `s`.
pub uninterp spec fn json_quoted(s: Seq<char>) -> Seq<char>;

pub open spec fn members_view(m: Seq<(String, String)>) -> Seq<(Seq<char>, Seq<char>)> {
    m.map_values(|p: (String, String)| (p.0@, p.1@))
}

/// Relies on serde_json::from_slice into a `BTreeMap<String, Box<RawValue>>`:
/// parses a JSON object and keeps the source text of each member's value.
#[verifier::external_body]
pub(crate) fn parse_object_members(text: &[u8]) -> (r: Result<Vec<(String, String)>, serde_json::Error>)
    ensures
        r is Ok <==> json_object_members(text@) is Some,
        r matches Ok(m) ==> json_object_members(text@) == Some(members_view(m@)),
{
    serde_json::from_slice::<std::collections::BTreeMap<String, Box<serde_json::value::RawValue>>>(text)
        .map(|m| m.into_iter().map(|(k, v)| (k, v.get().to_string())).collect())
}

/// Relies on serde_json::from_str::<u64>: reads a JSON number as `u64`.
#[verifier::external_body]
pub(crate) fn parse_u64(text: &str) -> (r: Result<u64, serde_json::Error>)
    ensures
        r is Ok <==> json_u64(text@) is Some,
        r matches Ok(n) ==> json_u64(text@) == Some(n),
{
    serde_json::from_str::<u64>(text)
}

/// Relies on serde_json::to_string on a `str`, which its documentation
/// lets fail only for a failing `Serialize` impl or a map with non-string keys.
#[verifier::external_body]
pub(crate) fn quote(s: &str) -> (r: String)
    ensures
        r@ == json_quoted(s@),
{
    match serde_json::to_string(s) {
        Ok(q) => q,
        Err(_) => String::new(),
    }
}

} // verus!
