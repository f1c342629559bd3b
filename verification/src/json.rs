//! Reading members out of JSON documents.
//!
//! Parsing is done by `serde_json`. Each function here parses a whole
//! document and hands back one plain value; what it hands back is named by a
//! spec function without a body, so callers know only that the same bytes
//! and the same member name give the same answer.

use vstd::prelude::*;
use vstd::string::*;

verus! {

/// Whether `bytes` is the text of one JSON value.
pub uninterp spec fn json_valid(bytes: Seq<u8>) -> bool;

/// The string held by member `name` of the JSON object `bytes`; `None`
/// where `bytes` is no JSON object, has no such member, or the member is
/// not a string.
pub uninterp spec fn json_text_member(bytes: Seq<u8>, name: Seq<char>) -> Option<Seq<char>>;

/// The integer held by member `name` of the JSON object `bytes`; `None`
/// where `bytes` is no JSON object, has no such member, or the member is
/// not a number that fits an `i64`.
pub uninterp spec fn json_int_member(bytes: Seq<u8>, name: Seq<char>) -> Option<i64>;

/// The string that is the first element of the array held by member `name`
/// of the JSON object `bytes`; `None` where there is no such array, it is
/// empty, or its first element is not a string.
pub uninterp spec fn json_first_text(bytes: Seq<u8>, name: Seq<char>) -> Option<Seq<char>>;

/// Two optional texts as plain values.
pub type TextPair = (Option<Seq<char>>, Option<Seq<char>>);

/// For each element of the array held by member `list` of the JSON object
/// `bytes`, in order, the strings held by the element's members `first`
/// and `second` (`None` for a member that is missing or not a string);
/// `None` where `bytes` is no JSON object or has no such array.
pub uninterp spec fn json_member_pairs(
    bytes: Seq<u8>,
    list: Seq<char>,
    first: Seq<char>,
    second: Seq<char>,
) -> Option<Seq<TextPair>>;

/// A list of pairs of optional strings as plain values.
pub open spec fn pairs_view(pairs: Option<Vec<(Option<String>, Option<String>)>>) -> Option<
    Seq<TextPair>,
> {
    match pairs {
        Some(v) => Some(
            v@.map_values(
                |p: (Option<String>, Option<String>)| (p.0.deep_view(), p.1.deep_view()),
            ),
        ),
        None => None,
    }
}

/// Parses with `serde_json::from_slice` into a `serde_json::Value` and says
/// whether that succeeded.
#[verifier::external_body]
pub(crate) fn is_json(bytes: &[u8]) -> (r: bool)
    ensures
        r == json_valid(bytes@),
{
    serde_json::from_slice::<serde_json::Value>(bytes).is_ok()
}

/// Parses with `serde_json::from_slice`, looks the member up with
/// `Value::get` and reads it with `Value::as_str`.
#[verifier::external_body]
pub(crate) fn text_member(bytes: &[u8], name: &str) -> (r: Option<String>)
    ensures
        r.deep_view() == json_text_member(bytes@, name@),
{
    let doc = serde_json::from_slice::<serde_json::Value>(bytes).ok()?;
    doc.get(name)?.as_str().map(str::to_owned)
}

/// Parses with `serde_json::from_slice`, looks the member up with
/// `Value::get` and reads it with `Value::as_i64`.
#[verifier::external_body]
pub(crate) fn int_member(bytes: &[u8], name: &str) -> (r: Option<i64>)
    ensures
        r == json_int_member(bytes@, name@),
{
    let doc = serde_json::from_slice::<serde_json::Value>(bytes).ok()?;
    doc.get(name)?.as_i64()
}

/// Parses with `serde_json::from_slice`, looks the member up with
/// `Value::get`, takes it with `Value::as_array` and reads the array's
/// first element with `Value::as_str`.
#[verifier::external_body]
pub(crate) fn first_text(bytes: &[u8], name: &str) -> (r: Option<String>)
    ensures
        r.deep_view() == json_first_text(bytes@, name@),
{
    let doc = serde_json::from_slice::<serde_json::Value>(bytes).ok()?;
    doc.get(name)?.as_array()?.first()?.as_str().map(str::to_owned)
}

/// Parses with `serde_json::from_slice`, looks the list up with
/// `Value::get`, takes it with `Value::as_array`, and reads the two members
/// of each element with `Value::get` and `Value::as_str`.
#[verifier::external_body]
pub(crate) fn member_pairs(bytes: &[u8], list: &str, first: &str, second: &str) -> (r: Option<
    Vec<(Option<String>, Option<String>)>,
>)
    ensures
        pairs_view(r) == json_member_pairs(bytes@, list@, first@, second@),
{
    let doc = serde_json::from_slice::<serde_json::Value>(bytes).ok()?;
    let text = |v: &serde_json::Value, name: &str| v.get(name)?.as_str().map(str::to_owned);
    Some(doc.get(list)?.as_array()?.iter().map(|e| (text(e, first), text(e, second))).collect())
}

} // verus!
