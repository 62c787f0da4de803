//! Reading members of one-object-per-line JSON output through serde_json.
use vstd::prelude::*;
use crate::text::opt_view;

verus! {

#[verifier::external_type_specification]
#[verifier::external_body]
pub struct ExJsonError(serde_json::Error);

/// What serde_json reads from `line` under `key`: `None` where `line` is not a
/// JSON document, `Some(None)` where the document has no string member `key`,
/// and otherwise `Some(Some(text))` with the member's text.
pub uninterp spec fn json_string_member(line: Seq<char>, key: Seq<char>) -> Option<Option<Seq<char>>>;

/// Relies on serde_json::from_str to read `line` as a `serde_json::Value`, and on
/// `Value::get` with `Value::as_str` to pick the member `key` where it is a string.
#[verifier::external_body]
pub(crate) fn string_member(line: &str, key: &str) -> (r: Result<Option<String>, serde_json::Error>)
    ensures
        r is Ok ==> json_string_member(line@, key@) == Some(opt_view(r->Ok_0)),
        r is Err ==> json_string_member(line@, key@) is None,
{
    serde_json::from_str::<serde_json::Value>(line).map(
        |v| v.get(key).and_then(|m| m.as_str()).map(|t| t.to_owned()),
    )
}

} // verus!
