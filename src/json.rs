//! A model of JSON documents, and the parts of serde_json through which the
//! decoder reads them.
use vstd::prelude::*;

verus! {

/// A JSON value as the decoder sees it. A number carries no payload here:
/// nothing in this library reads one.
pub enum JsonView {
    Null,
    Bool(bool),
    Number,
    Str(Seq<char>),
    Array(Seq<JsonView>),
    Object(Map<Seq<char>, JsonView>),
}

/// serde_json::Value, a parsed JSON document, held opaque; what it holds is
/// `json_view`.
#[verifier::external_type_specification]
#[verifier::external_body]
pub struct ExValue(serde_json::Value);

/// serde_json::Error, the failure of a parse, carried through unread.
#[verifier::external_type_specification]
#[verifier::external_body]
pub struct ExJsonError(serde_json::Error);

/// The document that a parsed value holds: the tree of a
/// `serde_json::Value`, with object members keyed by their names.
pub uninterp spec fn json_view(v: serde_json::Value) -> JsonView;

/// The document that a text spells, or `None` where the text is not exactly
/// one well-formed JSON value.
pub uninterp spec fn parsed_json(text: Seq<char>) -> Option<JsonView>;

/// Relies on serde_json::from_str, read into a `serde_json::Value`: it
/// succeeds exactly on a well-formed JSON text, and the value then holds the
/// document that the text spells.
#[verifier::external_body]
pub(crate) fn parse_json(text: &str) -> (r: Result<serde_json::Value, serde_json::Error>)
    ensures
        match parsed_json(text@) {
            Some(doc) => r matches Ok(v) && json_view(v) == doc,
            None => r is Err,
        },
{
    serde_json::from_str::<serde_json::Value>(text)
}

/// Relies on serde_json::Value::get with a `&str` index: the member of an
/// object under that key, and nothing for any other kind of value.
#[verifier::external_body]
pub(crate) fn json_member<'a>(v: &'a serde_json::Value, key: &str) -> (r: Option<
    &'a serde_json::Value,
>)
    ensures
        match json_view(*v) {
            JsonView::Object(members) => if members.contains_key(key@) {
                r matches Some(m) && json_view(*m) == members[key@]
            } else {
                r is None
            },
            _ => r is None,
        },
{
    v.get(key)
}

/// serde_json::Value::as_array: the elements of an array, in order.
pub assume_specification[ serde_json::Value::as_array ](v: &serde_json::Value) -> (r: Option<
    &Vec<serde_json::Value>,
>)
    ensures
        match json_view(*v) {
            JsonView::Array(items) => r matches Some(a) && a@.len() == items.len() && forall|
                i: int,
            |
                0 <= i < items.len() ==> json_view(#[trigger] a@[i]) == items[i],
            _ => r is None,
        },
;

/// serde_json::Value::as_str: the text of a string value.
pub assume_specification[ serde_json::Value::as_str ](v: &serde_json::Value) -> (r: Option<&str>)
    ensures
        match json_view(*v) {
            JsonView::Str(s) => r matches Some(t) && t@ == s,
            _ => r is None,
        },
;

/// serde_json::Value::is_null: whether the value is `null`.
pub assume_specification[ serde_json::Value::is_null ](v: &serde_json::Value) -> (r: bool)
    ensures
        r == (json_view(*v) is Null),
;

} // verus!
