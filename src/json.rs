//! A mathematical model of `serde_json::Value` and the accessors the
//! transformers read payloads through.

use vstd::prelude::*;

verus! {

/// What a JSON value holds, as seen by the transformers.
pub enum JsonView {
    Null,
    Bool(bool),
    /// A number, with its value where it is a non-negative integer that fits in 64 bits.
    Number(Option<u64>),
    Str(Seq<char>),
    Array(Seq<JsonView>),
    Object(Map<Seq<char>, JsonView>),
}

#[verifier::external_type_specification]
#[verifier::external_body]
pub struct ExValue(serde_json::Value);

/// The contents of a parsed JSON value.
pub uninterp spec fn json_view(v: serde_json::Value) -> JsonView;

/// The member `key` of `v`, where `v` is an object that has it.
pub open spec fn member(v: JsonView, key: Seq<char>) -> Option<JsonView> {
    match v {
        JsonView::Object(m) => if m.contains_key(key) { Some(m[key]) } else { None },
        _ => None,
    }
}

/// The text of `v`, where `v` is a string.
pub open spec fn text_of(v: JsonView) -> Option<Seq<char>> {
    match v {
        JsonView::Str(s) => Some(s),
        _ => None,
    }
}

/// Relies on serde_json::Value::as_str: `Some` of the text exactly for a string.
#[verifier::external_body]
pub(crate) fn value_as_str(v: &serde_json::Value) -> (r: Option<&str>)
    ensures
        match text_of(json_view(*v)) {
            Some(s) => r matches Some(x) && x@ == s,
            None => r is None,
        },
{
    v.as_str()
}

/// Relies on serde_json::Value::get with a string key: the member of that name
/// of an object, and nothing for any other value.
#[verifier::external_body]
pub(crate) fn value_get<'a>(v: &'a serde_json::Value, key: &str) -> (r: Option<&'a serde_json::Value>)
    ensures
        match member(json_view(*v), key@) {
            Some(m) => r matches Some(x) && json_view(*x) == m,
            None => r is None,
        },
{
    v.get(key)
}

/// The items of `v`, where `v` is an array.
pub open spec fn items_of(v: JsonView) -> Option<Seq<JsonView>> {
    match v {
        JsonView::Array(a) => Some(a),
        _ => None,
    }
}

/// The number of `v`, where `v` is a non-negative integer that fits in 64 bits.
pub open spec fn u64_of(v: JsonView) -> Option<u64> {
    match v {
        JsonView::Number(n) => n,
        _ => None,
    }
}

/// Whether the views of `vs` are, one for one, the items `items`.
pub open spec fn views_are(vs: Seq<serde_json::Value>, items: Seq<JsonView>) -> bool {
    &&& vs.len() == items.len()
    &&& forall|i: int| 0 <= i < vs.len() ==> json_view(#[trigger] vs[i]) == items[i]
}

/// What serde_json makes of a text: the value it parses to, or its error message.
pub uninterp spec fn json_parse(s: Seq<char>) -> Result<JsonView, Seq<char>>;

/// Relies on serde_json::Value::as_array: `Some` of the items exactly for an array.
#[verifier::external_body]
pub(crate) fn value_as_array(v: &serde_json::Value) -> (r: Option<&Vec<serde_json::Value>>)
    ensures
        match items_of(json_view(*v)) {
            Some(items) => r matches Some(a) && views_are(a@, items),
            None => r is None,
        },
{
    v.as_array()
}

/// Relies on serde_json::Value::as_u64: `Some` exactly for a number that is a
/// non-negative integer in range.
#[verifier::external_body]
pub(crate) fn value_as_u64(v: &serde_json::Value) -> (r: Option<u64>)
    ensures
        r == u64_of(json_view(*v)),
{
    v.as_u64()
}

/// Relies on serde_json::Value::is_object: true exactly for an object.
#[verifier::external_body]
pub(crate) fn value_is_object(v: &serde_json::Value) -> (r: bool)
    ensures
        r == (json_view(*v) is Object),
{
    v.is_object()
}

/// Relies on serde_json::from_str into a `Value`: the parsed value, or the
/// parser's error message.
#[verifier::external_body]
pub(crate) fn parse_json(s: &str) -> (r: Result<serde_json::Value, String>)
    ensures
        match r {
            Ok(v) => json_parse(s@) == Ok::<JsonView, Seq<char>>(json_view(v)),
            Err(e) => json_parse(s@) == Err::<JsonView, Seq<char>>(e@),
        },
{
    serde_json::from_str::<serde_json::Value>(s).map_err(|e| e.to_string())
}

} // verus!
