//! Get-or-fail extraction of the members of an untrusted JSON payload. Each
//! step either yields the member, with the expected type, or fails with the
//! description given for that case.

use vstd::prelude::*;
use crate::json::{
    items_of, json_view, member, text_of, u64_of, value_as_array, value_as_str, value_as_u64,
    value_get, value_is_object, views_are, JsonView,
};

verus! {

/// The member `key` of `v`, or `missing`.
pub open spec fn lookup(v: JsonView, key: Seq<char>, missing: Seq<char>) -> Result<JsonView, Seq<char>> {
    match member(v, key) {
        Some(m) => Ok(m),
        None => Err(missing),
    }
}

/// The text of `v`, or `mistyped`.
pub open spec fn as_text(v: JsonView, mistyped: Seq<char>) -> Result<Seq<char>, Seq<char>> {
    match text_of(v) {
        Some(s) => Ok(s),
        None => Err(mistyped),
    }
}

/// `v` itself where it is an object, or `mistyped`.
pub open spec fn as_object(v: JsonView, mistyped: Seq<char>) -> Result<JsonView, Seq<char>> {
    if v is Object {
        Ok(v)
    } else {
        Err(mistyped)
    }
}

/// The number of `v`, where it is a non-negative integer in range, or `mistyped`.
pub open spec fn as_u64(v: JsonView, mistyped: Seq<char>) -> Result<u64, Seq<char>> {
    match u64_of(v) {
        Some(n) => Ok(n),
        None => Err(mistyped),
    }
}

/// The items of `v`, or `mistyped`.
pub open spec fn as_items(v: JsonView, mistyped: Seq<char>) -> Result<Seq<JsonView>, Seq<char>> {
    match items_of(v) {
        Some(a) => Ok(a),
        None => Err(mistyped),
    }
}

/// The text of the member `key` of `v`: `missing` where there is none,
/// `mistyped` where it is no string.
pub open spec fn text_member(
    v: JsonView,
    key: Seq<char>,
    missing: Seq<char>,
    mistyped: Seq<char>,
) -> Result<Seq<char>, Seq<char>> {
    match lookup(v, key, missing) {
        Ok(m) => as_text(m, mistyped),
        Err(e) => Err(e),
    }
}

/// The member `key` of `v` where it is an object: `missing` where there is
/// none, `mistyped` where it is no object.
pub open spec fn object_member(
    v: JsonView,
    key: Seq<char>,
    missing: Seq<char>,
    mistyped: Seq<char>,
) -> Result<JsonView, Seq<char>> {
    match lookup(v, key, missing) {
        Ok(m) => as_object(m, mistyped),
        Err(e) => Err(e),
    }
}

/// The items of the member `key` of `v`: `missing` where there is none,
/// `mistyped` where it is no array.
pub open spec fn items_member(
    v: JsonView,
    key: Seq<char>,
    missing: Seq<char>,
    mistyped: Seq<char>,
) -> Result<Seq<JsonView>, Seq<char>> {
    match lookup(v, key, missing) {
        Ok(m) => as_items(m, mistyped),
        Err(e) => Err(e),
    }
}

/// The text of the member `key` of `v`, where there is one and it is a string.
pub open spec fn optional_text(v: JsonView, key: Seq<char>) -> Option<Seq<char>> {
    match member(v, key) {
        Some(m) => text_of(m),
        None => None,
    }
}

/// Like [`optional_text`], where an empty string counts as absent.
pub open spec fn optional_nonempty_text(v: JsonView, key: Seq<char>) -> Option<Seq<char>> {
    match optional_text(v, key) {
        Some(s) => if s.len() > 0 { Some(s) } else { None },
        None => None,
    }
}

/// The view of a text extraction.
pub open spec fn text_result(r: Result<&str, String>) -> Result<Seq<char>, Seq<char>> {
    match r {
        Ok(s) => Ok(s@),
        Err(e) => Err(e@),
    }
}

/// The view of a value extraction.
pub open spec fn value_result(r: Result<&serde_json::Value, String>) -> Result<JsonView, Seq<char>> {
    match r {
        Ok(v) => Ok(json_view(*v)),
        Err(e) => Err(e@),
    }
}

/// The member `key` of `v`, or `missing`.
pub fn get_value<'a>(v: &'a serde_json::Value, key: &str, missing: &str) -> (r: Result<&'a serde_json::Value, String>)
    ensures
        value_result(r) == lookup(json_view(*v), key@, missing@),
{
    match value_get(v, key) {
        Some(m) => Ok(m),
        None => Err(missing.to_string()),
    }
}

/// The text of `v`, or `mistyped`.
pub fn get_text<'a>(v: &'a serde_json::Value, mistyped: &str) -> (r: Result<&'a str, String>)
    ensures
        text_result(r) == as_text(json_view(*v), mistyped@),
{
    match value_as_str(v) {
        Some(s) => Ok(s),
        None => Err(mistyped.to_string()),
    }
}

/// `v` itself where it is an object, or `mistyped`.
pub fn get_object<'a>(v: &'a serde_json::Value, mistyped: &str) -> (r: Result<&'a serde_json::Value, String>)
    ensures
        value_result(r) == as_object(json_view(*v), mistyped@),
{
    if value_is_object(v) {
        Ok(v)
    } else {
        Err(mistyped.to_string())
    }
}

/// The number of `v`, or `mistyped`.
pub fn get_u64(v: &serde_json::Value, mistyped: &str) -> (r: Result<u64, String>)
    ensures
        match as_u64(json_view(*v), mistyped@) {
            Ok(n) => r == Ok::<u64, String>(n),
            Err(e) => r matches Err(x) && x@ == e,
        },
{
    match value_as_u64(v) {
        Some(n) => Ok(n),
        None => Err(mistyped.to_string()),
    }
}

/// The items of `v`, or `mistyped`.
pub fn get_items<'a>(v: &'a serde_json::Value, mistyped: &str) -> (r: Result<&'a Vec<serde_json::Value>, String>)
    ensures
        match as_items(json_view(*v), mistyped@) {
            Ok(items) => r matches Ok(a) && views_are(a@, items),
            Err(e) => r matches Err(x) && x@ == e,
        },
{
    match value_as_array(v) {
        Some(a) => Ok(a),
        None => Err(mistyped.to_string()),
    }
}

/// The text of the member `key` of `v`.
pub fn get_text_member<'a>(
    v: &'a serde_json::Value,
    key: &str,
    missing: &str,
    mistyped: &str,
) -> (r: Result<&'a str, String>)
    ensures
        text_result(r) == text_member(json_view(*v), key@, missing@, mistyped@),
{
    let m = get_value(v, key, missing)?;
    get_text(m, mistyped)
}

/// The member `key` of `v`, where it is an object.
pub fn get_object_member<'a>(
    v: &'a serde_json::Value,
    key: &str,
    missing: &str,
    mistyped: &str,
) -> (r: Result<&'a serde_json::Value, String>)
    ensures
        value_result(r) == object_member(json_view(*v), key@, missing@, mistyped@),
{
    let m = get_value(v, key, missing)?;
    get_object(m, mistyped)
}

/// The items of the member `key` of `v`.
pub fn get_items_member<'a>(
    v: &'a serde_json::Value,
    key: &str,
    missing: &str,
    mistyped: &str,
) -> (r: Result<&'a Vec<serde_json::Value>, String>)
    ensures
        match items_member(json_view(*v), key@, missing@, mistyped@) {
            Ok(items) => r matches Ok(a) && views_are(a@, items),
            Err(e) => r matches Err(x) && x@ == e,
        },
{
    let m = get_value(v, key, missing)?;
    get_items(m, mistyped)
}

/// The text of the member `key` of `v`, where there is one and it is a string.
pub fn get_optional_text<'a>(v: &'a serde_json::Value, key: &str) -> (r: Option<&'a str>)
    ensures
        match optional_text(json_view(*v), key@) {
            Some(s) => r matches Some(x) && x@ == s,
            None => r is None,
        },
{
    match value_get(v, key) {
        Some(m) => value_as_str(m),
        None => None,
    }
}

/// Like [`get_optional_text`], where an empty string counts as absent.
pub fn get_optional_nonempty_text<'a>(v: &'a serde_json::Value, key: &str) -> (r: Option<&'a str>)
    ensures
        match optional_nonempty_text(json_view(*v), key@) {
            Some(s) => r matches Some(x) && x@ == s,
            None => r is None,
        },
{
    match get_optional_text(v, key) {
        Some(s) => if s.is_empty() { None } else { Some(s) },
        None => None,
    }
}

} // verus!
