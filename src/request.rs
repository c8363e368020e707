//! The gates every transformer puts a request through: its method, and a body
//! that is UTF-8 text holding a JSON object.

use vstd::prelude::*;
use vstd::utf8::{decode_utf8, valid_utf8};
use crate::json::{json_parse, json_view, parse_json, value_is_object, JsonView};
use crate::text::{decode_bytes, utf8_error};

verus! {

/// The JSON object that a request body holds, or why it holds none.
pub open spec fn body_value(body: Seq<u8>) -> Result<JsonView, Seq<char>> {
    if !valid_utf8(body) {
        Err("Failed to parse the body as UTF-8: "@ + utf8_error(body))
    } else {
        match json_parse(decode_utf8(body)) {
            Err(e) => Err("Failed to parse the body as JSON: "@ + e),
            Ok(v) => if v is Object {
                Ok(v)
            } else {
                Err("The body is not a JSON object"@)
            },
        }
    }
}

/// The view of a parsed body.
pub open spec fn parsed_view(r: Result<serde_json::Value, String>) -> Result<JsonView, Seq<char>> {
    match r {
        Ok(v) => Ok(json_view(v)),
        Err(e) => Err(e@),
    }
}

/// Decodes a request body and parses it as a JSON object.
pub fn read_body(body: &[u8]) -> (r: Result<serde_json::Value, String>)
    ensures
        parsed_view(r) == body_value(body@),
{
    let text = match decode_bytes(body) {
        Ok(t) => t,
        Err(e) => {
            let mut m = "Failed to parse the body as UTF-8: ".to_string();
            m.append(e.as_str());
            return Err(m);
        },
    };
    let v = match parse_json(text.as_str()) {
        Ok(v) => v,
        Err(e) => {
            let mut m = "Failed to parse the body as JSON: ".to_string();
            m.append(e.as_str());
            return Err(m);
        },
    };
    if value_is_object(&v) {
        Ok(v)
    } else {
        Err("The body is not a JSON object".to_string())
    }
}

/// Whether the method is `POST`.
pub open spec fn is_post(method: Seq<char>) -> bool {
    method == "POST"@
}

/// Whether the method is `POST` or `PUT`.
pub open spec fn is_post_or_put(method: Seq<char>) -> bool {
    method == "POST"@ || method == "PUT"@
}

} // verus!
