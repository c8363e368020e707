//! Uptime-monitor payloads (UptimeKuma style): a heartbeat message, marked
//! with whether the monitor is up, as far as the payload's summary tells.

use vstd::prelude::*;
use crate::extract::{get_optional_text, get_text_member, get_value, lookup, optional_text, text_member};
use crate::json::{json_view, JsonView};
use crate::message::{outcome_view, plain, rich, HookshotMessage, MessageView};
use crate::request::{body_value, is_post, read_body};
use crate::text::{contains, occurs_in, same_text};

verus! {

/// Configuration of the uptime-monitor transformer.
#[derive(Debug)]
pub struct UptimeKumaToHookshotTransformer {
    /// Where the messages are delivered.
    pub uri: String,
    /// Forward the payload's `msg` as it is, instead of rendering the heartbeat.
    pub just_show_message: Option<bool>,
}

/// Whether a summary tells that the monitor is up (`Some(true)`), down
/// (`Some(false)`), or neither; the markers are tried in a fixed order.
pub open spec fn detect_up(summary: Seq<char>) -> Option<bool> {
    if occurs_in("[\u{2705} "@, summary) {
        Some(true)
    } else if occurs_in("[\u{1f534} "@, summary) {
        Some(false)
    } else if occurs_in("Up]"@, summary) {
        Some(true)
    } else if occurs_in("Down]"@, summary) {
        Some(false)
    } else {
        None
    }
}

/// Whether the payload's top-level `msg` tells that the monitor is up; a
/// missing or non-string `msg` tells nothing.
pub open spec fn up_state(body: JsonView) -> Option<bool> {
    match optional_text(body, "msg"@) {
        Some(t) => detect_up(t),
        None => None,
    }
}

/// The mark for a monitor that is up, down, or of unknown state.
pub open spec fn up_mark(up: Option<bool>) -> Seq<char> {
    match up {
        Some(true) => "\u{1f7e2}"@,
        Some(false) => "\u{1f534}"@,
        None => "\u{26aa}"@,
    }
}

/// The rendered heartbeat: mark, bold monitor name, colon, message.
pub open spec fn heartbeat_html(up: Option<bool>, name: Seq<char>, msg: Seq<char>) -> Seq<char> {
    "<p>"@ + up_mark(up) + " <b>"@ + name + "</b>: "@ + msg + "</p>"@
}

/// The message for a parsed payload, or why there is none.
pub open spec fn uptime_message(just_show_message: bool, body: JsonView) -> Result<MessageView, Seq<char>> {
    if just_show_message {
        match text_member(body, "msg"@, "The body does not contain a msg"@, "The msg is not a string"@) {
            Ok(m) => Ok(plain(m)),
            Err(e) => Err(e),
        }
    } else {
        match lookup(body, "heartbeat"@, "The body does not contain a heartbeat"@) {
            Err(e) => Err(e),
            Ok(heartbeat) => match lookup(body, "monitor"@, "The body does not contain a monitor"@) {
                Err(e) => Err(e),
                Ok(monitor) => match text_member(monitor, "name"@, "The monitor does not contain a name"@, "The name is not a string"@) {
                    Err(e) => Err(e),
                    Ok(name) => match text_member(heartbeat, "msg"@, "The heartbeat does not contain a msg"@, "The msg is not a string"@) {
                        Err(e) => Err(e),
                        Ok(msg) => Ok(rich(msg, heartbeat_html(up_state(body), name, msg))),
                    },
                },
            },
        }
    }
}

/// The message for a request, or why there is none.
pub open spec fn uptime_outcome(just_show_message: bool, method: Seq<char>, body: Seq<u8>) -> Result<MessageView, Seq<char>> {
    if !is_post(method) {
        Err("Only POST requests are supported"@)
    } else {
        match body_value(body) {
            Err(e) => Err(e),
            Ok(v) => uptime_message(just_show_message, v),
        }
    }
}

/// Whether a summary tells that the monitor is up, down, or neither.
pub fn detect_up_state(summary: &str) -> (r: Option<bool>)
    ensures
        r == detect_up(summary@),
{
    if contains(summary, "[\u{2705} ") {
        Some(true)
    } else if contains(summary, "[\u{1f534} ") {
        Some(false)
    } else if contains(summary, "Up]") {
        Some(true)
    } else if contains(summary, "Down]") {
        Some(false)
    } else {
        None
    }
}

fn up_mark_str(up: Option<bool>) -> (r: &'static str)
    ensures
        r@ == up_mark(up),
{
    match up {
        Some(true) => "\u{1f7e2}",
        Some(false) => "\u{1f534}",
        None => "\u{26aa}",
    }
}

impl UptimeKumaToHookshotTransformer {
    /// Builds the message for a parsed payload.
    pub fn transform(&self, body: &serde_json::Value) -> (r: Result<HookshotMessage, String>)
        ensures
            outcome_view(r) == uptime_message(self.just_show_message == Some(true), json_view(*body)),
    {
        if self.just_show_message == Some(true) {
            let m = get_text_member(body, "msg", "The body does not contain a msg", "The msg is not a string")?;
            Ok(HookshotMessage::plain(m.to_string()))
        } else {
            let heartbeat = get_value(body, "heartbeat", "The body does not contain a heartbeat")?;
            let monitor = get_value(body, "monitor", "The body does not contain a monitor")?;
            let name = get_text_member(monitor, "name", "The monitor does not contain a name", "The name is not a string")?;
            let msg = get_text_member(heartbeat, "msg", "The heartbeat does not contain a msg", "The msg is not a string")?;
            let up = match get_optional_text(body, "msg") {
                Some(t) => detect_up_state(t),
                None => None,
            };
            let mut html = "<p>".to_string();
            html.append(up_mark_str(up));
            html.append(" <b>");
            html.append(name);
            html.append("</b>: ");
            html.append(msg);
            html.append("</p>");
            Ok(HookshotMessage::rich(msg.to_string(), html))
        }
    }

    /// Checks the method, reads the body and builds the message for a request.
    pub fn handle(&self, method: &str, body: &[u8]) -> (r: Result<HookshotMessage, String>)
        ensures
            outcome_view(r) == uptime_outcome(self.just_show_message == Some(true), method@, body@),
    {
        if !same_text(method, "POST") {
            return Err("Only POST requests are supported".to_string());
        }
        let v = read_body(body)?;
        self.transform(&v)
    }
}

/// A summary that holds the up marker "[✅ " tells that the monitor is up,
/// whatever else it holds.
pub proof fn lemma_up_marker_wins(summary: Seq<char>)
    requires
        occurs_in("[\u{2705} "@, summary),
    ensures
        detect_up(summary) == Some(true),
{
}

/// A payload whose `msg` holds none of the four markers, or that has no
/// string `msg`, renders its heartbeat with the unknown mark.
pub proof fn lemma_no_marker_is_unknown(body: JsonView, name: Seq<char>, msg: Seq<char>)
    requires
        optional_text(body, "msg"@) matches Some(t) ==> {
            &&& !occurs_in("[\u{2705} "@, t)
            &&& !occurs_in("[\u{1f534} "@, t)
            &&& !occurs_in("Up]"@, t)
            &&& !occurs_in("Down]"@, t)
        },
    ensures
        up_state(body) is None,
        heartbeat_html(up_state(body), name, msg) == "<p>"@ + "\u{26aa}"@ + " <b>"@ + name + "</b>: "@ + msg + "</p>"@,
{
}

} // verus!
