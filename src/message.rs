//! The normalized notification that every transformer produces.

use vstd::prelude::*;

verus! {

/// A chat notification for the messaging bridge.
#[derive(Debug)]
pub struct HookshotMessage {
    /// The text, which the bridge reads as Markdown.
    pub text: String,
    /// A rendered rich form; where absent, the bridge derives one from `text`.
    pub html: Option<String>,
    /// A name that the bridge puts before the message.
    pub username: Option<String>,
}

/// The contents of a [`HookshotMessage`].
pub struct MessageView {
    pub text: Seq<char>,
    pub html: Option<Seq<char>>,
    pub username: Option<Seq<char>>,
}

pub open spec fn opt_text(s: Option<String>) -> Option<Seq<char>> {
    match s {
        Some(t) => Some(t@),
        None => None,
    }
}

impl View for HookshotMessage {
    type V = MessageView;

    open spec fn view(&self) -> MessageView {
        MessageView { text: self.text@, html: opt_text(self.html), username: opt_text(self.username) }
    }
}

/// What a transformer yields: a message, or a description of why it failed.
pub open spec fn outcome_view(r: Result<HookshotMessage, String>) -> Result<MessageView, Seq<char>> {
    match r {
        Ok(m) => Ok(m@),
        Err(e) => Err(e@),
    }
}

/// A message of plain text, with no rendered form and no user name.
pub open spec fn plain(text: Seq<char>) -> MessageView {
    MessageView { text, html: None, username: None }
}

/// A message with a rendered form and no user name.
pub open spec fn rich(text: Seq<char>, html: Seq<char>) -> MessageView {
    MessageView { text, html: Some(html), username: None }
}

impl HookshotMessage {
    /// A message of plain text.
    pub fn plain(text: String) -> (r: HookshotMessage)
        ensures
            r@ == plain(text@),
    {
        HookshotMessage { text, html: None, username: None }
    }

    /// A message with a rendered form.
    pub fn rich(text: String, html: String) -> (r: HookshotMessage)
        ensures
            r@ == rich(text@, html@),
    {
        HookshotMessage { text, html: Some(html), username: None }
    }
}

} // verus!
