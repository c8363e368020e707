//! The closed set of transformer kinds, each with its configuration, and the
//! resolution of a request to the algorithm of its kind.

use vstd::prelude::*;
use crate::gitlab::gitlab_outcome;
use crate::grafana::grafana_outcome;
use crate::message::{outcome_view, MessageView};
use crate::uptime_kuma::uptime_outcome;
pub use crate::gitlab::GitlabToHookshotTransformer;
pub use crate::grafana::GrafanaToHookshotTransformer;
pub use crate::message::HookshotMessage;
pub use crate::uptime_kuma::UptimeKumaToHookshotTransformer;

verus! {

/// A configured transformer; the variant names are the tags used in configuration.
#[derive(Debug)]
pub enum TransformerConfigTypes {
    GrafanaToHookshot(GrafanaToHookshotTransformer),
    UptimeKumaToHookshot(UptimeKumaToHookshotTransformer),
    GitlabToHookshot(GitlabToHookshotTransformer),
}

/// What a transformer yields for a request with the given method and body.
pub open spec fn transformer_outcome(t: TransformerConfigTypes, method: Seq<char>, body: Seq<u8>) -> Result<MessageView, Seq<char>> {
    match t {
        TransformerConfigTypes::GrafanaToHookshot(g) => grafana_outcome(g.just_show_message == Some(true), method, body),
        TransformerConfigTypes::UptimeKumaToHookshot(u) => uptime_outcome(u.just_show_message == Some(true), method, body),
        TransformerConfigTypes::GitlabToHookshot(_) => gitlab_outcome(method, body),
    }
}

/// Where a transformer delivers its messages.
pub open spec fn transformer_uri(t: TransformerConfigTypes) -> Seq<char> {
    match t {
        TransformerConfigTypes::GrafanaToHookshot(g) => g.uri@,
        TransformerConfigTypes::UptimeKumaToHookshot(u) => u.uri@,
        TransformerConfigTypes::GitlabToHookshot(l) => l.uri@,
    }
}

/// Whether two transformers are of one kind with the same flags; they may
/// differ in where they deliver.
pub open spec fn same_kind_and_flags(a: TransformerConfigTypes, b: TransformerConfigTypes) -> bool {
    match (a, b) {
        (TransformerConfigTypes::GrafanaToHookshot(x), TransformerConfigTypes::GrafanaToHookshot(y)) =>
            (x.just_show_message == Some(true)) == (y.just_show_message == Some(true)),
        (TransformerConfigTypes::UptimeKumaToHookshot(x), TransformerConfigTypes::UptimeKumaToHookshot(y)) =>
            (x.just_show_message == Some(true)) == (y.just_show_message == Some(true)),
        (TransformerConfigTypes::GitlabToHookshot(_), TransformerConfigTypes::GitlabToHookshot(_)) => true,
        _ => false,
    }
}

impl TransformerConfigTypes {
    /// Handles a request with the transformer of this kind.
    pub fn handle(&self, method: &str, body: &[u8]) -> (r: Result<HookshotMessage, String>)
        ensures
            outcome_view(r) == transformer_outcome(*self, method@, body@),
    {
        match self {
            TransformerConfigTypes::GrafanaToHookshot(t) => t.handle(method, body),
            TransformerConfigTypes::UptimeKumaToHookshot(t) => t.handle(method, body),
            TransformerConfigTypes::GitlabToHookshot(t) => t.handle(method, body),
        }
    }

    /// Where this transformer delivers its messages.
    pub fn uri(&self) -> (r: &str)
        ensures
            r@ == transformer_uri(*self),
    {
        match self {
            TransformerConfigTypes::GrafanaToHookshot(t) => t.uri.as_str(),
            TransformerConfigTypes::UptimeKumaToHookshot(t) => t.uri.as_str(),
            TransformerConfigTypes::GitlabToHookshot(t) => t.uri.as_str(),
        }
    }
}

/// Formatting is a function of the request and the transformer's kind and
/// flags alone: two transformers of one kind with the same flags, given the
/// same method and body, yield the same message, whatever their destinations.
pub proof fn lemma_formatting_is_pure(
    a: TransformerConfigTypes,
    b: TransformerConfigTypes,
    method: Seq<char>,
    body: Seq<u8>,
)
    requires
        same_kind_and_flags(a, b),
    ensures
        transformer_outcome(a, method, body) == transformer_outcome(b, method, body),
{
}

} // verus!
