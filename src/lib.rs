//! Turns webhook payloads of monitoring and CI tools into chat notifications,
//! and decides how the outcomes of a fan-out over several transformers are
//! combined into one response.

pub mod json;
pub mod text;
pub mod message;
pub mod extract;
pub mod request;
pub mod grafana;
pub mod uptime_kuma;
pub mod gitlab;
pub mod transformer;
pub mod dispatch;
