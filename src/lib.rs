//! HTTP gateway logic for a conversational agent service: the session-activity
//! cache, the API-key gate and routing table, request/response decisions of the
//! handlers, extension configuration, and bootstrap settings.
pub mod activity;
pub mod address;
pub mod bootstrap;
pub mod extension;
pub mod handlers;
pub mod routes;
pub mod text;
