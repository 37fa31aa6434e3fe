//! The records exchanged with the HTTP API, the event stream and the
//! alerting source.

use vstd::prelude::*;

verus! {

/// A routing alert as the alerting source sends it.
#[derive(Debug, Clone)]
pub struct BGPAlerterAlert {
    pub message: String,
    pub description: String,
    pub details: Details,
}

/// The details of a routing alert.
#[derive(Debug, Clone)]
pub struct Details {
    pub prefix: String,
    pub newprefix: Option<String>,
    pub neworigin: Option<String>,
    pub summary: String,
    pub earliest: String,
    pub latest: String,
    pub kind: String,
    pub asn: String,
    pub paths: String,
    pub peers: String,
}

/// An event pushed to the clients of the event stream.
#[derive(Debug, Clone)]
pub enum SseEvent {
    NewAlert { alert_id: i64 },
    ChatMessage { alert_id: i64, message_id: i64 },
    AlertDeleted { alert_id: i64 },
    HealthCheck { status: String },
    Error { message: String },
}

/// A follow-up question about an alert.
#[derive(Debug, Clone)]
pub struct ChatRequest {
    pub message: String,
}

/// The id of an alert in a request path.
#[derive(Debug, Clone, Copy)]
pub struct AlertId {
    pub id: i64,
}

/// Which configurations a listing asks for: `"native"`, `"custom"`, or all.
#[derive(Debug, Clone)]
pub struct ListMcpServersQuery {
    pub kind: Option<String>,
}

/// The id of a server configuration in a request path.
#[derive(Debug, Clone, Copy)]
pub struct McpServerId {
    pub id: i64,
}

/// A request to seed or remove the built-in configurations.
#[derive(Debug, Clone, Copy)]
pub struct EnableNativeRequest {
    pub enabled: bool,
}

/// The description of the HTTP API.
#[derive(Debug, Clone, Copy)]
pub struct ApiDoc;

} // verus!
