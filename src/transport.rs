//! Choosing the transport for a configuration, and the identity the client
//! presents in the protocol handshake.

use vstd::prelude::*;
use crate::models::{transport_error, CreateMcpServer, McpServer, TransportView};
use crate::string_map::StringMap;
use crate::json::strings_view;
use crate::text::concat2;

verus! {

/// Why a connection attempt failed.
#[derive(Debug, Clone)]
pub enum ConnectionError {
    /// The configuration cannot describe a transport.
    Config(String),
    /// The transport could not be established: refused, unresolvable, or
    /// the process could not be spawned.
    Connect(String),
    /// The transport works but the handshake or the tool listing failed.
    Protocol(String),
}

impl ConnectionError {
    pub open spec fn spec_message(&self) -> Seq<char> {
        match self {
            ConnectionError::Config(m) => m@,
            ConnectionError::Connect(m) => m@,
            ConnectionError::Protocol(m) => m@,
        }
    }

    /// The detail the error carries.
    pub fn message(&self) -> (r: &String)
        ensures
            r@ == self.spec_message(),
    {
        match self {
            ConnectionError::Config(m) => m,
            ConnectionError::Connect(m) => m,
            ConnectionError::Protocol(m) => m,
        }
    }
}

/// What the caller needs to open the transport of one server.
#[derive(Debug)]
pub enum TransportSpec {
    /// A streaming HTTP session with the server at `url`.
    Http { url: String },
    /// A child process running `command` with `args` and `env`, speaking the
    /// protocol over its standard input and output.
    Stdio { command: String, args: Vec<String>, env: StringMap },
}

impl TransportSpec {
    pub open spec fn view(&self) -> TransportView {
        match self {
            TransportSpec::Http { url } => TransportView::Http { url: url@ },
            TransportSpec::Stdio { command, args, env } => TransportView::Stdio {
                command: command@,
                args: strings_view(args@),
                env: env@,
            },
        }
    }
}

/// The transport for a stored configuration. A configuration whose required
/// field is empty cannot describe one: that is a configuration error.
pub fn transport_for(server: &McpServer) -> (r: Result<TransportSpec, ConnectionError>)
    ensures
        match transport_error(server.transport()) {
            Some(m) => r is Err && r->Err_0 is Config && r->Err_0.spec_message() == m,
            None => r is Ok && r->Ok_0.view() == server.transport(),
        },
{
    match server {
        McpServer::Http { url, .. } => {
            if url.as_str().is_empty() {
                return Err(ConnectionError::Config("HTTP transport requires a non-empty URL".to_string()));
            }
            Ok(TransportSpec::Http { url: url.clone() })
        },
        McpServer::Stdio { command, args, env, .. } => {
            if command.as_str().is_empty() {
                return Err(
                    ConnectionError::Config("Stdio transport requires a non-empty command".to_string()),
                );
            }
            Ok(TransportSpec::Stdio {
                command: command.clone(),
                args: crate::models::copy_strings(args),
                env: env.duplicate(),
            })
        },
    }
}

/// A configuration whose transport lacks its required field is refused
/// before any connection: at creation, and again when its transport is
/// chosen.
pub proof fn law_empty_required_field_is_config_error(c: CreateMcpServer, t: TransportView)
    ensures
        (match c {
            CreateMcpServer::Http { url, .. } => url@.len() == 0,
            CreateMcpServer::Stdio { command, .. } => command@.len() == 0,
        }) ==> c.validation_error() is Some && (c.spec_name().len() > 0 ==> c.validation_error()
            == transport_error(c.transport())),
        (match t {
            TransportView::Http { url } => url.len() == 0,
            TransportView::Stdio { command, .. } => command.len() == 0,
        }) ==> transport_error(t) is Some,
{
}

/// The identity a client presents in the handshake.
#[derive(Debug, Clone)]
pub struct ClientIdentity {
    pub name: String,
    pub version: String,
    pub protocol_version: String,
}

/// The client's identity towards server `server_name`.
pub fn client_identity(server_name: &str) -> (r: ClientIdentity)
    ensures
        r.name@ == "agent_noc_"@ + server_name@,
        r.version@ == "0.1.0"@,
        r.protocol_version@ == "2024-11-05"@,
{
    ClientIdentity {
        name: concat2("agent_noc_", server_name),
        version: "0.1.0".to_string(),
        protocol_version: "2024-11-05".to_string(),
    }
}

} // verus!
