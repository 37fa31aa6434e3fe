//! Server configurations as stored in the registry, the requests that create
//! and update them, and the other stored records.

use vstd::prelude::*;
use crate::string_map::StringMap;
use crate::json::{
    error_message, is_json_document, parse_string_list, parse_string_map, parse_value,
    parsed_string_list, parsed_string_map, strings_view,
};
use crate::text::{concat2, concat3, lower_of, lowercase};

verus! {

/// Metadata shared by every server configuration, whatever its transport.
#[derive(Debug, Clone)]
pub struct McpServerDetails {
    pub id: i64,
    pub name: String,
    pub description: Option<String>,
    pub enabled: bool,
    pub is_native: bool,
    pub created_at: String,
    pub updated_at: String,
}

/// A stored server configuration: exactly one transport kind, with the fields
/// that kind needs.
#[derive(Debug, Clone)]
pub enum McpServer {
    Http { meta: McpServerDetails, url: String },
    Stdio { meta: McpServerDetails, command: String, args: Vec<String>, env: StringMap },
}

/// The transport kind of a configuration with its kind-specific fields, as
/// plain values.
pub enum TransportView {
    Http { url: Seq<char> },
    Stdio { command: Seq<char>, args: Seq<Seq<char>>, env: Seq<(Seq<char>, Seq<char>)> },
}

/// A configuration as one row of plain values: the shape in which it is
/// stored, with the argument list and the environment as JSON text.
#[derive(Debug, Clone)]
pub struct ServerRow {
    pub id: i64,
    pub name: String,
    pub description: Option<String>,
    pub transport_type: String,
    pub url: Option<String>,
    pub command: Option<String>,
    pub args: Option<String>,
    pub env: Option<String>,
    pub enabled: i64,
    pub is_native: i64,
    pub created_at: String,
    pub updated_at: String,
}

/// The metadata that a row gives: flags are set by any non-zero value.
pub open spec fn row_meta(row: ServerRow) -> McpServerDetails {
    McpServerDetails {
        id: row.id,
        name: row.name,
        description: row.description,
        enabled: row.enabled != 0,
        is_native: row.is_native != 0,
        created_at: row.created_at,
        updated_at: row.updated_at,
    }
}

/// The message of a row whose transport kind is neither of the two.
pub open spec fn invalid_transport_message(t: Seq<char>) -> Seq<char> {
    "Invalid transport type: '"@ + t + "'. Expected 'http' or 'stdio'"@
}

/// The argument list that an optional JSON text gives: none is empty.
pub open spec fn row_args(a: Option<String>) -> Option<Seq<Seq<char>>> {
    match a {
        None => Some(Seq::empty()),
        Some(s) => parsed_string_list(s@),
    }
}

/// The environment that an optional JSON text gives: none is empty.
pub open spec fn row_env(e: Option<String>) -> Option<Seq<(Seq<char>, Seq<char>)>> {
    match e {
        None => Some(Seq::empty()),
        Some(s) => parsed_string_map(s@),
    }
}

impl McpServer {
    pub open spec fn spec_meta(&self) -> McpServerDetails {
        match self {
            McpServer::Http { meta, .. } => *meta,
            McpServer::Stdio { meta, .. } => *meta,
        }
    }

    /// The transport kind and its fields.
    pub open spec fn transport(&self) -> TransportView {
        match self {
            McpServer::Http { url, .. } => TransportView::Http { url: url@ },
            McpServer::Stdio { command, args, env, .. } => TransportView::Stdio {
                command: command@,
                args: strings_view(args@),
                env: env@,
            },
        }
    }

    /// The metadata common to both transports.
    pub fn meta(&self) -> (r: &McpServerDetails)
        ensures
            *r == self.spec_meta(),
    {
        match self {
            McpServer::Http { meta, .. } => meta,
            McpServer::Stdio { meta, .. } => meta,
        }
    }

    /// The server's unique name.
    pub fn name(&self) -> (r: &str)
        ensures
            r@ == self.spec_meta().name@,
    {
        self.meta().name.as_str()
    }

    /// Reads a configuration from the values of a stored row. The transport
    /// kind is matched without regard to case.
    pub fn from_row(
        id: i64,
        name: String,
        description: Option<String>,
        transport_type: String,
        url: Option<String>,
        command: Option<String>,
        args: Option<String>,
        env: Option<String>,
        enabled: i64,
        is_native: i64,
        created_at: String,
        updated_at: String,
    ) -> (r: Result<McpServer, String>)
        ensures
            McpServer::decodes(
                lower_of(transport_type@),
                ServerRow {
                    id,
                    name,
                    description,
                    transport_type,
                    url,
                    command,
                    args,
                    env,
                    enabled,
                    is_native,
                    created_at,
                    updated_at,
                },
                r,
            ),
    {
        let kind = lowercase(transport_type.as_str());
        let row = ServerRow {
            id,
            name,
            description,
            transport_type,
            url,
            command,
            args,
            env,
            enabled,
            is_native,
            created_at,
            updated_at,
        };
        McpServer::from_stored(kind.as_str(), row)
    }

    /// What reading `row` gives when its transport kind, in lower case, is
    /// `kind`.
    pub open spec fn decodes(kind: Seq<char>, row: ServerRow, r: Result<McpServer, String>) -> bool {
        if kind == "http"@ {
            match row.url {
                None => r is Err && r->Err_0@ == "HTTP transport requires a URL"@,
                Some(u) => if u@.len() == 0 {
                    r is Err && r->Err_0@ == "HTTP transport requires a non-empty URL"@
                } else {
                    r is Ok && r->Ok_0.spec_meta() == row_meta(row) && r->Ok_0.transport()
                        == (TransportView::Http { url: u@ })
                },
            }
        } else if kind == "stdio"@ {
            match row.command {
                None => r is Err && r->Err_0@ == "Stdio transport requires a command"@,
                Some(c) => if c@.len() == 0 {
                    r is Err && r->Err_0@ == "Stdio transport requires a non-empty command"@
                } else if row_args(row.args) is None {
                    r is Err && r->Err_0@.len() >= "Failed to parse args JSON: "@.len()
                        && r->Err_0@.take("Failed to parse args JSON: "@.len() as int)
                        == "Failed to parse args JSON: "@
                } else if row_env(row.env) is None {
                    r is Err && r->Err_0@.len() >= "Failed to parse env JSON: "@.len()
                        && r->Err_0@.take("Failed to parse env JSON: "@.len() as int)
                        == "Failed to parse env JSON: "@
                } else {
                    r is Ok && r->Ok_0.spec_meta() == row_meta(row) && r->Ok_0.transport() == (
                    TransportView::Stdio {
                        command: c@,
                        args: row_args(row.args)->Some_0,
                        env: row_env(row.env)->Some_0,
                    })
                },
            }
        } else {
            r is Err && r->Err_0@ == invalid_transport_message(row.transport_type@)
        }
    }

    /// Reads a configuration from a stored row whose transport kind, already
    /// in lower case, is `kind`.
    pub fn from_stored(kind: &str, row: ServerRow) -> (r: Result<McpServer, String>)
        ensures
            McpServer::decodes(kind@, row, r),
    {
        let ghost row0 = row;
        let meta = McpServerDetails {
            id: row.id,
            name: row.name,
            description: row.description,
            enabled: row.enabled != 0,
            is_native: row.is_native != 0,
            created_at: row.created_at,
            updated_at: row.updated_at,
        };
        proof {
            reveal_strlit("http");
            reveal_strlit("stdio");
        }
        if crate::text::same_text(kind, "http") {
            match row.url {
                None => Err("HTTP transport requires a URL".to_string()),
                Some(url) => {
                    if url.as_str().is_empty() {
                        Err("HTTP transport requires a non-empty URL".to_string())
                    } else {
                        Ok(McpServer::Http { meta, url })
                    }
                },
            }
        } else if crate::text::same_text(kind, "stdio") {
            match row.command {
                None => Err("Stdio transport requires a command".to_string()),
                Some(command) => {
                    if command.as_str().is_empty() {
                        return Err("Stdio transport requires a non-empty command".to_string());
                    }
                    let args: Vec<String> = match &row.args {
                        None => Vec::new(),
                        Some(s) => match parse_string_list(s.as_str()) {
                            Ok(v) => v,
                            Err(e) => {
                                let m = error_message(&e);
                                return Err(concat2("Failed to parse args JSON: ", m.as_str()));
                            },
                        },
                    };
                    let env: StringMap = match &row.env {
                        None => StringMap::new(),
                        Some(s) => match parse_string_map(s.as_str()) {
                            Ok(v) => StringMap::from_distinct(v),
                            Err(e) => {
                                let m = error_message(&e);
                                return Err(concat2("Failed to parse env JSON: ", m.as_str()));
                            },
                        },
                    };
                    proof {
                        if row0.args is None {
                            assert(strings_view(args@) =~= Seq::<Seq<char>>::empty());
                        }
                    }
                    Ok(McpServer::Stdio { meta, command, args, env })
                },
            }
        } else {
            Err(concat3("Invalid transport type: '", row.transport_type.as_str(), "'. Expected 'http' or 'stdio'"))
        }
    }
}

/// A request to register a new server configuration.
#[derive(Debug, Clone)]
pub enum CreateMcpServer {
    Http { name: String, description: Option<String>, url: String, enabled: bool },
    Stdio {
        name: String,
        description: Option<String>,
        command: String,
        args: Vec<String>,
        env: StringMap,
        enabled: bool,
    },
}

/// A new configuration is enabled unless the request says otherwise.
pub fn default_enabled() -> (r: bool)
    ensures
        r,
{
    true
}

impl CreateMcpServer {
    pub open spec fn spec_name(&self) -> Seq<char> {
        match self {
            CreateMcpServer::Http { name, .. } => name@,
            CreateMcpServer::Stdio { name, .. } => name@,
        }
    }

    /// The transport kind and its fields that the request asks for.
    pub open spec fn transport(&self) -> TransportView {
        match self {
            CreateMcpServer::Http { url, .. } => TransportView::Http { url: url@ },
            CreateMcpServer::Stdio { command, args, env, .. } => TransportView::Stdio {
                command: command@,
                args: strings_view(args@),
                env: env@,
            },
        }
    }

    /// Why the request cannot be accepted, or `None` where it can: the name
    /// and the field that the transport needs must not be empty.
    pub open spec fn validation_error(&self) -> Option<Seq<char>> {
        match self {
            CreateMcpServer::Http { name, url, .. } => if name@.len() == 0 {
                Some("Name is required"@)
            } else if url@.len() == 0 {
                Some("HTTP transport requires a non-empty URL"@)
            } else {
                None
            },
            CreateMcpServer::Stdio { name, command, .. } => if name@.len() == 0 {
                Some("Name is required"@)
            } else if command@.len() == 0 {
                Some("Stdio transport requires a non-empty command"@)
            } else {
                None
            },
        }
    }

    /// The name of the server to create.
    pub fn name(&self) -> (r: &str)
        ensures
            r@ == self.spec_name(),
    {
        match self {
            CreateMcpServer::Http { name, .. } => name.as_str(),
            CreateMcpServer::Stdio { name, .. } => name.as_str(),
        }
    }

    /// Checks the request before anything is stored.
    pub fn validate(&self) -> (r: Result<(), String>)
        ensures
            match self.validation_error() {
                None => r is Ok,
                Some(m) => r is Err && r->Err_0@ == m,
            },
    {
        match self {
            CreateMcpServer::Http { name, url, .. } => {
                if name.as_str().is_empty() {
                    return Err("Name is required".to_string());
                }
                if url.as_str().is_empty() {
                    return Err("HTTP transport requires a non-empty URL".to_string());
                }
                Ok(())
            },
            CreateMcpServer::Stdio { name, command, .. } => {
                if name.as_str().is_empty() {
                    return Err("Name is required".to_string());
                }
                if command.as_str().is_empty() {
                    return Err("Stdio transport requires a non-empty command".to_string());
                }
                Ok(())
            },
        }
    }
}

/// A request to change a stored configuration. Fields left `None` keep their
/// value; the transport kind cannot be changed.
#[derive(Debug, Clone, Default)]
pub struct UpdateMcpServer {
    pub name: Option<String>,
    pub description: Option<String>,
    pub url: Option<String>,
    pub command: Option<String>,
    pub args: Option<Vec<String>>,
    pub env: Option<StringMap>,
    pub enabled: Option<bool>,
}

/// A stored alert with its payload and the first analysis of it.
#[derive(Debug)]
pub struct Alert {
    pub id: i64,
    pub alert_data: serde_json::Value,
    pub initial_response: String,
    pub created_at: String,
    pub updated_at: String,
}

impl Alert {
    /// Reads an alert from the values of a stored row; the payload must be
    /// a JSON document.
    pub fn from_row(
        id: i64,
        alert_data: String,
        initial_response: String,
        created_at: String,
        updated_at: String,
    ) -> (r: Result<Alert, serde_json::Error>)
        ensures
            r is Ok <==> is_json_document(alert_data@),
            r is Ok ==> r->Ok_0.id == id && r->Ok_0.initial_response == initial_response
                && r->Ok_0.created_at == created_at && r->Ok_0.updated_at == updated_at,
    {
        match parse_value(alert_data.as_str()) {
            Ok(alert_data) => Ok(Alert { id, alert_data, initial_response, created_at, updated_at }),
            Err(e) => Err(e),
        }
    }
}

/// One message of the conversation about an alert.
#[derive(Debug, Clone)]
pub struct ChatMessage {
    pub id: i64,
    pub alert_id: i64,
    pub role: String,
    pub content: String,
    pub created_at: String,
}

impl ChatMessage {
    /// Builds a message from the values of a stored row.
    pub fn from_row(id: i64, alert_id: i64, role: String, content: String, created_at: String) -> (r:
        ChatMessage)
        ensures
            r.id == id,
            r.alert_id == alert_id,
            r.role == role,
            r.content == content,
            r.created_at == created_at,
    {
        ChatMessage { id, alert_id, role, content, created_at }
    }
}

/// An optional string as plain characters.
pub open spec fn opt_view(o: Option<String>) -> Option<Seq<char>> {
    match o {
        Some(x) => Some(x@),
        None => None,
    }
}

/// `o`'s value where it has one, else `d`.
pub open spec fn or_else<T>(o: Option<T>, d: T) -> T {
    match o {
        Some(x) => x,
        None => d,
    }
}

/// A stored configuration as plain values.
pub struct ServerView {
    pub id: i64,
    pub name: Seq<char>,
    pub description: Option<Seq<char>>,
    pub enabled: bool,
    pub is_native: bool,
    pub created_at: Seq<char>,
    pub updated_at: Seq<char>,
    pub transport: TransportView,
}

/// A creation request as plain values.
pub struct CreateView {
    pub name: Seq<char>,
    pub description: Option<Seq<char>>,
    pub enabled: bool,
    pub transport: TransportView,
}

/// An update request as plain values.
pub struct UpdateView {
    pub name: Option<Seq<char>>,
    pub description: Option<Seq<char>>,
    pub url: Option<Seq<char>>,
    pub command: Option<Seq<char>>,
    pub args: Option<Seq<Seq<char>>>,
    pub env: Option<Seq<(Seq<char>, Seq<char>)>>,
    pub enabled: Option<bool>,
}

impl View for McpServer {
    type V = ServerView;

    open spec fn view(&self) -> ServerView {
        let m = self.spec_meta();
        ServerView {
            id: m.id,
            name: m.name@,
            description: opt_view(m.description),
            enabled: m.enabled,
            is_native: m.is_native,
            created_at: m.created_at@,
            updated_at: m.updated_at@,
            transport: self.transport(),
        }
    }
}

impl View for CreateMcpServer {
    type V = CreateView;

    open spec fn view(&self) -> CreateView {
        match self {
            CreateMcpServer::Http { description, enabled, .. } => CreateView {
                name: self.spec_name(),
                description: opt_view(*description),
                enabled: *enabled,
                transport: self.transport(),
            },
            CreateMcpServer::Stdio { description, enabled, .. } => CreateView {
                name: self.spec_name(),
                description: opt_view(*description),
                enabled: *enabled,
                transport: self.transport(),
            },
        }
    }
}

impl View for UpdateMcpServer {
    type V = UpdateView;

    open spec fn view(&self) -> UpdateView {
        UpdateView {
            name: opt_view(self.name),
            description: opt_view(self.description),
            url: opt_view(self.url),
            command: opt_view(self.command),
            args: match self.args {
                Some(a) => Some(strings_view(a@)),
                None => None,
            },
            env: match self.env {
                Some(e) => Some(e@),
                None => None,
            },
            enabled: self.enabled,
        }
    }
}

/// The configuration that registering `c` under `id` at time `now` stores.
pub open spec fn registered(c: CreateView, id: i64, is_native: bool, now: Seq<char>) -> ServerView {
    ServerView {
        id,
        name: c.name,
        description: c.description,
        enabled: c.enabled,
        is_native,
        created_at: now,
        updated_at: now,
        transport: c.transport,
    }
}

/// The configuration `v` after update `u` at time `now`: each field the
/// update gives replaces the stored one; fields of the other transport kind
/// are ignored, and the kind itself never changes.
pub open spec fn merged(v: ServerView, u: UpdateView, now: Seq<char>) -> ServerView {
    ServerView {
        id: v.id,
        name: or_else(u.name, v.name),
        description: match u.description {
            Some(d) => Some(d),
            None => v.description,
        },
        enabled: or_else(u.enabled, v.enabled),
        is_native: v.is_native,
        created_at: v.created_at,
        updated_at: now,
        transport: match v.transport {
            TransportView::Http { url } => TransportView::Http { url: or_else(u.url, url) },
            TransportView::Stdio { command, args, env } => TransportView::Stdio {
                command: or_else(u.command, command),
                args: or_else(u.args, args),
                env: or_else(u.env, env),
            },
        },
    }
}

/// Why a transport cannot be stored: its required field is empty.
pub open spec fn transport_error(t: TransportView) -> Option<Seq<char>> {
    match t {
        TransportView::Http { url } => if url.len() == 0 {
            Some("HTTP transport requires a non-empty URL"@)
        } else {
            None
        },
        TransportView::Stdio { command, .. } => if command.len() == 0 {
            Some("Stdio transport requires a non-empty command"@)
        } else {
            None
        },
    }
}

/// Whether two transports are of the same kind.
pub open spec fn same_kind(a: TransportView, b: TransportView) -> bool {
    match (a, b) {
        (TransportView::Http { .. }, TransportView::Http { .. }) => true,
        (TransportView::Stdio { .. }, TransportView::Stdio { .. }) => true,
        _ => false,
    }
}

/// A copy of an optional string.
pub fn copy_opt(o: &Option<String>) -> (r: Option<String>)
    ensures
        r == *o,
{
    match o {
        Some(x) => Some(x.clone()),
        None => None,
    }
}

/// A copy of a list of strings.
pub fn copy_strings(v: &Vec<String>) -> (r: Vec<String>)
    ensures
        r@ == v@,
{
    let mut out: Vec<String> = Vec::new();
    let n = v.len();
    let mut i: usize = 0;
    while i < n
        invariant
            0 <= i <= n,
            n == v@.len(),
            out@ =~= v@.take(i as int),
        decreases n - i,
    {
        out.push(v[i].clone());
        i += 1;
    }
    assert(v@.take(n as int) =~= v@);
    out
}

impl McpServerDetails {
    /// A copy with the same fields.
    pub fn duplicate(&self) -> (r: McpServerDetails)
        ensures
            r == *self,
    {
        McpServerDetails {
            id: self.id,
            name: self.name.clone(),
            description: copy_opt(&self.description),
            enabled: self.enabled,
            is_native: self.is_native,
            created_at: self.created_at.clone(),
            updated_at: self.updated_at.clone(),
        }
    }
}

impl McpServer {
    /// A copy with the same plain values.
    pub fn duplicate(&self) -> (r: McpServer)
        ensures
            r@ == self@,
    {
        match self {
            McpServer::Http { meta, url } => McpServer::Http { meta: meta.duplicate(), url: url.clone() },
            McpServer::Stdio { meta, command, args, env } => McpServer::Stdio {
                meta: meta.duplicate(),
                command: command.clone(),
                args: copy_strings(args),
                env: env.duplicate(),
            },
        }
    }

    /// The configuration after update `update` at time `now`, or the reason
    /// it cannot be stored.
    pub fn apply_update(&self, update: &UpdateMcpServer, now: &str) -> (r: Result<McpServer, String>)
        ensures
            match transport_error(merged(self@, update@, now@).transport) {
                Some(m) => r is Err && r->Err_0@ == m,
                None => r is Ok && r->Ok_0@ == merged(self@, update@, now@),
            },
    {
        let meta = self.meta();
        let new_meta = McpServerDetails {
            id: meta.id,
            name: match &update.name {
                Some(n) => n.clone(),
                None => meta.name.clone(),
            },
            description: match &update.description {
                Some(d) => Some(d.clone()),
                None => copy_opt(&meta.description),
            },
            enabled: match update.enabled {
                Some(e) => e,
                None => meta.enabled,
            },
            is_native: meta.is_native,
            created_at: meta.created_at.clone(),
            updated_at: now.to_owned(),
        };
        match self {
            McpServer::Http { url, .. } => {
                let url = match &update.url {
                    Some(u) => u.clone(),
                    None => url.clone(),
                };
                if url.as_str().is_empty() {
                    return Err("HTTP transport requires a non-empty URL".to_string());
                }
                Ok(McpServer::Http { meta: new_meta, url })
            },
            McpServer::Stdio { command, args, env, .. } => {
                let command = match &update.command {
                    Some(c) => c.clone(),
                    None => command.clone(),
                };
                if command.as_str().is_empty() {
                    return Err("Stdio transport requires a non-empty command".to_string());
                }
                let args = match &update.args {
                    Some(a) => copy_strings(a),
                    None => copy_strings(args),
                };
                let env = match &update.env {
                    Some(e) => e.duplicate(),
                    None => env.duplicate(),
                };
                Ok(McpServer::Stdio { meta: new_meta, command, args, env })
            },
        }
    }
}

impl CreateMcpServer {
    /// The configuration that registering this request under `id` at time
    /// `now` stores.
    pub fn to_server(&self, id: i64, is_native: bool, now: &str) -> (r: McpServer)
        ensures
            r@ == registered(self@, id, is_native, now@),
    {
        match self {
            CreateMcpServer::Http { name, description, url, enabled } => McpServer::Http {
                meta: McpServerDetails {
                    id,
                    name: name.clone(),
                    description: copy_opt(description),
                    enabled: *enabled,
                    is_native,
                    created_at: now.to_owned(),
                    updated_at: now.to_owned(),
                },
                url: url.clone(),
            },
            CreateMcpServer::Stdio { name, description, command, args, env, enabled } => McpServer::Stdio {
                meta: McpServerDetails {
                    id,
                    name: name.clone(),
                    description: copy_opt(description),
                    enabled: *enabled,
                    is_native,
                    created_at: now.to_owned(),
                    updated_at: now.to_owned(),
                },
                command: command.clone(),
                args: copy_strings(args),
                env: env.duplicate(),
            },
        }
    }
}

/// The optional JSON column of an argument list: none when it is empty.
pub open spec fn args_column(a: Seq<Seq<char>>) -> Option<Seq<char>> {
    if a.len() == 0 {
        None
    } else {
        Some(crate::json::string_list_json(a))
    }
}

/// The optional JSON column of an environment: none when it is empty.
pub open spec fn env_column(e: Seq<(Seq<char>, Seq<char>)>) -> Option<Seq<char>> {
    if e.len() == 0 {
        None
    } else {
        Some(crate::json::string_map_json(e))
    }
}

/// Whether `row` stores configuration `v`.
pub open spec fn stores(row: ServerRow, v: ServerView) -> bool {
    &&& row.id == v.id
    &&& row.name@ == v.name
    &&& opt_view(row.description) == v.description
    &&& row.enabled == (if v.enabled { 1i64 } else { 0i64 })
    &&& row.is_native == (if v.is_native { 1i64 } else { 0i64 })
    &&& row.created_at@ == v.created_at
    &&& row.updated_at@ == v.updated_at
    &&& match v.transport {
        TransportView::Http { url } => {
            &&& row.transport_type@ == "http"@
            &&& opt_view(row.url) == Some(url)
            &&& row.command is None && row.args is None && row.env is None
        },
        TransportView::Stdio { command, args, env } => {
            &&& row.transport_type@ == "stdio"@
            &&& row.url is None
            &&& opt_view(row.command) == Some(command)
            &&& opt_view(row.args) == args_column(args)
            &&& opt_view(row.env) == env_column(env)
        },
    }
}

impl McpServer {
    /// The row that stores this configuration.
    pub fn to_row(&self) -> (r: ServerRow)
        ensures
            stores(r, self@),
    {
        let m = self.meta();
        let enabled: i64 = if m.enabled { 1 } else { 0 };
        let is_native: i64 = if m.is_native { 1 } else { 0 };
        match self {
            McpServer::Http { url, .. } => ServerRow {
                id: m.id,
                name: m.name.clone(),
                description: copy_opt(&m.description),
                transport_type: "http".to_string(),
                url: Some(url.clone()),
                command: None,
                args: None,
                env: None,
                enabled,
                is_native,
                created_at: m.created_at.clone(),
                updated_at: m.updated_at.clone(),
            },
            McpServer::Stdio { command, args, env, .. } => {
                let args_json = if args.len() == 0 {
                    None
                } else {
                    match crate::json::string_list_to_json(args) {
                        Ok(j) => Some(j),
                        Err(_) => unreached(),
                    }
                };
                let env_json = if env.is_empty() {
                    None
                } else {
                    match crate::json::string_map_to_json(env.entries()) {
                        Ok(j) => Some(j),
                        Err(_) => unreached(),
                    }
                };
                ServerRow {
                    id: m.id,
                    name: m.name.clone(),
                    description: copy_opt(&m.description),
                    transport_type: "stdio".to_string(),
                    url: None,
                    command: Some(command.clone()),
                    args: args_json,
                    env: env_json,
                    enabled,
                    is_native,
                    created_at: m.created_at.clone(),
                    updated_at: m.updated_at.clone(),
                }
            },
        }
    }
}

} // verus!
