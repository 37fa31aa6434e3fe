//! The built-in server configurations that ship with the application.

use vstd::prelude::*;
use crate::string_map::StringMap;
use crate::models::{transport_error, CreateMcpServer, CreateView, TransportView};

verus! {

/// The built-in configurations, in the order in which they are registered.
pub open spec fn native_catalog() -> Seq<CreateView> {
    seq![
        CreateView {
            name: "ripestat"@,
            description: Some("RIPEstat MCP Server for BGP and routing information"@),
            enabled: true,
            transport: TransportView::Http { url: "https://mcp-ripestat.taihen.org/mcp"@ },
        },
        CreateView {
            name: "whois"@,
            description: Some("WHOIS MCP Server for domain and IP lookups"@),
            enabled: true,
            transport: TransportView::Stdio {
                command: "uvx"@,
                args: seq![
                    "--from"@,
                    "git+https://github.com/dadepo/whois-mcp.git"@,
                    "whois-mcp"@,
                ],
                env: Seq::empty(),
            },
        },
    ]
}

/// Every built-in configuration has the field its transport needs.
pub proof fn lemma_native_catalog_complete()
    ensures
        forall|k: int|
            0 <= k < native_catalog().len() ==> transport_error(#[trigger] native_catalog()[k].transport)
                is None,
{
    reveal_strlit("https://mcp-ripestat.taihen.org/mcp");
    reveal_strlit("uvx");
    assert(transport_error(native_catalog()[0].transport) is None);
    assert(transport_error(native_catalog()[1].transport) is None);
}

/// The built-in server configurations.
pub fn get_native_mcp_servers() -> (r: Vec<CreateMcpServer>)
    ensures
        r@.map_values(|c: CreateMcpServer| c@) == native_catalog(),
{
    let args: Vec<String> = vec![
        "--from".to_string(),
        "git+https://github.com/dadepo/whois-mcp.git".to_string(),
        "whois-mcp".to_string(),
    ];
    let r: Vec<CreateMcpServer> = vec![
        CreateMcpServer::Http {
            name: "ripestat".to_string(),
            description: Some("RIPEstat MCP Server for BGP and routing information".to_string()),
            url: "https://mcp-ripestat.taihen.org/mcp".to_string(),
            enabled: true,
        },
        CreateMcpServer::Stdio {
            name: "whois".to_string(),
            description: Some("WHOIS MCP Server for domain and IP lookups".to_string()),
            command: "uvx".to_string(),
            args,
            env: StringMap::new(),
            enabled: true,
        },
    ];
    proof {
        let s = r@[1];
        if let CreateMcpServer::Stdio { args, .. } = s {
            assert(crate::json::strings_view(args@) =~= seq![
                "--from"@,
                "git+https://github.com/dadepo/whois-mcp.git"@,
                "whois-mcp"@,
            ]);
        }
        assert(r@.map_values(|c: CreateMcpServer| c@) =~= native_catalog());
    }
    r
}

} // verus!
