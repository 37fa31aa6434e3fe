use agent_noc::text::{contains_text, is_unique_violation};
use agent_noc::health::{
    decimal_text, health_report, resolve_probe, service_status, AttemptReport, ProbeOutcome,
    ServerProbe, TestConnectionResponse,
};
use agent_noc::models::{McpServer, McpServerDetails};
use agent_noc::pool::{aggregate_attempts, build_catalog, MCPConnection, ToolRoute};
use agent_noc::string_map::StringMap;
use agent_noc::transport::{client_identity, transport_for, ConnectionError, TransportSpec};

fn meta(name: &str) -> McpServerDetails {
    McpServerDetails {
        id: 1,
        name: name.to_string(),
        description: None,
        enabled: true,
        is_native: false,
        created_at: "t".to_string(),
        updated_at: "t".to_string(),
    }
}

#[test]
fn transport_for_http_and_stdio() {
    let h = McpServer::Http { meta: meta("h"), url: "https://h.example/mcp".to_string() };
    match transport_for(&h).unwrap() {
        TransportSpec::Http { url } => assert_eq!(url, "https://h.example/mcp"),
        _ => panic!("Expected HTTP transport"),
    }
    let s = McpServer::Stdio {
        meta: meta("s"),
        command: "uvx".to_string(),
        args: vec!["a".to_string()],
        env: StringMap::from_pairs(vec![("K".to_string(), "V".to_string())]),
    };
    match transport_for(&s).unwrap() {
        TransportSpec::Stdio { command, args, env } => {
            assert_eq!(command, "uvx");
            assert_eq!(args, vec!["a".to_string()]);
            assert_eq!(env.get("K"), Some(&"V".to_string()));
        }
        _ => panic!("Expected stdio transport"),
    }
}

#[test]
fn empty_url_or_command_is_a_config_error() {
    let h = McpServer::Http { meta: meta("h"), url: String::new() };
    assert!(matches!(transport_for(&h), Err(ConnectionError::Config(_))));
    let s = McpServer::Stdio { meta: meta("s"), command: String::new(), args: vec![], env: StringMap::new() };
    match transport_for(&s) {
        Err(ConnectionError::Config(m)) => assert_eq!(m, "Stdio transport requires a non-empty command"),
        _ => panic!("Expected a configuration error"),
    }
}

#[test]
fn client_identity_names_the_server() {
    let id = client_identity("whois");
    assert_eq!(id.name, "agent_noc_whois");
    assert_eq!(id.version, "0.1.0");
    assert_eq!(id.protocol_version, "2024-11-05");
}

#[test]
fn aggregate_of_no_servers_is_empty() {
    let r = aggregate_attempts::<u32>(vec![]);
    assert!(r.connections.is_empty());
    assert!(r.failures.is_empty());
}

#[test]
fn aggregate_keeps_successes_in_order_and_counts_failures() {
    let attempts: Vec<(String, Result<u32, ConnectionError>)> = vec![
        ("a".to_string(), Ok(1)),
        ("b".to_string(), Err(ConnectionError::Connect("refused".to_string()))),
        ("c".to_string(), Ok(3)),
        ("d".to_string(), Err(ConnectionError::Protocol("bad handshake".to_string()))),
        ("e".to_string(), Ok(5)),
    ];
    let r = aggregate_attempts(attempts);
    assert_eq!(r.connections, vec![1, 3, 5]);
    assert_eq!(r.failures.len(), 2);
    assert_eq!(r.failures[0].server, "b");
    assert_eq!(r.failures[1].server, "d");
    assert_eq!(r.failures[1].error.message(), "bad handshake");
}

#[test]
fn aggregate_where_every_attempt_fails() {
    let attempts: Vec<(String, Result<u32, ConnectionError>)> = vec![
        ("a".to_string(), Err(ConnectionError::Connect("x".to_string()))),
        ("b".to_string(), Err(ConnectionError::Connect("y".to_string()))),
    ];
    let r = aggregate_attempts(attempts);
    assert!(r.connections.is_empty());
    assert_eq!(r.failures.len(), 2);
}

#[test]
fn same_tool_name_on_two_connections_gives_two_routes() {
    let names = vec![vec!["lookup".to_string()], vec!["lookup".to_string(), "whois".to_string()]];
    let catalog = build_catalog(&names);
    assert_eq!(catalog.len(), 3);
    assert_eq!(catalog[0], (ToolRoute { connection: 0, tool: 0 }, "lookup".to_string()));
    assert_eq!(catalog[1], (ToolRoute { connection: 1, tool: 0 }, "lookup".to_string()));
    assert_eq!(catalog[2], (ToolRoute { connection: 1, tool: 1 }, "whois".to_string()));
    assert_ne!(catalog[0].0, catalog[1].0);
}

#[test]
fn connection_counts_its_tools() {
    let c = MCPConnection::new("s".to_string(), vec!["a", "b"], 7u8, ());
    assert_eq!(c.tool_count(), 2);
    assert_eq!(c.name, "s");
}

#[test]
fn probe_past_deadline_is_timeout() {
    let slow = AttemptReport::Finished { elapsed_ms: 6000, result: Ok(4) };
    assert!(matches!(resolve_probe(5000, slow), ProbeOutcome::Timeout));
    let slow_err = AttemptReport::Finished {
        elapsed_ms: 6000,
        result: Err(ConnectionError::Connect("refused".to_string())),
    };
    assert!(matches!(resolve_probe(5000, slow_err), ProbeOutcome::Timeout));
    assert!(matches!(resolve_probe(5000, AttemptReport::Abandoned), ProbeOutcome::Timeout));
}

#[test]
fn probe_within_deadline_keeps_its_result() {
    let ok = AttemptReport::Finished { elapsed_ms: 5000, result: Ok(4) };
    assert!(matches!(resolve_probe(5000, ok), ProbeOutcome::Success(4)));
    let err = AttemptReport::Finished {
        elapsed_ms: 10,
        result: Err(ConnectionError::Protocol("bad".to_string())),
    };
    assert!(matches!(resolve_probe(5000, err), ProbeOutcome::Failure(ConnectionError::Protocol(_))));
}

#[test]
fn decimal_text_of_numbers() {
    assert_eq!(decimal_text(0), "0");
    assert_eq!(decimal_text(7), "7");
    assert_eq!(decimal_text(10), "10");
    assert_eq!(decimal_text(1234567), "1234567");
}

#[test]
fn service_lines() {
    assert_eq!(service_status(&ProbeOutcome::Success(12)), "healthy (12 tools)");
    assert_eq!(
        service_status(&ProbeOutcome::Failure(ConnectionError::Connect("refused".to_string()))),
        "error: refused"
    );
    assert_eq!(service_status(&ProbeOutcome::Timeout), "timeout");
}

#[test]
fn health_report_degrades_on_any_unhealthy_server() {
    let probes = vec![
        ServerProbe { server: "ripestat".to_string(), outcome: ProbeOutcome::Success(3) },
        ServerProbe { server: "whois".to_string(), outcome: ProbeOutcome::Timeout },
    ];
    let report = health_report(Ok(probes));
    assert_eq!(report.status, "degraded");
    assert_eq!(report.services.get("mcp_ripestat"), Some(&"healthy (3 tools)".to_string()));
    assert_eq!(report.services.get("mcp_whois"), Some(&"timeout".to_string()));
    assert_eq!(report.services.get("llm_client"), Some(&"healthy".to_string()));
    assert_eq!(report.services.len(), 3);
}

#[test]
fn health_report_healthy_and_empty() {
    let probes = vec![ServerProbe { server: "a".to_string(), outcome: ProbeOutcome::Success(0) }];
    assert_eq!(health_report(Ok(probes)).status, "healthy");
    let empty = health_report(Ok(vec![]));
    assert_eq!(empty.status, "healthy");
    assert_eq!(empty.services.get("mcp_servers"), Some(&"no servers configured".to_string()));
}

#[test]
fn health_report_unhealthy_when_registry_unreadable() {
    let report = health_report(Err("disk gone".to_string()));
    assert_eq!(report.status, "unhealthy");
    assert_eq!(report.services.get("mcp_servers"), Some(&"database error: disk gone".to_string()));
}

#[test]
fn test_connection_responses() {
    let ok = TestConnectionResponse::from_result(&Ok(5));
    assert!(ok.success);
    assert_eq!(ok.tool_count, Some(5));
    assert_eq!(ok.error, None);
    let err = TestConnectionResponse::from_result(&Err(ConnectionError::Connect("refused".to_string())));
    assert!(!err.success);
    assert_eq!(err.error.as_deref(), Some("refused"));
    assert_eq!(TestConnectionResponse::not_found().error.as_deref(), Some("Server not found"));
    assert_eq!(TestConnectionResponse::database_error().error.as_deref(), Some("Database error"));
}

#[test]
fn unique_violation_messages() {
    assert!(is_unique_violation("error returned from database: (code: 2067) UNIQUE constraint failed: mcp_servers.name"));
    assert!(!is_unique_violation("database is locked"));
    assert!(contains_text("abc", ""));
    assert!(contains_text("abc", "bc"));
    assert!(!contains_text("ab", "abc"));
}

#[test]
fn slow_server_shows_timeout_in_the_sweep() {
    let slow = resolve_probe(
        5000,
        AttemptReport::Finished { elapsed_ms: 7000, result: Ok(9) },
    );
    let probes = vec![
        ServerProbe { server: "fast".to_string(), outcome: ProbeOutcome::Success(2) },
        ServerProbe { server: "slow".to_string(), outcome: slow },
    ];
    let report = health_report(Ok(probes));
    assert_eq!(report.status, "degraded");
    assert_eq!(report.services.get("mcp_slow"), Some(&"timeout".to_string()));
    assert_eq!(report.services.get("mcp_fast"), Some(&"healthy (2 tools)".to_string()));
}
