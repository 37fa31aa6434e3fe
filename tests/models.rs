use agent_noc::models::{Alert, ChatMessage, CreateMcpServer, McpServer, McpServerDetails, UpdateMcpServer};
use agent_noc::string_map::StringMap;
use agent_noc::clock::get_current_timestamp;

#[test]
fn test_mcp_server_from_row_http() {
    let server = McpServer::from_row(
        1,
        "ripestat".to_string(),
        Some("RIPEstat MCP Server".to_string()),
        "http".to_string(),
        Some("https://example.com/mcp".to_string()),
        None,
        None,
        None,
        1,
        0,
        "2025-01-01T00:00:00Z".to_string(),
        "2025-01-01T00:00:00Z".to_string(),
    )
    .unwrap();

    assert_eq!(server.meta().id, 1);
    assert_eq!(server.name(), "ripestat");
    assert!(server.meta().enabled);

    match server {
        McpServer::Http { url, .. } => {
            assert_eq!(url, "https://example.com/mcp");
        }
        _ => panic!("Expected HTTP variant"),
    }
}

#[test]
fn test_mcp_server_from_row_stdio() {
    let args_json = r#"["--from", "git+https://example.com/mcp.git", "mcp"]"#;
    let env_json = r#"{"KEY": "value"}"#;

    let server = McpServer::from_row(
        2,
        "whois".to_string(),
        Some("WHOIS MCP Server".to_string()),
        "stdio".to_string(),
        None,
        Some("uvx".to_string()),
        Some(args_json.to_string()),
        Some(env_json.to_string()),
        1,
        0,
        "2025-01-01T00:00:00Z".to_string(),
        "2025-01-01T00:00:00Z".to_string(),
    )
    .unwrap();

    assert_eq!(server.meta().id, 2);
    assert_eq!(server.name(), "whois");

    match server {
        McpServer::Stdio { command, args, env, .. } => {
            assert_eq!(command, "uvx");
            assert_eq!(args, vec!["--from", "git+https://example.com/mcp.git", "mcp"]);
            assert_eq!(env.get("KEY"), Some(&"value".to_string()));
        }
        _ => panic!("Expected Stdio variant"),
    }
}

#[test]
fn test_mcp_server_from_row_invalid_transport() {
    let result = McpServer::from_row(
        1,
        "test".to_string(),
        None,
        "invalid".to_string(),
        None,
        None,
        None,
        None,
        1,
        0,
        "2025-01-01T00:00:00Z".to_string(),
        "2025-01-01T00:00:00Z".to_string(),
    );
    assert!(result.is_err());
    assert!(result.unwrap_err().contains("Invalid transport type"));
}

#[test]
fn test_mcp_server_from_row_http_missing_url() {
    let result = McpServer::from_row(
        1,
        "test".to_string(),
        None,
        "http".to_string(),
        None,
        None,
        None,
        None,
        1,
        0,
        "2025-01-01T00:00:00Z".to_string(),
        "2025-01-01T00:00:00Z".to_string(),
    );
    assert!(result.is_err());
    assert!(result.unwrap_err().contains("URL"));
}

#[test]
fn test_mcp_server_from_row_stdio_missing_command() {
    let result = McpServer::from_row(
        1,
        "test".to_string(),
        None,
        "stdio".to_string(),
        None,
        None,
        None,
        None,
        1,
        0,
        "2025-01-01T00:00:00Z".to_string(),
        "2025-01-01T00:00:00Z".to_string(),
    );
    assert!(result.is_err());
    assert!(result.unwrap_err().contains("command"));
}

#[test]
fn from_row_matches_transport_kind_in_any_case() {
    let server = McpServer::from_row(
        3,
        "mixed".to_string(),
        None,
        "HTTP".to_string(),
        Some("https://example.com".to_string()),
        None,
        None,
        None,
        0,
        1,
        "t".to_string(),
        "u".to_string(),
    )
    .unwrap();
    assert!(matches!(server, McpServer::Http { .. }));
    assert!(!server.meta().enabled);
    assert!(server.meta().is_native);
}

#[test]
fn from_row_reports_exact_messages() {
    let empty_url = McpServer::from_row(
        1, "a".to_string(), None, "http".to_string(), Some(String::new()), None, None, None, 1, 0,
        "t".to_string(), "t".to_string(),
    );
    assert_eq!(empty_url.unwrap_err(), "HTTP transport requires a non-empty URL");
    let empty_command = McpServer::from_row(
        1, "a".to_string(), None, "stdio".to_string(), None, Some(String::new()), None, None, 1, 0,
        "t".to_string(), "t".to_string(),
    );
    assert_eq!(empty_command.unwrap_err(), "Stdio transport requires a non-empty command");
    let bad = McpServer::from_row(
        1, "a".to_string(), None, "ftp".to_string(), None, None, None, None, 1, 0,
        "t".to_string(), "t".to_string(),
    );
    assert_eq!(bad.unwrap_err(), "Invalid transport type: 'ftp'. Expected 'http' or 'stdio'");
}

#[test]
fn from_row_rejects_malformed_args_and_env() {
    let bad_args = McpServer::from_row(
        1, "a".to_string(), None, "stdio".to_string(), None, Some("uvx".to_string()),
        Some("not json".to_string()), None, 1, 0, "t".to_string(), "t".to_string(),
    );
    assert!(bad_args.unwrap_err().starts_with("Failed to parse args JSON: "));
    let bad_env = McpServer::from_row(
        1, "a".to_string(), None, "stdio".to_string(), None, Some("uvx".to_string()), None,
        Some("[1, 2]".to_string()), 1, 0, "t".to_string(), "t".to_string(),
    );
    assert!(bad_env.unwrap_err().starts_with("Failed to parse env JSON: "));
}

#[test]
fn from_row_without_args_or_env_gives_empty_ones() {
    let server = McpServer::from_row(
        1, "a".to_string(), None, "stdio".to_string(), None, Some("uvx".to_string()), None, None,
        1, 0, "t".to_string(), "t".to_string(),
    )
    .unwrap();
    match server {
        McpServer::Stdio { args, env, .. } => {
            assert!(args.is_empty());
            assert!(env.is_empty());
        }
        _ => panic!("Expected Stdio variant"),
    }
}

#[test]
fn test_create_mcp_server_validate_http() {
    let valid = CreateMcpServer::Http {
        name: "test".to_string(),
        description: None,
        url: "https://example.com".to_string(),
        enabled: true,
    };
    assert!(valid.validate().is_ok());

    let invalid_empty_name = CreateMcpServer::Http {
        name: "".to_string(),
        description: None,
        url: "https://example.com".to_string(),
        enabled: true,
    };
    assert!(invalid_empty_name.validate().is_err());

    let invalid_empty_url = CreateMcpServer::Http {
        name: "test".to_string(),
        description: None,
        url: "".to_string(),
        enabled: true,
    };
    assert!(invalid_empty_url.validate().is_err());
}

#[test]
fn test_create_mcp_server_validate_stdio() {
    let valid = CreateMcpServer::Stdio {
        name: "test".to_string(),
        description: None,
        command: "uvx".to_string(),
        args: vec![],
        env: StringMap::new(),
        enabled: true,
    };
    assert!(valid.validate().is_ok());

    let invalid_empty_name = CreateMcpServer::Stdio {
        name: "".to_string(),
        description: None,
        command: "uvx".to_string(),
        args: vec![],
        env: StringMap::new(),
        enabled: true,
    };
    assert!(invalid_empty_name.validate().is_err());

    let invalid_empty_command = CreateMcpServer::Stdio {
        name: "test".to_string(),
        description: None,
        command: "".to_string(),
        args: vec![],
        env: StringMap::new(),
        enabled: true,
    };
    assert!(invalid_empty_command.validate().is_err());
}

#[test]
fn validate_messages_name_first() {
    let both_empty = CreateMcpServer::Http {
        name: String::new(),
        description: None,
        url: String::new(),
        enabled: true,
    };
    assert_eq!(both_empty.validate().unwrap_err(), "Name is required");
    let no_url = CreateMcpServer::Http {
        name: "x".to_string(),
        description: None,
        url: String::new(),
        enabled: true,
    };
    assert_eq!(no_url.validate().unwrap_err(), "HTTP transport requires a non-empty URL");
}

#[test]
fn test_chat_message_from_row() {
    let msg = ChatMessage::from_row(
        1,
        10,
        "user".to_string(),
        "Hello".to_string(),
        "2025-01-15T10:30:00Z".to_string(),
    );

    assert_eq!(msg.id, 1);
    assert_eq!(msg.alert_id, 10);
    assert_eq!(msg.role, "user");
    assert_eq!(msg.content, "Hello");
    assert_eq!(msg.created_at, "2025-01-15T10:30:00Z");
}

#[test]
fn test_alert_from_row() {
    let alert_data = r#"{"message":"test","description":"test desc","details":{"prefix":"192.0.2.0/24","asn":"1234"}}"#;
    let initial_response = "Test response";
    let created_at = "2025-01-15T10:30:00Z";
    let updated_at = "2025-01-15T10:30:00Z";

    let alert = Alert::from_row(
        1,
        alert_data.to_string(),
        initial_response.to_string(),
        created_at.to_string(),
        updated_at.to_string(),
    )
    .unwrap();

    assert_eq!(alert.id, 1);
    assert_eq!(alert.initial_response, initial_response);
    assert_eq!(alert.created_at, created_at);
    assert_eq!(alert.updated_at, updated_at);
    assert!(alert.alert_data.is_object());
}

#[test]
fn test_alert_from_row_invalid_json() {
    let result = Alert::from_row(
        1,
        "invalid json".to_string(),
        "response".to_string(),
        "2025-01-15T10:30:00Z".to_string(),
        "2025-01-15T10:30:00Z".to_string(),
    );
    assert!(result.is_err());
}

fn create_test_http_server() -> McpServer {
    McpServer::Http {
        meta: McpServerDetails {
            id: 1,
            name: "test-http".to_string(),
            description: Some("Test HTTP server".to_string()),
            enabled: true,
            is_native: false,
            created_at: "2025-01-01T00:00:00Z".to_string(),
            updated_at: "2025-01-01T00:00:00Z".to_string(),
        },
        url: "https://example.com/mcp".to_string(),
    }
}

fn create_test_stdio_server() -> McpServer {
    McpServer::Stdio {
        meta: McpServerDetails {
            id: 2,
            name: "test-stdio".to_string(),
            description: Some("Test stdio server".to_string()),
            enabled: true,
            is_native: false,
            created_at: "2025-01-01T00:00:00Z".to_string(),
            updated_at: "2025-01-01T00:00:00Z".to_string(),
        },
        command: "echo".to_string(),
        args: vec!["hello".to_string()],
        env: StringMap::from_pairs(vec![("TEST".to_string(), "value".to_string())]),
    }
}

#[test]
fn test_http_server_fields() {
    let server = create_test_http_server();
    assert_eq!(server.name(), "test-http");
    assert!(server.meta().enabled);

    match server {
        McpServer::Http { url, .. } => {
            assert_eq!(url, "https://example.com/mcp");
        }
        _ => panic!("Expected HTTP variant"),
    }
}

#[test]
fn test_stdio_server_fields() {
    let server = create_test_stdio_server();
    assert_eq!(server.name(), "test-stdio");
    assert!(server.meta().enabled);

    match server {
        McpServer::Stdio { command, args, env, .. } => {
            assert_eq!(command, "echo");
            assert_eq!(args, vec!["hello".to_string()]);
            assert_eq!(env.get("TEST"), Some(&"value".to_string()));
        }
        _ => panic!("Expected Stdio variant"),
    }
}

#[test]
fn to_row_encodes_args_and_env_as_json() {
    let row = create_test_stdio_server().to_row();
    assert_eq!(row.transport_type, "stdio");
    assert_eq!(row.command.as_deref(), Some("echo"));
    assert_eq!(row.args.as_deref(), Some(r#"["hello"]"#));
    assert_eq!(row.env.as_deref(), Some(r#"{"TEST":"value"}"#));
    assert_eq!(row.url, None);
    assert_eq!(row.enabled, 1);
    assert_eq!(row.is_native, 0);
}

#[test]
fn to_row_then_from_row_gives_the_same_server() {
    let row = create_test_stdio_server().to_row();
    let back = McpServer::from_row(
        row.id, row.name, row.description, row.transport_type, row.url, row.command, row.args,
        row.env, row.enabled, row.is_native, row.created_at, row.updated_at,
    )
    .unwrap();
    match back {
        McpServer::Stdio { command, args, env, .. } => {
            assert_eq!(command, "echo");
            assert_eq!(args, vec!["hello".to_string()]);
            assert_eq!(env.get("TEST"), Some(&"value".to_string()));
        }
        _ => panic!("Expected Stdio variant"),
    }
    let http_row = create_test_http_server().to_row();
    assert_eq!(http_row.transport_type, "http");
    assert_eq!(http_row.args, None);
    assert_eq!(http_row.url.as_deref(), Some("https://example.com/mcp"));
}

#[test]
fn apply_update_keeps_kind_and_unset_fields() {
    let update = UpdateMcpServer {
        name: Some("renamed".to_string()),
        command: Some("ignored".to_string()),
        ..Default::default()
    };
    let updated = create_test_http_server().apply_update(&update, "later").unwrap();
    assert_eq!(updated.name(), "renamed");
    assert_eq!(updated.meta().updated_at, "later");
    assert_eq!(updated.meta().created_at, "2025-01-01T00:00:00Z");
    match updated {
        McpServer::Http { url, .. } => assert_eq!(url, "https://example.com/mcp"),
        _ => panic!("Expected HTTP variant"),
    }
    let emptied = UpdateMcpServer { url: Some(String::new()), ..Default::default() };
    assert_eq!(
        create_test_http_server().apply_update(&emptied, "later").unwrap_err(),
        "HTTP transport requires a non-empty URL"
    );
}

#[test]
fn string_map_later_pair_overrides() {
    let m = StringMap::from_pairs(vec![
        ("A".to_string(), "1".to_string()),
        ("B".to_string(), "2".to_string()),
        ("A".to_string(), "3".to_string()),
    ]);
    assert_eq!(m.len(), 2);
    assert_eq!(m.get("A"), Some(&"3".to_string()));
    assert_eq!(m.get("B"), Some(&"2".to_string()));
    assert_eq!(m.get("C"), None);
    assert_eq!(m.entries()[0].0, "A");
}

#[test]
fn test_get_current_timestamp() {
    let timestamp = get_current_timestamp();
    assert!(!timestamp.is_empty());
    assert!(timestamp.contains('T'));
    assert!(timestamp.contains('Z') || timestamp.contains('+') || timestamp.contains('-'));
}
