use agent_noc::models::{CreateMcpServer, McpServer, UpdateMcpServer};
use agent_noc::native::get_native_mcp_servers;
use agent_noc::registry::{
    create_mcp_server, delete_mcp_server, seed_action, SeedAction, enable_native_mcp_servers, get_all_mcp_servers,
    get_enabled_mcp_servers, get_mcp_server_by_id, update_mcp_server, Registry, RegistryError,
};
use agent_noc::string_map::StringMap;

fn http(name: &str, url: &str, enabled: bool) -> CreateMcpServer {
    CreateMcpServer::Http {
        name: name.to_string(),
        description: None,
        url: url.to_string(),
        enabled,
    }
}

#[test]
fn db_test_create_mcp_server_http() {
    let mut pool = Registry::new();
    let server = CreateMcpServer::Http {
        name: "test-http".to_string(),
        description: Some("Test HTTP server".to_string()),
        url: "https://example.com/mcp".to_string(),
        enabled: true,
    };
    let created = create_mcp_server(&mut pool, &server).unwrap();
    assert_eq!(created.name(), "test-http");
    assert!(created.meta().enabled);
    match created {
        McpServer::Http { url, .. } => assert_eq!(url, "https://example.com/mcp"),
        _ => panic!("Expected HTTP variant"),
    }
}

#[test]
fn db_test_create_mcp_server_stdio() {
    let mut pool = Registry::new();
    let server = CreateMcpServer::Stdio {
        name: "test-stdio".to_string(),
        description: Some("Test stdio server".to_string()),
        command: "uvx".to_string(),
        args: vec!["--from".to_string(), "test".to_string()],
        env: StringMap::from_pairs(vec![("KEY".to_string(), "value".to_string())]),
        enabled: true,
    };
    let created = create_mcp_server(&mut pool, &server).unwrap();
    assert_eq!(created.name(), "test-stdio");
    match created {
        McpServer::Stdio { command, args, env, .. } => {
            assert_eq!(command, "uvx");
            assert_eq!(args, vec!["--from".to_string(), "test".to_string()]);
            assert_eq!(env.get("KEY"), Some(&"value".to_string()));
        }
        _ => panic!("Expected Stdio variant"),
    }
}

#[test]
fn db_test_create_mcp_server_validation_error() {
    let mut pool = Registry::new();
    let server = CreateMcpServer::Http {
        name: "test".to_string(),
        description: None,
        url: "".to_string(),
        enabled: true,
    };
    let result = create_mcp_server(&mut pool, &server);
    assert!(result.is_err());
    assert!(get_all_mcp_servers(&pool, None).is_empty());
}

#[test]
fn test_create_mcp_server_duplicate_name() {
    let mut pool = Registry::new();
    create_mcp_server(&mut pool, &http("duplicate", "https://example.com", true)).unwrap();
    let second = create_mcp_server(&mut pool, &http("duplicate", "https://example.com", true));
    assert!(matches!(second, Err(RegistryError::NameTaken)));
    assert_eq!(get_all_mcp_servers(&pool, None).len(), 1);
}

#[test]
fn test_get_all_mcp_servers() {
    let mut pool = Registry::new();
    create_mcp_server(&mut pool, &http("alpha", "https://example1.com", true)).unwrap();
    create_mcp_server(&mut pool, &http("beta", "https://example2.com", false)).unwrap();
    let servers = get_all_mcp_servers(&pool, None);
    assert_eq!(servers.len(), 2);
    assert_eq!(servers[0].name(), "alpha");
    assert_eq!(servers[1].name(), "beta");
}

#[test]
fn test_get_enabled_mcp_servers() {
    let mut pool = Registry::new();
    create_mcp_server(&mut pool, &http("enabled", "https://example1.com", true)).unwrap();
    create_mcp_server(&mut pool, &http("disabled", "https://example2.com", false)).unwrap();
    let servers = get_enabled_mcp_servers(&pool);
    assert_eq!(servers.len(), 1);
    assert_eq!(servers[0].name(), "enabled");
}

#[test]
fn db_test_get_mcp_server_by_id() {
    let mut pool = Registry::new();
    let server = CreateMcpServer::Http {
        name: "test".to_string(),
        description: Some("Test server".to_string()),
        url: "https://example.com".to_string(),
        enabled: true,
    };
    let created = create_mcp_server(&mut pool, &server).unwrap();
    let retrieved = get_mcp_server_by_id(&pool, created.meta().id);
    assert!(retrieved.is_some());
    assert_eq!(retrieved.unwrap().name(), "test");
    let not_found = get_mcp_server_by_id(&pool, 9999);
    assert!(not_found.is_none());
}

#[test]
fn db_test_update_mcp_server() {
    let mut pool = Registry::new();
    let server = CreateMcpServer::Http {
        name: "original".to_string(),
        description: Some("Original description".to_string()),
        url: "https://original.com".to_string(),
        enabled: true,
    };
    let created = create_mcp_server(&mut pool, &server).unwrap();
    let update = UpdateMcpServer {
        name: Some("updated".to_string()),
        description: Some("Updated description".to_string()),
        enabled: Some(false),
        ..Default::default()
    };
    let updated = update_mcp_server(&mut pool, created.meta().id, &update).unwrap();
    assert!(updated.is_some());
    let updated = updated.unwrap();
    assert_eq!(updated.name(), "updated");
    assert_eq!(updated.meta().description.as_deref(), Some("Updated description"));
    assert!(!updated.meta().enabled);
    match updated {
        McpServer::Http { url, .. } => assert_eq!(url, "https://original.com"),
        _ => panic!("Expected HTTP variant"),
    }
}

#[test]
fn db_test_update_mcp_server_not_found() {
    let mut pool = Registry::new();
    let update = UpdateMcpServer { name: Some("new".to_string()), ..Default::default() };
    let result = update_mcp_server(&mut pool, 9999, &update).unwrap();
    assert!(result.is_none());
}

#[test]
fn update_cannot_take_another_name_or_empty_the_url() {
    let mut pool = Registry::new();
    create_mcp_server(&mut pool, &http("a", "https://a.example", true)).unwrap();
    let b = create_mcp_server(&mut pool, &http("b", "https://b.example", true)).unwrap();
    let rename = UpdateMcpServer { name: Some("a".to_string()), ..Default::default() };
    assert!(matches!(update_mcp_server(&mut pool, b.meta().id, &rename), Err(RegistryError::NameTaken)));
    let empty = UpdateMcpServer { url: Some(String::new()), ..Default::default() };
    match update_mcp_server(&mut pool, b.meta().id, &empty) {
        Err(RegistryError::Invalid(m)) => assert_eq!(m, "HTTP transport requires a non-empty URL"),
        _ => panic!("Expected a validation error"),
    }
    match get_mcp_server_by_id(&pool, b.meta().id).unwrap() {
        McpServer::Http { url, meta } => {
            assert_eq!(url, "https://b.example");
            assert_eq!(meta.name, "b");
        }
        _ => panic!("Expected HTTP variant"),
    }
}

#[test]
fn update_ignores_fields_of_the_other_transport() {
    let mut pool = Registry::new();
    let created = create_mcp_server(&mut pool, &http("web", "https://web.example", true)).unwrap();
    let update = UpdateMcpServer {
        command: Some("uvx".to_string()),
        args: Some(vec!["x".to_string()]),
        ..Default::default()
    };
    let updated = update_mcp_server(&mut pool, created.meta().id, &update).unwrap().unwrap();
    match updated {
        McpServer::Http { url, .. } => assert_eq!(url, "https://web.example"),
        _ => panic!("Expected HTTP variant"),
    }
}

#[test]
fn test_delete_mcp_server() {
    let mut pool = Registry::new();
    let created = create_mcp_server(&mut pool, &http("to-delete", "https://example.com", true)).unwrap();
    let server_id = created.meta().id;
    assert!(delete_mcp_server(&mut pool, server_id));
    assert!(get_mcp_server_by_id(&pool, server_id).is_none());
    assert!(!delete_mcp_server(&mut pool, server_id));
}

#[test]
fn test_enable_native_mcp_servers() {
    let mut pool = Registry::new();
    enable_native_mcp_servers(&mut pool, true).unwrap();
    let servers = get_all_mcp_servers(&pool, None);
    assert_eq!(servers.len(), 2);
    let ripestat = servers.iter().find(|s| s.name() == "ripestat").unwrap();
    assert!(matches!(ripestat, McpServer::Http { .. }));
    assert!(ripestat.meta().is_native);
    let whois = servers.iter().find(|s| s.name() == "whois").unwrap();
    match whois {
        McpServer::Stdio { command, args, .. } => {
            assert_eq!(command, "uvx");
            assert!(!args.is_empty());
        }
        _ => panic!("Expected Stdio variant"),
    }
    assert!(whois.meta().is_native);

    enable_native_mcp_servers(&mut pool, true).unwrap();
    let servers = get_all_mcp_servers(&pool, None);
    assert_eq!(servers.len(), 2);

    enable_native_mcp_servers(&mut pool, false).unwrap();
    let servers = get_all_mcp_servers(&pool, None);
    assert_eq!(servers.len(), 0);
}

#[test]
fn enabling_twice_leaves_the_rows_of_enabling_once() {
    let mut pool = Registry::new();
    create_mcp_server(&mut pool, &http("mine", "https://mine.example", true)).unwrap();
    enable_native_mcp_servers(&mut pool, true).unwrap();
    let once: Vec<(i64, String, String)> = get_all_mcp_servers(&pool, None)
        .iter()
        .map(|s| (s.meta().id, s.name().to_string(), s.meta().created_at.clone()))
        .collect();
    enable_native_mcp_servers(&mut pool, true).unwrap();
    let twice: Vec<(i64, String, String)> = get_all_mcp_servers(&pool, None)
        .iter()
        .map(|s| (s.meta().id, s.name().to_string(), s.meta().created_at.clone()))
        .collect();
    assert_eq!(once, twice);
    assert_eq!(once.len(), 3);
}

#[test]
fn disabling_keeps_user_rows_after_any_number_of_enables() {
    let mut pool = Registry::new();
    create_mcp_server(&mut pool, &http("first", "https://1.example", true)).unwrap();
    enable_native_mcp_servers(&mut pool, true).unwrap();
    create_mcp_server(&mut pool, &http("second", "https://2.example", false)).unwrap();
    enable_native_mcp_servers(&mut pool, true).unwrap();
    enable_native_mcp_servers(&mut pool, true).unwrap();
    enable_native_mcp_servers(&mut pool, false).unwrap();
    let left: Vec<String> = get_all_mcp_servers(&pool, None).iter().map(|s| s.name().to_string()).collect();
    assert_eq!(left, vec!["first".to_string(), "second".to_string()]);
    enable_native_mcp_servers(&mut pool, false).unwrap();
    assert_eq!(get_all_mcp_servers(&pool, None).len(), 2);
}

#[test]
fn seeding_stops_at_a_user_row_with_a_builtin_name() {
    let mut pool = Registry::new();
    create_mcp_server(&mut pool, &http("whois", "https://whois.example", true)).unwrap();
    let result = enable_native_mcp_servers(&mut pool, true);
    assert!(matches!(result, Err(RegistryError::NameTaken)));
    let names: Vec<String> = get_all_mcp_servers(&pool, None).iter().map(|s| s.name().to_string()).collect();
    assert_eq!(names, vec!["ripestat".to_string(), "whois".to_string()]);
    assert!(matches!(enable_native_mcp_servers(&mut pool, true), Err(RegistryError::NameTaken)));
    assert_eq!(get_all_mcp_servers(&pool, None).len(), 2);
}

#[test]
fn listing_by_kind() {
    let mut pool = Registry::new();
    create_mcp_server(&mut pool, &http("mine", "https://mine.example", true)).unwrap();
    enable_native_mcp_servers(&mut pool, true).unwrap();
    assert_eq!(get_all_mcp_servers(&pool, Some("native")).len(), 2);
    let custom = get_all_mcp_servers(&pool, Some("custom"));
    assert_eq!(custom.len(), 1);
    assert_eq!(custom[0].name(), "mine");
    assert_eq!(get_all_mcp_servers(&pool, Some("other")).len(), 3);
}

#[test]
fn created_config_reads_back_by_id() {
    let mut pool = Registry::new();
    let request = CreateMcpServer::Stdio {
        name: "proc".to_string(),
        description: None,
        command: "run".to_string(),
        args: vec!["-v".to_string()],
        env: StringMap::from_pairs(vec![("K".to_string(), "V".to_string())]),
        enabled: true,
    };
    let created = create_mcp_server(&mut pool, &request).unwrap();
    assert_eq!(created.meta().id, 1);
    match get_mcp_server_by_id(&pool, 1).unwrap() {
        McpServer::Stdio { command, args, env, meta } => {
            assert_eq!(command, "run");
            assert_eq!(args, vec!["-v".to_string()]);
            assert_eq!(env.get("K"), Some(&"V".to_string()));
            assert!(!meta.is_native);
        }
        _ => panic!("Expected Stdio variant"),
    }
}

#[test]
fn native_catalog_has_two_servers() {
    let natives = get_native_mcp_servers();
    assert_eq!(natives.len(), 2);
    assert_eq!(natives[0].name(), "ripestat");
    assert_eq!(natives[1].name(), "whois");
    match &natives[1] {
        CreateMcpServer::Stdio { args, .. } => {
            assert_eq!(args[1], "git+https://github.com/dadepo/whois-mcp.git");
        }
        _ => panic!("Expected Stdio variant"),
    }
}

#[test]
fn listings_are_in_name_order() {
    let mut pool = Registry::new();
    create_mcp_server(&mut pool, &http("b", "https://b.example", true)).unwrap();
    create_mcp_server(&mut pool, &http("a", "https://a.example", true)).unwrap();
    create_mcp_server(&mut pool, &http("ab", "https://ab.example", false)).unwrap();
    create_mcp_server(&mut pool, &http("B", "https://B.example", true)).unwrap();
    let all: Vec<String> = get_all_mcp_servers(&pool, None).iter().map(|s| s.name().to_string()).collect();
    assert_eq!(all, vec!["B", "a", "ab", "b"]);
    let enabled: Vec<String> = get_enabled_mcp_servers(&pool).iter().map(|s| s.name().to_string()).collect();
    assert_eq!(enabled, vec!["B", "a", "b"]);
}

#[test]
fn seed_action_per_builtin() {
    let natives = get_native_mcp_servers();
    let mut pool = Registry::new();
    assert_eq!(seed_action(&get_all_mcp_servers(&pool, None), &natives[0]), SeedAction::Insert);
    create_mcp_server(&mut pool, &http("whois", "https://w.example", true)).unwrap();
    assert_eq!(seed_action(&get_all_mcp_servers(&pool, None), &natives[1]), SeedAction::Stop);
    let mut seeded = Registry::new();
    enable_native_mcp_servers(&mut seeded, true).unwrap();
    assert_eq!(seed_action(&get_all_mcp_servers(&seeded, None), &natives[0]), SeedAction::Skip);
}
