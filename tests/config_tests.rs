use mcp_bridge::config::{
    add_server, config_dir, config_path, default_daemon_port, default_enabled, default_log_level,
    enabled_servers, remove_server, ClaudeDesktopServer, Config, ConfigError, McpServerConfig,
    Settings,
};
use std::collections::HashMap;

#[test]
fn test_add_remove_server() {
    let mut config = Config::default();
    let server = McpServerConfig::new("test", "echo");

    add_server(&mut config, server).unwrap();
    assert_eq!(config.servers.len(), 1);

    // Adding duplicate should fail
    let dup = McpServerConfig::new("test", "cat");
    assert!(add_server(&mut config, dup).is_err());

    // Remove
    let removed = remove_server(&mut config, "test").unwrap();
    assert_eq!(removed.name, "test");
    assert!(config.servers.is_empty());
}

#[test]
fn duplicate_add_reports_server_exists_and_keeps_config() {
    let mut config = Config::default();
    add_server(&mut config, McpServerConfig::new("a", "echo")).unwrap();
    match add_server(&mut config, McpServerConfig::new("a", "cat")) {
        Err(ConfigError::ServerExists(n)) => assert_eq!(n, "a"),
        _ => panic!("expected ServerExists"),
    }
    assert_eq!(config.servers.len(), 1);
    assert_eq!(config.servers[0].command, "echo");
}

#[test]
fn remove_missing_reports_server_not_found() {
    let mut config = Config::default();
    add_server(&mut config, McpServerConfig::new("a", "echo")).unwrap();
    match remove_server(&mut config, "b") {
        Err(ConfigError::ServerNotFound(n)) => assert_eq!(n, "b"),
        _ => panic!("expected ServerNotFound"),
    }
    assert_eq!(config.servers.len(), 1);
}

#[test]
fn remove_keeps_order_of_the_rest() {
    let mut config = Config::default();
    for n in ["a", "b", "c"] {
        add_server(&mut config, McpServerConfig::new(n, "echo")).unwrap();
    }
    let removed = remove_server(&mut config, "b").unwrap();
    assert_eq!(removed.name, "b");
    let names: Vec<&str> = config.servers.iter().map(|s| s.name.as_str()).collect();
    assert_eq!(names, vec!["a", "c"]);
}

#[test]
fn enabled_servers_keeps_order_and_skips_disabled() {
    let mut config = Config::default();
    add_server(&mut config, McpServerConfig::new("a", "echo")).unwrap();
    let mut off = McpServerConfig::new("b", "echo");
    off.enabled = false;
    add_server(&mut config, off).unwrap();
    add_server(&mut config, McpServerConfig::new("c", "echo")).unwrap();
    let names: Vec<&str> = enabled_servers(&config).iter().map(|s| s.name.as_str()).collect();
    assert_eq!(names, vec!["a", "c"]);
}

#[test]
fn defaults() {
    assert_eq!(default_log_level(), "info");
    assert_eq!(default_daemon_port(), 3000);
    assert!(default_enabled());
    let s = Settings::default();
    assert_eq!(s.log_level, "info");
    assert_eq!(s.daemon_port, 3000);
    let c = Config::default();
    assert!(c.servers.is_empty());
}

#[test]
fn builders_set_fields() {
    let mut env = HashMap::new();
    env.insert("K".to_string(), "V".to_string());
    let s = McpServerConfig::new("gh", "npx")
        .with_args(vec!["-y".to_string(), "pkg".to_string()])
        .with_env(env);
    assert_eq!(s.name, "gh");
    assert_eq!(s.command, "npx");
    assert_eq!(s.args, vec!["-y".to_string(), "pkg".to_string()]);
    assert_eq!(s.env.get("K").map(|v| v.as_str()), Some("V"));
    assert!(s.enabled);
}

#[test]
fn desktop_entry_becomes_enabled_server() {
    let entry = ClaudeDesktopServer {
        command: "npx".to_string(),
        args: vec!["-y".to_string()],
        env: HashMap::new(),
    };
    let s = McpServerConfig::from_desktop("fs".to_string(), entry);
    assert_eq!(s.name, "fs");
    assert_eq!(s.command, "npx");
    assert_eq!(s.args, vec!["-y".to_string()]);
    assert!(s.enabled);
}

#[test]
fn config_paths() {
    assert_eq!(config_dir(Some("/home/u/.config".to_string())).ok(), Some("/home/u/.config/mcp-bridge".to_string()));
    assert_eq!(
        config_path(Some("/home/u/.config/".to_string())).ok(),
        Some("/home/u/.config/mcp-bridge/config.toml".to_string())
    );
    assert!(matches!(config_path(None), Err(ConfigError::ConfigDirNotFound)));
}
