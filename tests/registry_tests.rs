use mcp_bridge::error::BridgeError;
use mcp_bridge::protocol::Tool;
use mcp_bridge::registry::{namespace_tool_entry, Registry};

fn tool(name: &str, description: Option<&str>) -> Tool {
    Tool {
        name: name.to_string(),
        description: description.map(|d| d.to_string()),
        input_schema: serde_json::from_str("{\"type\":\"object\"}").unwrap(),
    }
}

fn two_backends() -> Registry<u32> {
    let mut r = Registry::new();
    assert!(r.insert("a".to_string(), vec![tool("x", None)], 1).is_none());
    assert!(r.insert("b".to_string(), vec![tool("y", Some("does y"))], 2).is_none());
    r
}

#[test]
fn catalog_is_namespaced_and_tagged() {
    let r = two_backends();
    let all = r.list_all_tools();
    assert_eq!(all.len(), 2);
    assert_eq!(all[0].name, "a__x");
    assert_eq!(all[0].description, None);
    assert_eq!(all[1].name, "b__y");
    assert_eq!(all[1].description.as_deref(), Some("[b] does y"));
    let schema: serde_json::Value = serde_json::from_str("{\"type\":\"object\"}").unwrap();
    assert_eq!(all[1].input_schema, schema);
}

#[test]
fn tool_entry_is_renamed_with_schema_kept() {
    let t = tool("read", Some("reads"));
    let n = namespace_tool_entry("fs", &t);
    assert_eq!(n.name, "fs__read");
    assert_eq!(n.description.as_deref(), Some("[fs] reads"));
    assert_eq!(n.input_schema, t.input_schema);
}

#[test]
fn call_routes_to_named_backend_only() {
    let r = two_backends();
    match r.resolve("a__x") {
        Ok((conn, local)) => {
            assert_eq!(*conn, 1);
            assert_eq!(local, "x");
        }
        Err(_) => panic!("expected backend a"),
    }
}

#[test]
fn call_to_unknown_backend_is_backend_not_found() {
    let r = two_backends();
    match r.resolve("c__x") {
        Err(e @ BridgeError::BackendNotFound(_)) => {
            assert_eq!(e.message(), "MCP server 'c' not connected");
        }
        _ => panic!("expected BackendNotFound"),
    }
}

#[test]
fn call_without_separator_is_invalid_tool_name() {
    let r = two_backends();
    match r.resolve("noseparator") {
        Err(e @ BridgeError::InvalidToolName(_)) => {
            assert_eq!(e.message(), "Invalid tool name format: noseparator");
        }
        _ => panic!("expected InvalidToolName"),
    }
}

#[test]
fn failed_connection_is_left_out() {
    let mut r: Registry<u32> = Registry::new();
    let outcomes = vec![
        ("broken".to_string(), Err(BridgeError::SpawnFailure("No such file or directory".to_string()))),
        ("good".to_string(), Ok((vec![tool("t", None)], 7))),
    ];
    r.admit_all(outcomes);
    assert_eq!(r.connected_names(), vec!["good".to_string()]);
    assert_eq!(r.list_all_tools()[0].name, "good__t");
}

#[test]
fn insert_replaces_in_place_and_remove_drops() {
    let mut r = two_backends();
    assert_eq!(r.insert("a".to_string(), vec![], 9), Some(1));
    assert_eq!(r.connected_names(), vec!["a".to_string(), "b".to_string()]);
    assert_eq!(r.get("a"), Some(&9));
    assert_eq!(r.remove("a"), Some(9));
    assert_eq!(r.remove("a"), None);
    assert_eq!(r.len(), 1);
    assert_eq!(r.get("a"), None);
    let drained = r.drain();
    assert_eq!(drained.len(), 1);
    assert_eq!(drained[0].name, "b");
    assert_eq!(r.len(), 0);
    assert!(r.list_all_tools().is_empty());
}

#[test]
fn routed_call_carries_local_name_and_arguments() {
    let r = two_backends();
    let mut args = std::collections::HashMap::new();
    args.insert("n".to_string(), serde_json::from_str::<serde_json::Value>("1").unwrap());
    match r.route_call("a__x", args.clone()) {
        Ok((conn, params)) => {
            assert_eq!(*conn, 1);
            assert_eq!(params.name, "x");
            assert_eq!(params.arguments, args);
        }
        Err(_) => panic!("expected backend a"),
    }
    assert!(matches!(r.route_call("c__x", args.clone()), Err(BridgeError::BackendNotFound(n)) if n == "c"));
    assert!(matches!(r.route_call("noseparator", args), Err(BridgeError::InvalidToolName(_))));
}

#[test]
fn admitted_outcomes_keep_order_and_latest_success() {
    let mut r: Registry<u32> = Registry::new();
    r.insert("b".to_string(), vec![tool("old", None)], 1);
    let outcomes = vec![
        ("c".to_string(), Ok((vec![tool("t", None)], 3))),
        ("b".to_string(), Ok((vec![tool("new", None)], 2))),
        ("d".to_string(), Err(BridgeError::Timeout)),
        ("a".to_string(), Ok((vec![], 4))),
    ];
    r.admit_all(outcomes);
    assert_eq!(r.connected_names(), vec!["b".to_string(), "c".to_string(), "a".to_string()]);
    assert_eq!(r.get("b"), Some(&2));
    let names: Vec<String> = r.list_all_tools().into_iter().map(|t| t.name).collect();
    assert_eq!(names, vec!["b__new".to_string(), "c__t".to_string()]);
}
