use mcp_bridge::names::{namespace_tool, parse_namespaced_tool};

#[test]
fn test_namespace_tool() {
    assert_eq!(namespace_tool("github", "create_issue"), "github__create_issue");
}

#[test]
fn test_parse_namespaced_tool() {
    let result = parse_namespaced_tool("github__create_issue");
    assert_eq!(result, Some(("github", "create_issue")));

    let no_namespace = parse_namespaced_tool("create_issue");
    assert_eq!(no_namespace, None);
}

#[test]
fn split_is_at_first_separator() {
    assert_eq!(parse_namespaced_tool("a__b__c"), Some(("a", "b__c")));
    assert_eq!(parse_namespaced_tool("a___x"), Some(("a", "_x")));
    assert_eq!(parse_namespaced_tool("__x"), Some(("", "x")));
    assert_eq!(parse_namespaced_tool("a__"), Some(("a", "")));
    assert_eq!(parse_namespaced_tool("a_b"), None);
    assert_eq!(parse_namespaced_tool(""), None);
}

#[test]
fn namespacing_round_trips() {
    for (b, t) in [("github", "create_issue"), ("fs", "read_file"), ("x", "y_z")] {
        let n = namespace_tool(b, t);
        assert_eq!(parse_namespaced_tool(&n), Some((b, t)));
    }
}

#[test]
fn non_ascii_names_split_by_characters() {
    let n = namespace_tool("büro", "größe");
    assert_eq!(n, "büro__größe");
    assert_eq!(parse_namespaced_tool(&n), Some(("büro", "größe")));
}
