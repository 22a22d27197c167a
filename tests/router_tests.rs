use mcp_bridge::connection::{
    handshake_params, method_of, next_state, permits, reply_result, ConnectionState, Exchange,
    LifeEvent,
};
use mcp_bridge::error::BridgeError;
use mcp_bridge::protocol::{
    JsonRpcId, JsonRpcRequest, JsonRpcResponse, INTERNAL_ERROR, INVALID_PARAMS, METHOD_NOT_FOUND,
};
use mcp_bridge::router::{
    call_failed, dispatch, encoded_reply, initialize_result, local_reply, method_not_found,
    tool_call_name, Dispatch,
};

fn empty() -> serde_json::Value {
    serde_json::from_str("{}").unwrap()
}

#[test]
fn methods_dispatch() {
    assert!(matches!(dispatch("initialize"), Dispatch::Initialize));
    assert!(matches!(dispatch("notifications/initialized"), Dispatch::Initialized));
    assert!(matches!(dispatch("tools/list"), Dispatch::ListTools));
    assert!(matches!(dispatch("tools/call"), Dispatch::CallTool));
    assert!(matches!(dispatch("ping"), Dispatch::Ping));
    assert!(matches!(dispatch("resources/list"), Dispatch::Unknown));
    assert!(matches!(dispatch(""), Dispatch::Unknown));
}

#[test]
fn ping_succeeds_with_empty_result() {
    let r = local_reply(&dispatch("ping"), Some(JsonRpcId::Number(5)), empty()).unwrap();
    assert!(matches!(r.id, Some(JsonRpcId::Number(5))));
    assert_eq!(r.result, Some(empty()));
    assert!(r.error.is_none());
    assert_eq!(r.jsonrpc, "2.0");
}

#[test]
fn only_local_methods_answer_locally() {
    assert!(local_reply(&Dispatch::Initialized, None, empty()).is_some());
    assert!(local_reply(&Dispatch::ListTools, None, empty()).is_none());
    assert!(local_reply(&Dispatch::CallTool, None, empty()).is_none());
    assert!(local_reply(&Dispatch::Initialize, None, empty()).is_none());
}

#[test]
fn unknown_method_error() {
    let r = method_not_found(Some(JsonRpcId::Number(1)), "foo/bar");
    let e = r.error.unwrap();
    assert_eq!(e.code, METHOD_NOT_FOUND);
    assert_eq!(e.code, -32601);
    assert_eq!(e.message, "Method not found: foo/bar");
    assert!(e.data.is_none());
    assert!(r.result.is_none());
    assert_eq!(r.jsonrpc, "2.0");
}

#[test]
fn tool_call_shape_errors() {
    match tool_call_name(None, false, None) {
        Err(r) => {
            let e = r.error.unwrap();
            assert_eq!(e.code, INVALID_PARAMS);
            assert_eq!(e.message, "Missing params for tools/call");
        }
        Ok(_) => panic!("expected error"),
    }
    match tool_call_name(None, true, None) {
        Err(r) => {
            let e = r.error.unwrap();
            assert_eq!(e.code, -32602);
            assert_eq!(e.message, "Missing 'name' in tools/call params");
        }
        Ok(_) => panic!("expected error"),
    }
    assert_eq!(tool_call_name(None, true, Some("a__x".to_string())).ok(), Some("a__x".to_string()));
}

#[test]
fn failures_become_internal_errors() {
    let r = call_failed(Some(JsonRpcId::Number(3)), &BridgeError::BackendNotFound("c".to_string()));
    let e = r.error.unwrap();
    assert_eq!(e.code, INTERNAL_ERROR);
    assert_eq!(e.message, "MCP server 'c' not connected");
    assert_eq!(BridgeError::Timeout.message(), "Request timeout");
    let r = encoded_reply(None, Err("bad".to_string()));
    assert_eq!(r.error.unwrap().code, -32603);
    let r = encoded_reply(None, Ok(empty()));
    assert_eq!(r.result, Some(empty()));
    assert_eq!(r.jsonrpc, "2.0");
    assert!(r.error.is_none());
}

#[test]
fn bridge_handshake_identity() {
    let r = initialize_result("1.2.3");
    assert_eq!(r.protocol_version, "2024-11-05");
    assert!(!r.capabilities.tools.unwrap().list_changed);
    assert!(r.capabilities.resources.is_none());
    assert_eq!(r.server_info.name, "mcp-bridge");
    assert_eq!(r.server_info.version, "1.2.3");
    let p = handshake_params("1.2.3");
    assert_eq!(p.protocol_version, "2024-11-05");
    assert_eq!(p.client_info.name, "mcp-bridge");
    assert!(p.capabilities.roots.is_none());
}

#[test]
fn replies_are_validated() {
    let err = JsonRpcResponse::error(Some(JsonRpcId::Number(1)), -1, "boom".to_string());
    match reply_result(&Exchange::Initialize, err) {
        Err(BridgeError::HandshakeFailure(m)) => assert_eq!(m, "Initialize failed: boom"),
        _ => panic!("expected handshake failure"),
    }
    let err = JsonRpcResponse::error(None, -1, "boom".to_string());
    match reply_result(&Exchange::CallTool, err) {
        Err(BridgeError::BackendCallFailure(m)) => assert_eq!(m, "tools/call failed: boom"),
        _ => panic!("expected call failure"),
    }
    let mut none = JsonRpcResponse::success(None, empty());
    none.result = None;
    match reply_result(&Exchange::ListTools, none) {
        Err(BridgeError::HandshakeFailure(m)) => assert_eq!(m, "No result in tools/list response"),
        _ => panic!("expected handshake failure"),
    }
    let ok = JsonRpcResponse::success(None, empty());
    assert_eq!(reply_result(&Exchange::ListTools, ok).ok(), Some(empty()));
    assert_eq!(method_of(&Exchange::CallTool), "tools/call");
}

#[test]
fn requests_and_notifications() {
    let r = JsonRpcRequest::new("tools/list", None).with_id(JsonRpcId::Number(7));
    assert_eq!(r.jsonrpc, "2.0");
    assert!(matches!(r.id, Some(JsonRpcId::Number(7))));
    assert_eq!(r.method, "tools/list");
    let n = JsonRpcRequest::notification("notifications/initialized", None);
    assert!(n.id.is_none());
}

#[test]
fn connection_lifecycle() {
    let s = ConnectionState::Spawned;
    assert!(permits(s, &Exchange::Initialize));
    assert!(!permits(s, &Exchange::CallTool));
    assert!(!permits(s, &Exchange::ListTools));
    let s = next_state(s, LifeEvent::HandshakeStarted).unwrap();
    assert_eq!(s, ConnectionState::Initializing);
    assert!(permits(s, &Exchange::ListTools));
    assert!(!permits(s, &Exchange::CallTool));
    assert!(!permits(s, &Exchange::Initialize));
    let s = next_state(s, LifeEvent::ToolsListed).unwrap();
    assert_eq!(s, ConnectionState::Ready);
    assert!(permits(s, &Exchange::CallTool));
    assert_eq!(next_state(s, LifeEvent::HandshakeStarted), None);
    let s = next_state(s, LifeEvent::ShutdownStarted).unwrap();
    assert_eq!(s, ConnectionState::ShuttingDown);
    assert!(!permits(s, &Exchange::CallTool));
    let s = next_state(s, LifeEvent::ProcessEnded).unwrap();
    assert_eq!(s, ConnectionState::Terminated);
    assert_eq!(next_state(s, LifeEvent::ShutdownStarted), None);
    assert_eq!(next_state(ConnectionState::Spawned, LifeEvent::ToolsListed), None);
}
