use crate::error::{error_text, BridgeError};
use crate::protocol::{
    is_error_reply, is_success_reply,
    InitializeResult, JsonRpcId, JsonRpcResponse, ServerCapabilities, ServerInfo,
    ToolsCapability, BRIDGE_NAME, INTERNAL_ERROR, INVALID_PARAMS, METHOD_NOT_FOUND,
    PROTOCOL_VERSION,
};
use vstd::prelude::*;
use vstd::string::*;

verus! {

/// What the bridge does with an incoming request.
#[derive(Debug, Clone)]
pub enum Dispatch {
    /// Answer the handshake locally.
    Initialize,
    /// Acknowledge the client's "initialized" notification.
    Initialized,
    /// List the combined catalog.
    ListTools,
    /// Route a tool invocation to its backend.
    CallTool,
    /// Answer the liveness probe.
    Ping,
    /// Reject an unknown method.
    Unknown,
}

/// The action for a request with method `m`.
pub open spec fn spec_dispatch(m: Seq<char>) -> Dispatch {
    if m == "initialize"@ {
        Dispatch::Initialize
    } else if m == "notifications/initialized"@ {
        Dispatch::Initialized
    } else if m == "tools/list"@ {
        Dispatch::ListTools
    } else if m == "tools/call"@ {
        Dispatch::CallTool
    } else if m == "ping"@ {
        Dispatch::Ping
    } else {
        Dispatch::Unknown
    }
}

/// Decides what to do with a request with method `method`.
pub fn dispatch(method: &str) -> (r: Dispatch)
    ensures
        r == spec_dispatch(method@),
{
    let m = method.to_owned();
    if m == "initialize".to_owned() {
        Dispatch::Initialize
    } else if m == "notifications/initialized".to_owned() {
        Dispatch::Initialized
    } else if m == "tools/list".to_owned() {
        Dispatch::ListTools
    } else if m == "tools/call".to_owned() {
        Dispatch::CallTool
    } else if m == "ping".to_owned() {
        Dispatch::Ping
    } else {
        Dispatch::Unknown
    }
}

/// The bridge's own handshake result: the protocol version, a tool
/// capability without change notifications and nothing else, and the
/// bridge's identity with the given version.
pub fn initialize_result(version: &str) -> (r: InitializeResult)
    ensures
        r.protocol_version@ == PROTOCOL_VERSION@,
        r.capabilities.tools matches Some(t) && !t.list_changed,
        r.capabilities.resources is None,
        r.capabilities.prompts is None,
        r.server_info.name@ == BRIDGE_NAME@,
        r.server_info.version@ == version@,
{
    InitializeResult {
        protocol_version: PROTOCOL_VERSION.to_owned(),
        capabilities: ServerCapabilities {
            tools: Some(ToolsCapability { list_changed: false }),
            resources: None,
            prompts: None,
        },
        server_info: ServerInfo { name: BRIDGE_NAME.to_owned(), version: version.to_owned() },
    }
}

/// The answer to requests that the bridge answers at once, without looking
/// at any backend: the "initialized" acknowledgment and the liveness probe
/// both succeed with `empty` as their result. Other requests get `None` here.
pub fn local_reply(d: &Dispatch, id: Option<JsonRpcId>, empty: serde_json::Value) -> (r: Option<
    JsonRpcResponse,
>)
    ensures
        (*d is Initialized || *d is Ping) ==> r is Some && is_success_reply(r->0, id, empty),
        !(*d is Initialized || *d is Ping) ==> r is None,
{
    match d {
        Dispatch::Initialized | Dispatch::Ping => Some(JsonRpcResponse::success(id, empty)),
        _ => None,
    }
}

/// The answer to a request whose method is unknown.
pub fn method_not_found(id: Option<JsonRpcId>, method: &str) -> (r: JsonRpcResponse)
    ensures
        is_error_reply(r, id, METHOD_NOT_FOUND, "Method not found: "@ + method@),
{
    let mut m = "Method not found: ".to_owned();
    m.append(method);
    JsonRpcResponse::error(id, METHOD_NOT_FOUND, m)
}

/// Validates the shape of a tool invocation request: it needs parameters, and
/// among them a tool name. Hands back the name, or the error answer.
pub fn tool_call_name(id: Option<JsonRpcId>, has_params: bool, name: Option<String>) -> (r: Result<
    String,
    JsonRpcResponse,
>)
    ensures
        !has_params ==> r is Err && is_error_reply(
            r->Err_0,
            id,
            INVALID_PARAMS,
            "Missing params for tools/call"@,
        ),
        has_params && name is None ==> r is Err && is_error_reply(
            r->Err_0,
            id,
            INVALID_PARAMS,
            "Missing 'name' in tools/call params"@,
        ),
        has_params && name is Some ==> r == Ok::<String, JsonRpcResponse>(name->0),
{
    if !has_params {
        return Err(
            JsonRpcResponse::error(id, INVALID_PARAMS, "Missing params for tools/call".to_owned()),
        );
    }
    match name {
        Some(n) => Ok(n),
        None => Err(
            JsonRpcResponse::error(
                id,
                INVALID_PARAMS,
                "Missing 'name' in tools/call params".to_owned(),
            ),
        ),
    }
}

/// The answer carrying a result that has been encoded as JSON, or, when the
/// encoding failed with message `m`, an internal error with that message.
pub fn encoded_reply(id: Option<JsonRpcId>, encoded: Result<serde_json::Value, String>) -> (r:
    JsonRpcResponse)
    ensures
        match encoded {
            Ok(v) => is_success_reply(r, id, v),
            Err(m) => is_error_reply(r, id, INTERNAL_ERROR, m@),
        },
{
    match encoded {
        Ok(v) => JsonRpcResponse::success(id, v),
        Err(m) => JsonRpcResponse::error(id, INTERNAL_ERROR, m),
    }
}

/// The answer to a tool invocation that failed in the registry or in the
/// backend: an internal error carrying the failure's text.
pub fn call_failed(id: Option<JsonRpcId>, err: &BridgeError) -> (r: JsonRpcResponse)
    ensures
        is_error_reply(r, id, INTERNAL_ERROR, error_text(*err)),
{
    JsonRpcResponse::error(id, INTERNAL_ERROR, err.message())
}

} // verus!
