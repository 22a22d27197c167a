use std::collections::HashMap;
use vstd::prelude::*;

verus! {

/// Any JSON document, carried through unchanged (tool input schemas,
/// request parameters, results).
#[verifier::external_type_specification]
#[verifier::external_body]
pub struct ExValue(serde_json::Value);

/// Relies on serde_json's derived `Clone` for `Value`: the copy is the same document.
pub assume_specification[ <serde_json::Value as Clone>::clone ](v: &serde_json::Value) -> (r:
    serde_json::Value)
    ensures
        r == *v,
;

/// JSON-RPC error code: the input was not valid JSON.
pub const PARSE_ERROR: i32 = -32700;

/// JSON-RPC error code: the input was not a valid request object.
pub const INVALID_REQUEST: i32 = -32600;

/// JSON-RPC error code: no such method.
pub const METHOD_NOT_FOUND: i32 = -32601;

/// JSON-RPC error code: the method's parameters are malformed.
pub const INVALID_PARAMS: i32 = -32602;

/// JSON-RPC error code: the request failed inside the server.
pub const INTERNAL_ERROR: i32 = -32603;

/// Protocol version spoken by this bridge, to backends and to its own clients.
pub const PROTOCOL_VERSION: &'static str = "2024-11-05";

/// Version under which this bridge presents itself.
pub const BRIDGE_VERSION: &'static str = "0.1.0";

/// Identity under which this bridge presents itself.
pub const BRIDGE_NAME: &'static str = "mcp-bridge";

/// The identifier of a JSON-RPC request.
#[derive(Debug, Clone)]
pub enum JsonRpcId {
    Number(i64),
    String(String),
}

/// The error object of a JSON-RPC response.
#[derive(Debug, Clone)]
pub struct JsonRpcError {
    pub code: i32,
    pub message: String,
    pub data: Option<serde_json::Value>,
}

/// A JSON-RPC request; a notification when `id` is `None`.
#[derive(Debug, Clone)]
pub struct JsonRpcRequest {
    pub jsonrpc: String,
    pub id: Option<JsonRpcId>,
    pub method: String,
    pub params: Option<serde_json::Value>,
}

/// A JSON-RPC response: exactly one of `result` and `error` is present.
#[derive(Debug, Clone)]
pub struct JsonRpcResponse {
    pub jsonrpc: String,
    pub id: Option<JsonRpcId>,
    pub result: Option<serde_json::Value>,
    pub error: Option<JsonRpcError>,
}

/// The version tag every message carries.
pub open spec fn jsonrpc_version() -> Seq<char> {
    seq!['2', '.', '0']
}

fn version_tag() -> (r: String)
    ensures
        r@ == jsonrpc_version(),
{
    proof {
        reveal_strlit("2.0");
    }
    "2.0".to_owned()
}

impl JsonRpcRequest {
    /// A request with id 1; callers that correlate replies set their own id.
    pub fn new(method: &str, params: Option<serde_json::Value>) -> (r: Self)
        ensures
            r.jsonrpc@ == jsonrpc_version(),
            r.id == Some(JsonRpcId::Number(1)),
            r.method@ == method@,
            r.params == params,
    {
        JsonRpcRequest { jsonrpc: version_tag(), id: Some(JsonRpcId::Number(1)), method: method.to_owned(), params }
    }

    /// A notification: a request without an id, to which no reply comes.
    pub fn notification(method: &str, params: Option<serde_json::Value>) -> (r: Self)
        ensures
            r.jsonrpc@ == jsonrpc_version(),
            r.id is None,
            r.method@ == method@,
            r.params == params,
    {
        JsonRpcRequest { jsonrpc: version_tag(), id: None, method: method.to_owned(), params }
    }

    /// The same request under the given id.
    pub fn with_id(self, id: JsonRpcId) -> (r: Self)
        ensures
            r.id == Some(id),
            r.jsonrpc == self.jsonrpc,
            r.method == self.method,
            r.params == self.params,
    {
        let mut s = self;
        s.id = Some(id);
        s
    }
}

impl JsonRpcResponse {
    /// A successful response carrying `result`.
    pub fn success(id: Option<JsonRpcId>, result: serde_json::Value) -> (r: Self)
        ensures
            r.jsonrpc@ == jsonrpc_version(),
            r.id == id,
            r.result == Some(result),
            r.error is None,
    {
        JsonRpcResponse { jsonrpc: version_tag(), id, result: Some(result), error: None }
    }

    /// An error response with the given code and message and no data.
    pub fn error(id: Option<JsonRpcId>, code: i32, message: String) -> (r: Self)
        ensures
            r.jsonrpc@ == jsonrpc_version(),
            r.id == id,
            r.result is None,
            r.error matches Some(e) && e.code == code && e.message == message && e.data is None,
    {
        JsonRpcResponse {
            jsonrpc: version_tag(),
            id,
            result: None,
            error: Some(JsonRpcError { code, message, data: None }),
        }
    }
}

/// `r` is a JSON-RPC 2.0 answer to request `id` with an error of the given
/// code and message, and no data.
pub open spec fn is_error_reply(r: JsonRpcResponse, id: Option<JsonRpcId>, code: i32, message: Seq<
    char,
>) -> bool {
    &&& r.jsonrpc@ == jsonrpc_version()
    &&& r.id == id
    &&& r.result is None
    &&& r.error is Some
    &&& r.error->0.code == code
    &&& r.error->0.message@ == message
    &&& r.error->0.data is None
}

/// `r` is a JSON-RPC 2.0 answer to request `id` that succeeds with `result`.
pub open spec fn is_success_reply(r: JsonRpcResponse, id: Option<JsonRpcId>, result: serde_json::Value) -> bool {
    &&& r.jsonrpc@ == jsonrpc_version()
    &&& r.id == id
    &&& r.result == Some(result)
    &&& r.error is None
}

/// Capabilities a client announces in the handshake.
#[derive(Debug, Clone)]
pub struct ClientCapabilities {
    pub roots: Option<RootsCapability>,
    pub sampling: Option<serde_json::Value>,
}

#[derive(Debug, Clone)]
pub struct RootsCapability {
    pub list_changed: bool,
}

/// Name and version of a client.
#[derive(Debug, Clone)]
pub struct ClientInfo {
    pub name: String,
    pub version: String,
}

/// Parameters of the handshake request.
#[derive(Debug, Clone)]
pub struct InitializeParams {
    pub protocol_version: String,
    pub capabilities: ClientCapabilities,
    pub client_info: ClientInfo,
}

/// Result of the handshake.
#[derive(Debug, Clone)]
pub struct InitializeResult {
    pub protocol_version: String,
    pub capabilities: ServerCapabilities,
    pub server_info: ServerInfo,
}

/// Capabilities a server announces in the handshake.
#[derive(Debug, Clone)]
pub struct ServerCapabilities {
    pub tools: Option<ToolsCapability>,
    pub resources: Option<ResourcesCapability>,
    pub prompts: Option<PromptsCapability>,
}

#[derive(Debug, Clone)]
pub struct ToolsCapability {
    pub list_changed: bool,
}

#[derive(Debug, Clone)]
pub struct ResourcesCapability {
    pub subscribe: bool,
    pub list_changed: bool,
}

#[derive(Debug, Clone)]
pub struct PromptsCapability {
    pub list_changed: bool,
}

/// Name and version of a server.
#[derive(Debug, Clone)]
pub struct ServerInfo {
    pub name: String,
    pub version: String,
}

/// A tool as a backend describes it.
#[derive(Debug, Clone)]
pub struct Tool {
    pub name: String,
    pub description: Option<String>,
    pub input_schema: serde_json::Value,
}

/// The mathematical content of a [`Tool`].
pub struct ToolView {
    pub name: Seq<char>,
    pub description: Option<Seq<char>>,
    pub input_schema: serde_json::Value,
}

impl View for Tool {
    type V = ToolView;

    open spec fn view(&self) -> ToolView {
        ToolView {
            name: self.name@,
            description: match self.description {
                Some(d) => Some(d@),
                None => None,
            },
            input_schema: self.input_schema,
        }
    }
}

/// Result of a tool listing.
#[derive(Debug, Clone)]
pub struct ToolsListResult {
    pub tools: Vec<Tool>,
}

/// Parameters of a tool invocation.
#[derive(Debug, Clone)]
pub struct ToolCallParams {
    pub name: String,
    pub arguments: HashMap<String, serde_json::Value>,
}

/// Result of a tool invocation.
#[derive(Debug, Clone)]
pub struct ToolCallResult {
    pub content: Vec<ToolContent>,
    pub is_error: bool,
}

/// One content block of a tool result.
#[derive(Debug, Clone)]
pub enum ToolContent {
    Text { text: String },
    Image { data: String, mime_type: String },
    Resource { resource: ResourceContent },
}

/// A resource embedded in a tool result.
#[derive(Debug, Clone)]
pub struct ResourceContent {
    pub uri: String,
    pub mime_type: Option<String>,
    pub text: Option<String>,
    pub blob: Option<String>,
}

} // verus!
