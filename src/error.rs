use vstd::prelude::*;

verus! {

/// The ways in which work with backends can fail.
#[derive(Debug, Clone)]
pub enum BridgeError {
    /// The backend process could not be launched.
    SpawnFailure(String),
    /// The backend answered the handshake or a listing with an error or a
    /// result of the wrong shape.
    HandshakeFailure(String),
    /// No response came before the deadline.
    Timeout,
    /// The backend's output ended while the request was pending.
    ConnectionClosed,
    /// A composite tool name without the separator.
    InvalidToolName(String),
    /// A composite tool name whose backend is not connected.
    BackendNotFound(String),
    /// The backend answered a tool invocation with an error or a result of
    /// the wrong shape.
    BackendCallFailure(String),
}

/// The human-readable text of an error.
pub open spec fn error_text(e: BridgeError) -> Seq<char> {
    match e {
        BridgeError::SpawnFailure(m) => m@,
        BridgeError::HandshakeFailure(m) => m@,
        BridgeError::Timeout => "Request timeout"@,
        BridgeError::ConnectionClosed => "Response channel closed"@,
        BridgeError::InvalidToolName(n) => "Invalid tool name format: "@ + n@,
        BridgeError::BackendNotFound(n) => "MCP server '"@ + n@ + "' not connected"@,
        BridgeError::BackendCallFailure(m) => m@,
    }
}

impl BridgeError {
    /// The human-readable text of this error.
    pub fn message(&self) -> (r: String)
        ensures
            r@ == error_text(*self),
    {
        match self {
            BridgeError::SpawnFailure(m) => m.clone(),
            BridgeError::HandshakeFailure(m) => m.clone(),
            BridgeError::Timeout => "Request timeout".to_owned(),
            BridgeError::ConnectionClosed => "Response channel closed".to_owned(),
            BridgeError::InvalidToolName(n) => {
                let mut r = "Invalid tool name format: ".to_owned();
                r.append(n.as_str());
                r
            },
            BridgeError::BackendNotFound(n) => {
                let mut r = "MCP server '".to_owned();
                r.append(n.as_str());
                r.append("' not connected");
                r
            },
            BridgeError::BackendCallFailure(m) => m.clone(),
        }
    }
}

} // verus!
