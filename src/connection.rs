use crate::error::BridgeError;
use crate::protocol::{
    ClientCapabilities, ClientInfo, InitializeParams, JsonRpcResponse, BRIDGE_NAME,
    PROTOCOL_VERSION,
};
use vstd::prelude::*;
use vstd::string::*;

verus! {

/// Where a connection stands in its life.
#[derive(Debug, Clone, Copy, PartialEq, Eq, Structural)]
pub enum ConnectionState {
    /// The process runs; nothing has been exchanged yet.
    Spawned,
    /// The handshake has begun.
    Initializing,
    /// Handshake and tool listing are done: the connection takes calls.
    Ready,
    /// The connection is being shut down.
    ShuttingDown,
    /// The process has ended.
    Terminated,
}

/// What happens to a connection.
#[derive(Debug, Clone, Copy, PartialEq, Eq, Structural)]
pub enum LifeEvent {
    /// The handshake request is about to be sent.
    HandshakeStarted,
    /// A tool listing succeeded.
    ToolsListed,
    /// Shutdown has begun.
    ShutdownStarted,
    /// The process has ended, for whatever reason.
    ProcessEnded,
}

/// The state after `ev` in state `s`, or `None` when `ev` cannot happen there.
pub open spec fn spec_next_state(s: ConnectionState, ev: LifeEvent) -> Option<ConnectionState> {
    match ev {
        LifeEvent::HandshakeStarted => if s == ConnectionState::Spawned {
            Some(ConnectionState::Initializing)
        } else {
            None
        },
        LifeEvent::ToolsListed => if s == ConnectionState::Initializing || s == ConnectionState::Ready {
            Some(ConnectionState::Ready)
        } else {
            None
        },
        LifeEvent::ShutdownStarted => if s == ConnectionState::Terminated {
            None
        } else {
            Some(ConnectionState::ShuttingDown)
        },
        LifeEvent::ProcessEnded => Some(ConnectionState::Terminated),
    }
}

/// Whether an exchange may start in state `s`: the handshake only on a fresh
/// connection, the tool listing once the handshake has begun, and tool
/// invocations only when the connection is ready.
pub open spec fn spec_permits(s: ConnectionState, x: Exchange) -> bool {
    match x {
        Exchange::Initialize => s == ConnectionState::Spawned,
        Exchange::ListTools => s == ConnectionState::Initializing || s == ConnectionState::Ready,
        Exchange::CallTool => s == ConnectionState::Ready,
    }
}

/// The state after `ev` in state `s`, or `None` when `ev` cannot happen there.
pub fn next_state(s: ConnectionState, ev: LifeEvent) -> (r: Option<ConnectionState>)
    ensures
        r == spec_next_state(s, ev),
{
    match ev {
        LifeEvent::HandshakeStarted => match s {
            ConnectionState::Spawned => Some(ConnectionState::Initializing),
            _ => None,
        },
        LifeEvent::ToolsListed => match s {
            ConnectionState::Initializing | ConnectionState::Ready => Some(ConnectionState::Ready),
            _ => None,
        },
        LifeEvent::ShutdownStarted => match s {
            ConnectionState::Terminated => None,
            _ => Some(ConnectionState::ShuttingDown),
        },
        LifeEvent::ProcessEnded => Some(ConnectionState::Terminated),
    }
}

/// Whether exchange `x` may start in state `s`.
pub fn permits(s: ConnectionState, x: &Exchange) -> (r: bool)
    ensures
        r == spec_permits(s, *x),
{
    match x {
        Exchange::Initialize => match s {
            ConnectionState::Spawned => true,
            _ => false,
        },
        Exchange::ListTools => match s {
            ConnectionState::Initializing | ConnectionState::Ready => true,
            _ => false,
        },
        Exchange::CallTool => match s {
            ConnectionState::Ready => true,
            _ => false,
        },
    }
}

/// Every exchange but the handshake needs a connection whose handshake has
/// begun, and a tool invocation one that is ready; a connection becomes
/// ready only through a tool listing after the handshake, and a terminated
/// one never comes back.
pub proof fn lemma_lifecycle(s: ConnectionState, ev: LifeEvent)
    ensures
        spec_permits(s, Exchange::CallTool) ==> s == ConnectionState::Ready,
        spec_permits(s, Exchange::ListTools) ==> s != ConnectionState::Spawned,
        spec_next_state(s, ev) == Some(ConnectionState::Ready) ==> ev == LifeEvent::ToolsListed && (s
            == ConnectionState::Initializing || s == ConnectionState::Ready),
        s == ConnectionState::Terminated ==> spec_next_state(s, ev) is None || spec_next_state(s, ev)
            == Some(ConnectionState::Terminated),
{
}

/// The exchanges a connection has with its backend.
#[derive(Debug, Clone)]
pub enum Exchange {
    /// The handshake.
    Initialize,
    /// The tool listing.
    ListTools,
    /// A tool invocation.
    CallTool,
}

/// The method name a request of this exchange carries.
pub open spec fn exchange_method(x: Exchange) -> Seq<char> {
    match x {
        Exchange::Initialize => "initialize"@,
        Exchange::ListTools => "tools/list"@,
        Exchange::CallTool => "tools/call"@,
    }
}

/// The text of the error when the backend answers this exchange with an
/// error whose message is `m`.
pub open spec fn refused_text(x: Exchange, m: Seq<char>) -> Seq<char> {
    match x {
        Exchange::Initialize => "Initialize failed: "@ + m,
        _ => exchange_method(x) + " failed: "@ + m,
    }
}

/// The text of the error when the backend's answer holds no result.
pub open spec fn missing_result_text(x: Exchange) -> Seq<char> {
    "No result in "@ + exchange_method(x) + " response"@
}

/// The error `text` is reported as, for a reply to this exchange: a failed
/// handshake or listing is a handshake failure, a failed invocation a call
/// failure.
pub open spec fn reported(x: Exchange, e: BridgeError, text: Seq<char>) -> bool {
    match x {
        Exchange::CallTool => e matches BridgeError::BackendCallFailure(m) && m@ == text,
        _ => e matches BridgeError::HandshakeFailure(m) && m@ == text,
    }
}

/// The method name of a request of this exchange.
pub fn method_of(x: &Exchange) -> (r: &'static str)
    ensures
        r@ == exchange_method(*x),
{
    match x {
        Exchange::Initialize => "initialize",
        Exchange::ListTools => "tools/list",
        Exchange::CallTool => "tools/call",
    }
}

fn failure(x: &Exchange, text: String) -> (e: BridgeError)
    ensures
        reported(*x, e, text@),
{
    match x {
        Exchange::CallTool => BridgeError::BackendCallFailure(text),
        _ => BridgeError::HandshakeFailure(text),
    }
}

/// The result a backend's reply carries, or the error it reports: a reply
/// with an error object fails with that error's message, a reply without a
/// result fails too.
pub fn reply_result(x: &Exchange, reply: JsonRpcResponse) -> (r: Result<serde_json::Value, BridgeError>)
    ensures
        match reply.error {
            Some(e) => r matches Err(f) && reported(*x, f, refused_text(*x, e.message@)),
            None => match reply.result {
                Some(v) => r == Ok::<serde_json::Value, BridgeError>(v),
                None => r matches Err(f) && reported(*x, f, missing_result_text(*x)),
            },
        },
{
    match reply.error {
        Some(e) => {
            let mut text = match x {
                Exchange::Initialize => "Initialize failed: ".to_owned(),
                _ => {
                    let mut t = method_of(x).to_owned();
                    t.append(" failed: ");
                    t
                },
            };
            text.append(e.message.as_str());
            Err(failure(x, text))
        },
        None => match reply.result {
            Some(v) => Ok(v),
            None => {
                let mut text = "No result in ".to_owned();
                text.append(method_of(x));
                text.append(" response");
                Err(failure(x, text))
            },
        },
    }
}

/// The parameters of the handshake this bridge sends to each backend: the
/// protocol version, no client capabilities, and the bridge's identity
/// with the given version.
pub fn handshake_params(version: &str) -> (r: InitializeParams)
    ensures
        r.protocol_version@ == PROTOCOL_VERSION@,
        r.capabilities.roots is None,
        r.capabilities.sampling is None,
        r.client_info.name@ == BRIDGE_NAME@,
        r.client_info.version@ == version@,
{
    InitializeParams {
        protocol_version: PROTOCOL_VERSION.to_owned(),
        capabilities: ClientCapabilities { roots: None, sampling: None },
        client_info: ClientInfo { name: BRIDGE_NAME.to_owned(), version: version.to_owned() },
    }
}

} // verus!
