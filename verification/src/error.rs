//! The error type shared by the platform's components.

use vstd::prelude::*;

verus! {

/// Errors raised across the platform, one variant per failing subsystem.
#[derive(Debug, Clone, PartialEq, Eq)]
pub enum NexaError {
    /// System-level errors
    System(String),
    /// Configuration errors
    Config(String),
    /// I/O errors
    Io(String),
    /// JSON serialization/deserialization errors
    Json(String),
    /// Server errors
    Server(String),
    /// Protocol errors
    Protocol(String),
    /// WebSocket errors
    WebSocket(String),
    /// YAML errors
    Yaml(String),
    /// Control errors
    Control(String),
    /// Agent-related errors
    Agent(String),
    /// LLM-related errors
    LLMError(String),
    /// LLM connection errors
    LLMConnection(String),
    /// LLM response parsing errors
    LLMResponse(String),
    /// LLM rate limit errors
    LLMRateLimit(String),
    /// LLM token limit errors
    LLMTokenLimit(String),
    /// Cluster errors
    Cluster(String),
    /// Memory allocation errors
    Memory(String),
    /// Resource errors
    Resource(String),
}

impl NexaError {
    /// A protocol error carrying `msg`.
    pub fn protocol(msg: String) -> (e: NexaError)
        ensures
            e == NexaError::Protocol(msg),
    {
        NexaError::Protocol(msg)
    }

    /// An agent error carrying `msg`.
    pub fn agent(msg: String) -> (e: NexaError)
        ensures
            e == NexaError::Agent(msg),
    {
        NexaError::Agent(msg)
    }

    /// A system error carrying `msg`.
    pub fn system(msg: String) -> (e: NexaError)
        ensures
            e == NexaError::System(msg),
    {
        NexaError::System(msg)
    }

    /// A configuration error carrying `msg`.
    pub fn config(msg: String) -> (e: NexaError)
        ensures
            e == NexaError::Config(msg),
    {
        NexaError::Config(msg)
    }

    /// A cluster error carrying `msg`.
    pub fn cluster(msg: String) -> (e: NexaError)
        ensures
            e == NexaError::Cluster(msg),
    {
        NexaError::Cluster(msg)
    }
}

/// The text of an error: what failed, then its message.
pub open spec fn error_text(e: NexaError) -> Seq<char> {
    match e {
        NexaError::System(m) => "System error: "@ + m@,
        NexaError::Config(m) => "Configuration error: "@ + m@,
        NexaError::Io(m) => "IO error: "@ + m@,
        NexaError::Json(m) => "JSON error: "@ + m@,
        NexaError::Server(m) => "Server error: "@ + m@,
        NexaError::Protocol(m) => "Protocol error: "@ + m@,
        NexaError::WebSocket(m) => "WebSocket error: "@ + m@,
        NexaError::Yaml(m) => "YAML error: "@ + m@,
        NexaError::Control(m) => "Control error: "@ + m@,
        NexaError::Agent(m) => "Agent error: "@ + m@,
        NexaError::LLMError(m) => "LLM error: "@ + m@,
        NexaError::LLMConnection(m) => "LLM connection error: "@ + m@,
        NexaError::LLMResponse(m) => "LLM response error: "@ + m@,
        NexaError::LLMRateLimit(m) => "LLM rate limit error: "@ + m@,
        NexaError::LLMTokenLimit(m) => "LLM token limit error: "@ + m@,
        NexaError::Cluster(m) => "Cluster error: "@ + m@,
        NexaError::Memory(m) => "Memory error: "@ + m@,
        NexaError::Resource(m) => "Resource error: "@ + m@,
    }
}

impl NexaError {
    /// The text of the error, as [`error_text`] gives it.
    pub fn message(&self) -> (r: String)
        ensures
            r@ == error_text(*self),
    {
        let (prefix, m) = match self {
            NexaError::System(m) => ("System error: ", m),
            NexaError::Config(m) => ("Configuration error: ", m),
            NexaError::Io(m) => ("IO error: ", m),
            NexaError::Json(m) => ("JSON error: ", m),
            NexaError::Server(m) => ("Server error: ", m),
            NexaError::Protocol(m) => ("Protocol error: ", m),
            NexaError::WebSocket(m) => ("WebSocket error: ", m),
            NexaError::Yaml(m) => ("YAML error: ", m),
            NexaError::Control(m) => ("Control error: ", m),
            NexaError::Agent(m) => ("Agent error: ", m),
            NexaError::LLMError(m) => ("LLM error: ", m),
            NexaError::LLMConnection(m) => ("LLM connection error: ", m),
            NexaError::LLMResponse(m) => ("LLM response error: ", m),
            NexaError::LLMRateLimit(m) => ("LLM rate limit error: ", m),
            NexaError::LLMTokenLimit(m) => ("LLM token limit error: ", m),
            NexaError::Cluster(m) => ("Cluster error: ", m),
            NexaError::Memory(m) => ("Memory error: ", m),
            NexaError::Resource(m) => ("Resource error: ", m),
        };
        let mut r = crate::text::owned(prefix);
        crate::text::push_str(&mut r, m.as_str());
        r
    }
}

/// How an HTTP request to an LLM server failed, as the client reports it.
#[derive(Debug, Clone, Copy, PartialEq, Eq, Structural)]
pub struct HttpFailure {
    pub timeout: bool,
    pub connect: bool,
    pub body: bool,
    pub decode: bool,
}

/// The error for a failed HTTP request whose description is `detail`: a timeout, a
/// refused connection, a bad body and an undecodable reply each get a fixed message,
/// tried in that order; anything else quotes the description.
pub fn http_error(f: HttpFailure, detail: String) -> (e: NexaError)
    ensures
        f.timeout ==> (e matches NexaError::LLMResponse(m) && m@ == "Request timed out"@),
        !f.timeout && f.connect ==> (e matches NexaError::LLMConnection(m) && m@
            == "Failed to connect to LLM server"@),
        !f.timeout && !f.connect && f.body ==> (e matches NexaError::LLMResponse(m) && m@
            == "Invalid response body"@),
        !f.timeout && !f.connect && !f.body && f.decode ==> (e matches NexaError::LLMResponse(m)
            && m@ == "Failed to decode response"@),
        !f.timeout && !f.connect && !f.body && !f.decode ==> e == NexaError::LLMError(detail),
{
    if f.timeout {
        NexaError::LLMResponse(crate::text::owned("Request timed out"))
    } else if f.connect {
        NexaError::LLMConnection(crate::text::owned("Failed to connect to LLM server"))
    } else if f.body {
        NexaError::LLMResponse(crate::text::owned("Invalid response body"))
    } else if f.decode {
        NexaError::LLMResponse(crate::text::owned("Failed to decode response"))
    } else {
        NexaError::LLMError(detail)
    }
}

/// How a WebSocket exchange failed.
#[derive(Debug, Clone)]
pub enum WebSocketFailure {
    /// The peer broke the protocol, as described.
    Protocol(String),
    /// Reading or writing failed, as described.
    Io(String),
    /// The connection was closed.
    ConnectionClosed,
    /// Anything else, as described.
    Other(String),
}

/// The error for a failed WebSocket exchange.
pub fn websocket_error(f: WebSocketFailure) -> (e: NexaError)
    ensures
        match f {
            WebSocketFailure::Protocol(m) => e == NexaError::Protocol(m),
            WebSocketFailure::Io(m) => e == NexaError::Io(m),
            WebSocketFailure::ConnectionClosed => e matches NexaError::WebSocket(m) && m@
                == "Connection closed"@,
            WebSocketFailure::Other(m) => e == NexaError::WebSocket(m),
        },
{
    match f {
        WebSocketFailure::Protocol(m) => NexaError::Protocol(m),
        WebSocketFailure::Io(m) => NexaError::Io(m),
        WebSocketFailure::ConnectionClosed => NexaError::WebSocket(crate::text::owned("Connection closed")),
        WebSocketFailure::Other(m) => NexaError::WebSocket(m),
    }
}

impl From<String> for NexaError {
    fn from(s: String) -> (e: NexaError) {
        NexaError::System(s)
    }
}

impl vstd::std_specs::convert::FromSpecImpl<String> for NexaError {
    open spec fn obeys_from_spec() -> bool {
        true
    }

    open spec fn from_spec(s: String) -> NexaError {
        NexaError::System(s)
    }
}

/// A system error whose message is the given text.
pub fn system_error(msg: &str) -> (e: NexaError)
    ensures
        e matches NexaError::System(m) && m@ == msg@,
{
    NexaError::System(crate::text::owned(msg))
}

} // verus!
