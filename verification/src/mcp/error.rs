//! What can go wrong with a server.
use vstd::prelude::*;
use vstd::string::*;

use super::framing::FrameFault;
use super::types::JsonRpcError;
use crate::json::{opt_json, JsonView};
use crate::text::concat2;

verus! {

/// What can go wrong with a server.
#[derive(Debug)]
pub enum McpError {
    Transport(String),
    JsonRpc(JsonRpcError),
    Serialization(String),
    Protocol(String),
    NotInitialized,
    ToolNotFound(String),
    Server(String),
    Timeout,
    ConnectionClosed,
    Http(String),
    ProcessSpawn(String),
    Io(String),
}

/// What an `McpError` says.
pub enum McpErrorView {
    Transport(Seq<char>),
    JsonRpc { code: i64, message: Seq<char>, data: Option<JsonView> },
    Serialization(Seq<char>),
    Protocol(Seq<char>),
    NotInitialized,
    ToolNotFound(Seq<char>),
    Server(Seq<char>),
    Timeout,
    ConnectionClosed,
    Http(Seq<char>),
    ProcessSpawn(Seq<char>),
    Io(Seq<char>),
}

impl View for McpError {
    type V = McpErrorView;

    open spec fn view(&self) -> McpErrorView {
        match self {
            McpError::Transport(s) => McpErrorView::Transport(s@),
            McpError::JsonRpc(e) => McpErrorView::JsonRpc {
                code: e.code,
                message: e.message@,
                data: opt_json(e.data),
            },
            McpError::Serialization(s) => McpErrorView::Serialization(s@),
            McpError::Protocol(s) => McpErrorView::Protocol(s@),
            McpError::NotInitialized => McpErrorView::NotInitialized,
            McpError::ToolNotFound(s) => McpErrorView::ToolNotFound(s@),
            McpError::Server(s) => McpErrorView::Server(s@),
            McpError::Timeout => McpErrorView::Timeout,
            McpError::ConnectionClosed => McpErrorView::ConnectionClosed,
            McpError::Http(s) => McpErrorView::Http(s@),
            McpError::ProcessSpawn(s) => McpErrorView::ProcessSpawn(s@),
            McpError::Io(s) => McpErrorView::Io(s@),
        }
    }
}

impl McpErrorView {
    /// The error in words.
    pub open spec fn message(self) -> Seq<char> {
        match self {
            McpErrorView::Transport(s) => "Transport error: "@ + s,
            McpErrorView::JsonRpc { message, .. } => "JSON-RPC error: "@ + message,
            McpErrorView::Serialization(s) => "Serialization error: "@ + s,
            McpErrorView::Protocol(s) => "Protocol error: "@ + s,
            McpErrorView::NotInitialized => "Server not initialized"@,
            McpErrorView::ToolNotFound(s) => "Tool not found: "@ + s,
            McpErrorView::Server(s) => "Server error: "@ + s,
            McpErrorView::Timeout => "Operation timed out"@,
            McpErrorView::ConnectionClosed => "Connection closed"@,
            McpErrorView::Http(s) => "HTTP error: "@ + s,
            McpErrorView::ProcessSpawn(s) => "Failed to spawn process: "@ + s,
            McpErrorView::Io(s) => "IO error: "@ + s,
        }
    }
}

/// What comes of talking to a server.
pub type McpResult<T> = Result<T, McpError>;

impl McpError {
    /// The error in words.
    pub fn message(&self) -> (r: String)
        ensures
            r@ == self@.message(),
    {
        match self {
            McpError::Transport(s) => concat2("Transport error: ", s.as_str()),
            McpError::JsonRpc(e) => concat2("JSON-RPC error: ", e.message.as_str()),
            McpError::Serialization(s) => concat2("Serialization error: ", s.as_str()),
            McpError::Protocol(s) => concat2("Protocol error: ", s.as_str()),
            McpError::NotInitialized => "Server not initialized".to_owned(),
            McpError::ToolNotFound(s) => concat2("Tool not found: ", s.as_str()),
            McpError::Server(s) => concat2("Server error: ", s.as_str()),
            McpError::Timeout => "Operation timed out".to_owned(),
            McpError::ConnectionClosed => "Connection closed".to_owned(),
            McpError::Http(s) => concat2("HTTP error: ", s.as_str()),
            McpError::ProcessSpawn(s) => concat2("Failed to spawn process: ", s.as_str()),
            McpError::Io(s) => concat2("IO error: ", s.as_str()),
        }
    }

    /// The error when a request over HTTP does not get through.
    pub fn from_http(timed_out: bool, while_connecting: bool, reason: &str) -> (r: Self)
        ensures
            r@ == (if timed_out {
                McpErrorView::Timeout
            } else if while_connecting {
                McpErrorView::Transport("Connection failed: "@ + reason@)
            } else {
                McpErrorView::Http(reason@)
            }),
    {
        if timed_out {
            McpError::Timeout
        } else if while_connecting {
            McpError::Transport(concat2("Connection failed: ", reason))
        } else {
            McpError::Http(reason.to_owned())
        }
    }

    /// The error when a stream of messages is broken.
    pub fn from_frame(fault: FrameFault) -> (r: Self)
        ensures
            r@ == (match fault {
                FrameFault::InvalidLength => McpErrorView::Protocol("Invalid Content-Length"@),
                FrameFault::MissingLength => McpErrorView::Protocol(
                    "Missing Content-Length header"@,
                ),
                FrameFault::NotText => McpErrorView::Io("stream did not contain valid UTF-8"@),
                FrameFault::EarlyEnd => McpErrorView::Io("early eof"@),
            }),
    {
        match fault {
            FrameFault::InvalidLength => McpError::Protocol("Invalid Content-Length".to_owned()),
            FrameFault::MissingLength => McpError::Protocol(
                "Missing Content-Length header".to_owned(),
            ),
            FrameFault::NotText => McpError::Io("stream did not contain valid UTF-8".to_owned()),
            FrameFault::EarlyEnd => McpError::Io("early eof".to_owned()),
        }
    }
}

/// Errors say what went wrong in words of their own, and then what is known of it.
pub proof fn errors_say_what_went_wrong(s: Seq<char>, code: i64, data: Option<JsonView>)
    ensures
        McpErrorView::Transport(s).message() == "Transport error: "@ + s,
        (McpErrorView::JsonRpc { code, message: s, data }).message() == "JSON-RPC error: "@ + s,
        McpErrorView::Serialization(s).message() == "Serialization error: "@ + s,
        McpErrorView::Protocol(s).message() == "Protocol error: "@ + s,
        McpErrorView::NotInitialized.message() == "Server not initialized"@,
        McpErrorView::ToolNotFound(s).message() == "Tool not found: "@ + s,
        McpErrorView::Server(s).message() == "Server error: "@ + s,
        McpErrorView::Timeout.message() == "Operation timed out"@,
        McpErrorView::ConnectionClosed.message() == "Connection closed"@,
        McpErrorView::Http(s).message() == "HTTP error: "@ + s,
        McpErrorView::ProcessSpawn(s).message() == "Failed to spawn process: "@ + s,
        McpErrorView::Io(s).message() == "IO error: "@ + s,
{
}

} // verus!
