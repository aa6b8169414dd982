//! Error model: process-level errors, the three remote-call error kinds,
//! and the dispatch-layer errors that tool resolution can produce.
use vstd::prelude::*;
use vstd::string::*;

verus! {

/// Process-level errors.
#[derive(Debug)]
pub enum Error {
    Internal(String),
    Config(String),
    Aria2(String),
    Mcp(String),
}

impl Error {
    /// The error rendered for the caller, one fixed prefix per variant.
    pub fn message(&self) -> (r: String)
        ensures
            match self {
                Error::Internal(m) => r@ == "Internal error: "@ + m@,
                Error::Config(m) => r@ == "Configuration error: "@ + m@,
                Error::Aria2(m) => r@ == "Aria2 RPC error: "@ + m@,
                Error::Mcp(m) => r@ == "MCP error: "@ + m@,
            },
    {
        match self {
            Error::Internal(m) => String::from_str("Internal error: ").concat(m.as_str()),
            Error::Config(m) => String::from_str("Configuration error: ").concat(m.as_str()),
            Error::Aria2(m) => String::from_str("Aria2 RPC error: ").concat(m.as_str()),
            Error::Mcp(m) => String::from_str("MCP error: ").concat(m.as_str()),
        }
    }
}

/// What a remote call can come back with, beyond a result: the reply
/// never arrived, the backend answered with an error object (its message
/// passed through verbatim), or the reply had the wrong shape.
#[derive(Debug)]
pub enum RpcError {
    Transport(String),
    Remote(String),
    Protocol(String),
}

impl RpcError {
    /// The error rendered for the caller.
    pub fn message(&self) -> (r: String)
        ensures
            match self {
                RpcError::Transport(m) => r@ == "transport error: "@ + m@,
                RpcError::Remote(m) => r@ == "aria2 error: "@ + m@,
                RpcError::Protocol(m) => r@ == "protocol error: "@ + m@,
            },
    {
        match self {
            RpcError::Transport(m) => String::from_str("transport error: ").concat(m.as_str()),
            RpcError::Remote(m) => String::from_str("aria2 error: ").concat(m.as_str()),
            RpcError::Protocol(m) => String::from_str("protocol error: ").concat(m.as_str()),
        }
    }
}

/// What tool resolution and argument checking can refuse: an unknown or
/// disabled tool, an instance index past the pool, an action value the
/// tool does not know, or a required argument that is absent. Each
/// variant carries the detail the message names.
#[derive(Debug)]
pub enum ToolError {
    ToolNotFound(String),
    InvalidInstanceIndex(u64),
    InvalidAction(String),
    MissingArgument(String),
    UnknownProfile(String),
    ScheduleIndexOutOfBounds,
}

impl ToolError {
    /// The error rendered for the caller.
    pub fn message(&self) -> (r: String)
        ensures
            match self {
                ToolError::ToolNotFound(name) => r@ == "Tool not found: "@ + name@,
                ToolError::InvalidInstanceIndex(i) => r@ == "Invalid instance index: "@
                    + crate::strutil::dec_str(*i as nat),
                ToolError::InvalidAction(a) => r@ == "Unknown action: "@ + a@,
                ToolError::MissingArgument(m) => r@ == m@,
                ToolError::UnknownProfile(n) => r@ == "Profile '"@ + n@ + "' not found"@,
                ToolError::ScheduleIndexOutOfBounds => r@ == "Schedule index out of bounds"@,
            },
    {
        match self {
            ToolError::ToolNotFound(name) => String::from_str("Tool not found: ").concat(
                name.as_str(),
            ),
            ToolError::InvalidInstanceIndex(i) => {
                let digits = crate::strutil::u64_to_string(*i);
                String::from_str("Invalid instance index: ").concat(digits.as_str())
            },
            ToolError::InvalidAction(a) => String::from_str("Unknown action: ").concat(a.as_str()),
            ToolError::MissingArgument(m) => m.clone(),
            ToolError::UnknownProfile(n) => String::from_str("Profile '").concat(n.as_str())
                .concat("' not found"),
            ToolError::ScheduleIndexOutOfBounds => String::from_str(
                "Schedule index out of bounds",
            ),
        }
    }
}

} // verus!
