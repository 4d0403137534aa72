//! A client-side engine for the Model Context Protocol: the JSON-RPC message
//! envelope, its framing over a byte stream, and the session logic that
//! pairs each response with the request that waits for it.

use vstd::prelude::*;

pub mod builder;
pub mod chat;
pub mod client;
pub mod config;
pub mod diagnostics;
pub mod error;
pub mod json;
pub mod json_text;
pub mod manager;
pub mod message;
pub mod protocol;
pub mod resources;
pub mod stdio;
pub mod text;
pub mod types;

pub use crate::builder::ClientBuilder;
pub use crate::chat::ChatState;
pub use crate::client::Client;
pub use crate::config::{Config, MCPServerConfig};
pub use crate::error::{ClientError, ErrorCode};
pub use crate::message::Message;
pub use crate::protocol::{Notification, Request, RequestId, Response};

verus! {

/// The protocol revision this client announces when it initializes a session.
pub const LATEST_PROTOCOL_VERSION: &'static str = "2024-11-05";

/// An older protocol revision that this client still understands.
pub const PREVIOUS_PROTOCOL_VERSION: &'static str = "2024-10-07";

/// The protocol revisions that this client understands, the latest first.
pub fn supported_protocol_versions() -> (versions: Vec<&'static str>)
    ensures
        versions@.len() == 2,
        versions@[0]@ == "2024-11-05"@,
        versions@[1]@ == "2024-10-07"@,
{
    let mut versions: Vec<&'static str> = Vec::new();
    versions.push(LATEST_PROTOCOL_VERSION);
    versions.push(PREVIOUS_PROTOCOL_VERSION);
    versions
}

/// The JSON-RPC version tag carried by every message.
pub const JSONRPC_VERSION: &'static str = "2.0";

/// The sum of two numbers whose sum fits in 64 bits.
pub fn add(left: u64, right: u64) -> (sum: u64)
    requires
        left + right <= u64::MAX,
    ensures
        sum == left + right,
{
    left + right
}

} // verus!
