//! A verified core for the Model Context Protocol: JSON-RPC message values,
//! error codes, and the decisions of MCP clients, servers and transports.
//! Each decision is a function from a state and an event to the next state
//! and an action; the I/O that performs the actions lives outside this crate.
pub mod client;
pub mod error;
pub mod json;
pub mod protocol;
pub mod server;
mod text;
pub mod transport;

pub use error::{Error, ErrorCode};
pub use protocol::{JSONRPC_VERSION, LATEST_PROTOCOL_VERSION, SUPPORTED_PROTOCOL_VERSIONS};
