//! Transport-agnostic JSON-RPC server support: a server owns one transport
//! over which responses are delivered, and mints fresh request identifiers.
pub mod message;
pub mod server;
