//! JSON-RPC messages as this layer sees them: correlated responses whose
//! JSON payloads stay opaque text produced and consumed by a serializer.
use vstd::prelude::*;

verus! {

/// The correlation identifier that links a response to its request.
#[derive(Clone, Debug, PartialEq, Eq)]
pub enum Id {
    Null,
    Num(u64),
    Str(String),
}

/// The structured error object of a failed call.
#[derive(Clone, Debug, PartialEq, Eq)]
pub struct RpcError {
    pub code: i64,
    pub message: String,
    /// Optional extra data, as raw JSON text.
    pub data: Option<String>,
}

/// What a call produced: a result or an error, never both.
#[derive(Clone, Debug, PartialEq, Eq)]
pub enum Outcome {
    /// The result value, as raw JSON text.
    Success(String),
    Failure(RpcError),
}

/// The answer to one request, carrying back the request's identifier.
#[derive(Clone, Debug, PartialEq, Eq)]
pub struct Response {
    pub id: Id,
    pub outcome: Outcome,
}

/// The kinds of failure a transport reports.
#[derive(Clone, Copy, Debug, PartialEq, Eq)]
pub enum ErrorKind {
    /// The channel failed: connection lost, I/O fault, payload rejected.
    Transport,
    /// The payload could not be encoded or decoded.
    Serialization,
}

/// A failure to deliver responses, with its kind and a readable message.
#[derive(Clone, Debug, PartialEq, Eq)]
pub struct Error {
    pub kind: ErrorKind,
    pub message: String,
}

} // verus!
