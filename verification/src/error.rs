//! The error taxonomy of the client. Every fallible step of the transport
//! returns one of these classified values; nothing panics on a network or
//! parse fault.

use vstd::prelude::*;
use vstd::string::StringExecFns;

verus! {

/// A classified transport failure.
///
/// - `ConnectionError`: the connection could not be opened, or the write
///   failed.
/// - `SerializationError`: the envelope could not be encoded to JSON, or the
///   response body could not be decoded from JSON.
/// - `ResponseError`: the read failed after a successful connection.
/// - `InvalidResponse`: bytes arrived, but no header/body separator was
///   found in them.
#[derive(Debug)]
pub enum JsonRpcError {
    ConnectionError(String),
    SerializationError(String),
    ResponseError(String),
    InvalidResponse,
}

impl JsonRpcError {
    /// A human-readable description of the failure.
    pub fn describe(&self) -> (r: String)
        ensures
            r@ == match self {
                JsonRpcError::ConnectionError(m) => "Connection error: "@ + m@,
                JsonRpcError::SerializationError(m) => "Serialization error: "@ + m@,
                JsonRpcError::ResponseError(m) => "Response error: "@ + m@,
                JsonRpcError::InvalidResponse => "Invalid response format"@,
            },
    {
        match self {
            JsonRpcError::ConnectionError(m) => {
                let mut r = String::from_str("Connection error: ");
                r.append(m.as_str());
                r
            },
            JsonRpcError::SerializationError(m) => {
                let mut r = String::from_str("Serialization error: ");
                r.append(m.as_str());
                r
            },
            JsonRpcError::ResponseError(m) => {
                let mut r = String::from_str("Response error: ");
                r.append(m.as_str());
                r
            },
            JsonRpcError::InvalidResponse => String::from_str("Invalid response format"),
        }
    }
}

} // verus!
