//! The failures a call can surface.

use vstd::prelude::*;

verus! {

/// Error code that peers use for a transport failure.
pub const TRANSPORT_ERROR_CODE: i32 = 500;

/// Error message that peers use for a transport failure.
pub const TRANSPORT_ERROR_MSG: &'static str = "Transport Error";

/// Every failure of a call, at whatever layer it arose.
#[derive(Debug)]
pub enum SearpcError {
    /// The peer answered with `err_code` and `err_msg`.
    RpcError { code: i32, message: String },
    /// The connection failed, or a frame broke the framing rules.
    TransportError(String),
    /// A request could not be written as JSON.
    JsonError(String),
    /// The reply was not UTF-8 or not a response object.
    InvalidResponse(String),
    /// The returned value does not have the shape the caller asked for.
    TypeError(String),
    /// An I/O failure outside a round trip.
    IoError(String),
    /// A missing or unreadable environment variable.
    EnvVarError(String),
}

/// What an error is, without the wording of its message.
pub enum ErrorKind {
    Remote { code: int, message: Seq<char> },
    Transport,
    Json,
    InvalidResponse,
    Type,
    Io,
    EnvVar,
}

/// How a call ended: with a value, or with a failure of some kind.
pub enum Outcome<T> {
    Value(T),
    Failure(ErrorKind),
}

/// The outcome that a result stands for, its value taken by its view.
pub open spec fn outcome<T: View>(result: Result<T, SearpcError>) -> Outcome<T::V> {
    match result {
        Ok(value) => Outcome::Value(value@),
        Err(error) => Outcome::Failure(error.kind()),
    }
}

impl SearpcError {
    /// The kind of this error; a remote error keeps its code and message.
    pub open spec fn kind(&self) -> ErrorKind {
        match self {
            SearpcError::RpcError { code, message } => ErrorKind::Remote {
                code: *code as int,
                message: message@,
            },
            SearpcError::TransportError(_) => ErrorKind::Transport,
            SearpcError::JsonError(_) => ErrorKind::Json,
            SearpcError::InvalidResponse(_) => ErrorKind::InvalidResponse,
            SearpcError::TypeError(_) => ErrorKind::Type,
            SearpcError::IoError(_) => ErrorKind::Io,
            SearpcError::EnvVarError(_) => ErrorKind::EnvVar,
        }
    }
}

} // verus!
