//! The error a session ends with.

use vstd::prelude::*;

verus! {

/// The class of a failure, as the listener tells them apart.
#[derive(Clone, Copy, Debug, PartialEq, Eq, Structural)]
pub enum ErrorKind {
    /// The peer sent something that is no part of the protocol.
    InvalidData,
    /// The peer closed the connection.
    UnexpectedEof,
    /// Any other failure.
    Other,
}

/// A failure that ends a session: its class and a fixed text for the log.
#[derive(Clone, Copy, Debug, PartialEq, Eq)]
pub struct SessionError {
    pub kind: ErrorKind,
    pub message: &'static str,
}

/// The error of class `kind` that says `message`.
pub open spec fn error_of(kind: ErrorKind, message: &'static str) -> SessionError {
    SessionError { kind, message }
}

/// The error for a peer that breaks the protocol.
pub open spec fn protocol_error() -> SessionError {
    error_of(ErrorKind::InvalidData, "protocol error")
}

/// A failure of class `Other` that says `msg`.
pub fn io_error(msg: &'static str) -> (error: SessionError)
    ensures
        error == error_of(ErrorKind::Other, msg),
{
    SessionError { kind: ErrorKind::Other, message: msg }
}

/// A failure of class `InvalidData` that says `msg`.
pub fn invalid_data(msg: &'static str) -> (error: SessionError)
    ensures
        error == error_of(ErrorKind::InvalidData, msg),
{
    SessionError { kind: ErrorKind::InvalidData, message: msg }
}

/// The failure for a peer that breaks the protocol.
pub fn unexpected() -> (error: SessionError)
    ensures
        error == protocol_error(),
{
    invalid_data("protocol error")
}

} // verus!
