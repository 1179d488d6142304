//! Faults that end a connection.

use vstd::prelude::*;

verus! {

/// Why a connection was closed by the server.
///
/// Transport faults (`NetworkError`, `DecodeError`) are reported by the code
/// that reads the socket; protocol faults (`UsernameTaken`,
/// `InvalidUsername`) are decided here.
#[derive(Debug, Clone, Copy, PartialEq, Eq, Structural)]
pub enum ChatError {
    /// The transport failed while reading or writing.
    NetworkError,
    /// A received line was malformed or too long.
    DecodeError,
    /// Another registered connection already holds the requested name.
    UsernameTaken,
    /// The requested name breaks the length or character rule.
    InvalidUsername,
}

} // verus!
