//! Core of a line-oriented chat relay: the message model, user name rules,
//! the registry of connected peers with its broadcast fan-out, and the
//! life cycle of one connection.
//!
//! Everything here is synchronous and free of I/O. The surrounding server
//! feeds lines in and writes rendered messages out.

pub mod error;
pub mod server;

pub use error::ChatError;
