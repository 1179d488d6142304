//! The chat room: messages, peers, the registry and the connection handler.

pub mod fanout;
pub mod laws;
pub mod mailbox;
pub mod message;
pub mod network;
pub mod registry;
pub mod state;
pub mod user;
