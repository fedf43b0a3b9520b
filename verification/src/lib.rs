//! Core logic of a small terminal WebSocket chat client.
//!
//! The library holds everything that can be stated and proved: how a chunk
//! of console input becomes an outbound message (or none), what the outbound
//! message queue contains after a sequence of inputs, how an inbound frame is
//! rendered for the terminal, and how the command-line arguments become a
//! session configuration. The surrounding process (sockets, stdin, stdout)
//! drives these functions from outside.

pub mod config;
pub mod inbound;
pub mod message;
pub mod render;
pub mod text;
