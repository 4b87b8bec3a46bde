//! The opening handshake of a Bitcoin-style peer-to-peer connection.
//!
//! The crate holds the parts of the handshake that can be reasoned about
//! without touching a socket: the byte layout of the two messages involved
//! (`version` and `verack`), the reader that cuts a byte stream into
//! messages, and the state machine that decides what to send and when the
//! handshake is complete. Reading from and writing to the transport is left
//! to the caller, who feeds the bytes in and sends the bytes that come out.
pub mod config;
pub mod error;
pub mod handshake;
pub mod message_reader;
pub mod messages;
pub mod sha256;
pub mod system;
pub mod wire;
