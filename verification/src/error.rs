//! The ways in which the protocol can fail.
use vstd::prelude::*;

verus! {

/// Why a message could not be built, read or understood.
///
/// Only `UnknownCommand` is recoverable: the message is skipped and the
/// handshake goes on. Every other variant ends the connection attempt.
#[derive(Clone, Copy, Debug, PartialEq, Eq, Structural)]
pub enum Error {
    /// The transport misbehaved: a read handed over more bytes than it was
    /// asked for.
    Transport,
    /// A header could not be decoded, or the stream did not supply the
    /// payload that the header announced.
    Framing,
    /// The command field of a header names no message that is known here.
    UnknownCommand,
    /// A message could not be encoded, or an encoded message could not be
    /// decoded again.
    Serialization,
    /// The operating system gave no random number for the nonce of the
    /// opening message.
    Entropy,
}

} // verus!
