//! What a handshake is configured with.
use crate::messages::message::MessageMagicNumber;
use vstd::prelude::*;

verus! {

/// The configuration of a handshake: whom to connect to, and on which
/// network.
#[derive(Clone, Debug, PartialEq, Eq)]
pub struct Config {
    /// The destination address to connect to, as text.
    pub dest_addr: String,
    /// The network on which the peer is expected to be.
    pub network_type: MessageMagicNumber,
}

} // verus!
