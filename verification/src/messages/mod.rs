//! The messages of the handshake and their form on the wire.
use crate::error::Error;
use vstd::prelude::*;

pub mod message;
pub mod verack;
pub mod version;

verus! {

/// A value that can be turned into the bytes of a network message.
pub trait ToNetworkMessage: Sized {
    /// What `to_network_message` returns for this value: the bytes, or the
    /// reason why there are none.
    spec fn network_message(self) -> Result<Seq<u8>, Error>;

    /// Turns the value into bytes that can be written to the peer.
    fn to_network_message(self) -> (result: Result<Vec<u8>, Error>)
        ensures
            match result {
                Ok(bytes) => self.network_message() == Ok::<Seq<u8>, Error>(bytes@),
                Err(e) => self.network_message() == Err::<Seq<u8>, Error>(e),
            },
    ;
}

} // verus!
