//! The `verack` message, which acknowledges a `version` message and has no
//! payload.
use crate::error::Error;
use crate::messages::message::MessageCommand;
use crate::messages::message::MessageHeader;
use crate::messages::message::MessageMagicNumber;
use crate::messages::message::SerializedBitcoinMessage;
use vstd::prelude::*;
use vstd::std_specs::convert::TryFromSpecImpl;

verus! {

/// What is needed to put together a `verack` message.
#[derive(Clone, Copy, Debug, PartialEq, Eq)]
pub struct VerackMessageBuilder {
    /// The network on which the message is sent.
    pub magic_number: MessageMagicNumber,
    /// The kind of the message, `MessageCommand::Verack` unless changed.
    pub command: MessageCommand,
}

impl VerackMessageBuilder {
    /// The header of the message that is built: it announces no payload.
    pub open spec fn header(self) -> MessageHeader {
        SerializedBitcoinMessage::header_for(self.command, Seq::empty(), self.magic_number)
    }

    /// Starts a `verack` message on the network `magic_number`.
    pub fn new(magic_number: MessageMagicNumber) -> (builder: VerackMessageBuilder)
        ensures
            builder == (VerackMessageBuilder { magic_number, command: MessageCommand::Verack }),
    {
        VerackMessageBuilder { magic_number, command: MessageCommand::Verack }
    }
}

impl TryFrom<VerackMessageBuilder> for SerializedBitcoinMessage {
    type Error = Error;

    /// Builds the message: a header and no payload. This always succeeds.
    fn try_from(value: VerackMessageBuilder) -> (result: Result<SerializedBitcoinMessage, Error>)
        ensures
            result matches Ok(serialized) && serialized.header@ == value.header().wire_bytes()
                && serialized.message@ == Seq::<u8>::empty(),
    {
        SerializedBitcoinMessage::build(value.command, Vec::new(), value.magic_number)
    }
}

impl TryFromSpecImpl<VerackMessageBuilder> for SerializedBitcoinMessage {
    /// Ghost code cannot write down a value that holds a `Vec`, so
    /// `try_from` states its result itself, over the bytes of the two parts.
    open spec fn obeys_try_from_spec() -> bool {
        false
    }

    open spec fn try_from_spec(value: VerackMessageBuilder) -> Result<
        SerializedBitcoinMessage,
        Error,
    > {
        arbitrary()
    }
}

} // verus!
