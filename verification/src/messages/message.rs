//! Framing: the network magic, the command names, the header and the
//! checksum, and the pair of byte strings that is ready to be sent.
use crate::error::Error;
use crate::messages::verack::VerackMessageBuilder;
use crate::messages::version::VersionMessageBuilder;
use crate::messages::ToNetworkMessage;
use crate::sha256::sha256;
use crate::sha256::sha256_digest;
use crate::wire::get_u32;
use crate::wire::le_u16;
use crate::wire::le_u32;
use crate::wire::lemma_u32_read_back;
use crate::wire::lemma_u32_written_back;
use crate::wire::put_bytes;
use crate::wire::put_u32;
use crate::wire::u16_le;
use crate::wire::u32_le;
use vstd::prelude::*;
use vstd::std_specs::convert::FromSpecImpl;
use vstd::std_specs::convert::TryFromSpecImpl;

verus! {

/// Length of a message header in bytes.
pub const HEADER_SIZE: usize = 24;

/// Length of the command field of a header in bytes.
pub const COMMAND_SIZE: usize = 12;

/// The checksum of a payload of no bytes, as a header field. It is written
/// to the wire as `5D F6 E0 E2`.
pub const EMPTY_PAYLOAD_CHECKSUM: u32 = 0xE2E0_F65D;

/// The network that a message belongs to.
#[derive(Clone, Copy, Debug, PartialEq, Eq, Structural)]
pub enum MessageMagicNumber {
    Main,
    Testnet,
    Signet,
    Regtest,
}

impl MessageMagicNumber {
    /// The four bytes that open every message of the network, in the order
    /// in which they are sent.
    pub open spec fn bytes(self) -> [u8; 4] {
        match self {
            MessageMagicNumber::Main => [0xF9u8, 0xBEu8, 0xB4u8, 0xD9u8],
            MessageMagicNumber::Testnet => [0x0Bu8, 0x11u8, 0x09u8, 0x07u8],
            MessageMagicNumber::Signet => [0x0Au8, 0x03u8, 0xCFu8, 0x40u8],
            MessageMagicNumber::Regtest => [0xFAu8, 0xBFu8, 0xB5u8, 0xDAu8],
        }
    }
}

impl From<MessageMagicNumber> for [u8; 4] {
    /// The magic of the network `value`.
    fn from(value: MessageMagicNumber) -> (magic: [u8; 4]) {
        let magic: [u8; 4] = match value {
            MessageMagicNumber::Main => [0xF9, 0xBE, 0xB4, 0xD9],
            MessageMagicNumber::Testnet => [0x0B, 0x11, 0x09, 0x07],
            MessageMagicNumber::Signet => [0x0A, 0x03, 0xCF, 0x40],
            MessageMagicNumber::Regtest => [0xFA, 0xBF, 0xB5, 0xDA],
        };
        assert(magic =~= value.bytes());
        magic
    }
}

impl FromSpecImpl<MessageMagicNumber> for [u8; 4] {
    open spec fn obeys_from_spec() -> bool {
        true
    }

    open spec fn from_spec(value: MessageMagicNumber) -> [u8; 4] {
        value.bytes()
    }
}

/// The kind of a message.
#[derive(Clone, Copy, Debug, PartialEq, Eq, Structural)]
pub enum MessageCommand {
    Version,
    Verack,
}

impl MessageCommand {
    /// The command field of a header of this kind: the name in ASCII,
    /// filled up with zero bytes.
    pub open spec fn bytes(self) -> [u8; 12] {
        match self {
            MessageCommand::Version => [
                0x76u8,
                0x65u8,
                0x72u8,
                0x73u8,
                0x69u8,
                0x6Fu8,
                0x6Eu8,
                0u8,
                0u8,
                0u8,
                0u8,
                0u8,
            ],
            MessageCommand::Verack => [
                0x76u8,
                0x65u8,
                0x72u8,
                0x61u8,
                0x63u8,
                0x6Bu8,
                0u8,
                0u8,
                0u8,
                0u8,
                0u8,
                0u8,
            ],
        }
    }

    /// The kind of message that a command field names, if it names one.
    pub open spec fn named_by(field: Seq<u8>) -> Result<MessageCommand, Error> {
        if field == MessageCommand::Version.bytes()@ {
            Ok(MessageCommand::Version)
        } else if field == MessageCommand::Verack.bytes()@ {
            Ok(MessageCommand::Verack)
        } else {
            Err(Error::UnknownCommand)
        }
    }
}

impl From<MessageCommand> for [u8; 12] {
    /// The command field for messages of the kind `value`.
    fn from(value: MessageCommand) -> (field: [u8; 12]) {
        let field: [u8; 12] = match value {
            MessageCommand::Version => [0x76, 0x65, 0x72, 0x73, 0x69, 0x6F, 0x6E, 0, 0, 0, 0, 0],
            MessageCommand::Verack => [0x76, 0x65, 0x72, 0x61, 0x63, 0x6B, 0, 0, 0, 0, 0, 0],
        };
        assert(field =~= value.bytes());
        field
    }
}

impl FromSpecImpl<MessageCommand> for [u8; 12] {
    open spec fn obeys_from_spec() -> bool {
        true
    }

    open spec fn from_spec(value: MessageCommand) -> [u8; 12] {
        value.bytes()
    }
}

/// Whether two byte strings hold the same bytes.
fn same_bytes(a: &[u8], b: &[u8]) -> (same: bool)
    ensures
        same == (a@ == b@),
{
    if a.len() != b.len() {
        return false;
    }
    let mut i: usize = 0;
    while i < a.len()
        invariant
            a@.len() == b@.len(),
            i <= a@.len(),
            a@.subrange(0, i as int) == b@.subrange(0, i as int),
        decreases a@.len() - i,
    {
        if a[i] != b[i] {
            return false;
        }
        i += 1;
        assert(a@.subrange(0, i as int) =~= a@.subrange(0, i - 1).push(a@[i - 1]));
        assert(b@.subrange(0, i as int) =~= b@.subrange(0, i - 1).push(b@[i - 1]));
    }
    assert(a@ =~= a@.subrange(0, i as int));
    assert(b@ =~= b@.subrange(0, i as int));
    true
}

impl TryFrom<[u8; 12]> for MessageCommand {
    type Error = Error;

    /// Looks the command field up among the known commands. A field that
    /// matches none of them is reported as `UnknownCommand`; the caller is
    /// expected to skip such a message.
    fn try_from(field: [u8; 12]) -> (command: Result<MessageCommand, Error>) {
        let version: [u8; 12] = MessageCommand::Version.into();
        let verack: [u8; 12] = MessageCommand::Verack.into();
        if same_bytes(field.as_slice(), version.as_slice()) {
            Ok(MessageCommand::Version)
        } else if same_bytes(field.as_slice(), verack.as_slice()) {
            Ok(MessageCommand::Verack)
        } else {
            Err(Error::UnknownCommand)
        }
    }
}

impl TryFromSpecImpl<[u8; 12]> for MessageCommand {
    open spec fn obeys_try_from_spec() -> bool {
        true
    }

    open spec fn try_from_spec(field: [u8; 12]) -> Result<MessageCommand, Error> {
        MessageCommand::named_by(field@)
    }
}

/// Every command is found again from its own command field.
pub proof fn lemma_command_round_trip(command: MessageCommand)
    ensures
        MessageCommand::named_by(command.bytes()@) == Ok::<MessageCommand, Error>(command),
{
    assert(MessageCommand::Version.bytes()@[3] == 0x73);
    assert(MessageCommand::Verack.bytes()@[3] == 0x61);
}

/// A command field names a command only if it is that command's field;
/// every other field is an unknown command.
pub proof fn lemma_command_lookup_is_exact(field: Seq<u8>)
    ensures
        MessageCommand::named_by(field) matches Ok(command) ==> field == command.bytes()@,
        MessageCommand::named_by(field) matches Err(e) ==> e == Error::UnknownCommand
            && field != MessageCommand::Version.bytes()@ && field
            != MessageCommand::Verack.bytes()@,
{
}

/// The 16-bit number whose little-endian bytes are the big-endian bytes of
/// `x`: the two bytes of `x` change places.
pub open spec fn htons_spec(x: u16) -> u16 {
    le_u16(u16_le(x).reverse())
}

/// The 32-bit number whose little-endian bytes are the big-endian bytes of
/// `x`: the four bytes of `x` come in the opposite order.
pub open spec fn htonl_spec(x: u32) -> u32 {
    le_u32(u32_le(x).reverse())
}

/// Puts a 16-bit number into network byte order: written little-endian, as
/// every field of a message is, the result shows the bytes of `x` with the
/// most significant first.
pub fn htons(x: u16) -> (swapped: u16)
    ensures
        swapped == htons_spec(x),
        u16_le(swapped) == u16_le(x).reverse(),
{
    let swapped: u16 = (x % 256) * 0x100 + x / 256;
    assert(u16_le(swapped) =~= u16_le(x).reverse());
    swapped
}

/// Puts a 32-bit number into network byte order: written little-endian, as
/// every field of a message is, the result shows the bytes of `x` with the
/// most significant first.
pub fn htonl(x: u32) -> (swapped: u32)
    ensures
        swapped == htonl_spec(x),
        u32_le(swapped) == u32_le(x).reverse(),
{
    let swapped: u32 = (x % 256) * 0x100_0000 + (x / 0x100 % 256) * 0x1_0000 + (x / 0x1_0000
        % 256) * 0x100 + x / 0x100_0000;
    proof {
        lemma_u32_written_back(u32_le(x).reverse());
    }
    swapped
}

/// The number that the first four bytes of `s` encode when the most
/// significant byte comes first.
pub open spec fn be_u32(s: Seq<u8>) -> u32
    recommends
        s.len() >= 4,
{
    (0x100_0000 * s[0] + 0x1_0000 * s[1] + 0x100 * s[2] + s[3]) as u32
}

/// The checksum that a digest gives: its first four bytes, read as a
/// big-endian number and put into network byte order.
pub open spec fn digest_checksum(digest: Seq<u8>) -> u32
    recommends
        digest.len() >= 4,
{
    htonl_spec(be_u32(digest))
}

/// The checksum of a payload: SHA-256 applied twice, then `digest_checksum`.
pub open spec fn payload_checksum(payload: Seq<u8>) -> u32 {
    digest_checksum(sha256_digest(sha256_digest(payload)))
}

/// Turns a digest into the checksum field of a header.
pub fn checksum_from_digest(digest: &[u8; 32]) -> (checksum: u32)
    ensures
        checksum == digest_checksum(digest@),
        u32_le(checksum) == digest@.subrange(0, 4),
{
    let value: u32 = 0x100_0000 * (digest[0] as u32) + 0x1_0000 * (digest[1] as u32) + 0x100 * (
    digest[2] as u32) + digest[3] as u32;
    proof {
        lemma_checksum_on_the_wire(digest@);
    }
    htonl(value)
}

/// Computes the checksum of a payload: the payload is hashed with SHA-256,
/// the digest is hashed again, and the first four bytes of the second
/// digest become the checksum.
pub fn calc_checksum(payload: &[u8]) -> (checksum: u32)
    ensures
        checksum == payload_checksum(payload@),
{
    let first = sha256(payload);
    let second = sha256(first.as_slice());
    checksum_from_digest(&second)
}

/// On the wire a checksum is the first four bytes of the digest it was made
/// from, unchanged and in their order.
pub proof fn lemma_checksum_on_the_wire(digest: Seq<u8>)
    requires
        digest.len() >= 4,
    ensures
        u32_le(digest_checksum(digest)) == digest.subrange(0, 4),
{
    let value = be_u32(digest);
    lemma_u32_written_back(digest.subrange(0, 4).reverse());
    assert(value == le_u32(digest.subrange(0, 4).reverse()));
    lemma_u32_written_back(u32_le(value).reverse());
    assert(u32_le(value).reverse() =~= digest.subrange(0, 4));
}

/// The checksum of the empty payload is the network form of `0x5DF6E0E2`
/// and reaches the wire as `5D F6 E0 E2`.
pub proof fn lemma_empty_payload_checksum()
    ensures
        EMPTY_PAYLOAD_CHECKSUM == htonl_spec(0x5DF6_E0E2),
        u32_le(EMPTY_PAYLOAD_CHECKSUM) == seq![0x5Du8, 0xF6u8, 0xE0u8, 0xE2u8],
{
    assert(u32_le(EMPTY_PAYLOAD_CHECKSUM) =~= seq![0x5Du8, 0xF6u8, 0xE0u8, 0xE2u8]);
    assert(u32_le(0x5DF6_E0E2).reverse() =~= seq![0x5Du8, 0xF6u8, 0xE0u8, 0xE2u8]);
}

/// The 24 bytes that precede every payload.
#[derive(Clone, Copy, Debug, PartialEq, Eq)]
pub struct MessageHeader {
    /// The magic of the network, as it is sent.
    pub magic_number: [u8; 4],
    /// The command field: a name in ASCII, filled up with zero bytes.
    pub command: [u8; 12],
    /// The number of payload bytes that follow the header.
    pub payload_len: u32,
    /// The checksum of the payload.
    pub checksum: u32,
}

impl MessageHeader {
    /// The header on the wire: magic, command field, payload length and
    /// checksum, the two numbers little-endian, with nothing in between.
    pub open spec fn wire_bytes(self) -> Seq<u8> {
        self.magic_number@ + self.command@ + u32_le(self.payload_len) + u32_le(self.checksum)
    }

    /// The header that the first 24 bytes of `bytes` spell out. Any 24 bytes
    /// are a header; fewer are a framing error.
    pub open spec fn parse(bytes: Seq<u8>) -> Result<MessageHeader, Error> {
        if bytes.len() < HEADER_SIZE {
            Err(Error::Framing)
        } else {
            Ok(
                MessageHeader {
                    magic_number: [bytes[0], bytes[1], bytes[2], bytes[3]],
                    command: [
                        bytes[4],
                        bytes[5],
                        bytes[6],
                        bytes[7],
                        bytes[8],
                        bytes[9],
                        bytes[10],
                        bytes[11],
                        bytes[12],
                        bytes[13],
                        bytes[14],
                        bytes[15],
                    ],
                    payload_len: le_u32(bytes.subrange(16, 20)),
                    checksum: le_u32(bytes.subrange(20, 24)),
                },
            )
        }
    }

    /// Writes the header as it is sent.
    pub fn to_bytes(&self) -> (bytes: Vec<u8>)
        ensures
            bytes@ == self.wire_bytes(),
            bytes@.len() == HEADER_SIZE,
    {
        let mut bytes: Vec<u8> = Vec::new();
        put_bytes(&mut bytes, self.magic_number.as_slice());
        put_bytes(&mut bytes, self.command.as_slice());
        put_u32(&mut bytes, self.payload_len);
        put_u32(&mut bytes, self.checksum);
        assert(bytes@ =~= self.wire_bytes());
        bytes
    }
}

impl<'a> TryFrom<&'a [u8]> for MessageHeader {
    type Error = Error;

    /// Reads a header from the first 24 bytes of `bytes`; what follows them
    /// is not looked at. Fails with `Framing` if there are fewer than 24.
    fn try_from(bytes: &'a [u8]) -> (header: Result<MessageHeader, Error>) {
        if bytes.len() < HEADER_SIZE {
            return Err(Error::Framing);
        }
        let mut magic_number = [0u8; 4];
        let mut i: usize = 0;
        while i < 4
            invariant
                i <= 4,
                bytes@.len() >= HEADER_SIZE,
                forall|k: int| 0 <= k < i ==> magic_number@[k] == bytes@[k],
            decreases 4 - i,
        {
            magic_number[i] = bytes[i];
            i += 1;
        }
        let mut command = [0u8; 12];
        let mut j: usize = 0;
        while j < COMMAND_SIZE
            invariant
                j <= COMMAND_SIZE,
                bytes@.len() >= HEADER_SIZE,
                forall|k: int| 0 <= k < j ==> command@[k] == bytes@[4 + k],
            decreases COMMAND_SIZE - j,
        {
            command[j] = bytes[4 + j];
            j += 1;
        }
        let payload_len = get_u32(bytes, 16);
        let checksum = get_u32(bytes, 20);
        proof {
            let expected = MessageHeader::parse(bytes@).unwrap();
            assert(magic_number =~= expected.magic_number);
            assert(command =~= expected.command);
        }
        Ok(MessageHeader { magic_number, command, payload_len, checksum })
    }
}

impl<'a> TryFromSpecImpl<&'a [u8]> for MessageHeader {
    open spec fn obeys_try_from_spec() -> bool {
        true
    }

    open spec fn try_from_spec(bytes: &'a [u8]) -> Result<MessageHeader, Error> {
        MessageHeader::parse(bytes@)
    }
}

/// Decoding inverts encoding: a header is read back from its own bytes,
/// and 24 bytes that were read as a header are written back as they were.
pub proof fn lemma_header_round_trip(header: MessageHeader, bytes: Seq<u8>)
    ensures
        header.wire_bytes().len() == HEADER_SIZE,
        MessageHeader::parse(header.wire_bytes()) == Ok::<MessageHeader, Error>(header),
        bytes.len() == HEADER_SIZE ==> MessageHeader::parse(bytes).unwrap().wire_bytes() == bytes,
{
    let w = header.wire_bytes();
    let back = MessageHeader::parse(w).unwrap();
    lemma_u32_read_back(header.payload_len);
    lemma_u32_read_back(header.checksum);
    assert(w.subrange(16, 20) =~= u32_le(header.payload_len));
    assert(w.subrange(20, 24) =~= u32_le(header.checksum));
    assert(back.magic_number =~= header.magic_number);
    assert(back.command =~= header.command);
    if bytes.len() == HEADER_SIZE {
        let h = MessageHeader::parse(bytes).unwrap();
        lemma_u32_written_back(bytes.subrange(16, 20));
        lemma_u32_written_back(bytes.subrange(20, 24));
        assert(h.wire_bytes() =~= bytes);
    }
}

/// A message ready to be sent: the bytes of its header and of its payload.
#[derive(Clone, Debug, PartialEq, Eq)]
pub struct SerializedBitcoinMessage {
    /// The 24 header bytes.
    pub header: Vec<u8>,
    /// The payload bytes.
    pub message: Vec<u8>,
}

impl SerializedBitcoinMessage {
    /// The checksum that the header of a message of kind `command` carries:
    /// that of the payload for `Version`; for `Verack`, whose payload is
    /// empty, the fixed checksum of no bytes.
    pub open spec fn checksum_for(command: MessageCommand, payload: Seq<u8>) -> u32 {
        match command {
            MessageCommand::Version => payload_checksum(payload),
            MessageCommand::Verack => EMPTY_PAYLOAD_CHECKSUM,
        }
    }

    /// The header that frames `payload` as a message of kind `command` on
    /// the network `network`.
    pub open spec fn header_for(
        command: MessageCommand,
        payload: Seq<u8>,
        network: MessageMagicNumber,
    ) -> MessageHeader
        recommends
            payload.len() <= u32::MAX,
    {
        MessageHeader {
            magic_number: network.bytes(),
            command: command.bytes(),
            payload_len: payload.len() as u32,
            checksum: Self::checksum_for(command, payload),
        }
    }

    /// Frames a payload: the header names the network and the command,
    /// counts the payload bytes and carries their checksum. A payload too
    /// long for the 32-bit length field cannot be framed.
    pub fn build(command: MessageCommand, payload: Vec<u8>, network: MessageMagicNumber) -> (result:
        Result<SerializedBitcoinMessage, Error>)
        ensures
            match result {
                Ok(serialized) => {
                    &&& payload@.len() <= u32::MAX
                    &&& serialized.header@ == Self::header_for(
                        command,
                        payload@,
                        network,
                    ).wire_bytes()
                    &&& serialized.message@ == payload@
                },
                Err(e) => e == Error::Serialization && payload@.len() > u32::MAX,
            },
    {
        if payload.len() > u32::MAX as usize {
            return Err(Error::Serialization);
        }
        let checksum = match command {
            MessageCommand::Version => calc_checksum(payload.as_slice()),
            MessageCommand::Verack => EMPTY_PAYLOAD_CHECKSUM,
        };
        let header = MessageHeader {
            magic_number: network.into(),
            command: command.into(),
            payload_len: payload.len() as u32,
            checksum,
        };
        Ok(SerializedBitcoinMessage { header: header.to_bytes(), message: payload })
    }
}

impl ToNetworkMessage for SerializedBitcoinMessage {
    /// The header bytes followed by the payload bytes.
    open spec fn network_message(self) -> Result<Seq<u8>, Error> {
        Ok(self.header@ + self.message@)
    }

    fn to_network_message(self) -> (result: Result<Vec<u8>, Error>) {
        let mut bytes = self.header;
        put_bytes(&mut bytes, self.message.as_slice());
        Ok(bytes)
    }
}

/// A message that this peer sends, not yet built.
#[derive(Clone, Copy, Debug, PartialEq, Eq)]
pub enum Message {
    /// The message that opens the handshake.
    Version(VersionMessageBuilder),
    /// The message that acknowledges the peer's `version`.
    Verack(VerackMessageBuilder),
}

impl ToNetworkMessage for Message {
    /// The header of the message followed by its payload, of which a
    /// `verack` has none.
    open spec fn network_message(self) -> Result<Seq<u8>, Error> {
        match self {
            Message::Version(builder) => Ok(
                builder.header().wire_bytes() + builder.payload().wire_bytes(),
            ),
            Message::Verack(builder) => Ok(builder.header().wire_bytes()),
        }
    }

    fn to_network_message(self) -> (result: Result<Vec<u8>, Error>) {
        let built: Result<SerializedBitcoinMessage, Error> = match self {
            Message::Version(builder) => SerializedBitcoinMessage::try_from(builder),
            Message::Verack(builder) => SerializedBitcoinMessage::try_from(builder),
        };
        match built {
            Ok(serialized) => {
                assert(serialized.header@ + serialized.message@ =~= self.network_message().unwrap());
                serialized.to_network_message()
            },
            Err(e) => Err(e),
        }
    }
}

} // verus!
