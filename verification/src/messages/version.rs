//! The `version` message: what it holds, how it is laid out on the wire and
//! how the one that opens a handshake is put together.
use crate::error::Error;
use crate::messages::message::htons;
use crate::messages::message::htons_spec;
use crate::messages::message::MessageCommand;
use crate::messages::message::MessageHeader;
use crate::messages::message::MessageMagicNumber;
use crate::messages::message::SerializedBitcoinMessage;
use crate::messages::ToNetworkMessage;
use crate::wire::get_i32;
use crate::wire::get_i64;
use crate::wire::get_u16;
use crate::wire::get_u64;
use crate::wire::i32_le;
use crate::wire::i64_le;
use crate::wire::le_i32;
use crate::wire::le_i64;
use crate::wire::le_u16;
use crate::wire::le_u64;
use crate::wire::lemma_i32_read_back;
use crate::wire::lemma_i64_read_back;
use crate::wire::lemma_u16_written_back;
use crate::wire::lemma_u64_read_back;
use crate::wire::put_bytes;
use crate::wire::put_i32;
use crate::wire::put_i64;
use crate::wire::put_u16;
use crate::wire::put_u64;
use crate::wire::u16_le;
use crate::wire::u64_le;
use vstd::prelude::*;
use vstd::std_specs::convert::FromSpecImpl;
use vstd::std_specs::convert::TryFromSpecImpl;

verus! {

/// The protocol version that this peer announces.
pub const PROTOCOL_VERSION: i32 = 70001;

/// The user agent that this peer announces: `emil-handshake` in ASCII.
pub const USER_AGENT: [u8; 14] = [
    0x65, 0x6D, 0x69, 0x6C, 0x2D, 0x68, 0x61, 0x6E, 0x64, 0x73, 0x68, 0x61, 0x6B, 0x65,
];

/// Length of a network address on the wire in bytes.
pub const NETWORK_ADDRESS_SIZE: usize = 26;

/// Length of the payload of a `version` message in bytes.
pub const VERSION_PAYLOAD_SIZE: usize = 100;

/// The address of an endpoint: an IP address, of either family, and a port.
#[derive(Clone, Copy, Debug, PartialEq, Eq)]
pub enum SocketAddress {
    /// An IPv4 address, given by its four bytes in the order in which they
    /// are written, and a port.
    V4 { octets: [u8; 4], port: u16 },
    /// An IPv6 address, given by its eight 16-bit groups in the order in
    /// which they are written, and a port.
    V6 { segments: [u16; 8], port: u16 },
}

impl SocketAddress {
    /// The eight groups of the address in IPv6 form. An IPv4 address
    /// `a.b.c.d` is mapped to `::ffff:a.b.c.d`.
    pub open spec fn ipv6_segments(self) -> [u16; 8] {
        match self {
            SocketAddress::V4 { octets, port } => [
                0u16,
                0u16,
                0u16,
                0u16,
                0u16,
                0xFFFFu16,
                (octets[0] * 0x100 + octets[1]) as u16,
                (octets[2] * 0x100 + octets[3]) as u16,
            ],
            SocketAddress::V6 { segments, port } => segments,
        }
    }

    /// The port of the address.
    pub open spec fn port_number(self) -> u16 {
        match self {
            SocketAddress::V4 { octets, port } => port,
            SocketAddress::V6 { segments, port } => port,
        }
    }
}

/// An address as a `version` message carries it: a service bit mask, the
/// IP address in IPv6 form and the port, the groups of the address and the
/// port in network byte order.
#[derive(Clone, Copy, Debug, PartialEq, Eq)]
pub struct NetworkAddress {
    /// The services that the endpoint offers.
    pub services: u64,
    /// The eight groups of the IPv6 address, each in network byte order.
    pub addr: [u16; 8],
    /// The port, in network byte order.
    pub port: u16,
}

impl NetworkAddress {
    /// The address on the wire, 26 bytes: every field little-endian, one
    /// after the other. Since the groups and the port are held in network
    /// byte order, their bytes appear most significant first.
    pub open spec fn wire_bytes(self) -> Seq<u8> {
        u64_le(self.services) + u16_le(self.addr[0]) + u16_le(self.addr[1]) + u16_le(self.addr[2])
            + u16_le(self.addr[3]) + u16_le(self.addr[4]) + u16_le(self.addr[5]) + u16_le(
            self.addr[6],
        ) + u16_le(self.addr[7]) + u16_le(self.port)
    }

    /// The address that the first 26 bytes of `bytes` spell out.
    pub open spec fn parse(bytes: Seq<u8>) -> NetworkAddress
        recommends
            bytes.len() >= NETWORK_ADDRESS_SIZE,
    {
        NetworkAddress {
            services: le_u64(bytes.subrange(0, 8)),
            addr: [
                le_u16(bytes.subrange(8, 10)),
                le_u16(bytes.subrange(10, 12)),
                le_u16(bytes.subrange(12, 14)),
                le_u16(bytes.subrange(14, 16)),
                le_u16(bytes.subrange(16, 18)),
                le_u16(bytes.subrange(18, 20)),
                le_u16(bytes.subrange(20, 22)),
                le_u16(bytes.subrange(22, 24)),
            ],
            port: le_u16(bytes.subrange(24, 26)),
        }
    }

    /// The form in which `address` travels: no services, the groups of its
    /// IPv6 form and its port each put into network byte order.
    pub open spec fn of(address: SocketAddress) -> NetworkAddress {
        let segments = address.ipv6_segments();
        NetworkAddress {
            services: 0,
            addr: [
                htons_spec(segments[0]),
                htons_spec(segments[1]),
                htons_spec(segments[2]),
                htons_spec(segments[3]),
                htons_spec(segments[4]),
                htons_spec(segments[5]),
                htons_spec(segments[6]),
                htons_spec(segments[7]),
            ],
            port: htons_spec(address.port_number()),
        }
    }

    /// Appends the address to `out` as it is sent.
    fn write_to(&self, out: &mut Vec<u8>)
        ensures
            final(out)@ == old(out)@ + self.wire_bytes(),
    {
        put_u64(out, self.services);
        put_u16(out, self.addr[0]);
        put_u16(out, self.addr[1]);
        put_u16(out, self.addr[2]);
        put_u16(out, self.addr[3]);
        put_u16(out, self.addr[4]);
        put_u16(out, self.addr[5]);
        put_u16(out, self.addr[6]);
        put_u16(out, self.addr[7]);
        put_u16(out, self.port);
        assert(out@ =~= old(out)@ + self.wire_bytes());
    }

    /// Reads the address whose 26 bytes start at `at`.
    fn read_at(bytes: &[u8], at: usize) -> (address: NetworkAddress)
        requires
            at + NETWORK_ADDRESS_SIZE <= bytes.len(),
        ensures
            address == NetworkAddress::parse(bytes@.subrange(at as int, at + 26)),
    {
        let ghost field = bytes@.subrange(at as int, at + 26);
        let address = NetworkAddress {
            services: get_u64(bytes, at),
            addr: [
                get_u16(bytes, at + 8),
                get_u16(bytes, at + 10),
                get_u16(bytes, at + 12),
                get_u16(bytes, at + 14),
                get_u16(bytes, at + 16),
                get_u16(bytes, at + 18),
                get_u16(bytes, at + 20),
                get_u16(bytes, at + 22),
            ],
            port: get_u16(bytes, at + 24),
        };
        proof {
            assert(bytes@.subrange(at as int, at + 8) =~= field.subrange(0, 8));
            assert(bytes@.subrange(at + 8, at + 8 + 2) =~= field.subrange(8, 10));
            assert(bytes@.subrange(at + 10, at + 10 + 2) =~= field.subrange(10, 12));
            assert(bytes@.subrange(at + 12, at + 12 + 2) =~= field.subrange(12, 14));
            assert(bytes@.subrange(at + 14, at + 14 + 2) =~= field.subrange(14, 16));
            assert(bytes@.subrange(at + 16, at + 16 + 2) =~= field.subrange(16, 18));
            assert(bytes@.subrange(at + 18, at + 18 + 2) =~= field.subrange(18, 20));
            assert(bytes@.subrange(at + 20, at + 20 + 2) =~= field.subrange(20, 22));
            assert(bytes@.subrange(at + 22, at + 22 + 2) =~= field.subrange(22, 24));
            assert(bytes@.subrange(at + 24, at + 24 + 2) =~= field.subrange(24, 26));
            assert(address.addr =~= NetworkAddress::parse(field).addr);
        }
        address
    }
}

impl From<SocketAddress> for NetworkAddress {
    /// Encodes a transport address for a `version` message. An IPv4 address
    /// is embedded into the IPv6 address space; nothing is resolved and
    /// nothing is normalised.
    fn from(address: SocketAddress) -> (encoded: NetworkAddress) {
        let (segments, port): ([u16; 8], u16) = match address {
            SocketAddress::V4 { octets, port } => (
                [
                    0,
                    0,
                    0,
                    0,
                    0,
                    0xFFFF,
                    (octets[0] as u16) * 0x100 + octets[1] as u16,
                    (octets[2] as u16) * 0x100 + octets[3] as u16,
                ],
                port,
            ),
            SocketAddress::V6 { segments, port } => (segments, port),
        };
        assert(segments =~= address.ipv6_segments());
        let mut network_address: [u16; 8] = [0;8];
        let mut idx: usize = 0;
        while idx < 8
            invariant
                idx <= 8,
                forall|k: int| 0 <= k < idx ==> network_address@[k] == htons_spec(segments@[k]),
            decreases 8 - idx,
        {
            network_address[idx] = htons(segments[idx]);
            idx += 1;
        }
        assert(network_address =~= NetworkAddress::of(address).addr);
        NetworkAddress { services: 0, addr: network_address, port: htons(port) }
    }
}

impl FromSpecImpl<SocketAddress> for NetworkAddress {
    open spec fn obeys_from_spec() -> bool {
        true
    }

    open spec fn from_spec(address: SocketAddress) -> NetworkAddress {
        NetworkAddress::of(address)
    }
}

/// The payload of a `version` message.
#[derive(Clone, Copy, Debug, PartialEq, Eq)]
pub struct VersionMessage {
    /// The protocol version of the sender.
    pub version: i32,
    /// The services that the sender offers.
    pub services: u64,
    /// The sender's clock, in seconds since 1970-01-01 00:00:00 UTC.
    pub timestamp: i64,
    /// The address of the receiver, as the sender sees it.
    pub recv_add: NetworkAddress,
    /// The address of the sender.
    pub addr_from: NetworkAddress,
    /// A random number by which a peer notices a connection to itself.
    pub nonce: u64,
    /// The length that is announced for the user agent.
    pub ua_len: u8,
    /// The user agent, in a buffer of fixed length.
    pub user_agent: [u8; 14],
    /// The height of the sender's best chain.
    pub start_height: i32,
    /// Whether the sender wants transactions to be relayed to it.
    pub relay: bool,
}

impl VersionMessage {
    /// The byte that stands for `relay`.
    pub open spec fn relay_byte(relay: bool) -> u8 {
        if relay {
            1
        } else {
            0
        }
    }

    /// The payload on the wire, 100 bytes: the fields in the order in which
    /// they are declared, numbers little-endian, with no padding between.
    pub open spec fn wire_bytes(self) -> Seq<u8> {
        i32_le(self.version) + u64_le(self.services) + i64_le(self.timestamp)
            + self.recv_add.wire_bytes() + self.addr_from.wire_bytes() + u64_le(self.nonce)
            + seq![self.ua_len] + self.user_agent@ + i32_le(self.start_height)
            + seq![Self::relay_byte(self.relay)]
    }

    /// Whether the first 100 bytes of `bytes` are a payload: there are that
    /// many, and the last of them, which stands for `relay`, is 0 or 1.
    pub open spec fn well_formed(bytes: Seq<u8>) -> bool {
        bytes.len() >= VERSION_PAYLOAD_SIZE && bytes[99] <= 1
    }

    /// The payload that the first 100 bytes of `bytes` spell out.
    pub open spec fn parse(bytes: Seq<u8>) -> Result<VersionMessage, Error> {
        if !Self::well_formed(bytes) {
            Err(Error::Serialization)
        } else {
            Ok(
                VersionMessage {
                    version: le_i32(bytes.subrange(0, 4)),
                    services: le_u64(bytes.subrange(4, 12)),
                    timestamp: le_i64(bytes.subrange(12, 20)),
                    recv_add: NetworkAddress::parse(bytes.subrange(20, 46)),
                    addr_from: NetworkAddress::parse(bytes.subrange(46, 72)),
                    nonce: le_u64(bytes.subrange(72, 80)),
                    ua_len: bytes[80],
                    user_agent: [
                        bytes[81],
                        bytes[82],
                        bytes[83],
                        bytes[84],
                        bytes[85],
                        bytes[86],
                        bytes[87],
                        bytes[88],
                        bytes[89],
                        bytes[90],
                        bytes[91],
                        bytes[92],
                        bytes[93],
                        bytes[94],
                    ],
                    start_height: le_i32(bytes.subrange(95, 99)),
                    relay: bytes[99] == 1,
                },
            )
        }
    }
}

impl ToNetworkMessage for VersionMessage {
    /// A payload is always encoded, as `wire_bytes` says.
    open spec fn network_message(self) -> Result<Seq<u8>, Error> {
        Ok(self.wire_bytes())
    }

    fn to_network_message(self) -> (result: Result<Vec<u8>, Error>) {
        let mut out: Vec<u8> = Vec::new();
        put_i32(&mut out, self.version);
        put_u64(&mut out, self.services);
        put_i64(&mut out, self.timestamp);
        self.recv_add.write_to(&mut out);
        self.addr_from.write_to(&mut out);
        put_u64(&mut out, self.nonce);
        out.push(self.ua_len);
        let ghost head = out@;
        put_bytes(&mut out, self.user_agent.as_slice());
        put_i32(&mut out, self.start_height);
        out.push(if self.relay {
            1
        } else {
            0
        });
        proof {
            assert(head =~= i32_le(self.version) + u64_le(self.services) + i64_le(self.timestamp)
                + self.recv_add.wire_bytes() + self.addr_from.wire_bytes() + u64_le(self.nonce)
                + seq![self.ua_len]);
            assert(out@ =~= self.wire_bytes());
        }
        Ok(out)
    }
}

impl<'a> TryFrom<&'a [u8]> for VersionMessage {
    type Error = Error;

    /// Reads a payload from the first 100 bytes of `bytes`; what follows
    /// them is not looked at. Fails with `Serialization` if there are fewer
    /// than 100 bytes or if the byte that stands for `relay` is neither 0
    /// nor 1.
    fn try_from(bytes: &'a [u8]) -> (message: Result<VersionMessage, Error>) {
        if bytes.len() < VERSION_PAYLOAD_SIZE {
            return Err(Error::Serialization);
        }
        if bytes[99] > 1 {
            return Err(Error::Serialization);
        }
        let version = get_i32(bytes, 0);
        let services = get_u64(bytes, 4);
        let timestamp = get_i64(bytes, 12);
        let recv_add = NetworkAddress::read_at(bytes, 20);
        let addr_from = NetworkAddress::read_at(bytes, 46);
        let nonce = get_u64(bytes, 72);
        let ua_len = bytes[80];
        let mut user_agent = [0u8; 14];
        let mut i: usize = 0;
        while i < 14
            invariant
                i <= 14,
                bytes@.len() >= VERSION_PAYLOAD_SIZE,
                forall|k: int| 0 <= k < i ==> user_agent@[k] == bytes@[81 + k],
            decreases 14 - i,
        {
            user_agent[i] = bytes[81 + i];
            i += 1;
        }
        let start_height = get_i32(bytes, 95);
        let relay = bytes[99] == 1;
        proof {
            let expected = VersionMessage::parse(bytes@).unwrap();
            assert(user_agent =~= expected.user_agent);
        }
        Ok(
            VersionMessage {
                version,
                services,
                timestamp,
                recv_add,
                addr_from,
                nonce,
                ua_len,
                user_agent,
                start_height,
                relay,
            },
        )
    }
}

impl<'a> TryFromSpecImpl<&'a [u8]> for VersionMessage {
    open spec fn obeys_try_from_spec() -> bool {
        true
    }

    open spec fn try_from_spec(bytes: &'a [u8]) -> Result<VersionMessage, Error> {
        VersionMessage::parse(bytes@)
    }
}

/// What is needed to put together the `version` message that opens a
/// handshake.
#[derive(Clone, Copy, Debug, PartialEq, Eq)]
pub struct VersionMessageBuilder {
    /// The network on which the message is sent.
    pub magic_number: MessageMagicNumber,
    /// The kind of the message, `MessageCommand::Version` unless changed.
    pub command: MessageCommand,
    /// The protocol version to announce.
    pub version: i32,
    /// The time to announce, in seconds since 1970-01-01 00:00:00 UTC.
    pub timestamp: i64,
    /// The address of the peer.
    pub addr_recv: SocketAddress,
    /// The address to announce as one's own.
    pub addr_from: SocketAddress,
    /// The nonce of the connection.
    pub nonce: u64,
}

impl VersionMessageBuilder {
    /// The address that is announced as one's own: `0.0.0.0`, port 0.
    pub open spec fn unspecified() -> SocketAddress {
        SocketAddress::V4 { octets: [0u8, 0u8, 0u8, 0u8], port: 0 }
    }

    /// The payload that is built: the given version, time, addresses and
    /// nonce, no services, the fixed user agent with its length, height 0
    /// and no relaying.
    pub open spec fn payload(self) -> VersionMessage {
        VersionMessage {
            version: self.version,
            services: 0,
            timestamp: self.timestamp,
            recv_add: NetworkAddress::of(self.addr_recv),
            addr_from: NetworkAddress::of(self.addr_from),
            nonce: self.nonce,
            ua_len: 14,
            user_agent: USER_AGENT,
            start_height: 0,
            relay: false,
        }
    }

    /// The header of the message that is built.
    pub open spec fn header(self) -> MessageHeader {
        SerializedBitcoinMessage::header_for(
            self.command,
            self.payload().wire_bytes(),
            self.magic_number,
        )
    }

    /// Starts a `version` message for the peer at `addr_recv` on the
    /// network `magic_number`, with the given time and nonce. It announces
    /// protocol version 70001 and the unspecified address as its sender.
    pub fn new(
        magic_number: MessageMagicNumber,
        addr_recv: SocketAddress,
        timestamp: i64,
        nonce: u64,
    ) -> (builder: VersionMessageBuilder)
        ensures
            builder == (VersionMessageBuilder {
                magic_number,
                command: MessageCommand::Version,
                version: PROTOCOL_VERSION,
                timestamp,
                addr_recv,
                addr_from: Self::unspecified(),
                nonce,
            }),
    {
        let octets: [u8; 4] = [0, 0, 0, 0];
        assert(octets =~= [0u8, 0u8, 0u8, 0u8]);
        VersionMessageBuilder {
            magic_number,
            command: MessageCommand::Version,
            version: PROTOCOL_VERSION,
            timestamp,
            addr_recv,
            addr_from: SocketAddress::V4 { octets, port: 0 },
            nonce,
        }
    }
}

impl TryFrom<VersionMessageBuilder> for SerializedBitcoinMessage {
    type Error = Error;

    /// Builds the message: the payload is encoded and framed. This always
    /// succeeds, a payload being 100 bytes long.
    fn try_from(value: VersionMessageBuilder) -> (result: Result<SerializedBitcoinMessage, Error>)
        ensures
            result matches Ok(serialized) && serialized.header@ == value.header().wire_bytes()
                && serialized.message@ == value.payload().wire_bytes(),
    {
        let recv_add: NetworkAddress = value.addr_recv.into();
        let addr_from: NetworkAddress = value.addr_from.into();
        let message = VersionMessage {
            version: value.version,
            services: 0,
            timestamp: value.timestamp,
            recv_add,
            addr_from,
            nonce: value.nonce,
            ua_len: 14,
            user_agent: USER_AGENT,
            start_height: 0,
            relay: false,
        };
        proof {
            lemma_version_payload_length(message);
        }
        match message.to_network_message() {
            Ok(serialized_payload) => SerializedBitcoinMessage::build(
                value.command,
                serialized_payload,
                value.magic_number,
            ),
            Err(e) => Err(e),
        }
    }
}

impl TryFromSpecImpl<VersionMessageBuilder> for SerializedBitcoinMessage {
    /// Ghost code cannot write down a value that holds a `Vec`, so
    /// `try_from` states its result itself, over the bytes of the two parts.
    open spec fn obeys_try_from_spec() -> bool {
        false
    }

    open spec fn try_from_spec(value: VersionMessageBuilder) -> Result<
        SerializedBitcoinMessage,
        Error,
    > {
        arbitrary()
    }
}

/// An address on the wire is 26 bytes long.
pub proof fn lemma_network_address_length(address: NetworkAddress)
    ensures
        address.wire_bytes().len() == NETWORK_ADDRESS_SIZE,
{
}

/// A `version` payload on the wire is 100 bytes long.
pub proof fn lemma_version_payload_length(message: VersionMessage)
    ensures
        message.wire_bytes().len() == VERSION_PAYLOAD_SIZE,
{
    lemma_network_address_length(message.recv_add);
    lemma_network_address_length(message.addr_from);
}

/// Decoding an address inverts encoding it.
pub proof fn lemma_network_address_round_trip(address: NetworkAddress)
    ensures
        NetworkAddress::parse(address.wire_bytes()) == address,
{
    let w = address.wire_bytes();
    let back = NetworkAddress::parse(w);
    lemma_u64_read_back(address.services);
    assert(w.subrange(0, 8) =~= u64_le(address.services));
    assert(w.subrange(8, 10) =~= u16_le(address.addr[0]));
    assert(w.subrange(10, 12) =~= u16_le(address.addr[1]));
    assert(w.subrange(12, 14) =~= u16_le(address.addr[2]));
    assert(w.subrange(14, 16) =~= u16_le(address.addr[3]));
    assert(w.subrange(16, 18) =~= u16_le(address.addr[4]));
    assert(w.subrange(18, 20) =~= u16_le(address.addr[5]));
    assert(w.subrange(20, 22) =~= u16_le(address.addr[6]));
    assert(w.subrange(22, 24) =~= u16_le(address.addr[7]));
    assert(w.subrange(24, 26) =~= u16_le(address.port));
    assert(back.addr =~= address.addr);
}

/// Where the parts of a payload lie, given their lengths.
proof fn lemma_version_layout(
    version: Seq<u8>,
    services: Seq<u8>,
    timestamp: Seq<u8>,
    recv_add: Seq<u8>,
    addr_from: Seq<u8>,
    nonce: Seq<u8>,
    ua_len: Seq<u8>,
    user_agent: Seq<u8>,
    start_height: Seq<u8>,
    relay: Seq<u8>,
)
    requires
        version.len() == 4,
        services.len() == 8,
        timestamp.len() == 8,
        recv_add.len() == 26,
        addr_from.len() == 26,
        nonce.len() == 8,
        ua_len.len() == 1,
        user_agent.len() == 14,
        start_height.len() == 4,
        relay.len() == 1,
    ensures
        ({
            let w = version + services + timestamp + recv_add + addr_from + nonce + ua_len
                + user_agent + start_height + relay;
            &&& w.len() == 100
            &&& w.subrange(0, 4) == version
            &&& w.subrange(4, 12) == services
            &&& w.subrange(12, 20) == timestamp
            &&& w.subrange(20, 46) == recv_add
            &&& w.subrange(46, 72) == addr_from
            &&& w.subrange(72, 80) == nonce
            &&& w[80] == ua_len[0]
            &&& w.subrange(81, 95) == user_agent
            &&& w.subrange(95, 99) == start_height
            &&& w[99] == relay[0]
        }),
{
    let w = version + services + timestamp + recv_add + addr_from + nonce + ua_len + user_agent
        + start_height + relay;
    assert(w.subrange(0, 4) =~= version);
    assert(w.subrange(4, 12) =~= services);
    assert(w.subrange(12, 20) =~= timestamp);
    assert(w.subrange(20, 46) =~= recv_add);
    assert(w.subrange(46, 72) =~= addr_from);
    assert(w.subrange(72, 80) =~= nonce);
    assert(w.subrange(81, 95) =~= user_agent);
    assert(w.subrange(95, 99) =~= start_height);
}

/// Where the fields of a payload lie on the wire.
pub proof fn lemma_version_fields_on_the_wire(message: VersionMessage)
    ensures
        ({
            let w = message.wire_bytes();
            &&& w.len() == VERSION_PAYLOAD_SIZE
            &&& w.subrange(0, 4) == i32_le(message.version)
            &&& w.subrange(4, 12) == u64_le(message.services)
            &&& w.subrange(12, 20) == i64_le(message.timestamp)
            &&& w.subrange(20, 46) == message.recv_add.wire_bytes()
            &&& w.subrange(46, 72) == message.addr_from.wire_bytes()
            &&& w.subrange(72, 80) == u64_le(message.nonce)
            &&& w[80] == message.ua_len
            &&& w.subrange(81, 95) == message.user_agent@
            &&& w.subrange(95, 99) == i32_le(message.start_height)
            &&& w[99] == VersionMessage::relay_byte(message.relay)
        }),
{
    lemma_network_address_length(message.recv_add);
    lemma_network_address_length(message.addr_from);
    lemma_version_layout(
        i32_le(message.version),
        u64_le(message.services),
        i64_le(message.timestamp),
        message.recv_add.wire_bytes(),
        message.addr_from.wire_bytes(),
        u64_le(message.nonce),
        seq![message.ua_len],
        message.user_agent@,
        i32_le(message.start_height),
        seq![VersionMessage::relay_byte(message.relay)],
    );
}

/// The numbers of a payload are read back from its bytes.
proof fn lemma_version_numbers_read_back(message: VersionMessage)
    ensures
        ({
            let w = message.wire_bytes();
            &&& le_i32(w.subrange(0, 4)) == message.version
            &&& le_u64(w.subrange(4, 12)) == message.services
            &&& le_i64(w.subrange(12, 20)) == message.timestamp
            &&& le_u64(w.subrange(72, 80)) == message.nonce
            &&& le_i32(w.subrange(95, 99)) == message.start_height
        }),
{
    lemma_version_fields_on_the_wire(message);
    lemma_i32_read_back(message.version);
    lemma_u64_read_back(message.services);
    lemma_i64_read_back(message.timestamp);
    lemma_u64_read_back(message.nonce);
    lemma_i32_read_back(message.start_height);
}

/// The addresses of a payload are read back from its bytes.
proof fn lemma_version_addresses_read_back(message: VersionMessage)
    ensures
        ({
            let w = message.wire_bytes();
            &&& NetworkAddress::parse(w.subrange(20, 46)) == message.recv_add
            &&& NetworkAddress::parse(w.subrange(46, 72)) == message.addr_from
        }),
{
    lemma_version_fields_on_the_wire(message);
    lemma_network_address_round_trip(message.recv_add);
    lemma_network_address_round_trip(message.addr_from);
}

/// Bytes in which every field of a payload is found are read as that
/// payload.
proof fn lemma_version_read_field_by_field(w: Seq<u8>, message: VersionMessage)
    requires
        w.len() == VERSION_PAYLOAD_SIZE,
        le_i32(w.subrange(0, 4)) == message.version,
        le_u64(w.subrange(4, 12)) == message.services,
        le_i64(w.subrange(12, 20)) == message.timestamp,
        NetworkAddress::parse(w.subrange(20, 46)) == message.recv_add,
        NetworkAddress::parse(w.subrange(46, 72)) == message.addr_from,
        le_u64(w.subrange(72, 80)) == message.nonce,
        w[80] == message.ua_len,
        w.subrange(81, 95) == message.user_agent@,
        le_i32(w.subrange(95, 99)) == message.start_height,
        w[99] == VersionMessage::relay_byte(message.relay),
    ensures
        VersionMessage::well_formed(w),
        VersionMessage::parse(w) == Ok::<VersionMessage, Error>(message),
{
    let back = VersionMessage::parse(w).unwrap();
    assert(w.subrange(81, 95)[0] == w[81]);
    assert(back.user_agent =~= message.user_agent);
}

/// Decoding a `version` payload inverts encoding it: whatever the fields
/// hold, the bytes that a payload is written as are read back as the same
/// payload.
pub proof fn lemma_version_round_trip(message: VersionMessage)
    ensures
        VersionMessage::well_formed(message.wire_bytes()),
        VersionMessage::parse(message.wire_bytes()) == Ok::<VersionMessage, Error>(message),
{
    lemma_version_fields_on_the_wire(message);
    lemma_version_numbers_read_back(message);
    lemma_version_addresses_read_back(message);
    lemma_version_read_field_by_field(message.wire_bytes(), message);
}

/// An IPv4 address travels as the 16 bytes of `::ffff:a.b.c.d` followed by
/// the port, most significant byte first, after eight zero bytes for the
/// services.
pub proof fn lemma_ipv4_address_on_the_wire(octets: [u8; 4], port: u16)
    ensures
        NetworkAddress::of(SocketAddress::V4 { octets, port }).wire_bytes() == seq![
            0u8,
            0u8,
            0u8,
            0u8,
            0u8,
            0u8,
            0u8,
            0u8,
            0u8,
            0u8,
            0u8,
            0u8,
            0u8,
            0u8,
            0u8,
            0u8,
            0u8,
            0u8,
            0xFFu8,
            0xFFu8,
            octets[0],
            octets[1],
            octets[2],
            octets[3],
            (port / 256) as u8,
            (port % 256) as u8,
        ],
{
    let address = NetworkAddress::of(SocketAddress::V4 { octets, port });
    let segments = (SocketAddress::V4 { octets, port }).ipv6_segments();
    lemma_swapped_bytes(segments[0]);
    lemma_swapped_bytes(segments[5]);
    lemma_swapped_bytes(segments[6]);
    lemma_swapped_bytes(segments[7]);
    lemma_swapped_bytes(port);
    assert(address.wire_bytes() =~= seq![
        0u8,
        0u8,
        0u8,
        0u8,
        0u8,
        0u8,
        0u8,
        0u8,
        0u8,
        0u8,
        0u8,
        0u8,
        0u8,
        0u8,
        0u8,
        0u8,
        0u8,
        0u8,
        0xFFu8,
        0xFFu8,
        octets[0],
        octets[1],
        octets[2],
        octets[3],
        (port / 256) as u8,
        (port % 256) as u8,
    ]);
}

/// A number in network byte order is written with its most significant
/// byte first.
pub proof fn lemma_swapped_bytes(x: u16)
    ensures
        u16_le(htons_spec(x)) == seq![(x / 256) as u8, (x % 256) as u8],
{
    lemma_u16_written_back(u16_le(x).reverse());
    assert(u16_le(x).reverse() =~= seq![(x / 256) as u8, (x % 256) as u8]);
}

} // verus!
