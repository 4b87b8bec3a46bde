use handshaker::config::Config;
use handshaker::error::Error;
use handshaker::handshake::Handshake;
use handshaker::handshake::HandshakeState;
use handshaker::message_reader::MessageReader;
use handshaker::message_reader::ReadStep;
use handshaker::message_reader::BUFFER_SIZE;
use handshaker::messages::message::calc_checksum;
use handshaker::messages::message::Message;
use handshaker::messages::message::MessageCommand;
use handshaker::messages::message::MessageHeader;
use handshaker::messages::message::MessageMagicNumber;
use handshaker::messages::verack::VerackMessageBuilder;
use handshaker::messages::version::SocketAddress;
use handshaker::messages::version::VersionMessage;
use handshaker::messages::version::VersionMessageBuilder;
use handshaker::messages::ToNetworkMessage;
use std::io::Cursor;
use std::io::Read;

fn peer() -> SocketAddress {
    SocketAddress::V4 { octets: [79, 116, 148, 118], port: 8333 }
}

fn version_bytes(network: MessageMagicNumber) -> Vec<u8> {
    Message::Version(VersionMessageBuilder::new(network, peer(), 1693259353, 42))
        .to_network_message()
        .unwrap()
}

fn verack_bytes(network: MessageMagicNumber) -> Vec<u8> {
    Message::Verack(VerackMessageBuilder::new(network)).to_network_message().unwrap()
}

fn read_message(
    reader: &mut MessageReader,
    stream: &mut dyn Read,
) -> Result<Option<MessageCommand>, Error> {
    let mut buffer = [0u8; BUFFER_SIZE];
    loop {
        let wanted = reader.wanted();
        let n = stream.read(&mut buffer[..wanted]).map_err(|_| Error::Transport)?;
        match reader.accept(&buffer[..n])? {
            ReadStep::More => {}
            ReadStep::Message(command) => return Ok(command),
        }
    }
}

/// Runs a handshake against what the peer has sent, and returns the states
/// it went through and everything it sent.
fn run(handshake: &mut Handshake, incoming: Vec<u8>) -> (Vec<HandshakeState>, Vec<Vec<u8>>) {
    let mut states = vec![handshake.state];
    let mut sent = Vec::new();
    let mut stream = Cursor::new(incoming);
    if let Some(bytes) = handshake.start_with(1693259353, 7) {
        sent.push(bytes);
    }
    states.push(handshake.state);
    let mut reader = MessageReader::new();
    let mut polls = 0;
    while !handshake.is_completed() && polls < 3 {
        let message = read_message(&mut reader, &mut stream).unwrap();
        if message.is_none() {
            polls += 1;
        }
        let before = handshake.state;
        if let Some(bytes) = handshake.on_message(message) {
            sent.push(bytes);
        }
        if handshake.state != before {
            states.push(handshake.state);
        }
    }
    (states, sent)
}

#[test]
fn handshake_end_to_end() {
    let network = MessageMagicNumber::Main;
    let mut incoming = version_bytes(network);
    incoming.extend_from_slice(&verack_bytes(network));
    let mut handshake = Handshake::new(network, peer());
    let (states, sent) = run(&mut handshake, incoming);
    assert_eq!(
        states,
        vec![
            HandshakeState::Connecting,
            HandshakeState::VersionSent,
            HandshakeState::AwaitingVerack,
            HandshakeState::Completed,
        ]
    );
    assert_eq!(sent.len(), 2);
    assert_eq!(
        sent[0],
        Message::Version(VersionMessageBuilder::new(network, peer(), 1693259353, 7))
            .to_network_message()
            .unwrap()
    );
    assert_eq!(sent[1], verack_bytes(network));
    assert!(handshake.is_completed());
    assert!(handshake.version_received && handshake.verack_sent && handshake.verack_received);
}

#[test]
fn handshake_with_verack_first() {
    let network = MessageMagicNumber::Testnet;
    let mut incoming = verack_bytes(network);
    incoming.extend_from_slice(&version_bytes(network));
    let mut handshake = Handshake::new(network, peer());
    let (states, sent) = run(&mut handshake, incoming);
    assert_eq!(
        states,
        vec![HandshakeState::Connecting, HandshakeState::VersionSent, HandshakeState::Completed]
    );
    assert_eq!(sent.len(), 2);
    assert_eq!(sent[1], verack_bytes(network));
    assert!(handshake.version_received && handshake.verack_sent && handshake.verack_received);
}

#[test]
fn handshake_skips_what_it_does_not_know() {
    let network = MessageMagicNumber::Regtest;
    let mut incoming = MessageHeader {
        magic_number: network.into(),
        command: *b"sendcmpct\0\0\0",
        payload_len: 9,
        checksum: 0,
    }
    .to_bytes();
    incoming.extend_from_slice(&[0u8; 9]);
    incoming.extend_from_slice(&version_bytes(network));
    incoming.extend_from_slice(&version_bytes(network));
    incoming.extend_from_slice(&verack_bytes(network));
    let mut handshake = Handshake::new(network, peer());
    let (states, sent) = run(&mut handshake, incoming);
    assert_eq!(states.last(), Some(&HandshakeState::Completed));
    assert_eq!(sent.len(), 2);
    assert_eq!(sent[1], verack_bytes(network));
}

#[test]
fn handshake_without_verack_is_not_complete() {
    let network = MessageMagicNumber::Main;
    let mut handshake = Handshake::new(network, peer());
    let (states, sent) = run(&mut handshake, version_bytes(network));
    assert_eq!(
        states,
        vec![HandshakeState::Connecting, HandshakeState::VersionSent, HandshakeState::AwaitingVerack]
    );
    assert_eq!(sent.len(), 2);
    assert!(!handshake.is_completed());
    assert!(!handshake.verack_received);
}

#[test]
fn handshake_without_version_is_not_complete() {
    let network = MessageMagicNumber::Main;
    let mut handshake = Handshake::new(network, peer());
    let (states, sent) = run(&mut handshake, verack_bytes(network));
    assert_eq!(states, vec![HandshakeState::Connecting, HandshakeState::VersionSent]);
    assert_eq!(sent.len(), 1);
    assert!(!handshake.is_completed());
    assert!(handshake.verack_received);
    assert!(!handshake.version_received && !handshake.verack_sent);
}

#[test]
fn new_handshake_has_not_started() {
    let handshake = Handshake::new(MessageMagicNumber::Signet, peer());
    assert_eq!(
        handshake,
        Handshake {
            network: MessageMagicNumber::Signet,
            peer: peer(),
            state: HandshakeState::Connecting,
            version_received: false,
            verack_sent: false,
            verack_received: false,
        }
    );
    assert!(!handshake.is_completed());
}

#[test]
fn messages_before_the_start_are_ignored() {
    let mut handshake = Handshake::new(MessageMagicNumber::Main, peer());
    let fresh = handshake;
    assert_eq!(handshake.on_message(Some(MessageCommand::Version)), None);
    assert_eq!(handshake.on_message(Some(MessageCommand::Verack)), None);
    assert_eq!(handshake.on_message(None), None);
    assert_eq!(handshake, fresh);
}

#[test]
fn handshake_starts_once() {
    let mut handshake = Handshake::new(MessageMagicNumber::Main, peer());
    let first = handshake.start_with(5, 6);
    assert_eq!(
        first,
        Some(
            Message::Version(VersionMessageBuilder::new(MessageMagicNumber::Main, peer(), 5, 6))
                .to_network_message()
                .unwrap()
        )
    );
    assert_eq!(handshake.state, HandshakeState::VersionSent);
    let started = handshake;
    assert_eq!(handshake.start_with(7, 8), None);
    assert_eq!(handshake.start(), Ok(None));
    assert_eq!(handshake.start_from(9, Some(10)), Ok(None));
    assert_eq!(handshake.start_from(9, None), Ok(None));
    assert_eq!(handshake, started);
}

#[test]
fn handshake_does_not_start_without_a_nonce() {
    let mut handshake = Handshake::new(MessageMagicNumber::Main, peer());
    let fresh = handshake;
    assert_eq!(handshake.start_from(5, None), Err(Error::Entropy));
    assert_eq!(handshake, fresh);
    assert_eq!(handshake.state, HandshakeState::Connecting);
    assert_eq!(
        handshake.start_from(5, Some(6)),
        Ok(Some(
            Message::Version(VersionMessageBuilder::new(MessageMagicNumber::Main, peer(), 5, 6))
                .to_network_message()
                .unwrap()
        ))
    );
    assert_eq!(handshake.state, HandshakeState::VersionSent);
}

#[test]
fn completed_handshake_stays_completed() {
    let mut handshake = Handshake::new(MessageMagicNumber::Main, peer());
    handshake.start_with(1, 2);
    assert!(handshake.on_message(Some(MessageCommand::Version)).is_some());
    assert_eq!(handshake.on_message(Some(MessageCommand::Version)), None);
    assert_eq!(handshake.state, HandshakeState::AwaitingVerack);
    assert_eq!(handshake.on_message(None), None);
    assert_eq!(handshake.state, HandshakeState::AwaitingVerack);
    assert_eq!(handshake.on_message(Some(MessageCommand::Verack)), None);
    assert!(handshake.is_completed());
    let done = handshake;
    assert_eq!(handshake.on_message(Some(MessageCommand::Version)), None);
    assert_eq!(handshake.on_message(Some(MessageCommand::Verack)), None);
    assert_eq!(handshake.start_with(3, 4), None);
    assert_eq!(handshake.start_from(3, None), Ok(None));
    assert_eq!(handshake.start(), Ok(None));
    assert_eq!(handshake, done);
}

#[test]
fn start_announces_time_and_nonce() {
    let mut handshake = Handshake::new(MessageMagicNumber::Signet, peer());
    let bytes = handshake.start().unwrap().unwrap();
    assert_eq!(handshake.state, HandshakeState::VersionSent);
    assert_eq!(bytes.len(), 124);
    let header = MessageHeader::try_from(&bytes[..24]).unwrap();
    assert_eq!(header.magic_number, [0x0A, 0x03, 0xCF, 0x40]);
    assert_eq!(MessageCommand::try_from(header.command), Ok(MessageCommand::Version));
    assert_eq!(header.payload_len, 100);
    assert_eq!(header.checksum, calc_checksum(&bytes[24..]));
    let payload = VersionMessage::try_from(&bytes[24..]).unwrap();
    assert_eq!(payload.version, 70001);
    assert!(payload.timestamp > 1_600_000_000);
    let expected = Message::Version(VersionMessageBuilder::new(
        MessageMagicNumber::Signet,
        peer(),
        payload.timestamp,
        payload.nonce,
    ))
    .to_network_message()
    .unwrap();
    assert_eq!(bytes, expected);
}

#[test]
fn nonces_differ() {
    let mut nonces = Vec::new();
    for _ in 0..8 {
        let mut handshake = Handshake::new(MessageMagicNumber::Main, peer());
        let bytes = handshake.start().unwrap().unwrap();
        nonces.push(VersionMessage::try_from(&bytes[24..]).unwrap().nonce);
    }
    nonces.sort();
    nonces.dedup();
    assert!(nonces.len() > 1);
}

#[test]
fn config_holds_address_and_network() {
    let config = Config {
        dest_addr: "79.116.148.118:8333".to_owned(),
        network_type: MessageMagicNumber::Main,
    };
    assert_eq!(config.network_type, MessageMagicNumber::Main);
    assert_eq!(config.dest_addr, "79.116.148.118:8333");
    assert_eq!(config.clone(), config);
}
