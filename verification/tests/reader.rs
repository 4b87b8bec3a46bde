use handshaker::error::Error;
use handshaker::message_reader::MessageReader;
use handshaker::message_reader::ReadStep;
use handshaker::message_reader::BUFFER_SIZE;
use handshaker::message_reader::MAX_PAYLOAD_READS;
use handshaker::messages::message::Message;
use handshaker::messages::message::MessageCommand;
use handshaker::messages::message::MessageHeader;
use handshaker::messages::message::MessageMagicNumber;
use handshaker::messages::verack::VerackMessageBuilder;
use handshaker::messages::version::SocketAddress;
use handshaker::messages::version::VersionMessageBuilder;
use handshaker::messages::ToNetworkMessage;
use std::io::Cursor;
use std::io::Read;

/// Reads one message from `stream`, as a caller of the reader does.
fn read_message(
    reader: &mut MessageReader,
    stream: &mut dyn Read,
) -> Result<Option<MessageCommand>, Error> {
    let mut buffer = [0u8; BUFFER_SIZE];
    loop {
        let wanted = reader.wanted();
        let n = stream.read(&mut buffer[..wanted]).map_err(|_| Error::Transport)?;
        match reader.accept(&buffer[..n])? {
            ReadStep::More => {}
            ReadStep::Message(command) => return Ok(command),
        }
    }
}

/// A stream that never ends and never returns a byte once its content is
/// used up. It counts the reads that are made of it.
struct Silent {
    content: Cursor<Vec<u8>>,
    reads: usize,
}

impl Read for Silent {
    fn read(&mut self, buf: &mut [u8]) -> std::io::Result<usize> {
        self.reads += 1;
        self.content.read(buf)
    }
}

/// A stream that returns at most `step` bytes per read.
struct Trickle {
    content: Cursor<Vec<u8>>,
    step: usize,
}

impl Read for Trickle {
    fn read(&mut self, buf: &mut [u8]) -> std::io::Result<usize> {
        let n = buf.len().min(self.step);
        self.content.read(&mut buf[..n])
    }
}

fn header(command: &[u8; 12], payload_len: u32) -> Vec<u8> {
    MessageHeader { magic_number: [0xF9, 0xBE, 0xB4, 0xD9], command: *command, payload_len, checksum: 0 }
        .to_bytes()
}

fn version_bytes() -> Vec<u8> {
    Message::Version(VersionMessageBuilder::new(
        MessageMagicNumber::Main,
        SocketAddress::V4 { octets: [127, 0, 0, 1], port: 8333 },
        1693259353,
        42,
    ))
    .to_network_message()
    .unwrap()
}

fn verack_bytes() -> Vec<u8> {
    Message::Verack(VerackMessageBuilder::new(MessageMagicNumber::Main)).to_network_message().unwrap()
}

#[test]
fn test_big_payload() {
    let mut big_message: Vec<u8> = vec![
        0xF9, 0xBE, 0xB4, 0xD9, 0x76, 0x65, 0x72, 0x73, 0x69, 0x6F, 0x6E, 0x00, 0x00, 0x00,
        0x00, 0x00, 0x64, 0x0A, 0x00, 0x00, 0x11, 0xF1, 0x11, 0x87, 0x71, 0x11, 0x01, 0x00,
    ];
    let mut dummy_data: Vec<u8> = vec![0; 3000];
    big_message.append(&mut dummy_data);
    let mut cursor = Cursor::new(big_message);
    let mut reader = MessageReader::new();
    read_message(&mut reader, &mut cursor).unwrap();
}

#[test]
fn big_payload_is_read_to_its_end() {
    let mut bytes = header(b"version\0\0\0\0\0", 2660);
    bytes.extend_from_slice(&vec![0u8; 2660]);
    bytes.extend_from_slice(&verack_bytes());
    let mut cursor = Cursor::new(bytes);
    let mut reader = MessageReader::new();
    assert_eq!(read_message(&mut reader, &mut cursor), Ok(Some(MessageCommand::Version)));
    assert_eq!(cursor.position(), 24 + 2660);
    assert_eq!(read_message(&mut reader, &mut cursor), Ok(Some(MessageCommand::Verack)));
    assert_eq!(read_message(&mut reader, &mut cursor), Ok(None));
}

#[test]
fn silent_stream_does_not_hang() {
    let mut stream = Silent { content: Cursor::new(header(b"version\0\0\0\0\0", 3000)), reads: 0 };
    let mut reader = MessageReader::new();
    assert_eq!(read_message(&mut reader, &mut stream), Err(Error::Framing));
    assert_eq!(stream.reads, 1 + MAX_PAYLOAD_READS as usize);
    assert_eq!(stream.reads, 12);
}

#[test]
fn payload_that_stops_short_is_a_framing_error() {
    let mut bytes = header(b"version\0\0\0\0\0", 3000);
    bytes.extend_from_slice(&vec![7u8; 2999]);
    let mut stream = Silent { content: Cursor::new(bytes), reads: 0 };
    let mut reader = MessageReader::new();
    assert_eq!(read_message(&mut reader, &mut stream), Err(Error::Framing));
    assert_eq!(stream.reads, 12);
}

#[test]
fn payload_has_to_arrive_within_the_reads() {
    let mut reader = MessageReader::new();
    assert_eq!(reader.accept(&header(b"version\0\0\0\0\0", 11)), Ok(ReadStep::More));
    for _ in 0..10 {
        assert_eq!(reader.wanted(), 11.min(reader.wanted()));
        assert_eq!(reader.accept(&[0]), Ok(ReadStep::More));
    }
    assert_eq!(reader.wanted(), 1);
    assert_eq!(reader.accept(&[0]), Ok(ReadStep::Message(Some(MessageCommand::Version))));

    let mut reader = MessageReader::new();
    assert_eq!(reader.accept(&header(b"version\0\0\0\0\0", 12)), Ok(ReadStep::More));
    for _ in 0..10 {
        assert_eq!(reader.accept(&[0]), Ok(ReadStep::More));
    }
    assert_eq!(reader.wanted(), 2);
    assert_eq!(reader.accept(&[0]), Err(Error::Framing));
    assert_eq!(reader.wanted(), 24);
}

#[test]
fn end_of_stream_is_no_message() {
    let mut cursor = Cursor::new(Vec::new());
    let mut reader = MessageReader::new();
    assert_eq!(read_message(&mut reader, &mut cursor), Ok(None));
    assert_eq!(read_message(&mut reader, &mut cursor), Ok(None));
    assert_eq!(reader.accept(&[]), Ok(ReadStep::Message(None)));
}

#[test]
fn messages_come_one_at_a_time() {
    let mut bytes = version_bytes();
    bytes.extend_from_slice(&verack_bytes());
    bytes.extend_from_slice(&version_bytes());
    let mut cursor = Cursor::new(bytes);
    let mut reader = MessageReader::new();
    assert_eq!(read_message(&mut reader, &mut cursor), Ok(Some(MessageCommand::Version)));
    assert_eq!(cursor.position(), 124);
    assert_eq!(read_message(&mut reader, &mut cursor), Ok(Some(MessageCommand::Verack)));
    assert_eq!(cursor.position(), 148);
    assert_eq!(read_message(&mut reader, &mut cursor), Ok(Some(MessageCommand::Version)));
    assert_eq!(read_message(&mut reader, &mut cursor), Ok(None));
}

#[test]
fn unknown_command_is_skipped_with_its_payload() {
    let mut bytes = header(b"ping\0\0\0\0\0\0\0\0", 8);
    bytes.extend_from_slice(&[1, 2, 3, 4, 5, 6, 7, 8]);
    bytes.extend_from_slice(&verack_bytes());
    let mut cursor = Cursor::new(bytes);
    let mut reader = MessageReader::new();
    assert_eq!(read_message(&mut reader, &mut cursor), Ok(None));
    assert_eq!(cursor.position(), 32);
    assert_eq!(read_message(&mut reader, &mut cursor), Ok(Some(MessageCommand::Verack)));
}

#[test]
fn unknown_command_without_payload_is_skipped() {
    let mut bytes = header(b"sendheaders\0", 0);
    bytes.extend_from_slice(&version_bytes());
    let mut cursor = Cursor::new(bytes);
    let mut reader = MessageReader::new();
    assert_eq!(read_message(&mut reader, &mut cursor), Ok(None));
    assert_eq!(read_message(&mut reader, &mut cursor), Ok(Some(MessageCommand::Version)));
}

#[test]
fn header_may_arrive_in_pieces() {
    let mut bytes = version_bytes();
    bytes.extend_from_slice(&verack_bytes());
    for step in [1usize, 5, 23, 24, 25, 1024] {
        let mut stream = Trickle { content: Cursor::new(bytes.clone()), step };
        let mut reader = MessageReader::new();
        if step == 1 {
            // 100 payload bytes do not arrive within the reads at one byte per read
            assert_eq!(read_message(&mut reader, &mut stream), Err(Error::Framing));
            continue;
        }
        if step == 5 {
            assert_eq!(read_message(&mut reader, &mut stream), Err(Error::Framing));
            continue;
        }
        assert_eq!(read_message(&mut reader, &mut stream), Ok(Some(MessageCommand::Version)));
        assert_eq!(read_message(&mut reader, &mut stream), Ok(Some(MessageCommand::Verack)));
        assert_eq!(read_message(&mut reader, &mut stream), Ok(None));
    }
}

#[test]
fn verack_one_byte_at_a_time() {
    let mut stream = Trickle { content: Cursor::new(verack_bytes()), step: 1 };
    let mut reader = MessageReader::new();
    assert_eq!(read_message(&mut reader, &mut stream), Ok(Some(MessageCommand::Verack)));
    assert_eq!(read_message(&mut reader, &mut stream), Ok(None));
}

#[test]
fn reader_says_how_much_it_wants() {
    let mut reader = MessageReader::new();
    assert_eq!(reader.wanted(), 24);
    let head = header(b"version\0\0\0\0\0", 3000);
    assert_eq!(reader.accept(&head[..10]), Ok(ReadStep::More));
    assert_eq!(reader.wanted(), 14);
    assert_eq!(reader.accept(&head[10..]), Ok(ReadStep::More));
    assert_eq!(reader.wanted(), 1024);
    assert_eq!(reader.accept(&[0u8; 1024]), Ok(ReadStep::More));
    assert_eq!(reader.wanted(), 1024);
    assert_eq!(reader.accept(&[0u8; 1000]), Ok(ReadStep::More));
    assert_eq!(reader.wanted(), 976);
    assert_eq!(reader.accept(&[0u8; 976]), Ok(ReadStep::Message(Some(MessageCommand::Version))));
    assert_eq!(reader.wanted(), 24);
}

#[test]
fn stream_that_ends_inside_a_header_is_a_framing_error() {
    let mut cursor = Cursor::new(version_bytes()[..10].to_vec());
    let mut reader = MessageReader::new();
    assert_eq!(read_message(&mut reader, &mut cursor), Err(Error::Framing));
    assert_eq!(reader.wanted(), 24);
}

#[test]
fn too_many_bytes_are_a_transport_error() {
    let mut reader = MessageReader::new();
    assert_eq!(reader.accept(&[0u8; 25]), Err(Error::Transport));
    assert_eq!(reader.wanted(), 24);
    assert_eq!(reader.accept(&header(b"verack\0\0\0\0\0\0", 2)), Ok(ReadStep::More));
    assert_eq!(reader.accept(&[1, 2, 3]), Err(Error::Transport));
    assert_eq!(reader.wanted(), 24);
}

#[test]
fn largest_payload_is_announced() {
    let mut reader = MessageReader::new();
    assert_eq!(reader.accept(&header(b"version\0\0\0\0\0", u32::MAX)), Ok(ReadStep::More));
    assert_eq!(reader.wanted(), BUFFER_SIZE);
    for _ in 0..10 {
        assert_eq!(reader.accept(&[0u8; BUFFER_SIZE]), Ok(ReadStep::More));
    }
    assert_eq!(reader.accept(&[0u8; BUFFER_SIZE]), Err(Error::Framing));
}
