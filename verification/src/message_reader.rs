//! Cutting a byte stream into messages.
//!
//! The reader does not read. It says how many bytes it can take next, is
//! handed what one read of the stream returned, and answers whether a
//! message is complete. Whoever owns the stream runs the loop.
use crate::error::Error;
use crate::messages::message::MessageCommand;
use crate::messages::message::lemma_header_round_trip;
use crate::messages::message::MessageHeader;
use crate::messages::message::HEADER_SIZE;
use vstd::prelude::*;

verus! {

/// The most bytes that the reader takes from one read.
pub const BUFFER_SIZE: usize = 1024;

/// The number of reads within which a payload has to arrive.
pub const MAX_PAYLOAD_READS: u32 = 11;

/// Where a reader stands.
pub enum ReaderState {
    /// Between two messages: no byte of the next one has arrived.
    Idle,
    /// Inside a header, of which `received` has arrived so far.
    ReadingHeader { received: Seq<u8> },
    /// Inside the payload of a message whose header named `command`, or no
    /// known command: `remaining` bytes are still to come and `reads` reads
    /// have been spent on the payload.
    ReadingPayload { command: Option<MessageCommand>, remaining: nat, reads: nat },
}

/// What a reader answers to the bytes of one read.
#[derive(Clone, Copy, Debug, PartialEq, Eq, Structural)]
pub enum ReadStep {
    /// The message is not complete: read again.
    More,
    /// The stream is at a message boundary. A message with a known command
    /// has been read to its end, or there is no message: the stream has
    /// ended between two messages, or a message with an unknown command has
    /// been skipped.
    Message(Option<MessageCommand>),
}

impl ReaderState {
    /// The states that a reader can be in: a header under way is neither
    /// empty nor complete, and a payload under way still lacks bytes and has
    /// reads left.
    pub open spec fn valid(self) -> bool {
        match self {
            ReaderState::Idle => true,
            ReaderState::ReadingHeader { received } => 0 < received.len() < HEADER_SIZE,
            ReaderState::ReadingPayload { command, remaining, reads } => 0 < remaining
                <= u32::MAX && reads < MAX_PAYLOAD_READS,
        }
    }

    /// The header bytes that have arrived.
    pub open spec fn header_so_far(self) -> Seq<u8> {
        match self {
            ReaderState::ReadingHeader { received } => received,
            _ => Seq::empty(),
        }
    }

    /// The most bytes that the next read may return: what the header still
    /// lacks, or what the payload still lacks up to `BUFFER_SIZE`.
    pub open spec fn wanted(self) -> nat {
        match self {
            ReaderState::Idle => HEADER_SIZE as nat,
            ReaderState::ReadingHeader { received } => (HEADER_SIZE - received.len()) as nat,
            ReaderState::ReadingPayload { command, remaining, reads } => if remaining
                > BUFFER_SIZE {
                BUFFER_SIZE as nat
            } else {
                remaining
            },
        }
    }

    /// The command that a header names, if it names one that is known.
    pub open spec fn command_of(header: MessageHeader) -> Option<MessageCommand> {
        match MessageCommand::named_by(header.command@) {
            Ok(command) => Some(command),
            Err(_) => None,
        }
    }

    /// Where the reader stands once a header is complete, and what it
    /// answers. A command field that names no known command is no error:
    /// the message is skipped. A message without payload ends with its
    /// header.
    pub open spec fn after_header(header: Seq<u8>) -> (ReaderState, Result<ReadStep, Error>) {
        match MessageHeader::parse(header) {
            Err(e) => (ReaderState::Idle, Err(e)),
            Ok(parsed) => {
                let command = Self::command_of(parsed);
                if parsed.payload_len == 0 {
                    (ReaderState::Idle, Ok(ReadStep::Message(command)))
                } else {
                    (
                        ReaderState::ReadingPayload {
                            command,
                            remaining: parsed.payload_len as nat,
                            reads: 0,
                        },
                        Ok(ReadStep::More),
                    )
                }
            },
        }
    }

    /// Where the reader stands after a read that returned `chunk`, and what
    /// it answers.
    ///
    /// - A read that returns more than was wanted is a transport error.
    /// - Between two messages, a read of no bytes is the end of the stream
    ///   and no error; inside a header it is a framing error.
    /// - Header bytes are gathered until there are 24; then the header
    ///   decides.
    /// - Payload bytes are counted and dropped. If the payload is not
    ///   complete after `MAX_PAYLOAD_READS` reads, that is a framing error,
    ///   however many bytes those reads returned.
    ///
    /// After an error the reader is idle, but the stream is no longer at a
    /// message boundary and has to be given up.
    pub open spec fn step(self, chunk: Seq<u8>) -> (ReaderState, Result<ReadStep, Error>) {
        if chunk.len() > self.wanted() {
            (ReaderState::Idle, Err(Error::Transport))
        } else {
            match self {
                ReaderState::ReadingPayload { command, remaining, reads } => {
                    if chunk.len() == remaining {
                        (ReaderState::Idle, Ok(ReadStep::Message(command)))
                    } else if reads + 1 >= MAX_PAYLOAD_READS {
                        (ReaderState::Idle, Err(Error::Framing))
                    } else {
                        (
                            ReaderState::ReadingPayload {
                                command,
                                remaining: (remaining - chunk.len()) as nat,
                                reads: reads + 1,
                            },
                            Ok(ReadStep::More),
                        )
                    }
                },
                _ => {
                    let received = self.header_so_far() + chunk;
                    if chunk.len() == 0 {
                        if self is Idle {
                            (ReaderState::Idle, Ok(ReadStep::Message(None)))
                        } else {
                            (ReaderState::Idle, Err(Error::Framing))
                        }
                    } else if received.len() < HEADER_SIZE {
                        (ReaderState::ReadingHeader { received }, Ok(ReadStep::More))
                    } else {
                        Self::after_header(received)
                    }
                },
            }
        }
    }

    /// An upper bound on the number of reads that can still be answered
    /// with `More` before the reader gives an answer that ends the message.
    pub open spec fn reads_left(self) -> nat {
        match self {
            ReaderState::Idle => HEADER_SIZE as nat + MAX_PAYLOAD_READS as nat,
            ReaderState::ReadingHeader { received } => (HEADER_SIZE - received.len()) as nat
                + MAX_PAYLOAD_READS as nat,
            ReaderState::ReadingPayload { command, remaining, reads } => (MAX_PAYLOAD_READS
                - reads) as nat,
        }
    }

    /// Where the reader stands after the reads `chunks`, one after the
    /// other, and its first answer that is not `More`, if there is one.
    /// Reads after that answer are not looked at.
    pub open spec fn run(self, chunks: Seq<Seq<u8>>) -> (ReaderState, Option<
        Result<ReadStep, Error>,
    >)
        decreases chunks.len(),
    {
        if chunks.len() == 0 {
            (self, None)
        } else {
            let (next, answer) = self.step(chunks[0]);
            if answer == Ok::<ReadStep, Error>(ReadStep::More) {
                next.run(chunks.drop_first())
            } else {
                (next, Some(answer))
            }
        }
    }
}

/// Reads one message at a time from a stream that its caller reads.
pub struct MessageReader {
    /// Header bytes that have arrived, in `header[..filled]`.
    header: [u8; 24],
    filled: usize,
    /// Whether a payload is under way.
    in_payload: bool,
    /// The command of the message whose payload is under way.
    command: Option<MessageCommand>,
    /// Payload bytes still to come.
    remaining: u32,
    /// Reads spent on the payload.
    reads: u32,
}

impl View for MessageReader {
    type V = ReaderState;

    closed spec fn view(&self) -> ReaderState {
        if self.in_payload {
            ReaderState::ReadingPayload {
                command: self.command,
                remaining: self.remaining as nat,
                reads: self.reads as nat,
            }
        } else if self.filled == 0 {
            ReaderState::Idle
        } else {
            ReaderState::ReadingHeader { received: self.header@.subrange(0, self.filled as int) }
        }
    }
}

impl MessageReader {
    #[verifier::type_invariant]
    spec fn well_formed(self) -> bool {
        &&& self.filled < HEADER_SIZE
        &&& self.in_payload ==> 0 < self.remaining && self.reads < MAX_PAYLOAD_READS
    }

    /// A reader at the start of a stream.
    pub fn new() -> (reader: MessageReader)
        ensures
            reader@ == ReaderState::Idle,
    {
        MessageReader {
            header: [0x0;24],
            filled: 0,
            in_payload: false,
            command: None,
            remaining: 0,
            reads: 0,
        }
    }

    /// The most bytes that the next read may return. It is never zero and
    /// never more than `BUFFER_SIZE`.
    pub fn wanted(&self) -> (count: usize)
        ensures
            count == self@.wanted(),
            0 < count <= BUFFER_SIZE,
            self@.valid(),
    {
        proof {
            use_type_invariant(self);
        }
        if self.in_payload {
            if self.remaining as usize > BUFFER_SIZE {
                BUFFER_SIZE
            } else {
                self.remaining as usize
            }
        } else {
            HEADER_SIZE - self.filled
        }
    }

    /// Takes what one read of the stream returned, which is `chunk`, and
    /// answers whether a message is complete.
    pub fn accept(&mut self, chunk: &[u8]) -> (result: Result<ReadStep, Error>)
        ensures
            old(self)@.valid(),
            final(self)@.valid(),
            final(self)@ == old(self)@.step(chunk@).0,
            result == old(self)@.step(chunk@).1,
    {
        proof {
            use_type_invariant(&*self);
        }
        let wanted = self.wanted();
        if chunk.len() > wanted {
            *self = MessageReader::new();
            return Err(Error::Transport);
        }
        if self.in_payload {
            let left: u32 = self.remaining - chunk.len() as u32;
            if left == 0 {
                let command = self.command;
                *self = MessageReader::new();
                Ok(ReadStep::Message(command))
            } else if self.reads + 1 >= MAX_PAYLOAD_READS {
                *self = MessageReader::new();
                Err(Error::Framing)
            } else {
                *self = MessageReader {
                    header: self.header,
                    filled: 0,
                    in_payload: true,
                    command: self.command,
                    remaining: left,
                    reads: self.reads + 1,
                };
                Ok(ReadStep::More)
            }
        } else if chunk.len() == 0 {
            let idle = self.filled == 0;
            *self = MessageReader::new();
            if idle {
                Ok(ReadStep::Message(None))
            } else {
                Err(Error::Framing)
            }
        } else {
            let ghost before = self@.header_so_far();
            let mut header = self.header;
            let filled = self.filled;
            let mut i: usize = 0;
            while i < chunk.len()
                invariant
                    i <= chunk@.len(),
                    filled + chunk@.len() <= HEADER_SIZE,
                    header@.subrange(0, filled as int) == before,
                    header@.subrange(filled as int, filled + i) == chunk@.subrange(0, i as int),
                decreases chunk@.len() - i,
            {
                let ghost previous = header@;
                header[filled + i] = chunk[i];
                i += 1;
                assert(header@.subrange(0, filled as int) =~= previous.subrange(
                    0,
                    filled as int,
                ));
                assert(header@.subrange(filled as int, filled + i) =~= chunk@.subrange(
                    0,
                    i as int,
                ));
            }
            let total = filled + chunk.len();
            proof {
                let head = header@.subrange(0, filled as int);
                let tail = header@.subrange(filled as int, total as int);
                assert(chunk@.subrange(0, i as int) =~= chunk@);
                assert(header@.subrange(0, total as int) =~= head + tail);
            }
            if total < HEADER_SIZE {
                *self = MessageReader {
                    header,
                    filled: total,
                    in_payload: false,
                    command: None,
                    remaining: 0,
                    reads: 0,
                };
                Ok(ReadStep::More)
            } else {
                assert(header@.subrange(0, total as int) =~= header@);
                match MessageHeader::try_from(header.as_slice()) {
                    Err(e) => {
                        *self = MessageReader::new();
                        Err(e)
                    },
                    Ok(parsed) => {
                        let command = match MessageCommand::try_from(parsed.command) {
                            Ok(command) => Some(command),
                            Err(_) => None,
                        };
                        if parsed.payload_len == 0 {
                            *self = MessageReader::new();
                            Ok(ReadStep::Message(command))
                        } else {
                            *self = MessageReader {
                                header,
                                filled: 0,
                                in_payload: true,
                                command,
                                remaining: parsed.payload_len,
                                reads: 0,
                            };
                            Ok(ReadStep::More)
                        }
                    },
                }
            }
        }
    }
}

/// The number of bytes that the reads `chunks` return together.
pub open spec fn total_len(chunks: Seq<Seq<u8>>) -> nat
    decreases chunks.len(),
{
    if chunks.len() == 0 {
        0
    } else {
        chunks[0].len() + total_len(chunks.drop_first())
    }
}

/// A reader never leaves the states that it can be in, and whenever it
/// gives an answer that ends a message, or fails, it is idle.
pub proof fn lemma_step_keeps_valid(state: ReaderState, chunk: Seq<u8>)
    requires
        state.valid(),
    ensures
        state.step(chunk).0.valid(),
        state.step(chunk).1 != Ok::<ReadStep, Error>(ReadStep::More) ==> state.step(chunk).0
            == ReaderState::Idle,
{
}

/// Every read that is answered with `More` uses up the bound on such reads,
/// which is never more than 35: the reader cannot be kept busy for ever,
/// whatever the stream returns.
pub proof fn lemma_more_uses_up_reads(state: ReaderState, chunk: Seq<u8>)
    requires
        state.valid(),
        state.step(chunk).1 == Ok::<ReadStep, Error>(ReadStep::More),
    ensures
        state.step(chunk).0.reads_left() < state.reads_left(),
        state.reads_left() <= HEADER_SIZE + MAX_PAYLOAD_READS,
{
}

/// Whatever the stream returns, a reader that is handed as many reads as its
/// bound allows gives an answer: a message, no message, or an error.
pub proof fn lemma_reader_answers(state: ReaderState, chunks: Seq<Seq<u8>>)
    requires
        state.valid(),
        chunks.len() >= state.reads_left(),
    ensures
        state.run(chunks).1 is Some,
    decreases chunks.len(),
{
    let (next, answer) = state.step(chunks[0]);
    lemma_step_keeps_valid(state, chunks[0]);
    if answer == Ok::<ReadStep, Error>(ReadStep::More) {
        lemma_more_uses_up_reads(state, chunks[0]);
        lemma_reader_answers(next, chunks.drop_first());
    }
}

/// A stream that returns no bytes while a payload is awaited does not hold
/// the reader for ever: the read that uses up the last of the reads is
/// answered with a framing error.
pub proof fn lemma_silent_stream_fails(command: Option<MessageCommand>, remaining: nat, reads: nat)
    requires
        (ReaderState::ReadingPayload { command, remaining, reads }).valid(),
    ensures
        ({
            let state = ReaderState::ReadingPayload { command, remaining, reads };
            let silence = Seq::new((MAX_PAYLOAD_READS - reads) as nat, |i: int| Seq::<u8>::empty());
            state.run(silence) == (ReaderState::Idle, Some(Err::<ReadStep, Error>(Error::Framing)))
        }),
    decreases MAX_PAYLOAD_READS - reads,
{
    let state = ReaderState::ReadingPayload { command, remaining, reads };
    let silence = Seq::new((MAX_PAYLOAD_READS - reads) as nat, |i: int| Seq::<u8>::empty());
    assert(silence[0] == Seq::<u8>::empty());
    if reads + 1 < MAX_PAYLOAD_READS {
        lemma_silent_stream_fails(command, remaining, reads + 1);
        let shorter = Seq::new((MAX_PAYLOAD_READS - reads - 1) as nat, |i: int| Seq::<u8>::empty());
        assert(silence.drop_first() =~= shorter);
    }
}

/// A payload that arrives within the reads that are left for it is read to
/// its end, however it is cut into reads of at most `BUFFER_SIZE` bytes:
/// the reader answers with the command of the message and is idle again.
pub proof fn lemma_payload_is_read(
    command: Option<MessageCommand>,
    remaining: nat,
    reads: nat,
    chunks: Seq<Seq<u8>>,
)
    requires
        (ReaderState::ReadingPayload { command, remaining, reads }).valid(),
        0 < chunks.len() <= MAX_PAYLOAD_READS - reads,
        total_len(chunks) == remaining,
        forall|i: int| 0 <= i < chunks.len() ==> (#[trigger] chunks[i]).len() <= BUFFER_SIZE,
    ensures
        (ReaderState::ReadingPayload { command, remaining, reads }).run(chunks) == (
            ReaderState::Idle,
            Some(Ok::<ReadStep, Error>(ReadStep::Message(command))),
        ),
    decreases chunks.len(),
{
    let rest = chunks.drop_first();
    if chunks[0].len() < remaining {
        assert(total_len(chunks) == chunks[0].len() + total_len(rest));
        assert(rest.len() > 0) by {
            if rest.len() == 0 {
                assert(total_len(rest) == 0);
            }
        }
        assert forall|i: int| 0 <= i < rest.len() implies (#[trigger] rest[i]).len()
            <= BUFFER_SIZE by {
            assert(rest[i] == chunks[i + 1]);
        }
        lemma_payload_is_read(command, (remaining - chunks[0].len()) as nat, reads + 1, rest);
    }
}

/// A message is found if its header arrives in one read and its payload
/// within the reads that are allowed for it, however the payload is cut
/// into reads of at most `BUFFER_SIZE` bytes. The reader answers with the
/// command that the header names, or with no message if the header names
/// none that is known, and is idle again.
pub proof fn lemma_message_is_found(header: MessageHeader, payload: Seq<Seq<u8>>)
    requires
        total_len(payload) == header.payload_len,
        payload.len() <= MAX_PAYLOAD_READS,
        header.payload_len > 0 ==> payload.len() > 0,
        forall|i: int| 0 <= i < payload.len() ==> (#[trigger] payload[i]).len() <= BUFFER_SIZE,
    ensures
        ReaderState::Idle.run(seq![header.wire_bytes()] + payload) == (
            ReaderState::Idle,
            Some(Ok::<ReadStep, Error>(ReadStep::Message(ReaderState::command_of(header)))),
        ),
{
    let reads = seq![header.wire_bytes()] + payload;
    lemma_header_round_trip(header, header.wire_bytes());
    assert(reads[0] == header.wire_bytes());
    assert(reads.drop_first() =~= payload);
    assert(Seq::<u8>::empty() + header.wire_bytes() =~= header.wire_bytes());
    if header.payload_len > 0 {
        lemma_payload_is_read(
            ReaderState::command_of(header),
            header.payload_len as nat,
            0,
            payload,
        );
    }
}

} // verus!
