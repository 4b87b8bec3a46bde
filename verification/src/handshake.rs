//! The handshake itself: what to send, how to react to what arrives, and
//! when the connection is established.
//!
//! The handshake neither connects nor reads nor writes. Its caller does,
//! and tells it what happened: that the transport is connected, and which
//! message the reader found next. The handshake answers with the bytes to
//! send, if any, and knows when it is complete.
use crate::error::Error;
use crate::messages::message::Message;
use crate::messages::message::MessageCommand;
use crate::messages::message::MessageMagicNumber;
use crate::messages::verack::VerackMessageBuilder;
use crate::messages::version::SocketAddress;
use crate::messages::version::VersionMessageBuilder;
use crate::messages::version::PROTOCOL_VERSION;
use crate::messages::ToNetworkMessage;
use crate::system::random_nonce;
use crate::system::unix_time;
use vstd::prelude::*;

verus! {

/// How far a handshake has come.
#[derive(Clone, Copy, Debug, PartialEq, Eq, Structural)]
pub enum HandshakeState {
    /// Nothing has been sent yet.
    Connecting,
    /// Our `version` has been sent; the peer's has not arrived.
    VersionSent,
    /// The peer's `version` has arrived and has been answered with a
    /// `verack`; the peer's `verack` has not arrived.
    AwaitingVerack,
    /// The handshake is complete. Nothing changes this state.
    Completed,
}

/// One handshake with one peer.
#[derive(Clone, Copy, Debug, PartialEq, Eq)]
pub struct Handshake {
    /// The network on which the handshake takes place.
    pub network: MessageMagicNumber,
    /// The address of the peer.
    pub peer: SocketAddress,
    /// How far the handshake has come.
    pub state: HandshakeState,
    /// Whether the peer's `version` has arrived.
    pub version_received: bool,
    /// Whether the peer's `version` has been answered with a `verack`.
    pub verack_sent: bool,
    /// Whether the peer's `verack` has arrived.
    pub verack_received: bool,
}

impl Handshake {
    /// What holds of every handshake that began with `new` and went on by
    /// `start`, `start_from`, `start_with` and `on_message`: the state tells
    /// what has happened. Only the peer's `verack` may run ahead of it,
    /// since the peer may send its two messages in either order.
    pub open spec fn valid(self) -> bool {
        match self.state {
            HandshakeState::Connecting => !self.version_received && !self.verack_sent
                && !self.verack_received,
            HandshakeState::VersionSent => !self.version_received && !self.verack_sent,
            HandshakeState::AwaitingVerack => self.version_received && self.verack_sent
                && !self.verack_received,
            HandshakeState::Completed => self.version_received && self.verack_sent
                && self.verack_received,
        }
    }

    /// The `version` message that opens the handshake, given the time and
    /// the nonce that it announces.
    pub open spec fn opening(self, timestamp: i64, nonce: u64) -> VersionMessageBuilder {
        VersionMessageBuilder {
            magic_number: self.network,
            command: MessageCommand::Version,
            version: PROTOCOL_VERSION,
            timestamp,
            addr_recv: self.peer,
            addr_from: VersionMessageBuilder::unspecified(),
            nonce,
        }
    }

    /// The bytes of the `version` message that opens the handshake.
    pub open spec fn opening_bytes(self, timestamp: i64, nonce: u64) -> Seq<u8> {
        Message::Version(self.opening(timestamp, nonce)).network_message().unwrap()
    }

    /// The bytes of the `verack` message that answers the peer's `version`.
    pub open spec fn acknowledgement_bytes(self) -> Seq<u8> {
        Message::Verack(
            VerackMessageBuilder { magic_number: self.network, command: MessageCommand::Verack },
        ).network_message().unwrap()
    }

    /// The handshake after the transport has been connected: one that has
    /// not started has sent its `version`; any other is unchanged.
    pub open spec fn started(self) -> Handshake {
        if self.state == HandshakeState::Connecting {
            Handshake { state: HandshakeState::VersionSent, ..self }
        } else {
            self
        }
    }

    /// Whether `message` is a `version` that is to be answered: it is the
    /// first that arrives after our own has been sent.
    pub open spec fn answers(self, message: Option<MessageCommand>) -> bool {
        self.state == HandshakeState::VersionSent && message == Some(MessageCommand::Version)
    }

    /// The handshake after the reader has found `message`.
    ///
    /// - The first `version` of the peer is answered; the handshake then
    ///   awaits the peer's `verack`, or is complete if that has arrived
    ///   already.
    /// - A `verack` completes a handshake that awaits it. One that comes
    ///   before the peer's `version` is remembered.
    /// - No message, which stands for the end of the stream and for a
    ///   message that was skipped, changes nothing, and neither does any
    ///   message before the handshake has started or after it is complete,
    ///   nor a second `version`.
    pub open spec fn after(self, message: Option<MessageCommand>) -> Handshake {
        match (self.state, message) {
            (HandshakeState::VersionSent, Some(MessageCommand::Version)) => Handshake {
                state: if self.verack_received {
                    HandshakeState::Completed
                } else {
                    HandshakeState::AwaitingVerack
                },
                version_received: true,
                verack_sent: true,
                ..self
            },
            (HandshakeState::VersionSent, Some(MessageCommand::Verack)) => Handshake {
                verack_received: true,
                ..self
            },
            (HandshakeState::AwaitingVerack, Some(MessageCommand::Verack)) => Handshake {
                state: HandshakeState::Completed,
                verack_received: true,
                ..self
            },
            _ => self,
        }
    }

    /// Where a handshake stands after the messages `messages` have been
    /// found, one after the other.
    pub open spec fn after_all(self, messages: Seq<Option<MessageCommand>>) -> Handshake
        decreases messages.len(),
    {
        if messages.len() == 0 {
            self
        } else {
            self.after(messages[0]).after_all(messages.drop_first())
        }
    }

    /// The number of `verack` messages that are sent while the messages
    /// `messages` are found, one after the other.
    pub open spec fn acknowledgements(self, messages: Seq<Option<MessageCommand>>) -> nat
        decreases messages.len(),
    {
        if messages.len() == 0 {
            0
        } else {
            let sent: nat = if self.answers(messages[0]) {
                1
            } else {
                0
            };
            sent + self.after(messages[0]).acknowledgements(messages.drop_first())
        }
    }

    /// A handshake with `peer` on `network` that has not started.
    pub fn new(network: MessageMagicNumber, peer: SocketAddress) -> (handshake: Handshake)
        ensures
            handshake == (Handshake {
                network,
                peer,
                state: HandshakeState::Connecting,
                version_received: false,
                verack_sent: false,
                verack_received: false,
            }),
            handshake.valid(),
    {
        Handshake {
            network,
            peer,
            state: HandshakeState::Connecting,
            version_received: false,
            verack_sent: false,
            verack_received: false,
        }
    }

    /// Whether the handshake is complete.
    pub fn is_completed(&self) -> (completed: bool)
        ensures
            completed == (self.state == HandshakeState::Completed),
    {
        match self.state {
            HandshakeState::Completed => true,
            _ => false,
        }
    }

    /// Starts the handshake once the transport is connected, with the time
    /// and the nonce that the opening `version` is to announce. Returns the
    /// bytes to send: those of the `version` message if the handshake had
    /// not started, none otherwise.
    pub fn start_with(&mut self, timestamp: i64, nonce: u64) -> (to_send: Option<Vec<u8>>)
        ensures
            *final(self) == old(self).started(),
            match to_send {
                Some(bytes) => old(self).state == HandshakeState::Connecting && bytes@ == old(
                    self,
                ).opening_bytes(timestamp, nonce),
                None => old(self).state != HandshakeState::Connecting,
            },
    {
        match self.state {
            HandshakeState::Connecting => {
                let message = Message::Version(
                    VersionMessageBuilder::new(self.network, self.peer, timestamp, nonce),
                );
                match message.to_network_message() {
                    Ok(bytes) => {
                        self.state = HandshakeState::VersionSent;
                        Some(bytes)
                    },
                    Err(_) => None,
                }
            },
            _ => None,
        }
    }

    /// Starts the handshake once the transport is connected, with the time
    /// that was read and the nonce that was drawn, if one was. A handshake
    /// that has started already is left as it is and sends nothing. One that
    /// has not started sends its `version` message if there is a nonce; if
    /// there is none it fails with `Entropy` and has still not started.
    pub fn start_from(&mut self, timestamp: i64, nonce: Option<u64>) -> (result: Result<
        Option<Vec<u8>>,
        Error,
    >)
        ensures
            match result {
                Ok(Some(bytes)) => {
                    &&& old(self).state == HandshakeState::Connecting
                    &&& nonce matches Some(drawn)
                    &&& bytes@ == old(self).opening_bytes(timestamp, drawn)
                    &&& *final(self) == old(self).started()
                },
                Ok(None) => old(self).state != HandshakeState::Connecting && *final(self) == *old(
                    self,
                ),
                Err(e) => {
                    &&& e == Error::Entropy
                    &&& old(self).state == HandshakeState::Connecting
                    &&& nonce is None
                    &&& *final(self) == *old(self)
                },
            },
    {
        match (self.state, nonce) {
            (HandshakeState::Connecting, Some(drawn)) => Ok(self.start_with(timestamp, drawn)),
            (HandshakeState::Connecting, None) => Err(Error::Entropy),
            _ => Ok(None),
        }
    }

    /// Starts the handshake once the transport is connected. The opening
    /// `version` announces the current time and a fresh random nonce. A
    /// handshake that has started already is left as it is and sends
    /// nothing; the clock is not read and no number is drawn. One that has
    /// not started sends its `version` message, unless the operating system
    /// gives no random number: then it fails with `Entropy` and has still
    /// not started.
    ///
    /// Time and nonce come from outside this crate and nothing is known of
    /// them: the contract says what holds whichever they are.
    pub fn start(&mut self) -> (result: Result<Option<Vec<u8>>, Error>)
        ensures
            match result {
                Ok(Some(bytes)) => {
                    &&& old(self).state == HandshakeState::Connecting
                    &&& exists|timestamp: i64, nonce: u64|
                        bytes@ == old(self).opening_bytes(timestamp, nonce)
                    &&& *final(self) == old(self).started()
                },
                Ok(None) => old(self).state != HandshakeState::Connecting && *final(self) == *old(
                    self,
                ),
                Err(e) => {
                    &&& e == Error::Entropy
                    &&& old(self).state == HandshakeState::Connecting
                    &&& *final(self) == *old(self)
                },
            },
    {
        match self.state {
            HandshakeState::Connecting => {
                let timestamp = unix_time();
                let nonce = random_nonce();
                self.start_from(timestamp, nonce)
            },
            _ => Ok(None),
        }
    }

    /// Reacts to what the reader found next. Returns the bytes to send:
    /// those of a `verack` message if `message` is the peer's first
    /// `version`, none otherwise.
    pub fn on_message(&mut self, message: Option<MessageCommand>) -> (to_send: Option<Vec<u8>>)
        ensures
            *final(self) == old(self).after(message),
            match to_send {
                Some(bytes) => old(self).answers(message) && bytes@ == old(
                    self,
                ).acknowledgement_bytes(),
                None => !old(self).answers(message),
            },
    {
        match (self.state, message) {
            (HandshakeState::VersionSent, Some(MessageCommand::Version)) => {
                let reply = Message::Verack(VerackMessageBuilder::new(self.network));
                match reply.to_network_message() {
                    Ok(bytes) => {
                        self.version_received = true;
                        self.verack_sent = true;
                        self.state = if self.verack_received {
                            HandshakeState::Completed
                        } else {
                            HandshakeState::AwaitingVerack
                        };
                        Some(bytes)
                    },
                    Err(_) => None,
                }
            },
            (HandshakeState::VersionSent, Some(MessageCommand::Verack)) => {
                self.verack_received = true;
                None
            },
            (HandshakeState::AwaitingVerack, Some(MessageCommand::Verack)) => {
                self.verack_received = true;
                self.state = HandshakeState::Completed;
                None
            },
            _ => None,
        }
    }
}

/// Whatever happens to a handshake, its state goes on telling what has
/// happened.
pub proof fn lemma_handshake_stays_valid(handshake: Handshake, message: Option<MessageCommand>)
    requires
        handshake.valid(),
    ensures
        handshake.started().valid(),
        handshake.after(message).valid(),
{
}

/// A handshake is complete only when the peer's `version` has arrived, has
/// been answered with a `verack`, and the peer's `verack` has arrived.
pub proof fn lemma_completed_is_success(handshake: Handshake)
    requires
        handshake.valid(),
    ensures
        handshake.state == HandshakeState::Completed <==> handshake.version_received
            && handshake.verack_sent && handshake.verack_received,
{
}

/// A complete handshake stays complete and sends nothing more.
pub proof fn lemma_completed_is_final(handshake: Handshake, message: Option<MessageCommand>)
    requires
        handshake.state == HandshakeState::Completed,
    ensures
        handshake.started() == handshake,
        handshake.after(message) == handshake,
        !handshake.answers(message),
{
}

/// However many messages arrive and whatever they are, a handshake stays
/// valid and the peer's `version` is answered at most once: exactly once if
/// it has been answered by the end and had not been at the beginning.
pub proof fn lemma_one_acknowledgement(handshake: Handshake, messages: Seq<Option<MessageCommand>>)
    requires
        handshake.valid(),
    ensures
        handshake.after_all(messages).valid(),
        handshake.acknowledgements(messages) == if handshake.after_all(messages).verack_sent
            && !handshake.verack_sent {
            1nat
        } else {
            0nat
        },
    decreases messages.len(),
{
    if messages.len() > 0 {
        lemma_handshake_stays_valid(handshake, messages[0]);
        lemma_one_acknowledgement(handshake.after(messages[0]), messages.drop_first());
        if handshake.after(messages[0]).verack_sent {
            lemma_acknowledged_for_good(handshake.after(messages[0]), messages.drop_first());
        }
    }
}

/// Once the peer's `version` has been answered, it stays answered.
pub proof fn lemma_acknowledged_for_good(
    handshake: Handshake,
    messages: Seq<Option<MessageCommand>>,
)
    requires
        handshake.valid(),
        handshake.verack_sent,
    ensures
        handshake.after_all(messages).verack_sent,
    decreases messages.len(),
{
    if messages.len() > 0 {
        lemma_handshake_stays_valid(handshake, messages[0]);
        lemma_acknowledged_for_good(handshake.after(messages[0]), messages.drop_first());
    }
}

/// A peer that sends its `version` and then its `verack` takes a handshake
/// that has started through `AwaitingVerack` to `Completed`, and so does,
/// without the stop in between, a peer that sends them the other way round.
/// Either way one `verack` is sent.
pub proof fn lemma_handshake_completes(handshake: Handshake)
    requires
        handshake.valid(),
        handshake.state == HandshakeState::VersionSent,
        !handshake.verack_received,
    ensures
        handshake.after(Some(MessageCommand::Version)).state == HandshakeState::AwaitingVerack,
        handshake.after(Some(MessageCommand::Version)).after(Some(MessageCommand::Verack)).state
            == HandshakeState::Completed,
        handshake.after(Some(MessageCommand::Verack)).state == HandshakeState::VersionSent,
        handshake.after(Some(MessageCommand::Verack)).after(Some(MessageCommand::Version)).state
            == HandshakeState::Completed,
        handshake.answers(Some(MessageCommand::Version)),
        handshake.after(Some(MessageCommand::Verack)).answers(Some(MessageCommand::Version)),
{
}

} // verus!
