//! The handshake's typestates: each state is a type of its own, and each transition consumes
//! the handshake in one state and gives it back in the next.
use vstd::prelude::*;
use crate::message::{
    is_bitcoin_message, is_elapsed_seconds, is_version_message_for, verack_message, version_message, version_packet,
    HandshakeError, Message, Payload, SocketAddress,
};

verus! {

/// Before anything was sent.
pub struct Initial;

/// Our version message is out; we wait for the peer's first handshake message.
pub struct SentVersion;

/// The first handshake message that came from the peer, once our version message was out.
#[derive(Debug, Clone, Copy, PartialEq, Eq, Structural)]
pub enum Received {
    VerAck,
    Version,
}

/// The peer's version message came first: our acknowledgement is due.
pub struct SentAck;

/// The peer acknowledged our version message and then sent its own: our acknowledgement is due.
pub struct AckAfterVersion;

/// The peer acknowledged our version message first: we wait for its version message.
pub struct ReceiveVersion;

/// We acknowledged the peer's version message: we wait for its acknowledgement of ours.
pub struct ReceiveAck;

/// Both sides sent their version and acknowledged the other's.
pub struct Completed;

/// A handshake in state `S`.
pub struct Handshake<S> {
    pub state: S,
}

/// What a received message does to a handshake that waits in state `S`: it moves it on to the
/// next state `N`, is ignored, or is a handshake message that does not belong there (which is
/// ignored as well).
pub enum Step<N, S> {
    Advance(N),
    Ignored(S),
    Unexpected(S),
}

/// What a message means to the handshake: an acknowledgement, a version message, or nothing.
pub open spec fn spec_read_message(package: Message) -> Option<Received> {
    match package.payload {
        Payload::Verack => Some(Received::VerAck),
        Payload::Version(_) => Some(Received::Version),
        Payload::Other(_) => None,
    }
}

/// A message is read by its payload alone, whatever its magic bytes and whatever the fields of
/// a version message: every version message is the peer's version message, every verack its
/// acknowledgement, and every other message nothing for the handshake.
pub proof fn lemma_read_message_by_payload(m: Message)
    ensures
        (spec_read_message(m) == Some(Received::Version)) <==> m.payload is Version,
        (spec_read_message(m) == Some(Received::VerAck)) <==> m.payload is Verack,
        spec_read_message(m) is None <==> m.payload is Other,
{
}

/// Tells the handshake messages apart from all others.
pub fn read_message(package: Message) -> (r: Option<Received>)
    ensures
        r == spec_read_message(package),
{
    match package.payload {
        Payload::Verack => Some(Received::VerAck),
        Payload::Version(_) => Some(Received::Version),
        Payload::Other(_) => None,
    }
}

impl Handshake<Initial> {
    pub fn new() -> (r: Self) {
        Handshake { state: Initial }
    }

    /// Starts the handshake with the peer at `address`: the message to send is our version
    /// message, stamped with the current time. It fails only where the clock cannot give the
    /// stamp.
    pub fn send_version(self, address: &SocketAddress) -> (r: Result<
        (Handshake<SentVersion>, Message),
        HandshakeError,
    >)
        ensures
            r matches Ok((_, m)) ==> {
                &&& is_bitcoin_message(m)
                &&& m.payload matches Payload::Version(v)
                &&& 0 <= v.timestamp
                &&& is_version_message_for(v, *address, v.timestamp as int)
                &&& is_elapsed_seconds(v.timestamp as int)
            },
            r is Err ==> r == Err::<(Handshake<SentVersion>, Message), HandshakeError>(HandshakeError::ClockBeforeEpoch)
                || r == Err::<(Handshake<SentVersion>, Message), HandshakeError>(HandshakeError::TimestampOutOfRange),
    {
        match version_message(address) {
            Ok(v) => Ok((Handshake { state: SentVersion }, version_packet(v))),
            Err(e) => Err(e),
        }
    }
}

impl Handshake<SentVersion> {
    /// Takes in one message from the peer: the first handshake message moves the handshake on
    /// and records which one it was; any other message is ignored.
    pub fn receive_message(self, msg: Message) -> (r: Step<Handshake<Received>, Handshake<SentVersion>>)
        ensures
            match spec_read_message(msg) {
                Some(k) => r matches Step::Advance(h) && h.state == k,
                None => r is Ignored,
            },
    {
        match read_message(msg) {
            Some(m) => Step::Advance(Handshake { state: m }),
            None => Step::Ignored(self),
        }
    }
}

impl Handshake<Received> {
    /// After the peer's version message: our acknowledgement is due.
    pub fn send_ack_state(self) -> (r: Handshake<SentAck>) {
        Handshake { state: SentAck }
    }

    /// After the peer's acknowledgement: we wait for its version message.
    pub fn receive_ver_state(self) -> (r: Handshake<ReceiveVersion>) {
        Handshake { state: ReceiveVersion }
    }

    /// Which handshake message came first.
    pub fn choice(&self) -> (r: &Received)
        ensures
            *r == self.state,
    {
        &self.state
    }
}

impl Handshake<SentAck> {
    /// Acknowledges the peer's version message; then we wait for its acknowledgement.
    pub fn send_ack(self) -> (r: (Handshake<ReceiveAck>, Message))
        ensures
            is_bitcoin_message(r.1),
            r.1.payload == Payload::Verack,
    {
        (Handshake { state: ReceiveAck }, verack_message())
    }
}

impl Handshake<ReceiveAck> {
    /// Takes in one message while we wait for the peer's acknowledgement: it completes the
    /// handshake; a second version message does not belong here; anything else is ignored.
    pub fn receive_ack(self, msg: Message) -> (r: Step<Handshake<Completed>, Handshake<ReceiveAck>>)
        ensures
            match spec_read_message(msg) {
                Some(Received::VerAck) => r is Advance,
                Some(Received::Version) => r is Unexpected,
                None => r is Ignored,
            },
    {
        match read_message(msg) {
            Some(Received::VerAck) => Step::Advance(Handshake { state: Completed }),
            Some(Received::Version) => Step::Unexpected(self),
            None => Step::Ignored(self),
        }
    }
}

impl Handshake<ReceiveVersion> {
    /// Takes in one message while we wait for the peer's version message: it moves on to our
    /// acknowledgement; a second acknowledgement does not belong here; anything else is
    /// ignored.
    pub fn receive_version(self, msg: Message) -> (r: Step<
        Handshake<AckAfterVersion>,
        Handshake<ReceiveVersion>,
    >)
        ensures
            match spec_read_message(msg) {
                Some(Received::Version) => r is Advance,
                Some(Received::VerAck) => r is Unexpected,
                None => r is Ignored,
            },
    {
        match read_message(msg) {
            Some(Received::Version) => Step::Advance(Handshake { state: AckAfterVersion }),
            Some(Received::VerAck) => Step::Unexpected(self),
            None => Step::Ignored(self),
        }
    }
}

impl Handshake<AckAfterVersion> {
    /// Acknowledges the peer's version message, which completes the handshake.
    pub fn send_ack(self) -> (r: (Handshake<Completed>, Message))
        ensures
            is_bitcoin_message(r.1),
            r.1.payload == Payload::Verack,
    {
        (Handshake { state: Completed }, verack_message())
    }
}

} // verus!
