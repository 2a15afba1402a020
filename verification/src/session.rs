//! The whole handshake as one state machine: the typestates of one run, held in turn, with the
//! decision that each message from the peer (or the end of its messages) brings.
use vstd::prelude::*;
use crate::handshake::{
    spec_read_message, Completed, Handshake, Initial, Received, ReceiveAck,
    ReceiveVersion, SentVersion, Step,
};
use crate::message::{
    is_bitcoin_message, is_elapsed_seconds, is_version_message_for, HandshakeError, Message, Payload, SocketAddress,
};

verus! {

/// Where a running handshake stands.
#[derive(Debug, Clone, Copy, PartialEq, Eq, Structural)]
pub enum Phase {
    SentVersion,
    ReceiveAck,
    ReceiveVersion,
    Completed,
    Failed,
}

/// What the peer's side brings to a running handshake: a message (by what it means to the
/// handshake), or the end of its messages.
#[derive(Debug, Clone, Copy, PartialEq, Eq, Structural)]
pub enum Input {
    Message(Option<Received>),
    Closed,
}

/// How a message was taken.
#[derive(Debug, Clone, Copy, PartialEq, Eq, Structural)]
pub enum Note {
    /// The handshake moved on.
    Advanced,
    /// The message plays no part in the handshake's current state.
    Ignored,
    /// A handshake message arrived a second time; it is ignored.
    Unexpected,
}

/// One step of the handshake: the next phase, and whether we acknowledge the peer's version
/// message on this step.
pub open spec fn step(p: Phase, i: Input) -> (Phase, bool) {
    match p {
        Phase::SentVersion => match i {
            Input::Message(Some(Received::VerAck)) => (Phase::ReceiveVersion, false),
            Input::Message(Some(Received::Version)) => (Phase::ReceiveAck, true),
            Input::Message(None) => (Phase::SentVersion, false),
            Input::Closed => (Phase::Failed, false),
        },
        Phase::ReceiveAck => match i {
            Input::Message(Some(Received::VerAck)) => (Phase::Completed, false),
            Input::Message(_) => (Phase::ReceiveAck, false),
            Input::Closed => (Phase::Failed, false),
        },
        Phase::ReceiveVersion => match i {
            Input::Message(Some(Received::Version)) => (Phase::Completed, true),
            Input::Message(_) => (Phase::ReceiveVersion, false),
            Input::Closed => (Phase::Failed, false),
        },
        Phase::Completed => (Phase::Completed, false),
        Phase::Failed => (Phase::Failed, false),
    }
}

/// How a message is taken in each phase.
pub open spec fn note_of(p: Phase, m: Option<Received>) -> Note {
    match (p, m) {
        (Phase::SentVersion, Some(_)) => Note::Advanced,
        (Phase::ReceiveAck, Some(Received::VerAck)) => Note::Advanced,
        (Phase::ReceiveAck, Some(Received::Version)) => Note::Unexpected,
        (Phase::ReceiveVersion, Some(Received::Version)) => Note::Advanced,
        (Phase::ReceiveVersion, Some(Received::VerAck)) => Note::Unexpected,
        _ => Note::Ignored,
    }
}

/// The phase after a sequence of inputs, and how many acknowledgements we sent on the way.
pub open spec fn run(p: Phase, inputs: Seq<Input>) -> (Phase, nat)
    decreases inputs.len(),
{
    if inputs.len() == 0 {
        (p, 0)
    } else {
        let (q, ack) = step(p, inputs[0]);
        let rest = run(q, inputs.drop_first());
        (rest.0, rest.1 + if ack { 1nat } else { 0nat })
    }
}

/// A running handshake, in the typestate it has reached.
pub enum Session {
    SentVersion(Handshake<SentVersion>),
    ReceiveAck(Handshake<ReceiveAck>),
    ReceiveVersion(Handshake<ReceiveVersion>),
    Completed(Handshake<Completed>),
    Failed(HandshakeError),
}

/// A session after one input, the message to send in answer (if any), and how the input was
/// taken.
pub struct Transition {
    pub session: Session,
    pub reply: Option<Message>,
    pub note: Note,
}

/// The reply is our acknowledgement where one is due, and nothing otherwise.
pub open spec fn reply_matches(reply: Option<Message>, ack: bool) -> bool {
    match reply {
        Some(m) => ack && is_bitcoin_message(m) && m.payload == Payload::Verack,
        None => !ack,
    }
}

impl Session {
    pub open spec fn phase(&self) -> Phase {
        match self {
            Session::SentVersion(_) => Phase::SentVersion,
            Session::ReceiveAck(_) => Phase::ReceiveAck,
            Session::ReceiveVersion(_) => Phase::ReceiveVersion,
            Session::Completed(_) => Phase::Completed,
            Session::Failed(_) => Phase::Failed,
        }
    }

    /// Starts a handshake with the peer at `address`: the first message to send is our
    /// version message. It fails only where the clock cannot stamp that message.
    pub fn start(address: &SocketAddress) -> (r: Result<(Session, Message), HandshakeError>)
        ensures
            r matches Ok((s, m)) ==> {
                &&& s.phase() == Phase::SentVersion
                &&& is_bitcoin_message(m)
                &&& m.payload matches Payload::Version(v)
                &&& 0 <= v.timestamp
                &&& is_version_message_for(v, *address, v.timestamp as int)
                &&& is_elapsed_seconds(v.timestamp as int)
            },
            r is Err ==> r == Err::<(Session, Message), HandshakeError>(HandshakeError::ClockBeforeEpoch)
                || r == Err::<(Session, Message), HandshakeError>(HandshakeError::TimestampOutOfRange),
    {
        match Handshake::<Initial>::new().send_version(address) {
            Ok((h, m)) => Ok((Session::SentVersion(h), m)),
            Err(e) => Err(e),
        }
    }

    /// Takes in one message from the peer.
    pub fn on_message(self, msg: Message) -> (r: Transition)
        ensures
            r.session.phase() == step(self.phase(), Input::Message(spec_read_message(msg))).0,
            reply_matches(r.reply, step(self.phase(), Input::Message(spec_read_message(msg))).1),
            r.note == note_of(self.phase(), spec_read_message(msg)),
            self matches Session::Failed(e) ==> r.session == Session::Failed(e),
    {
        match self {
            Session::SentVersion(h) => match h.receive_message(msg) {
                Step::Advance(received) => {
                    let first = *received.choice();
                    match first {
                        Received::VerAck => Transition {
                            session: Session::ReceiveVersion(received.receive_ver_state()),
                            reply: None,
                            note: Note::Advanced,
                        },
                        Received::Version => {
                            let (next, ack) = received.send_ack_state().send_ack();
                            Transition {
                                session: Session::ReceiveAck(next),
                                reply: Some(ack),
                                note: Note::Advanced,
                            }
                        },
                    }
                },
                Step::Ignored(h) => Transition {
                    session: Session::SentVersion(h),
                    reply: None,
                    note: Note::Ignored,
                },
                Step::Unexpected(h) => Transition {
                    session: Session::SentVersion(h),
                    reply: None,
                    note: Note::Unexpected,
                },
            },
            Session::ReceiveAck(h) => match h.receive_ack(msg) {
                Step::Advance(done) => Transition {
                    session: Session::Completed(done),
                    reply: None,
                    note: Note::Advanced,
                },
                Step::Ignored(h) => Transition {
                    session: Session::ReceiveAck(h),
                    reply: None,
                    note: Note::Ignored,
                },
                Step::Unexpected(h) => Transition {
                    session: Session::ReceiveAck(h),
                    reply: None,
                    note: Note::Unexpected,
                },
            },
            Session::ReceiveVersion(h) => match h.receive_version(msg) {
                Step::Advance(due) => {
                    let (done, ack) = due.send_ack();
                    Transition { session: Session::Completed(done), reply: Some(ack), note: Note::Advanced }
                },
                Step::Ignored(h) => Transition {
                    session: Session::ReceiveVersion(h),
                    reply: None,
                    note: Note::Ignored,
                },
                Step::Unexpected(h) => Transition {
                    session: Session::ReceiveVersion(h),
                    reply: None,
                    note: Note::Unexpected,
                },
            },
            Session::Completed(h) => Transition {
                session: Session::Completed(h),
                reply: None,
                note: Note::Ignored,
            },
            Session::Failed(e) => Transition {
                session: Session::Failed(e),
                reply: None,
                note: Note::Ignored,
            },
        }
    }

    /// Takes in the end of the peer's messages. Before the handshake completed that is a
    /// failure, and nothing is sent; a finished handshake stays as it is.
    pub fn on_closed(self) -> (r: Transition)
        ensures
            r.session.phase() == step(self.phase(), Input::Closed).0,
            reply_matches(r.reply, step(self.phase(), Input::Closed).1),
            r.note == if self.phase() == Phase::Completed || self.phase() == Phase::Failed {
                Note::Ignored
            } else {
                Note::Advanced
            },
            self.phase() == Phase::SentVersion || self.phase() == Phase::ReceiveAck
                || self.phase() == Phase::ReceiveVersion ==> r.session == Session::Failed(
                HandshakeError::ChannelClosed,
            ),
            self matches Session::Failed(e) ==> r.session == Session::Failed(e),
    {
        match self {
            Session::SentVersion(_) | Session::ReceiveAck(_) | Session::ReceiveVersion(_) => {
                Transition {
                    session: Session::Failed(HandshakeError::ChannelClosed),
                    reply: None,
                    note: Note::Advanced,
                }
            },
            Session::Completed(h) => Transition {
                session: Session::Completed(h),
                reply: None,
                note: Note::Ignored,
            },
            Session::Failed(e) => Transition {
                session: Session::Failed(e),
                reply: None,
                note: Note::Ignored,
            },
        }
    }

    /// Whether the handshake is over: completed or failed.
    pub fn is_finished(&self) -> (r: bool)
        ensures
            r == (self.phase() == Phase::Completed || self.phase() == Phase::Failed),
    {
        match self {
            Session::Completed(_) | Session::Failed(_) => true,
            _ => false,
        }
    }

    /// The failure that ended the handshake, if it failed.
    pub fn failure(&self) -> (r: Option<HandshakeError>)
        ensures
            match self {
                Session::Failed(e) => r == Some(*e),
                _ => r is None,
            },
    {
        match self {
            Session::Failed(e) => Some(*e),
            _ => None,
        }
    }
}


/// The peer's version message.
pub open spec fn peer_version() -> Input {
    Input::Message(Some(Received::Version))
}

/// The peer's acknowledgement.
pub open spec fn peer_verack() -> Input {
    Input::Message(Some(Received::VerAck))
}

/// Whether `x` comes among `inputs` before the peer's messages end.
pub open spec fn arrives(inputs: Seq<Input>, x: Input) -> bool
    decreases inputs.len(),
{
    if inputs.len() == 0 {
        false
    } else if inputs[0] == Input::Closed {
        false
    } else if inputs[0] == x {
        true
    } else {
        arrives(inputs.drop_first(), x)
    }
}

/// Whether a run from phase `p` over `inputs` ends completed: what the peer still owes must
/// arrive before its messages end.
pub open spec fn completes_from(p: Phase, inputs: Seq<Input>) -> bool {
    match p {
        Phase::SentVersion => arrives(inputs, peer_version()) && arrives(inputs, peer_verack()),
        Phase::ReceiveAck => arrives(inputs, peer_verack()),
        Phase::ReceiveVersion => arrives(inputs, peer_version()),
        Phase::Completed => true,
        Phase::Failed => false,
    }
}

/// How many acknowledgements a run from phase `p` over `inputs` sends: one where ours is still
/// due and the peer's version message arrives before its messages end.
pub open spec fn acks_from(p: Phase, inputs: Seq<Input>) -> nat {
    match p {
        Phase::SentVersion | Phase::ReceiveVersion => if arrives(inputs, peer_version()) {
            1nat
        } else {
            0nat
        },
        _ => 0nat,
    }
}

/// From any phase, a run completes exactly when what the peer still owes arrives before its
/// messages end, and it sends an acknowledgement exactly where ours is still due and the
/// peer's version message arrives before that end.
pub proof fn lemma_run_from(p: Phase, inputs: Seq<Input>)
    ensures
        (run(p, inputs).0 == Phase::Completed) == completes_from(p, inputs),
        run(p, inputs).1 == acks_from(p, inputs),
    decreases inputs.len(),
{
    if inputs.len() > 0 {
        let q = step(p, inputs[0]).0;
        lemma_run_from(q, inputs.drop_first());
        if q == Phase::Failed || q == Phase::Completed {
            lemma_finished_is_final(q, inputs.drop_first());
        }
    }
}

proof fn lemma_arrives_is_contained(inputs: Seq<Input>, x: Input)
    requires
        arrives(inputs, x),
    ensures
        inputs.contains(x),
    decreases inputs.len(),
{
    if inputs[0] == x {
        assert(inputs[0] == x);
    } else {
        let rest = inputs.drop_first();
        lemma_arrives_is_contained(rest, x);
        let k = choose|k: int| 0 <= k < rest.len() && rest[k] == x;
        assert(inputs[k + 1] == x);
    }
}

proof fn lemma_contains_split(inputs: Seq<Input>, x: Input)
    requires
        inputs.len() > 0,
    ensures
        inputs.contains(x) <==> (inputs[0] == x || inputs.drop_first().contains(x)),
{
    let rest = inputs.drop_first();
    if inputs.contains(x) {
        let k = choose|k: int| 0 <= k < inputs.len() && inputs[k] == x;
        if k > 0 {
            assert(rest[k - 1] == x);
        }
    }
    if rest.contains(x) {
        let k = choose|k: int| 0 <= k < rest.len() && rest[k] == x;
        assert(inputs[k + 1] == x);
    }
    if inputs[0] == x {
        assert(inputs.contains(x));
    }
}

proof fn lemma_arrives_without_close(inputs: Seq<Input>, x: Input)
    requires
        !inputs.contains(Input::Closed),
        x != Input::Closed,
    ensures
        arrives(inputs, x) <==> inputs.contains(x),
    decreases inputs.len(),
{
    if inputs.len() == 0 {
    } else {
        let rest = inputs.drop_first();
        lemma_contains_split(inputs, x);
        lemma_contains_split(inputs, Input::Closed);
        lemma_arrives_without_close(rest, x);
    }
}

/// The handshake completes exactly when the peer sent both its version message and its
/// acknowledgement before its messages ended: in either order, with any other messages in
/// between.
pub proof fn lemma_completes_iff_both_arrive(inputs: Seq<Input>)
    ensures
        (run(Phase::SentVersion, inputs).0 == Phase::Completed) <==> (arrives(inputs, peer_version())
            && arrives(inputs, peer_verack())),
{
    lemma_run_from(Phase::SentVersion, inputs);
}

/// Where the peer's messages do not end, the handshake completes exactly when they hold both
/// its version message and its acknowledgement.
pub proof fn lemma_completes_iff_both_received(inputs: Seq<Input>)
    requires
        !inputs.contains(Input::Closed),
    ensures
        (run(Phase::SentVersion, inputs).0 == Phase::Completed) <==> (inputs.contains(peer_version())
            && inputs.contains(peer_verack())),
{
    lemma_run_from(Phase::SentVersion, inputs);
    lemma_arrives_without_close(inputs, peer_version());
    lemma_arrives_without_close(inputs, peer_verack());
}

/// Every version message of the peer is answered by an acknowledgement, exactly once: we send
/// one acknowledgement if the peer's version message arrived before its messages ended, and
/// none otherwise.
pub proof fn lemma_one_ack_for_the_peer_version(inputs: Seq<Input>)
    ensures
        run(Phase::SentVersion, inputs).1 == if arrives(inputs, peer_version()) {
            1nat
        } else {
            0nat
        },
{
    lemma_run_from(Phase::SentVersion, inputs);
}

/// A completed handshake received the peer's version message and its acknowledgement, and
/// sent exactly one acknowledgement of its own.
pub proof fn lemma_completed_run_exchanged_both(inputs: Seq<Input>)
    requires
        run(Phase::SentVersion, inputs).0 == Phase::Completed,
    ensures
        inputs.contains(peer_version()),
        inputs.contains(peer_verack()),
        run(Phase::SentVersion, inputs).1 == 1,
{
    lemma_run_from(Phase::SentVersion, inputs);
    lemma_arrives_is_contained(inputs, peer_version());
    lemma_arrives_is_contained(inputs, peer_verack());
}

proof fn lemma_acks_bounded(p: Phase, inputs: Seq<Input>)
    ensures
        run(p, inputs).1 <= if p == Phase::SentVersion || p == Phase::ReceiveVersion {
            1nat
        } else {
            0nat
        },
    decreases inputs.len(),
{
    if inputs.len() > 0 {
        lemma_acks_bounded(step(p, inputs[0]).0, inputs.drop_first());
    }
}

/// Whatever the peer sends, and wherever its messages end, we send at most one
/// acknowledgement.
pub proof fn lemma_at_most_one_ack(inputs: Seq<Input>)
    ensures
        run(Phase::SentVersion, inputs).1 <= 1,
{
    lemma_acks_bounded(Phase::SentVersion, inputs);
}

/// A handshake that completed or failed stays so, and sends nothing more.
pub proof fn lemma_finished_is_final(p: Phase, inputs: Seq<Input>)
    requires
        p == Phase::Completed || p == Phase::Failed,
    ensures
        run(p, inputs) == (p, 0nat),
    decreases inputs.len(),
{
    if inputs.len() > 0 {
        lemma_finished_is_final(p, inputs.drop_first());
    }
}

/// A message that is neither a version message nor an acknowledgement changes nothing.
pub proof fn lemma_other_messages_ignored(p: Phase)
    ensures
        step(p, Input::Message(None)) == (p, false),
{
}


/// What a waiting handshake waits for: the acknowledgement in `ReceiveAck`, the version
/// message in `ReceiveVersion`.
pub open spec fn awaited(p: Phase) -> Input {
    if p == Phase::ReceiveAck {
        peer_verack()
    } else {
        peer_version()
    }
}

/// While the handshake waits for the peer's acknowledgement or version message, messages other
/// than the awaited one change nothing: a run with them put in front ends as the run without
/// them, and sends as much.
pub proof fn lemma_waiting_ignores_other_messages(p: Phase, extra: Seq<Input>, rest: Seq<Input>)
    requires
        p == Phase::ReceiveAck || p == Phase::ReceiveVersion,
        forall|k: int| 0 <= k < extra.len() ==> (#[trigger] extra[k]) is Message && extra[k] != awaited(p),
    ensures
        run(p, extra + rest) == run(p, rest),
    decreases extra.len(),
{
    if extra.len() > 0 {
        let all = extra + rest;
        assert(all[0] == extra[0]);
        assert(step(p, extra[0]) == (p, false));
        assert(all.drop_first() == extra.drop_first() + rest);
        let tail = extra.drop_first();
        assert forall|k: int| 0 <= k < tail.len() implies (#[trigger] tail[k]) is Message && tail[k] != awaited(p) by {
            assert(tail[k] == extra[k + 1]);
        }
        lemma_waiting_ignores_other_messages(p, tail, rest);
    } else {
        assert(extra + rest == rest);
    }
}

/// The note on a message tells whether it moved the handshake on: it is `Advanced` exactly when
/// the phase changes, `Unexpected` only for a handshake message that left the phase as it was,
/// and a message that is no handshake message is always `Ignored`.
pub proof fn lemma_note_tells_progress(p: Phase, m: Option<Received>)
    ensures
        (note_of(p, m) == Note::Advanced) <==> step(p, Input::Message(m)).0 != p,
        note_of(p, m) == Note::Unexpected ==> m is Some && step(p, Input::Message(m)).0 == p,
        m is None ==> note_of(p, m) == Note::Ignored,
{
}

/// Our acknowledgement answers the peer's version message: we acknowledge only on a step that
/// takes in the peer's version message.
pub proof fn lemma_ack_answers_version(p: Phase, i: Input)
    ensures
        step(p, i).1 ==> i == peer_version(),
{
}

} // verus!
