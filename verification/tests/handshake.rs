use typestate_bitcoin_handshake::handshake::{
    read_message, Handshake, Initial, Received, Step,
};
use typestate_bitcoin_handshake::message::{
    build_version_message, net_address, unix_secs_from_elapsed, verack_message, HandshakeError, Message, NetAddress,
    Payload, SocketAddress, VersionMessage, PROTOCOL_VERSION,
};
use typestate_bitcoin_handshake::session::{Note, Session, Transition};

const BITCOIN_MAGIC: [u8; 4] = [0xF9, 0xBE, 0xB4, 0xD9];

fn local_peer(port: u16) -> SocketAddress {
    SocketAddress::V4 { ip: [127, 0, 0, 1], port }
}

/// The version message a remote node sends, as the peer of the tests.
fn static_version_message_package() -> Message {
    let version = VersionMessage {
        version: PROTOCOL_VERSION,
        services: 0,
        timestamp: 1_700_000_000,
        receiver: NetAddress { services: 0, address: [0, 0, 0, 0, 0, 0xffff, 0x7f00, 1], port: 8333 },
        sender: NetAddress { services: 0, address: [0; 8], port: 0 },
        nonce: 7,
        user_agent: "remote".to_string(),
        start_height: 0,
        relay: false,
    };
    Message { magic: BITCOIN_MAGIC, payload: Payload::Version(version) }
}

fn ping() -> Message {
    Message { magic: BITCOIN_MAGIC, payload: Payload::Other("ping".to_string()) }
}

fn start(port: u16) -> (Session, Message) {
    Session::start(&local_peer(port)).expect("clock after the epoch")
}

fn feed(session: Session, msg: Message) -> Transition {
    session.on_message(msg)
}

#[test]
fn message_sequence_1() {
    let (session, first) = start(8080);
    let msg = read_message(first).expect("Failed to read message");
    assert_eq!(msg, Received::Version);

    // The peer acknowledges first, then sends its version.
    let t = feed(session, verack_message());
    assert!(t.reply.is_none());
    assert!(!t.session.is_finished());
    let t = feed(t.session, static_version_message_package());
    let ack = t.reply.expect("Failed to get ACK message");
    assert_eq!(ack, verack_message());
    assert!(t.session.is_finished());
    assert!(t.session.failure().is_none());
}

#[test]
fn message_sequence_2() {
    let (session, first) = start(8081);
    let msg = read_message(first).expect("Failed to read message");
    assert_eq!(msg, Received::Version);

    // The peer sends its version, then its acknowledgement.
    let t = feed(session, static_version_message_package());
    let ack = t.reply;
    let t = feed(t.session, verack_message());
    assert!(t.reply.is_none());
    assert_eq!(ack, Some(verack_message()));
    assert!(t.session.is_finished());
    assert!(t.session.failure().is_none());
}

#[test]
fn message_sequence_3() {
    let (session, first) = start(8082);
    let msg = read_message(first).expect("Failed to read message");
    assert_eq!(msg, Received::Version);

    // The peer sends its version and waits for our acknowledgement before sending its own.
    let t = feed(session, static_version_message_package());
    let ack = t.reply.expect("Failed to Ack message");
    assert_eq!(ack, verack_message());
    assert!(!t.session.is_finished());
    let t = feed(t.session, verack_message());
    assert!(t.session.is_finished());
    assert!(t.session.failure().is_none());
}

#[test]
fn first_message_is_our_version() {
    let (_, first) = start(8333);
    assert_eq!(first.magic, BITCOIN_MAGIC);
    match first.payload {
        Payload::Version(v) => {
            assert_eq!(v.version, 70001);
            assert_eq!(v.services, 0);
            assert!(v.timestamp > 0);
            assert_eq!(v.receiver, NetAddress { services: 0, address: [0, 0, 0, 0, 0, 0xffff, 0x7f00, 1], port: 8333 });
            assert_eq!(v.sender, NetAddress { services: 0, address: [0; 8], port: 0 });
            assert_eq!(v.nonce, 0);
            assert_eq!(v.user_agent, "TEST NODE");
            assert_eq!(v.start_height, 0);
            assert!(!v.relay);
        }
        _ => panic!("the first message is not a version message"),
    }
}

#[test]
fn version_message_exact_fields() {
    let v = build_version_message(&SocketAddress::V4 { ip: [10, 1, 2, 3], port: 18333 }, 1_234)
        .expect("in range");
    assert_eq!(v.timestamp, 1_234);
    assert_eq!(v.receiver.address, [0, 0, 0, 0, 0, 0xffff, 0x0a01, 0x0203]);
    assert_eq!(v.receiver.port, 18333);
    assert_eq!(v.user_agent, "TEST NODE");
}

#[test]
fn version_message_timestamp_out_of_range() {
    let r = build_version_message(&local_peer(1), u64::MAX);
    assert_eq!(r, Err(HandshakeError::TimestampOutOfRange));
    let r = build_version_message(&local_peer(1), i64::MAX as u64);
    assert_eq!(r.map(|v| v.timestamp), Ok(i64::MAX));
}

#[test]
fn net_address_of_ipv6_keeps_segments() {
    let segments = [0x2001, 0xdb8, 0, 0, 0, 0, 0, 1];
    let a = net_address(&SocketAddress::V6 { segments, port: 9 }, 5);
    assert_eq!(a, NetAddress { services: 5, address: segments, port: 9 });
}

#[test]
fn verack_has_bitcoin_magic() {
    let m = verack_message();
    assert_eq!(m.magic, BITCOIN_MAGIC);
    assert_eq!(m.payload, Payload::Verack);
}

#[test]
fn read_message_kinds() {
    assert_eq!(read_message(verack_message()), Some(Received::VerAck));
    assert_eq!(read_message(static_version_message_package()), Some(Received::Version));
    assert_eq!(read_message(ping()), None);
}

#[test]
fn typestate_transitions() {
    let (sent, first) = Handshake::<Initial>::new().send_version(&local_peer(1)).expect("clock");
    assert!(matches!(first.payload, Payload::Version(_)));
    let sent = match sent.receive_message(ping()) {
        Step::Ignored(h) => h,
        _ => panic!("a ping moved the handshake"),
    };
    let received = match sent.receive_message(static_version_message_package()) {
        Step::Advance(h) => h,
        _ => panic!("the version message did not move the handshake"),
    };
    assert_eq!(*received.choice(), Received::Version);
    let (waiting, ack) = received.send_ack_state().send_ack();
    assert_eq!(ack, verack_message());
    let waiting = match waiting.receive_ack(static_version_message_package()) {
        Step::Unexpected(h) => h,
        _ => panic!("a second version message was not flagged"),
    };
    assert!(matches!(waiting.receive_ack(verack_message()), Step::Advance(_)));
}

#[test]
fn typestate_verack_first() {
    let (sent, _) = Handshake::<Initial>::new().send_version(&local_peer(1)).expect("clock");
    let received = match sent.receive_message(verack_message()) {
        Step::Advance(h) => h,
        _ => panic!("the acknowledgement did not move the handshake"),
    };
    assert_eq!(*received.choice(), Received::VerAck);
    let waiting = received.receive_ver_state();
    let waiting = match waiting.receive_version(verack_message()) {
        Step::Unexpected(h) => h,
        _ => panic!("a second acknowledgement was not flagged"),
    };
    let waiting = match waiting.receive_version(ping()) {
        Step::Ignored(h) => h,
        _ => panic!("a ping moved the handshake"),
    };
    let due = match waiting.receive_version(static_version_message_package()) {
        Step::Advance(h) => h,
        _ => panic!("the version message did not move the handshake"),
    };
    let (_, ack) = due.send_ack();
    assert_eq!(ack, verack_message());
}

#[test]
fn other_messages_are_ignored_everywhere() {
    let (session, _) = start(1);
    let t = feed(session, ping());
    assert_eq!(t.note, Note::Ignored);
    assert!(t.reply.is_none());
    let t = feed(t.session, static_version_message_package());
    assert_eq!(t.note, Note::Advanced);
    let t = feed(t.session, ping());
    assert_eq!(t.note, Note::Ignored);
    let t = feed(t.session, static_version_message_package());
    assert_eq!(t.note, Note::Unexpected);
    assert!(t.reply.is_none());
    let t = feed(t.session, verack_message());
    assert!(t.session.is_finished());
    let t = feed(t.session, static_version_message_package());
    assert!(t.reply.is_none());
    assert!(t.session.is_finished());
}

#[test]
fn closed_before_answer_fails() {
    let (session, _) = start(1);
    let t = session.on_closed();
    assert!(t.session.is_finished());
    assert_eq!(t.session.failure(), Some(HandshakeError::ChannelClosed));
    assert!(t.reply.is_none());
}

#[test]
fn closed_while_waiting_for_ack_fails() {
    let (session, _) = start(1);
    let t = feed(session, static_version_message_package());
    let t = t.session.on_closed();
    assert!(t.session.is_finished());
    assert_eq!(t.session.failure(), Some(HandshakeError::ChannelClosed));
    assert!(t.reply.is_none());
}

#[test]
fn closed_while_waiting_for_version_fails_without_ack() {
    let (session, _) = start(1);
    let t = feed(session, verack_message());
    let t = t.session.on_closed();
    assert!(t.session.is_finished());
    assert_eq!(t.session.failure(), Some(HandshakeError::ChannelClosed));
    assert!(t.reply.is_none());
}

#[test]
fn completed_stays_completed_after_close() {
    let (session, _) = start(1);
    let t = feed(session, verack_message());
    let t = feed(t.session, static_version_message_package());
    let t = t.session.on_closed();
    assert!(t.session.is_finished());
    assert!(t.session.failure().is_none());
    assert_eq!(t.note, Note::Ignored);
}

#[test]
fn seconds_from_elapsed_time() {
    let r = unix_secs_from_elapsed(Ok(std::time::Duration::from_millis(12_345)));
    assert_eq!(r, Ok(12));
    let later = std::time::UNIX_EPOCH + std::time::Duration::from_secs(5);
    let before_epoch = std::time::UNIX_EPOCH.duration_since(later);
    assert!(before_epoch.is_err());
    assert_eq!(unix_secs_from_elapsed(before_epoch), Err(HandshakeError::ClockBeforeEpoch));
}

#[test]
fn at_most_one_ack_over_many_versions() {
    let (mut session, _) = start(1);
    let mut acks = 0;
    for _ in 0..5 {
        let t = feed(session, static_version_message_package());
        if t.reply.is_some() {
            acks += 1;
        }
        session = t.session;
    }
    let t = feed(session, verack_message());
    assert!(t.session.is_finished());
    assert_eq!(acks, 1);
}

#[test]
fn one_side_alone_does_not_complete() {
    let (session, _) = start(1);
    let t = feed(session, static_version_message_package());
    let t = feed(t.session, static_version_message_package());
    let t = feed(t.session, ping());
    assert!(!t.session.is_finished());

    let (session, _) = start(1);
    let t = feed(session, verack_message());
    let t = feed(t.session, verack_message());
    assert_eq!(t.note, Note::Unexpected);
    assert!(!t.session.is_finished());
}

#[test]
fn extra_versions_before_the_ack_change_nothing() {
    let (session, _) = start(1);
    let t = feed(session, static_version_message_package());
    let mut session = t.session;
    for _ in 0..3 {
        let t = feed(session, static_version_message_package());
        assert!(t.reply.is_none());
        let t = feed(t.session, ping());
        assert!(t.reply.is_none());
        session = t.session;
    }
    let t = feed(session, verack_message());
    assert!(t.session.is_finished());
    assert!(t.session.failure().is_none());
    assert!(t.reply.is_none());
}
