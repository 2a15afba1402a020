use bitcoin::p2p::message::{NetworkMessage, RawNetworkMessage};
use bitcoin::Network;
use bytes::BytesMut;
use typestate_bitcoin_handshake::codec::{
    record_frame, split_frames, take_decoded, BitcoinCodec, CodecError,
};
use typestate_bitcoin_handshake::connection::{
    after_read, after_write, IoAttempt, ReadAction, WriteAction,
};

fn verack() -> RawNetworkMessage {
    RawNetworkMessage::new(Network::Bitcoin.magic(), NetworkMessage::Verack)
}

fn ping() -> RawNetworkMessage {
    RawNetworkMessage::new(Network::Bitcoin.magic(), NetworkMessage::Ping(42))
}

#[test]
fn decode_whole_message_consumes_it() {
    let bytes = bitcoin::consensus::serialize(&verack());
    let mut buf = BytesMut::from(&bytes[..]);
    buf.extend_from_slice(&[1, 2, 3]);
    let mut codec = BitcoinCodec;
    let msg = codec.decode(&mut buf).expect("a whole message");
    assert_eq!(msg, verack());
    assert_eq!(&buf[..], &[1, 2, 3]);
}

#[test]
fn decode_partial_message_keeps_buffer() {
    let bytes = bitcoin::consensus::serialize(&ping());
    let mut buf = BytesMut::from(&bytes[..bytes.len() - 1]);
    let mut codec = BitcoinCodec;
    assert!(codec.decode(&mut buf).is_none());
    assert_eq!(&buf[..], &bytes[..bytes.len() - 1]);
}

#[test]
fn encode_appends_wire_form() {
    let mut codec = BitcoinCodec;
    let mut dst = BytesMut::from(&[9u8][..]);
    codec.encode(ping(), &mut dst).expect("room in the buffer");
    let expected = bitcoin::consensus::serialize(&ping());
    assert_eq!(dst.len(), 1 + expected.len());
    assert_eq!(dst[0], 9);
    assert_eq!(&dst[1..], &expected[..]);
    let mut rest = BytesMut::from(&dst[1..]);
    assert_eq!(codec.decode(&mut rest), Some(ping()));
    assert!(rest.is_empty());
}

#[test]
fn split_frames_decodes_in_order() {
    let mut data = bitcoin::consensus::serialize(&verack());
    data.extend(bitcoin::consensus::serialize(&ping()));
    let (messages, status) = split_frames(&data);
    assert_eq!(status, Ok(()));
    assert_eq!(messages, vec![verack(), ping()]);
}

#[test]
fn split_frames_stops_at_garbage() {
    let mut data = bitcoin::consensus::serialize(&verack());
    data.extend_from_slice(&[0u8; 5]);
    let (messages, status) = split_frames(&data);
    assert_eq!(status, Err(CodecError::Decode));
    assert_eq!(messages, vec![verack()]);
}

#[test]
fn split_frames_of_nothing() {
    let (messages, status) = split_frames(&[]);
    assert!(messages.is_empty());
    assert_eq!(status, Ok(()));
}

#[test]
fn reader_decisions() {
    assert_eq!(after_read(IoAttempt::Transferred(0)), ReadAction::Wait);
    assert_eq!(after_read(IoAttempt::Transferred(24)), ReadAction::Decode(24));
    assert_eq!(after_read(IoAttempt::WouldBlock), ReadAction::Wait);
    assert_eq!(after_read(IoAttempt::Failed), ReadAction::Fail);
}

#[test]
fn writer_decisions() {
    assert_eq!(after_write(IoAttempt::Transferred(10), 24), WriteAction::Truncated);
    assert_eq!(after_write(IoAttempt::Transferred(24), 24), WriteAction::Done);
    assert_eq!(after_write(IoAttempt::WouldBlock, 24), WriteAction::Retry);
    assert_eq!(after_write(IoAttempt::Failed, 24), WriteAction::Fail);
}

#[test]
fn take_decoded_removes_the_consumed_bytes() {
    let mut src = BytesMut::from(&[1u8, 2, 3, 4, 5][..]);
    let r = take_decoded(&mut src, Ok((ping(), 3)));
    assert_eq!(r, Some(ping()));
    assert_eq!(&src[..], &[4, 5]);
}

#[test]
fn take_decoded_failure_keeps_the_buffer() {
    let mut src = BytesMut::from(&[1u8, 2, 3][..]);
    let failure = bitcoin::consensus::encode::Error::ParseFailed("bad");
    assert_eq!(take_decoded(&mut src, Err(failure)), None);
    assert_eq!(&src[..], &[1, 2, 3]);
}

#[test]
fn record_frame_appends_and_advances() {
    let mut messages = vec![verack()];
    assert_eq!(record_frame(&mut messages, 24, Ok((ping(), 32))), Ok(56));
    assert_eq!(messages, vec![verack(), ping()]);
    let failure = bitcoin::consensus::encode::Error::ParseFailed("bad");
    assert_eq!(record_frame(&mut messages, 56, Err(failure)), Err(CodecError::Decode));
    assert_eq!(messages, vec![verack(), ping()]);
}

#[test]
fn encode_into_empty_buffer_succeeds() {
    let mut codec = BitcoinCodec;
    let mut dst = BytesMut::new();
    assert_eq!(codec.encode(verack(), &mut dst), Ok(()));
    assert_eq!(&dst[..], &bitcoin::consensus::serialize(&verack())[..]);
}

fn decoded_lengths(attempts: &[IoAttempt]) -> (Vec<usize>, bool) {
    let mut lengths = Vec::new();
    for a in attempts {
        match after_read(*a) {
            ReadAction::Wait => {}
            ReadAction::Decode(n) => lengths.push(n),
            ReadAction::Fail => return (lengths, true),
        }
    }
    (lengths, false)
}

#[test]
fn idle_reads_change_nothing() {
    let plain = [IoAttempt::Transferred(24), IoAttempt::Transferred(56)];
    let idle = [
        IoAttempt::WouldBlock,
        IoAttempt::Transferred(24),
        IoAttempt::Transferred(0),
        IoAttempt::WouldBlock,
        IoAttempt::Transferred(56),
    ];
    assert_eq!(decoded_lengths(&plain), decoded_lengths(&idle));
    assert_eq!(decoded_lengths(&idle), (vec![24, 56], false));
}

#[test]
fn blocked_writes_are_retried() {
    let attempts = [IoAttempt::WouldBlock, IoAttempt::WouldBlock, IoAttempt::Transferred(24)];
    let mut decision = None;
    for a in attempts {
        match after_write(a, 24) {
            WriteAction::Retry => continue,
            other => {
                decision = Some(other);
                break;
            }
        }
    }
    assert_eq!(decision, Some(WriteAction::Done));
}
