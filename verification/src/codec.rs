//! Framing of Bitcoin network messages on a byte stream.
use vstd::prelude::*;

verus! {

#[verifier::external_type_specification]
#[verifier::external_body]
pub struct ExRawNetworkMessage(bitcoin::p2p::message::RawNetworkMessage);

#[verifier::external_type_specification]
#[verifier::external_body]
pub struct ExEncodeError(bitcoin::consensus::encode::Error);

#[verifier::external_type_specification]
#[verifier::external_body]
pub struct ExBytesMut(bytes::BytesMut);

/// The bytes held by a `bytes::BytesMut` buffer, in order.
pub uninterp spec fn buffer_contents(buf: bytes::BytesMut) -> Seq<u8>;

/// What `bitcoin::consensus::deserialize_partial` gives for a `RawNetworkMessage` at the front
/// of `data`: the message and how many bytes it consumed; `None` where it fails.
pub uninterp spec fn partial_decode(data: Seq<u8>) -> Option<(bitcoin::p2p::message::RawNetworkMessage, usize)>;

/// The wire form that `bitcoin::consensus::serialize` gives for a `RawNetworkMessage`.
pub uninterp spec fn wire_form(msg: bitcoin::p2p::message::RawNetworkMessage) -> Seq<u8>;

/// Calls `<BytesMut as AsRef<[u8]>>::as_ref`, which hands out the buffer's bytes.
#[verifier::external_body]
fn buffer_bytes(buf: &bytes::BytesMut) -> (r: &[u8])
    ensures
        r@ == buffer_contents(*buf),
{
    buf.as_ref()
}

/// Calls `BytesMut::split_to(at)` and drops the front part it returns: afterwards the buffer
/// holds the bytes from `at` on. `split_to` panics where `at` exceeds the length.
#[verifier::external_body]
fn buffer_drop_front(buf: &mut bytes::BytesMut, at: usize)
    requires
        at <= buffer_contents(*old(buf)).len(),
    ensures
        buffer_contents(*final(buf)) == buffer_contents(*old(buf)).skip(at as int),
{
    let _ = buf.split_to(at);
}

/// Calls `<BytesMut as Extend<u8>>::extend`, which appends the bytes at the end. It panics
/// where the new length overflows `usize`, which `requires` leaves out; a failure of the
/// allocator to grow the underlying storage is not excluded by any clause.
#[verifier::external_body]
fn buffer_extend(buf: &mut bytes::BytesMut, data: Vec<u8>)
    requires
        buffer_contents(*old(buf)).len() + data@.len() <= usize::MAX,
    ensures
        buffer_contents(*final(buf)) == buffer_contents(*old(buf)) + data@,
{
    buf.extend(data)
}

/// Calls `bitcoin::consensus::deserialize_partial::<RawNetworkMessage>`. On success it reports
/// how far its cursor read: at least the 24 header bytes (magic, command, length, checksum),
/// and never past the end of `data`.
#[verifier::external_body]
fn deserialize_message(data: &[u8]) -> (r: Result<
    (bitcoin::p2p::message::RawNetworkMessage, usize),
    bitcoin::consensus::encode::Error,
>)
    ensures
        match r {
            Ok((m, n)) => partial_decode(data@) == Some((m, n)) && 24 <= n <= data@.len(),
            Err(_) => partial_decode(data@) is None,
        },
{
    bitcoin::consensus::deserialize_partial(data)
}

/// Calls `bitcoin::consensus::serialize` on a `RawNetworkMessage`: its wire form, which always
/// holds the 24 header bytes (magic, command, length, checksum) before the payload.
#[verifier::external_body]
fn serialize_message(msg: &bitcoin::p2p::message::RawNetworkMessage) -> (r: Vec<u8>)
    ensures
        r@ == wire_form(*msg),
        r@.len() >= 24,
{
    bitcoin::consensus::serialize(msg)
}

/// The messages that decode one after the other from the front of `data`, in order, and
/// whether the whole of `data` was decoded (`false` where a decode failed first).
pub open spec fn frames(data: Seq<u8>) -> (Seq<bitcoin::p2p::message::RawNetworkMessage>, bool)
    decreases data.len(),
{
    if data.len() == 0 {
        (Seq::empty(), true)
    } else {
        match partial_decode(data) {
            Some((m, n)) => {
                if 0 < n <= data.len() {
                    let rest = frames(data.skip(n as int));
                    (seq![m] + rest.0, rest.1)
                } else {
                    (Seq::empty(), false)
                }
            },
            None => (Seq::empty(), false),
        }
    }
}

/// Where the `k`-th of a run of frames with lengths `lens` starts: the sum of the lengths before
/// it.
pub open spec fn frame_offset(lens: Seq<usize>, k: int) -> int
    decreases k,
{
    if k <= 0 || lens.len() == 0 {
        0
    } else {
        lens[0] + frame_offset(lens.drop_first(), k - 1)
    }
}

/// Whether `data` holds, from its front, frames that decode one after the other to `msgs`, the
/// `k`-th taking `lens[k]` bytes from where the one before it ended.
pub open spec fn decodes_in_turn(data: Seq<u8>, msgs: Seq<bitcoin::p2p::message::RawNetworkMessage>, lens: Seq<usize>) -> bool {
    &&& msgs.len() == lens.len()
    &&& forall|k: int| 0 <= k < lens.len() ==> #[trigger] lens[k] > 0
    &&& forall|k: int|
        0 <= k < lens.len() ==> partial_decode(data.skip(frame_offset(lens, k)))
            == Some((#[trigger] msgs[k], lens[k]))
    &&& frame_offset(lens, lens.len() as int) <= data.len()
}

proof fn lemma_frames_in_turn(data: Seq<u8>, msgs: Seq<bitcoin::p2p::message::RawNetworkMessage>, lens: Seq<usize>)
    requires
        decodes_in_turn(data, msgs, lens),
    ensures
        frames(data).0 == msgs + frames(data.skip(frame_offset(lens, lens.len() as int))).0,
        frames(data).1 == frames(data.skip(frame_offset(lens, lens.len() as int))).1,
    decreases lens.len(),
{
    if lens.len() == 0 {
        assert(data.skip(0) == data);
        assert(msgs + frames(data).0 == frames(data).0);
    } else {
        let n = lens[0];
        assert(frame_offset(lens, 0) == 0);
        assert(data.skip(0) == data);
        assert(partial_decode(data) == Some((msgs[0], n)));
        let tail_lens = lens.drop_first();
        let tail_msgs = msgs.drop_first();
        let rest = data.skip(n as int);
        lemma_frame_offset_bounds(lens, lens.len() as int);
        assert(n <= frame_offset(lens, lens.len() as int));
        assert(0 < n <= data.len());
        assert forall|k: int| 0 <= k < tail_lens.len() implies #[trigger] tail_lens[k] > 0 by {
            assert(tail_lens[k] == lens[k + 1]);
        }
        assert forall|k: int| 0 <= k < tail_lens.len() implies partial_decode(rest.skip(frame_offset(tail_lens, k)))
            == Some((#[trigger] tail_msgs[k], tail_lens[k])) by {
            assert(tail_lens[k] == lens[k + 1]);
            assert(tail_msgs[k] == msgs[k + 1]);
            assert(frame_offset(lens, k + 1) == n + frame_offset(tail_lens, k));
            lemma_frame_offset_bounds(tail_lens, k);
            assert(rest.skip(frame_offset(tail_lens, k)) == data.skip(frame_offset(lens, k + 1)));
        }
        assert(frame_offset(lens, lens.len() as int) == n + frame_offset(tail_lens, tail_lens.len() as int));
        lemma_frame_offset_bounds(tail_lens, tail_lens.len() as int);
        assert(rest.skip(frame_offset(tail_lens, tail_lens.len() as int)) == data.skip(frame_offset(lens, lens.len() as int)));
        lemma_frames_in_turn(rest, tail_msgs, tail_lens);
        assert(msgs == seq![msgs[0]] + tail_msgs);
        assert(msgs + frames(data.skip(frame_offset(lens, lens.len() as int))).0 == seq![msgs[0]] + (tail_msgs + frames(rest.skip(frame_offset(tail_lens, tail_lens.len() as int))).0));
    }
}

proof fn lemma_frame_offset_bounds(lens: Seq<usize>, k: int)
    requires
        0 <= k <= lens.len(),
    ensures
        0 <= frame_offset(lens, k) <= frame_offset(lens, lens.len() as int),
        k > 0 ==> lens[0] <= frame_offset(lens, k),
    decreases lens.len(),
{
    if k > 0 {
        lemma_frame_offset_bounds(lens.drop_first(), k - 1);
    } else if lens.len() > 0 {
        lemma_frame_offset_bounds(lens.drop_first(), lens.len() - 1);
    }
}

/// Every message that decodes one after the other from the bytes of a read is taken, each once
/// and in order, however many there are: where the frames cover the bytes exactly, the result
/// is all of their messages and success.
pub proof fn lemma_frames_take_every_message(data: Seq<u8>, msgs: Seq<bitcoin::p2p::message::RawNetworkMessage>, lens: Seq<usize>)
    requires
        decodes_in_turn(data, msgs, lens),
        frame_offset(lens, lens.len() as int) == data.len(),
    ensures
        frames(data) == (msgs, true),
{
    lemma_frames_in_turn(data, msgs, lens);
    assert(data.skip(data.len() as int).len() == 0);
    assert(msgs + Seq::<bitcoin::p2p::message::RawNetworkMessage>::empty() == msgs);
}

/// Where the bytes after a run of frames that decode in turn do not decode, the result is the
/// messages of that run, in order, and a failure.
pub proof fn lemma_frames_stop_at_failure(data: Seq<u8>, msgs: Seq<bitcoin::p2p::message::RawNetworkMessage>, lens: Seq<usize>)
    requires
        decodes_in_turn(data, msgs, lens),
        frame_offset(lens, lens.len() as int) < data.len(),
        partial_decode(data.skip(frame_offset(lens, lens.len() as int))) is None,
    ensures
        frames(data) == (msgs, false),
{
    lemma_frames_in_turn(data, msgs, lens);
    lemma_frame_offset_bounds(lens, lens.len() as int);
    let rest = data.skip(frame_offset(lens, lens.len() as int));
    assert(rest.len() > 0);
    assert(frames(rest) == (Seq::<bitcoin::p2p::message::RawNetworkMessage>::empty(), false));
    assert(msgs + Seq::<bitcoin::p2p::message::RawNetworkMessage>::empty() == msgs);
}

/// Codec of Bitcoin network messages for a framed byte stream.
pub struct BitcoinCodec;

impl BitcoinCodec {
    /// Decodes one message from the front of `src`. Where the bytes do not (yet) hold a whole
    /// message, nothing is returned and `src` is left as it was; otherwise the message decoded
    /// at the front is returned and its bytes are removed from the front of `src`.
    pub fn decode(&mut self, src: &mut bytes::BytesMut) -> (r: Option<
        bitcoin::p2p::message::RawNetworkMessage,
    >)
        ensures
            match partial_decode(buffer_contents(*old(src))) {
                Some((m, n)) => {
                    &&& r == Some(m)
                    &&& buffer_contents(*final(src)) == buffer_contents(*old(src)).skip(n as int)
                },
                None => r is None && *final(src) == *old(src),
            },
            buffer_contents(*old(src)).len() < 24 ==> r is None && *final(src) == *old(src),
    {
        let decoded = deserialize_message(buffer_bytes(src));
        take_decoded(src, decoded)
    }

    /// Appends the wire form of `item` to `dst`. Where the grown buffer's length would not fit
    /// in `usize`, `dst` is left as it was and the error says so.
    pub fn encode(&mut self, item: bitcoin::p2p::message::RawNetworkMessage, dst: &mut bytes::BytesMut) -> (r: Result<(), CodecError>)
        ensures
            r is Ok <==> buffer_contents(*old(dst)).len() + wire_form(item).len() <= usize::MAX,
            r is Ok ==> buffer_contents(*final(dst)) == buffer_contents(*old(dst)) + wire_form(item),
            r is Err ==> *final(dst) == *old(dst) && r == Err::<(), CodecError>(CodecError::BufferOverflow),
            wire_form(item).len() <= usize::MAX,
    {
        let bytes = serialize_message(&item);
        let held = buffer_bytes(dst).len();
        if bytes.len() > usize::MAX - held {
            return Err(CodecError::BufferOverflow);
        }
        buffer_extend(dst, bytes);
        Ok(())
    }
}

/// Takes the outcome of decoding the front of `src`: a decoded message is returned and its
/// bytes are removed from the front of `src`; a failure returns nothing and leaves `src` as it
/// was.
pub fn take_decoded(
    src: &mut bytes::BytesMut,
    decoded: Result<(bitcoin::p2p::message::RawNetworkMessage, usize), bitcoin::consensus::encode::Error>,
) -> (r: Option<bitcoin::p2p::message::RawNetworkMessage>)
    requires
        decoded matches Ok((_, n)) ==> n <= buffer_contents(*old(src)).len(),
    ensures
        match decoded {
            Ok((m, n)) => {
                &&& r == Some(m)
                &&& buffer_contents(*final(src)) == buffer_contents(*old(src)).skip(n as int)
            },
            Err(_) => r is None && *final(src) == *old(src),
        },
{
    match decoded {
        Ok((msg, consumed)) => {
            buffer_drop_front(src, consumed);
            Some(msg)
        },
        Err(_) => None,
    }
}

/// Takes the outcome of decoding the next frame, `consumed` bytes into a read: a decoded
/// message is appended to `messages` and the position after it is returned; a failure leaves
/// `messages` as it was and gives the decode error.
pub fn record_frame(
    messages: &mut Vec<bitcoin::p2p::message::RawNetworkMessage>,
    consumed: usize,
    decoded: Result<(bitcoin::p2p::message::RawNetworkMessage, usize), bitcoin::consensus::encode::Error>,
) -> (r: Result<usize, CodecError>)
    requires
        decoded matches Ok((_, n)) ==> consumed + n <= usize::MAX,
    ensures
        match decoded {
            Ok((m, n)) => {
                &&& r == Ok::<usize, CodecError>((consumed + n) as usize)
                &&& final(messages)@ == old(messages)@.push(m)
            },
            Err(_) => r == Err::<usize, CodecError>(CodecError::Decode) && final(messages)@
                == old(messages)@,
        },
{
    match decoded {
        Ok((msg, n)) => {
            messages.push(msg);
            Ok(consumed + n)
        },
        Err(_) => Err(CodecError::Decode),
    }
}

/// Failures of the codec.
#[derive(Debug, Clone, Copy, PartialEq, Eq, Structural)]
pub enum CodecError {
    /// The message could not be decoded from the bytes at hand.
    Decode,
    /// Appending the message would make the buffer longer than `usize` can count.
    BufferOverflow,
}


/// Decodes the messages that follow one another in `data`, front to back, as a stream reader
/// does with the bytes of one read. It stops at the first failure: the messages decoded before
/// it are returned together with the error.
pub fn split_frames(data: &[u8]) -> (r: (Vec<bitcoin::p2p::message::RawNetworkMessage>, Result<(), CodecError>))
    ensures
        r.0@ == frames(data@).0,
        r.1 is Ok <==> frames(data@).1,
        r.1 is Err ==> r.1 == Err::<(), CodecError>(CodecError::Decode),
{
    let mut messages: Vec<bitcoin::p2p::message::RawNetworkMessage> = Vec::new();
    let mut consumed: usize = 0;
    assert(data@.skip(0) == data@);
    assert(messages@ + frames(data@).0 == frames(data@).0);
    while consumed < data.len()
        invariant
            consumed <= data@.len(),
            frames(data@).0 == messages@ + frames(data@.skip(consumed as int)).0,
            frames(data@).1 == frames(data@.skip(consumed as int)).1,
        decreases data@.len() - consumed,
    {
        let rest = &data[consumed..data.len()];
        assert(rest@ == data@.skip(consumed as int));
        let decoded = deserialize_message(rest);
        let ghost before = messages@;
        let ghost outcome = decoded;
        match record_frame(&mut messages, consumed, decoded) {
            Ok(next) => {
                proof {
                    let (msg, n) = outcome->Ok_0;
                    let tail = frames(rest@.skip(n as int));
                    assert(frames(rest@) == (seq![msg] + tail.0, tail.1));
                    assert(rest@.skip(n as int) == data@.skip(consumed + n));
                    assert(before + (seq![msg] + tail.0) == before.push(msg) + tail.0);
                }
                consumed = next;
            },
            Err(e) => {
                proof {
                    assert(frames(rest@) == (Seq::<bitcoin::p2p::message::RawNetworkMessage>::empty(), false));
                    assert(messages@ + Seq::<bitcoin::p2p::message::RawNetworkMessage>::empty() == messages@);
                }
                return (messages, Err(e));
            },
        }
    }
    proof {
        assert(data@.skip(consumed as int).len() == 0);
        assert(messages@ + Seq::<bitcoin::p2p::message::RawNetworkMessage>::empty() == messages@);
    }
    (messages, Ok(()))
}

} // verus!
