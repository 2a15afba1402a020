//! The decisions of the stream reader and writer on the outcome of a non-blocking read or
//! write.
use vstd::prelude::*;

verus! {

/// What an attempt to read from or write to a non-blocking socket came to.
#[derive(Debug, Clone, Copy, PartialEq, Eq, Structural)]
pub enum IoAttempt {
    /// That many bytes went through.
    Transferred(usize),
    /// The socket was not ready after all.
    WouldBlock,
    /// Any other failure.
    Failed,
}

/// What the reader does next.
#[derive(Debug, Clone, Copy, PartialEq, Eq, Structural)]
pub enum ReadAction {
    /// Nothing arrived: wait for the socket again.
    Wait,
    /// Decode the messages in the first that many bytes of the buffer.
    Decode(usize),
    /// Stop with the failure.
    Fail,
}

/// What the writer does next.
#[derive(Debug, Clone, Copy, PartialEq, Eq, Structural)]
pub enum WriteAction {
    /// The whole message went out.
    Done,
    /// Only a part went out; the rest is lost and the writer goes on with the next message.
    Truncated,
    /// Try the write again.
    Retry,
    /// Stop with the failure.
    Fail,
}

/// The reader's decision after one read attempt.
pub open spec fn spec_after_read(attempt: IoAttempt) -> ReadAction {
    match attempt {
        IoAttempt::Transferred(n) => if n == 0 {
            ReadAction::Wait
        } else {
            ReadAction::Decode(n)
        },
        IoAttempt::WouldBlock => ReadAction::Wait,
        IoAttempt::Failed => ReadAction::Fail,
    }
}

/// The writer's decision after one attempt to write a message of `len` bytes.
pub open spec fn spec_after_write(attempt: IoAttempt, len: usize) -> WriteAction {
    match attempt {
        IoAttempt::Transferred(n) => if n < len {
            WriteAction::Truncated
        } else {
            WriteAction::Done
        },
        IoAttempt::WouldBlock => WriteAction::Retry,
        IoAttempt::Failed => WriteAction::Fail,
    }
}

/// A write that sent fewer bytes than the message holds is never taken for the whole message:
/// it is truncated exactly when fewer than `len` bytes went out, and done exactly when all of
/// them did; a socket that was not ready is retried, and any other failure stops the writer.
pub proof fn lemma_write_decisions(n: usize, len: usize)
    ensures
        (spec_after_write(IoAttempt::Transferred(n), len) == WriteAction::Truncated) <==> n < len,
        (spec_after_write(IoAttempt::Transferred(n), len) == WriteAction::Done) <==> n >= len,
        spec_after_write(IoAttempt::WouldBlock, len) == WriteAction::Retry,
        spec_after_write(IoAttempt::Failed, len) == WriteAction::Fail,
{
}

/// A read that brought `n > 0` bytes is decoded over exactly those bytes; a read that brought
/// nothing, or found the socket not ready, waits; any other failure stops the reader.
pub proof fn lemma_read_decisions(n: usize)
    ensures
        n > 0 ==> spec_after_read(IoAttempt::Transferred(n)) == ReadAction::Decode(n),
        (spec_after_read(IoAttempt::Transferred(n)) == ReadAction::Wait) <==> n == 0,
        spec_after_read(IoAttempt::WouldBlock) == ReadAction::Wait,
        spec_after_read(IoAttempt::Failed) == ReadAction::Fail,
{
}

/// The reader's decision after one read attempt.
pub fn after_read(attempt: IoAttempt) -> (r: ReadAction)
    ensures
        r == spec_after_read(attempt),
{
    match attempt {
        IoAttempt::Transferred(0) => ReadAction::Wait,
        IoAttempt::Transferred(n) => ReadAction::Decode(n),
        IoAttempt::WouldBlock => ReadAction::Wait,
        IoAttempt::Failed => ReadAction::Fail,
    }
}

/// The writer's decision after one attempt to write a message of `len` bytes.
pub fn after_write(attempt: IoAttempt, len: usize) -> (r: WriteAction)
    ensures
        r == spec_after_write(attempt, len),
{
    match attempt {
        IoAttempt::Transferred(n) => if n < len {
            WriteAction::Truncated
        } else {
            WriteAction::Done
        },
        IoAttempt::WouldBlock => WriteAction::Retry,
        IoAttempt::Failed => WriteAction::Fail,
    }
}

/// What a reader does over a run of read attempts: the lengths of the reads it decodes, in
/// order, and whether it stopped with a failure (after which no attempt counts).
pub open spec fn reader_run(attempts: Seq<IoAttempt>) -> (Seq<usize>, bool)
    decreases attempts.len(),
{
    if attempts.len() == 0 {
        (Seq::empty(), false)
    } else {
        let rest = reader_run(attempts.drop_first());
        match spec_after_read(attempts[0]) {
            ReadAction::Wait => rest,
            ReadAction::Decode(n) => (seq![n] + rest.0, rest.1),
            ReadAction::Fail => (Seq::empty(), true),
        }
    }
}

/// A read attempt that brings nothing: the socket was not ready, or no bytes came.
pub open spec fn idle_read(attempt: IoAttempt) -> bool {
    attempt == IoAttempt::WouldBlock || attempt == IoAttempt::Transferred(0)
}

/// A read attempt that brings nothing, wherever it comes in a run, changes nothing: the reader
/// decodes the same reads in the same order and fails or not as without it.
pub proof fn lemma_idle_reads_change_nothing(before: Seq<IoAttempt>, idle: IoAttempt, after: Seq<IoAttempt>)
    requires
        idle_read(idle),
    ensures
        reader_run(before + seq![idle] + after) == reader_run(before + after),
    decreases before.len(),
{
    let with = before + seq![idle] + after;
    if before.len() == 0 {
        assert(with[0] == idle);
        assert(with.drop_first() == after);
        assert(before + after == after);
    } else {
        assert(with[0] == before[0]);
        assert((before + after)[0] == before[0]);
        assert(with.drop_first() == before.drop_first() + seq![idle] + after);
        assert((before + after).drop_first() == before.drop_first() + after);
        lemma_idle_reads_change_nothing(before.drop_first(), idle, after);
    }
}

/// What a writer comes to over a run of attempts to write one message of `len` bytes: the
/// first decision other than a retry, or `None` while it is still retrying. Every retry
/// writes the same whole buffer again.
pub open spec fn writer_run(attempts: Seq<IoAttempt>, len: usize) -> Option<WriteAction>
    decreases attempts.len(),
{
    if attempts.len() == 0 {
        None
    } else {
        match spec_after_write(attempts[0], len) {
            WriteAction::Retry => writer_run(attempts.drop_first(), len),
            action => Some(action),
        }
    }
}

/// A write attempt that found the socket not ready, wherever it comes in a run, changes
/// nothing: the writer retries the same buffer and comes to the same decision.
pub proof fn lemma_blocked_writes_change_nothing(before: Seq<IoAttempt>, after: Seq<IoAttempt>, len: usize)
    ensures
        writer_run(before + seq![IoAttempt::WouldBlock] + after, len) == writer_run(before + after, len),
    decreases before.len(),
{
    let with = before + seq![IoAttempt::WouldBlock] + after;
    if before.len() == 0 {
        assert(with[0] == IoAttempt::WouldBlock);
        assert(with.drop_first() == after);
        assert(before + after == after);
    } else {
        assert(with[0] == before[0]);
        assert((before + after)[0] == before[0]);
        assert(with.drop_first() == before.drop_first() + seq![IoAttempt::WouldBlock] + after);
        assert((before + after).drop_first() == before.drop_first() + after);
        lemma_blocked_writes_change_nothing(before.drop_first(), after, len);
    }
}

} // verus!
