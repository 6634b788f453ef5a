//! The two ends of a message stream: the task that decodes messages from a reader and relays them
//! to a channel, and the task that takes messages from a channel and writes them out.
//!
//! A step takes the outcome of the work that was just done and says which work comes next, or with
//! which result the task ends. `E` is whatever the program reports as the source of a failure.

use std::ops::ControlFlow;
use vstd::prelude::*;

verus! {

/// What a step decides: the next work, or the end of the task with its result.
pub type Flow<W, X> = ControlFlow<Result<(), X>, W>;

/// How many messages a channel between two tasks holds.
pub const CHANNEL_CAPACITY: usize = 10;

/// Why reading from the stream failed.
#[derive(Debug, Copy, Clone, PartialEq, Eq, Structural)]
pub enum ReadErrorKind {
    UnexpectedEof,
    Other,
}

/// Why no message could be decoded.
#[derive(Debug, PartialEq, Eq)]
pub enum DecodeError<E> {
    /// The read of a marker, the byte that starts each value, failed.
    InvalidMarkerRead { kind: ReadErrorKind, source: E },
    /// Anything else.
    Other { source: E },
}

impl<E> DecodeError<E> {
    /// Whether the stream ended where a marker was due.
    pub open spec fn at_end_of_stream(self) -> bool {
        self matches DecodeError::InvalidMarkerRead { kind: ReadErrorKind::UnexpectedEof, .. }
    }

    /// The failure that the decoder reported.
    pub open spec fn source(self) -> E {
        match self {
            DecodeError::InvalidMarkerRead { source, .. } => source,
            DecodeError::Other { source } => source,
        }
    }

    /// The failure that the decoder reported.
    pub fn into_source(self) -> (source: E)
        ensures
            source == self.source(),
    {
        match self {
            DecodeError::InvalidMarkerRead { source, .. } => source,
            DecodeError::Other { source } => source,
        }
    }
}

/// What a reader makes of a decoder's result: a message goes on, the end of the stream where a
/// marker was due is a clean end, and any other failure is an end with that failure.
pub fn rmp_final_read<T, E>(r: Result<T, DecodeError<E>>) -> (flow: ControlFlow<
    Result<(), DecodeError<E>>,
    T,
>)
    ensures
        flow == final_read(r),
{
    match r {
        Ok(msg) => ControlFlow::Continue(msg),
        Err(DecodeError::InvalidMarkerRead { kind, source }) => {
            if kind == ReadErrorKind::UnexpectedEof {
                ControlFlow::Break(Ok(()))
            } else {
                ControlFlow::Break(Err(DecodeError::InvalidMarkerRead { kind, source }))
            }
        },
        Err(e) => ControlFlow::Break(Err(e)),
    }
}

/// What `rmp_final_read` returns.
pub open spec fn final_read<T, E>(r: Result<T, DecodeError<E>>) -> Flow<T, DecodeError<E>> {
    match r {
        Ok(msg) => ControlFlow::Continue(msg),
        Err(e) => ControlFlow::Break(
            if e.at_end_of_stream() {
                Ok(())
            } else {
                Err(e)
            },
        ),
    }
}

/// An outcome in the task that decodes and relays messages.
#[derive(Debug)]
pub enum ReadEvent<M, E> {
    /// The decoder returned.
    Decoded(Result<M, DecodeError<E>>),
    /// The channel took the message, or it was closed.
    Relayed(Result<(), E>),
}

/// What the task that decodes and relays messages does next; it starts with `Decode`.
#[derive(Debug, PartialEq, Eq)]
pub enum ReadWork<M> {
    /// Decode one message from the stream.
    Decode,
    /// Send the message to the channel.
    Relay(M),
}

/// Why the task that decodes and relays messages failed.
#[derive(Debug, PartialEq, Eq)]
pub enum ReadTaskError<E> {
    Decode(E),
    Relay(E),
}

/// What follows an outcome in the task that decodes and relays messages.
pub open spec fn read_next<M, E>(event: ReadEvent<M, E>) -> Flow<ReadWork<M>, ReadTaskError<E>> {
    match event {
        ReadEvent::Decoded(decoded) => match final_read(decoded) {
            ControlFlow::Continue(message) => ControlFlow::Continue(ReadWork::Relay(message)),
            ControlFlow::Break(Ok(())) => ControlFlow::Break(Ok(())),
            ControlFlow::Break(Err(e)) => ControlFlow::Break(
                Err(ReadTaskError::Decode(e.source())),
            ),
        },
        ReadEvent::Relayed(Ok(())) => ControlFlow::Continue(ReadWork::Decode),
        ReadEvent::Relayed(Err(source)) => ControlFlow::Break(Err(ReadTaskError::Relay(source))),
    }
}

/// One step of the task that decodes and relays messages.
pub fn read_step<M, E>(event: ReadEvent<M, E>) -> (flow: Flow<ReadWork<M>, ReadTaskError<E>>)
    ensures
        flow == read_next(event),
{
    match event {
        ReadEvent::Decoded(decoded) => match rmp_final_read(decoded) {
            ControlFlow::Continue(message) => ControlFlow::Continue(ReadWork::Relay(message)),
            ControlFlow::Break(Ok(())) => ControlFlow::Break(Ok(())),
            ControlFlow::Break(Err(e)) => ControlFlow::Break(
                Err(ReadTaskError::Decode(e.into_source())),
            ),
        },
        ReadEvent::Relayed(Ok(())) => ControlFlow::Continue(ReadWork::Decode),
        ReadEvent::Relayed(Err(source)) => ControlFlow::Break(Err(ReadTaskError::Relay(source))),
    }
}

/// An outcome in the task that writes messages out.
#[derive(Debug)]
pub enum WriteEvent<M, E> {
    /// The channel gave a message, or it is closed and empty.
    Received(Option<M>),
    /// The message was written to the stream's buffer, or not.
    Written(Result<(), E>),
    /// The buffer was flushed, or not.
    Flushed(Result<(), E>),
}

/// What the task that writes messages out does next; it starts with `Receive`.
#[derive(Debug, PartialEq, Eq)]
pub enum WriteWork<M> {
    /// Take one message from the channel.
    Receive,
    /// Write the message to the stream.
    Write(M),
    /// Flush the stream.
    Flush,
}

/// Why the task that writes messages out failed.
#[derive(Debug, PartialEq, Eq)]
pub enum WriteTaskError<E> {
    Write(E),
    Flush(E),
}

/// What follows an outcome in the task that writes messages out.
pub open spec fn write_next<M, E>(event: WriteEvent<M, E>) -> Flow<
    WriteWork<M>,
    WriteTaskError<E>,
> {
    match event {
        WriteEvent::Received(Some(message)) => ControlFlow::Continue(WriteWork::Write(message)),
        WriteEvent::Received(None) => ControlFlow::Break(Ok(())),
        WriteEvent::Written(Ok(())) => ControlFlow::Continue(WriteWork::Flush),
        WriteEvent::Written(Err(source)) => ControlFlow::Break(Err(WriteTaskError::Write(source))),
        WriteEvent::Flushed(Ok(())) => ControlFlow::Continue(WriteWork::Receive),
        WriteEvent::Flushed(Err(source)) => ControlFlow::Break(Err(WriteTaskError::Flush(source))),
    }
}

/// One step of the task that writes messages out.
pub fn write_step<M, E>(event: WriteEvent<M, E>) -> (flow: Flow<WriteWork<M>, WriteTaskError<E>>)
    ensures
        flow == write_next(event),
{
    match event {
        WriteEvent::Received(Some(message)) => ControlFlow::Continue(WriteWork::Write(message)),
        WriteEvent::Received(None) => ControlFlow::Break(Ok(())),
        WriteEvent::Written(Ok(())) => ControlFlow::Continue(WriteWork::Flush),
        WriteEvent::Written(Err(source)) => ControlFlow::Break(Err(WriteTaskError::Write(source))),
        WriteEvent::Flushed(Ok(())) => ControlFlow::Continue(WriteWork::Receive),
        WriteEvent::Flushed(Err(source)) => ControlFlow::Break(Err(WriteTaskError::Flush(source))),
    }
}

/// What the read task does in rounds of one decode and one relay each: the messages that it
/// relays, and the result with which it ends, if it does.
pub open spec fn read_run<M, E>(
    rounds: Seq<(Result<M, DecodeError<E>>, Result<(), E>)>,
) -> (Seq<M>, Option<Result<(), ReadTaskError<E>>>)
    decreases rounds.len(),
{
    if rounds.len() == 0 {
        (seq![], None)
    } else {
        match read_next::<M, E>(ReadEvent::Decoded(rounds[0].0)) {
            ControlFlow::Continue(ReadWork::Relay(message)) => {
                match read_next::<M, E>(ReadEvent::Relayed(rounds[0].1)) {
                    ControlFlow::Continue(_) => {
                        let rest = read_run(rounds.skip(1));
                        (seq![message] + rest.0, rest.1)
                    },
                    ControlFlow::Break(end) => (seq![message], Some(end)),
                }
            },
            ControlFlow::Continue(ReadWork::Decode) => (seq![], None),
            ControlFlow::Break(end) => (seq![], Some(end)),
        }
    }
}

/// The read task relays exactly the messages that were decoded, in order, none lost, repeated or
/// made up; and it ends cleanly only where the stream ended where a marker was due, and with a
/// failure only where that failure came up.
pub proof fn law_read_relays_in_order<M, E>(
    rounds: Seq<(Result<M, DecodeError<E>>, Result<(), E>)>,
)
    ensures
        ({
            let (relayed, end) = read_run(rounds);
            let n = relayed.len() as int;
            &&& n <= rounds.len()
            &&& forall|i: int| 0 <= i < n ==> (#[trigger] rounds[i]).0 == Ok::<M, DecodeError<E>>(
                relayed[i],
            )
            &&& forall|i: int| 0 <= i < n - 1 ==> (#[trigger] rounds[i]).1 is Ok
            &&& match end {
                None => n == rounds.len() && (n > 0 ==> rounds[n - 1].1 is Ok),
                Some(Ok(())) => {
                    &&& n < rounds.len()
                    &&& rounds[n].0 matches Err(e) && e.at_end_of_stream()
                    &&& n > 0 ==> rounds[n - 1].1 is Ok
                },
                Some(Err(ReadTaskError::Decode(source))) => {
                    &&& n < rounds.len()
                    &&& rounds[n].0 matches Err(e) && !e.at_end_of_stream() && e.source() == source
                    &&& n > 0 ==> rounds[n - 1].1 is Ok
                },
                Some(Err(ReadTaskError::Relay(source))) => {
                    n > 0 && rounds[n - 1].1 == Err::<(), E>(source)
                },
            }
        }),
    decreases rounds.len(),
{
    if rounds.len() > 0 {
        let tail = rounds.skip(1);
        law_read_relays_in_order(tail);
        let (relayed, _) = read_run(rounds);
        let (rest, _) = read_run(tail);
        if rounds[0].0 is Ok && rounds[0].1 is Ok {
            assert forall|i: int| 0 <= i < relayed.len() implies (#[trigger] rounds[i]).0 == Ok::<
                M,
                DecodeError<E>,
            >(relayed[i]) by {
                if i > 0 {
                    assert(tail[i - 1] == rounds[i]);
                    assert(rest[i - 1] == relayed[i]);
                }
            }
            assert forall|i: int| 0 <= i < relayed.len() - 1 implies (#[trigger] rounds[i]).1
                is Ok by {
                if i > 0 {
                    assert(tail[i - 1] == rounds[i]);
                }
            }
            let n = relayed.len() as int;
            assert(n < rounds.len() ==> rounds[n] == tail[n - 1]);
            assert(n > 1 ==> rounds[n - 1] == tail[n - 2]);
        }
    }
}

/// What the write task does in rounds of one receive, one write and one flush each: the messages
/// that it writes, how many flushes it asks for, and the result with which it ends, if it does.
pub open spec fn write_run<M, E>(
    rounds: Seq<(Option<M>, Result<(), E>, Result<(), E>)>,
) -> (Seq<M>, nat, Option<Result<(), WriteTaskError<E>>>)
    decreases rounds.len(),
{
    if rounds.len() == 0 {
        (seq![], 0, None)
    } else {
        match write_next::<M, E>(WriteEvent::Received(rounds[0].0)) {
            ControlFlow::Continue(WriteWork::Write(message)) => {
                match write_next::<M, E>(WriteEvent::Written(rounds[0].1)) {
                    ControlFlow::Continue(_) => {
                        match write_next::<M, E>(WriteEvent::Flushed(rounds[0].2)) {
                            ControlFlow::Continue(_) => {
                                let rest = write_run(rounds.skip(1));
                                (seq![message] + rest.0, 1 + rest.1, rest.2)
                            },
                            ControlFlow::Break(end) => (seq![message], 1, Some(end)),
                        }
                    },
                    ControlFlow::Break(end) => (seq![message], 0, Some(end)),
                }
            },
            ControlFlow::Continue(_) => (seq![], 0, None),
            ControlFlow::Break(end) => (seq![], 0, Some(end)),
        }
    }
}

/// The write task writes exactly the messages that it receives, in order, and asks for a flush
/// after each before it receives the next; it ends cleanly only where the channel is closed, and
/// with a failure only where that write or that flush of the last message failed.
pub proof fn law_write_in_order<M, E>(rounds: Seq<(Option<M>, Result<(), E>, Result<(), E>)>)
    ensures
        ({
            let (written, flushes, end) = write_run(rounds);
            let n = written.len() as int;
            &&& n <= rounds.len()
            &&& forall|i: int| 0 <= i < n ==> (#[trigger] rounds[i]).0 == Some(written[i])
            &&& forall|i: int|
                0 <= i < n - 1 ==> (#[trigger] rounds[i]).1 is Ok && rounds[i].2 is Ok
            &&& flushes <= n <= flushes + 1
            &&& match end {
                None => {
                    &&& n == rounds.len()
                    &&& flushes == n
                    &&& n > 0 ==> rounds[n - 1].1 is Ok && rounds[n - 1].2 is Ok
                },
                Some(Ok(())) => {
                    &&& n < rounds.len()
                    &&& rounds[n].0 is None
                    &&& flushes == n
                    &&& n > 0 ==> rounds[n - 1].1 is Ok && rounds[n - 1].2 is Ok
                },
                Some(Err(WriteTaskError::Write(source))) => {
                    &&& n > 0
                    &&& rounds[n - 1].1 == Err::<(), E>(source)
                    &&& flushes == n - 1
                },
                Some(Err(WriteTaskError::Flush(source))) => {
                    &&& n > 0
                    &&& rounds[n - 1].1 is Ok
                    &&& rounds[n - 1].2 == Err::<(), E>(source)
                    &&& flushes == n
                },
            }
        }),
    decreases rounds.len(),
{
    if rounds.len() > 0 {
        let tail = rounds.skip(1);
        law_write_in_order(tail);
        let (written, _, _) = write_run(rounds);
        let (rest, _, _) = write_run(tail);
        if rounds[0].0 is Some && rounds[0].1 is Ok && rounds[0].2 is Ok {
            assert forall|i: int| 0 <= i < written.len() implies (#[trigger] rounds[i]).0 == Some(
                written[i],
            ) by {
                if i > 0 {
                    assert(tail[i - 1] == rounds[i]);
                    assert(rest[i - 1] == written[i]);
                }
            }
            assert forall|i: int| 0 <= i < written.len() - 1 implies (#[trigger] rounds[i]).1 is Ok
                && rounds[i].2 is Ok by {
                if i > 0 {
                    assert(tail[i - 1] == rounds[i]);
                }
            }
            let n = written.len() as int;
            assert(n < rounds.len() ==> rounds[n] == tail[n - 1]);
            assert(n > 1 ==> rounds[n - 1] == tail[n - 2]);
        }
    }
}

/// No message is discarded: where the channel hands over these messages, in order, and is then
/// closed, and no write or flush of them fails, the write task writes all of them, in order,
/// flushes each, and ends cleanly.
pub proof fn law_all_messages_are_written<M, E>(
    messages: Seq<M>,
    rounds: Seq<(Option<M>, Result<(), E>, Result<(), E>)>,
)
    requires
        rounds.len() == messages.len() + 1,
        forall|i: int|
            0 <= i < messages.len() ==> {
                &&& (#[trigger] rounds[i]).0 == Some(messages[i])
                &&& rounds[i].1 is Ok
                &&& rounds[i].2 is Ok
            },
        rounds.last().0 is None,
    ensures
        write_run(rounds).0 == messages,
        write_run(rounds).1 == messages.len(),
        write_run(rounds).2 matches Some(Ok(())),
{
    law_write_in_order(rounds);
    let (written, _, _) = write_run(rounds);
    let n = written.len() as int;
    assert(rounds.last() == rounds[messages.len() as int]);
    assert(n > 0 ==> rounds[n - 1].0 is Some);
    assert(n < messages.len() ==> rounds[n].0 is Some);
    assert forall|i: int| 0 <= i < n implies written[i] == messages[i] by {
        assert(rounds[i].0 == Some(written[i]));
    }
    assert(written =~= messages);
}

/// Messages cross a stream unchanged: where the reader decodes what the writer wrote and then comes
/// to the end of the stream, it relays exactly the messages that the writer was given, in order,
/// and ends cleanly.
pub proof fn law_messages_cross<M, E>(
    written: Seq<(Option<M>, Result<(), E>, Result<(), E>)>,
    read: Seq<(Result<M, DecodeError<E>>, Result<(), E>)>,
)
    requires
        !(write_run(written).2 matches Some(Err(_))),
        read.len() == write_run(written).0.len() + 1,
        forall|i: int|
            0 <= i < write_run(written).0.len() ==> {
                &&& (#[trigger] read[i]).0 == Ok::<M, DecodeError<E>>(write_run(written).0[i])
                &&& read[i].1 is Ok
            },
        read.last().0 matches Err(e) && e.at_end_of_stream(),
    ensures
        read_run(read).0 == write_run(written).0,
        read_run(read).1 matches Some(Ok(())),
        forall|i: int|
            0 <= i < read_run(read).0.len() ==> (#[trigger] written[i]).0 == Some(
                read_run(read).0[i],
            ),
{
    law_write_in_order(written);
    law_read_relays_in_order(read);
    let (sent, _, _) = write_run(written);
    let (relayed, end) = read_run(read);
    let n = relayed.len() as int;
    assert(read.last() == read[sent.len() as int]);
    assert(n > 0 ==> read[n - 1].0 is Ok);
    assert(n <= sent.len());
    assert(n < sent.len() ==> read[n].0 is Ok);
    assert forall|i: int| 0 <= i < n implies relayed[i] == sent[i] by {
        assert(read[i].0 == Ok::<M, DecodeError<E>>(relayed[i]));
    }
    assert(relayed =~= sent);
}

/// What a task that decodes and relays messages does by these steps, in rounds of one decode and
/// one relay each: the messages that it relays, and the result with which it ends, if it does. It
/// goes no further where a step asks for anything else than the relay of a message that was decoded
/// or the decoding of the next.
pub open spec fn read_task_run<M, E, X>(
    next: spec_fn(ReadEvent<M, E>) -> Flow<ReadWork<M>, X>,
    rounds: Seq<(Result<M, DecodeError<E>>, Result<(), E>)>,
) -> (Seq<M>, Option<Result<(), X>>)
    decreases rounds.len(),
{
    if rounds.len() == 0 {
        (seq![], None)
    } else {
        match next(ReadEvent::Decoded(rounds[0].0)) {
            ControlFlow::Continue(ReadWork::Relay(message)) => {
                match next(ReadEvent::Relayed(rounds[0].1)) {
                    ControlFlow::Continue(ReadWork::Decode) => {
                        let rest = read_task_run(next, rounds.skip(1));
                        (seq![message] + rest.0, rest.1)
                    },
                    ControlFlow::Continue(_) => (seq![message], None),
                    ControlFlow::Break(end) => (seq![message], Some(end)),
                }
            },
            ControlFlow::Continue(_) => (seq![], None),
            ControlFlow::Break(end) => (seq![], Some(end)),
        }
    }
}

/// A task whose steps relay every message and name the two failures by `decode` and `relay` relays
/// exactly what was decoded, in order.
pub(crate) proof fn lemma_read_task<M, E, X>(
    next: spec_fn(ReadEvent<M, E>) -> Flow<ReadWork<M>, X>,
    decode: spec_fn(E) -> X,
    relay: spec_fn(E) -> X,
    rounds: Seq<(Result<M, DecodeError<E>>, Result<(), E>)>,
)
    requires
        forall|event: ReadEvent<M, E>| #[trigger]
            next(event) == match event {
                ReadEvent::Decoded(Ok(message)) => ControlFlow::Continue(ReadWork::Relay(message)),
                ReadEvent::Decoded(Err(e)) => if e.at_end_of_stream() {
                    ControlFlow::Break(Ok(()))
                } else {
                    ControlFlow::Break(Err(decode(e.source())))
                },
                ReadEvent::Relayed(Ok(())) => ControlFlow::Continue(ReadWork::Decode),
                ReadEvent::Relayed(Err(source)) => ControlFlow::Break(Err(relay(source))),
            },
    ensures
        ({
            let (relayed, end) = read_task_run(next, rounds);
            let n = relayed.len() as int;
            &&& n <= rounds.len()
            &&& forall|i: int| 0 <= i < n ==> (#[trigger] rounds[i]).0 == Ok::<M, DecodeError<E>>(
                relayed[i],
            )
            &&& forall|i: int| 0 <= i < n - 1 ==> (#[trigger] rounds[i]).1 is Ok
            &&& match end {
                None => n == rounds.len() && (n > 0 ==> rounds[n - 1].1 is Ok),
                Some(Ok(())) => {
                    &&& n < rounds.len()
                    &&& rounds[n].0 matches Err(e) && e.at_end_of_stream()
                    &&& n > 0 ==> rounds[n - 1].1 is Ok
                },
                Some(Err(x)) => {
                    ||| {
                        &&& n < rounds.len()
                        &&& rounds[n].0 matches Err(e) && !e.at_end_of_stream() && x == decode(
                            e.source(),
                        )
                        &&& n > 0 ==> rounds[n - 1].1 is Ok
                    }
                    ||| n > 0 && (rounds[n - 1].1 matches Err(source) && x == relay(source))
                },
            }
        }),
    decreases rounds.len(),
{
    if rounds.len() > 0 {
        let tail = rounds.skip(1);
        lemma_read_task(next, decode, relay, tail);
        let (relayed, _) = read_task_run(next, rounds);
        let (rest, _) = read_task_run(next, tail);
        assert(next(ReadEvent::Decoded(rounds[0].0)) == next(ReadEvent::Decoded(rounds[0].0)));
        assert(next(ReadEvent::Relayed(rounds[0].1)) == next(ReadEvent::Relayed(rounds[0].1)));
        if rounds[0].0 is Ok && rounds[0].1 is Ok {
            assert forall|i: int| 0 <= i < relayed.len() implies (#[trigger] rounds[i]).0 == Ok::<
                M,
                DecodeError<E>,
            >(relayed[i]) by {
                if i > 0 {
                    assert(tail[i - 1] == rounds[i]);
                    assert(rest[i - 1] == relayed[i]);
                }
            }
            assert forall|i: int| 0 <= i < relayed.len() - 1 implies (#[trigger] rounds[i]).1
                is Ok by {
                if i > 0 {
                    assert(tail[i - 1] == rounds[i]);
                }
            }
            let n = relayed.len() as int;
            assert(n < rounds.len() ==> rounds[n] == tail[n - 1]);
            assert(n > 1 ==> rounds[n - 1] == tail[n - 2]);
        }
    }
}

/// What a task that receives, writes and flushes does by these steps, in rounds of one of each:
/// what it writes, how many flushes it asks for, and the result with which it ends, if it does. It
/// goes no further where a step asks for another work than is due.
pub open spec fn write_task_run<M, N, E, X>(
    next: spec_fn(WriteEvent<M, E>) -> Flow<WriteWork<N>, X>,
    rounds: Seq<(Option<M>, Result<(), E>, Result<(), E>)>,
) -> (Seq<N>, nat, Option<Result<(), X>>)
    decreases rounds.len(),
{
    if rounds.len() == 0 {
        (seq![], 0, None)
    } else {
        match next(WriteEvent::Received(rounds[0].0)) {
            ControlFlow::Continue(WriteWork::Write(content)) => {
                match next(WriteEvent::Written(rounds[0].1)) {
                    ControlFlow::Continue(WriteWork::Flush) => {
                        match next(WriteEvent::Flushed(rounds[0].2)) {
                            ControlFlow::Continue(WriteWork::Receive) => {
                                let rest = write_task_run(next, rounds.skip(1));
                                (seq![content] + rest.0, 1 + rest.1, rest.2)
                            },
                            ControlFlow::Continue(_) => (seq![content], 1, None),
                            ControlFlow::Break(end) => (seq![content], 1, Some(end)),
                        }
                    },
                    ControlFlow::Continue(_) => (seq![content], 0, None),
                    ControlFlow::Break(end) => (seq![content], 0, Some(end)),
                }
            },
            ControlFlow::Continue(_) => (seq![], 0, None),
            ControlFlow::Break(end) => (seq![], 0, Some(end)),
        }
    }
}

/// A task whose steps write the content of everything that is received, flush it, and name the two
/// failures by `write` and `flush` writes exactly what it receives, in order.
pub(crate) proof fn lemma_write_task<M, N, E, X>(
    next: spec_fn(WriteEvent<M, E>) -> Flow<WriteWork<N>, X>,
    content: spec_fn(M) -> N,
    write: spec_fn(E) -> X,
    flush: spec_fn(E) -> X,
    rounds: Seq<(Option<M>, Result<(), E>, Result<(), E>)>,
)
    requires
        forall|event: WriteEvent<M, E>| #[trigger]
            next(event) == match event {
                WriteEvent::Received(Some(m)) => ControlFlow::Continue(
                    WriteWork::Write(content(m)),
                ),
                WriteEvent::Received(None) => ControlFlow::Break(Ok(())),
                WriteEvent::Written(Ok(())) => ControlFlow::Continue(WriteWork::Flush),
                WriteEvent::Written(Err(source)) => ControlFlow::Break(Err(write(source))),
                WriteEvent::Flushed(Ok(())) => ControlFlow::Continue(WriteWork::Receive),
                WriteEvent::Flushed(Err(source)) => ControlFlow::Break(Err(flush(source))),
            },
    ensures
        ({
            let (written, flushes, end) = write_task_run(next, rounds);
            let n = written.len() as int;
            &&& n <= rounds.len()
            &&& forall|i: int|
                0 <= i < n ==> ((#[trigger] rounds[i]).0 matches Some(m) && written[i] == content(
                    m,
                ))
            &&& forall|i: int|
                0 <= i < n - 1 ==> (#[trigger] rounds[i]).1 is Ok && rounds[i].2 is Ok
            &&& match end {
                None => {
                    &&& n == rounds.len()
                    &&& flushes == n
                    &&& n > 0 ==> rounds[n - 1].1 is Ok && rounds[n - 1].2 is Ok
                },
                Some(Ok(())) => {
                    &&& n < rounds.len()
                    &&& rounds[n].0 is None
                    &&& flushes == n
                    &&& n > 0 ==> rounds[n - 1].1 is Ok && rounds[n - 1].2 is Ok
                },
                Some(Err(x)) => {
                    &&& n > 0
                    &&& match rounds[n - 1].1 {
                        Err(source) => x == write(source) && flushes == n - 1,
                        Ok(()) => {
                            &&& rounds[n - 1].2 matches Err(source)
                            &&& x == flush(source)
                            &&& flushes == n
                        },
                    }
                },
            }
        }),
    decreases rounds.len(),
{
    if rounds.len() > 0 {
        let tail = rounds.skip(1);
        lemma_write_task(next, content, write, flush, tail);
        let (written, _, _) = write_task_run(next, rounds);
        let (rest, _, _) = write_task_run(next, tail);
        assert(next(WriteEvent::Received(rounds[0].0)) == next(WriteEvent::Received(rounds[0].0)));
        assert(next(WriteEvent::Written(rounds[0].1)) == next(WriteEvent::Written(rounds[0].1)));
        assert(next(WriteEvent::Flushed(rounds[0].2)) == next(WriteEvent::Flushed(rounds[0].2)));
        if rounds[0].0 is Some && rounds[0].1 is Ok && rounds[0].2 is Ok {
            assert forall|i: int| 0 <= i < written.len() implies ((#[trigger] rounds[i]).0 matches
                Some(m) && written[i] == content(m)) by {
                if i > 0 {
                    assert(tail[i - 1] == rounds[i]);
                    assert(rest[i - 1] == written[i]);
                }
            }
            assert forall|i: int| 0 <= i < written.len() - 1 implies (#[trigger] rounds[i]).1 is Ok
                && rounds[i].2 is Ok by {
                if i > 0 {
                    assert(tail[i - 1] == rounds[i]);
                }
            }
            let n = written.len() as int;
            assert(n < rounds.len() ==> rounds[n] == tail[n - 1]);
            assert(n > 1 ==> rounds[n - 1] == tail[n - 2]);
        }
    }
}

/// Only the end of the stream where a marker was due is a clean end; every other failure is handed
/// on as it is, and so is every message.
pub proof fn law_final_read<T, E>(
    r: Result<T, DecodeError<E>>,
    flow: ControlFlow<Result<(), DecodeError<E>>, T>,
)
    requires
        call_ensures(rmp_final_read::<T, E>, (r,), flow),
    ensures
        flow matches ControlFlow::Continue(message) ==> r == Ok::<T, DecodeError<E>>(message),
        flow matches ControlFlow::Break(Ok(())) ==> r matches Err(
            DecodeError::InvalidMarkerRead { kind: ReadErrorKind::UnexpectedEof, .. },
        ),
        flow matches ControlFlow::Break(Err(e)) ==> {
            &&& r == Err::<T, DecodeError<E>>(e)
            &&& !(e matches DecodeError::InvalidMarkerRead {
                kind: ReadErrorKind::UnexpectedEof,
                ..
            })
        },
{
}

/// The source of a failure to decode is the one that it was made with.
pub proof fn law_into_source<E>(kind: ReadErrorKind, source: E, back: E)
    requires
        call_ensures(
            DecodeError::<E>::into_source,
            (DecodeError::InvalidMarkerRead { kind, source },),
            back,
        ) || call_ensures(DecodeError::<E>::into_source, (DecodeError::Other { source },), back),
    ensures
        back == source,
{
}

/// A channel between two tasks holds ten messages.
pub proof fn law_channels_hold_ten_messages()
    ensures
        CHANNEL_CAPACITY == 10,
{
}

} // verus!
