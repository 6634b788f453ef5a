//! What holds of the client, and between the client and the server.

use crate::client::{delivery_follows, delivery_step, greeting, is_greeting, runs_server};
use crate::client::{rx_from_server_next, rx_from_server_step, tx_to_server_step};
use crate::client::{send_result, server_request, session_start, session_step, show, shown};
use crate::client::{shutdown_outcome, shutdown_result, tx_to_server_next, Client, Error};
use crate::client::{Handles, JoinedTasks, ServerProcess, SessionEvent, SessionWork, Tasks};
use crate::messages::{psid_text, ClientMessage, Input, Kill, Output, ProcessSequenceId};
use crate::messages::{ServerMessage, Spawn};
use crate::process::{Connection, StartRequest};
use crate::results::{first_failure, law_first_failure};
use crate::server::laws::{law_stdin_relays_every_message, law_stdout_writes_every_message};
use crate::server::{stdin_next, stdout_next};
use crate::wire::{lemma_read_task, lemma_write_task, read_task_run, write_task_run, DecodeError};
use crate::wire::{Flow, ReadErrorKind, ReadEvent, ReadWork, WriteEvent, WriteWork};
use std::ops::ControlFlow;
use vstd::prelude::*;
use vstd::string::*;
use vstd::utf8::*;

verus! {

/// The task that sends to the server writes exactly the requests that it receives, of every kind,
/// in order, none dropped, changed or made up, and asks for a flush after each before it receives
/// the next; it ends cleanly only where there are no more, and with a failure only where that write
/// or that flush of the last request failed.
pub proof fn law_every_request_is_written<E>(
    rounds: Seq<(Option<ServerMessage>, Result<(), E>, Result<(), E>)>,
)
    ensures
        ({
            let (written, flushes, end) = write_task_run(
                |event: WriteEvent<ServerMessage, E>| tx_to_server_next(event),
                rounds,
            );
            let n = written.len() as int;
            &&& n <= rounds.len()
            &&& forall|i: int|
                0 <= i < n ==> ((#[trigger] rounds[i]).0 matches Some(message) && written[i]
                    == message)
            &&& forall|i: int|
                0 <= i < n - 1 ==> (#[trigger] rounds[i]).1 is Ok && rounds[i].2 is Ok
            &&& match end {
                None => {
                    &&& n == rounds.len()
                    &&& flushes == n
                    &&& n > 0 ==> rounds[n - 1].1 is Ok && rounds[n - 1].2 is Ok
                },
                Some(Ok(())) => {
                    &&& n < rounds.len()
                    &&& rounds[n].0 is None
                    &&& flushes == n
                    &&& n > 0 ==> rounds[n - 1].1 is Ok && rounds[n - 1].2 is Ok
                },
                Some(Err(Error::UnableToEncodeMessageToServer { source })) => {
                    &&& n > 0
                    &&& rounds[n - 1].1 == Err::<(), E>(source)
                    &&& flushes == n - 1
                },
                Some(Err(Error::UnableToFlushMessageToServer { source })) => {
                    &&& n > 0
                    &&& rounds[n - 1].1 is Ok
                    &&& rounds[n - 1].2 == Err::<(), E>(source)
                    &&& flushes == n
                },
                Some(Err(_)) => false,
            }
        }),
{
    lemma_write_task(
        |event: WriteEvent<ServerMessage, E>| tx_to_server_next(event),
        |message: ServerMessage| message,
        |source: E| Error::UnableToEncodeMessageToServer { source },
        |source: E| Error::UnableToFlushMessageToServer { source },
        rounds,
    );
}

/// The task that receives from the server relays exactly the messages that were decoded, of every
/// kind, in order, none dropped, changed or made up; and it ends cleanly only where the stream
/// ended where a marker was due, and with a failure only where that failure came up.
pub proof fn law_every_report_is_relayed<E>(
    rounds: Seq<(Result<ClientMessage, DecodeError<E>>, Result<(), E>)>,
)
    ensures
        ({
            let (relayed, end) = read_task_run(
                |event: ReadEvent<ClientMessage, E>| rx_from_server_next(event),
                rounds,
            );
            let n = relayed.len() as int;
            &&& n <= rounds.len()
            &&& forall|i: int|
                0 <= i < n ==> ((#[trigger] rounds[i]).0 matches Ok(message) && relayed[i]
                    == message)
            &&& forall|i: int| 0 <= i < n - 1 ==> (#[trigger] rounds[i]).1 is Ok
            &&& match end {
                None => n == rounds.len() && (n > 0 ==> rounds[n - 1].1 is Ok),
                Some(Ok(())) => {
                    &&& n < rounds.len()
                    &&& rounds[n].0 matches Err(
                        DecodeError::InvalidMarkerRead { kind: ReadErrorKind::UnexpectedEof, .. },
                    )
                    &&& n > 0 ==> rounds[n - 1].1 is Ok
                },
                Some(Err(Error::UnableToDecodeMessageFromServer { source })) => {
                    &&& n < rounds.len()
                    &&& match rounds[n].0 {
                        Err(DecodeError::InvalidMarkerRead { kind, source: e }) => {
                            kind != ReadErrorKind::UnexpectedEof && source == e
                        },
                        Err(DecodeError::Other { source: e }) => source == e,
                        Ok(_) => false,
                    }
                    &&& n > 0 ==> rounds[n - 1].1 is Ok
                },
                Some(Err(Error::UnableToRelayMessageFromServer { source })) => {
                    n > 0 && rounds[n - 1].1 == Err::<(), E>(source)
                },
                Some(Err(_)) => false,
            }
        }),
{
    lemma_read_task(
        |event: ReadEvent<ClientMessage, E>| rx_from_server_next(event),
        |source: E| Error::UnableToDecodeMessageFromServer { source },
        |source: E| Error::UnableToRelayMessageFromServer { source },
        rounds,
    );
}

/// What the client asks reaches the server: where the server decodes what the client's task wrote,
/// and then comes to the end of the stream, its task for standard input relays exactly the requests
/// that the client was given, of every kind, in order, and ends cleanly.
pub proof fn law_requests_cross<E>(
    messages: Seq<ServerMessage>,
    written: Seq<(Option<ServerMessage>, Result<(), E>, Result<(), E>)>,
    read: Seq<(Result<ServerMessage, DecodeError<E>>, Result<(), E>)>,
)
    requires
        written.len() == messages.len() + 1,
        forall|i: int|
            0 <= i < messages.len() ==> {
                &&& (#[trigger] written[i]).0 == Some(messages[i])
                &&& written[i].1 is Ok
                &&& written[i].2 is Ok
            },
        written.last().0 is None,
        ({
            let on_the_wire = write_task_run(
                |event: WriteEvent<ServerMessage, E>| tx_to_server_next(event),
                written,
            ).0;
            &&& read.len() == on_the_wire.len() + 1
            &&& forall|i: int|
                0 <= i < on_the_wire.len() ==> {
                    &&& (#[trigger] read[i]).0 matches Ok(message) && message == on_the_wire[i]
                    &&& read[i].1 is Ok
                }
        }),
        read.last().0 matches Err(
            DecodeError::InvalidMarkerRead { kind: ReadErrorKind::UnexpectedEof, .. },
        ),
    ensures
        ({
            let (relayed, end) = read_task_run(
                |event: ReadEvent<ServerMessage, E>| stdin_next(event),
                read,
            );
            relayed == messages && end matches Some(Ok(()))
        }),
{
    law_every_request_is_written(written);
    law_stdin_relays_every_message(read);
    let on_the_wire = write_task_run(
        |event: WriteEvent<ServerMessage, E>| tx_to_server_next(event),
        written,
    ).0;
    let relayed = read_task_run(|event: ReadEvent<ServerMessage, E>| stdin_next(event), read).0;
    let (m, n) = (on_the_wire.len() as int, relayed.len() as int);
    assert(written.last() == written[messages.len() as int]);
    assert(m > 0 ==> written[m - 1].0 is Some);
    assert(m < messages.len() ==> written[m].0 is Some);
    assert(m == messages.len());
    assert forall|i: int| 0 <= i < m implies on_the_wire[i] == messages[i] by {
        assert(written[i].0 == Some(messages[i]));
    }
    assert(read.last() == read[m]);
    assert(n > 0 ==> read[n - 1].0 is Ok);
    assert(n < m ==> read[n].0 is Ok);
    assert(n == m);
    assert forall|i: int| 0 <= i < n implies relayed[i] == messages[i] by {
        assert(read[i].0 == Ok::<ServerMessage, DecodeError<E>>(on_the_wire[i]));
    }
    assert(relayed =~= messages);
}

/// What the server tells reaches the client: where the client decodes what the server's task for
/// standard output wrote, and then comes to the end of the stream, its task relays exactly the
/// messages that the server was given, of every kind, in order, and ends cleanly.
pub proof fn law_reports_cross<E>(
    messages: Seq<ClientMessage>,
    written: Seq<(Option<ClientMessage>, Result<(), E>, Result<(), E>)>,
    read: Seq<(Result<ClientMessage, DecodeError<E>>, Result<(), E>)>,
)
    requires
        written.len() == messages.len() + 1,
        forall|i: int|
            0 <= i < messages.len() ==> {
                &&& (#[trigger] written[i]).0 == Some(messages[i])
                &&& written[i].1 is Ok
                &&& written[i].2 is Ok
            },
        written.last().0 is None,
        ({
            let on_the_wire = write_task_run(
                |event: WriteEvent<ClientMessage, E>| stdout_next(event),
                written,
            ).0;
            &&& read.len() == on_the_wire.len() + 1
            &&& forall|i: int|
                0 <= i < on_the_wire.len() ==> {
                    &&& (#[trigger] read[i]).0 matches Ok(message) && message == on_the_wire[i]
                    &&& read[i].1 is Ok
                }
        }),
        read.last().0 matches Err(
            DecodeError::InvalidMarkerRead { kind: ReadErrorKind::UnexpectedEof, .. },
        ),
    ensures
        ({
            let (relayed, end) = read_task_run(
                |event: ReadEvent<ClientMessage, E>| rx_from_server_next(event),
                read,
            );
            relayed == messages && end matches Some(Ok(()))
        }),
{
    law_stdout_writes_every_message(written);
    law_every_report_is_relayed(read);
    let on_the_wire = write_task_run(
        |event: WriteEvent<ClientMessage, E>| stdout_next(event),
        written,
    ).0;
    let relayed = read_task_run(
        |event: ReadEvent<ClientMessage, E>| rx_from_server_next(event),
        read,
    ).0;
    let (m, n) = (on_the_wire.len() as int, relayed.len() as int);
    assert(written.last() == written[messages.len() as int]);
    assert(m > 0 ==> written[m - 1].0 is Some);
    assert(m < messages.len() ==> written[m].0 is Some);
    assert(m == messages.len());
    assert forall|i: int| 0 <= i < m implies on_the_wire[i] == messages[i] by {
        assert(written[i].0 == Some(messages[i]));
    }
    assert(read.last() == read[m]);
    assert(n > 0 ==> read[n - 1].0 is Ok);
    assert(n < m ==> read[n].0 is Ok);
    assert(n == m);
    assert forall|i: int| 0 <= i < n implies relayed[i] == messages[i] by {
        assert(read[i].0 == Ok::<ClientMessage, DecodeError<E>>(on_the_wire[i]));
    }
    assert(relayed =~= messages);
}

/// The server is `cargo run server`, with its standard input and output piped and its standard
/// error left where the client's own goes.
pub proof fn law_the_server_is_run_by_cargo(request: StartRequest)
    ensures
        call_ensures(server_request, (), request) ==> runs_server(request),
        runs_server(request) ==> {
            &&& request.program@ == encode_utf8("cargo"@)
            &&& request.args@.len() == 2
            &&& request.args@[0]@ == encode_utf8("run"@)
            &&& request.args@[1]@ == encode_utf8("server"@)
            &&& request.stdin == Connection::Piped
            &&& request.stdout == Connection::Piped
            &&& request.stderr == Connection::Inherited
        },
{
}

/// Every message is shown as what it says of its process. Output is shown exactly where its
/// standard output is UTF-8, and then all of it, as it is: the text that follows the label is
/// encoded as the very bytes, with nothing added, whether or not they end a line.
pub proof fn law_messages_are_shown(message: ClientMessage, text: Option<String>)
    requires
        call_ensures(show, (&message,), text),
    ensures
        match message {
            ClientMessage::ChildStarted(started) => {
                text matches Some(text) && text@ == "["@ + psid_text(started.psid)
                    + "] child started\n"@
            },
            ClientMessage::ChildStopped(stopped) => {
                text matches Some(text) && text@ == "["@ + psid_text(stopped.psid)
                    + "] child stopped\n"@
            },
            ClientMessage::Output(output) => {
                let label = "["@ + psid_text(output.psid) + "]> "@;
                &&& text is Some <==> valid_utf8(output.stdout@)
                &&& text matches Some(text) ==> {
                    &&& text@ == label + text@.skip(label.len() as int)
                    &&& encode_utf8(text@.skip(label.len() as int)) == output.stdout@
                }
            },
        },
{
    if let ClientMessage::Output(output) = message {
        let label = "["@ + psid_text(output.psid) + "]> "@;
        if let Some(text) = text {
            let rest = decode_utf8(output.stdout@);
            assert(text@ == label + rest);
            assert(text@.skip(label.len() as int) =~= rest);
            decode_utf8_encode_utf8(output.stdout@);
        }
    }
}

/// What is shown of output does not depend on standard error.
pub proof fn law_standard_error_is_not_shown(a: Output, b: Output)
    requires
        a.psid == b.psid,
        a.stdout@ == b.stdout@,
    ensures
        shown(ClientMessage::Output(a)) == shown(ClientMessage::Output(b)),
{
}

/// A greeting is two messages for one process, whatever its id: to start `cat` under the id, and
/// then to say hello to it, by its id and on a line of its own.
pub proof fn law_a_greeting_says_hello(psid: ProcessSequenceId, messages: Seq<ServerMessage>)
    requires
        is_greeting(psid, messages),
    ensures
        messages.len() == 2,
        messages[0] matches ServerMessage::Spawn(spawn) && spawn.psid == psid && spawn.command@
            == encode_utf8("cat"@),
        messages[1] matches ServerMessage::Input(input) && input.psid == psid && input.content@
            == encode_utf8("hello from "@ + psid_text(psid) + "\n"@),
{
}

/// The messages that greet a process are a greeting of it.
pub proof fn law_greetings_greet(psid: ProcessSequenceId, messages: Vec<ServerMessage>)
    requires
        call_ensures(greeting, (psid,), messages),
    ensures
        is_greeting(psid, messages@),
{
}

/// A process that echoes the greeting is seen to say hello: where it is given back as output, the
/// client shows it.
pub proof fn law_an_echo_is_shown(
    psid: ProcessSequenceId,
    messages: Seq<ServerMessage>,
    output: Output,
)
    requires
        is_greeting(psid, messages),
        messages[1] matches ServerMessage::Input(input) && output.stdout@ == input.content@,
    ensures
        shown(ClientMessage::Output(output)) == Some(
            "["@ + psid_text(output.psid) + "]> "@ + ("hello from "@ + psid_text(psid) + "\n"@),
        ),
{
    let hello = "hello from "@ + psid_text(psid) + "\n"@;
    encode_utf8_valid_utf8(hello);
    encode_utf8_decode_utf8(hello);
}

/// A session starts with the greetings of the processes zero and one.
pub proof fn law_a_session_starts_with_greetings(work: SessionWork)
    requires
        call_ensures(session_start, (), work),
    ensures
        work matches SessionWork::Greet(greetings) && greetings@.len() == 2 && is_greeting(
            ProcessSequenceId(0),
            greetings@[0]@,
        ) && is_greeting(ProcessSequenceId(1), greetings@[1]@),
{
    if let SessionWork::Greet(greetings) = work {
        assert(is_greeting(ProcessSequenceId(0), greetings@[0]@));
        assert(is_greeting(ProcessSequenceId(1), greetings@[1]@));
    }
}

/// A session whose greetings were all sent rests for 333 milliseconds, then kills the processes
/// zero and one; where these requests were all sent it shuts down, and ends as the shutdown does.
/// The first request that could not be sent ends it instead, with that failure.
pub proof fn law_a_session_goes_its_way<E>(
    event: SessionEvent<E>,
    flow: Flow<SessionWork, Error<E>>,
)
    requires
        call_ensures(session_step::<E>, (event,), flow),
    ensures
        match event {
            SessionEvent::Greeted(sent) => {
                (forall|i: int| 0 <= i < sent@.len() ==> #[trigger] sent@[i] is Ok) ==> (
                flow matches ControlFlow::Continue(SessionWork::Rest(millis)) && millis == 333)
            },
            SessionEvent::Rested => {
                &&& flow matches ControlFlow::Continue(SessionWork::Kill(kills))
                &&& kills@.len() == 2
                &&& kills@[0].psid == ProcessSequenceId(0)
                &&& kills@[1].psid == ProcessSequenceId(1)
            },
            SessionEvent::Killed(sent) => {
                (forall|i: int| 0 <= i < sent@.len() ==> #[trigger] sent@[i] is Ok) ==> (
                flow matches ControlFlow::Continue(SessionWork::ShutDown))
            },
            SessionEvent::ShutDown(result) => flow matches ControlFlow::Break(end) && end == result,
        },
        event matches SessionEvent::Greeted(sent) ==> forall|n: int|
            #![trigger sent@[n]]
            {
                &&& 0 <= n < sent@.len()
                &&& sent@[n] is Err
                &&& forall|i: int| 0 <= i < n ==> #[trigger] sent@[i] is Ok
            } ==> (flow matches ControlFlow::Break(end) && end == sent@[n]),
        event matches SessionEvent::Killed(sent) ==> forall|n: int|
            #![trigger sent@[n]]
            {
                &&& 0 <= n < sent@.len()
                &&& sent@[n] is Err
                &&& forall|i: int| 0 <= i < n ==> #[trigger] sent@[i] is Ok
            } ==> (flow matches ControlFlow::Break(end) && end == sent@[n]),
{
    match event {
        SessionEvent::Greeted(sent) => {
            lemma_first_failure_is_unique(sent@);
        },
        SessionEvent::Killed(sent) => {
            lemma_first_failure_is_unique(sent@);
        },
        SessionEvent::Rested => {
            if let ControlFlow::Continue(SessionWork::Kill(kills)) = flow {
                assert(kills@[0].psid.0 == 0 && kills@[1].psid.0 == 1);
            }
        },
        SessionEvent::ShutDown(_) => {},
    }
}

/// A failure that only successes come before is the first failure.
proof fn lemma_first_failure_is_unique<X>(results: Seq<Result<(), X>>)
    ensures
        (forall|i: int| 0 <= i < results.len() ==> #[trigger] results[i] is Ok) ==> first_failure(
            results,
        ) is None,
        forall|n: int|
            #![trigger results[n]]
            {
                &&& 0 <= n < results.len()
                &&& results[n] is Err
                &&& forall|i: int| 0 <= i < n ==> #[trigger] results[i] is Ok
            } ==> (first_failure(results) matches Some(e) && results[n] == Err::<(), X>(e)),
{
    law_first_failure(results);
    assert forall|n: int|
        #![trigger results[n]]
        {
            &&& 0 <= n < results.len()
            &&& results[n] is Err
            &&& forall|i: int| 0 <= i < n ==> #[trigger] results[i] is Ok
        } implies (first_failure(results) matches Some(e) && results[n] == Err::<(), X>(e)) by {
        if let Some(e) = first_failure(results) {
            let m = choose|m: int|
                {
                    &&& 0 <= m < results.len()
                    &&& #[trigger] results[m] == Err::<(), X>(e)
                    &&& forall|i: int| 0 <= i < m ==> #[trigger] results[i] is Ok
                };
            assert(results[m] is Err);
            assert(m == n);
        }
    }
}

/// Every request is sent to the server as the message of its kind, with nothing of it changed.
pub proof fn law_requests_are_sent_as_they_are<P, S, T>(
    client: Client<P, S, T>,
    spawn: Spawn,
    kill: Kill,
    input: Input,
    to: (&S, ServerMessage),
)
    ensures
        call_ensures(Client::<P, S, T>::send::<Spawn>, (&client, spawn), to) ==> *to.0
            == client.tx_to_server && to.1 == ServerMessage::Spawn(spawn),
        call_ensures(Client::<P, S, T>::send::<Kill>, (&client, kill), to) ==> *to.0
            == client.tx_to_server && to.1 == ServerMessage::Kill(kill),
        call_ensures(Client::<P, S, T>::send::<Input>, (&client, input), to) ==> *to.0
            == client.tx_to_server && to.1 == ServerMessage::Input(input),
{
}

/// A request is accepted exactly where the channel took it; otherwise the failure says so, and
/// holds what the channel said.
pub proof fn law_send_keeps_the_answer<E>(sent: Result<(), E>, result: Result<(), Error<E>>)
    requires
        call_ensures(send_result::<E>, (sent,), result),
    ensures
        result is Ok <==> sent is Ok,
        sent matches Err(e) ==> {
            &&& result matches Err(Error::UnableToRelayMessageToServer { source })
            &&& source == e
        },
{
}

/// The server and both tasks are left to be waited for when a client is shut down, each in its
/// place.
pub proof fn law_client_shutdown_leaves_everything<P, S, T>(
    client: Client<P, S, T>,
    tasks: Tasks<P, T>,
)
    requires
        call_ensures(Client::<P, S, T>::shutdown, (client,), tasks),
    ensures
        tasks.server == client.server,
        tasks.rx_from_server_task == client.rx_from_server_task,
        tasks.tx_to_server_task == client.tx_to_server_task,
{
}

/// A shutdown ends with the first failure there was: of the wait for the server, then of the task
/// that receives from it, then of the task that sends to it.
pub proof fn law_client_shutdown_reports_the_first_failure<E>(
    joined: JoinedTasks<E>,
    result: Result<(), Error<E>>,
)
    requires
        call_ensures(shutdown_result::<E>, (joined,), result),
    ensures
        match (joined.server, joined.rx_from_server_task, joined.tx_to_server_task) {
            (Err(e), _, _) => {
                result matches Err(Error::UnableToWaitForServer { source }) && source == e
            },
            (Ok(()), Err(e), _) => {
                result matches Err(Error::UnableToJoinRxFromServerTask { source }) && source == e
            },
            (Ok(()), Ok(Err(e)), _) => result == Err::<(), Error<E>>(e),
            (Ok(()), Ok(Ok(())), Err(e)) => {
                result matches Err(Error::UnableToJoinTxToServerTask { source }) && source == e
            },
            (Ok(()), Ok(Ok(())), Ok(Err(e))) => result == Err::<(), Error<E>>(e),
            (Ok(()), Ok(Ok(())), Ok(Ok(()))) => result is Ok,
        },
        result == shutdown_outcome(joined),
{
}

/// What a failure of the client reads as. One with words of its own reads the same whatever is
/// behind it; any other is its name and what is behind it.
pub proof fn law_client_failure_text<E>(e: Error<E>, source: &str, text: String)
    requires
        call_ensures(Error::<E>::to_text, (&e, source), text),
    ensures
        match e {
            Error::UnableToSpawnServer { .. } => text@ == "Could not spawn the server process"@,
            Error::ServerHasNoStdin => text@ == "Server process has no stdin"@,
            Error::ServerHasNoStdout => text@ == "Server process has no stdout"@,
            Error::UnableToDecodeMessageFromServer { .. } => text@
                == "Could not decode message from the server"@,
            Error::UnableToRelayMessageFromServer { .. } => text@
                == "Could not relay message from the server"@,
            Error::UnableToEncodeMessageToServer { .. } => text@
                == "Could not encode message to the server"@,
            Error::UnableToFlushMessageToServer { .. } => text@
                == "Could not flush message to the server"@,
            Error::UnableToRelayMessageToServer { .. } => text@
                == "Could not relay message to the server"@,
            Error::UnableToWaitForServer { .. } => text@ == "UnableToWaitForServer: "@ + source@,
            Error::UnableToJoinRxFromServerTask { .. } => text@
                == "Could not join the task responsible for receiving messages from the server"@,
            Error::UnableToJoinTxToServerTask { .. } => text@
                == "Could not join the task responsible for sending messages to the server"@,
        },
{
}

/// The outside failure behind a failure of the client is the one that it was made with; and there
/// is none behind a failure that was made without one.
pub proof fn law_client_failure_keeps_its_source<E>(e: Error<E>, found: Option<&E>)
    requires
        call_ensures(Error::<E>::outside_source, (&e,), found),
    ensures
        match e {
            Error::ServerHasNoStdin => found is None,
            Error::ServerHasNoStdout => found is None,
            Error::UnableToSpawnServer { source } => found == Some(&source),
            Error::UnableToDecodeMessageFromServer { source } => found == Some(&source),
            Error::UnableToRelayMessageFromServer { source } => found == Some(&source),
            Error::UnableToEncodeMessageToServer { source } => found == Some(&source),
            Error::UnableToFlushMessageToServer { source } => found == Some(&source),
            Error::UnableToRelayMessageToServer { source } => found == Some(&source),
            Error::UnableToWaitForServer { source } => found == Some(&source),
            Error::UnableToJoinRxFromServerTask { source } => found == Some(&source),
            Error::UnableToJoinTxToServerTask { source } => found == Some(&source),
        },
{
}

/// A client is what became of its server. Where the server is started with both pipes, the client
/// holds the process and the tasks that were attached to them, each in its place; otherwise there
/// is no client, and the failure says what was missing.
pub proof fn law_a_client_runs_its_server<P, S, T, A, B, R, E, F, G>(
    start: F,
    attach: G,
    client: Result<(Client<P, S, T>, R), Error<E>>,
) where
    F: FnOnce(StartRequest) -> Result<ServerProcess<P, A, B>, E>,
    G: FnOnce(A, B) -> Handles<S, T, R>,

    requires
        call_ensures(Client::<P, S, T>::spawn, (start, attach), client),
    ensures
        exists|request: StartRequest, started: Result<ServerProcess<P, A, B>, E>|
            {
                &&& #[trigger] start.ensures((request,), started)
                &&& request.program@ == encode_utf8("cargo"@)
                &&& request.args@.len() == 2
                &&& request.args@[0]@ == encode_utf8("run"@)
                &&& request.args@[1]@ == encode_utf8("server"@)
                &&& request.stdin == Connection::Piped
                &&& request.stdout == Connection::Piped
                &&& request.stderr == Connection::Inherited
                &&& match started {
                    Err(e) => {
                        &&& client matches Err(Error::UnableToSpawnServer { source })
                        &&& source == e
                    },
                    Ok(process) => {
                        &&& process.stdin is None ==> (client matches Err(e)
                            && e is ServerHasNoStdin)
                        &&& process.stdin is Some && process.stdout is None ==> (
                        client matches Err(e) && e is ServerHasNoStdout)
                        &&& process.stdin is Some && process.stdout is Some ==> exists|
                            stdin: A,
                            stdout: B,
                            handles: Handles<S, T, R>,
                        |
                            {
                                &&& #[trigger] attach.ensures((stdin, stdout), handles)
                                &&& process.stdin == Some(stdin)
                                &&& process.stdout == Some(stdout)
                                &&& client matches Ok((made, receiver))
                                &&& made.server == process.server
                                &&& made.tx_to_server == handles.tx_to_server
                                &&& made.tx_to_server_task == handles.tx_to_server_task
                                &&& made.rx_from_server_task == handles.rx_from_server_task
                                &&& receiver == handles.rx_from_server
                            }
                    },
                }
            },
{
}

/// Neither task holds a message back: every message of the server that was decoded is relayed next,
/// and every request that was received is written next, just as it is. Whatever else comes up, each
/// task goes on by its own steps.
pub proof fn law_client_tasks_pass_everything_on<E>(
    read: ReadEvent<ClientMessage, E>,
    after_read: Flow<ReadWork<ClientMessage>, Error<E>>,
    write: WriteEvent<ServerMessage, E>,
    after_write: Flow<WriteWork<ServerMessage>, Error<E>>,
)
    requires
        call_ensures(rx_from_server_step::<E>, (read,), after_read),
        call_ensures(tx_to_server_step::<E>, (write,), after_write),
    ensures
        read matches ReadEvent::Decoded(Ok(message)) ==> {
            after_read matches ControlFlow::Continue(ReadWork::Relay(relayed)) && relayed == message
        },
        write matches WriteEvent::Received(Some(message)) ==> {
            after_write matches ControlFlow::Continue(WriteWork::Write(written)) && written
                == message
        },
        after_read == rx_from_server_next(read),
        after_write == tx_to_server_next(write),
{
}

/// Messages are sent one by one from the front, none left out: after one that was sent comes the
/// first of the rest, until none is left; and after one that was not sent comes none.
pub proof fn law_messages_are_sent_from_the_front<E>(
    sent: Result<(), Error<E>>,
    rest: Vec<ServerMessage>,
    flow: Flow<(ServerMessage, Vec<ServerMessage>), Error<E>>,
)
    requires
        call_ensures(delivery_step::<E>, (sent, rest), flow),
    ensures
        flow matches ControlFlow::Continue((message, after)) ==> {
            &&& sent is Ok
            &&& rest@ == seq![message] + after@
        },
        flow matches ControlFlow::Break(Ok(())) ==> sent is Ok && rest@.len() == 0,
        flow matches ControlFlow::Break(Err(e)) ==> sent == Err::<(), Error<E>>(e),
        delivery_follows(sent, rest@, flow),
{
    if let ControlFlow::Continue((message, after)) = flow {
        assert(rest@ =~= seq![message] + after@);
    }
}

} // verus!
