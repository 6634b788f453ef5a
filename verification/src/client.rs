//! The client: it starts a server, greets a few processes through it, kills them and ends.
//!
//! `E` is whatever the program reports as the source of a failure. The handles are the program's
//! own: `P` of the server process, `S` of the channel to it, `T` of the tasks that serve it.

use crate::messages::{psid_text, ClientMessage, Input, Kill, ProcessSequenceId, ServerMessage};
use crate::messages::{ChildStarted, ChildStopped, Output, Spawn};
use crate::process::{Connection, StartRequest};
use crate::results::{find_failure, first_failure};
use crate::text::{from_utf8, joined, utf8_text};
use crate::wire::{read_next, read_step, write_next, write_step, Flow, ReadEvent, ReadTaskError};
use crate::wire::{law_all_messages_are_written, write_run};
use crate::wire::{ReadWork, WriteEvent, WriteTaskError, WriteWork};
use std::ops::ControlFlow;
use vstd::prelude::*;
use vstd::string::*;
use vstd::utf8::*;

pub mod laws;

verus! {

/// How many processes a session runs.
pub const SESSION_PROCESSES: u32 = 2;

/// How long a session lets its processes run, in milliseconds.
pub const SESSION_MILLIS: u64 = 333;

/// Why the client, or one of its tasks, failed.
#[derive(Debug, PartialEq, Eq)]
pub enum Error<E> {
    UnableToSpawnServer { source: E },
    ServerHasNoStdin,
    ServerHasNoStdout,
    UnableToDecodeMessageFromServer { source: E },
    UnableToRelayMessageFromServer { source: E },
    UnableToEncodeMessageToServer { source: E },
    UnableToFlushMessageToServer { source: E },
    UnableToRelayMessageToServer { source: E },
    UnableToWaitForServer { source: E },
    UnableToJoinRxFromServerTask { source: E },
    UnableToJoinTxToServerTask { source: E },
}

impl<E> Error<E> {
    /// The text of the failure, where `source` is the text of the outside failure behind it. A
    /// failure without words of its own goes by its name and the failure that it comes from.
    pub open spec fn text(self, source: Seq<char>) -> Seq<char> {
        match self {
            Error::UnableToSpawnServer { .. } => "Could not spawn the server process"@,
            Error::ServerHasNoStdin => "Server process has no stdin"@,
            Error::ServerHasNoStdout => "Server process has no stdout"@,
            Error::UnableToDecodeMessageFromServer { .. } => {
                "Could not decode message from the server"@
            },
            Error::UnableToRelayMessageFromServer { .. } => {
                "Could not relay message from the server"@
            },
            Error::UnableToEncodeMessageToServer { .. } => {
                "Could not encode message to the server"@
            },
            Error::UnableToFlushMessageToServer { .. } => "Could not flush message to the server"@,
            Error::UnableToRelayMessageToServer { .. } => "Could not relay message to the server"@,
            Error::UnableToWaitForServer { .. } => "UnableToWaitForServer: "@ + source,
            Error::UnableToJoinRxFromServerTask { .. } => {
                "Could not join the task responsible for receiving messages from the server"@
            },
            Error::UnableToJoinTxToServerTask { .. } => {
                "Could not join the task responsible for sending messages to the server"@
            },
        }
    }

    /// The outside failure behind this one, if there is one.
    pub open spec fn outside(self) -> Option<E> {
        match self {
            Error::UnableToSpawnServer { source, .. } => Some(source),
            Error::ServerHasNoStdin => None,
            Error::ServerHasNoStdout => None,
            Error::UnableToDecodeMessageFromServer { source, .. } => Some(source),
            Error::UnableToRelayMessageFromServer { source, .. } => Some(source),
            Error::UnableToEncodeMessageToServer { source, .. } => Some(source),
            Error::UnableToFlushMessageToServer { source, .. } => Some(source),
            Error::UnableToRelayMessageToServer { source, .. } => Some(source),
            Error::UnableToWaitForServer { source, .. } => Some(source),
            Error::UnableToJoinRxFromServerTask { source, .. } => Some(source),
            Error::UnableToJoinTxToServerTask { source, .. } => Some(source),
        }
    }

    /// The text of the failure, where `source` is the text of the outside failure behind it.
    pub fn to_text(&self, source: &str) -> (text: String)
        ensures
            text@ == self.text(source@),
    {
        match self {
            Error::UnableToSpawnServer { .. } => String::from_str(
                "Could not spawn the server process",
            ),
            Error::ServerHasNoStdin => String::from_str("Server process has no stdin"),
            Error::ServerHasNoStdout => String::from_str("Server process has no stdout"),
            Error::UnableToDecodeMessageFromServer { .. } => String::from_str(
                "Could not decode message from the server",
            ),
            Error::UnableToRelayMessageFromServer { .. } => String::from_str(
                "Could not relay message from the server",
            ),
            Error::UnableToEncodeMessageToServer { .. } => String::from_str(
                "Could not encode message to the server",
            ),
            Error::UnableToFlushMessageToServer { .. } => String::from_str(
                "Could not flush message to the server",
            ),
            Error::UnableToRelayMessageToServer { .. } => String::from_str(
                "Could not relay message to the server",
            ),
            Error::UnableToWaitForServer { .. } => joined("UnableToWaitForServer: ", source),
            Error::UnableToJoinRxFromServerTask { .. } => String::from_str(
                "Could not join the task responsible for receiving messages from the server",
            ),
            Error::UnableToJoinTxToServerTask { .. } => String::from_str(
                "Could not join the task responsible for sending messages to the server",
            ),
        }
    }

    /// The outside failure behind this one, if there is one.
    pub fn outside_source(&self) -> (source: Option<&E>)
        ensures
            match source {
                Some(source) => self.outside() == Some(*source),
                None => self.outside() is None,
            },
    {
        match self {
            Error::UnableToSpawnServer { source, .. } => Some(source),
            Error::ServerHasNoStdin => None,
            Error::ServerHasNoStdout => None,
            Error::UnableToDecodeMessageFromServer { source, .. } => Some(source),
            Error::UnableToRelayMessageFromServer { source, .. } => Some(source),
            Error::UnableToEncodeMessageToServer { source, .. } => Some(source),
            Error::UnableToFlushMessageToServer { source, .. } => Some(source),
            Error::UnableToRelayMessageToServer { source, .. } => Some(source),
            Error::UnableToWaitForServer { source, .. } => Some(source),
            Error::UnableToJoinRxFromServerTask { source, .. } => Some(source),
            Error::UnableToJoinTxToServerTask { source, .. } => Some(source),
        }
    }
}

/// A server that has just been started, with the pipes that it came with.
#[derive(Debug)]
pub struct ServerProcess<P, A, B> {
    pub server: P,
    pub stdin: Option<A>,
    pub stdout: Option<B>,
}

/// The handles of the tasks that serve a server, and the receiver of its messages.
#[derive(Debug)]
pub struct Handles<S, T, R> {
    pub tx_to_server: S,
    pub tx_to_server_task: T,
    pub rx_from_server: R,
    pub rx_from_server_task: T,
}

/// A client of a running server.
#[derive(Debug)]
pub struct Client<P, S, T> {
    pub server: P,
    pub tx_to_server: S,
    pub tx_to_server_task: T,
    pub rx_from_server_task: T,
}

/// What is left to be waited for when a client shuts down.
#[derive(Debug)]
pub struct Tasks<P, T> {
    pub server: P,
    pub rx_from_server_task: T,
    pub tx_to_server_task: T,
}

/// What waiting for the server and joining the tasks gave.
#[derive(Debug)]
pub struct JoinedTasks<E> {
    pub server: Result<(), E>,
    pub rx_from_server_task: Result<Result<(), Error<E>>, E>,
    pub tx_to_server_task: Result<Result<(), Error<E>>, E>,
}

/// The request starts `cargo run server`, with standard input and standard output piped and
/// standard error left as it is.
pub open spec fn runs_server(request: StartRequest) -> bool {
    &&& request.program@ == encode_utf8("cargo"@)
    &&& request.args@.len() == 2
    &&& request.args@[0]@ == encode_utf8("run"@)
    &&& request.args@[1]@ == encode_utf8("server"@)
    &&& request.stdin == Connection::Piped
    &&& request.stdout == Connection::Piped
    &&& request.stderr == Connection::Inherited
}

/// The request to start a server.
pub fn server_request() -> (request: StartRequest)
    ensures
        runs_server(request),
{
    let mut args: Vec<Vec<u8>> = Vec::new();
    args.push("run".as_bytes_vec());
    args.push("server".as_bytes_vec());
    StartRequest {
        program: "cargo".as_bytes_vec(),
        args,
        stdin: Connection::Piped,
        stdout: Connection::Piped,
        stderr: Connection::Inherited,
    }
}

impl<P, S, T> Client<P, S, T> {
    /// Starts a server and makes a client of it, or says why there is none. `start` starts the
    /// process as it is asked to, and `attach` starts the tasks on the server's standard input and
    /// standard output.
    pub fn spawn<A, B, R, E>(
        start: impl FnOnce(StartRequest) -> Result<ServerProcess<P, A, B>, E>,
        attach: impl FnOnce(A, B) -> Handles<S, T, R>,
    ) -> (client: Result<(Self, R), Error<E>>)
        requires
            forall|r: StartRequest| #[trigger] start.requires((r,)),
            forall|a: A, b: B| #[trigger] attach.requires((a, b)),
        ensures
            exists|request: StartRequest, started: Result<ServerProcess<P, A, B>, E>|
                {
                    &&& runs_server(request)
                    &&& #[trigger] start.ensures((request,), started)
                    &&& match started {
                        Err(source) => client == Err::<(Self, R), Error<E>>(
                            Error::UnableToSpawnServer { source },
                        ),
                        Ok(ServerProcess { stdin: None, .. }) => client == Err::<
                            (Self, R),
                            Error<E>,
                        >(Error::ServerHasNoStdin),
                        Ok(ServerProcess { stdin: Some(_), stdout: None, .. }) => client == Err::<
                            (Self, R),
                            Error<E>,
                        >(Error::ServerHasNoStdout),
                        Ok(
                            ServerProcess { server, stdin: Some(stdin), stdout: Some(stdout) },
                        ) => exists|handles: Handles<S, T, R>|
                            {
                                &&& #[trigger] attach.ensures((stdin, stdout), handles)
                                &&& client == Ok::<(Self, R), Error<E>>(
                                    (
                                        Client {
                                            server,
                                            tx_to_server: handles.tx_to_server,
                                            tx_to_server_task: handles.tx_to_server_task,
                                            rx_from_server_task: handles.rx_from_server_task,
                                        },
                                        handles.rx_from_server,
                                    ),
                                )
                            },
                    }
                },
    {
        let request = server_request();
        let process = match start(request) {
            Ok(process) => process,
            Err(source) => {
                return Err(Error::UnableToSpawnServer { source });
            },
        };
        let stdin = match process.stdin {
            Some(stdin) => stdin,
            None => {
                return Err(Error::ServerHasNoStdin);
            },
        };
        let stdout = match process.stdout {
            Some(stdout) => stdout,
            None => {
                return Err(Error::ServerHasNoStdout);
            },
        };
        let handles = attach(stdin, stdout);
        let client = Client {
            server: process.server,
            tx_to_server: handles.tx_to_server,
            tx_to_server_task: handles.tx_to_server_task,
            rx_from_server_task: handles.rx_from_server_task,
        };
        Ok((client, handles.rx_from_server))
    }

    /// Where a request goes, and the message that it is.
    pub fn send<M: Into<ServerMessage>>(&self, cmd: M) -> (delivery: (&S, ServerMessage))
        ensures
            *delivery.0 == self.tx_to_server,
            call_ensures(M::into, (cmd,), delivery.1),
    {
        (&self.tx_to_server, cmd.into())
    }

    /// Takes the client apart: its channel to the server is closed, and the server and the tasks
    /// are left to be waited for.
    pub fn shutdown(self) -> (tasks: Tasks<P, T>)
        ensures
            tasks == (Tasks {
                server: self.server,
                rx_from_server_task: self.rx_from_server_task,
                tx_to_server_task: self.tx_to_server_task,
            }),
    {
        let Client { server, tx_to_server_task, rx_from_server_task, .. } = self;
        Tasks { server, rx_from_server_task, tx_to_server_task }
    }
}

/// What becomes of a request, from the channel's answer.
pub fn send_result<E>(sent: Result<(), E>) -> (result: Result<(), Error<E>>)
    ensures
        result == match sent {
            Ok(()) => Ok::<(), Error<E>>(()),
            Err(source) => Err(Error::UnableToRelayMessageToServer { source }),
        },
{
    match sent {
        Ok(()) => Ok(()),
        Err(source) => Err(Error::UnableToRelayMessageToServer { source }),
    }
}

/// What shutting a client down comes to: the first failure among the server, the task that receives
/// from it and the task that sends to it, in this order.
pub open spec fn shutdown_outcome<E>(joined: JoinedTasks<E>) -> Result<(), Error<E>> {
    match joined {
        JoinedTasks { server: Err(source), .. } => Err(Error::UnableToWaitForServer { source }),
        JoinedTasks { rx_from_server_task: Err(source), .. } => Err(
            Error::UnableToJoinRxFromServerTask { source },
        ),
        JoinedTasks { rx_from_server_task: Ok(Err(e)), .. } => Err(e),
        JoinedTasks { tx_to_server_task: Err(source), .. } => Err(
            Error::UnableToJoinTxToServerTask { source },
        ),
        JoinedTasks { tx_to_server_task: Ok(Err(e)), .. } => Err(e),
        _ => Ok(()),
    }
}

/// The result of shutting a client down, once the server and the tasks have ended.
pub fn shutdown_result<E>(joined: JoinedTasks<E>) -> (result: Result<(), Error<E>>)
    ensures
        result == shutdown_outcome(joined),
{
    if let Err(source) = joined.server {
        return Err(Error::UnableToWaitForServer { source });
    }
    match joined.rx_from_server_task {
        Err(source) => {
            return Err(Error::UnableToJoinRxFromServerTask { source });
        },
        Ok(Err(e)) => {
            return Err(e);
        },
        Ok(Ok(())) => {},
    }
    match joined.tx_to_server_task {
        Err(source) => Err(Error::UnableToJoinTxToServerTask { source }),
        Ok(Err(e)) => Err(e),
        Ok(Ok(())) => Ok(()),
    }
}

/// Shutting a client down succeeds exactly where the server ended and both tasks were joined and
/// succeeded.
pub proof fn law_shutdown_needs_everything<E>(joined: JoinedTasks<E>)
    ensures
        shutdown_outcome(joined) is Ok <==> {
            &&& joined.server is Ok
            &&& joined.rx_from_server_task matches Ok(Ok(()))
            &&& joined.tx_to_server_task matches Ok(Ok(()))
        },
{
}

/// What follows an outcome in the task that decodes the server's messages.
pub open spec fn rx_from_server_next<E>(event: ReadEvent<ClientMessage, E>) -> Flow<
    ReadWork<ClientMessage>,
    Error<E>,
> {
    match read_next(event) {
        ControlFlow::Continue(work) => ControlFlow::Continue(work),
        ControlFlow::Break(Ok(())) => ControlFlow::Break(Ok(())),
        ControlFlow::Break(Err(ReadTaskError::Decode(source))) => ControlFlow::Break(
            Err(Error::UnableToDecodeMessageFromServer { source }),
        ),
        ControlFlow::Break(Err(ReadTaskError::Relay(source))) => ControlFlow::Break(
            Err(Error::UnableToRelayMessageFromServer { source }),
        ),
    }
}

/// One step of the task that decodes the server's messages.
pub fn rx_from_server_step<E>(event: ReadEvent<ClientMessage, E>) -> (flow: Flow<
    ReadWork<ClientMessage>,
    Error<E>,
>)
    ensures
        flow == rx_from_server_next(event),
{
    match read_step(event) {
        ControlFlow::Continue(work) => ControlFlow::Continue(work),
        ControlFlow::Break(Ok(())) => ControlFlow::Break(Ok(())),
        ControlFlow::Break(Err(ReadTaskError::Decode(source))) => ControlFlow::Break(
            Err(Error::UnableToDecodeMessageFromServer { source }),
        ),
        ControlFlow::Break(Err(ReadTaskError::Relay(source))) => ControlFlow::Break(
            Err(Error::UnableToRelayMessageFromServer { source }),
        ),
    }
}

/// The result of the task that encodes messages for the server, from how its writing ended.
pub open spec fn tx_to_server_end<E>(end: Result<(), WriteTaskError<E>>) -> Result<(), Error<E>> {
    match end {
        Ok(()) => Ok(()),
        Err(WriteTaskError::Write(source)) => Err(Error::UnableToEncodeMessageToServer { source }),
        Err(WriteTaskError::Flush(source)) => Err(Error::UnableToFlushMessageToServer { source }),
    }
}

/// What follows an outcome in the task that encodes messages for the server.
pub open spec fn tx_to_server_next<E>(event: WriteEvent<ServerMessage, E>) -> Flow<
    WriteWork<ServerMessage>,
    Error<E>,
> {
    match write_next(event) {
        ControlFlow::Continue(work) => ControlFlow::Continue(work),
        ControlFlow::Break(end) => ControlFlow::Break(tx_to_server_end(end)),
    }
}

/// One step of the task that encodes messages for the server.
pub fn tx_to_server_step<E>(event: WriteEvent<ServerMessage, E>) -> (flow: Flow<
    WriteWork<ServerMessage>,
    Error<E>,
>)
    ensures
        flow == tx_to_server_next(event),
{
    match write_step(event) {
        ControlFlow::Continue(work) => ControlFlow::Continue(work),
        ControlFlow::Break(Ok(())) => ControlFlow::Break(Ok(())),
        ControlFlow::Break(Err(WriteTaskError::Write(source))) => ControlFlow::Break(
            Err(Error::UnableToEncodeMessageToServer { source }),
        ),
        ControlFlow::Break(Err(WriteTaskError::Flush(source))) => ControlFlow::Break(
            Err(Error::UnableToFlushMessageToServer { source }),
        ),
    }
}

/// A shutdown does not discard a request that was accepted: where the channel hands over these
/// messages, in order, and is then closed, and no encoding or flush of them fails, the task that
/// sends to the server writes all of them, in order, flushes each, and ends cleanly. So once that
/// task is joined, the shutdown fails only where the server or the other task does.
pub proof fn law_shutdown_writes_accepted_requests<E>(
    messages: Seq<ServerMessage>,
    rounds: Seq<(Option<ServerMessage>, Result<(), E>, Result<(), E>)>,
    joined: JoinedTasks<E>,
)
    requires
        rounds.len() == messages.len() + 1,
        forall|i: int|
            0 <= i < messages.len() ==> {
                &&& (#[trigger] rounds[i]).0 == Some(messages[i])
                &&& rounds[i].1 is Ok
                &&& rounds[i].2 is Ok
            },
        rounds.last().0 is None,
        joined.tx_to_server_task matches Ok(result) ==> write_run(rounds).2 matches Some(end)
            && result == tx_to_server_end(end),
    ensures
        write_run(rounds).0 == messages,
        write_run(rounds).1 == messages.len(),
        write_run(rounds).2 matches Some(Ok(())),
        joined.tx_to_server_task is Ok ==> (shutdown_outcome(joined) is Ok <==> {
            &&& joined.server is Ok
            &&& joined.rx_from_server_task matches Ok(Ok(()))
        }),
{
    law_all_messages_are_written(messages, rounds);
}

/// What the client shows of a message: starts and stops, and standard output that is UTF-8.
pub open spec fn shown(message: ClientMessage) -> Option<Seq<char>> {
    match message {
        ClientMessage::ChildStarted(ChildStarted { psid }) => Some(
            "["@ + psid_text(psid) + "] child started\n"@,
        ),
        ClientMessage::ChildStopped(ChildStopped { psid }) => Some(
            "["@ + psid_text(psid) + "] child stopped\n"@,
        ),
        ClientMessage::Output(Output { psid, stdout, .. }) => match utf8_text(stdout@) {
            Some(text) => Some("["@ + psid_text(psid) + "]> "@ + text),
            None => None,
        },
    }
}

/// `[`, the id, and what comes behind it.
fn labelled(psid: ProcessSequenceId, rest: &str) -> (text: String)
    ensures
        text@ == "["@ + psid_text(psid) + rest@,
{
    let mut text = String::from_str("[");
    let id = psid.to_string();
    text.append(id.as_str());
    text.append(rest);
    text
}

/// The text with which the client shows a message, if it shows it.
pub fn show(message: &ClientMessage) -> (text: Option<String>)
    ensures
        match text {
            Some(text) => shown(*message) == Some(text@),
            None => shown(*message) is None,
        },
{
    match message {
        ClientMessage::ChildStarted(ChildStarted { psid }) => Some(
            labelled(*psid, "] child started\n"),
        ),
        ClientMessage::ChildStopped(ChildStopped { psid }) => Some(
            labelled(*psid, "] child stopped\n"),
        ),
        ClientMessage::Output(Output { psid, stdout, .. }) => match from_utf8(stdout.as_slice()) {
            Some(s) => {
                let mut text = labelled(*psid, "]> ");
                text.append(s);
                Some(text)
            },
            None => None,
        },
    }
}

/// What a session says to a process.
pub open spec fn hello_text(psid: ProcessSequenceId) -> Seq<char> {
    "hello from "@ + psid_text(psid) + "\n"@
}

/// The messages that start a process that echoes its input, and then say hello to it.
pub open spec fn is_greeting(psid: ProcessSequenceId, messages: Seq<ServerMessage>) -> bool {
    &&& messages.len() == 2
    &&& messages[0] matches ServerMessage::Spawn(spawn) && spawn.psid == psid && spawn.command@
        == encode_utf8("cat"@)
    &&& messages[1] matches ServerMessage::Input(input) && input.psid == psid && input.content@
        == encode_utf8(hello_text(psid))
}

/// The messages that greet a process, in the order in which they are to be sent.
pub fn greeting(psid: ProcessSequenceId) -> (messages: Vec<ServerMessage>)
    ensures
        is_greeting(psid, messages@),
{
    let mut text = String::from_str("hello from ");
    let id = psid.to_string();
    text.append(id.as_str());
    text.append("\n");
    let command = "cat".as_bytes_vec();
    let content = text.as_str().as_bytes_vec();
    let mut messages: Vec<ServerMessage> = Vec::new();
    messages.push(ServerMessage::from(Spawn { psid, command }));
    messages.push(ServerMessage::from(Input { psid, content }));
    messages
}

/// Whether `flow` follows in the sending of messages one after the other, where the last one was
/// sent, or not, and `rest` are still to be sent: nothing is sent after a failure.
pub open spec fn delivery_follows<E>(
    sent: Result<(), Error<E>>,
    rest: Seq<ServerMessage>,
    flow: Flow<(ServerMessage, Vec<ServerMessage>), Error<E>>,
) -> bool {
    match sent {
        Err(e) => flow == ControlFlow::<
            Result<(), Error<E>>,
            (ServerMessage, Vec<ServerMessage>),
        >::Break(Err(e)),
        Ok(()) => if rest.len() == 0 {
            flow == ControlFlow::<
                Result<(), Error<E>>,
                (ServerMessage, Vec<ServerMessage>),
            >::Break(Ok(()))
        } else {
            &&& flow matches ControlFlow::Continue((message, after))
            &&& message == rest[0]
            &&& after@ == rest.skip(1)
        },
    }
}

/// One step in the sending of messages one after the other: the message to send next and those
/// that come after it, or the end. It starts with `Ok(())` and all of them.
pub fn delivery_step<E>(sent: Result<(), Error<E>>, rest: Vec<ServerMessage>) -> (flow: Flow<
    (ServerMessage, Vec<ServerMessage>),
    Error<E>,
>)
    ensures
        delivery_follows(sent, rest@, flow),
{
    match sent {
        Err(e) => ControlFlow::Break(Err(e)),
        Ok(()) => {
            let mut rest = rest;
            if rest.len() == 0 {
                ControlFlow::Break(Ok(()))
            } else {
                let ghost all = rest@;
                let message = rest.remove(0);
                assert(rest@ =~= all.skip(1));
                ControlFlow::Continue((message, rest))
            }
        },
    }
}

/// One message in the sending of messages one after the other: what was decided on before it, and
/// the outcome of sending it.
pub struct Delivery<E> {
    pub flow: Flow<(ServerMessage, Vec<ServerMessage>), Error<E>>,
    pub sent: Result<(), Error<E>>,
}

/// Whether these are the deliveries of the messages, from the first on, as far as they go.
pub open spec fn are_deliveries_of<E>(
    messages: Seq<ServerMessage>,
    deliveries: Seq<Delivery<E>>,
) -> bool
    decreases deliveries.len(),
{
    deliveries.len() > 0 ==> {
        let first = deliveries[0];
        &&& delivery_follows(Ok(()), messages, first.flow)
        &&& match first.flow {
            ControlFlow::Break(_) => deliveries.len() == 1,
            ControlFlow::Continue((_, rest)) => match first.sent {
                Ok(()) => are_deliveries_of(rest@, deliveries.skip(1)),
                Err(e) => deliveries.len() == 1 || (deliveries.len() == 2 && delivery_follows(
                    Err(e),
                    rest@,
                    deliveries[1].flow,
                )),
            },
        }
    }
}

/// Messages are sent in order, each only where all before it were sent: the sending ends well
/// exactly after the last message, and with the failure of the message that could not be sent.
pub proof fn law_delivery_stops_at_a_failure<E>(
    messages: Seq<ServerMessage>,
    deliveries: Seq<Delivery<E>>,
    i: int,
)
    requires
        are_deliveries_of(messages, deliveries),
        0 <= i < deliveries.len(),
    ensures
        match deliveries[i].flow {
            ControlFlow::Continue((message, _)) => {
                &&& i < messages.len()
                &&& message == messages[i]
                &&& forall|j: int| 0 <= j < i ==> (#[trigger] deliveries[j]).sent is Ok
            },
            ControlFlow::Break(Ok(())) => {
                &&& i == messages.len()
                &&& forall|j: int| 0 <= j < i ==> (#[trigger] deliveries[j]).sent is Ok
            },
            ControlFlow::Break(Err(e)) => i > 0 && deliveries[i - 1].sent == Err::<
                (),
                Error<E>,
            >(e),
        },
    decreases deliveries.len(),
{
    if i > 0 {
        let first = deliveries[0];
        if let ControlFlow::Continue((_, rest)) = first.flow {
            if first.sent is Ok {
                let tail = deliveries.skip(1);
                law_delivery_stops_at_a_failure(rest@, tail, i - 1);
                assert(deliveries[i] == tail[i - 1]);
                assert forall|j: int| 0 <= j < i && (forall|k: int|
                    0 <= k < i - 1 ==> (#[trigger] tail[k]).sent is Ok) implies (
                #[trigger] deliveries[j]).sent is Ok by {
                    if j > 0 {
                        assert(tail[j - 1] == deliveries[j]);
                    }
                }
                assert(i > 1 ==> deliveries[i - 1] == tail[i - 2]);
            }
        }
    }
}

/// An outcome in a session.
#[derive(Debug)]
pub enum SessionEvent<E> {
    /// What sending each greeting gave, in order.
    Greeted(Vec<Result<(), Error<E>>>),
    Rested,
    /// What sending each request to kill gave, in order.
    Killed(Vec<Result<(), Error<E>>>),
    ShutDown(Result<(), Error<E>>),
}

/// What a session does next.
#[derive(Debug, PartialEq, Eq)]
pub enum SessionWork {
    /// Send all greetings at a time, the messages of each one after the other.
    Greet(Vec<Vec<ServerMessage>>),
    /// Do nothing for so many milliseconds.
    Rest(u64),
    /// Send all requests at a time.
    Kill(Vec<Kill>),
    /// Shut the client down.
    ShutDown,
}

/// Whether `flow` follows `event` in a session.
pub open spec fn session_follows<E>(
    event: SessionEvent<E>,
    flow: Flow<SessionWork, Error<E>>,
) -> bool {
    match event {
        SessionEvent::Greeted(results) => match first_failure(results@) {
            Some(e) => flow == ControlFlow::<Result<(), Error<E>>, SessionWork>::Break(Err(e)),
            None => flow == ControlFlow::<Result<(), Error<E>>, SessionWork>::Continue(
                SessionWork::Rest(SESSION_MILLIS),
            ),
        },
        SessionEvent::Rested => {
            &&& flow matches ControlFlow::Continue(SessionWork::Kill(kills))
            &&& kills@.len() == SESSION_PROCESSES
            &&& forall|i: int| 0 <= i < kills@.len() ==> (#[trigger] kills@[i]).psid.0 == i
        },
        SessionEvent::Killed(results) => match first_failure(results@) {
            Some(e) => flow == ControlFlow::<Result<(), Error<E>>, SessionWork>::Break(Err(e)),
            None => flow == ControlFlow::<Result<(), Error<E>>, SessionWork>::Continue(
                SessionWork::ShutDown,
            ),
        },
        SessionEvent::ShutDown(result) => {
            flow == ControlFlow::<Result<(), Error<E>>, SessionWork>::Break(result)
        },
    }
}

/// The first work of a session: to greet the processes, which are numbered from zero.
pub fn session_start() -> (work: SessionWork)
    ensures
        work matches SessionWork::Greet(greetings) && greetings@.len() == SESSION_PROCESSES
            && forall|i: int|
            0 <= i < greetings@.len() ==> is_greeting(
                ProcessSequenceId(i as u32),
                (#[trigger] greetings@[i])@,
            ),
{
    let mut greetings: Vec<Vec<ServerMessage>> = Vec::new();
    let mut id: u32 = 0;
    while id < SESSION_PROCESSES
        invariant
            id <= SESSION_PROCESSES,
            greetings@.len() == id,
            forall|i: int|
                0 <= i < greetings@.len() ==> is_greeting(
                    ProcessSequenceId(i as u32),
                    (#[trigger] greetings@[i])@,
                ),
        decreases SESSION_PROCESSES - id,
    {
        greetings.push(greeting(ProcessSequenceId::new(id)));
        id += 1;
    }
    SessionWork::Greet(greetings)
}

/// One step of a session: greet the processes, let them run, kill them, shut down.
pub fn session_step<E>(event: SessionEvent<E>) -> (flow: Flow<SessionWork, Error<E>>)
    ensures
        session_follows(event, flow),
{
    match event {
        SessionEvent::Greeted(results) => match find_failure(results) {
            Some(e) => ControlFlow::Break(Err(e)),
            None => ControlFlow::Continue(SessionWork::Rest(SESSION_MILLIS)),
        },
        SessionEvent::Rested => {
            let mut kills: Vec<Kill> = Vec::new();
            let mut id: u32 = 0;
            while id < SESSION_PROCESSES
                invariant
                    id <= SESSION_PROCESSES,
                    kills@.len() == id,
                    forall|i: int| 0 <= i < kills@.len() ==> (#[trigger] kills@[i]).psid.0 == i,
                decreases SESSION_PROCESSES - id,
            {
                kills.push(Kill { psid: ProcessSequenceId::new(id) });
                id += 1;
            }
            ControlFlow::Continue(SessionWork::Kill(kills))
        },
        SessionEvent::Killed(results) => match find_failure(results) {
            Some(e) => ControlFlow::Break(Err(e)),
            None => ControlFlow::Continue(SessionWork::ShutDown),
        },
        SessionEvent::ShutDown(result) => ControlFlow::Break(result),
    }
}

/// A session kills exactly the processes that it greets.
pub proof fn law_session_kills_whom_it_greets<E>(
    greetings: Seq<Vec<ServerMessage>>,
    kills: Vec<Kill>,
)
    requires
        greetings.len() == SESSION_PROCESSES,
        forall|i: int|
            0 <= i < greetings.len() ==> is_greeting(
                ProcessSequenceId(i as u32),
                (#[trigger] greetings[i])@,
            ),
        session_follows(
            SessionEvent::<E>::Rested,
            ControlFlow::Continue(SessionWork::Kill(kills)),
        ),
    ensures
        kills@.len() == greetings.len(),
        forall|i: int|
            0 <= i < kills@.len() ==> is_greeting(
                (#[trigger] kills@[i]).psid,
                greetings[i]@,
            ),
{
    assert forall|i: int| 0 <= i < kills@.len() implies is_greeting(
        (#[trigger] kills@[i]).psid,
        greetings[i]@,
    ) by {
        assert(kills@[i].psid == ProcessSequenceId(i as u32));
    }
}

} // verus!
