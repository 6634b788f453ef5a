//! The server: it runs child processes as the client asks and relays what passes between them.
//!
//! `C` is the program's handle of a child. `E` is whatever it reports as the source of a failure.

use crate::messages::{ChildStarted, ClientMessage, Input, Kill, ProcessSequenceId};
use crate::messages::{psid_text, ServerMessage, Spawn};
use crate::results::{find_failure, first_failure};
use crate::server::children::{in_key_order, Children};
use crate::text::{from_utf8, joined, utf8_text};
use crate::wire::{read_next, read_step, write_next, write_step, Flow, ReadEvent, ReadTaskError};
use crate::wire::{ReadWork, WriteEvent, WriteTaskError, WriteWork};
use std::ops::ControlFlow;
use vstd::prelude::*;
use vstd::string::*;

pub mod child;
pub mod children;
pub mod laws;

verus! {

/// Why the server, or its task for standard input or output, failed.
#[derive(Debug, PartialEq, Eq)]
#[allow(inconsistent_fields)]
pub enum Error<E> {
    UnableToDecodeServerMessage { source: E },
    UnableToSendServerMessage { source: E },
    UnableToEncodeClientMessage { source: E },
    UnableToFlushClientMessage { source: E },
    ChildNotRunning { psid: ProcessSequenceId },
    UnableToKillReplacedChild { source: child::Error<E>, psid: ProcessSequenceId },
    UnableToKillChild { source: child::Error<E>, psid: ProcessSequenceId },
    UnableToShutdownChild { source: child::Error<E> },
    UnableToSpawnChild { source: child::Error<E> },
    UnableToRelayChildStartedToClient { source: E },
    UnableToRelayInputToChild { source: child::Error<E> },
    UnableToJoinStdinTask { source: E },
    UnableToJoinStdoutTask { source: E },
}

impl<E> Error<E> {
    /// The text of the failure, where `source` is the text of the outside failure behind it. A
    /// failure without words of its own goes by its name and the failure that it comes from.
    pub open spec fn text(self, source: Seq<char>) -> Seq<char> {
        match self {
            Error::UnableToDecodeServerMessage { .. } => {
                "Could not decode the message from the client"@
            },
            Error::UnableToSendServerMessage { .. } => {
                "Could not transmit the client's message to core loop"@
            },
            Error::UnableToEncodeClientMessage { .. } => {
                "Could not encode the message to the client"@
            },
            Error::UnableToFlushClientMessage { .. } => "Could not flush message to the client"@,
            Error::ChildNotRunning { psid } => {
                "The child is not currently running ("@ + psid_text(psid) + ")"@
            },
            Error::UnableToKillReplacedChild { psid, .. } => {
                "Could not kill the child process being replaced ("@ + psid_text(psid) + ")"@
            },
            Error::UnableToKillChild { psid, .. } => {
                "Could not kill the currently-running child process ("@ + psid_text(psid) + ")"@
            },
            Error::UnableToShutdownChild { source: e } => {
                "UnableToShutdownChild: "@ + e.text(source)
            },
            Error::UnableToSpawnChild { source: e } => "UnableToSpawnChild: "@ + e.text(source),
            Error::UnableToRelayChildStartedToClient { .. } => {
                "UnableToRelayChildStartedToClient: "@ + source
            },
            Error::UnableToRelayInputToChild { source: e } => {
                "UnableToRelayInputToChild: "@ + e.text(source)
            },
            Error::UnableToJoinStdinTask { .. } => "Could not join to the stdin task"@,
            Error::UnableToJoinStdoutTask { .. } => "Could not join to the stdout task"@,
        }
    }

    /// The outside failure behind this one, if there is one.
    pub open spec fn outside(self) -> Option<E> {
        match self {
            Error::UnableToDecodeServerMessage { source, .. } => Some(source),
            Error::UnableToSendServerMessage { source, .. } => Some(source),
            Error::UnableToEncodeClientMessage { source, .. } => Some(source),
            Error::UnableToFlushClientMessage { source, .. } => Some(source),
            Error::ChildNotRunning { .. } => None,
            Error::UnableToKillReplacedChild { source, .. } => source.outside(),
            Error::UnableToKillChild { source, .. } => source.outside(),
            Error::UnableToShutdownChild { source, .. } => source.outside(),
            Error::UnableToSpawnChild { source, .. } => source.outside(),
            Error::UnableToRelayChildStartedToClient { source, .. } => Some(source),
            Error::UnableToRelayInputToChild { source, .. } => source.outside(),
            Error::UnableToJoinStdinTask { source, .. } => Some(source),
            Error::UnableToJoinStdoutTask { source, .. } => Some(source),
        }
    }

    /// The text of the failure, where `source` is the text of the outside failure behind it.
    pub fn to_text(&self, source: &str) -> (text: String)
        ensures
            text@ == self.text(source@),
    {
        match self {
            Error::UnableToDecodeServerMessage { .. } => String::from_str(
                "Could not decode the message from the client",
            ),
            Error::UnableToSendServerMessage { .. } => String::from_str(
                "Could not transmit the client's message to core loop",
            ),
            Error::UnableToEncodeClientMessage { .. } => String::from_str(
                "Could not encode the message to the client",
            ),
            Error::UnableToFlushClientMessage { .. } => String::from_str(
                "Could not flush message to the client",
            ),
            Error::ChildNotRunning { psid } => named("The child is not currently running (", *psid),
            Error::UnableToKillReplacedChild { psid, .. } => named(
                "Could not kill the child process being replaced (",
                *psid,
            ),
            Error::UnableToKillChild { psid, .. } => named(
                "Could not kill the currently-running child process (",
                *psid,
            ),
            Error::UnableToShutdownChild { source: e } => joined(
                "UnableToShutdownChild: ",
                e.to_text(source).as_str(),
            ),
            Error::UnableToSpawnChild { source: e } => joined(
                "UnableToSpawnChild: ",
                e.to_text(source).as_str(),
            ),
            Error::UnableToRelayChildStartedToClient { .. } => joined(
                "UnableToRelayChildStartedToClient: ",
                source,
            ),
            Error::UnableToRelayInputToChild { source: e } => joined(
                "UnableToRelayInputToChild: ",
                e.to_text(source).as_str(),
            ),
            Error::UnableToJoinStdinTask { .. } => String::from_str(
                "Could not join to the stdin task",
            ),
            Error::UnableToJoinStdoutTask { .. } => String::from_str(
                "Could not join to the stdout task",
            ),
        }
    }

    /// The outside failure behind this one, if there is one.
    pub fn outside_source(&self) -> (source: Option<&E>)
        ensures
            match source {
                Some(source) => self.outside() == Some(*source),
                None => self.outside() is None,
            },
    {
        match self {
            Error::UnableToDecodeServerMessage { source, .. } => Some(source),
            Error::UnableToSendServerMessage { source, .. } => Some(source),
            Error::UnableToEncodeClientMessage { source, .. } => Some(source),
            Error::UnableToFlushClientMessage { source, .. } => Some(source),
            Error::ChildNotRunning { .. } => None,
            Error::UnableToKillReplacedChild { source, .. } => source.outside_source(),
            Error::UnableToKillChild { source, .. } => source.outside_source(),
            Error::UnableToShutdownChild { source, .. } => source.outside_source(),
            Error::UnableToSpawnChild { source, .. } => source.outside_source(),
            Error::UnableToRelayChildStartedToClient { source, .. } => Some(source),
            Error::UnableToRelayInputToChild { source, .. } => source.outside_source(),
            Error::UnableToJoinStdinTask { source, .. } => Some(source),
            Error::UnableToJoinStdoutTask { source, .. } => Some(source),
        }
    }
}

/// What the server waits for.
#[derive(Debug, Copy, Clone, PartialEq, Eq, Structural)]
pub enum Phase {
    /// The next message of the client.
    Listening,
    /// The start of a process.
    Spawning(ProcessSequenceId),
    /// The shutdown of the child whose place a new one has taken.
    Replacing(ProcessSequenceId),
    /// The client's being told that a child has started.
    Announcing,
    /// The shutdown of a child that the client wants killed.
    Killing(ProcessSequenceId),
    /// The handing over of input to a child.
    Relaying,
    /// The shutdown of every child, and the end of the tasks for standard input and output.
    Draining,
    /// Nothing: the server has ended.
    Exited,
}

/// The outcome of the work that the server asked for.
#[derive(Debug)]
pub enum Event<C, E> {
    /// A message of the client, or `None` when there will be no more.
    Message(Option<ServerMessage>),
    Spawned(Result<C, child::Error<E>>),
    ShutDown(Result<(), child::Error<E>>),
    Announced(Result<(), E>),
    Relayed(Result<(), child::Error<E>>),
    Drained(Drained<E>),
}

/// What the shutdown of every child gave, in the order in which they were handed out, and what
/// joining the tasks for standard output and input gave.
#[derive(Debug)]
pub struct Drained<E> {
    pub children: Vec<Result<(), child::Error<E>>>,
    pub stdout_task: Result<Result<(), Error<E>>, E>,
    pub stdin_task: Result<Result<(), Error<E>>, E>,
}

/// What the server asks for.
#[derive(Debug, PartialEq, Eq)]
pub enum Work<C> {
    /// Receive a message of the client.
    Receive,
    /// Start a process.
    Spawn(Spawn),
    /// Kill a child and shut it down.
    ShutDown(C),
    /// Send a message to the client.
    Announce(ClientMessage),
    /// Hand the input to the child with its id.
    Relay(Input),
    /// Kill and shut down every one of these children, and join the tasks for standard output and
    /// input.
    Drain(Vec<C>),
}

/// The children that are running, by the number of their id, and what the server waits for.
pub struct ServerState<C> {
    pub children: Map<u32, C>,
    pub phase: Phase,
}

impl<C> ServerState<C> {
    /// A server that has just started.
    pub open spec fn initial() -> Self {
        ServerState { children: Map::empty(), phase: Phase::Listening }
    }

    /// Whether this is an outcome that the server waits for.
    pub open spec fn awaits<E>(self, event: Event<C, E>) -> bool {
        match self.phase {
            Phase::Listening => event is Message,
            Phase::Spawning(_) => event is Spawned,
            Phase::Replacing(_) => event is ShutDown,
            Phase::Announcing => event is Announced,
            Phase::Killing(_) => event is ShutDown,
            Phase::Relaying => event is Relayed,
            Phase::Draining => event is Drained,
            Phase::Exited => false,
        }
    }

    /// The same children in another phase.
    pub open spec fn turns(self, phase: Phase) -> Self {
        ServerState { children: self.children, phase }
    }
}

/// What the tasks of a drained server come to: the first failure among the children in order, the
/// task for standard output and the task for standard input.
pub open spec fn drain_outcome<E>(drained: Drained<E>) -> Result<(), Error<E>> {
    match first_failure(drained.children@) {
        Some(source) => Err(Error::UnableToShutdownChild { source }),
        None => match drained.stdout_task {
            Err(source) => Err(Error::UnableToJoinStdoutTask { source }),
            Ok(Err(e)) => Err(e),
            Ok(Ok(())) => match drained.stdin_task {
                Err(source) => Err(Error::UnableToJoinStdinTask { source }),
                Ok(Err(e)) => Err(e),
                Ok(Ok(())) => Ok(()),
            },
        },
    }
}

/// Whether the server, in the state `pre` and given `event`, may go to the state `post` and decide
/// on `flow`.
pub open spec fn follows<C, E>(
    pre: ServerState<C>,
    event: Event<C, E>,
    post: ServerState<C>,
    flow: Flow<Work<C>, Error<E>>,
) -> bool {
    match (pre.phase, event) {
        (Phase::Listening, Event::Message(Some(ServerMessage::Spawn(spawn)))) => {
            &&& post == pre.turns(Phase::Spawning(spawn.psid))
            &&& flow == goes_on::<C, E>(Work::Spawn(spawn))
        },
        (Phase::Listening, Event::Message(Some(ServerMessage::Kill(kill)))) => {
            &&& post.children == pre.children.remove(kill.psid.0)
            &&& if pre.children.contains_key(kill.psid.0) {
                &&& post.phase == Phase::Killing(kill.psid)
                &&& flow == goes_on::<C, E>(Work::ShutDown(pre.children[kill.psid.0]))
            } else {
                post.phase == Phase::Listening && flow == goes_on::<C, E>(Work::Receive)
            }
        },
        (Phase::Listening, Event::Message(Some(ServerMessage::Input(input)))) => {
            if pre.children.contains_key(input.psid.0) {
                post == pre.turns(Phase::Relaying) && flow == goes_on::<C, E>(Work::Relay(input))
            } else {
                post == pre.turns(Phase::Exited) && flow == fails::<C, E>(
                    Error::ChildNotRunning { psid: input.psid },
                )
            }
        },
        (Phase::Listening, Event::Message(None)) => {
            &&& post.children == Map::<u32, C>::empty()
            &&& post.phase == Phase::Draining
            &&& flow matches ControlFlow::Continue(Work::Drain(children)) && in_key_order(
                pre.children,
                children@,
            )
        },
        (Phase::Spawning(psid), Event::Spawned(Ok(child))) => {
            &&& post.children == pre.children.insert(psid.0, child)
            &&& if pre.children.contains_key(psid.0) {
                &&& post.phase == Phase::Replacing(psid)
                &&& flow == goes_on::<C, E>(Work::ShutDown(pre.children[psid.0]))
            } else {
                post.phase == Phase::Announcing && flow == announces::<C, E>(psid)
            }
        },
        (Phase::Spawning(_), Event::Spawned(Err(source))) => {
            post == pre.turns(Phase::Exited) && flow == fails::<C, E>(
                Error::UnableToSpawnChild { source },
            )
        },
        (Phase::Replacing(psid), Event::ShutDown(Ok(()))) => {
            post == pre.turns(Phase::Announcing) && flow == announces::<C, E>(psid)
        },
        (Phase::Replacing(psid), Event::ShutDown(Err(source))) => {
            post == pre.turns(Phase::Exited) && flow == fails::<C, E>(
                Error::UnableToKillReplacedChild { source, psid },
            )
        },
        (Phase::Announcing, Event::Announced(Ok(()))) => {
            post == pre.turns(Phase::Listening) && flow == goes_on::<C, E>(Work::Receive)
        },
        (Phase::Announcing, Event::Announced(Err(source))) => {
            post == pre.turns(Phase::Exited) && flow == fails::<C, E>(
                Error::UnableToRelayChildStartedToClient { source },
            )
        },
        (Phase::Killing(_), Event::ShutDown(Ok(()))) => {
            post == pre.turns(Phase::Listening) && flow == goes_on::<C, E>(Work::Receive)
        },
        (Phase::Killing(psid), Event::ShutDown(Err(source))) => {
            post == pre.turns(Phase::Exited) && flow == fails::<C, E>(
                Error::UnableToKillChild { source, psid },
            )
        },
        (Phase::Relaying, Event::Relayed(Ok(()))) => {
            post == pre.turns(Phase::Listening) && flow == goes_on::<C, E>(Work::Receive)
        },
        (Phase::Relaying, Event::Relayed(Err(source))) => {
            post == pre.turns(Phase::Exited) && flow == fails::<C, E>(
                Error::UnableToRelayInputToChild { source },
            )
        },
        (Phase::Draining, Event::Drained(drained)) => {
            post == pre.turns(Phase::Exited) && flow == ControlFlow::<
                Result<(), Error<E>>,
                Work<C>,
            >::Break(drain_outcome(drained))
        },
        _ => false,
    }
}

/// The server asks for this work.
pub open spec fn goes_on<C, E>(work: Work<C>) -> Flow<Work<C>, Error<E>> {
    ControlFlow::Continue(work)
}

/// The server tells the client that the child has started.
pub open spec fn announces<C, E>(psid: ProcessSequenceId) -> Flow<Work<C>, Error<E>> {
    goes_on(Work::Announce(ClientMessage::ChildStarted(ChildStarted { psid })))
}

/// The server ends with this failure.
pub open spec fn fails<C, E>(e: Error<E>) -> Flow<Work<C>, Error<E>> {
    ControlFlow::Break(Err(e))
}

/// The server between two pieces of work.
#[derive(Debug)]
pub struct Server<C> {
    children: Children<C>,
    phase: Phase,
}

impl<C> View for Server<C> {
    type V = ServerState<C>;

    closed spec fn view(&self) -> ServerState<C> {
        ServerState { children: self.children@, phase: self.phase }
    }
}

/// The child to shut down, if there is one; otherwise the request is ignored, and `false` says that
/// nothing was killed.
pub fn maybe_kill<C>(child: Option<C>) -> (flow: ControlFlow<bool, C>)
    ensures
        flow == match child {
            Some(child) => ControlFlow::<bool, C>::Continue(child),
            None => ControlFlow::Break(false),
        },
{
    match child {
        Some(child) => ControlFlow::Continue(child),
        None => ControlFlow::Break(false),
    }
}

/// What a request to kill a running child comes to, once it is shut down: `true` says that it was
/// killed.
pub fn killed<E>(shut_down: Result<(), child::Error<E>>) -> (result: Result<bool, child::Error<E>>)
    ensures
        result == match shut_down {
            Ok(()) => Ok::<bool, child::Error<E>>(true),
            Err(e) => Err(e),
        },
{
    match shut_down {
        Ok(()) => Ok(true),
        Err(e) => Err(e),
    }
}

impl<C> Server<C> {
    /// A server with no children, and the first work.
    pub fn start() -> (server: (Self, Work<C>))
        ensures
            server.0@ == ServerState::<C>::initial(),
            server.1 == Work::<C>::Receive,
    {
        let server = Server { children: Children::new(), phase: Phase::Listening };
        (server, Work::Receive)
    }

    /// Whether this is an outcome that the server waits for.
    pub fn awaits<E>(&self, event: &Event<C, E>) -> (b: bool)
        ensures
            b == self@.awaits(*event),
    {
        match (self.phase, event) {
            (Phase::Listening, Event::Message(_)) => true,
            (Phase::Spawning(_), Event::Spawned(_)) => true,
            (Phase::Replacing(_), Event::ShutDown(_)) => true,
            (Phase::Announcing, Event::Announced(_)) => true,
            (Phase::Killing(_), Event::ShutDown(_)) => true,
            (Phase::Relaying, Event::Relayed(_)) => true,
            (Phase::Draining, Event::Drained(_)) => true,
            _ => false,
        }
    }

    /// The running child with this id.
    pub fn child(&self, psid: ProcessSequenceId) -> (child: Option<&C>)
        ensures
            child == if self@.children.contains_key(psid.0) {
                Some(&self@.children[psid.0])
            } else {
                None
            },
    {
        self.children.get(psid)
    }

    /// Takes the outcome of the work that the server asked for, and says what comes next: the next
    /// work, or the end of the server with its result.
    pub fn step<E>(&mut self, event: Event<C, E>) -> (flow: Flow<Work<C>, Error<E>>)
        requires
            old(self)@.awaits(event),
        ensures
            follows(old(self)@, event, final(self)@, flow),
    {
        match event {
            Event::Message(Some(message)) => self.receive(message),
            Event::Message(None) => {
                let children = self.children.take_all();
                self.phase = Phase::Draining;
                ControlFlow::Continue(Work::Drain(children))
            },
            Event::Spawned(spawned) => match (self.phase, spawned) {
                (Phase::Spawning(psid), Ok(child)) => {
                    let replaced = self.children.insert(psid, child);
                    match maybe_kill(replaced) {
                        ControlFlow::Continue(child) => {
                            self.phase = Phase::Replacing(psid);
                            ControlFlow::Continue(Work::ShutDown(child))
                        },
                        ControlFlow::Break(_) => self.announce(psid),
                    }
                },
                (_, Err(source)) => self.fail(Error::UnableToSpawnChild { source }),
                (_, Ok(_)) => vstd::pervasive::unreached(),
            },
            Event::ShutDown(shut_down) => match (self.phase, killed(shut_down)) {
                (Phase::Replacing(psid), Ok(_)) => self.announce(psid),
                (Phase::Replacing(psid), Err(source)) => self.fail(
                    Error::UnableToKillReplacedChild { source, psid },
                ),
                (Phase::Killing(psid), Err(source)) => self.fail(
                    Error::UnableToKillChild { source, psid },
                ),
                (_, _) => self.listen(),
            },
            Event::Announced(Ok(())) => self.listen(),
            Event::Announced(Err(source)) => self.fail(
                Error::UnableToRelayChildStartedToClient { source },
            ),
            Event::Relayed(Ok(())) => self.listen(),
            Event::Relayed(Err(source)) => self.fail(Error::UnableToRelayInputToChild { source }),
            Event::Drained(drained) => {
                self.phase = Phase::Exited;
                ControlFlow::Break(drain_result(drained))
            },
        }
    }

    /// What comes next after a message of the client.
    fn receive<E>(&mut self, message: ServerMessage) -> (flow: Flow<Work<C>, Error<E>>)
        requires
            old(self)@.phase == Phase::Listening,
        ensures
            follows(old(self)@, Event::<C, E>::Message(Some(message)), final(self)@, flow),
    {
        match message {
            ServerMessage::Spawn(spawn) => {
                self.phase = Phase::Spawning(spawn.psid);
                ControlFlow::Continue(Work::Spawn(spawn))
            },
            ServerMessage::Kill(Kill { psid }) => {
                let child = self.children.remove(psid);
                match maybe_kill(child) {
                    ControlFlow::Continue(child) => {
                        self.phase = Phase::Killing(psid);
                        ControlFlow::Continue(Work::ShutDown(child))
                    },
                    ControlFlow::Break(_) => self.listen(),
                }
            },
            ServerMessage::Input(input) => {
                if self.children.get(input.psid).is_some() {
                    self.phase = Phase::Relaying;
                    ControlFlow::Continue(Work::Relay(input))
                } else {
                    self.fail(Error::ChildNotRunning { psid: input.psid })
                }
            },
        }
    }

    fn listen<E>(&mut self) -> (flow: Flow<Work<C>, Error<E>>)
        ensures
            final(self)@ == old(self)@.turns(Phase::Listening),
            flow == goes_on::<C, E>(Work::Receive),
    {
        self.phase = Phase::Listening;
        ControlFlow::Continue(Work::Receive)
    }

    fn announce<E>(&mut self, psid: ProcessSequenceId) -> (flow: Flow<Work<C>, Error<E>>)
        ensures
            final(self)@ == old(self)@.turns(Phase::Announcing),
            flow == announces::<C, E>(psid),
    {
        self.phase = Phase::Announcing;
        ControlFlow::Continue(Work::Announce(ClientMessage::from(ChildStarted { psid })))
    }

    fn fail<E>(&mut self, e: Error<E>) -> (flow: Flow<Work<C>, Error<E>>)
        ensures
            final(self)@ == old(self)@.turns(Phase::Exited),
            flow == fails::<C, E>(e),
    {
        self.phase = Phase::Exited;
        ControlFlow::Break(Err(e))
    }
}

/// The result of a drained server.
pub fn drain_result<E>(drained: Drained<E>) -> (result: Result<(), Error<E>>)
    ensures
        result == drain_outcome(drained),
{
    if let Some(source) = find_failure(drained.children) {
        return Err(Error::UnableToShutdownChild { source });
    }
    match drained.stdout_task {
        Err(source) => {
            return Err(Error::UnableToJoinStdoutTask { source });
        },
        Ok(Err(e)) => {
            return Err(e);
        },
        Ok(Ok(())) => {},
    }
    match drained.stdin_task {
        Err(source) => Err(Error::UnableToJoinStdinTask { source }),
        Ok(Err(e)) => Err(e),
        Ok(Ok(())) => Ok(()),
    }
}

/// What follows an outcome in the task that decodes the client's messages from standard input.
pub open spec fn stdin_next<E>(event: ReadEvent<ServerMessage, E>) -> Flow<
    ReadWork<ServerMessage>,
    Error<E>,
> {
    match read_next(event) {
        ControlFlow::Continue(work) => ControlFlow::Continue(work),
        ControlFlow::Break(Ok(())) => ControlFlow::Break(Ok(())),
        ControlFlow::Break(Err(ReadTaskError::Decode(source))) => ControlFlow::Break(
            Err(Error::UnableToDecodeServerMessage { source }),
        ),
        ControlFlow::Break(Err(ReadTaskError::Relay(source))) => ControlFlow::Break(
            Err(Error::UnableToSendServerMessage { source }),
        ),
    }
}

/// One step of the task that decodes the client's messages from standard input.
pub fn stdin_step<E>(event: ReadEvent<ServerMessage, E>) -> (flow: Flow<
    ReadWork<ServerMessage>,
    Error<E>,
>)
    ensures
        flow == stdin_next(event),
{
    match read_step(event) {
        ControlFlow::Continue(work) => ControlFlow::Continue(work),
        ControlFlow::Break(Ok(())) => ControlFlow::Break(Ok(())),
        ControlFlow::Break(Err(ReadTaskError::Decode(source))) => ControlFlow::Break(
            Err(Error::UnableToDecodeServerMessage { source }),
        ),
        ControlFlow::Break(Err(ReadTaskError::Relay(source))) => ControlFlow::Break(
            Err(Error::UnableToSendServerMessage { source }),
        ),
    }
}

/// What follows an outcome in the task that encodes messages for the client to standard output.
pub open spec fn stdout_next<E>(event: WriteEvent<ClientMessage, E>) -> Flow<
    WriteWork<ClientMessage>,
    Error<E>,
> {
    match write_next(event) {
        ControlFlow::Continue(work) => ControlFlow::Continue(work),
        ControlFlow::Break(Ok(())) => ControlFlow::Break(Ok(())),
        ControlFlow::Break(Err(WriteTaskError::Write(source))) => ControlFlow::Break(
            Err(Error::UnableToEncodeClientMessage { source }),
        ),
        ControlFlow::Break(Err(WriteTaskError::Flush(source))) => ControlFlow::Break(
            Err(Error::UnableToFlushClientMessage { source }),
        ),
    }
}

/// One step of the task that encodes messages for the client to standard output.
pub fn stdout_step<E>(event: WriteEvent<ClientMessage, E>) -> (flow: Flow<
    WriteWork<ClientMessage>,
    Error<E>,
>)
    ensures
        flow == stdout_next(event),
{
    match write_step(event) {
        ControlFlow::Continue(work) => ControlFlow::Continue(work),
        ControlFlow::Break(Ok(())) => ControlFlow::Break(Ok(())),
        ControlFlow::Break(Err(WriteTaskError::Write(source))) => ControlFlow::Break(
            Err(Error::UnableToEncodeClientMessage { source }),
        ),
        ControlFlow::Break(Err(WriteTaskError::Flush(source))) => ControlFlow::Break(
            Err(Error::UnableToFlushClientMessage { source }),
        ),
    }
}

/// The text, an id and a closing bracket.
fn named(text: &str, psid: ProcessSequenceId) -> (named: String)
    ensures
        named@ == text@ + psid_text(psid) + ")"@,
{
    let mut named = joined(text, psid.to_string().as_str());
    named.append(")");
    named
}

/// What a command reads as, or a stand-in where it is not UTF-8.
pub open spec fn command_text(command: Seq<u8>) -> Seq<char> {
    match utf8_text(command) {
        Some(text) => text,
        None => "<non-UTF-8 command>"@,
    }
}

/// A command as text: what its bytes read as, or a stand-in where they are not UTF-8.
pub fn display_command(command: &[u8]) -> (text: String)
    ensures
        text@ == command_text(command@),
{
    match from_utf8(command) {
        Some(text) => String::from_str(text),
        None => String::from_str("<non-UTF-8 command>"),
    }
}

} // verus!
