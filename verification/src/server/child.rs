//! A child process of the server, and the tasks that serve it.
//!
//! `E` is whatever the program reports as the source of a failure. The handles of the running
//! tasks are the program's own: `I` sends input to the task that feeds standard input, `T` and `O`
//! are joined when the child is shut down.

use crate::messages::{ChildStopped, ClientMessage, Input, Output, ProcessSequenceId};
use crate::process::{Connection, StartRequest};
use crate::server::{command_text, display_command};
use crate::text::joined;
use crate::wire::{write_next, write_step, Flow, WriteEvent, WriteTaskError, WriteWork};
use std::ops::ControlFlow;
use tokio::sync::oneshot;
use vstd::prelude::*;
use vstd::string::*;

pub mod laws;

verus! {

/// The sending half of a `tokio` channel for one value.
#[verifier::external_type_specification]
#[verifier::external_body]
#[verifier::reject_recursive_types(T)]
pub struct ExOneshotSender<T>(oneshot::Sender<T>);

/// `tokio::sync::oneshot::Sender::send`: it never blocks, and a failure hands the value back.
/// Whether it fails depends on whether the receiver is still there at that moment, of which
/// nothing is said.
pub assume_specification<T>[ oneshot::Sender::<T>::send ](
    sender: oneshot::Sender<T>,
    t: T,
) -> (sent: Result<(), T>)
    ensures
        sent matches Err(back) ==> back == t,
;

/// How many bytes of output the program makes room for before each read.
pub const READ_CAPACITY: usize = 1024;

/// Why a child could not be started, fed, killed or shut down.
#[derive(Debug, PartialEq, Eq)]
#[allow(inconsistent_fields)]
pub enum Error<E> {
    UnableToSpawnChildProcess { source: E, command: Vec<u8> },
    UnableToRelayKillMessage,
    UnableToKillChild { source: E },
    UnableToWaitForChild { source: E },
    UnableToRelayChildStoppedToServer { source: E },
    ChildHasNoStdin,
    ChildHasNoStdout,
    ChildHasNoStderr,
    UnableToReceiveKillFromServer { source: E },
    UnableToRelayInputMessageFromClient { source: E },
    UnableToWriteInputToChild { source: E },
    UnableToFlushInputToChild { source: E },
    UnableToJoinChildStdinTask { source: E },
    UnableToJoinChildStdoutTask { source: E },
    UnableToProcessChildStdout { source: ChildOutputError<E> },
    UnableToJoinChildStderrTask { source: E },
    UnableToProcessChildStderr { source: ChildOutputError<E> },
    UnableToJoinChildTask { source: E },
}

/// Why the output of a child could not be read or reported.
#[derive(Debug, PartialEq, Eq)]
pub enum ChildOutputError<E> {
    UnableToRead { source: E },
    UnableToRelayOutput { source: E },
}

impl<E> Error<E> {
    /// The text of the failure, where `source` is the text of the outside failure behind it. A
    /// failure without words of its own goes by its name and the failure that it comes from.
    pub open spec fn text(self, source: Seq<char>) -> Seq<char> {
        match self {
            Error::UnableToSpawnChildProcess { command, .. } => {
                "Could not spawn the process `"@ + command_text(command@) + "`"@
            },
            Error::UnableToRelayKillMessage => "UnableToRelayKillMessage"@,
            Error::UnableToKillChild { .. } => {
                "Could not kill the currently-running child process"@
            },
            Error::UnableToWaitForChild { .. } => "UnableToWaitForChild: "@ + source,
            Error::UnableToRelayChildStoppedToServer { .. } => {
                "UnableToRelayChildStoppedToServer: "@ + source
            },
            Error::ChildHasNoStdin => "The child has no stdin handle"@,
            Error::ChildHasNoStdout => "The child has no stdout handle"@,
            Error::ChildHasNoStderr => "The child has no stderr handle"@,
            Error::UnableToReceiveKillFromServer { .. } => {
                "UnableToReceiveKillFromServer: "@ + source
            },
            Error::UnableToRelayInputMessageFromClient { .. } => {
                "Could not relay input to the child"@
            },
            Error::UnableToWriteInputToChild { .. } => "Could not write input to the child"@,
            Error::UnableToFlushInputToChild { .. } => "Could not flush input to the child"@,
            Error::UnableToJoinChildStdinTask { .. } => "Could not join to the child stdin task"@,
            Error::UnableToJoinChildStdoutTask { .. } => "Could not join to the child stdout task"@,
            Error::UnableToProcessChildStdout { .. } => "Could not process child stdout"@,
            Error::UnableToJoinChildStderrTask { .. } => "Could not join to the child stderr task"@,
            Error::UnableToProcessChildStderr { .. } => "Could not process child stderr"@,
            Error::UnableToJoinChildTask { .. } => "Could not join to the child task"@,
        }
    }

    /// The outside failure behind this one, if there is one.
    pub open spec fn outside(self) -> Option<E> {
        match self {
            Error::UnableToSpawnChildProcess { source, .. } => Some(source),
            Error::UnableToRelayKillMessage => None,
            Error::UnableToKillChild { source, .. } => Some(source),
            Error::UnableToWaitForChild { source, .. } => Some(source),
            Error::UnableToRelayChildStoppedToServer { source, .. } => Some(source),
            Error::ChildHasNoStdin => None,
            Error::ChildHasNoStdout => None,
            Error::ChildHasNoStderr => None,
            Error::UnableToReceiveKillFromServer { source, .. } => Some(source),
            Error::UnableToRelayInputMessageFromClient { source, .. } => Some(source),
            Error::UnableToWriteInputToChild { source, .. } => Some(source),
            Error::UnableToFlushInputToChild { source, .. } => Some(source),
            Error::UnableToJoinChildStdinTask { source, .. } => Some(source),
            Error::UnableToJoinChildStdoutTask { source, .. } => Some(source),
            Error::UnableToProcessChildStdout { source, .. } => source.outside(),
            Error::UnableToJoinChildStderrTask { source, .. } => Some(source),
            Error::UnableToProcessChildStderr { source, .. } => source.outside(),
            Error::UnableToJoinChildTask { source, .. } => Some(source),
        }
    }

    /// The text of the failure, where `source` is the text of the outside failure behind it.
    pub fn to_text(&self, source: &str) -> (text: String)
        ensures
            text@ == self.text(source@),
    {
        match self {
            Error::UnableToSpawnChildProcess { command, .. } => {
                let mut text = String::from_str("Could not spawn the process `");
                text.append(display_command(command.as_slice()).as_str());
                text.append("`");
                text
            },
            Error::UnableToRelayKillMessage => String::from_str("UnableToRelayKillMessage"),
            Error::UnableToKillChild { .. } => String::from_str(
                "Could not kill the currently-running child process",
            ),
            Error::UnableToWaitForChild { .. } => joined("UnableToWaitForChild: ", source),
            Error::UnableToRelayChildStoppedToServer { .. } => joined(
                "UnableToRelayChildStoppedToServer: ",
                source,
            ),
            Error::ChildHasNoStdin => String::from_str("The child has no stdin handle"),
            Error::ChildHasNoStdout => String::from_str("The child has no stdout handle"),
            Error::ChildHasNoStderr => String::from_str("The child has no stderr handle"),
            Error::UnableToReceiveKillFromServer { .. } => joined(
                "UnableToReceiveKillFromServer: ",
                source,
            ),
            Error::UnableToRelayInputMessageFromClient { .. } => String::from_str(
                "Could not relay input to the child",
            ),
            Error::UnableToWriteInputToChild { .. } => String::from_str(
                "Could not write input to the child",
            ),
            Error::UnableToFlushInputToChild { .. } => String::from_str(
                "Could not flush input to the child",
            ),
            Error::UnableToJoinChildStdinTask { .. } => String::from_str(
                "Could not join to the child stdin task",
            ),
            Error::UnableToJoinChildStdoutTask { .. } => String::from_str(
                "Could not join to the child stdout task",
            ),
            Error::UnableToProcessChildStdout { .. } => String::from_str(
                "Could not process child stdout",
            ),
            Error::UnableToJoinChildStderrTask { .. } => String::from_str(
                "Could not join to the child stderr task",
            ),
            Error::UnableToProcessChildStderr { .. } => String::from_str(
                "Could not process child stderr",
            ),
            Error::UnableToJoinChildTask { .. } => String::from_str(
                "Could not join to the child task",
            ),
        }
    }

    /// The outside failure behind this one, if there is one.
    pub fn outside_source(&self) -> (source: Option<&E>)
        ensures
            match source {
                Some(source) => self.outside() == Some(*source),
                None => self.outside() is None,
            },
    {
        match self {
            Error::UnableToSpawnChildProcess { source, .. } => Some(source),
            Error::UnableToRelayKillMessage => None,
            Error::UnableToKillChild { source, .. } => Some(source),
            Error::UnableToWaitForChild { source, .. } => Some(source),
            Error::UnableToRelayChildStoppedToServer { source, .. } => Some(source),
            Error::ChildHasNoStdin => None,
            Error::ChildHasNoStdout => None,
            Error::ChildHasNoStderr => None,
            Error::UnableToReceiveKillFromServer { source, .. } => Some(source),
            Error::UnableToRelayInputMessageFromClient { source, .. } => Some(source),
            Error::UnableToWriteInputToChild { source, .. } => Some(source),
            Error::UnableToFlushInputToChild { source, .. } => Some(source),
            Error::UnableToJoinChildStdinTask { source, .. } => Some(source),
            Error::UnableToJoinChildStdoutTask { source, .. } => Some(source),
            Error::UnableToProcessChildStdout { source, .. } => source.outside_source(),
            Error::UnableToJoinChildStderrTask { source, .. } => Some(source),
            Error::UnableToProcessChildStderr { source, .. } => source.outside_source(),
            Error::UnableToJoinChildTask { source, .. } => Some(source),
        }
    }
}

impl<E> ChildOutputError<E> {
    /// The text of the failure, where `source` is the text of the outside failure behind it. A
    /// failure without words of its own goes by its name and the failure that it comes from.
    pub open spec fn text(self, source: Seq<char>) -> Seq<char> {
        match self {
            ChildOutputError::UnableToRead { .. } => "UnableToRead: "@ + source,
            ChildOutputError::UnableToRelayOutput { .. } => "UnableToRelayOutput: "@ + source,
        }
    }

    /// The outside failure behind this one, if there is one.
    pub open spec fn outside(self) -> Option<E> {
        match self {
            ChildOutputError::UnableToRead { source, .. } => Some(source),
            ChildOutputError::UnableToRelayOutput { source, .. } => Some(source),
        }
    }

    /// The text of the failure, where `source` is the text of the outside failure behind it.
    pub fn to_text(&self, source: &str) -> (text: String)
        ensures
            text@ == self.text(source@),
    {
        match self {
            ChildOutputError::UnableToRead { .. } => joined("UnableToRead: ", source),
            ChildOutputError::UnableToRelayOutput { .. } => joined("UnableToRelayOutput: ", source),
        }
    }

    /// The outside failure behind this one, if there is one.
    pub fn outside_source(&self) -> (source: Option<&E>)
        ensures
            match source {
                Some(source) => self.outside() == Some(*source),
                None => self.outside() is None,
            },
    {
        match self {
            ChildOutputError::UnableToRead { source, .. } => Some(source),
            ChildOutputError::UnableToRelayOutput { source, .. } => Some(source),
        }
    }
}

/// A process that has just been started, with the pipes that it came with.
#[derive(Debug)]
pub struct Process<P, A, B, C> {
    pub process: P,
    pub stdin: Option<A>,
    pub stdout: Option<B>,
    pub stderr: Option<C>,
}

/// The process of a child and its pipes, each with the task that serves it.
#[derive(Debug)]
pub struct Attachments<P, A, B, C> {
    pub process: P,
    pub stdin: A,
    pub stdout: B,
    pub stdout_task: OutputTask,
    pub stderr: C,
    pub stderr_task: OutputTask,
    pub child_task: ChildTask,
}

/// The handles of the tasks that serve a child.
#[derive(Debug)]
pub struct Handles<I, T, O> {
    pub stdin_tx: I,
    pub stdin_task: T,
    pub stdout_task: O,
    pub stderr_task: O,
    pub kill_tx: oneshot::Sender<()>,
    pub child_task: T,
}

/// A child process.
#[derive(Debug)]
pub struct Child<I, T, O> {
    pub stdin_tx: I,
    pub stdin_task: T,
    pub stdout_task: O,
    pub stderr_task: O,
    pub kill_tx: Option<oneshot::Sender<()>>,
    pub child_task: T,
}

/// The tasks to be joined when a child is shut down.
#[derive(Debug)]
pub struct Tasks<T, O> {
    pub stdin_task: T,
    pub stdout_task: O,
    pub stderr_task: O,
    pub child_task: T,
}

/// What joining the tasks of a child gave: the result of each, or the failure to join it.
#[derive(Debug)]
pub struct JoinedTasks<E> {
    pub stdin_task: Result<Result<(), Error<E>>, E>,
    pub stdout_task: Result<Result<(), ChildOutputError<E>>, E>,
    pub stderr_task: Result<Result<(), ChildOutputError<E>>, E>,
    pub child_task: Result<Result<(), Error<E>>, E>,
}

/// The attachments of a process with all three pipes: each output pipe is read by a task for the
/// stream that it is, and every task knows the child's id.
pub open spec fn attachments<P, A, B, C>(
    psid: ProcessSequenceId,
    process: P,
    stdin: A,
    stdout: B,
    stderr: C,
) -> Attachments<P, A, B, C> {
    Attachments {
        process,
        stdin,
        stdout,
        stdout_task: OutputTask { psid, stream: Stream::Stdout },
        stderr,
        stderr_task: OutputTask { psid, stream: Stream::Stderr },
        child_task: ChildTask { psid },
    }
}

/// The request starts the program that the whole command names, with no arguments, and with all
/// three standard streams piped.
pub open spec fn runs_command(request: StartRequest, command: Seq<u8>) -> bool {
    &&& request.program@ == command
    &&& request.args@ == Seq::<Vec<u8>>::empty()
    &&& request.stdin == Connection::Piped
    &&& request.stdout == Connection::Piped
    &&& request.stderr == Connection::Piped
}

/// The request to start the process of a child.
pub fn start_request(command: &Vec<u8>) -> (request: StartRequest)
    ensures
        runs_command(request, command@),
        request.program@ == command@,
        request.args@.len() == 0,
{
    let program = command.clone();
    assert(program@ =~= command@);
    StartRequest {
        program,
        args: Vec::new(),
        stdin: Connection::Piped,
        stdout: Connection::Piped,
        stderr: Connection::Piped,
    }
}

/// What `Child::kill` returns when the channel answers `sent`.
pub open spec fn kill_outcome<E>(sent: Result<(), ()>) -> Result<(), Error<E>> {
    match sent {
        Ok(()) => Ok(()),
        Err(()) => Err(Error::UnableToRelayKillMessage),
    }
}

/// What becomes of a request to kill, from the channel's answer.
pub fn kill_result<E>(sent: Result<(), ()>) -> (result: Result<(), Error<E>>)
    ensures
        result == kill_outcome::<E>(sent),
{
    match sent {
        Ok(()) => Ok(()),
        Err(()) => Err(Error::UnableToRelayKillMessage),
    }
}

/// What becomes of an input, from the channel's answer.
pub fn input_result<E>(sent: Result<(), E>) -> (result: Result<(), Error<E>>)
    ensures
        result == match sent {
            Ok(()) => Ok::<(), Error<E>>(()),
            Err(source) => Err(Error::UnableToRelayInputMessageFromClient { source }),
        },
{
    match sent {
        Ok(()) => Ok(()),
        Err(source) => Err(Error::UnableToRelayInputMessageFromClient { source }),
    }
}

impl<I, T, O> Child<I, T, O> {
    /// The tasks of the child.
    pub open spec fn tasks(self) -> Tasks<T, O> {
        Tasks {
            stdin_task: self.stdin_task,
            stdout_task: self.stdout_task,
            stderr_task: self.stderr_task,
            child_task: self.child_task,
        }
    }

    /// Starts the process that runs the command and makes a child of it, or says why there is
    /// none. `start` starts the process as it is asked to, and `attach` starts the tasks on the
    /// process and the pipes that it is given.
    pub fn spawn<P, A, B, C, E>(
        psid: ProcessSequenceId,
        command: Vec<u8>,
        start: impl FnOnce(StartRequest) -> Result<Process<P, A, B, C>, E>,
        attach: impl FnOnce(Attachments<P, A, B, C>) -> Handles<I, T, O>,
    ) -> (child: Result<Self, Error<E>>)
        requires
            forall|r: StartRequest| #[trigger] start.requires((r,)),
            forall|a: Attachments<P, A, B, C>| #[trigger] attach.requires((a,)),
        ensures
            exists|request: StartRequest, started: Result<Process<P, A, B, C>, E>|
                {
                    &&& runs_command(request, command@)
                    &&& request.program@ == command@
                    &&& request.args@.len() == 0
                    &&& #[trigger] start.ensures((request,), started)
                    &&& match started {
                        Err(source) => child == Err::<Self, Error<E>>(
                            Error::UnableToSpawnChildProcess { source, command },
                        ),
                        Ok(Process { stdin: None, .. }) => child == Err::<Self, Error<E>>(
                            Error::ChildHasNoStdin,
                        ),
                        Ok(Process { stdin: Some(_), stdout: None, .. }) => child == Err::<
                            Self,
                            Error<E>,
                        >(Error::ChildHasNoStdout),
                        Ok(
                            Process { stdin: Some(_), stdout: Some(_), stderr: None, .. },
                        ) => child == Err::<Self, Error<E>>(Error::ChildHasNoStderr),
                        Ok(
                            Process {
                                process,
                                stdin: Some(stdin),
                                stdout: Some(stdout),
                                stderr: Some(stderr),
                            },
                        ) => exists|handles: Handles<I, T, O>|
                            {
                                &&& #[trigger] attach.ensures(
                                    (attachments(psid, process, stdin, stdout, stderr),),
                                    handles,
                                )
                                &&& child == Ok::<Self, Error<E>>(
                                    Child {
                                        stdin_tx: handles.stdin_tx,
                                        stdin_task: handles.stdin_task,
                                        stdout_task: handles.stdout_task,
                                        stderr_task: handles.stderr_task,
                                        kill_tx: Some(handles.kill_tx),
                                        child_task: handles.child_task,
                                    },
                                )
                            },
                    }
                },
    {
        let request = start_request(&command);
        let process = match start(request) {
            Ok(process) => process,
            Err(source) => {
                return Err(Error::UnableToSpawnChildProcess { source, command });
            },
        };
        let stdin = match process.stdin {
            Some(stdin) => stdin,
            None => {
                return Err(Error::ChildHasNoStdin);
            },
        };
        let stdout = match process.stdout {
            Some(stdout) => stdout,
            None => {
                return Err(Error::ChildHasNoStdout);
            },
        };
        let stderr = match process.stderr {
            Some(stderr) => stderr,
            None => {
                return Err(Error::ChildHasNoStderr);
            },
        };
        let handles = attach(
            Attachments {
                process: process.process,
                stdin,
                stdout,
                stdout_task: OutputTask { psid, stream: Stream::Stdout },
                stderr,
                stderr_task: OutputTask { psid, stream: Stream::Stderr },
                child_task: ChildTask { psid },
            },
        );
        Ok(
            Child {
                stdin_tx: handles.stdin_tx,
                stdin_task: handles.stdin_task,
                stdout_task: handles.stdout_task,
                stderr_task: handles.stderr_task,
                kill_tx: Some(handles.kill_tx),
                child_task: handles.child_task,
            },
        )
    }

    /// Asks for the process to be killed. The signal can be sent only once: a later call does
    /// nothing.
    pub fn kill<E>(&mut self) -> (result: Result<(), Error<E>>)
        ensures
            *final(self) == (Child { kill_tx: None, ..*old(self) }),
            match old(self).kill_tx {
                None => result == Ok::<(), Error<E>>(()),
                Some(kill_tx) => exists|sent: Result<(), ()>|
                    {
                        &&& #[trigger] call_ensures(
                            oneshot::Sender::<()>::send,
                            (kill_tx, ()),
                            sent,
                        )
                        &&& result == kill_outcome::<E>(sent)
                    },
            },
    {
        match self.kill_tx.take() {
            Some(kill_tx) => kill_result(kill_tx.send(())),
            None => Ok(()),
        }
    }

    /// Where the input goes, and the input.
    pub fn input(&self, input: Input) -> (delivery: (&I, Input))
        ensures
            *delivery.0 == self.stdin_tx,
            delivery.1 == input,
    {
        (&self.stdin_tx, input)
    }

    /// Asks for the process to be killed and takes the child apart. Where the signal cannot be
    /// sent there is nothing to be joined.
    pub fn force_shutdown<E>(self) -> (tasks: Result<Tasks<T, O>, Error<E>>)
        ensures
            match self.kill_tx {
                None => tasks == Ok::<Tasks<T, O>, Error<E>>(self.tasks()),
                Some(kill_tx) => exists|sent: Result<(), ()>|
                    {
                        &&& #[trigger] call_ensures(
                            oneshot::Sender::<()>::send,
                            (kill_tx, ()),
                            sent,
                        )
                        &&& tasks == match kill_outcome::<E>(sent) {
                            Ok(()) => Ok::<Tasks<T, O>, Error<E>>(self.tasks()),
                            Err(e) => Err(e),
                        }
                    },
            },
    {
        let mut child = self;
        match child.kill() {
            Ok(()) => Ok(child.shutdown()),
            Err(e) => Err(e),
        }
    }

    /// Takes the child apart: its input and its kill switch are closed, and its tasks are left to
    /// be joined.
    pub fn shutdown(self) -> (tasks: Tasks<T, O>)
        ensures
            tasks == self.tasks(),
    {
        let Child { stdin_task, stdout_task, stderr_task, child_task, .. } = self;
        Tasks { stdin_task, stdout_task, stderr_task, child_task }
    }
}

/// What shutting a child down comes to: the first failure among the tasks for standard input,
/// standard output and standard error and the task of the process itself, in this order.
pub open spec fn shutdown_outcome<E>(joined: JoinedTasks<E>) -> Result<(), Error<E>> {
    match joined {
        JoinedTasks { stdin_task: Err(source), .. } => Err(
            Error::UnableToJoinChildStdinTask { source },
        ),
        JoinedTasks { stdin_task: Ok(Err(e)), .. } => Err(e),
        JoinedTasks { stdout_task: Err(source), .. } => Err(
            Error::UnableToJoinChildStdoutTask { source },
        ),
        JoinedTasks { stdout_task: Ok(Err(source)), .. } => Err(
            Error::UnableToProcessChildStdout { source },
        ),
        JoinedTasks { stderr_task: Err(source), .. } => Err(
            Error::UnableToJoinChildStderrTask { source },
        ),
        JoinedTasks { stderr_task: Ok(Err(source)), .. } => Err(
            Error::UnableToProcessChildStderr { source },
        ),
        JoinedTasks { child_task: Err(source), .. } => Err(
            Error::UnableToJoinChildTask { source },
        ),
        JoinedTasks { child_task: Ok(Err(e)), .. } => Err(e),
        _ => Ok(()),
    }
}

/// The result of shutting a child down, once its tasks are joined.
pub fn shutdown_result<E>(joined: JoinedTasks<E>) -> (result: Result<(), Error<E>>)
    ensures
        result == shutdown_outcome(joined),
{
    match joined.stdin_task {
        Err(source) => {
            return Err(Error::UnableToJoinChildStdinTask { source });
        },
        Ok(Err(e)) => {
            return Err(e);
        },
        Ok(Ok(())) => {},
    }
    match joined.stdout_task {
        Err(source) => {
            return Err(Error::UnableToJoinChildStdoutTask { source });
        },
        Ok(Err(source)) => {
            return Err(Error::UnableToProcessChildStdout { source });
        },
        Ok(Ok(())) => {},
    }
    match joined.stderr_task {
        Err(source) => {
            return Err(Error::UnableToJoinChildStderrTask { source });
        },
        Ok(Err(source)) => {
            return Err(Error::UnableToProcessChildStderr { source });
        },
        Ok(Ok(())) => {},
    }
    match joined.child_task {
        Err(source) => Err(Error::UnableToJoinChildTask { source }),
        Ok(Err(e)) => Err(e),
        Ok(Ok(())) => Ok(()),
    }
}

/// Shutting a child down succeeds exactly where each of its tasks was joined and succeeded.
pub proof fn law_shutdown_needs_every_task<E>(joined: JoinedTasks<E>)
    ensures
        shutdown_outcome(joined) is Ok <==> {
            &&& joined.stdin_task matches Ok(Ok(()))
            &&& joined.stdout_task matches Ok(Ok(()))
            &&& joined.stderr_task matches Ok(Ok(()))
            &&& joined.child_task matches Ok(Ok(()))
        },
{
}

/// An event of the task that feeds standard input, with the bytes in place of the input that
/// carries them.
pub open spec fn content_event<E>(event: WriteEvent<Input, E>) -> WriteEvent<Vec<u8>, E> {
    match event {
        WriteEvent::Received(Some(input)) => WriteEvent::Received(Some(input.content)),
        WriteEvent::Received(None) => WriteEvent::Received(None),
        WriteEvent::Written(result) => WriteEvent::Written(result),
        WriteEvent::Flushed(result) => WriteEvent::Flushed(result),
    }
}

/// What follows an outcome in the task that feeds standard input.
pub open spec fn input_next<E>(event: WriteEvent<Input, E>) -> Flow<WriteWork<Vec<u8>>, Error<E>> {
    match write_next(content_event(event)) {
        ControlFlow::Continue(work) => ControlFlow::Continue(work),
        ControlFlow::Break(Ok(())) => ControlFlow::Break(Ok(())),
        ControlFlow::Break(Err(WriteTaskError::Write(source))) => ControlFlow::Break(
            Err(Error::UnableToWriteInputToChild { source }),
        ),
        ControlFlow::Break(Err(WriteTaskError::Flush(source))) => ControlFlow::Break(
            Err(Error::UnableToFlushInputToChild { source }),
        ),
    }
}

/// One step of the task that feeds standard input: it writes the bytes of each input that it
/// receives, and flushes them, until there are no more inputs.
pub fn input_step<E>(event: WriteEvent<Input, E>) -> (flow: Flow<WriteWork<Vec<u8>>, Error<E>>)
    ensures
        flow == input_next(event),
{
    let event = match event {
        WriteEvent::Received(Some(input)) => WriteEvent::Received(Some(input.content)),
        WriteEvent::Received(None) => WriteEvent::Received(None),
        WriteEvent::Written(result) => WriteEvent::Written(result),
        WriteEvent::Flushed(result) => WriteEvent::Flushed(result),
    };
    match write_step(event) {
        ControlFlow::Continue(work) => ControlFlow::Continue(work),
        ControlFlow::Break(Ok(())) => ControlFlow::Break(Ok(())),
        ControlFlow::Break(Err(WriteTaskError::Write(source))) => ControlFlow::Break(
            Err(Error::UnableToWriteInputToChild { source }),
        ),
        ControlFlow::Break(Err(WriteTaskError::Flush(source))) => ControlFlow::Break(
            Err(Error::UnableToFlushInputToChild { source }),
        ),
    }
}

/// One of the two output streams of a process.
#[derive(Debug, Copy, Clone, PartialEq, Eq, Structural)]
pub enum Stream {
    Stdout,
    Stderr,
}

/// The task that reads one output stream of a child and reports what it reads.
#[derive(Debug, Copy, Clone, PartialEq, Eq, Structural)]
pub struct OutputTask {
    pub psid: ProcessSequenceId,
    pub stream: Stream,
}

/// An outcome in the task that reads an output stream.
#[derive(Debug)]
pub enum OutputEvent<E> {
    /// A read gave these bytes; none at the end of the stream.
    Read(Result<Vec<u8>, E>),
    /// The message was sent, or the channel is closed.
    Sent(Result<(), E>),
}

/// What the task that reads an output stream does next; it starts with `Read`.
#[derive(Debug, PartialEq, Eq)]
pub enum OutputWork {
    Read,
    Send(ClientMessage),
}

impl OutputTask {
    /// The message carries the child's id and these bytes as output of the task's stream, and
    /// nothing of the other stream.
    pub open spec fn reports(self, message: ClientMessage, data: Seq<u8>) -> bool {
        &&& message matches ClientMessage::Output(output)
        &&& output.psid == self.psid
        &&& match self.stream {
            Stream::Stdout => output.stdout@ == data && output.stderr@ == Seq::<u8>::empty(),
            Stream::Stderr => output.stderr@ == data && output.stdout@ == Seq::<u8>::empty(),
        }
    }

    /// Whether `flow` follows `event`.
    pub open spec fn follows<E>(
        self,
        event: OutputEvent<E>,
        flow: Flow<OutputWork, ChildOutputError<E>>,
    ) -> bool {
        match event {
            OutputEvent::Read(Err(source)) => flow == ControlFlow::<
                Result<(), ChildOutputError<E>>,
                OutputWork,
            >::Break(Err(ChildOutputError::UnableToRead { source })),
            OutputEvent::Read(Ok(data)) => if data@.len() == 0 {
                flow == ControlFlow::<Result<(), ChildOutputError<E>>, OutputWork>::Break(Ok(()))
            } else {
                flow matches ControlFlow::Continue(OutputWork::Send(message)) && self.reports(
                    message,
                    data@,
                )
            },
            OutputEvent::Sent(Ok(())) => flow == ControlFlow::<
                Result<(), ChildOutputError<E>>,
                OutputWork,
            >::Continue(OutputWork::Read),
            OutputEvent::Sent(Err(source)) => flow == ControlFlow::<
                Result<(), ChildOutputError<E>>,
                OutputWork,
            >::Break(Err(ChildOutputError::UnableToRelayOutput { source })),
        }
    }

    /// One step of the task: it sends the bytes of each read to the client, until the stream ends.
    pub fn step<E>(&self, event: OutputEvent<E>) -> (flow: Flow<OutputWork, ChildOutputError<E>>)
        ensures
            self.follows(event, flow),
    {
        match event {
            OutputEvent::Read(Err(source)) => ControlFlow::Break(
                Err(ChildOutputError::UnableToRead { source }),
            ),
            OutputEvent::Read(Ok(data)) => {
                if data.len() == 0 {
                    ControlFlow::Break(Ok(()))
                } else {
                    let output = match self.stream {
                        Stream::Stdout => Output::stdout(self.psid, data),
                        Stream::Stderr => Output::stderr(self.psid, data),
                    };
                    ControlFlow::Continue(OutputWork::Send(ClientMessage::from(output)))
                }
            },
            OutputEvent::Sent(Ok(())) => ControlFlow::Continue(OutputWork::Read),
            OutputEvent::Sent(Err(source)) => ControlFlow::Break(
                Err(ChildOutputError::UnableToRelayOutput { source }),
            ),
        }
    }
}

/// The task that waits for a process to end, or ends it, and reports that it has ended.
#[derive(Debug, Copy, Clone, PartialEq, Eq, Structural)]
pub struct ChildTask {
    pub psid: ProcessSequenceId,
}

/// An outcome in the task of a process.
#[derive(Debug)]
pub enum ChildEvent<E> {
    /// The signal to kill came first, or the channel for it was closed.
    Signalled(Result<(), E>),
    /// The process ended first, or it could not be waited for.
    Exited(Result<(), E>),
    /// The process was killed, or not.
    Killed(Result<(), E>),
    /// The message was sent, or the channel is closed.
    Sent(Result<(), E>),
}

/// What the task of a process does next; it starts with `Wait`.
#[derive(Debug, PartialEq, Eq)]
pub enum ChildWork {
    /// Wait for the signal to kill or for the end of the process, whichever comes first.
    Wait,
    /// Kill the process.
    Kill,
    Send(ClientMessage),
}

/// What follows an outcome in the task of a process.
pub open spec fn child_next<E>(task: ChildTask, event: ChildEvent<E>) -> Flow<
    ChildWork,
    Error<E>,
> {
    let report = ChildWork::Send(ClientMessage::ChildStopped(ChildStopped { psid: task.psid }));
    match event {
        ChildEvent::Signalled(Ok(())) => ControlFlow::Continue(ChildWork::Kill),
        ChildEvent::Signalled(Err(source)) => ControlFlow::Break(
            Err(Error::UnableToReceiveKillFromServer { source }),
        ),
        ChildEvent::Exited(Ok(())) => ControlFlow::Continue(report),
        ChildEvent::Exited(Err(source)) => ControlFlow::Break(
            Err(Error::UnableToWaitForChild { source }),
        ),
        ChildEvent::Killed(Ok(())) => ControlFlow::Continue(report),
        ChildEvent::Killed(Err(source)) => ControlFlow::Break(
            Err(Error::UnableToKillChild { source }),
        ),
        ChildEvent::Sent(Ok(())) => ControlFlow::Break(Ok(())),
        ChildEvent::Sent(Err(source)) => ControlFlow::Break(
            Err(Error::UnableToRelayChildStoppedToServer { source }),
        ),
    }
}

impl ChildTask {
    /// One step of the task: once the process has ended, by itself or killed on a signal, the
    /// client is told.
    pub fn step<E>(&self, event: ChildEvent<E>) -> (flow: Flow<ChildWork, Error<E>>)
        ensures
            flow == child_next(*self, event),
    {
        match event {
            ChildEvent::Signalled(Ok(())) => ControlFlow::Continue(ChildWork::Kill),
            ChildEvent::Signalled(Err(source)) => ControlFlow::Break(
                Err(Error::UnableToReceiveKillFromServer { source }),
            ),
            ChildEvent::Exited(Err(source)) => ControlFlow::Break(
                Err(Error::UnableToWaitForChild { source }),
            ),
            ChildEvent::Killed(Err(source)) => ControlFlow::Break(
                Err(Error::UnableToKillChild { source }),
            ),
            ChildEvent::Exited(Ok(())) | ChildEvent::Killed(Ok(())) => ControlFlow::Continue(
                ChildWork::Send(ClientMessage::from(ChildStopped { psid: self.psid })),
            ),
            ChildEvent::Sent(Ok(())) => ControlFlow::Break(Ok(())),
            ChildEvent::Sent(Err(source)) => ControlFlow::Break(
                Err(Error::UnableToRelayChildStoppedToServer { source }),
            ),
        }
    }
}

/// The bytes of the inputs that were received in a sequence of rounds.
pub open spec fn input_bytes<E>(rounds: Seq<(Option<Input>, Result<(), E>, Result<(), E>)>) -> Seq<
    u8,
>
    decreases rounds.len(),
{
    if rounds.len() == 0 {
        seq![]
    } else {
        input_bytes(rounds.drop_last()) + match rounds.last().0 {
            Some(input) => input.content@,
            None => seq![],
        }
    }
}

/// What the task that feeds standard input does in rounds of one receive, one write and one flush
/// each: how many inputs it takes, the bytes that it writes, and the result with which it ends, if
/// it does.
pub open spec fn input_run<E>(rounds: Seq<(Option<Input>, Result<(), E>, Result<(), E>)>) -> (
    nat,
    Seq<u8>,
    Option<Result<(), Error<E>>>,
)
    decreases rounds.len(),
{
    if rounds.len() == 0 {
        (0, seq![], None)
    } else {
        let before = input_run(rounds.drop_last());
        let (received, written, flushed) = rounds.last();
        if before.2 is Some {
            before
        } else {
            match input_next(WriteEvent::Received(received)) {
                ControlFlow::Continue(WriteWork::Write(content)) => {
                    let (n, bytes) = (before.0 + 1, before.1 + content@);
                    match input_next(WriteEvent::Written(written)) {
                        ControlFlow::Break(end) => (n, bytes, Some(end)),
                        ControlFlow::Continue(_) => {
                            match input_next(WriteEvent::Flushed(flushed)) {
                                ControlFlow::Break(end) => (n, bytes, Some(end)),
                                ControlFlow::Continue(_) => (n, bytes, None),
                            }
                        },
                    }
                },
                ControlFlow::Continue(_) => before,
                ControlFlow::Break(end) => (before.0, before.1, Some(end)),
            }
        }
    }
}

/// What is written to the standard input of a child is the bytes of the inputs for it, in order,
/// none lost, repeated or made up. The task ends cleanly only where there are no more inputs, and
/// with a failure only where that write or that flush of the last input failed.
pub proof fn law_input_is_piped<E>(rounds: Seq<(Option<Input>, Result<(), E>, Result<(), E>)>)
    ensures
        ({
            let (n, bytes, end) = input_run(rounds);
            &&& n <= rounds.len()
            &&& bytes == input_bytes(rounds.take(n as int))
            &&& forall|i: int| 0 <= i < n ==> (#[trigger] rounds[i]).0 is Some
            &&& forall|i: int|
                0 <= i < n - 1 ==> (#[trigger] rounds[i]).1 is Ok && rounds[i].2 is Ok
            &&& match end {
                None => {
                    &&& n == rounds.len()
                    &&& n > 0 ==> rounds[n - 1].1 is Ok && rounds[n - 1].2 is Ok
                },
                Some(Ok(())) => {
                    &&& n < rounds.len()
                    &&& rounds[n as int].0 is None
                    &&& n > 0 ==> rounds[n - 1].1 is Ok && rounds[n - 1].2 is Ok
                },
                Some(Err(Error::UnableToWriteInputToChild { source })) => {
                    n > 0 && rounds[n - 1].1 == Err::<(), E>(source)
                },
                Some(Err(Error::UnableToFlushInputToChild { source })) => {
                    n > 0 && rounds[n - 1].1 is Ok && rounds[n - 1].2 == Err::<(), E>(source)
                },
                Some(Err(_)) => false,
            }
        }),
    decreases rounds.len(),
{
    if rounds.len() > 0 {
        let before = rounds.drop_last();
        law_input_is_piped(before);
        let (m, _, _) = input_run(before);
        let (n, _, _) = input_run(rounds);
        assert(forall|i: int| 0 <= i < before.len() ==> before[i] == #[trigger] rounds[i]);
        assert(before.take(m as int) =~= rounds.take(m as int));
        if n > m {
            assert(rounds.take(n as int) =~= rounds);
            assert(before.take(m as int) =~= before);
        }
    } else {
        assert(rounds.take(0) =~= rounds);
    }
}

/// The bytes of a sequence of inputs.
pub open spec fn contents(inputs: Seq<Input>) -> Seq<u8>
    decreases inputs.len(),
{
    if inputs.len() == 0 {
        seq![]
    } else {
        contents(inputs.drop_last()) + inputs.last().content@
    }
}

proof fn lemma_contents<E>(
    inputs: Seq<Input>,
    rounds: Seq<(Option<Input>, Result<(), E>, Result<(), E>)>,
)
    requires
        rounds.len() == inputs.len(),
        forall|i: int| 0 <= i < inputs.len() ==> (#[trigger] rounds[i]).0 == Some(inputs[i]),
    ensures
        input_bytes(rounds) == contents(inputs),
    decreases inputs.len(),
{
    if inputs.len() > 0 {
        assert(rounds[rounds.len() - 1].0 == Some(inputs.last()));
        lemma_contents(inputs.drop_last(), rounds.drop_last());
    }
}

/// A shutdown does not discard input that was accepted: where the channel hands over these inputs,
/// in order, and is then closed, and no write or flush of them fails, the task for standard input
/// writes all their bytes, in order, and ends cleanly. So once that task is joined, the shutdown
/// fails only where another task does.
pub proof fn law_shutdown_writes_accepted_input<E>(
    inputs: Seq<Input>,
    rounds: Seq<(Option<Input>, Result<(), E>, Result<(), E>)>,
    joined: JoinedTasks<E>,
)
    requires
        rounds.len() == inputs.len() + 1,
        forall|i: int|
            0 <= i < inputs.len() ==> {
                &&& (#[trigger] rounds[i]).0 == Some(inputs[i])
                &&& rounds[i].1 is Ok
                &&& rounds[i].2 is Ok
            },
        rounds.last().0 is None,
        joined.stdin_task matches Ok(end) ==> input_run(rounds).2 == Some(end),
    ensures
        input_run(rounds).0 == inputs.len(),
        input_run(rounds).1 == contents(inputs),
        input_run(rounds).2 matches Some(Ok(())),
        joined.stdin_task is Ok ==> (shutdown_outcome(joined) is Ok <==> {
            &&& joined.stdout_task matches Ok(Ok(()))
            &&& joined.stderr_task matches Ok(Ok(()))
            &&& joined.child_task matches Ok(Ok(()))
        }),
{
    law_input_is_piped(rounds);
    let n = input_run(rounds).0 as int;
    assert(rounds.last() == rounds[inputs.len() as int]);
    assert(n > 0 ==> rounds[n - 1].0 is Some);
    assert(n < inputs.len() ==> rounds[n].0 is Some);
    lemma_contents(inputs, rounds.take(n));
}

/// The bytes of one stream in a sequence of messages.
pub open spec fn stream_bytes(stream: Stream, messages: Seq<ClientMessage>) -> Seq<u8>
    decreases messages.len(),
{
    if messages.len() == 0 {
        seq![]
    } else {
        stream_bytes(stream, messages.drop_last()) + match messages.last() {
            ClientMessage::Output(output) => match stream {
                Stream::Stdout => output.stdout@,
                Stream::Stderr => output.stderr@,
            },
            _ => seq![],
        }
    }
}

/// One round of the task that reads an output stream: a read and what follows it, and, where that
/// is to send a message, the outcome of sending it and what follows that.
pub struct OutputRound<E> {
    pub read: Result<Vec<u8>, E>,
    pub after_read: Flow<OutputWork, ChildOutputError<E>>,
    pub sent: Result<(), E>,
    pub after_sent: Flow<OutputWork, ChildOutputError<E>>,
}

/// Whether these are rounds of the task.
pub open spec fn are_rounds_of<E>(task: OutputTask, rounds: Seq<OutputRound<E>>) -> bool {
    forall|i: int|
        0 <= i < rounds.len() ==> {
            let round = #[trigger] rounds[i];
            &&& task.follows(OutputEvent::Read(round.read), round.after_read)
            &&& task.follows(OutputEvent::Sent(round.sent), round.after_sent)
        }
}

/// The bytes that were read in a sequence of rounds.
pub open spec fn output_bytes<E>(rounds: Seq<OutputRound<E>>) -> Seq<u8>
    decreases rounds.len(),
{
    if rounds.len() == 0 {
        seq![]
    } else {
        output_bytes(rounds.drop_last()) + match rounds.last().read {
            Ok(data) => data@,
            Err(_) => seq![],
        }
    }
}

/// What the task that reads an output stream does in these rounds: the messages that it sends, and
/// the result with which it ends, if it does. After its end it does nothing.
pub open spec fn output_run<E>(rounds: Seq<OutputRound<E>>) -> (
    Seq<ClientMessage>,
    Option<Result<(), ChildOutputError<E>>>,
)
    decreases rounds.len(),
{
    if rounds.len() == 0 {
        (seq![], None)
    } else {
        let before = output_run(rounds.drop_last());
        let round = rounds.last();
        if before.1 is Some {
            before
        } else {
            match round.after_read {
                ControlFlow::Continue(OutputWork::Send(message)) => (
                    before.0.push(message),
                    match round.after_sent {
                        ControlFlow::Break(end) => Some(end),
                        ControlFlow::Continue(_) => None,
                    },
                ),
                ControlFlow::Continue(_) => before,
                ControlFlow::Break(end) => (before.0, Some(end)),
            }
        }
    }
}

/// What the client is told of a child's output is what was read: the messages that a task sends
/// carry, under the child's id, all the bytes that were read before its end, in order, and none of
/// the other stream. The task ends cleanly only at the end of the stream, and with a failure only
/// where that read failed or where the last message could not be sent.
pub proof fn law_output_is_piped<E>(task: OutputTask, rounds: Seq<OutputRound<E>>)
    requires
        are_rounds_of(task, rounds),
    ensures
        ({
            let (messages, end) = output_run(rounds);
            let n = messages.len() as int;
            &&& n <= rounds.len()
            &&& stream_bytes(task.stream, messages) == output_bytes(rounds.take(n))
            &&& forall|other: Stream|
                other != task.stream ==> #[trigger] stream_bytes(other, messages) == Seq::<
                    u8,
                >::empty()
            &&& forall|i: int|
                0 <= i < n ==> {
                    &&& (#[trigger] rounds[i]).read matches Ok(data)
                    &&& data@.len() > 0
                    &&& task.reports(messages[i], data@)
                    &&& messages[i] matches ClientMessage::Output(output)
                    &&& output.psid == task.psid
                    &&& match task.stream {
                        Stream::Stdout => output.stdout@ == data@ && output.stderr@.len() == 0,
                        Stream::Stderr => output.stderr@ == data@ && output.stdout@.len() == 0,
                    }
                }
            &&& forall|i: int| 0 <= i < n - 1 ==> (#[trigger] rounds[i]).sent is Ok
            &&& match end {
                None => n == rounds.len() && (n > 0 ==> rounds[n - 1].sent is Ok),
                Some(Ok(())) => {
                    &&& n < rounds.len()
                    &&& rounds[n].read matches Ok(data) && data@.len() == 0
                    &&& n > 0 ==> rounds[n - 1].sent is Ok
                },
                Some(Err(ChildOutputError::UnableToRead { source })) => {
                    &&& n < rounds.len()
                    &&& rounds[n].read == Err::<Vec<u8>, E>(source)
                    &&& n > 0 ==> rounds[n - 1].sent is Ok
                },
                Some(Err(ChildOutputError::UnableToRelayOutput { source })) => {
                    n > 0 && rounds[n - 1].sent == Err::<(), E>(source)
                },
            }
        }),
    decreases rounds.len(),
{
    if rounds.len() > 0 {
        let before = rounds.drop_last();
        let last = rounds.last();
        assert(forall|i: int| 0 <= i < before.len() ==> before[i] == #[trigger] rounds[i]);
        assert(are_rounds_of(task, before)) by {
            assert forall|i: int| 0 <= i < before.len() implies {
                let round = #[trigger] before[i];
                &&& task.follows(OutputEvent::Read(round.read), round.after_read)
                &&& task.follows(OutputEvent::Sent(round.sent), round.after_sent)
            } by {
                assert(before[i] == rounds[i]);
            }
        }
        law_output_is_piped(task, before);
        assert(rounds[rounds.len() - 1] == last);
        let (sent, ended) = output_run(before);
        let (messages, _) = output_run(rounds);
        let m = sent.len() as int;
        assert(before.take(m) =~= rounds.take(m));
        if messages.len() > m {
            assert(ended is None);
            assert(messages.drop_last() =~= sent);
            assert(rounds.take(m + 1) =~= rounds);
            assert(before.take(m) =~= before);
            assert forall|other: Stream| other != task.stream implies #[trigger] stream_bytes(
                other,
                messages,
            ) == Seq::<u8>::empty() by {
                assert(stream_bytes(other, sent) == Seq::<u8>::empty());
            }
        }
    } else {
        assert(rounds.take(0) =~= rounds);
    }
}

/// What the task of a process does when it waits, kills if signalled, and reports: the messages
/// that it sends, and its result.
pub open spec fn child_run<E>(
    task: ChildTask,
    wait: ChildEvent<E>,
    killed: Result<(), E>,
    sent: Result<(), E>,
) -> (Seq<ClientMessage>, Option<Result<(), Error<E>>>) {
    let flow = match child_next(task, wait) {
        ControlFlow::Continue(ChildWork::Kill) => child_next(task, ChildEvent::Killed(killed)),
        flow => flow,
    };
    match flow {
        ControlFlow::Continue(ChildWork::Send(message)) => (
            seq![message],
            match child_next(task, ChildEvent::Sent(sent)) {
                ControlFlow::Break(end) => Some(end),
                ControlFlow::Continue(_) => None,
            },
        ),
        ControlFlow::Continue(_) => (seq![], None),
        ControlFlow::Break(end) => (seq![], Some(end)),
    }
}

/// The client is told that a process has stopped exactly where it has, once, and under its id;
/// and the task of a process succeeds only where the client was told.
pub proof fn law_stop_is_reported<E>(
    task: ChildTask,
    wait: ChildEvent<E>,
    killed: Result<(), E>,
    sent: Result<(), E>,
)
    requires
        wait is Signalled || wait is Exited,
    ensures
        ({
            let (messages, end) = child_run(task, wait, killed, sent);
            let stopped = match wait {
                ChildEvent::Exited(exited) => exited is Ok,
                ChildEvent::Signalled(signalled) => signalled is Ok && killed is Ok,
                _ => false,
            };
            &&& stopped ==> messages == seq![
                ClientMessage::ChildStopped(ChildStopped { psid: task.psid }),
            ]
            &&& !stopped ==> messages == Seq::<ClientMessage>::empty()
            &&& end is Some
            &&& end == Some(Ok::<(), Error<E>>(())) <==> stopped && sent is Ok
        }),
{
}

} // verus!
