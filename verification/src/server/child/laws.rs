//! What holds of every child, whatever it is told and whatever it says.

use crate::messages::{ClientMessage, Input, ProcessSequenceId};
use crate::process::{Connection, StartRequest};
use crate::server::child::{attachments, child_run, input_next, input_result, input_step};
use crate::server::child::{kill_result, runs_command, shutdown_outcome, shutdown_result};
use crate::server::child::start_request;
use crate::server::child::{Child, ChildEvent, ChildOutputError, ChildTask, ChildWork, Error};
use crate::server::child::{Attachments, Handles, JoinedTasks, OutputEvent, OutputTask};
use crate::server::child::{OutputWork, Process, Stream, Tasks, READ_CAPACITY};
use crate::wire::{lemma_write_task, write_task_run, Flow, WriteEvent, WriteWork};
use std::ops::ControlFlow;
use vstd::prelude::*;
use vstd::string::*;
use vstd::utf8::*;

verus! {

/// The program that is started for a command is all of the command, byte for byte, with no
/// arguments, and all three streams are piped. So different commands start different programs.
pub proof fn law_the_command_is_the_program(command: Vec<u8>, request: StartRequest)
    requires
        call_ensures(start_request, (&command,), request),
    ensures
        request.program@.len() == command@.len(),
        forall|i: int| 0 <= i < command@.len() ==> #[trigger] request.program@[i] == command@[i],
        request.args@.len() == 0,
        request.stdin == Connection::Piped,
        request.stdout == Connection::Piped,
        request.stderr == Connection::Piped,
{
}

/// Requests that run a command start that command and no other, with all three streams piped.
pub proof fn law_a_request_runs_one_command(request: StartRequest, command: Seq<u8>)
    ensures
        runs_command(request, command) <==> {
            &&& request.program@ == command
            &&& request.args@.len() == 0
            &&& request.stdin == Connection::Piped
            &&& request.stdout == Connection::Piped
            &&& request.stderr == Connection::Piped
        },
{
    assert(request.args@.len() == 0 ==> request.args@ =~= Seq::<Vec<u8>>::empty());
}

/// Every pipe of a process is served as the stream that it is, and under the id of the child.
pub proof fn law_pipes_are_served_as_they_are<P, A, B, C>(
    psid: ProcessSequenceId,
    process: P,
    stdin: A,
    stdout: B,
    stderr: C,
)
    ensures
        ({
            let attached = attachments(psid, process, stdin, stdout, stderr);
            &&& attached.process == process
            &&& attached.stdin == stdin
            &&& attached.stdout == stdout
            &&& attached.stderr == stderr
            &&& attached.stdout_task.stream == Stream::Stdout
            &&& attached.stderr_task.stream == Stream::Stderr
            &&& attached.stdout_task.psid == psid
            &&& attached.stderr_task.psid == psid
            &&& attached.child_task.psid == psid
        }),
{
}

/// Input goes as it is to the task that feeds the child.
pub proof fn law_input_goes_to_its_child<I, T, O>(
    child: Child<I, T, O>,
    input: Input,
    delivery: (&I, Input),
)
    requires
        call_ensures(Child::<I, T, O>::input, (&child, input), delivery),
    ensures
        *delivery.0 == child.stdin_tx,
        delivery.1 == input,
{
}

/// A request to kill, or input, is accepted exactly where the channel took it; otherwise the
/// failure says so, and holds what the channel said.
pub proof fn law_channel_answers_are_kept<E>(
    signalled: Result<(), ()>,
    kill: Result<(), Error<E>>,
    sent: Result<(), E>,
    input: Result<(), Error<E>>,
)
    requires
        call_ensures(kill_result::<E>, (signalled,), kill),
        call_ensures(input_result::<E>, (sent,), input),
    ensures
        kill is Ok <==> signalled is Ok,
        kill matches Err(e) ==> e is UnableToRelayKillMessage,
        input is Ok <==> sent is Ok,
        sent matches Err(e) ==> {
            &&& input matches Err(Error::UnableToRelayInputMessageFromClient { source })
            &&& source == e
        },
{
}

/// All four tasks of a child are left to be joined when it is shut down, each in its place.
pub proof fn law_shutdown_leaves_every_task<I, T, O>(child: Child<I, T, O>, tasks: Tasks<T, O>)
    requires
        call_ensures(Child::<I, T, O>::shutdown, (child,), tasks),
    ensures
        tasks.stdin_task == child.stdin_task,
        tasks.stdout_task == child.stdout_task,
        tasks.stderr_task == child.stderr_task,
        tasks.child_task == child.child_task,
{
}

/// A forced shutdown leaves the same tasks as a shutdown, except where the signal to kill cannot be
/// sent; and where it was sent before, nothing can go wrong.
pub proof fn law_forced_shutdown_leaves_every_task<I, T, O, E>(
    child: Child<I, T, O>,
    forced: Result<Tasks<T, O>, Error<E>>,
    tasks: Tasks<T, O>,
)
    requires
        call_ensures(Child::<I, T, O>::force_shutdown::<E>, (child,), forced),
        call_ensures(Child::<I, T, O>::shutdown, (child,), tasks),
    ensures
        forced matches Ok(left) ==> left == tasks,
        forced matches Err(e) ==> e is UnableToRelayKillMessage,
        child.kill_tx is None ==> forced is Ok,
{
}

/// A shutdown ends with the first failure there was: of the tasks for standard input, standard
/// output and standard error, and then of the task of the process.
pub proof fn law_shutdown_reports_the_first_failure<E>(
    joined: JoinedTasks<E>,
    result: Result<(), Error<E>>,
)
    requires
        call_ensures(shutdown_result::<E>, (joined,), result),
    ensures
        ({
            let stdin_ok = joined.stdin_task matches Ok(Ok(()));
            let stdout_ok = joined.stdout_task matches Ok(Ok(()));
            let stderr_ok = joined.stderr_task matches Ok(Ok(()));
            &&& joined.stdin_task matches Err(e) ==> {
                result matches Err(Error::UnableToJoinChildStdinTask { source }) && source == e
            }
            &&& joined.stdin_task matches Ok(Err(e)) ==> result == Err::<(), Error<E>>(e)
            &&& stdin_ok ==> {
                &&& joined.stdout_task matches Err(e) ==> {
                    result matches Err(Error::UnableToJoinChildStdoutTask { source }) && source == e
                }
                &&& joined.stdout_task matches Ok(Err(e)) ==> {
                    result matches Err(Error::UnableToProcessChildStdout { source }) && source == e
                }
            }
            &&& stdin_ok && stdout_ok ==> {
                &&& joined.stderr_task matches Err(e) ==> {
                    result matches Err(Error::UnableToJoinChildStderrTask { source }) && source == e
                }
                &&& joined.stderr_task matches Ok(Err(e)) ==> {
                    result matches Err(Error::UnableToProcessChildStderr { source }) && source == e
                }
            }
            &&& stdin_ok && stdout_ok && stderr_ok ==> {
                &&& joined.child_task matches Err(e) ==> {
                    result matches Err(Error::UnableToJoinChildTask { source }) && source == e
                }
                &&& joined.child_task matches Ok(Err(e)) ==> result == Err::<(), Error<E>>(e)
                &&& joined.child_task matches Ok(Ok(())) ==> result is Ok
            }
        }),
        result == shutdown_outcome(joined),
{
}

/// The task that feeds a child writes the content of exactly the inputs that it receives, all of
/// it, in order, and asks for a flush after each before it receives the next; it ends cleanly only
/// where there are no more, and with a failure only where that write or that flush of the last
/// input failed.
pub proof fn law_every_input_is_written<E>(
    rounds: Seq<(Option<Input>, Result<(), E>, Result<(), E>)>,
)
    ensures
        ({
            let (written, flushes, end) = write_task_run(
                |event: WriteEvent<Input, E>| input_next(event),
                rounds,
            );
            let n = written.len() as int;
            &&& n <= rounds.len()
            &&& forall|i: int|
                0 <= i < n ==> ((#[trigger] rounds[i]).0 matches Some(input) && written[i]@
                    == input.content@)
            &&& forall|i: int|
                0 <= i < n - 1 ==> (#[trigger] rounds[i]).1 is Ok && rounds[i].2 is Ok
            &&& match end {
                None => {
                    &&& n == rounds.len()
                    &&& flushes == n
                    &&& n > 0 ==> rounds[n - 1].1 is Ok && rounds[n - 1].2 is Ok
                },
                Some(Ok(())) => {
                    &&& n < rounds.len()
                    &&& rounds[n].0 is None
                    &&& flushes == n
                    &&& n > 0 ==> rounds[n - 1].1 is Ok && rounds[n - 1].2 is Ok
                },
                Some(Err(Error::UnableToWriteInputToChild { source })) => {
                    &&& n > 0
                    &&& rounds[n - 1].1 == Err::<(), E>(source)
                    &&& flushes == n - 1
                },
                Some(Err(Error::UnableToFlushInputToChild { source })) => {
                    &&& n > 0
                    &&& rounds[n - 1].1 is Ok
                    &&& rounds[n - 1].2 == Err::<(), E>(source)
                    &&& flushes == n
                },
                Some(Err(_)) => false,
            }
        }),
{
    lemma_write_task(
        |event: WriteEvent<Input, E>| input_next(event),
        |input: Input| input.content,
        |source: E| Error::UnableToWriteInputToChild { source },
        |source: E| Error::UnableToFlushInputToChild { source },
        rounds,
    );
}

/// Whatever is read of a stream is sent at once, all of it and as that stream of that child; only
/// where nothing is left to read does the task end well. What cannot be read or sent ends it.
pub proof fn law_output_is_sent_as_it_is<E>(
    task: OutputTask,
    event: OutputEvent<E>,
    flow: Flow<OutputWork, ChildOutputError<E>>,
)
    requires
        call_ensures(OutputTask::step::<E>, (&task, event), flow),
    ensures
        match event {
            OutputEvent::Read(Ok(data)) => if data@.len() > 0 {
                &&& flow matches ControlFlow::Continue(
                    OutputWork::Send(ClientMessage::Output(output)),
                )
                &&& output.psid == task.psid
                &&& task.stream == Stream::Stdout ==> output.stdout@ == data@
                &&& task.stream == Stream::Stderr ==> output.stderr@ == data@
                &&& output.stdout@.len() + output.stderr@.len() == data@.len()
            } else {
                flow matches ControlFlow::Break(Ok(()))
            },
            OutputEvent::Read(Err(e)) => {
                &&& flow matches ControlFlow::Break(Err(ChildOutputError::UnableToRead { source }))
                &&& source == e
            },
            OutputEvent::Sent(Ok(())) => flow matches ControlFlow::Continue(OutputWork::Read),
            OutputEvent::Sent(Err(e)) => {
                &&& flow matches ControlFlow::Break(
                    Err(ChildOutputError::UnableToRelayOutput { source }),
                )
                &&& source == e
            },
        },
        task.follows(event, flow),
{
}

/// The task of a process ends with the failure that came up, and with that one alone: that the
/// signal was lost, that the process could not be killed or waited for, or that the client could
/// not be told.
pub proof fn law_process_failures_are_reported<E>(
    task: ChildTask,
    wait: ChildEvent<E>,
    killed: Result<(), E>,
    sent: Result<(), E>,
)
    requires
        wait is Signalled || wait is Exited,
    ensures
        ({
            let (_, end) = child_run(task, wait, killed, sent);
            match (wait, killed, sent) {
                (ChildEvent::Signalled(Err(e)), _, _) => {
                    &&& end matches Some(Err(Error::UnableToReceiveKillFromServer { source }))
                    &&& source == e
                },
                (ChildEvent::Signalled(Ok(())), Err(e), _) => {
                    &&& end matches Some(Err(Error::UnableToKillChild { source }))
                    &&& source == e
                },
                (ChildEvent::Exited(Err(e)), _, _) => {
                    &&& end matches Some(Err(Error::UnableToWaitForChild { source }))
                    &&& source == e
                },
                (_, _, Err(e)) => {
                    &&& end matches Some(Err(Error::UnableToRelayChildStoppedToServer { source }))
                    &&& source == e
                },
                (_, _, Ok(())) => end matches Some(Ok(())),
            }
        }),
{
}

/// A process is killed only on a signal, and on every signal: one that ended by itself is not.
pub proof fn law_only_a_signal_kills<E>(
    task: ChildTask,
    wait: ChildEvent<E>,
    flow: Flow<ChildWork, Error<E>>,
)
    requires
        call_ensures(ChildTask::step::<E>, (&task, wait), flow),
    ensures
        flow matches ControlFlow::Continue(ChildWork::Kill) <==> wait matches
            ChildEvent::Signalled(Ok(())),
        !(flow matches ControlFlow::Continue(ChildWork::Wait)),
        flow matches ControlFlow::Continue(ChildWork::Send(message)) ==> {
            &&& message matches ClientMessage::ChildStopped(stopped)
            &&& stopped.psid == task.psid
        },
{
}

/// What a failure of a child reads as. One with words of its own reads the same whatever is behind
/// it; any other is its name and what is behind it.
pub proof fn law_child_failure_text<E>(e: Error<E>, source: &str, text: String)
    requires
        call_ensures(Error::<E>::to_text, (&e, source), text),
    ensures
        match e {
            Error::UnableToSpawnChildProcess { command, .. } => {
                &&& valid_utf8(command@) ==> text@ == "Could not spawn the process `"@
                    + decode_utf8(command@) + "`"@
                &&& !valid_utf8(command@) ==> text@ == "Could not spawn the process `"@
                    + "<non-UTF-8 command>"@ + "`"@
            },
            Error::UnableToRelayKillMessage => text@ == "UnableToRelayKillMessage"@,
            Error::UnableToKillChild { .. } => text@
                == "Could not kill the currently-running child process"@,
            Error::UnableToWaitForChild { .. } => text@ == "UnableToWaitForChild: "@ + source@,
            Error::UnableToRelayChildStoppedToServer { .. } => text@
                == "UnableToRelayChildStoppedToServer: "@ + source@,
            Error::ChildHasNoStdin => text@ == "The child has no stdin handle"@,
            Error::ChildHasNoStdout => text@ == "The child has no stdout handle"@,
            Error::ChildHasNoStderr => text@ == "The child has no stderr handle"@,
            Error::UnableToReceiveKillFromServer { .. } => text@
                == "UnableToReceiveKillFromServer: "@ + source@,
            Error::UnableToRelayInputMessageFromClient { .. } => text@
                == "Could not relay input to the child"@,
            Error::UnableToWriteInputToChild { .. } => text@
                == "Could not write input to the child"@,
            Error::UnableToFlushInputToChild { .. } => text@
                == "Could not flush input to the child"@,
            Error::UnableToJoinChildStdinTask { .. } => text@
                == "Could not join to the child stdin task"@,
            Error::UnableToJoinChildStdoutTask { .. } => text@
                == "Could not join to the child stdout task"@,
            Error::UnableToProcessChildStdout { .. } => text@ == "Could not process child stdout"@,
            Error::UnableToJoinChildStderrTask { .. } => text@
                == "Could not join to the child stderr task"@,
            Error::UnableToProcessChildStderr { .. } => text@ == "Could not process child stderr"@,
            Error::UnableToJoinChildTask { .. } => text@ == "Could not join to the child task"@,
        },
        text@ == e.text(source@),
{
}

/// What a failure of an output stream reads as: its name and what is behind it.
pub proof fn law_output_failure_text<E>(e: ChildOutputError<E>, source: &str, text: String)
    requires
        call_ensures(ChildOutputError::<E>::to_text, (&e, source), text),
    ensures
        match e {
            ChildOutputError::UnableToRead { .. } => text@ == "UnableToRead: "@ + source@,
            ChildOutputError::UnableToRelayOutput { .. } => text@ == "UnableToRelayOutput: "@
                + source@,
        },
{
}

/// The outside failure behind a failure of an output stream is the one that it was made with.
pub proof fn law_output_failure_keeps_its_source<E>(e: ChildOutputError<E>, found: Option<&E>)
    requires
        call_ensures(ChildOutputError::<E>::outside_source, (&e,), found),
    ensures
        match e {
            ChildOutputError::UnableToRead { source } => found == Some(&source),
            ChildOutputError::UnableToRelayOutput { source } => found == Some(&source),
        },
{
}

/// The outside failure behind a failure of a child is the one that it was made with, at whatever
/// depth; and there is none behind a failure that was made without one.
pub proof fn law_child_failure_keeps_its_source<E>(e: Error<E>, found: Option<&E>)
    requires
        call_ensures(Error::<E>::outside_source, (&e,), found),
    ensures
        match e {
            Error::UnableToRelayKillMessage => found is None,
            Error::ChildHasNoStdin => found is None,
            Error::ChildHasNoStdout => found is None,
            Error::ChildHasNoStderr => found is None,
            Error::UnableToSpawnChildProcess { source, .. } => found == Some(&source),
            Error::UnableToKillChild { source } => found == Some(&source),
            Error::UnableToWaitForChild { source } => found == Some(&source),
            Error::UnableToRelayChildStoppedToServer { source } => found == Some(&source),
            Error::UnableToReceiveKillFromServer { source } => found == Some(&source),
            Error::UnableToRelayInputMessageFromClient { source } => found == Some(&source),
            Error::UnableToWriteInputToChild { source } => found == Some(&source),
            Error::UnableToFlushInputToChild { source } => found == Some(&source),
            Error::UnableToJoinChildStdinTask { source } => found == Some(&source),
            Error::UnableToJoinChildStdoutTask { source } => found == Some(&source),
            Error::UnableToJoinChildStderrTask { source } => found == Some(&source),
            Error::UnableToJoinChildTask { source } => found == Some(&source),
            Error::UnableToProcessChildStdout {
                source: ChildOutputError::UnableToRead { source },
            } => found == Some(&source),
            Error::UnableToProcessChildStdout {
                source: ChildOutputError::UnableToRelayOutput { source },
            } => found == Some(&source),
            Error::UnableToProcessChildStderr {
                source: ChildOutputError::UnableToRead { source },
            } => found == Some(&source),
            Error::UnableToProcessChildStderr {
                source: ChildOutputError::UnableToRelayOutput { source },
            } => found == Some(&source),
        },
{
}

/// A child is what became of its command. Where the process is started with all three pipes, the
/// child holds the tasks that were attached to them, each in its place, and can be killed;
/// otherwise there is no child, and the failure says what was missing.
pub proof fn law_a_child_runs_its_command<I, T, O, P, A, B, C, E, F, G>(
    psid: ProcessSequenceId,
    command: Vec<u8>,
    start: F,
    attach: G,
    child: Result<Child<I, T, O>, Error<E>>,
) where
    F: FnOnce(StartRequest) -> Result<Process<P, A, B, C>, E>,
    G: FnOnce(Attachments<P, A, B, C>) -> Handles<I, T, O>,

    requires
        call_ensures(Child::<I, T, O>::spawn, (psid, command, start, attach), child),
    ensures
        exists|request: StartRequest, started: Result<Process<P, A, B, C>, E>|
            {
                &&& #[trigger] start.ensures((request,), started)
                &&& request.program@ == command@
                &&& request.args@.len() == 0
                &&& request.stdin == Connection::Piped
                &&& request.stdout == Connection::Piped
                &&& request.stderr == Connection::Piped
                &&& match started {
                    Err(e) => {
                        &&& child matches Err(
                            Error::UnableToSpawnChildProcess { source, command: named },
                        )
                        &&& source == e
                        &&& named == command
                    },
                    Ok(process) => {
                        &&& process.stdin is None ==> (child matches Err(e)
                            && e is ChildHasNoStdin)
                        &&& process.stdin is Some && process.stdout is None ==> (
                        child matches Err(e) && e is ChildHasNoStdout)
                        &&& process.stdin is Some && process.stdout is Some
                            && process.stderr is None ==> (child matches Err(e)
                            && e is ChildHasNoStderr)
                        &&& process.stdin is Some && process.stdout is Some
                            && process.stderr is Some ==> exists|
                            attached: Attachments<P, A, B, C>,
                            handles: Handles<I, T, O>,
                        |
                            {
                                &&& #[trigger] attach.ensures((attached,), handles)
                                &&& attached.process == process.process
                                &&& process.stdin == Some(attached.stdin)
                                &&& process.stdout == Some(attached.stdout)
                                &&& process.stderr == Some(attached.stderr)
                                &&& attached.stdout_task == (OutputTask {
                                    psid,
                                    stream: Stream::Stdout,
                                })
                                &&& attached.stderr_task == (OutputTask {
                                    psid,
                                    stream: Stream::Stderr,
                                })
                                &&& attached.child_task.psid == psid
                                &&& child matches Ok(made)
                                &&& made.stdin_tx == handles.stdin_tx
                                &&& made.stdin_task == handles.stdin_task
                                &&& made.stdout_task == handles.stdout_task
                                &&& made.stderr_task == handles.stderr_task
                                &&& made.kill_tx == Some(handles.kill_tx)
                                &&& made.child_task == handles.child_task
                            }
                    },
                }
            },
{
}

/// Before each read there is room for 1024 bytes.
pub proof fn law_reads_have_room()
    ensures
        READ_CAPACITY == 1024,
{
}

/// The content of every input that was received is written next, all of it. Whatever else comes up,
/// the task goes on by its own steps.
pub proof fn law_input_is_passed_on<E>(
    event: WriteEvent<Input, E>,
    flow: Flow<WriteWork<Vec<u8>>, Error<E>>,
)
    requires
        call_ensures(input_step::<E>, (event,), flow),
    ensures
        event matches WriteEvent::Received(Some(input)) ==> {
            flow matches ControlFlow::Continue(WriteWork::Write(written)) && written@
                == input.content@
        },
        flow == input_next(event),
{
}

/// A child can be killed once: the call leaves everything else as it is, and a later one does
/// nothing. It fails only where the signal could not be sent.
pub proof fn law_a_child_is_killed_once<I, T, O, E>()
    ensures
        forall|child: &mut Child<I, T, O>, result: Result<(), Error<E>>| #[trigger]
            call_ensures(Child::<I, T, O>::kill::<E>, (child,), result) ==> {
                &&& (*final(child)).kill_tx is None
                &&& (*final(child)).stdin_tx == (*child).stdin_tx
                &&& (*final(child)).stdin_task == (*child).stdin_task
                &&& (*final(child)).stdout_task == (*child).stdout_task
                &&& (*final(child)).stderr_task == (*child).stderr_task
                &&& (*final(child)).child_task == (*child).child_task
                &&& (*child).kill_tx is None ==> result is Ok
                &&& result matches Err(e) ==> e is UnableToRelayKillMessage
            },
{
}

} // verus!
