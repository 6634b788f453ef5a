use providence::messages::{ChildStopped, ClientMessage, Input, Output, ProcessSequenceId};
use providence::process::{Connection, StartRequest};
use providence::server::child::{
    input_result, input_step, kill_result, shutdown_result, start_request, Child, ChildEvent,
    ChildOutputError, ChildTask, ChildWork, Error, Handles, JoinedTasks, OutputEvent, OutputTask,
    OutputWork, Process, Stream, READ_CAPACITY,
};
use providence::wire::{WriteEvent, WriteWork};
use std::ops::ControlFlow;
use tokio::sync::{mpsc, oneshot};

type TestChild = Child<&'static str, u8, u8>;

fn psid() -> ProcessSequenceId {
    ProcessSequenceId::new(6)
}

fn child(kill_tx: Option<oneshot::Sender<()>>) -> TestChild {
    Child {
        stdin_tx: "in",
        stdin_task: 1,
        stdout_task: 2,
        stderr_task: 3,
        kill_tx,
        child_task: 4,
    }
}

type Started = Result<Process<&'static str, char, char, char>, &'static str>;

fn spawn(started: Started) -> Result<TestChild, Error<&'static str>> {
    Child::spawn(
        psid(),
        b"two words".to_vec(),
        |request| {
            assert_eq!(request.program, b"two words");
            assert!(request.args.is_empty());
            assert_eq!(request.stdin, Connection::Piped);
            assert_eq!(request.stdout, Connection::Piped);
            assert_eq!(request.stderr, Connection::Piped);
            started
        },
        |pipes| {
            assert_eq!(pipes.process, "process");
            assert_eq!((pipes.stdin, pipes.stdout, pipes.stderr), ('i', 'o', 'e'));
            assert_eq!(pipes.stdout_task, OutputTask { psid: psid(), stream: Stream::Stdout });
            assert_eq!(pipes.stderr_task, OutputTask { psid: psid(), stream: Stream::Stderr });
            assert_eq!(pipes.child_task, ChildTask { psid: psid() });
            let (kill_tx, _) = oneshot::channel();
            Handles {
                stdin_tx: "in",
                stdin_task: 1,
                stdout_task: 2,
                stderr_task: 3,
                kill_tx,
                child_task: 4,
            }
        },
    )
}

fn process(stdin: Option<char>, stdout: Option<char>, stderr: Option<char>) -> Started {
    Ok(Process { process: "process", stdin, stdout, stderr })
}

#[test]
fn spawn_attaches_every_pipe() {
    let child = spawn(process(Some('i'), Some('o'), Some('e'))).unwrap();
    assert_eq!(child.stdin_tx, "in");
    assert_eq!((child.stdin_task, child.stdout_task), (1, 2));
    assert_eq!((child.stderr_task, child.child_task), (3, 4));
    assert!(child.kill_tx.is_some());
}

#[test]
fn spawn_says_why_it_failed() {
    assert_eq!(
        spawn(Err("gone")).unwrap_err(),
        Error::UnableToSpawnChildProcess { source: "gone", command: b"two words".to_vec() }
    );
    assert_eq!(spawn(process(None, None, None)).unwrap_err(), Error::ChildHasNoStdin);
    assert_eq!(spawn(process(Some('i'), None, None)).unwrap_err(), Error::ChildHasNoStdout);
    assert_eq!(spawn(process(Some('i'), Some('o'), None)).unwrap_err(), Error::ChildHasNoStderr);
}

#[test]
fn the_whole_command_is_the_program() {
    assert_eq!(
        start_request(&b"cat -v".to_vec()),
        StartRequest {
            program: b"cat -v".to_vec(),
            args: vec![],
            stdin: Connection::Piped,
            stdout: Connection::Piped,
            stderr: Connection::Piped,
        }
    );
}

#[test]
fn child_failures_have_their_text() {
    let text = |e: Error<u8>| e.to_text("why");
    let command = |command: &[u8]| Error::UnableToSpawnChildProcess {
        source: 1,
        command: command.to_vec(),
    };
    assert_eq!(text(command(b"no-such-cmd")), "Could not spawn the process `no-such-cmd`");
    assert_eq!(text(command(&[0xff])), "Could not spawn the process `<non-UTF-8 command>`");
    assert_eq!(text(Error::UnableToRelayKillMessage), "UnableToRelayKillMessage");
    assert_eq!(
        text(Error::UnableToKillChild { source: 1 }),
        "Could not kill the currently-running child process"
    );
    assert_eq!(text(Error::UnableToWaitForChild { source: 1 }), "UnableToWaitForChild: why");
    assert_eq!(
        text(Error::UnableToRelayChildStoppedToServer { source: 1 }),
        "UnableToRelayChildStoppedToServer: why"
    );
    assert_eq!(text(Error::ChildHasNoStdin), "The child has no stdin handle");
    assert_eq!(text(Error::ChildHasNoStdout), "The child has no stdout handle");
    assert_eq!(text(Error::ChildHasNoStderr), "The child has no stderr handle");
    assert_eq!(
        text(Error::UnableToReceiveKillFromServer { source: 1 }),
        "UnableToReceiveKillFromServer: why"
    );
    assert_eq!(
        text(Error::UnableToRelayInputMessageFromClient { source: 1 }),
        "Could not relay input to the child"
    );
    assert_eq!(
        text(Error::UnableToWriteInputToChild { source: 1 }),
        "Could not write input to the child"
    );
    assert_eq!(
        text(Error::UnableToFlushInputToChild { source: 1 }),
        "Could not flush input to the child"
    );
    assert_eq!(
        text(Error::UnableToJoinChildStdinTask { source: 1 }),
        "Could not join to the child stdin task"
    );
    assert_eq!(
        text(Error::UnableToJoinChildStdoutTask { source: 1 }),
        "Could not join to the child stdout task"
    );
    assert_eq!(
        text(Error::UnableToJoinChildStderrTask { source: 1 }),
        "Could not join to the child stderr task"
    );
    assert_eq!(
        text(Error::UnableToJoinChildTask { source: 1 }),
        "Could not join to the child task"
    );
    let unread = || ChildOutputError::UnableToRead { source: 1 };
    assert_eq!(
        text(Error::UnableToProcessChildStdout { source: unread() }),
        "Could not process child stdout"
    );
    assert_eq!(
        text(Error::UnableToProcessChildStderr { source: unread() }),
        "Could not process child stderr"
    );
    assert_eq!(unread().to_text("why"), "UnableToRead: why");
    assert_eq!(
        ChildOutputError::UnableToRelayOutput { source: 1 }.to_text("why"),
        "UnableToRelayOutput: why"
    );
}

#[test]
fn child_failures_know_what_is_behind_them() {
    assert_eq!(command_failure().outside_source(), Some(&4));
    assert_eq!(Error::<u8>::ChildHasNoStdin.outside_source(), None);
    let unread = ChildOutputError::UnableToRead { source: 5 };
    assert_eq!(unread.outside_source(), Some(&5));
    let source = Error::UnableToProcessChildStderr { source: unread };
    assert_eq!(source.outside_source(), Some(&5));
}

fn command_failure() -> Error<u8> {
    Error::UnableToSpawnChildProcess { source: 4, command: vec![] }
}

#[test]
fn kill_sends_the_signal_once() {
    let (kill_tx, mut kill_rx) = oneshot::channel();
    let mut child = child(Some(kill_tx));
    assert_eq!(child.kill::<u8>(), Ok(()));
    assert_eq!(kill_rx.try_recv(), Ok(()));
    assert!(child.kill_tx.is_none());
    assert_eq!(child.kill::<u8>(), Ok(()));
    assert_eq!(child.stdin_tx, "in");
}

#[test]
fn kill_fails_where_nobody_listens() {
    let (kill_tx, kill_rx) = oneshot::channel();
    drop(kill_rx);
    let mut child = child(Some(kill_tx));
    assert_eq!(child.kill::<u8>(), Err(Error::UnableToRelayKillMessage));
    assert!(child.kill_tx.is_none());
    assert_eq!(child.kill::<u8>(), Ok(()));
}

#[test]
fn kill_results() {
    assert_eq!(kill_result::<u8>(Ok(())), Ok(()));
    assert_eq!(kill_result::<u8>(Err(())), Err(Error::UnableToRelayKillMessage));
}

#[test]
fn input_goes_to_the_child() {
    let child = child(None);
    let (to, input) = child.input(Input { psid: psid(), content: vec![1] });
    assert_eq!(*to, "in");
    assert_eq!(input, Input { psid: psid(), content: vec![1] });
    assert_eq!(input_result::<u8>(Ok(())), Ok(()));
    assert_eq!(
        input_result(Err(5)),
        Err(Error::UnableToRelayInputMessageFromClient { source: 5 })
    );
}

#[test]
fn forced_shutdown_signals_and_leaves_the_tasks() {
    let (kill_tx, mut kill_rx) = oneshot::channel();
    let tasks = child(Some(kill_tx)).force_shutdown::<u8>().unwrap();
    assert_eq!(kill_rx.try_recv(), Ok(()));
    assert_eq!((tasks.stdin_task, tasks.stdout_task), (1, 2));
    assert_eq!((tasks.stderr_task, tasks.child_task), (3, 4));
}

#[test]
fn forced_shutdown_fails_where_nobody_listens() {
    let (kill_tx, kill_rx) = oneshot::channel();
    drop(kill_rx);
    assert_eq!(
        child(Some(kill_tx)).force_shutdown::<u8>().unwrap_err(),
        Error::UnableToRelayKillMessage
    );
}

#[test]
fn shutdown_closes_the_kill_switch() {
    let (kill_tx, mut kill_rx) = oneshot::channel();
    let tasks = child(Some(kill_tx)).shutdown();
    assert_eq!(kill_rx.try_recv(), Err(oneshot::error::TryRecvError::Closed));
    assert_eq!(tasks.child_task, 4);
}

fn joined() -> JoinedTasks<u8> {
    JoinedTasks {
        stdin_task: Ok(Ok(())),
        stdout_task: Ok(Ok(())),
        stderr_task: Ok(Ok(())),
        child_task: Ok(Ok(())),
    }
}

#[test]
fn shutdown_reports_each_failure() {
    assert_eq!(shutdown_result(joined()), Ok(()));
    assert_eq!(
        shutdown_result(JoinedTasks { stdin_task: Err(1), ..joined() }),
        Err(Error::UnableToJoinChildStdinTask { source: 1 })
    );
    assert_eq!(
        shutdown_result(JoinedTasks { stdin_task: Ok(Err(Error::ChildHasNoStdin)), ..joined() }),
        Err(Error::ChildHasNoStdin)
    );
    assert_eq!(
        shutdown_result(JoinedTasks { stdout_task: Err(2), ..joined() }),
        Err(Error::UnableToJoinChildStdoutTask { source: 2 })
    );
    let unread = || Ok(Err(ChildOutputError::UnableToRead { source: 3 }));
    assert_eq!(
        shutdown_result(JoinedTasks { stdout_task: unread(), ..joined() }),
        Err(Error::UnableToProcessChildStdout {
            source: ChildOutputError::UnableToRead { source: 3 }
        })
    );
    assert_eq!(
        shutdown_result(JoinedTasks { stderr_task: Err(4), ..joined() }),
        Err(Error::UnableToJoinChildStderrTask { source: 4 })
    );
    assert_eq!(
        shutdown_result(JoinedTasks { stderr_task: unread(), ..joined() }),
        Err(Error::UnableToProcessChildStderr {
            source: ChildOutputError::UnableToRead { source: 3 }
        })
    );
    assert_eq!(
        shutdown_result(JoinedTasks { child_task: Err(5), ..joined() }),
        Err(Error::UnableToJoinChildTask { source: 5 })
    );
    assert_eq!(
        shutdown_result(JoinedTasks {
            child_task: Ok(Err(Error::UnableToKillChild { source: 6 })),
            ..joined()
        }),
        Err(Error::UnableToKillChild { source: 6 })
    );
}

#[test]
fn shutdown_reports_the_first_failure() {
    let all = JoinedTasks {
        stdin_task: Ok(Ok(())),
        stdout_task: Err(2),
        stderr_task: Err(3),
        child_task: Err(4),
    };
    assert_eq!(shutdown_result(all), Err(Error::UnableToJoinChildStdoutTask { source: 2 }));
}

#[test]
fn input_task_steps() {
    let input = Input { psid: psid(), content: vec![1, 2] };
    assert_eq!(
        input_step::<u8>(WriteEvent::Received(Some(input))),
        ControlFlow::Continue(WriteWork::Write(vec![1, 2]))
    );
    assert_eq!(input_step::<u8>(WriteEvent::Received(None)), ControlFlow::Break(Ok(())));
    assert_eq!(
        input_step::<u8>(WriteEvent::Written(Ok(()))),
        ControlFlow::Continue(WriteWork::Flush)
    );
    assert_eq!(
        input_step(WriteEvent::Written(Err(3))),
        ControlFlow::Break(Err(Error::UnableToWriteInputToChild { source: 3 }))
    );
    assert_eq!(
        input_step::<u8>(WriteEvent::Flushed(Ok(()))),
        ControlFlow::Continue(WriteWork::Receive)
    );
    assert_eq!(
        input_step(WriteEvent::Flushed(Err(4))),
        ControlFlow::Break(Err(Error::UnableToFlushInputToChild { source: 4 }))
    );
}

#[test]
fn input_is_piped_in_order() {
    let mut channel = vec![None, Some(b"cd".to_vec()), Some(b"".to_vec()), Some(b"ab".to_vec())];
    let mut written: Vec<u8> = vec![];
    let mut work = WriteWork::Receive;
    let end: Result<(), Error<u8>> = loop {
        let event = match work {
            WriteWork::Receive => WriteEvent::Received(
                channel.pop().unwrap().map(|content| Input { psid: psid(), content }),
            ),
            WriteWork::Write(bytes) => {
                written.extend(bytes);
                WriteEvent::Written(Ok(()))
            }
            WriteWork::Flush => WriteEvent::Flushed(Ok(())),
        };
        match input_step(event) {
            ControlFlow::Continue(next) => work = next,
            ControlFlow::Break(end) => break end,
        }
    };
    assert_eq!(written, b"abcd");
    assert_eq!(end, Ok(()));
}

#[test]
fn a_shutdown_keeps_accepted_input() {
    let (stdin_tx, mut stdin_rx) = mpsc::channel(10);
    let child = Child {
        stdin_tx,
        stdin_task: 1,
        stdout_task: 2,
        stderr_task: 3,
        kill_tx: None,
        child_task: 4,
    };
    for content in [b"ab".to_vec(), b"".to_vec(), b"cde".to_vec()] {
        let (to, input) = child.input(Input { psid: psid(), content });
        to.try_send(input).unwrap();
    }
    let tasks = child.shutdown();
    assert_eq!(tasks.stdin_task, 1);

    let mut written: Vec<u8> = vec![];
    let mut work = WriteWork::Receive;
    let end: Result<(), Error<u8>> = loop {
        let event = match work {
            WriteWork::Receive => WriteEvent::Received(stdin_rx.blocking_recv()),
            WriteWork::Write(bytes) => {
                written.extend(bytes);
                WriteEvent::Written(Ok(()))
            }
            WriteWork::Flush => WriteEvent::Flushed(Ok(())),
        };
        match input_step(event) {
            ControlFlow::Continue(next) => work = next,
            ControlFlow::Break(end) => break end,
        }
    };
    assert_eq!(written, b"abcde");
    assert_eq!(shutdown_result(JoinedTasks { stdin_task: Ok(end), ..joined() }), Ok(()));
}

#[test]
fn output_task_steps() {
    let out = OutputTask { psid: psid(), stream: Stream::Stdout };
    let err = OutputTask { psid: psid(), stream: Stream::Stderr };
    assert_eq!(
        out.step::<u8>(OutputEvent::Read(Ok(vec![1]))),
        ControlFlow::Continue(OutputWork::Send(ClientMessage::Output(Output {
            psid: psid(),
            stdout: vec![1],
            stderr: vec![],
        })))
    );
    assert_eq!(
        err.step::<u8>(OutputEvent::Read(Ok(vec![2]))),
        ControlFlow::Continue(OutputWork::Send(ClientMessage::Output(Output {
            psid: psid(),
            stdout: vec![],
            stderr: vec![2],
        })))
    );
    assert_eq!(out.step::<u8>(OutputEvent::Read(Ok(vec![]))), ControlFlow::Break(Ok(())));
    assert_eq!(
        out.step(OutputEvent::Read(Err(5))),
        ControlFlow::Break(Err(ChildOutputError::UnableToRead { source: 5 }))
    );
    assert_eq!(
        out.step::<u8>(OutputEvent::Sent(Ok(()))),
        ControlFlow::Continue(OutputWork::Read)
    );
    assert_eq!(
        out.step(OutputEvent::Sent(Err(6))),
        ControlFlow::Break(Err(ChildOutputError::UnableToRelayOutput { source: 6 }))
    );
    assert_eq!(READ_CAPACITY, 1024);
}

#[test]
fn output_is_piped_in_order() {
    let task = OutputTask { psid: psid(), stream: Stream::Stderr };
    let mut reads = vec![b"".to_vec(), b"c".to_vec(), b"ab".to_vec()];
    let (mut stdout, mut stderr): (Vec<u8>, Vec<u8>) = (vec![], vec![]);
    let mut work = OutputWork::Read;
    let end: Result<(), ChildOutputError<u8>> = loop {
        let event = match work {
            OutputWork::Read => OutputEvent::Read(Ok(reads.pop().unwrap())),
            OutputWork::Send(ClientMessage::Output(output)) => {
                stdout.extend(output.stdout);
                stderr.extend(output.stderr);
                OutputEvent::Sent(Ok(()))
            }
            OutputWork::Send(other) => panic!("{other:?}"),
        };
        match task.step(event) {
            ControlFlow::Continue(next) => work = next,
            ControlFlow::Break(end) => break end,
        }
    };
    assert_eq!((stdout, stderr), (vec![], b"abc".to_vec()));
    assert_eq!(end, Ok(()));
}

#[test]
fn child_task_steps() {
    let task = ChildTask { psid: psid() };
    let stopped =
        || ChildWork::Send(ClientMessage::ChildStopped(ChildStopped { psid: psid() }));
    assert_eq!(
        task.step::<u8>(ChildEvent::Signalled(Ok(()))),
        ControlFlow::Continue(ChildWork::Kill)
    );
    assert_eq!(
        task.step(ChildEvent::Signalled(Err(1))),
        ControlFlow::Break(Err(Error::UnableToReceiveKillFromServer { source: 1 }))
    );
    assert_eq!(
        task.step::<u8>(ChildEvent::Exited(Ok(()))),
        ControlFlow::Continue(stopped())
    );
    assert_eq!(
        task.step(ChildEvent::Exited(Err(2))),
        ControlFlow::Break(Err(Error::UnableToWaitForChild { source: 2 }))
    );
    assert_eq!(
        task.step::<u8>(ChildEvent::Killed(Ok(()))),
        ControlFlow::Continue(stopped())
    );
    assert_eq!(
        task.step(ChildEvent::Killed(Err(3))),
        ControlFlow::Break(Err(Error::UnableToKillChild { source: 3 }))
    );
    assert_eq!(task.step::<u8>(ChildEvent::Sent(Ok(()))), ControlFlow::Break(Ok(())));
    assert_eq!(
        task.step(ChildEvent::Sent(Err(4))),
        ControlFlow::Break(Err(Error::UnableToRelayChildStoppedToServer { source: 4 }))
    );
}
