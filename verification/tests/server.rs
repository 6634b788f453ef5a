use providence::messages::{
    ChildStarted, ClientMessage, Input, Kill, ProcessSequenceId, ServerMessage, Spawn,
};
use providence::server::child;
use providence::server::children::Children;
use providence::server::{
    display_command, drain_result, killed, maybe_kill, stdin_step, stdout_step, Drained, Error,
    Event, Server, Work,
};
use providence::wire::{DecodeError, ReadErrorKind, ReadEvent, ReadWork, WriteEvent, WriteWork};
use std::ops::ControlFlow;
use tokio::sync::oneshot;

type Source = u8;
type Flow = ControlFlow<Result<(), Error<Source>>, Work<&'static str>>;

fn id(n: u32) -> ProcessSequenceId {
    ProcessSequenceId::new(n)
}

fn spawn(n: u32) -> Spawn {
    Spawn { psid: id(n), command: b"cat".to_vec() }
}

fn input(n: u32) -> Input {
    Input { psid: id(n), content: vec![1] }
}

fn message(message: impl Into<ServerMessage>) -> Event<&'static str, Source> {
    Event::Message(Some(message.into()))
}

fn started(n: u32) -> Flow {
    let message = ClientMessage::ChildStarted(ChildStarted { psid: id(n) });
    ControlFlow::Continue(Work::Announce(message))
}

fn step(server: &mut Server<&'static str>, event: Event<&'static str, Source>) -> Flow {
    assert!(server.awaits(&event));
    server.step(event)
}

fn with_children(children: &[(u32, &'static str)]) -> Server<&'static str> {
    let (mut server, work) = Server::start();
    assert_eq!(work, Work::Receive);
    for (n, child) in children {
        assert_eq!(
            step(&mut server, message(spawn(*n))),
            ControlFlow::Continue(Work::Spawn(spawn(*n)))
        );
        assert_eq!(step(&mut server, Event::Spawned(Ok(child))), started(*n));
        assert_eq!(
            step(&mut server, Event::Announced(Ok(()))),
            ControlFlow::Continue(Work::Receive)
        );
    }
    server
}

fn unable() -> child::Error<Source> {
    child::Error::UnableToRelayKillMessage
}

#[test]
fn a_spawned_child_runs_and_is_announced() {
    let server = with_children(&[(5, "a")]);
    assert_eq!(server.child(id(5)), Some(&"a"));
    assert_eq!(server.child(id(6)), None);
}

#[test]
fn a_failed_spawn_ends_the_server() {
    let mut server = with_children(&[]);
    step(&mut server, message(spawn(1)));
    assert_eq!(
        step(&mut server, Event::Spawned(Err(child::Error::ChildHasNoStdin))),
        ControlFlow::Break(Err(Error::UnableToSpawnChild {
            source: child::Error::ChildHasNoStdin
        }))
    );
    assert!(!server.awaits(&message(spawn(1))));
}

#[test]
fn a_new_child_takes_the_place_of_the_old() {
    let mut server = with_children(&[(5, "old"), (6, "other")]);
    step(&mut server, message(spawn(5)));
    assert_eq!(
        step(&mut server, Event::Spawned(Ok("new"))),
        ControlFlow::Continue(Work::ShutDown("old"))
    );
    assert_eq!(server.child(id(5)), Some(&"new"));
    assert_eq!(server.child(id(6)), Some(&"other"));
    assert_eq!(step(&mut server, Event::ShutDown(Ok(()))), started(5));
    assert_eq!(
        step(&mut server, Event::Announced(Ok(()))),
        ControlFlow::Continue(Work::Receive)
    );
}

#[test]
fn a_failed_replacement_ends_the_server() {
    let mut server = with_children(&[(5, "old")]);
    step(&mut server, message(spawn(5)));
    step(&mut server, Event::Spawned(Ok("new")));
    assert_eq!(
        step(&mut server, Event::ShutDown(Err(unable()))),
        ControlFlow::Break(Err(Error::UnableToKillReplacedChild { source: unable(), psid: id(5) }))
    );
}

#[test]
fn a_failed_announcement_ends_the_server() {
    let mut server = with_children(&[]);
    step(&mut server, message(spawn(5)));
    step(&mut server, Event::Spawned(Ok("a")));
    assert_eq!(
        step(&mut server, Event::Announced(Err(9))),
        ControlFlow::Break(Err(Error::UnableToRelayChildStartedToClient { source: 9 }))
    );
}

#[test]
fn a_killed_child_is_shut_down_and_gone() {
    let mut server = with_children(&[(5, "a"), (6, "b")]);
    assert_eq!(
        step(&mut server, message(Kill { psid: id(5) })),
        ControlFlow::Continue(Work::ShutDown("a"))
    );
    assert_eq!(server.child(id(5)), None);
    assert_eq!(server.child(id(6)), Some(&"b"));
    assert_eq!(
        step(&mut server, Event::ShutDown(Ok(()))),
        ControlFlow::Continue(Work::Receive)
    );
    assert_eq!(
        step(&mut server, message(Kill { psid: id(5) })),
        ControlFlow::Continue(Work::Receive)
    );
    assert_eq!(
        step(&mut server, message(input(5))),
        ControlFlow::Break(Err(Error::ChildNotRunning { psid: id(5) }))
    );
}

#[test]
fn a_failed_kill_ends_the_server() {
    let mut server = with_children(&[(5, "a")]);
    step(&mut server, message(Kill { psid: id(5) }));
    assert_eq!(
        step(&mut server, Event::ShutDown(Err(unable()))),
        ControlFlow::Break(Err(Error::UnableToKillChild { source: unable(), psid: id(5) }))
    );
}

#[test]
fn killing_a_child_that_has_ended_ends_the_server() {
    let (kill_tx, kill_rx) = oneshot::channel();
    drop(kill_rx);
    let ended = child::Child {
        stdin_tx: (),
        stdin_task: (),
        stdout_task: (),
        stderr_task: (),
        kill_tx: Some(kill_tx),
        child_task: (),
    };
    let (mut server, _) = Server::start();
    let _ = server.step::<u8>(Event::Message(Some(spawn(1).into())));
    let _ = server.step::<u8>(Event::Spawned(Ok(ended)));
    let _ = server.step::<u8>(Event::Announced(Ok(())));
    let shut_down = match server.step::<u8>(Event::Message(Some(Kill { psid: id(1) }.into()))) {
        ControlFlow::Continue(Work::ShutDown(child)) => child.force_shutdown::<u8>().map(|_| ()),
        other => panic!("{other:?}"),
    };
    match server.step(Event::ShutDown(shut_down)) {
        ControlFlow::Break(Err(e)) => {
            assert_eq!(e, Error::UnableToKillChild { source: unable(), psid: id(1) })
        }
        other => panic!("{other:?}"),
    }
}

#[test]
fn input_is_relayed_to_a_running_child() {
    let mut server = with_children(&[(5, "a")]);
    assert_eq!(
        step(&mut server, message(input(5))),
        ControlFlow::Continue(Work::Relay(input(5)))
    );
    assert_eq!(
        step(&mut server, Event::Relayed(Ok(()))),
        ControlFlow::Continue(Work::Receive)
    );
    assert_eq!(server.child(id(5)), Some(&"a"));
    step(&mut server, message(input(5)));
    let source = || child::Error::UnableToRelayInputMessageFromClient { source: 3 };
    assert_eq!(
        step(&mut server, Event::Relayed(Err(source()))),
        ControlFlow::Break(Err(Error::UnableToRelayInputToChild { source: source() }))
    );
}

#[test]
fn input_for_an_unknown_child_ends_the_server() {
    let mut server = with_children(&[(5, "a")]);
    assert_eq!(
        step(&mut server, message(input(6))),
        ControlFlow::Break(Err(Error::ChildNotRunning { psid: id(6) }))
    );
}

#[test]
fn the_end_of_the_client_drains_the_children_in_order() {
    let mut server = with_children(&[(300, "c"), (2, "b"), (0, "a"), (u32::MAX, "d")]);
    assert_eq!(
        step(&mut server, Event::Message(None)),
        ControlFlow::Continue(Work::Drain(vec!["a", "b", "c", "d"]))
    );
    assert_eq!(server.child(id(2)), None);
    assert_eq!(
        step(&mut server, Event::Drained(drained(vec![Ok(()), Ok(()), Ok(()), Ok(())]))),
        ControlFlow::Break(Ok(()))
    );
}

#[test]
fn only_the_awaited_outcome_is_awaited() {
    let mut server = with_children(&[(1, "a")]);
    assert!(!server.awaits(&Event::<_, Source>::Spawned(Ok("b"))));
    assert!(!server.awaits(&Event::<_, Source>::ShutDown(Ok(()))));
    assert!(server.awaits(&Event::<_, Source>::Message(None)));
    step(&mut server, message(spawn(1)));
    assert!(!server.awaits(&Event::<_, Source>::Message(None)));
    assert!(server.awaits(&Event::<_, Source>::Spawned(Ok("b"))));
}

fn drained(children: Vec<Result<(), child::Error<Source>>>) -> Drained<Source> {
    Drained { children, stdout_task: Ok(Ok(())), stdin_task: Ok(Ok(())) }
}

#[test]
fn draining_reports_the_first_failure() {
    assert_eq!(drain_result(drained(vec![])), Ok(()));
    let one = || child::Error::UnableToJoinChildTask { source: 1 };
    let all = Drained {
        children: vec![Ok(()), Err(one()), Err(unable())],
        stdout_task: Err(2),
        stdin_task: Err(3),
    };
    assert_eq!(drain_result(all), Err(Error::UnableToShutdownChild { source: one() }));
    let ok = || drained(vec![Ok(())]);
    assert_eq!(
        drain_result(Drained { stdout_task: Err(2), stdin_task: Err(3), ..ok() }),
        Err(Error::UnableToJoinStdoutTask { source: 2 })
    );
    let flush = || Error::UnableToFlushClientMessage { source: 4 };
    assert_eq!(
        drain_result(Drained { stdout_task: Ok(Err(flush())), stdin_task: Err(3), ..ok() }),
        Err(flush())
    );
    assert_eq!(
        drain_result(Drained { stdin_task: Err(3), ..ok() }),
        Err(Error::UnableToJoinStdinTask { source: 3 })
    );
    let decode = || Error::UnableToDecodeServerMessage { source: 5 };
    assert_eq!(
        drain_result(Drained { stdin_task: Ok(Err(decode())), ..ok() }),
        Err(decode())
    );
}

#[test]
fn a_kill_of_nothing_is_ignored() {
    assert_eq!(maybe_kill::<u8>(None), ControlFlow::Break(false));
    assert_eq!(maybe_kill(Some(4)), ControlFlow::Continue(4));
    assert_eq!(killed::<Source>(Ok(())), Ok(true));
    assert_eq!(killed(Err(unable())), Err(unable()));
}

#[test]
fn children_are_kept_by_id() {
    let mut children = Children::new();
    assert_eq!(children.insert(id(4), 'a'), None);
    assert_eq!(children.insert(id(4), 'b'), Some('a'));
    assert_eq!(children.get(id(4)), Some(&'b'));
    assert_eq!(children.remove(id(4)), Some('b'));
    assert_eq!(children.remove(id(4)), None);
    children.insert(id(9), 'y');
    children.insert(id(3), 'x');
    assert_eq!(children.take_all(), vec!['x', 'y']);
    assert_eq!(children.get(id(9)), None);
}

#[test]
fn stdin_task_steps() {
    assert_eq!(
        stdin_step::<u8>(ReadEvent::Decoded(Ok(spawn(1).into()))),
        ControlFlow::Continue(ReadWork::Relay(spawn(1).into()))
    );
    assert_eq!(
        stdin_step::<u8>(ReadEvent::Relayed(Ok(()))),
        ControlFlow::Continue(ReadWork::Decode)
    );
    let end = DecodeError::InvalidMarkerRead { kind: ReadErrorKind::UnexpectedEof, source: 1 };
    assert_eq!(stdin_step(ReadEvent::Decoded(Err(end))), ControlFlow::Break(Ok(())));
    assert_eq!(
        stdin_step(ReadEvent::Decoded(Err(DecodeError::Other { source: 2 }))),
        ControlFlow::Break(Err(Error::UnableToDecodeServerMessage { source: 2 }))
    );
    assert_eq!(
        stdin_step(ReadEvent::Relayed(Err(3))),
        ControlFlow::Break(Err(Error::UnableToSendServerMessage { source: 3 }))
    );
}

#[test]
fn stdout_task_steps() {
    let message = || ClientMessage::from(ChildStarted { psid: id(1) });
    assert_eq!(
        stdout_step::<u8>(WriteEvent::Received(Some(message()))),
        ControlFlow::Continue(WriteWork::Write(message()))
    );
    assert_eq!(stdout_step::<u8>(WriteEvent::Received(None)), ControlFlow::Break(Ok(())));
    assert_eq!(
        stdout_step::<u8>(WriteEvent::Written(Ok(()))),
        ControlFlow::Continue(WriteWork::Flush)
    );
    assert_eq!(
        stdout_step(WriteEvent::Written(Err(1))),
        ControlFlow::Break(Err(Error::UnableToEncodeClientMessage { source: 1 }))
    );
    assert_eq!(
        stdout_step::<u8>(WriteEvent::Flushed(Ok(()))),
        ControlFlow::Continue(WriteWork::Receive)
    );
    assert_eq!(
        stdout_step(WriteEvent::Flushed(Err(2))),
        ControlFlow::Break(Err(Error::UnableToFlushClientMessage { source: 2 }))
    );
}

#[test]
fn commands_are_shown_as_text() {
    assert_eq!(display_command(b"cat"), "cat");
    assert_eq!(display_command("k\u{e4}tzchen".as_bytes()), "k\u{e4}tzchen");
    assert_eq!(display_command(b""), "");
    assert_eq!(display_command(&[b'c', 0xff]), "<non-UTF-8 command>");
}

/// Runs a server on the given messages, with children named by the order of their start, and
/// returns the children that were shut down, the ids that were announced and the server.
fn run_all(messages: Vec<Option<ServerMessage>>) -> (Vec<usize>, Vec<u32>, Server<usize>) {
    let (mut server, mut work) = Server::<usize>::start();
    let mut messages = messages.into_iter();
    let (mut shut_down, mut announced, mut children) = (vec![], vec![], 0);
    loop {
        let event: Event<usize, Source> = match work {
            Work::Receive => match messages.next() {
                Some(message) => Event::Message(message),
                None => return (shut_down, announced, server),
            },
            Work::Spawn(_) => {
                children += 1;
                Event::Spawned(Ok(children - 1))
            }
            Work::ShutDown(child) => {
                shut_down.push(child);
                Event::ShutDown(Ok(()))
            }
            Work::Announce(ClientMessage::ChildStarted(ChildStarted { psid })) => {
                announced.push(psid.0);
                Event::Announced(Ok(()))
            }
            Work::Announce(other) => panic!("{other:?}"),
            Work::Relay(_) => Event::Relayed(Ok(())),
            Work::Drain(children) => {
                let results = children.iter().map(|_| Ok(())).collect();
                shut_down.extend(children);
                Event::Drained(drained(results))
            }
        };
        assert!(server.awaits(&event));
        match server.step(event) {
            ControlFlow::Continue(next) => work = next,
            ControlFlow::Break(end) => {
                assert_eq!(end, Ok(()));
                return (shut_down, announced, server);
            }
        }
    }
}

fn some(message: impl Into<ServerMessage>) -> Option<ServerMessage> {
    Some(message.into())
}

#[test]
fn every_child_is_shut_down_once() {
    let (mut shut_down, announced, _) = run_all(vec![
        some(spawn(7)),
        some(spawn(3)),
        some(input(7)),
        some(spawn(7)),
        some(Kill { psid: id(9) }),
        some(Kill { psid: id(3) }),
        some(spawn(1)),
        some(input(1)),
        None,
    ]);
    assert_eq!(announced, vec![7, 3, 7, 1]);
    assert_eq!(shut_down, vec![0, 1, 3, 2]);
    shut_down.sort();
    assert_eq!(shut_down, vec![0, 1, 2, 3]);
}

#[test]
fn children_run_until_they_are_killed() {
    let (shut_down, _, server) = run_all(vec![
        some(spawn(7)),
        some(spawn(3)),
        some(spawn(5)),
        some(Kill { psid: id(3) }),
    ]);
    assert_eq!(shut_down, vec![1]);
    assert_eq!(server.child(id(7)), Some(&0));
    assert_eq!(server.child(id(3)), None);
    assert_eq!(server.child(id(5)), Some(&2));
}

#[test]
fn server_failures_have_their_text() {
    let text = |e: Error<u8>| e.to_text("why");
    let nested = || child::Error::UnableToWaitForChild { source: 1 };
    assert_eq!(
        text(Error::UnableToDecodeServerMessage { source: 1 }),
        "Could not decode the message from the client"
    );
    assert_eq!(
        text(Error::UnableToSendServerMessage { source: 1 }),
        "Could not transmit the client's message to core loop"
    );
    assert_eq!(
        text(Error::UnableToEncodeClientMessage { source: 1 }),
        "Could not encode the message to the client"
    );
    assert_eq!(
        text(Error::UnableToFlushClientMessage { source: 1 }),
        "Could not flush message to the client"
    );
    assert_eq!(
        text(Error::ChildNotRunning { psid: id(12) }),
        "The child is not currently running (PSID<12>)"
    );
    assert_eq!(
        text(Error::UnableToKillReplacedChild { source: nested(), psid: id(3) }),
        "Could not kill the child process being replaced (PSID<3>)"
    );
    assert_eq!(
        text(Error::UnableToKillChild { source: nested(), psid: id(3) }),
        "Could not kill the currently-running child process (PSID<3>)"
    );
    assert_eq!(
        text(Error::UnableToShutdownChild { source: nested() }),
        "UnableToShutdownChild: UnableToWaitForChild: why"
    );
    assert_eq!(
        text(Error::UnableToSpawnChild { source: child::Error::ChildHasNoStdin }),
        "UnableToSpawnChild: The child has no stdin handle"
    );
    assert_eq!(
        text(Error::UnableToRelayChildStartedToClient { source: 1 }),
        "UnableToRelayChildStartedToClient: why"
    );
    assert_eq!(
        text(Error::UnableToRelayInputToChild {
            source: child::Error::UnableToRelayInputMessageFromClient { source: 1 }
        }),
        "UnableToRelayInputToChild: Could not relay input to the child"
    );
    assert_eq!(
        text(Error::UnableToJoinStdinTask { source: 1 }),
        "Could not join to the stdin task"
    );
    assert_eq!(
        text(Error::UnableToJoinStdoutTask { source: 1 }),
        "Could not join to the stdout task"
    );
}

#[test]
fn server_failures_know_what_is_behind_them() {
    assert_eq!(Error::UnableToJoinStdinTask { source: 2 }.outside_source(), Some(&2));
    assert_eq!(Error::<u8>::ChildNotRunning { psid: id(1) }.outside_source(), None);
    let source = child::Error::UnableToWaitForChild { source: 3 };
    assert_eq!(Error::UnableToKillChild { source, psid: id(1) }.outside_source(), Some(&3));
    let source: child::Error<u8> = child::Error::UnableToRelayKillMessage;
    assert_eq!(Error::UnableToShutdownChild { source }.outside_source(), None);
}
