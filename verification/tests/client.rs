use providence::client::{
    delivery_step, greeting, rx_from_server_step, send_result, server_request, session_start,
    session_step, show, shutdown_result, tx_to_server_step, Client, Error, Handles, JoinedTasks,
    ServerProcess, SessionEvent, SessionWork,
};
use providence::messages::{
    ChildStarted, ChildStopped, ClientMessage, Input, Kill, Output, ProcessSequenceId,
    ServerMessage, Spawn,
};
use providence::process::{Connection, StartRequest};
use providence::wire::{DecodeError, ReadErrorKind, ReadEvent, ReadWork, WriteEvent, WriteWork};
use std::ops::ControlFlow;
use tokio::sync::mpsc;

type TestClient = Client<&'static str, u8, char>;

fn id(n: u32) -> ProcessSequenceId {
    ProcessSequenceId::new(n)
}

type Started = Result<ServerProcess<&'static str, i8, i16>, &'static str>;

fn spawn(started: Started) -> Result<(TestClient, bool), Error<&'static str>> {
    Client::spawn(
        |request| {
            assert_eq!(request, server_request());
            started
        },
        |stdin: i8, stdout: i16| {
            assert_eq!((stdin, stdout), (1, 2));
            Handles {
                tx_to_server: 3,
                tx_to_server_task: 't',
                rx_from_server: true,
                rx_from_server_task: 'r',
            }
        },
    )
}

fn process(stdin: Option<i8>, stdout: Option<i16>) -> Started {
    Ok(ServerProcess { server: "server", stdin, stdout })
}

#[test]
fn the_server_is_run_by_cargo() {
    assert_eq!(
        server_request(),
        StartRequest {
            program: b"cargo".to_vec(),
            args: vec![b"run".to_vec(), b"server".to_vec()],
            stdin: Connection::Piped,
            stdout: Connection::Piped,
            stderr: Connection::Inherited,
        }
    );
}

#[test]
fn client_attaches_both_pipes() {
    let (client, receiver) = spawn(process(Some(1), Some(2))).unwrap();
    assert_eq!((client.server, client.tx_to_server), ("server", 3));
    assert_eq!((client.tx_to_server_task, client.rx_from_server_task), ('t', 'r'));
    assert!(receiver);
}

#[test]
fn client_says_why_there_is_none() {
    assert_eq!(spawn(process(None, None)).unwrap_err(), Error::ServerHasNoStdin);
    assert_eq!(spawn(process(Some(1), None)).unwrap_err(), Error::ServerHasNoStdout);
    assert_eq!(spawn(Err("gone")).unwrap_err(), Error::UnableToSpawnServer { source: "gone" });
}

#[test]
fn requests_are_sent_as_messages() {
    let (client, _) = spawn(process(Some(1), Some(2))).unwrap();
    let (to, message) = client.send(Kill { psid: id(3) });
    assert_eq!((*to, message), (3, ServerMessage::Kill(Kill { psid: id(3) })));
    assert_eq!(send_result::<u8>(Ok(())), Ok(()));
    assert_eq!(send_result(Err(1)), Err(Error::UnableToRelayMessageToServer { source: 1 }));
}

#[test]
fn client_shutdown_leaves_the_tasks() {
    let (client, _) = spawn(process(Some(1), Some(2))).unwrap();
    let tasks = client.shutdown();
    assert_eq!(tasks.server, "server");
    assert_eq!((tasks.rx_from_server_task, tasks.tx_to_server_task), ('r', 't'));
}

#[test]
fn client_shutdown_reports_the_first_failure() {
    let ok = || JoinedTasks {
        server: Ok(()),
        rx_from_server_task: Ok(Ok(())),
        tx_to_server_task: Ok(Ok(())),
    };
    assert_eq!(shutdown_result::<u8>(ok()), Ok(()));
    assert_eq!(
        shutdown_result(JoinedTasks {
            server: Err(1),
            rx_from_server_task: Err(2),
            tx_to_server_task: Err(3),
        }),
        Err(Error::UnableToWaitForServer { source: 1 })
    );
    assert_eq!(
        shutdown_result(JoinedTasks {
            rx_from_server_task: Err(2),
            tx_to_server_task: Err(3),
            ..ok()
        }),
        Err(Error::UnableToJoinRxFromServerTask { source: 2 })
    );
    let decode = || Error::UnableToDecodeMessageFromServer { source: 4 };
    assert_eq!(
        shutdown_result(JoinedTasks { rx_from_server_task: Ok(Err(decode())), ..ok() }),
        Err(decode())
    );
    assert_eq!(
        shutdown_result(JoinedTasks { tx_to_server_task: Err(3), ..ok() }),
        Err(Error::UnableToJoinTxToServerTask { source: 3 })
    );
    let flush = || Error::UnableToFlushMessageToServer { source: 5 };
    assert_eq!(
        shutdown_result(JoinedTasks { tx_to_server_task: Ok(Err(flush())), ..ok() }),
        Err(flush())
    );
}

#[test]
fn rx_from_server_task_steps() {
    let message = || ClientMessage::from(ChildStarted { psid: id(1) });
    assert_eq!(
        rx_from_server_step::<u8>(ReadEvent::Decoded(Ok(message()))),
        ControlFlow::Continue(ReadWork::Relay(message()))
    );
    assert_eq!(
        rx_from_server_step::<u8>(ReadEvent::Relayed(Ok(()))),
        ControlFlow::Continue(ReadWork::Decode)
    );
    let end = DecodeError::InvalidMarkerRead { kind: ReadErrorKind::UnexpectedEof, source: 1 };
    assert_eq!(rx_from_server_step(ReadEvent::Decoded(Err(end))), ControlFlow::Break(Ok(())));
    let other = DecodeError::InvalidMarkerRead { kind: ReadErrorKind::Other, source: 1 };
    assert_eq!(
        rx_from_server_step(ReadEvent::Decoded(Err(other))),
        ControlFlow::Break(Err(Error::UnableToDecodeMessageFromServer { source: 1 }))
    );
    assert_eq!(
        rx_from_server_step(ReadEvent::Relayed(Err(2))),
        ControlFlow::Break(Err(Error::UnableToRelayMessageFromServer { source: 2 }))
    );
}

#[test]
fn tx_to_server_task_steps() {
    let message = || ServerMessage::from(Kill { psid: id(1) });
    assert_eq!(
        tx_to_server_step::<u8>(WriteEvent::Received(Some(message()))),
        ControlFlow::Continue(WriteWork::Write(message()))
    );
    assert_eq!(tx_to_server_step::<u8>(WriteEvent::Received(None)), ControlFlow::Break(Ok(())));
    assert_eq!(
        tx_to_server_step::<u8>(WriteEvent::Written(Ok(()))),
        ControlFlow::Continue(WriteWork::Flush)
    );
    assert_eq!(
        tx_to_server_step(WriteEvent::Written(Err(1))),
        ControlFlow::Break(Err(Error::UnableToEncodeMessageToServer { source: 1 }))
    );
    assert_eq!(
        tx_to_server_step::<u8>(WriteEvent::Flushed(Ok(()))),
        ControlFlow::Continue(WriteWork::Receive)
    );
    assert_eq!(
        tx_to_server_step(WriteEvent::Flushed(Err(2))),
        ControlFlow::Break(Err(Error::UnableToFlushMessageToServer { source: 2 }))
    );
}

#[test]
fn a_client_shutdown_keeps_accepted_requests() {
    let (tx_to_server, mut rx) = mpsc::channel(10);
    let client = Client { server: 's', tx_to_server, tx_to_server_task: 1, rx_from_server_task: 2 };
    let messages = || greeting(id(0)).into_iter().chain([Kill { psid: id(0) }.into()]);
    for message in messages() {
        let (to, message) = client.send(message);
        to.try_send(message).unwrap();
    }
    let tasks = client.shutdown();
    assert_eq!((tasks.server, tasks.rx_from_server_task, tasks.tx_to_server_task), ('s', 2, 1));

    let mut written: Vec<ServerMessage> = vec![];
    let mut flushes = 0;
    let mut work = WriteWork::Receive;
    let end: Result<(), Error<u8>> = loop {
        let event = match work {
            WriteWork::Receive => WriteEvent::Received(rx.blocking_recv()),
            WriteWork::Write(message) => {
                written.push(message);
                WriteEvent::Written(Ok(()))
            }
            WriteWork::Flush => {
                flushes += 1;
                WriteEvent::Flushed(Ok(()))
            }
        };
        match tx_to_server_step(event) {
            ControlFlow::Continue(next) => work = next,
            ControlFlow::Break(end) => break end,
        }
    };
    assert_eq!(written, messages().collect::<Vec<_>>());
    assert_eq!(flushes, 3);
    let joined = JoinedTasks {
        server: Ok(()),
        rx_from_server_task: Ok(Ok(())),
        tx_to_server_task: Ok(end),
    };
    assert_eq!(shutdown_result(joined), Ok(()));
}

#[test]
fn messages_are_shown() {
    assert_eq!(
        show(&ClientMessage::from(ChildStarted { psid: id(0) })).unwrap(),
        "[PSID<0>] child started\n"
    );
    assert_eq!(
        show(&ClientMessage::from(ChildStopped { psid: id(12) })).unwrap(),
        "[PSID<12>] child stopped\n"
    );
    assert_eq!(
        show(&ClientMessage::from(Output::stdout(id(1), b"hi\n".to_vec()))).unwrap(),
        "[PSID<1>]> hi\n"
    );
    assert_eq!(
        show(&ClientMessage::from(Output::stderr(id(1), b"oops".to_vec()))).unwrap(),
        "[PSID<1>]> "
    );
    assert_eq!(show(&ClientMessage::from(Output::stdout(id(1), vec![0xc3]))), None);
}

#[test]
fn a_greeting_starts_a_process_and_says_hello() {
    assert_eq!(
        greeting(id(1)),
        vec![
            ServerMessage::Spawn(Spawn { psid: id(1), command: b"cat".to_vec() }),
            ServerMessage::Input(Input { psid: id(1), content: b"hello from PSID<1>\n".to_vec() }),
        ]
    );
}

#[test]
fn a_session_greets_rests_kills_and_shuts_down() {
    assert_eq!(session_start(), SessionWork::Greet(vec![greeting(id(0)), greeting(id(1))]));
    assert_eq!(
        session_step::<u8>(SessionEvent::Greeted(vec![Ok(()), Ok(())])),
        ControlFlow::Continue(SessionWork::Rest(333))
    );
    assert_eq!(
        session_step::<u8>(SessionEvent::Rested),
        ControlFlow::Continue(SessionWork::Kill(vec![Kill { psid: id(0) }, Kill { psid: id(1) }]))
    );
    assert_eq!(
        session_step::<u8>(SessionEvent::Killed(vec![Ok(()), Ok(())])),
        ControlFlow::Continue(SessionWork::ShutDown)
    );
    assert_eq!(session_step::<u8>(SessionEvent::ShutDown(Ok(()))), ControlFlow::Break(Ok(())));
}

#[test]
fn a_session_ends_with_the_first_failure() {
    let e = |source| Error::UnableToRelayMessageToServer { source };
    assert_eq!(
        session_step(SessionEvent::Greeted(vec![Ok(()), Err(e(1))])),
        ControlFlow::Break(Err(e(1)))
    );
    assert_eq!(
        session_step(SessionEvent::Killed(vec![Err(e(2)), Err(e(3))])),
        ControlFlow::Break(Err(e(2)))
    );
    assert_eq!(
        session_step(SessionEvent::ShutDown(Err(e(4)))),
        ControlFlow::Break(Err(e(4)))
    );
}

/// Sends messages one after the other, as long as fewer than `limit` were sent.
fn deliver(
    messages: Vec<ServerMessage>,
    limit: usize,
) -> (Vec<ServerMessage>, Result<(), Error<u8>>) {
    let mut sent = vec![];
    let mut flow = delivery_step(Ok(()), messages);
    loop {
        match flow {
            ControlFlow::Continue((message, rest)) => {
                let result = if sent.len() < limit {
                    sent.push(message);
                    Ok(())
                } else {
                    Err(Error::UnableToRelayMessageToServer { source: 7 })
                };
                flow = delivery_step(result, rest);
            }
            ControlFlow::Break(end) => return (sent, end),
        }
    }
}

#[test]
fn messages_are_delivered_in_order() {
    assert_eq!(deliver(greeting(id(1)), 2), (greeting(id(1)), Ok(())));
    assert_eq!(deliver(vec![], 0), (vec![], Ok(())));
}

#[test]
fn delivery_stops_at_a_failure() {
    let failure = || Err(Error::UnableToRelayMessageToServer { source: 7 });
    assert_eq!(deliver(greeting(id(1)), 0), (vec![], failure()));
    let first = ServerMessage::Spawn(Spawn { psid: id(1), command: b"cat".to_vec() });
    assert_eq!(deliver(greeting(id(1)), 1), (vec![first], failure()));
}

#[test]
fn client_failures_have_their_text() {
    let text = |e: Error<u8>| e.to_text("why");
    assert_eq!(
        text(Error::UnableToSpawnServer { source: 1 }),
        "Could not spawn the server process"
    );
    assert_eq!(text(Error::ServerHasNoStdin), "Server process has no stdin");
    assert_eq!(text(Error::ServerHasNoStdout), "Server process has no stdout");
    assert_eq!(
        text(Error::UnableToDecodeMessageFromServer { source: 1 }),
        "Could not decode message from the server"
    );
    assert_eq!(
        text(Error::UnableToRelayMessageFromServer { source: 1 }),
        "Could not relay message from the server"
    );
    assert_eq!(
        text(Error::UnableToEncodeMessageToServer { source: 1 }),
        "Could not encode message to the server"
    );
    assert_eq!(
        text(Error::UnableToFlushMessageToServer { source: 1 }),
        "Could not flush message to the server"
    );
    assert_eq!(
        text(Error::UnableToRelayMessageToServer { source: 1 }),
        "Could not relay message to the server"
    );
    assert_eq!(text(Error::UnableToWaitForServer { source: 1 }), "UnableToWaitForServer: why");
    assert_eq!(
        text(Error::UnableToJoinRxFromServerTask { source: 1 }),
        "Could not join the task responsible for receiving messages from the server"
    );
    assert_eq!(
        text(Error::UnableToJoinTxToServerTask { source: 1 }),
        "Could not join the task responsible for sending messages to the server"
    );
}

#[test]
fn client_failures_know_what_is_behind_them() {
    assert_eq!(Error::UnableToWaitForServer { source: 6 }.outside_source(), Some(&6));
    assert_eq!(Error::<u8>::ServerHasNoStdout.outside_source(), None);
}
