use providence::results::find_failure;
use providence::wire::{
    read_step, rmp_final_read, write_step, DecodeError, ReadErrorKind, ReadEvent, ReadTaskError,
    ReadWork, WriteEvent, WriteTaskError, WriteWork,
};
use std::ops::ControlFlow;

fn marker(kind: ReadErrorKind) -> DecodeError<u8> {
    DecodeError::InvalidMarkerRead { kind, source: 7 }
}

#[test]
fn a_message_goes_on() {
    assert_eq!(rmp_final_read::<i32, u8>(Ok(5)), ControlFlow::Continue(5));
}

#[test]
fn end_of_stream_at_a_marker_is_a_clean_end() {
    let end = marker(ReadErrorKind::UnexpectedEof);
    assert_eq!(rmp_final_read::<i32, u8>(Err(end)), ControlFlow::Break(Ok(())));
}

#[test]
fn other_failures_end_with_the_failure() {
    assert_eq!(
        rmp_final_read::<i32, u8>(Err(marker(ReadErrorKind::Other))),
        ControlFlow::Break(Err(marker(ReadErrorKind::Other)))
    );
    assert_eq!(
        rmp_final_read::<i32, u8>(Err(DecodeError::Other { source: 3 })),
        ControlFlow::Break(Err(DecodeError::Other { source: 3 }))
    );
}

#[test]
fn decode_errors_give_their_source_back() {
    assert_eq!(marker(ReadErrorKind::Other).into_source(), 7);
    assert_eq!(DecodeError::Other { source: 3 }.into_source(), 3);
}

#[test]
fn read_task_steps() {
    assert_eq!(
        read_step::<i32, u8>(ReadEvent::Decoded(Ok(4))),
        ControlFlow::Continue(ReadWork::Relay(4))
    );
    assert_eq!(
        read_step::<i32, u8>(ReadEvent::Relayed(Ok(()))),
        ControlFlow::Continue(ReadWork::Decode)
    );
    assert_eq!(
        read_step::<i32, u8>(ReadEvent::Decoded(Err(marker(ReadErrorKind::UnexpectedEof)))),
        ControlFlow::Break(Ok(()))
    );
    assert_eq!(
        read_step::<i32, u8>(ReadEvent::Decoded(Err(marker(ReadErrorKind::Other)))),
        ControlFlow::Break(Err(ReadTaskError::Decode(7)))
    );
    assert_eq!(
        read_step::<i32, u8>(ReadEvent::Relayed(Err(2))),
        ControlFlow::Break(Err(ReadTaskError::Relay(2)))
    );
}

#[test]
fn read_task_relays_every_message_in_order() {
    let mut stream = vec![Err(marker(ReadErrorKind::UnexpectedEof)), Ok(3), Ok(2), Ok(1)];
    let mut relayed = vec![];
    let mut work = ReadWork::Decode;
    let end = loop {
        let event = match work {
            ReadWork::Decode => ReadEvent::Decoded(stream.pop().unwrap()),
            ReadWork::Relay(message) => {
                relayed.push(message);
                ReadEvent::Relayed(Ok(()))
            }
        };
        match read_step(event) {
            ControlFlow::Continue(next) => work = next,
            ControlFlow::Break(end) => break end,
        }
    };
    assert_eq!(relayed, vec![1, 2, 3]);
    assert_eq!(end, Ok(()));
}

#[test]
fn write_task_steps() {
    assert_eq!(
        write_step::<i32, u8>(WriteEvent::Received(Some(4))),
        ControlFlow::Continue(WriteWork::Write(4))
    );
    assert_eq!(
        write_step::<i32, u8>(WriteEvent::Received(None)),
        ControlFlow::Break(Ok(()))
    );
    assert_eq!(
        write_step::<i32, u8>(WriteEvent::Written(Ok(()))),
        ControlFlow::Continue(WriteWork::Flush)
    );
    assert_eq!(
        write_step::<i32, u8>(WriteEvent::Written(Err(8))),
        ControlFlow::Break(Err(WriteTaskError::Write(8)))
    );
    assert_eq!(
        write_step::<i32, u8>(WriteEvent::Flushed(Ok(()))),
        ControlFlow::Continue(WriteWork::Receive)
    );
    assert_eq!(
        write_step::<i32, u8>(WriteEvent::Flushed(Err(9))),
        ControlFlow::Break(Err(WriteTaskError::Flush(9)))
    );
}

#[test]
fn write_task_flushes_each_message() {
    let mut channel = vec![None, Some('b'), Some('a')];
    let mut log = String::new();
    let mut work = WriteWork::Receive;
    let end: Result<(), WriteTaskError<u8>> = loop {
        let event = match work {
            WriteWork::Receive => WriteEvent::Received(channel.pop().unwrap()),
            WriteWork::Write(message) => {
                log.push(message);
                WriteEvent::Written(Ok(()))
            }
            WriteWork::Flush => {
                log.push('!');
                WriteEvent::Flushed(Ok(()))
            }
        };
        match write_step(event) {
            ControlFlow::Continue(next) => work = next,
            ControlFlow::Break(end) => break end,
        }
    };
    assert_eq!(log, "a!b!");
    assert_eq!(end, Ok(()));
}

#[test]
fn write_task_ends_at_a_failure() {
    let run = |written: [Result<(), u8>; 3], flushed: [Result<(), u8>; 3]| {
        let mut channel = vec![None, Some('c'), Some('b'), Some('a')];
        let (mut writes, mut flushes) = (written.into_iter(), flushed.into_iter());
        let mut log = String::new();
        let mut work = WriteWork::Receive;
        let end = loop {
            let event = match work {
                WriteWork::Receive => WriteEvent::Received(channel.pop().unwrap()),
                WriteWork::Write(message) => {
                    log.push(message);
                    WriteEvent::Written(writes.next().unwrap())
                }
                WriteWork::Flush => {
                    log.push('!');
                    WriteEvent::Flushed(flushes.next().unwrap())
                }
            };
            match write_step(event) {
                ControlFlow::Continue(next) => work = next,
                ControlFlow::Break(end) => break end,
            }
        };
        (log, end)
    };
    let fine = [Ok(()), Ok(()), Ok(())];
    let second = [Ok(()), Err(7), Ok(())];
    assert_eq!(run(fine, fine), ("a!b!c!".to_string(), Ok(())));
    assert_eq!(run(second, fine), ("a!b".to_string(), Err(WriteTaskError::Write(7))));
    assert_eq!(run(fine, second), ("a!b!".to_string(), Err(WriteTaskError::Flush(7))));
}

#[test]
fn the_first_failure_is_found() {
    assert_eq!(find_failure::<u8>(vec![]), None);
    assert_eq!(find_failure::<u8>(vec![Ok(()), Ok(())]), None);
    assert_eq!(find_failure(vec![Ok(()), Err(1), Ok(()), Err(2)]), Some(1));
    assert_eq!(find_failure(vec![Err(4), Err(5)]), Some(4));
}

#[test]
fn messages_cross_a_stream() {
    let mut channel = vec![None, Some(3), Some(2), Some(1)];
    let mut stream = vec![];
    let mut work = WriteWork::Receive;
    let end: Result<(), WriteTaskError<u8>> = loop {
        let event = match work {
            WriteWork::Receive => WriteEvent::Received(channel.pop().unwrap()),
            WriteWork::Write(message) => {
                stream.push(message);
                WriteEvent::Written(Ok(()))
            }
            WriteWork::Flush => WriteEvent::Flushed(Ok(())),
        };
        match write_step(event) {
            ControlFlow::Continue(next) => work = next,
            ControlFlow::Break(end) => break end,
        }
    };
    assert_eq!(end, Ok(()));

    let mut stream = stream.into_iter();
    let mut relayed = vec![];
    let mut work = ReadWork::Decode;
    let end = loop {
        let event = match work {
            ReadWork::Decode => ReadEvent::Decoded(
                stream.next().ok_or_else(|| marker(ReadErrorKind::UnexpectedEof)),
            ),
            ReadWork::Relay(message) => {
                relayed.push(message);
                ReadEvent::Relayed(Ok(()))
            }
        };
        match read_step(event) {
            ControlFlow::Continue(next) => work = next,
            ControlFlow::Break(end) => break end,
        }
    };
    assert_eq!(end, Ok(()));
    assert_eq!(relayed, vec![1, 2, 3]);
}
