use providence::messages::{
    ChildStarted, ChildStopped, ClientMessage, Input, Kill, Output, ProcessSequenceId,
    ServerMessage, Spawn,
};

#[test]
fn ids_are_written_with_their_number() {
    assert_eq!(ProcessSequenceId::new(0).to_string(), "PSID<0>");
    assert_eq!(ProcessSequenceId::new(7).to_string(), "PSID<7>");
    assert_eq!(ProcessSequenceId::new(10).to_string(), "PSID<10>");
    assert_eq!(ProcessSequenceId::new(90807).to_string(), "PSID<90807>");
    assert_eq!(ProcessSequenceId::new(u32::MAX).to_string(), "PSID<4294967295>");
}

#[test]
fn every_digit_is_written() {
    assert_eq!(ProcessSequenceId::new(1234567890).to_string(), "PSID<1234567890>");
}

#[test]
fn ids_are_ordered_by_their_number() {
    assert!(ProcessSequenceId::new(2) < ProcessSequenceId::new(10));
    assert!(ProcessSequenceId::new(u32::MAX) > ProcessSequenceId::new(0));
    assert!(ProcessSequenceId::new(4) <= ProcessSequenceId::new(4));
    assert_eq!(
        ProcessSequenceId::new(7).partial_cmp(&ProcessSequenceId::new(7)),
        Some(std::cmp::Ordering::Equal)
    );
    assert_eq!(
        ProcessSequenceId::new(7).cmp(&ProcessSequenceId::new(8)),
        std::cmp::Ordering::Less
    );
    assert_eq!(ProcessSequenceId::new(3), ProcessSequenceId::new(3));
}

#[test]
fn different_ids_are_written_differently() {
    let texts: Vec<String> = (0..300).map(|id| ProcessSequenceId::new(id).to_string()).collect();
    for (i, a) in texts.iter().enumerate() {
        for b in &texts[i + 1..] {
            assert_ne!(a, b);
        }
    }
}

#[test]
fn output_fills_one_stream() {
    let psid = ProcessSequenceId::new(4);
    let out = Output::stdout(psid, vec![1, 2]);
    assert_eq!((out.psid, out.stdout, out.stderr), (psid, vec![1, 2], vec![]));
    let err = Output::stderr(psid, vec![3]);
    assert_eq!((err.psid, err.stdout, err.stderr), (psid, vec![], vec![3]));
}

#[test]
fn requests_become_messages() {
    let psid = ProcessSequenceId::new(1);
    assert_eq!(
        ServerMessage::from(Spawn { psid, command: b"cat".to_vec() }),
        ServerMessage::Spawn(Spawn { psid, command: b"cat".to_vec() })
    );
    assert_eq!(ServerMessage::from(Kill { psid }), ServerMessage::Kill(Kill { psid }));
    assert_eq!(
        ServerMessage::from(Input { psid, content: vec![9] }),
        ServerMessage::Input(Input { psid, content: vec![9] })
    );
}

#[test]
fn reports_become_messages() {
    let psid = ProcessSequenceId::new(1);
    assert_eq!(
        ClientMessage::from(ChildStarted { psid }),
        ClientMessage::ChildStarted(ChildStarted { psid })
    );
    assert_eq!(
        ClientMessage::from(ChildStopped { psid }),
        ClientMessage::ChildStopped(ChildStopped { psid })
    );
    assert_eq!(
        ClientMessage::from(Output::stdout(psid, vec![5])),
        ClientMessage::Output(Output { psid, stdout: vec![5], stderr: vec![] })
    );
}
