use relic_node::guess_socket::{step, Action, EndpointError, Event, OutFrame, Phase, REPLY_DELAY_MS};

fn text(action: &Action) -> Vec<u8> {
    match action {
        Action::Send(OutFrame::Text(bytes)) => bytes.clone(),
        _ => panic!("not a text frame"),
    }
}

fn is_finish_ok(action: &Action) -> bool {
    matches!(action, Action::Finish(Ok(())))
}

#[test]
fn new_session_is_greeted() {
    let (phase, actions) = step(8, Phase::Start, Event::Invoked { is_new: true, is_closed: false });
    assert_eq!(phase, Phase::Finished);
    assert_eq!(actions.len(), 2);
    assert_eq!(text(&actions[0]), b"Hi".to_vec());
    assert!(is_finish_ok(&actions[1]));
}

#[test]
fn closed_session_is_left_alone() {
    let (phase, actions) = step(8, Phase::Start, Event::Invoked { is_new: false, is_closed: true });
    assert_eq!(phase, Phase::Finished);
    assert_eq!(actions.len(), 1);
    assert!(is_finish_ok(&actions[0]));
}

#[test]
fn open_session_reads_the_frame_length() {
    let (phase, actions) =
        step(8, Phase::Start, Event::Invoked { is_new: false, is_closed: false });
    assert_eq!(phase, Phase::AwaitLength);
    assert_eq!(actions.len(), 1);
    assert!(matches!(actions[0], Action::ReceiveLength));
}

#[test]
fn oversized_frame_is_refused_and_closed() {
    let (phase, actions) = step(8, Phase::AwaitLength, Event::LengthReceived { len: 9 });
    assert_eq!(phase, Phase::Finished);
    assert_eq!(actions.len(), 3);
    assert_eq!(text(&actions[0]), b"Request too big".to_vec());
    assert!(matches!(actions[1], Action::Send(OutFrame::Close)));
    assert!(matches!(actions[2], Action::Finish(Err(EndpointError::RequestTooBig))));
}

#[test]
fn frame_at_the_limit_is_read_into_a_full_buffer() {
    let (phase, actions) = step(8, Phase::AwaitLength, Event::LengthReceived { len: 8 });
    assert_eq!(phase, Phase::AwaitPayload { len: 8 });
    assert_eq!(actions.len(), 1);
    assert!(matches!(actions[0], Action::ReceivePayload { capacity: 8 }));
}

#[test]
fn empty_frame_is_accepted() {
    let (phase, _) = step(8, Phase::AwaitLength, Event::LengthReceived { len: 0 });
    assert_eq!(phase, Phase::AwaitPayload { len: 0 });
    let (phase, actions) =
        step(8, Phase::AwaitPayload { len: 0 }, Event::PayloadReceived { buf: vec![0; 8] });
    assert_eq!(phase, Phase::Finished);
    assert_eq!(text(&actions[1]), b"Please enter a number between 1 and 100 ()".to_vec());
}

#[test]
fn payload_is_echoed_inside_the_prompt() {
    let mut buf = vec![0u8; 8];
    buf[..2].copy_from_slice(b"42");
    let (phase, actions) =
        step(8, Phase::AwaitPayload { len: 2 }, Event::PayloadReceived { buf });
    assert_eq!(phase, Phase::Finished);
    assert_eq!(actions.len(), 3);
    assert!(matches!(actions[0], Action::Pause { millis } if millis == REPLY_DELAY_MS));
    assert_eq!(REPLY_DELAY_MS, 1000);
    assert_eq!(text(&actions[1]), b"Please enter a number between 1 and 100 (42)".to_vec());
    assert!(is_finish_ok(&actions[2]));
}

#[test]
fn multibyte_text_is_echoed_unchanged() {
    let word = "né€".as_bytes().to_vec();
    let len = word.len();
    let mut buf = word.clone();
    buf.push(0);
    let (_, actions) = step(8, Phase::AwaitPayload { len }, Event::PayloadReceived { buf });
    let mut expected = b"Please enter a number between 1 and 100 (".to_vec();
    expected.extend_from_slice(&word);
    expected.push(b')');
    assert_eq!(text(&actions[1]), expected);
}

#[test]
fn invalid_utf8_gets_an_error_notice() {
    let buf = vec![0x66, 0xff, 0x6f, 0, 0, 0, 0, 0];
    let (phase, actions) =
        step(8, Phase::AwaitPayload { len: 3 }, Event::PayloadReceived { buf });
    assert_eq!(phase, Phase::Finished);
    assert_eq!(actions.len(), 2);
    assert_eq!(text(&actions[0]), b"[UTF-8 Error]".to_vec());
    assert!(is_finish_ok(&actions[1]));
}

#[test]
fn truncated_multibyte_sequence_is_invalid() {
    let euro = "€".as_bytes().to_vec();
    let (_, actions) =
        step(8, Phase::AwaitPayload { len: 2 }, Event::PayloadReceived { buf: euro });
    assert_eq!(text(&actions[0]), b"[UTF-8 Error]".to_vec());
}

#[test]
fn bytes_past_the_announced_length_are_ignored() {
    let buf = b"7\xff\xff".to_vec();
    let (_, actions) = step(8, Phase::AwaitPayload { len: 1 }, Event::PayloadReceived { buf });
    assert_eq!(text(&actions[1]), b"Please enter a number between 1 and 100 (7)".to_vec());
}

#[test]
fn whole_invocation_asks_for_each_part_once() {
    let events = vec![
        Event::Invoked { is_new: false, is_closed: false },
        Event::LengthReceived { len: 3 },
        Event::PayloadReceived { buf: b"abc\0\0\0\0\0".to_vec() },
    ];
    let mut phase = Phase::Start;
    let mut all = Vec::new();
    for event in events {
        let (next, actions) = step(8, phase, event);
        phase = next;
        all.extend(actions);
    }
    assert_eq!(phase, Phase::Finished);
    let lengths = all.iter().filter(|a| matches!(a, Action::ReceiveLength)).count();
    let payloads = all.iter().filter(|a| matches!(a, Action::ReceivePayload { .. })).count();
    assert_eq!((lengths, payloads), (1, 1));
    assert!(matches!(all[0], Action::ReceiveLength));
    assert!(matches!(all[1], Action::ReceivePayload { capacity: 8 }));
    assert!(is_finish_ok(all.last().unwrap()));
}
