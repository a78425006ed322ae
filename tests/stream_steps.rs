use tiki_terminal::stream::{exit_event, next_action, StreamAction, StreamEnd, StreamEvent};

fn id() -> String {
    "s1".to_string()
}

#[test]
fn data_is_decoded_into_an_output_event() {
    match next_action(&id(), StreamEvent::Data(b"hi\r\n".to_vec())) {
        StreamAction::Emit(ev) => {
            assert_eq!(ev.id, "s1");
            assert_eq!(ev.data, "hi\r\n");
        }
        _ => panic!("expected an output event"),
    }
}

#[test]
fn invalid_utf8_is_replaced() {
    match next_action(&id(), StreamEvent::Data(vec![b'a', 0xff, b'b'])) {
        StreamAction::Emit(ev) => assert_eq!(ev.data, "a\u{FFFD}b"),
        _ => panic!("expected an output event"),
    }
}

#[test]
fn end_of_file_closes_the_stream() {
    match next_action(&id(), StreamEvent::Data(Vec::new())) {
        StreamAction::Finish(end) => assert_eq!(end, StreamEnd::Closed),
        _ => panic!("expected the end of the stream"),
    }
}

#[test]
fn read_failure_closes_the_stream() {
    match next_action(&id(), StreamEvent::ReadFailed) {
        StreamAction::Finish(end) => assert_eq!(end, StreamEnd::Closed),
        _ => panic!("expected the end of the stream"),
    }
}

#[test]
fn would_block_pauses() {
    assert!(matches!(next_action(&id(), StreamEvent::WouldBlock), StreamAction::Pause));
}

#[test]
fn stop_signal_stops_without_exit() {
    match next_action(&id(), StreamEvent::StopSignal) {
        StreamAction::Finish(end) => assert_eq!(end, StreamEnd::Stopped),
        _ => panic!("expected the end of the stream"),
    }
}

#[test]
fn outputs_then_exactly_one_exit() {
    let events = vec![
        StreamEvent::Data(b"a".to_vec()),
        StreamEvent::WouldBlock,
        StreamEvent::Data(b"b".to_vec()),
        StreamEvent::Data(Vec::new()),
        StreamEvent::Data(b"never read".to_vec()),
    ];
    let mut outputs = Vec::new();
    let mut exits = 0;
    for e in events {
        match next_action(&id(), e) {
            StreamAction::Emit(ev) => {
                assert_eq!(exits, 0);
                outputs.push(ev.data);
            }
            StreamAction::Pause => {}
            StreamAction::Finish(end) => {
                if end == StreamEnd::Closed {
                    exits += 1;
                }
                break;
            }
        }
    }
    assert_eq!(outputs, vec!["a".to_string(), "b".to_string()]);
    assert_eq!(exits, 1);
}

#[test]
fn exit_event_carries_id_and_code() {
    let ev = exit_event(&id(), Some(7));
    assert_eq!(ev.id, "s1");
    assert_eq!(ev.exit_code, Some(7));
    assert_eq!(exit_event(&id(), None).exit_code, None);
}
