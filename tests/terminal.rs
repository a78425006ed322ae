use std::io::Read;
use tiki_terminal::commands::{
    child_exit_code, create_terminal, start_output_reader, destroy_terminal, finish_exited_session, resize_terminal,
    take_exited_child, write_terminal, OutputStream,
};
use tiki_terminal::pty::{ArgumentProblem, ErrorKind, SpawnStep, TerminalError};
use tiki_terminal::registry::TerminalManager;
use tiki_terminal::stream::{next_action, StreamAction, StreamEnd, StreamEvent};

fn sh() -> Option<String> {
    Some("/bin/sh".to_string())
}

fn create(manager: &mut TerminalManager, id: &str) -> OutputStream {
    match create_terminal(manager, id.to_string(), sh(), None, "/bin/sh".to_string()) {
        Ok(stream) => stream,
        Err(e) => panic!("create failed: {:?}", e.kind()),
    }
}

/// Reads the stream until the decoded output contains `needle`, or the
/// stream ends; returns everything emitted.
fn read_until(id: &str, stream: &mut OutputStream, needle: &str) -> String {
    let mut seen = String::new();
    let mut buf = [0u8; 4096];
    for _ in 0..200 {
        let event = match stream.reader.inner.read(&mut buf) {
            Ok(n) => StreamEvent::Data(buf[..n].to_vec()),
            Err(_) => StreamEvent::ReadFailed,
        };
        match next_action(&id.to_string(), event) {
            StreamAction::Emit(ev) => {
                assert_eq!(ev.id, id);
                seen.push_str(&ev.data);
                if seen.contains(needle) {
                    return seen;
                }
            }
            StreamAction::Pause => {}
            StreamAction::Finish(_) => return seen,
        }
    }
    seen
}

fn kind<T>(r: Result<T, TerminalError>) -> Option<ErrorKind> {
    r.err().map(|e| e.kind())
}

#[test]
fn echo_reaches_output_events() {
    let mut manager = TerminalManager::new();
    let mut stream = create(&mut manager, "t1");
    assert!(write_terminal(&mut manager, "t1".to_string(), "echo hi\n".to_string()).is_ok());
    let seen = read_until("t1", &mut stream, "hi\r\n");
    assert!(seen.contains("hi"));
    assert!(destroy_terminal(&mut manager, "t1".to_string()).is_ok());
}

#[test]
fn resize_is_reported_by_the_shell() {
    let mut manager = TerminalManager::new();
    let mut stream = create(&mut manager, "t2");
    assert!(resize_terminal(&mut manager, "t2".to_string(), 40, 120).is_ok());
    assert!(write_terminal(&mut manager, "t2".to_string(), "stty size\n".to_string()).is_ok());
    let seen = read_until("t2", &mut stream, "40 120");
    assert!(seen.contains("40 120"));
    assert!(destroy_terminal(&mut manager, "t2".to_string()).is_ok());
}

#[test]
fn shell_exit_code_is_reported_and_session_cleaned_up() {
    let mut manager = TerminalManager::new();
    let _stream = create(&mut manager, "t5");
    assert!(write_terminal(&mut manager, "t5".to_string(), "exit 7\n".to_string()).is_ok());
    let child = take_exited_child(&mut manager, &"t5".to_string());
    assert!(child.is_some());
    assert_eq!(child_exit_code(child), Some(7));
    // the handle is taken once only
    assert!(take_exited_child(&mut manager, &"t5".to_string()).is_none());
    finish_exited_session(&mut manager, &"t5".to_string());
    assert!(!manager.contains_session(&"t5".to_string()));
    assert_eq!(kind(destroy_terminal(&mut manager, "t5".to_string())), Some(ErrorKind::SessionNotFound));
    // a second cleanup of a session already gone changes nothing
    finish_exited_session(&mut manager, &"t5".to_string());
}

#[test]
fn second_create_with_same_id_fails_and_first_stays_usable() {
    let mut manager = TerminalManager::new();
    let _stream = create(&mut manager, "dup");
    let second = create_terminal(&mut manager, "dup".to_string(), sh(), None, "/bin/sh".to_string());
    match second {
        Err(TerminalError::AlreadyExists(id)) => assert_eq!(id, "dup"),
        Err(e) => panic!("wrong error {:?}", e.kind()),
        Ok(_) => panic!("second create succeeded"),
    }
    assert!(manager.contains_session(&"dup".to_string()));
    assert!(write_terminal(&mut manager, "dup".to_string(), "true\n".to_string()).is_ok());
    assert!(resize_terminal(&mut manager, "dup".to_string(), 30, 100).is_ok());
    assert!(destroy_terminal(&mut manager, "dup".to_string()).is_ok());
}

#[test]
fn absent_ids_are_not_found() {
    let mut manager = TerminalManager::new();
    let w = write_terminal(&mut manager, "nope".to_string(), "ls\n".to_string());
    match w {
        Err(TerminalError::SessionNotFound(id)) => assert_eq!(id, "nope"),
        _ => panic!("expected SessionNotFound"),
    }
    match resize_terminal(&mut manager, "nope".to_string(), 10, 10) {
        Err(TerminalError::SessionNotFound(id)) => assert_eq!(id, "nope"),
        _ => panic!("expected SessionNotFound"),
    }
    match destroy_terminal(&mut manager, "nope".to_string()) {
        Err(TerminalError::SessionNotFound(id)) => assert_eq!(id, "nope"),
        _ => panic!("expected SessionNotFound"),
    }
    match start_output_reader(&mut manager, &"nope".to_string()) {
        Err(TerminalError::SessionNotFound(id)) => assert_eq!(id, "nope"),
        _ => panic!("expected SessionNotFound"),
    }
    assert_eq!(kind(write_terminal(&mut manager, "nope".to_string(), String::new())), Some(ErrorKind::SessionNotFound));
}

#[test]
fn zero_dimensions_are_invalid() {
    let mut manager = TerminalManager::new();
    let _stream = create(&mut manager, "z");
    match resize_terminal(&mut manager, "z".to_string(), 0, 80) {
        Err(TerminalError::InvalidArgument(ArgumentProblem::ZeroDimension { rows, cols })) => {
            assert_eq!((rows, cols), (0, 80))
        }
        _ => panic!("expected a zero dimension error"),
    }
    assert_eq!(kind(resize_terminal(&mut manager, "z".to_string(), 24, 0)), Some(ErrorKind::InvalidArgument));
    // also when the session does not exist
    assert_eq!(kind(resize_terminal(&mut manager, "none".to_string(), 0, 0)), Some(ErrorKind::InvalidArgument));
    assert!(destroy_terminal(&mut manager, "z".to_string()).is_ok());
}

#[test]
fn empty_ids_are_invalid() {
    let mut manager = TerminalManager::new();
    match create_terminal(&mut manager, String::new(), sh(), None, "/bin/sh".to_string()) {
        Err(TerminalError::InvalidArgument(ArgumentProblem::EmptyId)) => {}
        _ => panic!("expected an empty id error"),
    }
    assert_eq!(kind(write_terminal(&mut manager, String::new(), "x".to_string())), Some(ErrorKind::InvalidArgument));
    assert_eq!(kind(resize_terminal(&mut manager, String::new(), 5, 5)), Some(ErrorKind::InvalidArgument));
    assert_eq!(kind(destroy_terminal(&mut manager, String::new())), Some(ErrorKind::InvalidArgument));
}

#[test]
fn destroy_twice_reports_not_found_and_stops_the_stream() {
    let mut manager = TerminalManager::new();
    let stream = create(&mut manager, "d");
    assert_eq!(destroy_terminal(&mut manager, "d".to_string()).ok(), Some(true));
    assert!(!manager.contains_session(&"d".to_string()));
    assert!(stream.stop.try_recv().is_ok());
    match next_action(&"d".to_string(), StreamEvent::StopSignal) {
        StreamAction::Finish(end) => assert_eq!(end, StreamEnd::Stopped),
        _ => panic!("a stop signal must end the stream"),
    }
    assert_eq!(kind(destroy_terminal(&mut manager, "d".to_string())), Some(ErrorKind::SessionNotFound));
}

#[test]
fn empty_writes_always_succeed() {
    let mut manager = TerminalManager::new();
    let _stream = create(&mut manager, "e");
    for _ in 0..5 {
        assert!(write_terminal(&mut manager, "e".to_string(), String::new()).is_ok());
    }
    assert!(destroy_terminal(&mut manager, "e".to_string()).is_ok());
}

#[test]
fn spawn_failure_leaves_registry_unchanged() {
    let mut manager = TerminalManager::new();
    let r = create_terminal(
        &mut manager,
        "bad".to_string(),
        Some("/nonexistent/shell-program".to_string()),
        None,
        "/bin/sh".to_string(),
    );
    match r {
        Err(TerminalError::Spawn(step, _)) => assert_eq!(step, SpawnStep::SpawnShell),
        _ => panic!("expected a spawn failure"),
    }
    assert!(!manager.contains_session(&"bad".to_string()));
}

#[test]
fn default_shell_and_working_directory_are_used() {
    let mut manager = TerminalManager::new();
    let mut stream = match create_terminal(
        &mut manager,
        "cwd".to_string(),
        None,
        Some("/tmp".to_string()),
        "/bin/sh".to_string(),
    ) {
        Ok(s) => s,
        Err(e) => panic!("create failed: {:?}", e.kind()),
    };
    assert!(write_terminal(&mut manager, "cwd".to_string(), "pwd\n".to_string()).is_ok());
    let seen = read_until("cwd", &mut stream, "/tmp\r\n");
    assert!(seen.contains("/tmp"));
    assert!(destroy_terminal(&mut manager, "cwd".to_string()).is_ok());
}

#[test]
fn stream_ends_when_shell_exits() {
    let mut manager = TerminalManager::new();
    let mut stream = create(&mut manager, "t6");
    assert!(write_terminal(&mut manager, "t6".to_string(), "exit 3\n".to_string()).is_ok());
    let mut buf = [0u8; 4096];
    let mut end = None;
    for _ in 0..200 {
        let event = match stream.reader.inner.read(&mut buf) {
            Ok(n) => StreamEvent::Data(buf[..n].to_vec()),
            Err(_) => StreamEvent::ReadFailed,
        };
        if let StreamAction::Finish(e) = next_action(&"t6".to_string(), event) {
            end = Some(e);
            break;
        }
    }
    assert_eq!(end, Some(StreamEnd::Closed));
    let child = take_exited_child(&mut manager, &"t6".to_string());
    assert_eq!(child_exit_code(child), Some(3));
    finish_exited_session(&mut manager, &"t6".to_string());
    assert!(!manager.contains_session(&"t6".to_string()));
}
