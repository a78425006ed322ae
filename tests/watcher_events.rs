use tiki_terminal::watcher::{
    classify_name, get_watcher_state, is_in_releases_dir, parse_decimal_u32, process_event,
    switch_watch_path, TikiFileEvent,
};

fn comps(parts: &[&str]) -> Vec<String> {
    parts.iter().map(|s| s.to_string()).collect()
}

fn plan_number(e: Option<TikiFileEvent>) -> Option<u32> {
    match e {
        Some(TikiFileEvent::PlanChanged { issue_number }) => Some(issue_number),
        _ => None,
    }
}

#[test]
fn state_file_change() {
    let e = process_event(true, &vec![comps(&["/", "p", ".tiki", "state.json"])]);
    assert!(matches!(e, Some(TikiFileEvent::StateChanged)));
}

#[test]
fn irrelevant_event_kinds_are_ignored() {
    assert!(process_event(false, &vec![comps(&["/", ".tiki", "state.json"])]).is_none());
}

#[test]
fn plan_file_change() {
    let e = process_event(true, &vec![comps(&["/", ".tiki", "plans", "issue-42.json"])]);
    assert_eq!(plan_number(e), Some(42));
    assert_eq!(plan_number(classify_name(&"issue-+7.json".to_string(), false)), Some(7));
    assert!(classify_name(&"issue-abc.json".to_string(), false).is_none());
    assert!(classify_name(&"issue-.json".to_string(), false).is_none());
    assert!(classify_name(&"issue-99999999999.json".to_string(), false).is_none());
}

#[test]
fn release_file_change() {
    let e = process_event(true, &vec![comps(&["/", ".tiki", "releases", "v1.2.json"])]);
    match e {
        Some(TikiFileEvent::ReleaseChanged { version }) => assert_eq!(version, "v1.2"),
        _ => panic!("expected a release change"),
    }
    assert!(process_event(true, &vec![comps(&["/", ".tiki", "other", "v1.2.json"])]).is_none());
    assert!(classify_name(&"notes.txt".to_string(), true).is_none());
}

#[test]
fn first_meaningful_path_wins() {
    let e = process_event(
        true,
        &vec![comps(&["/", "x", "readme.md"]), Vec::new(), comps(&["/", ".tiki", "plans", "issue-3.json"]), comps(&["state.json"])],
    );
    assert_eq!(plan_number(e), Some(3));
}

#[test]
fn releases_component_detection() {
    assert!(is_in_releases_dir(&comps(&["/", "a", "releases", "x.json"])));
    assert!(!is_in_releases_dir(&comps(&["/", "a", "release", "x.json"])));
    assert!(!is_in_releases_dir(&Vec::new()));
}

#[test]
fn decimal_parsing() {
    assert_eq!(parse_decimal_u32(b"0"), Some(0));
    assert_eq!(parse_decimal_u32(b"+12"), Some(12));
    assert_eq!(parse_decimal_u32(b"4294967295"), Some(u32::MAX));
    assert_eq!(parse_decimal_u32(b"4294967296"), None);
    assert_eq!(parse_decimal_u32(b""), None);
    assert_eq!(parse_decimal_u32(b"+"), None);
    assert_eq!(parse_decimal_u32(b"-1"), None);
    assert_eq!(parse_decimal_u32(b"1a"), None);
}

#[test]
fn switching_projects() {
    let mut state = get_watcher_state();
    assert!(!state.is_current(&"/a".to_string()));
    state.set_current_path("/a".to_string());
    assert!(state.is_current(&"/a".to_string()));
    let stop = state.install_stop_signal();
    switch_watch_path(&mut state, "/b".to_string());
    assert!(stop.try_recv().is_ok());
    assert!(!state.is_current(&"/a".to_string()));
    assert!(state.is_current(&"/b".to_string()));
}
