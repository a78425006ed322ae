use std::cmp::Ordering;
use tiki_terminal::backups::{
    backup_info, backup_retention, backups_to_prune, compare_bytes, list_backups, newer_first,
    BackupInfo, DEFAULT_BACKUP_RETENTION,
};

fn names(v: &[&str]) -> Vec<String> {
    v.iter().map(|s| s.to_string()).collect()
}

#[test]
fn backup_names_give_timestamps() {
    let b = backup_info("state.2024-01-02T03-04-05.json".to_string(), 42).unwrap();
    assert_eq!(b.filename, "state.2024-01-02T03-04-05.json");
    assert_eq!(b.timestamp, "2024-01-02T03-04-05");
    assert_eq!(b.size_bytes, 42);
    assert!(backup_info("state.json".to_string(), 1).is_none());
    assert!(backup_info("plan.x.json".to_string(), 1).is_none());
    assert!(backup_info("state.x.txt".to_string(), 1).is_none());
    assert_eq!(backup_info("state.x.json".to_string(), 0).unwrap().timestamp, "x");
}

#[test]
fn listing_is_newest_first() {
    let files = vec![
        ("state.2024-01-01T00-00-00.json".to_string(), 1),
        ("notes.txt".to_string(), 2),
        ("state.2024-03-01T00-00-00.json".to_string(), 3),
        ("state.2024-02-01T00-00-00.json".to_string(), 4),
    ];
    let listed = list_backups(files);
    let stamps: Vec<&str> = listed.iter().map(|b| b.timestamp.as_str()).collect();
    assert_eq!(stamps, vec!["2024-03-01T00-00-00", "2024-02-01T00-00-00", "2024-01-01T00-00-00"]);
    assert_eq!(listed[0].size_bytes, 3);
    assert!(list_backups(Vec::new()).is_empty());
}

#[test]
fn pruning_keeps_the_newest() {
    let all = names(&[
        "state.2024-01-01.json",
        "state.2024-04-01.json",
        "other.json",
        "state.2024-02-01.json",
        "state.2024-03-01.json",
    ]);
    assert_eq!(backups_to_prune(&all, 2), names(&["state.2024-01-01.json", "state.2024-02-01.json"]));
    assert!(backups_to_prune(&all, 10).is_empty());
    assert_eq!(backups_to_prune(&all, 0).len(), 4);
}

#[test]
fn retention_default_and_configured() {
    assert_eq!(backup_retention(None), DEFAULT_BACKUP_RETENTION);
    assert_eq!(DEFAULT_BACKUP_RETENTION, 10);
    assert_eq!(backup_retention(Some(3)), 3);
}

#[test]
fn byte_order() {
    assert_eq!(compare_bytes(b"abc", b"abd"), Ordering::Less);
    assert_eq!(compare_bytes(b"ab", b"abc"), Ordering::Less);
    assert_eq!(compare_bytes(b"b", b"abc"), Ordering::Greater);
    assert_eq!(compare_bytes(b"", b""), Ordering::Equal);
    let a = BackupInfo { filename: String::new(), timestamp: "2".to_string(), size_bytes: 0 };
    let b = BackupInfo { filename: String::new(), timestamp: "1".to_string(), size_bytes: 0 };
    assert_eq!(newer_first(&a, &b), Ordering::Less);
}
