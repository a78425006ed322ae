use tiki_terminal::state::{
    current_from_phases, default_phase_status_pending, default_schema_version, normalize_phase,
    IssueContext, IssueRef, PhaseProgress, PhaseProgressStatus, PhaseStatus, RawIssueContext,
    RawOldCurrentPhase, RawOldPhases, RawPhaseArrayItem, RawPhasesVariant, WorkStatus,
};

fn raw() -> RawIssueContext {
    RawIssueContext {
        issue: None,
        issue_number: None,
        title: None,
        status: WorkStatus::Executing,
        pipeline_step: None,
        phase: None,
        phases: None,
        current_phase: None,
        total_phases: None,
        created_at: None,
        started_at: None,
        last_activity: None,
        audit_passed: None,
        yolo: None,
        commit: None,
        parent_release: None,
        pipeline_history: None,
    }
}

fn item(number: u32, status: PhaseStatus) -> RawPhaseArrayItem {
    RawPhaseArrayItem { number, title: None, status }
}

fn progress(total: u32, current: u32, status: PhaseProgressStatus) -> Option<PhaseProgress> {
    Some(PhaseProgress { total, current, status })
}

#[test]
fn defaults() {
    assert_eq!(default_schema_version(), 1);
    assert_eq!(default_phase_status_pending(), PhaseStatus::Pending);
    assert_eq!(PhaseProgressStatus::default(), PhaseProgressStatus::Pending);
}

#[test]
fn flat_issue_fields_are_nested() {
    let mut r = raw();
    r.issue_number = Some(66);
    r.title = Some("Fix it".to_string());
    r.started_at = Some("2024-01-01".to_string());
    let c = IssueContext::from_raw(r);
    assert_eq!(c.issue.number, 66);
    assert_eq!(c.issue.title, Some("Fix it".to_string()));
    assert_eq!(c.created_at, "2024-01-01");
    assert_eq!(c.status, WorkStatus::Executing);
    assert!(c.phase.is_none());
}

#[test]
fn nested_issue_and_created_at_win() {
    let mut r = raw();
    r.issue = Some(IssueRef {
        number: 5,
        title: None,
        body: None,
        state: Some("open".to_string()),
        labels: None,
        label_details: None,
        url: None,
        created_at: None,
        updated_at: None,
    });
    r.issue_number = Some(9);
    r.created_at = Some("new".to_string());
    r.started_at = Some("old".to_string());
    r.yolo = Some(true);
    let c = IssueContext::from_raw(r);
    assert_eq!(c.issue.number, 5);
    assert_eq!(c.issue.state, Some("open".to_string()));
    assert_eq!(c.created_at, "new");
    assert_eq!(c.yolo, Some(true));
}

#[test]
fn missing_timestamps_give_empty_created_at() {
    let c = IssueContext::from_raw(raw());
    assert_eq!(c.created_at, "");
    assert_eq!(c.issue.number, 0);
}

#[test]
fn phase_object_is_kept() {
    let mut r = raw();
    r.phase = progress(4, 2, PhaseProgressStatus::Failed);
    r.current_phase = Some(3);
    r.total_phases = Some(9);
    assert_eq!(normalize_phase(&r), progress(4, 2, PhaseProgressStatus::Failed));
}

#[test]
fn old_phases_object() {
    let mut r = raw();
    r.phases = Some(RawPhasesVariant::OldObject(RawOldPhases {
        total: 5,
        completed: Some(2),
        current: Some(RawOldCurrentPhase { number: 3, title: None, status: PhaseProgressStatus::Executing }),
    }));
    assert_eq!(normalize_phase(&r), progress(5, 3, PhaseProgressStatus::Executing));
    let mut r2 = raw();
    r2.phases = Some(RawPhasesVariant::OldObject(RawOldPhases { total: 5, completed: None, current: None }));
    assert_eq!(normalize_phase(&r2), progress(5, 0, PhaseProgressStatus::Pending));
}

#[test]
fn phase_array_with_executing_phase() {
    let mut r = raw();
    r.phases = Some(RawPhasesVariant::Array(vec![
        item(1, PhaseStatus::Completed),
        item(2, PhaseStatus::Executing),
        item(3, PhaseStatus::Pending),
    ]));
    assert_eq!(normalize_phase(&r), progress(3, 2, PhaseProgressStatus::Executing));
}

#[test]
fn phase_array_after_last_completed() {
    let arr = vec![
        item(1, PhaseStatus::Completed),
        item(3, PhaseStatus::Completed),
        item(2, PhaseStatus::Skipped),
        item(4, PhaseStatus::Pending),
    ];
    assert_eq!(current_from_phases(&arr), 4);
    let mut r = raw();
    r.phases = Some(RawPhasesVariant::Array(arr));
    r.total_phases = Some(10);
    assert_eq!(normalize_phase(&r), progress(10, 4, PhaseProgressStatus::Pending));
}

#[test]
fn phase_array_skipped_counts_as_completed() {
    let mut r = raw();
    r.phases = Some(RawPhasesVariant::Array(vec![item(1, PhaseStatus::Skipped), item(2, PhaseStatus::Failed)]));
    r.current_phase = Some(1);
    assert_eq!(normalize_phase(&r), progress(2, 1, PhaseProgressStatus::Completed));
    r.current_phase = Some(2);
    assert_eq!(normalize_phase(&r), progress(2, 2, PhaseProgressStatus::Failed));
}

#[test]
fn empty_phase_array_starts_at_one() {
    let mut r = raw();
    r.phases = Some(RawPhasesVariant::Array(Vec::new()));
    assert_eq!(normalize_phase(&r), progress(0, 1, PhaseProgressStatus::Pending));
}

#[test]
fn completed_count_stops_at_the_largest_number() {
    let arr = vec![item(u32::MAX, PhaseStatus::Completed)];
    assert_eq!(current_from_phases(&arr), u32::MAX);
}

#[test]
fn flat_counters() {
    let mut r = raw();
    r.current_phase = Some(2);
    r.total_phases = Some(6);
    assert_eq!(normalize_phase(&r), progress(6, 2, PhaseProgressStatus::Executing));
    let mut r2 = raw();
    r2.current_phase = Some(2);
    assert_eq!(normalize_phase(&r2), None);
}
