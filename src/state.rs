//! The project state and plan records, and the normalisation of issue
//! contexts written in older layouts into the current one.
use vstd::prelude::*;
use std::collections::HashMap;

verus! {

/// Main Tiki state structure
#[derive(Debug, Clone)]
pub struct TikiState {
    pub schema_version: u32,
    pub active_work: HashMap<String, WorkContext>,
    pub history: Option<History>,
}

/// The schema version of a state that names none.
pub fn default_schema_version() -> (r: u32)
    ensures
        r == 1,
{
    1
}

/// A single work context (issue or release)
#[derive(Debug, Clone)]
pub enum WorkContext {
    Issue(IssueContext),
    Release(ReleaseContext),
}

/// Context for working on a single issue (canonical format).
#[derive(Debug, Clone)]
pub struct IssueContext {
    pub issue: IssueRef,
    pub status: WorkStatus,
    pub pipeline_step: Option<PipelineStep>,
    pub pipeline_history: Option<Vec<PipelineStepRecord>>,
    pub phase: Option<PhaseProgress>,
    pub created_at: String,
    pub last_activity: Option<String>,
    pub audit_passed: Option<bool>,
    pub yolo: Option<bool>,
    pub commit: Option<String>,
    pub parent_release: Option<String>,
}

/// An issue context as stored, in any of the layouts seen so far: nested
/// issue object or flat number and title, phase progress as an object, as
/// an old `phases` object, as a phase array, or as flat counters.
#[derive(Debug, Clone)]
pub struct RawIssueContext {
    pub issue: Option<IssueRef>,
    pub issue_number: Option<u32>,
    pub title: Option<String>,
    pub status: WorkStatus,
    pub pipeline_step: Option<PipelineStep>,
    pub phase: Option<PhaseProgress>,
    pub phases: Option<RawPhasesVariant>,
    pub current_phase: Option<u32>,
    pub total_phases: Option<u32>,
    pub created_at: Option<String>,
    pub started_at: Option<String>,
    pub last_activity: Option<String>,
    pub audit_passed: Option<bool>,
    pub yolo: Option<bool>,
    pub commit: Option<String>,
    pub parent_release: Option<String>,
    pub pipeline_history: Option<Vec<PipelineStepRecord>>,
}

/// Phases can be either the old object format or the new array format
#[derive(Debug, Clone)]
pub enum RawPhasesVariant {
    OldObject(RawOldPhases),
    Array(Vec<RawPhaseArrayItem>),
}

/// Array format phase item
#[derive(Debug, Clone)]
pub struct RawPhaseArrayItem {
    pub number: u32,
    pub title: Option<String>,
    pub status: PhaseStatus,
}

/// Old format: phases object with nested current
#[derive(Debug, Clone)]
pub struct RawOldPhases {
    pub total: u32,
    pub completed: Option<u32>,
    pub current: Option<RawOldCurrentPhase>,
}

/// Old format: current phase as an object
#[derive(Debug, Clone)]
pub struct RawOldCurrentPhase {
    pub number: u32,
    pub title: Option<String>,
    pub status: PhaseProgressStatus,
}

/// The status of an array phase that has no status.
pub fn default_phase_status_pending() -> (r: PhaseStatus)
    ensures
        r == PhaseStatus::Pending,
{
    PhaseStatus::Pending
}

/// GitHub label with full metadata
#[derive(Debug, Clone)]
pub struct GitHubLabelInfo {
    pub id: String,
    pub name: String,
    pub color: String,
    pub description: Option<String>,
}

/// Reference to a GitHub issue
#[derive(Debug, Clone)]
pub struct IssueRef {
    pub number: u32,
    pub title: Option<String>,
    pub body: Option<String>,
    pub state: Option<String>,
    pub labels: Option<Vec<String>>,
    pub label_details: Option<Vec<GitHubLabelInfo>>,
    pub url: Option<String>,
    pub created_at: Option<String>,
    pub updated_at: Option<String>,
}

/// Phase progress tracking
#[derive(Debug, Clone, Copy, PartialEq, Eq, Structural)]
pub struct PhaseProgress {
    pub total: u32,
    pub current: u32,
    pub status: PhaseProgressStatus,
}

/// Status of the current phase
#[derive(Debug, Clone, Copy, PartialEq, Eq, Structural)]
pub enum PhaseProgressStatus {
    Pending,
    Executing,
    Completed,
    Failed,
}

impl Default for PhaseProgressStatus {
    fn default() -> (r: Self)
        ensures
            r == PhaseProgressStatus::Pending,
    {
        PhaseProgressStatus::Pending
    }
}

/// Context for working on a release
#[derive(Debug, Clone)]
pub struct ReleaseContext {
    pub release: ReleaseRef,
    pub status: WorkStatus,
    pub pipeline_step: Option<PipelineStep>,
    pub created_at: String,
    pub last_activity: Option<String>,
}

/// Reference to a release
#[derive(Debug, Clone)]
pub struct ReleaseRef {
    pub version: String,
    pub issues: Vec<u32>,
    pub current_issue: Option<u32>,
    pub completed_issues: Vec<u32>,
    pub milestone: Option<String>,
}

/// Status of a work context
#[derive(Debug, Clone, Copy, PartialEq, Eq, Structural)]
pub enum WorkStatus {
    Pending,
    Reviewing,
    Planning,
    Executing,
    Paused,
    Completed,
    Failed,
    Shipping,
}

/// Pipeline step in the Tiki workflow
#[derive(Debug, Clone, Copy, PartialEq, Eq, Structural)]
pub enum PipelineStep {
    Get,
    Review,
    Plan,
    Audit,
    Execute,
    Ship,
}

/// Record of a pipeline step with timing
#[derive(Debug, Clone)]
pub struct PipelineStepRecord {
    pub step: String,
    pub started_at: String,
    pub completed_at: Option<String>,
}

/// History tracking
#[derive(Debug, Clone)]
pub struct History {
    pub last_completed_issue: Option<CompletedIssue>,
    pub last_completed_release: Option<CompletedRelease>,
    pub recent_issues: Option<Vec<CompletedIssue>>,
    pub recent_releases: Option<Vec<CompletedReleaseRecord>>,
}

#[derive(Debug, Clone)]
pub struct CompletedIssue {
    pub number: u32,
    pub title: Option<String>,
    pub completed_at: String,
}

#[derive(Debug, Clone)]
pub struct CompletedRelease {
    pub version: String,
    pub completed_at: String,
}

#[derive(Debug, Clone)]
pub struct CompletedReleaseRecord {
    pub version: String,
    pub issues: Option<Vec<u32>>,
    pub completed_at: String,
    pub tag: Option<String>,
}

/// Plan structure
#[derive(Debug, Clone)]
pub struct TikiPlan {
    pub issue: Option<IssueInfo>,
    pub issue_number: Option<u32>,
    pub title: Option<String>,
    pub description: Option<String>,
    pub created_at: String,
    pub schema_version: Option<u32>,
    pub success_criteria: Option<Vec<SuccessCriterion>>,
    pub phases: Vec<Phase>,
    pub coverage_matrix: Option<HashMap<String, Vec<u32>>>,
}

#[derive(Debug, Clone)]
pub struct IssueInfo {
    pub number: u32,
    pub title: Option<String>,
    pub url: Option<String>,
}

#[derive(Debug, Clone)]
pub struct SuccessCriterion {
    pub id: String,
    pub category: Option<String>,
    pub description: String,
}

#[derive(Debug, Clone)]
pub struct Phase {
    pub number: u32,
    pub title: String,
    pub status: PhaseStatus,
    pub content: Option<String>,
    pub verification: Option<Vec<String>>,
    pub addresses_criteria: Option<Vec<String>>,
    pub files: Option<Vec<String>>,
    pub tasks: Option<Vec<String>>,
    pub dependencies: Option<Vec<u32>>,
    pub started_at: Option<String>,
    pub completed_at: Option<String>,
    pub summary: Option<String>,
}

#[derive(Debug, Clone, Copy, PartialEq, Eq, Structural)]
pub enum PhaseStatus {
    Pending,
    Executing,
    Completed,
    Failed,
    Skipped,
}

/// Tiki Release - local release with associated issues
#[derive(Debug, Clone)]
pub struct TikiRelease {
    pub version: String,
    pub name: Option<String>,
    pub status: TikiReleaseStatus,
    pub issues: Vec<TikiReleaseIssue>,
    pub created_at: String,
    pub updated_at: Option<String>,
}

#[derive(Debug, Clone)]
pub struct TikiReleaseIssue {
    pub number: u32,
    pub title: String,
}

#[derive(Debug, Clone, Copy, PartialEq, Eq, Structural)]
pub enum TikiReleaseStatus {
    Active,
    Completed,
    Shipped,
    NotPlanned,
}

/// The number of the first executing phase of `arr`, if any.
pub open spec fn first_executing(arr: Seq<RawPhaseArrayItem>) -> Option<u32>
    decreases arr.len(),
{
    if arr.len() == 0 {
        None
    } else if arr[0].status == PhaseStatus::Executing {
        Some(arr[0].number)
    } else {
        first_executing(arr.drop_first())
    }
}

/// The largest number of a completed phase of `arr`, if any.
pub open spec fn max_completed(arr: Seq<RawPhaseArrayItem>) -> Option<u32>
    decreases arr.len(),
{
    if arr.len() == 0 {
        None
    } else {
        let rest = max_completed(arr.drop_last());
        if arr.last().status == PhaseStatus::Completed {
            match rest {
                Some(m) => Some(if m >= arr.last().number {
                    m
                } else {
                    arr.last().number
                }),
                None => Some(arr.last().number),
            }
        } else {
            rest
        }
    }
}

/// The status of the first phase of `arr` numbered `n`, if any.
pub open spec fn status_of_number(arr: Seq<RawPhaseArrayItem>, n: u32) -> Option<PhaseStatus>
    decreases arr.len(),
{
    if arr.len() == 0 {
        None
    } else if arr[0].number == n {
        Some(arr[0].status)
    } else {
        status_of_number(arr.drop_first(), n)
    }
}

/// The phase after `n`; the count stops at the largest `u32`.
pub open spec fn next_number(n: u32) -> u32 {
    if n == u32::MAX {
        n
    } else {
        (n + 1) as u32
    }
}

/// The current phase an array implies: the first executing one, else the one
/// after the last completed one, else the first.
pub open spec fn derived_current(arr: Seq<RawPhaseArrayItem>) -> u32 {
    match first_executing(arr) {
        Some(n) => n,
        None => match max_completed(arr) {
            Some(m) => next_number(m),
            None => 1,
        },
    }
}

/// A plan phase status as the status of the current phase; a skipped phase
/// counts as completed.
pub open spec fn progress_status(s: PhaseStatus) -> PhaseProgressStatus {
    match s {
        PhaseStatus::Pending => PhaseProgressStatus::Pending,
        PhaseStatus::Executing => PhaseProgressStatus::Executing,
        PhaseStatus::Completed => PhaseProgressStatus::Completed,
        PhaseStatus::Failed => PhaseProgressStatus::Failed,
        PhaseStatus::Skipped => PhaseProgressStatus::Completed,
    }
}

/// The phase progress of an issue context written in any layout: the
/// progress object when there is one, else what the `phases` field implies,
/// else the flat counters when both are there.
pub open spec fn normalized_phase(raw: RawIssueContext) -> Option<PhaseProgress> {
    match raw.phase {
        Some(p) => Some(p),
        None => match raw.phases {
            Some(RawPhasesVariant::OldObject(p)) => Some(
                match p.current {
                    Some(c) => PhaseProgress { total: p.total, current: c.number, status: c.status },
                    None => PhaseProgress {
                        total: p.total,
                        current: 0,
                        status: PhaseProgressStatus::Pending,
                    },
                },
            ),
            Some(RawPhasesVariant::Array(arr)) => {
                let total = match raw.total_phases {
                    Some(t) => t,
                    None => arr@.len() as u32,
                };
                let current = match raw.current_phase {
                    Some(c) => c,
                    None => derived_current(arr@),
                };
                let status = match status_of_number(arr@, current) {
                    Some(s) => progress_status(s),
                    None => PhaseProgressStatus::Pending,
                };
                Some(PhaseProgress { total, current, status })
            },
            None => match (raw.current_phase, raw.total_phases) {
                (Some(current), Some(total)) => Some(
                    PhaseProgress { total, current, status: PhaseProgressStatus::Executing },
                ),
                _ => None,
            },
        },
    }
}

/// The issue an issue context refers to: the nested object, else one built
/// from the flat number (0 when missing) and title.
pub open spec fn normalized_issue(raw: RawIssueContext) -> IssueRef {
    match raw.issue {
        Some(i) => i,
        None => IssueRef {
            number: match raw.issue_number {
                Some(n) => n,
                None => 0,
            },
            title: raw.title,
            body: None,
            state: None,
            labels: None,
            label_details: None,
            url: None,
            created_at: None,
            updated_at: None,
        },
    }
}

/// When the work started: `createdAt`, else `startedAt`, else empty.
pub open spec fn normalized_created_at(raw: RawIssueContext) -> Seq<char> {
    match raw.created_at {
        Some(c) => c@,
        None => match raw.started_at {
            Some(s) => s@,
            None => Seq::empty(),
        },
    }
}

fn first_executing_of(arr: &Vec<RawPhaseArrayItem>) -> (r: Option<u32>)
    ensures
        r == first_executing(arr@),
{
    assert(arr@.subrange(0, arr@.len() as int) =~= arr@);
    let mut i: usize = 0;
    while i < arr.len()
        invariant
            i <= arr@.len(),
            first_executing(arr@) == first_executing(arr@.subrange(i as int, arr@.len() as int)),
        decreases arr@.len() - i,
    {
        let ghost rest = arr@.subrange(i as int, arr@.len() as int);
        assert(rest.drop_first() =~= arr@.subrange(i + 1, arr@.len() as int));
        if arr[i].status == PhaseStatus::Executing {
            return Some(arr[i].number);
        }
        i = i + 1;
    }
    assert(arr@.subrange(i as int, arr@.len() as int) =~= Seq::<RawPhaseArrayItem>::empty());
    None
}

fn max_completed_of(arr: &Vec<RawPhaseArrayItem>) -> (r: Option<u32>)
    ensures
        r == max_completed(arr@),
{
    let mut best: Option<u32> = None;
    let mut i: usize = 0;
    while i < arr.len()
        invariant
            i <= arr@.len(),
            best == max_completed(arr@.subrange(0, i as int)),
        decreases arr@.len() - i,
    {
        let ghost pre = arr@.subrange(0, i + 1);
        assert(pre.drop_last() =~= arr@.subrange(0, i as int));
        assert(pre.last() == arr@[i as int]);
        if arr[i].status == PhaseStatus::Completed {
            let n = arr[i].number;
            best = match best {
                Some(m) => Some(if m >= n { m } else { n }),
                None => Some(n),
            };
        }
        i = i + 1;
    }
    assert(arr@.subrange(0, arr@.len() as int) =~= arr@);
    best
}

fn status_of_number_in(arr: &Vec<RawPhaseArrayItem>, n: u32) -> (r: Option<PhaseStatus>)
    ensures
        r == status_of_number(arr@, n),
{
    assert(arr@.subrange(0, arr@.len() as int) =~= arr@);
    let mut i: usize = 0;
    while i < arr.len()
        invariant
            i <= arr@.len(),
            status_of_number(arr@, n) == status_of_number(
                arr@.subrange(i as int, arr@.len() as int),
                n,
            ),
        decreases arr@.len() - i,
    {
        let ghost rest = arr@.subrange(i as int, arr@.len() as int);
        assert(rest.drop_first() =~= arr@.subrange(i + 1, arr@.len() as int));
        if arr[i].number == n {
            return Some(arr[i].status);
        }
        i = i + 1;
    }
    assert(arr@.subrange(i as int, arr@.len() as int) =~= Seq::<RawPhaseArrayItem>::empty());
    None
}

fn to_progress_status(s: PhaseStatus) -> (r: PhaseProgressStatus)
    ensures
        r == progress_status(s),
{
    match s {
        PhaseStatus::Pending => PhaseProgressStatus::Pending,
        PhaseStatus::Executing => PhaseProgressStatus::Executing,
        PhaseStatus::Completed => PhaseProgressStatus::Completed,
        PhaseStatus::Failed => PhaseProgressStatus::Failed,
        PhaseStatus::Skipped => PhaseProgressStatus::Completed,
    }
}

/// The current phase an array of phases implies, when none is given.
pub fn current_from_phases(arr: &Vec<RawPhaseArrayItem>) -> (r: u32)
    ensures
        r == derived_current(arr@),
{
    match first_executing_of(arr) {
        Some(n) => n,
        None => match max_completed_of(arr) {
            Some(m) => if m == u32::MAX {
                m
            } else {
                m + 1
            },
            None => 1,
        },
    }
}

/// The phase progress of an issue context written in any layout.
pub fn normalize_phase(raw: &RawIssueContext) -> (r: Option<PhaseProgress>)
    ensures
        r == normalized_phase(*raw),
{
    if let Some(p) = raw.phase {
        return Some(p);
    }
    match &raw.phases {
        Some(RawPhasesVariant::OldObject(p)) => {
            let progress = match &p.current {
                Some(c) => PhaseProgress { total: p.total, current: c.number, status: c.status },
                None => PhaseProgress {
                    total: p.total,
                    current: 0,
                    status: PhaseProgressStatus::Pending,
                },
            };
            Some(progress)
        },
        Some(RawPhasesVariant::Array(arr)) => {
            let total = match raw.total_phases {
                Some(t) => t,
                None => arr.len() as u32,
            };
            let current = match raw.current_phase {
                Some(c) => c,
                None => current_from_phases(arr),
            };
            let status = match status_of_number_in(arr, current) {
                Some(s) => to_progress_status(s),
                None => PhaseProgressStatus::Pending,
            };
            Some(PhaseProgress { total, current, status })
        },
        None => match (raw.current_phase, raw.total_phases) {
            (Some(current), Some(total)) => Some(
                PhaseProgress { total, current, status: PhaseProgressStatus::Executing },
            ),
            _ => None,
        },
    }
}

impl IssueContext {
    /// The canonical issue context of one stored in any layout.
    pub fn from_raw(raw: RawIssueContext) -> (r: IssueContext)
        ensures
            r.issue == normalized_issue(raw),
            r.phase == normalized_phase(raw),
            r.created_at@ == normalized_created_at(raw),
            r.status == raw.status,
            r.pipeline_step == raw.pipeline_step,
            r.pipeline_history == raw.pipeline_history,
            r.last_activity == raw.last_activity,
            r.audit_passed == raw.audit_passed,
            r.yolo == raw.yolo,
            r.commit == raw.commit,
            r.parent_release == raw.parent_release,
    {
        let phase = normalize_phase(&raw);
        let issue = match raw.issue {
            Some(i) => i,
            None => IssueRef {
                number: match raw.issue_number {
                    Some(n) => n,
                    None => 0,
                },
                title: raw.title,
                body: None,
                state: None,
                labels: None,
                label_details: None,
                url: None,
                created_at: None,
                updated_at: None,
            },
        };
        let created_at = match raw.created_at {
            Some(c) => c,
            None => match raw.started_at {
                Some(s) => s,
                None => String::new(),
            },
        };
        IssueContext {
            issue,
            status: raw.status,
            pipeline_step: raw.pipeline_step,
            pipeline_history: raw.pipeline_history,
            phase,
            created_at,
            last_activity: raw.last_activity,
            audit_passed: raw.audit_passed,
            yolo: raw.yolo,
            commit: raw.commit,
            parent_release: raw.parent_release,
        }
    }
}

} // verus!
