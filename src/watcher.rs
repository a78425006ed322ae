//! What the project directory watcher reports, and the state it keeps to
//! switch between projects. Watching the file system happens outside the
//! library: it hands over the components of each changed path.
use vstd::prelude::*;
use vstd::utf8::{
    encode_utf8, encode_utf8_valid_utf8, is_char_boundary, is_char_boundary_iff_not_is_continuation_byte,
    length_of_first_scalar, pop_first_scalar, valid_utf8,
};
use crate::pty::{send_stop, stop_channel};

verus! {

/// Events emitted to the frontend when files change
pub enum TikiFileEvent {
    StateChanged,
    PlanChanged { issue_number: u32 },
    ReleaseChanged { version: String },
}

/// The bytes of `state.json`.
pub open spec fn state_file_name() -> Seq<u8> {
    seq![115u8, 116u8, 97u8, 116u8, 101u8, 46u8, 106u8, 115u8, 111u8, 110u8]
}

/// The bytes of `issue-`.
pub open spec fn plan_prefix() -> Seq<u8> {
    seq![105u8, 115u8, 115u8, 117u8, 101u8, 45u8]
}

/// The bytes of `.json`.
pub open spec fn json_suffix() -> Seq<u8> {
    seq![46u8, 106u8, 115u8, 111u8, 110u8]
}

/// The bytes of `releases`.
pub open spec fn releases_dir_name() -> Seq<u8> {
    seq![114u8, 101u8, 108u8, 101u8, 97u8, 115u8, 101u8, 115u8]
}

pub open spec fn bytes_of(s: String) -> Seq<u8> {
    encode_utf8(s@)
}

pub open spec fn has_prefix(s: Seq<u8>, p: Seq<u8>) -> bool {
    s.len() >= p.len() && s.subrange(0, p.len() as int) == p
}

pub open spec fn has_suffix(s: Seq<u8>, p: Seq<u8>) -> bool {
    s.len() >= p.len() && s.subrange(s.len() - p.len(), s.len() as int) == p
}

pub open spec fn is_digit(b: u8) -> bool {
    48 <= b <= 57
}

pub open spec fn all_digits(d: Seq<u8>) -> bool {
    forall|i: int| 0 <= i < d.len() ==> is_digit(#[trigger] d[i])
}

/// The value of a run of decimal digits.
pub open spec fn digits_value(d: Seq<u8>) -> nat
    decreases d.len(),
{
    if d.len() == 0 {
        0
    } else {
        digits_value(d.drop_last()) * 10 + (d.last() - 48) as nat
    }
}

/// A `u32` written in decimal, as `u32::from_str` reads it: an optional `+`,
/// then one or more digits, of a value that fits.
pub open spec fn decimal_u32(s: Seq<u8>) -> Option<u32> {
    let d = if s.len() > 0 && s[0] == 43u8 {
        s.drop_first()
    } else {
        s
    };
    if d.len() > 0 && all_digits(d) && digits_value(d) <= u32::MAX {
        Some(digits_value(d) as u32)
    } else {
        None
    }
}

/// What a change of a file called `name` means, the file lying under a
/// `releases` directory or not.
pub enum FileChange {
    State,
    Plan(u32),
    Release(Seq<u8>),
}

/// The number in a plan file name `issue-<n>.json`, if it is one.
pub open spec fn plan_number(name: Seq<u8>) -> Option<u32> {
    if has_prefix(name, plan_prefix()) && has_suffix(name, json_suffix()) && name.len() >= 11 {
        decimal_u32(name.subrange(6, name.len() - 5))
    } else {
        None
    }
}

pub open spec fn name_change(name: Seq<u8>, in_releases: bool) -> Option<FileChange> {
    if name == state_file_name() {
        Some(FileChange::State)
    } else if plan_number(name) is Some {
        Some(FileChange::Plan(plan_number(name)->0))
    } else if in_releases && has_suffix(name, json_suffix()) {
        Some(FileChange::Release(name.subrange(0, name.len() - 5)))
    } else {
        None
    }
}

/// Whether one of the components is a `releases` directory.
pub open spec fn in_releases(components: Seq<String>) -> bool {
    exists|i: int| 0 <= i < components.len() && bytes_of(#[trigger] components[i]) == releases_dir_name()
}

/// What a change of the path with these components means; its file name is
/// the last component.
pub open spec fn path_change(components: Seq<String>) -> Option<FileChange> {
    if components.len() == 0 {
        None
    } else {
        name_change(bytes_of(components.last()), in_releases(components))
    }
}

/// What the first path that means something means.
pub open spec fn paths_change(paths: Seq<Vec<String>>) -> Option<FileChange>
    decreases paths.len(),
{
    if paths.len() == 0 {
        None
    } else {
        match path_change(paths[0]@) {
            Some(c) => Some(c),
            None => paths_change(paths.drop_first()),
        }
    }
}

/// The event a change stands for.
pub open spec fn event_matches(e: TikiFileEvent, c: FileChange) -> bool {
    match (e, c) {
        (TikiFileEvent::StateChanged, FileChange::State) => true,
        (TikiFileEvent::PlanChanged { issue_number }, FileChange::Plan(n)) => issue_number == n,
        (TikiFileEvent::ReleaseChanged { version }, FileChange::Release(v)) => bytes_of(version) == v,
        _ => false,
    }
}

fn equal_bytes(a: &[u8], b: &[u8]) -> (r: bool)
    ensures
        r == (a@ == b@),
{
    if a.len() != b.len() {
        return false;
    }
    let mut i: usize = 0;
    while i < a.len()
        invariant
            a@.len() == b@.len(),
            i <= a@.len(),
            forall|j: int| 0 <= j < i ==> a@[j] == b@[j],
        decreases a@.len() - i,
    {
        if a[i] != b[i] {
            return false;
        }
        i = i + 1;
    }
    assert(a@ =~= b@);
    true
}

/// Whether `s[start..start + p.len()]` is `p`.
fn bytes_at(s: &[u8], start: usize, p: &[u8]) -> (r: bool)
    requires
        start + p@.len() <= s@.len(),
    ensures
        r == (s@.subrange(start as int, start + p@.len()) == p@),
{
    let sl = s.len();
    let mut i: usize = 0;
    while i < p.len()
        invariant
            sl == s@.len(),
            start + p@.len() <= s@.len(),
            i <= p@.len(),
            forall|j: int| 0 <= j < i ==> s@[start + j] == p@[j],
        decreases p@.len() - i,
    {
        if s[start + i] != p[i] {
            return false;
        }
        i = i + 1;
    }
    assert(s@.subrange(start as int, start + p@.len()) =~= p@);
    true
}

proof fn lemma_digits_grow(d: Seq<u8>)
    requires
        d.len() > 0,
    ensures
        digits_value(d) >= digits_value(d.drop_last()),
{
    let v = digits_value(d.drop_last());
    assert(v * 10 >= v) by (nonlinear_arith);
}

/// In valid UTF-8 a character starts right after an ASCII byte.
pub(crate) proof fn lemma_boundary_after_ascii(b: Seq<u8>, j: int)
    requires
        valid_utf8(b),
        0 <= j < b.len(),
        b[j] < 128,
    ensures
        is_char_boundary(b, j + 1),
    decreases b.len(),
{
    let l = length_of_first_scalar(b);
    let p = pop_first_scalar(b);
    if j < l {
        assert(j + 1 == l);
        assert(is_char_boundary(p, 0));
    } else {
        assert(p[j - l] == b[j]);
        lemma_boundary_after_ascii(p, j - l);
    }
}

/// In valid UTF-8 a character starts at each ASCII byte.
pub(crate) proof fn lemma_boundary_at_ascii(b: Seq<u8>, j: int)
    requires
        valid_utf8(b),
        0 <= j < b.len(),
        b[j] < 128,
    ensures
        is_char_boundary(b, j),
{
    is_char_boundary_iff_not_is_continuation_byte(b, j);
}

/// The bytes of `s[..end]` as a string: `end` must fall on an ASCII byte.
pub(crate) fn prefix_before_ascii(s: &str, end: usize) -> (r: String)
    requires
        end < encode_utf8(s@).len(),
        encode_utf8(s@)[end as int] < 128,
    ensures
        bytes_of(r) == encode_utf8(s@).subrange(0, end as int),
{
    proof {
        encode_utf8_valid_utf8(s@);
        lemma_boundary_at_ascii(encode_utf8(s@), end as int);
    }
    let (head, _) = s.split_at(end);
    head.to_owned()
}

/// The bytes of `s[start..]` as a string: the byte before `start` must be ASCII.
pub(crate) fn suffix_after_ascii(s: &str, start: usize) -> (r: String)
    requires
        0 < start <= encode_utf8(s@).len(),
        encode_utf8(s@)[start - 1] < 128,
    ensures
        bytes_of(r) == encode_utf8(s@).subrange(start as int, encode_utf8(s@).len() as int),
{
    proof {
        encode_utf8_valid_utf8(s@);
        lemma_boundary_after_ascii(encode_utf8(s@), start - 1);
    }
    let (_, tail) = s.split_at(start);
    tail.to_owned()
}

/// Reads a `u32` written in decimal, as `u32::from_str` does.
pub fn parse_decimal_u32(s: &[u8]) -> (r: Option<u32>)
    ensures
        r == decimal_u32(s@),
{
    let start: usize = if s.len() > 0 && s[0] == 43u8 {
        1
    } else {
        0
    };
    let ghost d = if s@.len() > 0 && s@[0] == 43u8 {
        s@.drop_first()
    } else {
        s@
    };
    assert(d =~= s@.subrange(start as int, s@.len() as int));
    if start == s.len() {
        return None;
    }
    let mut value: u64 = 0;
    let mut over = false;
    let mut i: usize = start;
    while i < s.len()
        invariant
            start <= i <= s@.len(),
            d == s@.subrange(start as int, s@.len() as int),
            d == (if s@.len() > 0 && s@[0] == 43u8 {
                s@.drop_first()
            } else {
                s@
            }),
            forall|j: int| start <= j < i ==> is_digit(#[trigger] s@[j]),
            !over ==> value == digits_value(s@.subrange(start as int, i as int)),
            !over ==> value <= u32::MAX,
            over ==> digits_value(s@.subrange(start as int, i as int)) > u32::MAX,
        decreases s@.len() - i,
    {
        let b = s[i];
        if b < 48u8 || b > 57u8 {
            assert(d[i - start] == b);
            assert(!is_digit(d[i - start]));
            return None;
        }
        let ghost pre = s@.subrange(start as int, i + 1);
        assert(pre.drop_last() =~= s@.subrange(start as int, i as int));
        assert(pre.last() == b);
        proof {
            lemma_digits_grow(pre);
        }
        if !over {
            let next: u64 = value * 10 + (b - 48u8) as u64;
            if next > 4294967295u64 {
                over = true;
            } else {
                value = next;
            }
        }
        i = i + 1;
    }
    assert(s@.subrange(start as int, s@.len() as int) == d);
    assert forall|j: int| 0 <= j < d.len() implies is_digit(#[trigger] d[j]) by {
        assert(d[j] == s@[start + j]);
    }
    assert(all_digits(d));
    if over {
        None
    } else {
        Some(value as u32)
    }
}

/// Check if a path is inside the releases directory, given its components.
pub fn is_in_releases_dir(components: &Vec<String>) -> (r: bool)
    ensures
        r == in_releases(components@),
{
    let releases: Vec<u8> = vec![114u8, 101u8, 108u8, 101u8, 97u8, 115u8, 101u8, 115u8];
    assert(releases@ =~= releases_dir_name());
    let mut i: usize = 0;
    while i < components.len()
        invariant
            i <= components@.len(),
            releases@ == releases_dir_name(),
            forall|j: int| 0 <= j < i ==> bytes_of(#[trigger] components@[j]) != releases_dir_name(),
        decreases components@.len() - i,
    {
        if equal_bytes(components[i].as_str().as_bytes(), releases.as_slice()) {
            return true;
        }
        i = i + 1;
    }
    false
}

/// What a change of the file called `name` means.
pub fn classify_name(name: &String, in_releases_dir: bool) -> (r: Option<TikiFileEvent>)
    ensures
        match name_change(bytes_of(*name), in_releases_dir) {
            Some(c) => r matches Some(e) && event_matches(e, c),
            None => r is None,
        },
{
    let b = name.as_str().as_bytes();
    let state_name: Vec<u8> = vec![115u8, 116u8, 97u8, 116u8, 101u8, 46u8, 106u8, 115u8, 111u8, 110u8];
    let prefix: Vec<u8> = vec![105u8, 115u8, 115u8, 117u8, 101u8, 45u8];
    let suffix: Vec<u8> = vec![46u8, 106u8, 115u8, 111u8, 110u8];
    assert(state_name@ =~= state_file_name());
    assert(prefix@ =~= plan_prefix());
    assert(suffix@ =~= json_suffix());
    if equal_bytes(b, state_name.as_slice()) {
        return Some(TikiFileEvent::StateChanged);
    }
    let n = b.len();
    let json = n >= 5 && bytes_at(b, n - 5, suffix.as_slice());
    if n >= 11 && json && bytes_at(b, 0, prefix.as_slice()) {
        let middle = slice_range(b, 6, n - 5);
        if let Some(issue_number) = parse_decimal_u32(middle.as_slice()) {
            return Some(TikiFileEvent::PlanChanged { issue_number });
        }
    }
    if in_releases_dir && json {
        let version = prefix_before_ascii(name.as_str(), n - 5);
        return Some(TikiFileEvent::ReleaseChanged { version });
    }
    None
}

/// A copy of `s[start..end]`.
pub(crate) fn slice_range(s: &[u8], start: usize, end: usize) -> (r: Vec<u8>)
    requires
        start <= end <= s@.len(),
    ensures
        r@ == s@.subrange(start as int, end as int),
{
    let mut r: Vec<u8> = Vec::new();
    let mut i: usize = start;
    while i < end
        invariant
            start <= i <= end <= s@.len(),
            r@ == s@.subrange(start as int, i as int),
        decreases end - i,
    {
        r.push(s[i]);
        i = i + 1;
        assert(r@ =~= s@.subrange(start as int, i as int));
    }
    r
}

/// Process a file system event: `relevant` tells whether it created,
/// modified or removed something; `paths` holds the components of each
/// path it concerns.
pub fn process_event(relevant: bool, paths: &Vec<Vec<String>>) -> (r: Option<TikiFileEvent>)
    ensures
        !relevant ==> r is None,
        relevant ==> match paths_change(paths@) {
            Some(c) => r matches Some(e) && event_matches(e, c),
            None => r is None,
        },
{
    if !relevant {
        return None;
    }
    assert(paths@.subrange(0, paths@.len() as int) =~= paths@);
    let mut i: usize = 0;
    while i < paths.len()
        invariant
            relevant,
            i <= paths@.len(),
            paths_change(paths@) == paths_change(paths@.subrange(i as int, paths@.len() as int)),
        decreases paths@.len() - i,
    {
        let ghost rest = paths@.subrange(i as int, paths@.len() as int);
        assert(rest.drop_first() =~= paths@.subrange(i + 1, paths@.len() as int));
        let components = &paths[i];
        let k = components.len();
        if k > 0 {
            let in_releases_dir = is_in_releases_dir(components);
            let found = classify_name(&components[k - 1], in_releases_dir);
            if found.is_some() {
                return found;
            }
        }
        i = i + 1;
    }
    assert(paths@.subrange(i as int, paths@.len() as int) =~= Seq::<Vec<String>>::empty());
    None
}

/// Which project the watcher follows, and the stop signal of the watcher
/// that runs now, if one does.
pub struct WatcherState {
    current_path: Option<String>,
    stop_signal: Option<std::sync::mpsc::Sender<()>>,
}

pub struct WatcherView {
    pub current_path: Option<Seq<char>>,
    /// A watcher runs and can be told to stop.
    pub watching: bool,
}

impl View for WatcherState {
    type V = WatcherView;

    closed spec fn view(&self) -> WatcherView {
        WatcherView {
            current_path: match self.current_path {
                Some(p) => Some(p@),
                None => None,
            },
            watching: self.stop_signal is Some,
        }
    }
}

/// The state of a watcher that follows no project yet.
pub fn get_watcher_state() -> (r: WatcherState)
    ensures
        r@ == (WatcherView { current_path: None, watching: false }),
{
    WatcherState { current_path: None, stop_signal: None }
}

/// Switch the watcher to a new project path: the watcher that runs is told
/// to stop, and the new path becomes the current one. Starting the watcher
/// for it is left to the caller.
pub fn switch_watch_path(state: &mut WatcherState, new_path: String)
    ensures
        final(state)@ == (WatcherView { current_path: Some(new_path@), watching: false }),
{
    if let Some(stop_tx) = state.stop_signal.take() {
        send_stop(stop_tx);
    }
    state.current_path = Some(new_path);
}

impl WatcherState {
    /// Makes `path` the current project path.
    pub fn set_current_path(&mut self, path: String)
        ensures
            final(self)@ == (WatcherView { current_path: Some(path@), ..old(self)@ }),
    {
        self.current_path = Some(path);
    }

    /// Whether `project_path` is still the one to watch; a watcher waiting
    /// for its directory to appear gives up once it is not.
    pub fn is_current(&self, project_path: &String) -> (r: bool)
        ensures
            r == (self@.current_path == Some(project_path@)),
    {
        match &self.current_path {
            Some(p) => *p == *project_path,
            None => false,
        }
    }

    /// Installs the stop signal of a watcher that starts now; the watcher
    /// polls the receiver it gets back.
    pub fn install_stop_signal(&mut self) -> (r: std::sync::mpsc::Receiver<()>)
        ensures
            final(self)@ == (WatcherView { watching: true, ..old(self)@ }),
    {
        let (stop_tx, stop_rx) = stop_channel();
        self.stop_signal = Some(stop_tx);
        stop_rx
    }
}

} // verus!
