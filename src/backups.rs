//! Which files of the backups directory are state backups, how they are
//! listed, and which of them fall outside the retention limit. Reading the
//! directory and removing files happens outside the library.
use vstd::prelude::*;
use core::cmp::Ordering;
use crate::watcher::{
    bytes_of, has_prefix, has_suffix, json_suffix, prefix_before_ascii, slice_range, suffix_after_ascii,
};

verus! {

/// One state backup file.
#[derive(Debug, Clone)]
pub struct BackupInfo {
    pub filename: String,
    pub timestamp: String,
    pub size_bytes: u64,
}

/// A backup as plain values: file name, the bytes of its timestamp, size.
pub open spec fn backup_view(b: BackupInfo) -> (Seq<char>, Seq<u8>, u64) {
    (b.filename@, bytes_of(b.timestamp), b.size_bytes)
}

/// The bytes of `state.`.
pub open spec fn backup_prefix() -> Seq<u8> {
    seq![115u8, 116u8, 97u8, 116u8, 101u8, 46u8]
}

/// A name of the form `state.*.json`.
pub open spec fn is_backup_name(b: Seq<u8>) -> bool {
    has_prefix(b, backup_prefix()) && has_suffix(b, json_suffix())
}

/// The timestamp in a backup name `state.<timestamp>.json`.
pub open spec fn backup_stamp(b: Seq<u8>) -> Option<Seq<u8>> {
    if is_backup_name(b) && b.len() >= 11 {
        Some(b.subrange(6, b.len() - 5))
    } else {
        None
    }
}

/// Byte-wise lexicographic order, the order of `str`.
pub open spec fn lex_cmp(a: Seq<u8>, b: Seq<u8>) -> Ordering
    decreases a.len(),
{
    if a.len() == 0 {
        if b.len() == 0 {
            Ordering::Equal
        } else {
            Ordering::Less
        }
    } else if b.len() == 0 {
        Ordering::Greater
    } else if a[0] < b[0] {
        Ordering::Less
    } else if a[0] > b[0] {
        Ordering::Greater
    } else {
        lex_cmp(a.drop_first(), b.drop_first())
    }
}

/// Newest first: no backup has an older timestamp than one after it.
pub open spec fn newest_first(v: Seq<BackupInfo>) -> bool {
    forall|i: int, j: int|
        0 <= i < j < v.len() ==> lex_cmp(bytes_of(#[trigger] v[j].timestamp), bytes_of(
            #[trigger] v[i].timestamp,
        )) != Ordering::Greater
}

/// Compares two byte strings lexicographically.
pub fn compare_bytes(a: &[u8], b: &[u8]) -> (r: Ordering)
    ensures
        r == lex_cmp(a@, b@),
{
    let mut i: usize = 0;
    assert(a@.subrange(0, a@.len() as int) =~= a@);
    assert(b@.subrange(0, b@.len() as int) =~= b@);
    while i < a.len() && i < b.len()
        invariant
            i <= a@.len(),
            i <= b@.len(),
            lex_cmp(a@, b@) == lex_cmp(
                a@.subrange(i as int, a@.len() as int),
                b@.subrange(i as int, b@.len() as int),
            ),
        decreases a@.len() - i,
    {
        let ghost ra = a@.subrange(i as int, a@.len() as int);
        let ghost rb = b@.subrange(i as int, b@.len() as int);
        assert(ra.drop_first() =~= a@.subrange(i + 1, a@.len() as int));
        assert(rb.drop_first() =~= b@.subrange(i + 1, b@.len() as int));
        if a[i] < b[i] {
            return Ordering::Less;
        }
        if a[i] > b[i] {
            return Ordering::Greater;
        }
        i = i + 1;
    }
    if i < b.len() {
        Ordering::Less
    } else if i < a.len() {
        Ordering::Greater
    } else {
        Ordering::Equal
    }
}

/// The order of a listing, newest first: `a` before `b` when its timestamp
/// is the later one.
pub fn newer_first(a: &BackupInfo, b: &BackupInfo) -> (r: Ordering)
    ensures
        r == lex_cmp(bytes_of(b.timestamp), bytes_of(a.timestamp)),
{
    compare_bytes(b.timestamp.as_str().as_bytes(), a.timestamp.as_str().as_bytes())
}

/// Relies on `slice::sort_by`: the same elements, ordered by `newer_first`,
/// which is a total order.
#[verifier::external_body]
fn sort_newest_first(v: &mut Vec<BackupInfo>)
    ensures
        final(v)@.map_values(|b: BackupInfo| backup_view(b)).to_multiset() == old(v)@.map_values(
            |b: BackupInfo| backup_view(b),
        ).to_multiset(),
        newest_first(final(v)@),
{
    v.sort_by(|a, b| newer_first(a, b))
}

/// The backup that the file `name` of `size_bytes` bytes is, if it is one.
pub fn backup_info(name: String, size_bytes: u64) -> (r: Option<BackupInfo>)
    ensures
        match backup_stamp(bytes_of(name)) {
            Some(stamp) => r matches Some(b) && b.filename == name && bytes_of(b.timestamp) == stamp
                && b.size_bytes == size_bytes,
            None => r is None,
        },
{
    let b = name.as_str().as_bytes();
    let n = b.len();
    if n < 11 || !has_backup_shape(b) {
        return None;
    }
    let stem = prefix_before_ascii(name.as_str(), n - 5);
    assert(bytes_of(stem)[5] == b@[5]);
    let timestamp = suffix_after_ascii(stem.as_str(), 6);
    assert(bytes_of(timestamp) =~= b@.subrange(6, n - 5));
    Some(BackupInfo { filename: name, timestamp, size_bytes })
}

fn has_backup_shape(b: &[u8]) -> (r: bool)
    ensures
        r == is_backup_name(b@),
{
    let prefix: Vec<u8> = vec![115u8, 116u8, 97u8, 116u8, 101u8, 46u8];
    let suffix: Vec<u8> = vec![46u8, 106u8, 115u8, 111u8, 110u8];
    assert(prefix@ =~= backup_prefix());
    assert(suffix@ =~= json_suffix());
    let n = b.len();
    if n < 6 {
        return false;
    }
    let starts = compare_bytes(slice_range(b, 0, 6).as_slice(), prefix.as_slice());
    let ends = compare_bytes(slice_range(b, n - 5, n).as_slice(), suffix.as_slice());
    proof {
        lemma_lex_equal(b@.subrange(0, 6), prefix@);
        if n >= 5 {
            lemma_lex_equal(b@.subrange(n - 5, n as int), suffix@);
        }
    }
    matches!(starts, Ordering::Equal) && matches!(ends, Ordering::Equal)
}

proof fn lemma_lex_equal(a: Seq<u8>, b: Seq<u8>)
    ensures
        (lex_cmp(a, b) == Ordering::Equal) == (a == b),
    decreases a.len(),
{
    if a.len() == 0 || b.len() == 0 {
        if a.len() != b.len() {
            assert(a != b);
        } else {
            assert(a =~= b);
        }
    } else if a[0] != b[0] {
        assert(a != b);
    } else {
        lemma_lex_equal(a.drop_first(), b.drop_first());
        if a.drop_first() == b.drop_first() {
            assert(a =~= b) by {
                assert forall|i: int| 0 <= i < a.len() implies a[i] == b[i] by {
                    if i > 0 {
                        assert(a[i] == a.drop_first()[i - 1]);
                        assert(b[i] == b.drop_first()[i - 1]);
                    }
                }
            }
        } else {
            assert(a != b) by {
                if a == b {
                    assert(a.drop_first() =~= b.drop_first());
                }
            }
        }
    }
}

/// The backups among the files of a directory, given as names and sizes,
/// newest first.
pub fn list_backups(files: Vec<(String, u64)>) -> (r: Vec<BackupInfo>)
    ensures
        newest_first(r@),
        r@.map_values(|b: BackupInfo| backup_view(b)).to_multiset() == backups_in(
            files@,
        ).to_multiset(),
{
    let mut found: Vec<BackupInfo> = Vec::new();
    let mut i: usize = 0;
    while i < files.len()
        invariant
            i <= files@.len(),
            found@.map_values(|b: BackupInfo| backup_view(b)) == backups_in(
                files@.subrange(0, i as int),
            ),
        decreases files@.len() - i,
    {
        let ghost pre = files@.subrange(0, i + 1);
        assert(pre.drop_last() =~= files@.subrange(0, i as int));
        let name = files[i].0.clone();
        let size = files[i].1;
        match backup_info(name, size) {
            Some(b) => {
                let ghost before = found@;
                found.push(b);
                assert(found@.map_values(|b: BackupInfo| backup_view(b)) =~= before.map_values(
                    |b: BackupInfo| backup_view(b),
                ).push(backup_view(b)));
            },
            None => {},
        }
        i = i + 1;
    }
    assert(files@.subrange(0, files@.len() as int) =~= files@);
    sort_newest_first(&mut found);
    found
}

/// The backups among `files`, in their order, as plain values.
pub open spec fn backups_in(files: Seq<(String, u64)>) -> Seq<(Seq<char>, Seq<u8>, u64)>
    decreases files.len(),
{
    if files.len() == 0 {
        Seq::empty()
    } else {
        let rest = backups_in(files.drop_last());
        let (name, size) = files.last();
        match backup_stamp(bytes_of(name)) {
            Some(stamp) => rest.push((name@, stamp, size)),
            None => rest,
        }
    }
}

/// How many backup names among `names` sort after `x`.
pub open spec fn newer_names(names: Seq<String>, x: Seq<u8>) -> nat
    decreases names.len(),
{
    if names.len() == 0 {
        0
    } else {
        newer_names(names.drop_last(), x) + if is_backup_name(bytes_of(names.last())) && lex_cmp(
            bytes_of(names.last()),
            x,
        ) == Ordering::Greater {
            1nat
        } else {
            0nat
        }
    }
}

/// The backup names of `prefix` that at least `keep` backup names of `all`
/// sort after, in their order: with distinct names, those beyond the newest
/// `keep`.
pub open spec fn prunable(prefix: Seq<String>, all: Seq<String>, keep: nat) -> Seq<String>
    decreases prefix.len(),
{
    if prefix.len() == 0 {
        Seq::empty()
    } else {
        let rest = prunable(prefix.drop_last(), all, keep);
        let n = prefix.last();
        if is_backup_name(bytes_of(n)) && newer_names(all, bytes_of(n)) >= keep {
            rest.push(n)
        } else {
            rest
        }
    }
}

fn count_newer(names: &Vec<String>, x: &[u8]) -> (r: usize)
    ensures
        r == newer_names(names@, x@),
{
    let mut count: usize = 0;
    let mut j: usize = 0;
    while j < names.len()
        invariant
            j <= names@.len(),
            count == newer_names(names@.subrange(0, j as int), x@),
            count <= j,
        decreases names@.len() - j,
    {
        let ghost pre = names@.subrange(0, j + 1);
        assert(pre.drop_last() =~= names@.subrange(0, j as int));
        let b = names[j].as_str().as_bytes();
        if has_backup_shape(b) && matches!(compare_bytes(b, x), Ordering::Greater) {
            count = count + 1;
        }
        j = j + 1;
    }
    assert(names@.subrange(0, names@.len() as int) =~= names@);
    count
}

/// The backups to remove so that only the newest `retention` stay.
pub fn backups_to_prune(names: &Vec<String>, retention: usize) -> (r: Vec<String>)
    ensures
        r@ == prunable(names@, names@, retention as nat),
{
    let mut out: Vec<String> = Vec::new();
    let mut i: usize = 0;
    while i < names.len()
        invariant
            i <= names@.len(),
            out@ == prunable(names@.subrange(0, i as int), names@, retention as nat),
        decreases names@.len() - i,
    {
        let ghost pre = names@.subrange(0, i + 1);
        assert(pre.drop_last() =~= names@.subrange(0, i as int));
        let b = names[i].as_str().as_bytes();
        if has_backup_shape(b) && count_newer(names, b) >= retention {
            out.push(names[i].clone());
        }
        i = i + 1;
    }
    assert(names@.subrange(0, names@.len() as int) =~= names@);
    out
}

/// How many backups are kept when the configuration names no number.
pub const DEFAULT_BACKUP_RETENTION: usize = 10;

/// The retention limit: the configured number, else the default.
pub fn backup_retention(configured: Option<u64>) -> (r: usize)
    ensures
        r == match configured {
            Some(n) => n as usize,
            None => DEFAULT_BACKUP_RETENTION,
        },
{
    match configured {
        Some(n) => n as usize,
        None => DEFAULT_BACKUP_RETENTION,
    }
}

} // verus!
