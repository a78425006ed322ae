//! What the outputs of the GitHub and git command line tools mean. Running
//! the tools happens outside the library; it hands over what they printed.
use vstd::prelude::*;
use crate::stream::{decode_lossy, lossy_utf8};
use crate::watcher::{bytes_of, decimal_u32, parse_decimal_u32, slice_range};

verus! {

/// Why a `gh` or `git` invocation failed, as far as its error output tells.
#[derive(PartialEq, Eq, Structural, Clone, Copy, Debug)]
pub enum CliFailure {
    /// Not logged in to GitHub.
    NotAuthenticated,
    /// Not inside a git repository with a GitHub remote.
    NotARepository,
    /// Anything else.
    Other,
}

pub open spec fn not_logged_in() -> Seq<u8> {
    seq![110u8, 111u8, 116u8, 32u8, 108u8, 111u8, 103u8, 103u8, 101u8, 100u8, 32u8, 105u8, 110u8]
}

pub open spec fn authentication() -> Seq<u8> {
    seq![97u8, 117u8, 116u8, 104u8, 101u8, 110u8, 116u8, 105u8, 99u8, 97u8, 116u8, 105u8, 111u8, 110u8]
}

pub open spec fn not_a_git_repository() -> Seq<u8> {
    seq![
        110u8, 111u8, 116u8, 32u8, 97u8, 32u8, 103u8, 105u8, 116u8, 32u8, 114u8, 101u8, 112u8, 111u8,
        115u8, 105u8, 116u8, 111u8, 114u8, 121u8,
    ]
}

pub open spec fn no_git_remotes() -> Seq<u8> {
    seq![110u8, 111u8, 32u8, 103u8, 105u8, 116u8, 32u8, 114u8, 101u8, 109u8, 111u8, 116u8, 101u8, 115u8]
}

/// `needle` occurs in `hay`.
pub open spec fn occurs(hay: Seq<u8>, needle: Seq<u8>) -> bool {
    exists|i: int| 0 <= i <= hay.len() - needle.len() && #[trigger] hay.subrange(i, i + needle.len()) == needle
}

/// What the error output `stderr` of a failed invocation means: missing
/// authentication is checked first, then a missing repository.
pub open spec fn failure_of(stderr: Seq<u8>) -> CliFailure {
    if occurs(stderr, not_logged_in()) || occurs(stderr, authentication()) {
        CliFailure::NotAuthenticated
    } else if occurs(stderr, not_a_git_repository()) || occurs(stderr, no_git_remotes()) {
        CliFailure::NotARepository
    } else {
        CliFailure::Other
    }
}

fn occurs_in(hay: &[u8], needle: &[u8]) -> (r: bool)
    ensures
        r == occurs(hay@, needle@),
{
    let h = hay.len();
    let n = needle.len();
    if n > h {
        return false;
    }
    let mut i: usize = 0;
    while i <= h - n
        invariant
            h == hay@.len(),
            n == needle@.len(),
            n <= h,
            i <= h - n + 1,
            forall|k: int| 0 <= k < i ==> #[trigger] hay@.subrange(k, k + n) != needle@,
        decreases h - n + 1 - i,
    {
        let mut j: usize = 0;
        let mut same = true;
        while j < n
            invariant
                h == hay@.len(),
                n == needle@.len(),
                i + n <= h,
                j <= n,
                same == (forall|m: int| 0 <= m < j ==> hay@[i + m] == needle@[m]),
            decreases n - j,
        {
            if hay[i + j] != needle[j] {
                same = false;
            }
            j = j + 1;
        }
        if same {
            assert(hay@.subrange(i as int, i + n) =~= needle@);
            return true;
        }
        assert(hay@.subrange(i as int, i + n) != needle@) by {
            let m = choose|m: int| 0 <= m < n && hay@[i + m] != needle@[m];
            assert(hay@.subrange(i as int, i + n)[m] == hay@[i + m]);
        }
        i = i + 1;
    }
    false
}

/// What the error output of a failed `gh` or `git` invocation means.
pub fn classify_failure(stderr: &String) -> (r: CliFailure)
    ensures
        r == failure_of(bytes_of(*stderr)),
{
    let b = stderr.as_str().as_bytes();
    let p1: Vec<u8> = vec![110u8, 111u8, 116u8, 32u8, 108u8, 111u8, 103u8, 103u8, 101u8, 100u8, 32u8, 105u8, 110u8];
    let p2: Vec<u8> = vec![97u8, 117u8, 116u8, 104u8, 101u8, 110u8, 116u8, 105u8, 99u8, 97u8, 116u8, 105u8, 111u8, 110u8];
    let p3: Vec<u8> = vec![
        110u8, 111u8, 116u8, 32u8, 97u8, 32u8, 103u8, 105u8, 116u8, 32u8, 114u8, 101u8, 112u8, 111u8,
        115u8, 105u8, 116u8, 111u8, 114u8, 121u8,
    ];
    let p4: Vec<u8> = vec![110u8, 111u8, 32u8, 103u8, 105u8, 116u8, 32u8, 114u8, 101u8, 109u8, 111u8, 116u8, 101u8, 115u8];
    assert(p1@ =~= not_logged_in());
    assert(p2@ =~= authentication());
    assert(p3@ =~= not_a_git_repository());
    assert(p4@ =~= no_git_remotes());
    if occurs_in(b, p1.as_slice()) || occurs_in(b, p2.as_slice()) {
        CliFailure::NotAuthenticated
    } else if occurs_in(b, p3.as_slice()) || occurs_in(b, p4.as_slice()) {
        CliFailure::NotARepository
    } else {
        CliFailure::Other
    }
}

/// What follows the last `/` of `b`, or all of `b` when it has none.
pub open spec fn last_segment(b: Seq<u8>) -> Seq<u8>
    decreases b.len(),
{
    if b.len() == 0 {
        b
    } else if b.last() == 47u8 {
        Seq::empty()
    } else {
        last_segment(b.drop_last()).push(b.last())
    }
}

/// The number of the issue that `gh issue create` reported by its URL
/// (`https://github.com/owner/repo/issues/123`).
pub fn issue_number_from_url(url: &String) -> (r: Option<u32>)
    ensures
        r == decimal_u32(last_segment(bytes_of(*url))),
{
    let b = url.as_str().as_bytes();
    let mut start: usize = b.len();
    assert(b@.subrange(0, b@.len() as int) =~= b@);
    assert(b@.subrange(b@.len() as int, b@.len() as int) =~= Seq::<u8>::empty());
    assert(last_segment(b@) + Seq::<u8>::empty() =~= last_segment(b@));
    while start > 0 && b[start - 1] != 47u8
        invariant
            start <= b@.len(),
            last_segment(b@) == last_segment(b@.subrange(0, start as int)) + b@.subrange(
                start as int,
                b@.len() as int,
            ),
        decreases start,
    {
        let ghost pre = b@.subrange(0, start as int);
        assert(pre.drop_last() =~= b@.subrange(0, start - 1));
        assert(b@.subrange(start - 1, b@.len() as int) =~= seq![pre.last()] + b@.subrange(
            start as int,
            b@.len() as int,
        ));
        assert(last_segment(pre) =~= last_segment(pre.drop_last()).push(pre.last()));
        start = start - 1;
    }
    let ghost pre = b@.subrange(0, start as int);
    if start > 0 {
        assert(pre.last() == 47u8);
        assert(last_segment(pre) =~= Seq::<u8>::empty());
    } else {
        assert(pre =~= Seq::<u8>::empty());
    }
    let tail = slice_range(b, start, b.len());
    assert(last_segment(b@) =~= tail@);
    parse_decimal_u32(tail.as_slice())
}

/// A byte of a release version that cannot stand in a file name.
pub open spec fn is_unsafe_byte(c: u8) -> bool {
    c == 47u8 || c == 92u8 || c == 58u8 || c == 42u8 || c == 63u8 || c == 34u8 || c == 60u8 || c
        == 62u8 || c == 124u8
}

/// `b` with each of `/ \ : * ? " < > |` replaced by `_`.
pub open spec fn sanitized(b: Seq<u8>) -> Seq<u8> {
    b.map_values(|c: u8| if is_unsafe_byte(c) {
        95u8
    } else {
        c
    })
}

/// The file stem under which a release of this version is stored.
pub fn safe_version(version: &String) -> (r: String)
    ensures
        r@ == lossy_utf8(sanitized(bytes_of(*version))),
{
    let b = version.as_str().as_bytes();
    let mut out: Vec<u8> = Vec::new();
    let mut i: usize = 0;
    while i < b.len()
        invariant
            i <= b@.len(),
            out@ == sanitized(b@.subrange(0, i as int)),
        decreases b@.len() - i,
    {
        let c = b[i];
        let d = if c == 47u8 || c == 92u8 || c == 58u8 || c == 42u8 || c == 63u8 || c == 34u8 || c
            == 60u8 || c == 62u8 || c == 124u8 {
            95u8
        } else {
            c
        };
        out.push(d);
        i = i + 1;
        assert(out@ =~= sanitized(b@.subrange(0, i as int)));
    }
    assert(b@.subrange(0, b@.len() as int) =~= b@);
    decode_lossy(out.as_slice())
}

} // verus!
