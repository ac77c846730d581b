//! The extension resolver: extracts and normalizes a path's trailing
//! extension segment.
//!
//! A path is an opaque string here; only the part after its last `.` is
//! relevant. The resolver is a pure string operation and never touches the
//! filesystem.

use vstd::prelude::*;
use vstd::string::StrSliceExecFns;

use crate::error::Error;
use crate::text::lower_seq;
use crate::text::to_ascii_lowercase;

verus! {

/// Index of the last `.` in the sequence, or `-1` when no `.` occurs.
pub open spec fn last_dot(p: Seq<char>) -> int
    decreases p.len(),
{
    if p.len() == 0 {
        -1
    } else if p[p.len() - 1] == '.' {
        p.len() - 1
    } else {
        last_dot(p.drop_last())
    }
}

/// A path has an extension segment when a `.` occurs and at least one
/// character follows the last one. A path that ends in `.` therefore has no
/// extension: the resolver never yields an empty extension.
pub open spec fn has_extension(p: Seq<char>) -> bool {
    0 <= last_dot(p) < p.len() - 1
}

/// The characters after the last `.`, exactly as written in the path.
pub open spec fn raw_extension(p: Seq<char>) -> Seq<char> {
    p.subrange(last_dot(p) + 1, p.len() as int)
}

/// The normalized (ASCII-lowercased) extension of a path, when one exists.
pub open spec fn extension_of(p: Seq<char>) -> Option<Seq<char>> {
    if has_extension(p) {
        Some(lower_seq(raw_extension(p)))
    } else {
        None
    }
}

/// `last_dot` stays inside the sequence.
pub proof fn lemma_last_dot_bounds(p: Seq<char>)
    ensures
        -1 <= last_dot(p) < p.len(),
    decreases p.len(),
{
    if p.len() > 0 && p[p.len() - 1] != '.' {
        lemma_last_dot_bounds(p.drop_last());
    }
}

/// A `.` that no later `.` follows is the last one.
proof fn lemma_last_dot_at(p: Seq<char>, k: int)
    requires
        0 <= k < p.len(),
        p[k] == '.',
        forall|j: int| k < j < p.len() ==> p[j] != '.',
    ensures
        last_dot(p) == k,
    decreases p.len(),
{
    if k < p.len() - 1 {
        lemma_last_dot_at(p.drop_last(), k);
    }
}

/// Without any `.` there is no last one.
pub proof fn lemma_no_dot(p: Seq<char>)
    requires
        forall|j: int| 0 <= j < p.len() ==> p[j] != '.',
    ensures
        last_dot(p) == -1,
    decreases p.len(),
{
    if p.len() > 0 {
        lemma_no_dot(p.drop_last());
    }
}

/// Position of the last `.` of the path, scanning from the end.
fn find_last_dot(path: &str) -> (r: Option<usize>)
    ensures
        match r {
            Some(k) => last_dot(path@) == k as int,
            None => last_dot(path@) == -1,
        },
{
    let n = path.unicode_len();
    let mut i: usize = n;
    while i > 0
        invariant
            n == path@.len(),
            i <= n,
            forall|j: int| i <= j < n ==> path@[j] != '.',
        decreases i,
    {
        if path.get_char(i - 1) == '.' {
            proof {
                lemma_last_dot_at(path@, i - 1);
            }
            return Some(i - 1);
        }
        i = i - 1;
    }
    proof {
        lemma_no_dot(path@);
    }
    None
}

/// Extract the normalized file extension from a path.
///
/// On success this is the substring after the final `.` of the path,
/// ASCII-lowercased and without the dot. When the path holds no `.`, or
/// nothing follows its last `.`, there is no extension segment and the
/// resolver fails; a successful result is never the empty string.
pub fn extension(path: &str) -> (r: Result<String, Error>)
    ensures
        match r {
            Ok(ext) => extension_of(path@) == Some(ext@) && ext@.len() > 0,
            Err(e) => extension_of(path@) is None && e == Error::NoFileExtensionsSpecified,
        },
{
    proof {
        lemma_last_dot_bounds(path@);
    }
    let n = path.unicode_len();
    match find_last_dot(path) {
        Some(k) => {
            if k + 1 < n {
                let raw = path.substring_char(k + 1, n);
                Ok(to_ascii_lowercase(raw))
            } else {
                Err(Error::NoFileExtensionsSpecified)
            }
        },
        None => Err(Error::NoFileExtensionsSpecified),
    }
}

} // verus!
