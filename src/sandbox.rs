//! Confining client-supplied paths to a subject's root directory.
use vstd::prelude::*;

use crate::errors::AuthError;

verus! {

/// A path is absolute when it starts at the file-system root.
pub open spec fn spec_is_absolute(p: Seq<char>) -> bool {
    p.len() > 0 && p[0] == '/'
}

/// A `..` component starts at index `i` of `p`.
pub open spec fn parent_segment_at(p: Seq<char>, i: int) -> bool {
    &&& 0 <= i
    &&& i + 2 <= p.len()
    &&& p[i] == '.'
    &&& p[i + 1] == '.'
    &&& (i == 0 || p[i - 1] == '/')
    &&& (i + 2 == p.len() || p[i + 2] == '/')
}

/// `p` has a `..` component somewhere.
pub open spec fn spec_has_parent_segment(p: Seq<char>) -> bool {
    exists|i: int| parent_segment_at(p, i)
}

/// `rel` appended to `base` with one separator between them; an empty `rel`
/// leaves `base` as it is.
pub open spec fn spec_join(base: Seq<char>, rel: Seq<char>) -> Seq<char> {
    if rel.len() == 0 {
        base
    } else if base.len() == 0 || base.last() == '/' {
        base + rel
    } else {
        base + seq!['/'] + rel
    }
}

/// The subject cannot name a root of its own, or the relative path could leave it.
pub open spec fn escapes_sandbox(subject: Seq<char>, rel: Seq<char>) -> bool {
    ||| subject.len() == 0
    ||| spec_is_absolute(subject)
    ||| spec_is_absolute(rel)
    ||| spec_has_parent_segment(rel)
}

/// The root directory of a subject below the repository directory.
pub open spec fn spec_root(repo_root: Seq<char>, subject: Seq<char>) -> Seq<char> {
    spec_join(repo_root, subject)
}

pub fn is_absolute(p: &str) -> (r: bool)
    ensures
        r == spec_is_absolute(p@),
{
    let n = p.unicode_len();
    n > 0 && p.get_char(0) == '/'
}

pub fn has_parent_segment(p: &str) -> (r: bool)
    ensures
        r == spec_has_parent_segment(p@),
{
    let n = p.unicode_len();
    let mut i: usize = 0;
    while i < n
        invariant
            n == p@.len(),
            i <= n,
            forall|j: int| 0 <= j < i ==> !parent_segment_at(p@, j),
        decreases n - i,
    {
        if i + 1 < n && p.get_char(i) == '.' && p.get_char(i + 1) == '.' && (i == 0 || p.get_char(i - 1)
            == '/') && (i + 2 == n || p.get_char(i + 2) == '/') {
            assert(parent_segment_at(p@, i as int));
            return true;
        }
        i = i + 1;
    }
    assert forall|j: int| !parent_segment_at(p@, j) by {
        if 0 <= j < i {
        }
    }
    false
}

pub fn join_path(base: &str, rel: &str) -> (r: String)
    ensures
        r@ == spec_join(base@, rel@),
{
    let mut s = base.to_owned();
    let nr = rel.unicode_len();
    if nr == 0 {
        return s;
    }
    let nb = base.unicode_len();
    if nb != 0 && base.get_char(nb - 1) != '/' {
        proof {
            reveal_strlit("/");
        }
        s.append("/");
    }
    s.append(rel);
    s
}

/// The root directory of `subject` under `repo_root`.
pub fn sandbox_root(repo_root: &str, subject: &str) -> (r: String)
    ensures
        r@ == spec_root(repo_root@, subject@),
{
    join_path(repo_root, subject)
}

/// Resolves `relative_path` against the root of `subject` under `repo_root`.
/// The checks come first and touch nothing: an empty or absolute subject and
/// an absolute relative path, or one with a `..` component, are refused as a
/// traversal attempt.
pub fn resolve(subject: &str, relative_path: &str, repo_root: &str) -> (r: Result<String, AuthError>)
    ensures
        escapes_sandbox(subject@, relative_path@) <==> r is Err,
        r is Err ==> r == Err::<String, AuthError>(AuthError::PathTraversalAttempt),
        r is Ok ==> r->Ok_0@ == spec_join(spec_root(repo_root@, subject@), relative_path@),
{
    if subject.unicode_len() == 0 || is_absolute(subject) || is_absolute(relative_path)
        || has_parent_segment(relative_path) {
        return Err(AuthError::PathTraversalAttempt);
    }
    let root = sandbox_root(repo_root, subject);
    Ok(join_path(root.as_str(), relative_path))
}

} // verus!
