//! Maps a repository name taken from a URL to the bare repository it names,
//! and screens the path segments that a client supplies.
use vstd::prelude::*;
use vstd::string::*;

verus! {

/// ASCII `'/'`.
pub const SLASH: u8 = 0x2f;

/// ASCII `'\\'`.
pub const BACKSLASH: u8 = 0x5c;

/// ASCII `'.'`.
pub const DOT: u8 = 0x2e;

/// Bytes that may not stand inside a single path segment.
pub open spec fn is_forbidden_in_segment(b: u8) -> bool {
    b == SLASH || b == BACKSLASH || b == 0
}

/// A single, non-empty path segment that names neither the directory
/// itself nor its parent.
pub open spec fn is_plain_segment(s: Seq<u8>) -> bool {
    &&& s.len() > 0
    &&& s != seq![DOT]
    &&& s != seq![DOT, DOT]
    &&& forall|i: int| 0 <= i < s.len() ==> !is_forbidden_in_segment(#[trigger] s[i])
}

/// Whether a `..` segment starts at position `i` of a `/`-separated path.
pub open spec fn is_parent_step_at(s: Seq<u8>, i: int) -> bool {
    &&& 0 <= i
    &&& i + 1 < s.len()
    &&& (i == 0 || s[i - 1] == SLASH)
    &&& s[i] == DOT
    &&& s[i + 1] == DOT
    &&& (i + 2 == s.len() || s[i + 2] == SLASH)
}

/// A relative, `/`-separated path that cannot climb out of the directory it
/// is joined to: non-empty, not absolute, no `..` segment, no backslash and
/// no NUL byte.
pub open spec fn is_contained_path(s: Seq<u8>) -> bool {
    &&& s.len() > 0
    &&& s[0] != SLASH
    &&& forall|i: int| 0 <= i < s.len() ==> #[trigger] s[i] != BACKSLASH && s[i] != 0
    &&& forall|i: int| !#[trigger] is_parent_step_at(s, i)
}

/// Where the bare repository `name` lives under `base`: `<base>/<name>.git`.
pub open spec fn repo_path(base: Seq<char>, name: Seq<char>) -> Seq<char> {
    base + "/"@ + name + ".git"@
}

/// Whether `s` is a plain path segment.
pub fn plain_segment(s: &[u8]) -> (r: bool)
    ensures
        r == is_plain_segment(s@),
{
    if s.len() == 0 {
        return false;
    }
    if s.len() <= 2 && s[0] == DOT && (s.len() == 1 || s[1] == DOT) {
        proof {
            if s@.len() == 1 {
                assert(s@ =~= seq![DOT]);
            } else {
                assert(s@ =~= seq![DOT, DOT]);
            }
        }
        return false;
    }
    let mut i: usize = 0;
    while i < s.len()
        invariant
            i <= s@.len(),
            forall|j: int| 0 <= j < i ==> !is_forbidden_in_segment(#[trigger] s@[j]),
        decreases s@.len() - i,
    {
        if s[i] == SLASH || s[i] == BACKSLASH || s[i] == 0 {
            return false;
        }
        i = i + 1;
    }
    proof {
        if s@ == seq![DOT] {
            assert(s@[0] == DOT);
        }
        if s@ == seq![DOT, DOT] {
            assert(s@[0] == DOT && s@[1] == DOT);
        }
    }
    true
}

/// Whether `s` is a relative path that stays inside the directory it is
/// joined to.
pub fn contained_path(s: &[u8]) -> (r: bool)
    ensures
        r == is_contained_path(s@),
{
    if s.len() == 0 || s[0] == SLASH {
        return false;
    }
    let n: usize = s.len();
    let mut i: usize = 0;
    while i < n
        invariant
            n == s@.len(),
            i <= n,
            forall|j: int| 0 <= j < i ==> #[trigger] s@[j] != BACKSLASH && s@[j] != 0,
            forall|j: int| 0 <= j < i ==> !#[trigger] is_parent_step_at(s@, j),
        decreases n - i,
    {
        if s[i] == BACKSLASH || s[i] == 0 {
            return false;
        }
        if (i == 0 || s[i - 1] == SLASH) && i + 1 < n && s[i] == DOT && s[i + 1] == DOT && (i + 2
            == n || s[i + 2] == SLASH) {
            assert(is_parent_step_at(s@, i as int));
            return false;
        }
        i = i + 1;
    }
    proof {
        assert forall|j: int| !#[trigger] is_parent_step_at(s@, j) by {
            if 0 <= j < n {
            }
        }
    }
    true
}

/// A repository that a request names, and where it is stored.
pub struct RepoHandle {
    pub name: String,
    pub path: String,
}

/// The repository called `name` under `base`; `None` where the name is not
/// a plain path segment, so that no name can reach outside `base`.
pub fn locate(base: &str, name: &str) -> (r: Option<RepoHandle>)
    ensures
        r is Some <==> is_plain_segment(name.spec_bytes()),
        r matches Some(h) ==> h.name@ == name@ && h.path@ == repo_path(base@, name@),
{
    if !plain_segment(name.as_bytes()) {
        return None;
    }
    let mut path = String::from_str(base);
    path.append("/");
    path.append(name);
    path.append(".git");
    Some(RepoHandle { name: String::from_str(name), path })
}

} // verus!
