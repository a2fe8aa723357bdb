//! A minimal model of filesystem paths.
//!
//! Paths are plain UTF-8 strings.  Joining a root directory with a relative
//! path inserts a single `/` separator; an empty root stands for the current
//! working directory and joining against it leaves the path unchanged.

use vstd::prelude::*;

verus! {

/// The path produced by joining `root` and `path` with a `/` separator.
/// An empty root means "the current working directory": the path is kept as is.
pub open spec fn spec_join(root: Seq<char>, path: Seq<char>) -> Seq<char> {
    if root.len() == 0 {
        path
    } else {
        root + seq!['/'] + path
    }
}

/// A path is absolute when it starts with the separator.
pub open spec fn is_absolute(path: Seq<char>) -> bool {
    path.len() > 0 && path[0] == '/'
}

/// `prefix` is an initial segment of `s`.
pub open spec fn has_prefix(s: Seq<char>, prefix: Seq<char>) -> bool {
    prefix.len() <= s.len() && s.subrange(0, prefix.len() as int) == prefix
}

/// Join a root directory and a relative path, as [`spec_join`] describes.
pub fn join_path(root: &str, path: &str) -> (r: String)
    ensures
        r@ == spec_join(root@, path@),
{
    let n = root.unicode_len();
    if n == 0 {
        String::from_str(path)
    } else {
        let mut out = String::from_str(root);
        out.append("/");
        out.append(path);
        proof {
            reveal_strlit("/");
            assert(out@ =~= spec_join(root@, path@));
        }
        out
    }
}

/// Whether `s` starts with `prefix`, comparing character by character.
pub fn str_has_prefix(s: &str, prefix: &str) -> (r: bool)
    ensures
        r == has_prefix(s@, prefix@),
{
    let n = s.unicode_len();
    let m = prefix.unicode_len();
    if m > n {
        return false;
    }
    let mut i: usize = 0;
    while i < m
        invariant
            i <= m <= n,
            n == s@.len(),
            m == prefix@.len(),
            forall|j: int| 0 <= j < i ==> s@[j] == prefix@[j],
        decreases m - i,
    {
        if s.get_char(i) != prefix.get_char(i) {
            assert(s@[i as int] != prefix@[i as int]);
            assert(!has_prefix(s@, prefix@)) by {
                if has_prefix(s@, prefix@) {
                    assert(s@.subrange(0, m as int)[i as int] == s@[i as int]);
                }
            }
            return false;
        }
        i += 1;
    }
    assert(s@.subrange(0, m as int) =~= prefix@);
    true
}

/// Whether two string slices hold the same characters.
pub fn str_eq(a: &str, b: &str) -> (r: bool)
    ensures
        r == (a@ == b@),
{
    let n = a.unicode_len();
    let m = b.unicode_len();
    if n != m {
        return false;
    }
    let mut i: usize = 0;
    while i < n
        invariant
            i <= n,
            n == a@.len(),
            n == b@.len(),
            forall|j: int| 0 <= j < i ==> a@[j] == b@[j],
        decreases n - i,
    {
        if a.get_char(i) != b.get_char(i) {
            return false;
        }
        i += 1;
    }
    assert(a@ =~= b@);
    true
}

/// Whether `path` is absolute, as [`is_absolute`] describes.
pub fn path_is_absolute(path: &str) -> (r: bool)
    ensures
        r == is_absolute(path@),
{
    if path.unicode_len() == 0 {
        return false;
    }
    path.get_char(0) == '/'
}

} // verus!
