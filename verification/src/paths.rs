//! Safety guard for archive entry paths. An entry is extracted only when its
//! stored path stays inside the extraction root: it must be non-empty and
//! relative, free of NUL characters and backslash separators, and contain no
//! `..` component. This is stricter than strictly necessary (a `..` that
//! stays enclosed is also rejected), which can only keep more entries out of
//! the extraction root.
use vstd::prelude::*;
use vstd::string::StrSliceExecFns;

verus! {

/// A `..` path component starts at index `i` of `s`: the two dots are
/// delimited by the string's ends or by `/` separators.
pub open spec fn dotdot_at(s: Seq<char>, i: int) -> bool {
    &&& 0 <= i
    &&& i + 2 <= s.len()
    &&& s[i] == '.'
    &&& s[i + 1] == '.'
    &&& (i == 0 || s[i - 1] == '/')
    &&& (i + 2 == s.len() || s[i + 2] == '/')
}

/// The path contains a `..` component somewhere.
pub open spec fn has_traversal(s: Seq<char>) -> bool {
    exists|i: int| dotdot_at(s, i)
}

/// The stored entry path resolves to a location inside the extraction root
/// and names nothing the filesystem would refuse outright.
pub open spec fn safe_entry_path(s: Seq<char>) -> bool {
    &&& s.len() > 0
    &&& s[0] != '/'
    &&& (forall|k: int| 0 <= k < s.len() ==> s[k] != '\\' && s[k] != '\0')
    &&& !has_traversal(s)
}

/// The entry name denotes a directory: it ends with the path separator.
pub open spec fn is_dir_name(s: Seq<char>) -> bool {
    s.len() > 0 && s[s.len() - 1] == '/'
}

/// Decides whether an archive entry's stored path is safe to extract.
pub fn is_safe_entry_path(name: &str) -> (r: bool)
    ensures
        r == safe_entry_path(name@),
{
    let n = name.unicode_len();
    if n == 0 {
        return false;
    }
    if name.get_char(0) == '/' {
        return false;
    }
    let mut i: usize = 0;
    while i < n
        invariant
            n == name@.len(),
            0 < n,
            i <= n,
            name@[0] != '/',
            forall|k: int| 0 <= k < i ==> name@[k] != '\\' && name@[k] != '\0',
            forall|j: int| 0 <= j < i ==> !dotdot_at(name@, j),
        decreases n - i,
    {
        let c = name.get_char(i);
        if c == '\\' || c == '\0' {
            return false;
        }
        if c == '.' && n - i >= 2 && name.get_char(i + 1) == '.' {
            let left_ok = i == 0 || name.get_char(i - 1) == '/';
            let right_ok = i + 2 == n || name.get_char(i + 2) == '/';
            if left_ok && right_ok {
                proof {
                    assert(dotdot_at(name@, i as int));
                }
                return false;
            }
        }
        i = i + 1;
    }
    proof {
        assert forall|j: int| !dotdot_at(name@, j) by {
            if 0 <= j && j + 2 <= name@.len() {
                assert(j < n);
            }
        }
    }
    true
}

/// Decides whether an entry name denotes a directory.
pub fn is_dir_entry_name(name: &str) -> (r: bool)
    ensures
        r == is_dir_name(name@),
{
    let n = name.unicode_len();
    if n == 0 {
        return false;
    }
    name.get_char(n - 1) == '/'
}

} // verus!
