//! The directory-traversal guard applied to every requested asset key.

use vstd::prelude::*;

verus! {

/// Two consecutive dots occur somewhere in `s`.
pub open spec fn has_parent_marker(s: Seq<char>) -> bool {
    exists|i: int| 0 <= i && i + 1 < s.len() && s[i] == '.' && #[trigger] s[i + 1] == '.'
}

/// A backslash occurs somewhere in `s`.
pub open spec fn has_backslash(s: Seq<char>) -> bool {
    exists|i: int| 0 <= i < s.len() && #[trigger] s[i] == '\\'
}

/// The key must be refused: it could step out of the asset directory.
pub open spec fn is_unsafe_key(s: Seq<char>) -> bool {
    has_parent_marker(s) || has_backslash(s)
}

/// Decides whether an asset key must be refused.
pub fn is_unsafe_path(key: &str) -> (refused: bool)
    ensures
        refused == is_unsafe_key(key@),
{
    let mut after_dot = false;
    let mut found = false;
    for c in it: key.chars()
        invariant
            it.seq() == key@,
            found == is_unsafe_key(key@.take(it.index())),
            after_dot == (it.index() > 0 && key@[it.index() - 1] == '.'),
    {
        let ghost n = it.index();
        let ghost before = key@.take(n);
        let ghost after = key@.take(n + 1);
        proof {
            assert(forall|i: int| 0 <= i < n ==> before[i] == after[i]);
            assert(after[n] == c);
            if is_unsafe_key(before) {
                if has_parent_marker(before) {
                    let i = choose|i: int|
                        0 <= i && i + 1 < before.len() && before[i] == '.' && #[trigger] before[i
                            + 1] == '.';
                    assert(after[i] == '.' && after[i + 1] == '.');
                } else {
                    let i = choose|i: int| 0 <= i < before.len() && #[trigger] before[i] == '\\';
                    assert(after[i] == '\\');
                }
            }
        }
        if c == '\\' || (after_dot && c == '.') {
            proof {
                if c == '\\' {
                    assert(after[n] == '\\');
                } else {
                    assert(after[n - 1] == '.' && after[n - 1 + 1] == '.');
                }
            }
            found = true;
        }
        after_dot = c == '.';
    }
    proof {
        assert(key@.take(key@.len() as int) =~= key@);
    }
    found
}

} // verus!
