//! File-name helpers for the command-line layer: reading a path's
//! extension and locating it for error reports.
//!
//! A path's extension is the part after the last `'.'` of the path
//! string; a path without a `'.'` has none.

use vstd::prelude::*;

use crate::errors::FileFormatError;

verus! {

/// Index of the last `'.'` in `s`, or -1 when `s` has none.
pub open spec fn last_dot(s: Seq<char>) -> int
    decreases s.len(),
{
    if s.len() == 0 {
        -1
    } else if s[s.len() - 1] == '.' {
        s.len() - 1
    } else {
        last_dot(s.drop_last())
    }
}

/// Index of the first `'.'` in `s`, or -1 when `s` has none.
pub open spec fn first_dot(s: Seq<char>) -> int
    decreases s.len(),
{
    if s.len() == 0 {
        -1
    } else if s[0] == '.' {
        0
    } else if first_dot(s.drop_first()) == -1 {
        -1
    } else {
        first_dot(s.drop_first()) + 1
    }
}

/// The characters after the last `'.'` of `s`.
pub open spec fn extension_of(s: Seq<char>) -> Seq<char>
    recommends
        last_dot(s) >= 0,
{
    s.subrange(last_dot(s) + 1, s.len() as int)
}

/// A nonnegative `last_dot` is an index of a `'.'`, and `last_dot` never
/// reaches past the end.
pub proof fn lemma_last_dot_props(s: Seq<char>)
    ensures
        last_dot(s) < s.len(),
        last_dot(s) >= 0 ==> s[last_dot(s)] == '.',
    decreases s.len(),
{
    if s.len() > 0 && s[s.len() - 1] != '.' {
        lemma_last_dot_props(s.drop_last());
    }
}

proof fn lemma_last_dot_skip(s: Seq<char>, i: int)
    requires
        0 <= i <= s.len(),
        forall|j: int| i <= j < s.len() ==> s[j] != '.',
    ensures
        last_dot(s) == last_dot(s.take(i)),
    decreases s.len() - i,
{
    if i == s.len() {
        assert(s.take(i) =~= s);
    } else {
        assert(s[s.len() - 1] != '.');
        assert(s.drop_last() =~= s.take(s.len() - 1));
        lemma_last_dot_skip(s.take(s.len() - 1), i);
        assert(s.take(s.len() - 1).take(i) =~= s.take(i));
    }
}

proof fn lemma_first_dot_at(s: Seq<char>, i: int)
    requires
        0 <= i < s.len(),
        s[i] == '.',
        forall|j: int| 0 <= j < i ==> s[j] != '.',
    ensures
        first_dot(s) == i,
    decreases i,
{
    if i > 0 {
        assert(s[0] != '.');
        lemma_first_dot_at(s.drop_first(), i - 1);
    }
}

/// Reads the extension of `path`: everything after its last `'.'`.
/// Fails with `MissingExtension` exactly when `path` has no `'.'`.
pub fn extract_extension(path: &str) -> (r: Result<&str, FileFormatError>)
    ensures
        r is Ok <==> last_dot(path@) >= 0,
        r matches Ok(e) ==> e@ == extension_of(path@),
        r is Err ==> r == Err::<&str, FileFormatError>(FileFormatError::MissingExtension),
{
    let n = path.unicode_len();
    let mut i = n;
    while i > 0
        invariant
            i <= n,
            n == path@.len(),
            forall|j: int| i <= j < n ==> path@[j] != '.',
        decreases i,
    {
        let c = path.get_char(i - 1);
        if c == '.' {
            proof {
                lemma_last_dot_skip(path@, i as int);
                assert(path@.take(i as int)[i - 1] == '.');
                assert(last_dot(path@) == i - 1);
            }
            return Ok(path.substring_char(i, n));
        }
        i = i - 1;
    }
    proof {
        lemma_last_dot_skip(path@, 0);
    }
    Err(FileFormatError::MissingExtension)
}

/// Where the extension sits in `filename`, for error reports: the index
/// just past the first `'.'`, paired with the extension's size as the
/// caller supplies it.
pub fn extension_src(filename: &str, extension_size: usize) -> (r: (usize, usize))
    requires
        exists|j: int| 0 <= j < filename@.len() && filename@[j] == '.',
    ensures
        r.0 == first_dot(filename@) + 1,
        r.1 == extension_size,
{
    let n = filename.unicode_len();
    let mut i: usize = 0;
    while i < n
        invariant
            i <= n,
            n == filename@.len(),
            forall|j: int| 0 <= j < i ==> filename@[j] != '.',
            exists|j: int| 0 <= j < filename@.len() && filename@[j] == '.',
        decreases n - i,
    {
        let c = filename.get_char(i);
        if c == '.' {
            proof {
                lemma_first_dot_at(filename@, i as int);
            }
            return (i + 1, extension_size);
        }
        i = i + 1;
    }
    proof {
        let j = choose|j: int| 0 <= j < filename@.len() && filename@[j] == '.';
        assert(filename@[j] != '.');
        assert(false);
    }
    (0, extension_size)
}

/// Character-by-character equality of two string slices.
pub fn str_eq(a: &str, b: &str) -> (r: bool)
    ensures
        r == (a@ == b@),
{
    let na = a.unicode_len();
    let nb = b.unicode_len();
    if na != nb {
        return false;
    }
    let mut i: usize = 0;
    while i < na
        invariant
            i <= na,
            na == a@.len(),
            na == b@.len(),
            forall|j: int| 0 <= j < i ==> a@[j] == b@[j],
        decreases na - i,
    {
        let ca = a.get_char(i);
        let cb = b.get_char(i);
        if ca != cb {
            return false;
        }
        i += 1;
    }
    proof {
        assert(a@ =~= b@);
    }
    true
}

} // verus!
