//! Glob-based ignore-pattern evaluation and file-extension extraction.
//!
//! Paths are handled in their string form with `/` as the separator; the
//! calling layer normalizes platform separators before handing a path in.
//! An unparsable ignore pattern is treated as never-matching, so one
//! malformed rule cannot stop the watcher.

use vstd::prelude::*;
use vstd::string::*;

verus! {

/// Whether `glob::Pattern::new` accepts this pattern. The outcome depends on
/// the pattern string alone.
pub uninterp spec fn pattern_compiles(pattern: Seq<char>) -> bool;

/// Whether the compiled pattern glob-matches the path. The outcome depends
/// on the two strings alone.
pub uninterp spec fn pattern_match(pattern: Seq<char>, path: Seq<char>) -> bool;

/// One pattern ignores a path when it both compiles and matches; a pattern
/// that fails to compile is skipped rather than treated as an error.
pub open spec fn spec_pattern_ignores(pattern: Seq<char>, path: Seq<char>) -> bool {
    pattern_compiles(pattern) && pattern_match(pattern, path)
}

/// A path is ignored when some pattern in the ordered list ignores it.
pub open spec fn spec_ignored(path: Seq<char>, patterns: Seq<Seq<char>>) -> bool {
    exists|m: int| 0 <= m < patterns.len() && spec_pattern_ignores(patterns[m], path)
}

/// Relies on `glob::Pattern::new` (whether the pattern compiles) and
/// `glob::Pattern::matches` (whether it matches the path): both results are
/// functions of the two strings alone, and neither call panics.
#[verifier::external_body]
fn glob_pattern_ignores(pattern: &String, path: &str) -> (r: bool)
    ensures
        r == (pattern_compiles(pattern@) && pattern_match(pattern@, path@)),
{
    match glob::Pattern::new(pattern.as_str()) {
        Ok(p) => p.matches(path),
        Err(_) => false,
    }
}

/// Whether any pattern in the ordered ignore list glob-matches the path.
pub fn should_ignore(path: &str, ignore_patterns: &Vec<String>) -> (r: bool)
    ensures
        r == spec_ignored(path@, ignore_patterns.deep_view()),
{
    let mut idx: usize = 0;
    while idx < ignore_patterns.len()
        invariant
            0 <= idx <= ignore_patterns@.len(),
            forall|m: int| 0 <= m < idx ==> !spec_pattern_ignores(
                #[trigger] ignore_patterns.deep_view()[m],
                path@,
            ),
        decreases ignore_patterns@.len() - idx,
    {
        if glob_pattern_ignores(&ignore_patterns[idx], path) {
            assert(ignore_patterns.deep_view()[idx as int] == ignore_patterns@[idx as int]@);
            return true;
        }
        idx += 1;
    }
    false
}

/// The index of the last occurrence of `c` in `s`, or -1 when `c` does not
/// occur.
pub open spec fn spec_last_index(s: Seq<char>, c: char) -> int
    decreases s.len(),
{
    if s.len() == 0 {
        -1
    } else if s.last() == c {
        s.len() - 1
    } else {
        spec_last_index(s.drop_last(), c)
    }
}

/// The part of the path after the last separator; empty when the path ends
/// in a separator.
pub open spec fn spec_file_name(path: Seq<char>) -> Seq<char> {
    path.subrange(spec_last_index(path, '/') + 1, path.len() as int)
}

/// The extension of the path's file name: the part after the last dot,
/// unless there is no dot or the only dot starts the file name (a hidden
/// file such as `.gitignore` has no extension).
pub open spec fn spec_extension(path: Seq<char>) -> Option<Seq<char>> {
    let f = spec_file_name(path);
    let d = spec_last_index(f, '.');
    if d >= 1 {
        Some(f.subrange(d + 1, f.len() as int))
    } else {
        None
    }
}

/// If every position at `k` or later differs from `c`, and `k` is either the
/// start or preceded by `c`, then the last occurrence of `c` is at `k - 1`.
proof fn lemma_last_index_boundary(s: Seq<char>, c: char, k: int)
    requires
        0 <= k <= s.len(),
        forall|m: int| k <= m < s.len() ==> s[m] != c,
        k == 0 || s[k - 1] == c,
    ensures
        spec_last_index(s, c) == k - 1,
    decreases s.len(),
{
    if s.len() == 0 {
    } else if s.last() == c {
        assert(s[s.len() - 1] == c);
        if k < s.len() {
            assert(s[s.len() - 1] != c);
        }
    } else {
        assert(s[s.len() - 1] != c);
        assert(k < s.len());
        assert(forall|m: int| k <= m < s.len() - 1 ==> s.drop_last()[m] != c);
        lemma_last_index_boundary(s.drop_last(), c, k);
    }
}

/// The extension of the path, as `std` defines it for file names, computed
/// on the path's string form.
pub fn extension_of(path: &str) -> (r: Option<String>)
    ensures
        r.deep_view() == spec_extension(path@),
{
    let n = path.unicode_len();
    let mut i: usize = n;
    while i > 0 && path.get_char(i - 1) != '/'
        invariant
            n == path@.len(),
            0 <= i <= n,
            forall|m: int| i <= m < n ==> path@[m] != '/',
        decreases i,
    {
        i = i - 1;
    }
    proof {
        lemma_last_index_boundary(path@, '/', i as int);
    }
    let ghost f = spec_file_name(path@);
    assert(f =~= path@.subrange(i as int, n as int));
    let mut j: usize = n;
    while j > i && path.get_char(j - 1) != '.'
        invariant
            n == path@.len(),
            0 <= i <= j <= n,
            forall|m: int| j <= m < n ==> path@[m] != '.',
        decreases j,
    {
        j = j - 1;
    }
    proof {
        assert(forall|m: int| j - i <= m < f.len() ==> f[m] != '.');
        lemma_last_index_boundary(f, '.', j - i);
    }
    if j - i >= 2 {
        let e = path.substring_char(j, n);
        assert(e@ =~= f.subrange(j - i, f.len() as int));
        Some(e.to_owned())
    } else {
        None
    }
}

} // verus!
