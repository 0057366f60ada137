//! Parsing of remote URLs into an organization and a repository name.
//!
//! The accepted shape, anchored at the start of the string, is the scheme
//! `https` or `git`, an optional `://`, an optional `@`, a host (a non-empty
//! run of word characters, one separator character, then `com`), `:` or `/`,
//! the organization (a non-empty run of word characters), `/`, and the name
//! (a non-empty run of word characters or `-`). Anything after the name
//! (such as `.git`) is ignored.

use vstd::prelude::*;

use crate::git::error::GitError;

verus! {

/// Word characters of the URL grammar: ASCII letters, digits and `_`.
pub open spec fn is_word_char(c: char) -> bool {
    ('a' <= c && c <= 'z') || ('A' <= c && c <= 'Z') || ('0' <= c && c <= '9') || c == '_'
}

/// Characters allowed in a repository name: word characters and `-`.
pub open spec fn is_name_char(c: char) -> bool {
    is_word_char(c) || c == '-'
}

/// End of the maximal run of characters satisfying `p` that starts at `i`.
pub open spec fn run_end(s: Seq<char>, i: int, p: spec_fn(char) -> bool) -> int
    decreases s.len() - i
    when 0 <= i <= s.len()
{
    if i == s.len() || !p(s[i]) {
        i
    } else {
        run_end(s, i + 1, p)
    }
}

/// `run_end` stays between `i` and the length of `s`, everything in the run
/// satisfies `p`, and the run cannot be extended.
pub proof fn lemma_run_end_bounds(s: Seq<char>, i: int, p: spec_fn(char) -> bool)
    requires
        0 <= i <= s.len(),
    ensures
        i <= run_end(s, i, p) <= s.len(),
        forall|k: int| i <= k < run_end(s, i, p) ==> p(s[k]),
        run_end(s, i, p) < s.len() ==> !p(s[run_end(s, i, p)]),
    decreases s.len() - i,
{
    if i < s.len() && p(s[i]) {
        lemma_run_end_bounds(s, i + 1, p);
    }
}

/// A position `j` with the three properties of `lemma_run_end_bounds` is the
/// run end.
pub proof fn lemma_run_end_unique(s: Seq<char>, i: int, j: int, p: spec_fn(char) -> bool)
    requires
        0 <= i <= j <= s.len(),
        forall|k: int| i <= k < j ==> p(s[k]),
        j < s.len() ==> !p(s[j]),
    ensures
        run_end(s, i, p) == j,
    decreases s.len() - i,
{
    if i < s.len() && p(s[i]) {
        lemma_run_end_unique(s, i + 1, j, p);
    }
}

/// Length of the scheme that `s` starts with: `https`, or `git`.
pub open spec fn scheme_end(s: Seq<char>) -> Option<int> {
    if s.len() >= 5 && s.subrange(0, 5) == seq!['h', 't', 't', 'p', 's'] {
        Some(5int)
    } else if s.len() >= 3 && s.subrange(0, 3) == seq!['g', 'i', 't'] {
        Some(3int)
    } else {
        None
    }
}

/// Position after the optional `://` and the optional `@` that follow the
/// scheme ending at `e`.
pub open spec fn after_scheme(s: Seq<char>, e: int) -> int {
    let e1 = if e + 3 <= s.len() && s[e] == ':' && s[e + 1] == '/' && s[e + 2] == '/' {
        e + 3
    } else {
        e
    };
    if e1 < s.len() && s[e1] == '@' {
        e1 + 1
    } else {
        e1
    }
}

/// The organization and name extracted from `s`, or `None` when `s` does not
/// have the accepted shape.
pub open spec fn url_parts(s: Seq<char>) -> Option<(Seq<char>, Seq<char>)> {
    match scheme_end(s) {
        Option::None => Option::None,
        Option::Some(e0) => {
            let h = after_scheme(s, e0);
            let he = run_end(s, h, |c: char| is_word_char(c));
            if he == h || he + 5 > s.len() {
                Option::None
            } else if !(s[he + 1] == 'c' && s[he + 2] == 'o' && s[he + 3] == 'm') {
                Option::None
            } else if !(s[he + 4] == ':' || s[he + 4] == '/') {
                Option::None
            } else {
                let k = he + 5;
                let oe = run_end(s, k, |c: char| is_word_char(c));
                if oe == k || oe >= s.len() || s[oe] != '/' {
                    Option::None
                } else {
                    let ne = run_end(s, oe + 1, |c: char| is_name_char(c));
                    if ne == oe + 1 {
                        Option::None
                    } else {
                        Option::Some((s.subrange(k, oe), s.subrange(oe + 1, ne)))
                    }
                }
            }
        },
    }
}

/// Whether `c` is a word character.
pub fn word_char(c: char) -> (r: bool)
    ensures
        r == is_word_char(c),
{
    ('a' <= c && c <= 'z') || ('A' <= c && c <= 'Z') || ('0' <= c && c <= '9') || c == '_'
}

/// Whether `c` is allowed in a repository name.
pub fn name_char(c: char) -> (r: bool)
    ensures
        r == is_name_char(c),
{
    word_char(c) || c == '-'
}

/// Extracts the repository name and organization from a remote URL.
///
/// Returns `Ok((name, Some(org)))` exactly when the URL has the accepted
/// shape, and `Err(GitError::UnparsableRemoteUrl)` otherwise.
pub fn parse_remote_url(url: &str) -> (r: Result<(String, Option<String>), GitError>)
    ensures
        match r {
            Ok((name, org)) => {
                &&& url_parts(url@) matches Some(parts)
                &&& org matches Some(o) && o@ == parts.0
                &&& name@ == parts.1
            },
            Err(e) => url_parts(url@) is None && e is UnparsableRemoteUrl,
        },
{
    let n = url.unicode_len();

    // Scheme.
    let e0: usize;
    if n >= 5 && url.get_char(0) == 'h' && url.get_char(1) == 't' && url.get_char(2) == 't'
        && url.get_char(3) == 'p' && url.get_char(4) == 's' {
        e0 = 5;
        proof {
            assert(url@.subrange(0, 5) =~= seq!['h', 't', 't', 'p', 's']);
        }
    } else if n >= 3 && url.get_char(0) == 'g' && url.get_char(1) == 'i' && url.get_char(2) == 't' {
        e0 = 3;
        proof {
            assert(url@.subrange(0, 3) =~= seq!['g', 'i', 't']);
            if url@.len() >= 5 && url@.subrange(0, 5) == seq!['h', 't', 't', 'p', 's'] {
                assert(url@.subrange(0, 5)[0] == 'h');
            }
        }
    } else {
        proof {
            if url@.len() >= 5 && url@.subrange(0, 5) == seq!['h', 't', 't', 'p', 's'] {
                assert(url@.subrange(0, 5)[0] == 'h');
                assert(url@.subrange(0, 5)[1] == 't');
                assert(url@.subrange(0, 5)[2] == 't');
                assert(url@.subrange(0, 5)[3] == 'p');
                assert(url@.subrange(0, 5)[4] == 's');
            }
            if url@.len() >= 3 && url@.subrange(0, 3) == seq!['g', 'i', 't'] {
                assert(url@.subrange(0, 3)[0] == 'g');
                assert(url@.subrange(0, 3)[1] == 'i');
                assert(url@.subrange(0, 3)[2] == 't');
            }
        }
        return Err(GitError::UnparsableRemoteUrl);
    }
    assert(scheme_end(url@) == Some(e0 as int));

    // Optional "://", then optional "@".
    let mut h = e0;
    if e0 + 3 <= n && url.get_char(e0) == ':' && url.get_char(e0 + 1) == '/'
        && url.get_char(e0 + 2) == '/' {
        h = e0 + 3;
    }
    if h < n && url.get_char(h) == '@' {
        h = h + 1;
    }
    assert(h == after_scheme(url@, e0 as int));

    // Host: a non-empty word run, one separator character, then "com",
    // then the separator before the organization.
    let he = scan_word_run(url, h);
    if he == h || n - he < 5 {
        return Err(GitError::UnparsableRemoteUrl);
    }
    if !(url.get_char(he + 1) == 'c' && url.get_char(he + 2) == 'o' && url.get_char(he + 3) == 'm') {
        return Err(GitError::UnparsableRemoteUrl);
    }
    if !(url.get_char(he + 4) == ':' || url.get_char(he + 4) == '/') {
        return Err(GitError::UnparsableRemoteUrl);
    }

    // Organization: a non-empty word run ended by '/'.
    let k = he + 5;
    let oe = scan_word_run(url, k);
    if oe == k || oe >= n || url.get_char(oe) != '/' {
        return Err(GitError::UnparsableRemoteUrl);
    }

    // Name: a non-empty run of name characters.
    let ne = scan_name_run(url, oe + 1);
    if ne == oe + 1 {
        return Err(GitError::UnparsableRemoteUrl);
    }

    let org = url.substring_char(k, oe).to_owned();
    let name = url.substring_char(oe + 1, ne).to_owned();
    Ok((name, Some(org)))
}

/// End of the maximal run of word characters of `s` starting at `i`.
fn scan_word_run(s: &str, i: usize) -> (j: usize)
    requires
        i <= s@.len(),
    ensures
        j == run_end(s@, i as int, |c: char| is_word_char(c)),
        i <= j <= s@.len(),
{
    let n = s.unicode_len();
    let mut j = i;
    while j < n && word_char(s.get_char(j))
        invariant
            i <= j <= n,
            n == s@.len(),
            forall|k: int| i <= k < j ==> is_word_char(s@[k]),
        decreases n - j,
    {
        j = j + 1;
    }
    proof {
        lemma_run_end_unique(s@, i as int, j as int, |c: char| is_word_char(c));
    }
    j
}

/// End of the maximal run of name characters of `s` starting at `i`.
fn scan_name_run(s: &str, i: usize) -> (j: usize)
    requires
        i <= s@.len(),
    ensures
        j == run_end(s@, i as int, |c: char| is_name_char(c)),
        i <= j <= s@.len(),
{
    let n = s.unicode_len();
    let mut j = i;
    while j < n && name_char(s.get_char(j))
        invariant
            i <= j <= n,
            n == s@.len(),
            forall|k: int| i <= k < j ==> is_name_char(s@[k]),
        decreases n - j,
    {
        j = j + 1;
    }
    proof {
        lemma_run_end_unique(s@, i as int, j as int, |c: char| is_name_char(c));
    }
    j
}

} // verus!
