//! Discovery of git repository roots under a directory.
//!
//! A scan without recursion examines only the root. A recursive scan walks
//! the subtree bounded by a depth and skips every directory whose path,
//! relative to the root, holds a segment starting with `.`; the root itself
//! is always examined, whatever its own name. A directory that does not open
//! as a repository is silently excluded.

use vstd::prelude::*;

use crate::git::error::GitError;
use crate::git::raw;
use crate::git::repo::GitRepository;
use crate::git::url::url_parts;
use crate::git::url::parse_remote_url;

verus! {

/// Whether a relative path holds a segment starting with `.`.
pub open spec fn has_hidden_segment(s: Seq<char>) -> bool {
    exists|i: int| 0 <= i < s.len() && #[trigger] s[i] == '.' && (i == 0 || s[i - 1] == '/')
}

/// Whether `p` may be visited by a scan rooted at `root`: it is the root
/// itself, or it extends the root and its relative part holds no hidden
/// segment.
pub open spec fn scan_visible(root: Seq<char>, p: Seq<char>) -> bool {
    ||| p == root
    ||| {
        &&& p.len() > root.len()
        &&& p.subrange(0, root.len() as int) == root
        &&& !has_hidden_segment(p.skip(rel_start(root, p)))
    }
}

/// Where the part of `p` relative to `root` starts: after the root, and
/// after the separator when one follows it.
pub open spec fn rel_start(root: Seq<char>, p: Seq<char>) -> int {
    if root.len() < p.len() && p[root.len() as int] == '/' {
        root.len() + 1int
    } else {
        root.len() as int
    }
}

/// Whether `s` holds a segment starting with `.`.
pub fn hidden_segment(s: &str) -> (r: bool)
    ensures
        r == has_hidden_segment(s@),
{
    let n = s.unicode_len();
    let mut i: usize = 0;
    while i < n
        invariant
            0 <= i <= n,
            n == s@.len(),
            forall|k: int|
                0 <= k < i ==> !(#[trigger] s@[k] == '.' && (k == 0 || s@[k - 1] == '/')),
        decreases n - i,
    {
        if s.get_char(i) == '.' && (i == 0 || s.get_char(i - 1) == '/') {
            return true;
        }
        i = i + 1;
    }
    false
}

/// Whether the two strings hold the same characters.
pub fn str_equal(a: &str, b: &str) -> (r: bool)
    ensures
        r == (a@ == b@),
{
    let n = a.unicode_len();
    let m = b.unicode_len();
    if n != m {
        return false;
    }
    let mut i: usize = 0;
    while i < n
        invariant
            0 <= i <= n,
            n == a@.len(),
            n == b@.len(),
            forall|k: int| 0 <= k < i ==> a@[k] == b@[k],
        decreases n - i,
    {
        if a.get_char(i) != b.get_char(i) {
            return false;
        }
        i = i + 1;
    }
    proof {
        assert(a@ =~= b@);
    }
    true
}

/// Scans for repository roots. Without recursion the root alone is examined:
/// a success holds exactly one entry, for the root itself, and a root that
/// does not open as a repository is the error. With recursion, every
/// directory the walk visits (the root, and each directory within the depth
/// bound whose relative path holds no hidden segment) that opens as a
/// repository is an entry, in walk order; a scan that finds none fails with
/// `NoRepositoriesFound`.
pub fn run(directory: &str, depth: usize, recurse: bool) -> (r: Result<
    Vec<(String, git2::Repository)>,
    GitError,
>)
    ensures
        !recurse ==> (r matches Ok(v) ==> v@.len() == 1 && v@[0].0@ == directory@),
        !recurse ==> (r matches Err(e) ==> e is Git),
        recurse ==> (r matches Ok(v) ==> v@.len() >= 1 && forall|i: int|
            0 <= i < v@.len() ==> scan_visible(directory@, (#[trigger] v@[i]).0@)),
        recurse ==> (r matches Err(e) ==> e is NoRepositoriesFound),
{
    if !recurse {
        match raw::repo_open(directory) {
            Ok(repo) => {
                let mut v: Vec<(String, git2::Repository)> = Vec::new();
                v.push((directory.to_owned(), repo));
                Ok(v)
            },
            Err(e) => Err(GitError::Git(e)),
        }
    } else {
        let entries = raw::walk_directories(directory, depth);
        let root_len = directory.unicode_len();
        let mut out: Vec<(String, git2::Repository)> = Vec::new();
        let mut i: usize = 0;
        while i < entries.len()
            invariant
                forall|j: int|
                    0 <= j < out@.len() ==> scan_visible(directory@, (#[trigger] out@[j]).0@),
                root_len == directory@.len(),
                forall|j: int|
                    0 <= j < entries@.len() ==> {
                        &&& (#[trigger] entries@[j]).0@.len() >= directory@.len()
                        &&& entries@[j].0@.subrange(0, directory@.len() as int) == directory@
                        &&& (entries@[j].1 == 0 ==> entries@[j].0@ == directory@)
                    },
            decreases entries@.len() - i,
        {
            let p: &String = &entries[i].0;
            let p_len = p.as_str().unicode_len();
            let visible: bool;
            if entries[i].1 == 0 || p_len == root_len {
                proof {
                    assert(p@ =~= directory@);
                }
                visible = true;
            } else {
                let start = if p.as_str().get_char(root_len) == '/' {
                    root_len + 1
                } else {
                    root_len
                };
                let rel = p.as_str().substring_char(start, p_len);
                visible = !hidden_segment(rel);
            }
            if visible {
                match raw::repo_open(p.as_str()) {
                    Ok(repo) => {
                        out.push((p.clone(), repo));
                    },
                    Err(_) => {},
                }
            }
            i = i + 1;
        }
        if out.len() > 0 {
            Ok(out)
        } else {
            Err(GitError::NoRepositoriesFound)
        }
    }
}

/// The path recorded for a scanned repository: `.` when the repository is
/// the scan's working directory itself, and the relative path otherwise.
pub fn is_root_repo(p: &str, file_path: &str, cwd: &str) -> (r: Option<String>)
    ensures
        file_path@ == cwd@ ==> (r matches Some(s) && s@ == "."@),
        file_path@ != cwd@ ==> (r matches Some(s) && s@ == p@),
{
    if str_equal(file_path, cwd) {
        Some(".".to_owned())
    } else {
        Some(p.to_owned())
    }
}

/// The record a scan builds for a discovered repository: named from its
/// remote URL when one is set and parses, and from the directory name
/// otherwise; the URL and the relative path are carried as given.
pub fn scanned_record(url: Option<String>, dir: String, rel_path: Option<String>) -> (r:
    GitRepository)
    ensures
        r.url == url,
        r.path == rel_path,
        match url {
            Some(u) => match url_parts(u@) {
                Some(parts) => (r.org matches Some(o) && o@ == parts.0) && r.name@ == parts.1,
                None => r.org is None && r.name@ == dir@,
            },
            None => r.org is None && r.name@ == dir@,
        },
{
    match &url {
        Some(u) => match parse_remote_url(u.as_str()) {
            Ok((name, org)) => GitRepository { name, org, url, path: rel_path },
            Err(_) => GitRepository { name: dir, org: None, url, path: rel_path },
        },
        None => GitRepository { name: dir, org: None, url, path: rel_path },
    }
}

} // verus!
