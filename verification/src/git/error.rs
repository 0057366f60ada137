//! Errors of the git synchronization engine.
//!
//! Two families: transport and protocol failures coming out of libgit2 are
//! carried in `Git`; workflow conditions detected by this library have a
//! variant each, so that contracts can state exactly when each one arises.

use vstd::prelude::*;

verus! {

/// An error of the synchronization engine.
#[derive(Debug)]
pub enum GitError {
    /// A native git-layer error, carried through from libgit2.
    Git(git2::Error),
    /// An I/O-layer failure, described by its message.
    Io(String),
    /// A repository record was asked to open a repository before its path was set.
    PathNotSet,
    /// A repository full name was not of the form `org/name`.
    BadRepoName,
    /// A remote URL did not have the accepted shape.
    UnparsableRemoteUrl,
    /// The symbolic HEAD reference has no usable name.
    HeadHasNoName,
    /// The remote reported no default branch.
    NoDefaultBranch,
    /// The configured remote has no URL.
    MissingRemoteUrl,
    /// A revision string could not be resolved.
    RevparseFailed(String),
    /// A revision parse returned neither a single revision nor a range.
    InvalidRevspec,
    /// A scan found no repository.
    NoRepositoriesFound,
}

impl From<git2::Error> for GitError {
    fn from(e: git2::Error) -> (r: GitError)
        ensures
            r == GitError::Git(e),
    {
        GitError::Git(e)
    }
}

impl vstd::std_specs::convert::FromSpecImpl<git2::Error> for GitError {
    open spec fn obeys_from_spec() -> bool {
        true
    }

    open spec fn from_spec(e: git2::Error) -> GitError {
        GitError::Git(e)
    }
}

impl GitError {
    /// A short label naming the error family, for reporting.
    pub fn label(&self) -> (r: &'static str)
        ensures
            r@ == self.spec_label(),
    {
        match self {
            GitError::Git(_) => "git error",
            GitError::Io(_) => "io error",
            GitError::PathNotSet => "repository path not set",
            GitError::BadRepoName => "repo name must consist of {org}/{repo}",
            GitError::UnparsableRemoteUrl => "unparsable remote url",
            GitError::HeadHasNoName => "head has no name",
            GitError::NoDefaultBranch => "no default branch",
            GitError::MissingRemoteUrl => "remote has no url",
            GitError::RevparseFailed(_) => "unable to revparse",
            GitError::InvalidRevspec => "invalid results from revparse",
            GitError::NoRepositoriesFound => "no directories found",
        }
    }

    /// The label each variant carries.
    pub open spec fn spec_label(&self) -> Seq<char> {
        match self {
            GitError::Git(_) => "git error"@,
            GitError::Io(_) => "io error"@,
            GitError::PathNotSet => "repository path not set"@,
            GitError::BadRepoName => "repo name must consist of {org}/{repo}"@,
            GitError::UnparsableRemoteUrl => "unparsable remote url"@,
            GitError::HeadHasNoName => "head has no name"@,
            GitError::NoDefaultBranch => "no default branch"@,
            GitError::MissingRemoteUrl => "remote has no url"@,
            GitError::RevparseFailed(_) => "unable to revparse"@,
            GitError::InvalidRevspec => "invalid results from revparse"@,
            GitError::NoRepositoriesFound => "no directories found"@,
        }
    }
}

} // verus!
