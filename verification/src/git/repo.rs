//! The repository record and the synchronization engine.
//!
//! A `GitRepository` is a plain record `{org, name, url, path}`. The engine
//! opens the on-disk repository fresh for every operation and drives libgit2
//! through the trusted boundary in `raw`; every decision between two calls is
//! verified here.

use vstd::prelude::*;

use crate::config::RepositoryRegistry;
use crate::git::error::GitError;
use crate::git::raw;

verus! {

/// Transfer counters reported by a fetch, for progress reporting. Purely
/// observational: no decision of the engine depends on them.
pub struct TransferStats {
    pub received_objects: usize,
    pub indexed_objects: usize,
    pub total_objects: usize,
    pub received_bytes: usize,
    pub local_objects: usize,
    pub indexed_deltas: usize,
    pub total_deltas: usize,
}

impl TransferStats {
    /// The counters, in the order received objects, indexed objects, total
    /// objects, received bytes, local objects, indexed deltas, total deltas.
    pub fn from_counts(counts: (usize, usize, usize, usize, usize, usize, usize)) -> (r:
        TransferStats)
        ensures
            r.received_objects == counts.0,
            r.indexed_objects == counts.1,
            r.total_objects == counts.2,
            r.received_bytes == counts.3,
            r.local_objects == counts.4,
            r.indexed_deltas == counts.5,
            r.total_deltas == counts.6,
    {
        TransferStats {
            received_objects: counts.0,
            indexed_objects: counts.1,
            total_objects: counts.2,
            received_bytes: counts.3,
            local_objects: counts.4,
            indexed_deltas: counts.5,
            total_deltas: counts.6,
        }
    }
}

/// The classification a merge analysis gives of a fetched commit against the
/// local HEAD.
#[derive(Clone, Copy, PartialEq, Eq, Structural, Debug)]
pub enum MergeKind {
    /// The fetched commit is a strict descendant of the local tip.
    FastForward,
    /// The histories have diverged: a three-way merge is needed.
    Normal,
    /// The local tip already contains the fetched commit.
    UpToDate,
    /// The local branch has no history yet: the fetched commit can only be
    /// checked out by creating the branch, the fast-forward creation case.
    Unborn,
    /// No merge is possible.
    Nothing,
}

/// What a merge dispatch did.
#[derive(Clone, Copy, PartialEq, Eq, Structural, Debug)]
pub enum MergeOutcome {
    /// The local branch reference was moved forward to the fetched commit.
    FastForwarded,
    /// The local branch did not exist yet and was created at the fetched commit.
    CreatedBranch,
    /// A merge commit with the two tips as parents was created.
    Merged,
    /// The three-way merge conflicted; the conflicts were materialized into
    /// the working tree and no commit was created.
    Conflicts,
    /// Nothing needed doing.
    NoneNeeded,
}

/// The action the engine takes for a merge classification.
#[derive(Clone, Copy, PartialEq, Eq, Structural, Debug)]
pub enum MergeAction {
    /// Move the existing local branch reference to the fetched commit.
    FastForwardExisting,
    /// Create the local branch at the fetched commit and check it out.
    CreateBranch,
    /// Compute the merge base and three-way-merge the trees.
    ThreeWayMerge,
    /// Leave everything as it is.
    NoAction,
}

/// What a clone did.
#[derive(Clone, Copy, PartialEq, Eq, Structural, Debug)]
pub enum CloneOutcome {
    /// The repository was cloned and the record's path was set.
    Cloned,
    /// The destination already existed: nothing was transferred and the
    /// record is unchanged.
    AlreadyExists,
}

/// What a revision parse reported: the endpoint ids and the mode flags.
pub struct RevInfo {
    pub from_id: Option<String>,
    pub to_id: Option<String>,
    pub single: bool,
    pub range: bool,
    pub merge_base: bool,
}

/// The report of a pull: the branch that was merged, the analysis of the
/// fetched commit, what was done about it, and the transfer counters.
pub struct PullReport {
    pub branch: String,
    pub kind: MergeKind,
    pub outcome: MergeOutcome,
    pub stats: TransferStats,
}

/// The dispatch rule of the engine: which action each merge classification
/// calls for, given whether the local branch reference exists.
pub open spec fn spec_merge_action(kind: MergeKind, branch_exists: bool) -> MergeAction {
    match kind {
        MergeKind::FastForward => if branch_exists {
            MergeAction::FastForwardExisting
        } else {
            MergeAction::CreateBranch
        },
        MergeKind::Normal => MergeAction::ThreeWayMerge,
        MergeKind::UpToDate => MergeAction::NoAction,
        MergeKind::Unborn => if branch_exists {
            MergeAction::FastForwardExisting
        } else {
            MergeAction::CreateBranch
        },
        MergeKind::Nothing => MergeAction::NoAction,
    }
}

/// The action the engine takes for a merge classification.
pub fn merge_action(kind: MergeKind, branch_exists: bool) -> (a: MergeAction)
    ensures
        a == spec_merge_action(kind, branch_exists),
{
    match kind {
        MergeKind::FastForward | MergeKind::Unborn => if branch_exists {
            MergeAction::FastForwardExisting
        } else {
            MergeAction::CreateBranch
        },
        MergeKind::Normal => MergeAction::ThreeWayMerge,
        _ => MergeAction::NoAction,
    }
}

/// The staging rule of `add` with `update`: a path stays (0) exactly when it
/// is already tracked and its working tree is modified, and is skipped (1)
/// otherwise — a new, untracked path is never staged by an update pass.
pub fn stage_entry(wt_modified: bool) -> (r: i32)
    ensures
        r == if wt_modified { 0int } else { 1int },
{
    if wt_modified {
        0
    } else {
        1
    }
}

/// First position of `c` in `s` at or after `i`, or the length of `s`.
pub open spec fn find_char(s: Seq<char>, c: char, i: int) -> int
    decreases s.len() - i
    when 0 <= i <= s.len()
{
    if i == s.len() || s[i] == c {
        i
    } else {
        find_char(s, c, i + 1)
    }
}

/// `find_char` is the first occurrence: it is within bounds, nothing before
/// it matches, and it points at `c` unless it is the length.
pub proof fn lemma_find_char(s: Seq<char>, c: char, i: int)
    requires
        0 <= i <= s.len(),
    ensures
        i <= find_char(s, c, i) <= s.len(),
        forall|k: int| i <= k < find_char(s, c, i) ==> s[k] != c,
        find_char(s, c, i) < s.len() ==> s[find_char(s, c, i)] == c,
    decreases s.len() - i,
{
    if i < s.len() && s[i] != c {
        lemma_find_char(s, c, i + 1);
    }
}

/// A position with the properties of `lemma_find_char` is `find_char`.
pub proof fn lemma_find_char_unique(s: Seq<char>, c: char, i: int, j: int)
    requires
        0 <= i <= j <= s.len(),
        forall|k: int| i <= k < j ==> s[k] != c,
        j < s.len() ==> s[j] == c,
    ensures
        find_char(s, c, i) == j,
    decreases s.len() - i,
{
    if i < s.len() && s[i] != c {
        lemma_find_char_unique(s, c, i + 1, j);
    }
}

/// A full name is `org/name`: exactly one `/`.
pub open spec fn valid_full_name(s: Seq<char>) -> bool {
    let i = find_char(s, '/', 0);
    i < s.len() && find_char(s, '/', i + 1) == s.len()
}

/// First position of `c` in `s` at or after `i`, or the length of `s`.
pub fn scan_char(s: &str, c: char, i: usize) -> (j: usize)
    requires
        i <= s@.len(),
    ensures
        j == find_char(s@, c, i as int),
        i <= j <= s@.len(),
{
    let n = s.unicode_len();
    let mut j = i;
    while j < n && s.get_char(j) != c
        invariant
            i <= j <= n,
            n == s@.len(),
            forall|k: int| i <= k < j ==> s@[k] != c,
        decreases n - j,
    {
        j = j + 1;
    }
    proof {
        lemma_find_char_unique(s@, c, i as int, j as int);
    }
    j
}

/// Start of the suffix of `s` after the last `stop` at a position below `i`.
pub open spec fn tail_start(s: Seq<char>, i: int, stop: char) -> int
    decreases i
    when 0 <= i <= s.len()
{
    if i == 0 || s[i - 1] == stop {
        i
    } else {
        tail_start(s, i - 1, stop)
    }
}

/// The part of `s` after its last `stop`, or all of `s` when it has none.
pub open spec fn after_last(s: Seq<char>, stop: char) -> Seq<char> {
    s.subrange(tail_start(s, s.len() as int, stop), s.len() as int)
}

/// A position with no `stop` at or after it, preceded by `stop` or the
/// start, is `tail_start`.
pub proof fn lemma_tail_start_unique(s: Seq<char>, i: int, j: int, stop: char)
    requires
        0 <= j <= i <= s.len(),
        forall|k: int| j <= k < i ==> s[k] != stop,
        j > 0 ==> s[j - 1] == stop,
    ensures
        tail_start(s, i, stop) == j,
    decreases i,
{
    if !(i == 0 || s[i - 1] == stop) {
        lemma_tail_start_unique(s, i - 1, j, stop);
    }
}

/// The part of `s` after its last `stop`, or all of `s` when it has none.
pub fn last_segment(s: &str, stop: char) -> (r: String)
    ensures
        r@ == after_last(s@, stop),
{
    let n = s.unicode_len();
    let mut j = n;
    while j > 0 && s.get_char(j - 1) != stop
        invariant
            0 <= j <= n,
            n == s@.len(),
            forall|k: int| j <= k < n ==> s@[k] != stop,
        decreases j,
    {
        j = j - 1;
    }
    proof {
        lemma_tail_start_unique(s@, n as int, j as int, stop);
    }
    s.substring_char(j, n).to_owned()
}

/// The fixed location of the SSH key used for authenticated transport:
/// `.ssh/id_ed25519` under the given home directory. No passphrase and no
/// agent are supported; a caller substitutes another source by passing a
/// different path to the engine.
pub fn ssh_key_path(home: &str) -> (r: String)
    ensures
        r@ == home@ + "/.ssh/id_ed25519"@,
{
    let mut r = String::new();
    r.append(home);
    r.append("/.ssh/id_ed25519");
    proof {
        assert(r@ =~= home@ + "/.ssh/id_ed25519"@);
    }
    r
}

/// The full reference name of a branch.
pub fn branch_refname(branch: &str) -> (r: String)
    ensures
        r@ == "refs/heads/"@ + branch@,
{
    let mut r = String::new();
    r.append("refs/heads/");
    r.append(branch);
    proof {
        assert(r@ =~= "refs/heads/"@ + branch@);
    }
    r
}

/// The ref-spec that pushes a reference to the same name on the remote.
pub fn refspec_for(refname: &str) -> (r: String)
    ensures
        r@ == refname@ + ":"@ + refname@,
{
    let mut r = String::new();
    r.append(refname);
    r.append(":");
    r.append(refname);
    proof {
        assert(r@ =~= refname@ + ":"@ + refname@);
    }
    r
}

/// `root/name`, the destination a clone of `name` under `root` uses.
pub fn join_path(root: &str, name: &str) -> (r: String)
    ensures
        r@ == root@ + "/"@ + name@,
{
    let mut r = String::new();
    r.append(root);
    r.append("/");
    r.append(name);
    proof {
        assert(r@ =~= root@ + "/"@ + name@);
    }
    r
}

/// The commit message of a merge commit.
pub fn merge_message(remote_id: &str, local_id: &str) -> (r: String)
    ensures
        r@ == "Merge: "@ + remote_id@ + " into "@ + local_id@,
{
    let mut r = String::new();
    r.append("Merge: ");
    r.append(remote_id);
    r.append(" into ");
    r.append(local_id);
    proof {
        assert(r@ =~= "Merge: "@ + remote_id@ + " into "@ + local_id@);
    }
    r
}

/// The reflog message written when a reference is moved or created at a
/// commit.
pub fn setting_message(prefix: &str, name: &str, id: &str) -> (r: String)
    ensures
        r@ == prefix@ + name@ + " to "@ + id@,
{
    let mut r = String::new();
    r.append(prefix);
    r.append(name);
    r.append(" to ");
    r.append(id);
    proof {
        assert(r@ =~= prefix@ + name@ + " to "@ + id@);
    }
    r
}

/// Which outcomes a classification can end in, whether or not the local
/// branch reference existed.
pub open spec fn kind_allows(kind: MergeKind, o: MergeOutcome) -> bool {
    match kind {
        MergeKind::FastForward => o is FastForwarded || o is CreatedBranch,
        MergeKind::Normal => o is Merged || o is Conflicts,
        MergeKind::UpToDate => o is NoneNeeded,
        MergeKind::Unborn => o is FastForwarded || o is CreatedBranch,
        MergeKind::Nothing => o is NoneNeeded,
    }
}

/// Moves the existing local branch reference to the fetched commit, points
/// HEAD at it and force-checks-out the working tree (this overwrites
/// uncommitted changes: documented destructive behavior of a pull).
fn fast_forward(repo: &git2::Repository, refname: &str, target_id: &str) -> (r: Result<
    (),
    GitError,
>)
    ensures
        r matches Err(e) ==> e is Git,
{
    let msg = setting_message("Fast-Forward: Setting ", refname, target_id);
    match raw::set_reference_target(repo, refname, target_id, msg.as_str()) {
        Ok(()) => {},
        Err(e) => {
            return Err(GitError::Git(e));
        },
    }
    match raw::set_head(repo, refname) {
        Ok(()) => {},
        Err(e) => {
            return Err(GitError::Git(e));
        },
    }
    match raw::checkout_head_force(repo) {
        Ok(()) => Ok(()),
        Err(e) => Err(GitError::Git(e)),
    }
}

/// Creates the local branch at the fetched commit, points HEAD at it and
/// checks the working tree out.
fn create_branch_at(repo: &git2::Repository, refname: &str, branch: &str, target_id: &str) -> (r:
    Result<(), GitError>)
    ensures
        r matches Err(e) ==> e is Git,
{
    let msg = setting_message("Setting ", branch, target_id);
    match raw::create_reference(repo, refname, target_id, true, msg.as_str()) {
        Ok(()) => {},
        Err(e) => {
            return Err(GitError::Git(e));
        },
    }
    match raw::set_head(repo, refname) {
        Ok(()) => {},
        Err(e) => {
            return Err(GitError::Git(e));
        },
    }
    match raw::checkout_head_merge_style(repo) {
        Ok(()) => Ok(()),
        Err(e) => Err(GitError::Git(e)),
    }
}

/// Three-way merge of the local and remote tips against their merge base.
/// When the merged index has conflicts they are materialized into the
/// working tree and no commit is created; when it is clean a merge commit
/// with parents `[local, remote]` is written on HEAD and checked out.
fn normal_merge(repo: &git2::Repository, local_id: &str, remote_id: &str) -> (r: Result<
    MergeOutcome,
    GitError,
>)
    ensures
        r matches Ok(o) ==> o is Merged || o is Conflicts,
        r matches Err(e) ==> e is Git,
{
    let base = match raw::merge_base_of(repo, local_id, remote_id) {
        Ok(b) => b,
        Err(e) => {
            return Err(GitError::Git(e));
        },
    };
    let mut idx = match raw::merge_commit_trees(repo, base.as_str(), local_id, remote_id) {
        Ok(i) => i,
        Err(e) => {
            return Err(GitError::Git(e));
        },
    };
    if raw::index_has_conflicts(&idx) {
        match raw::checkout_index_into_worktree(repo, &mut idx) {
            Ok(()) => {},
            Err(e) => {
                return Err(GitError::Git(e));
            },
        }
        return Ok(MergeOutcome::Conflicts);
    }
    let tree_id = match raw::write_index_tree_to(repo, &mut idx) {
        Ok(t) => t,
        Err(e) => {
            return Err(GitError::Git(e));
        },
    };
    let msg = merge_message(remote_id, local_id);
    let remote_owned = remote_id.to_owned();
    match raw::create_commit_on_head(repo, msg.as_str(), tree_id.as_str(), local_id, Some(
        &remote_owned,
    )) {
        Ok(_id) => {},
        Err(e) => {
            return Err(GitError::Git(e));
        },
    }
    match raw::checkout_head_plain(repo) {
        Ok(()) => Ok(MergeOutcome::Merged),
        Err(e) => Err(GitError::Git(e)),
    }
}

/// Classifies the fetched commit against the local HEAD and dispatches:
/// fast-forward moves (or creates) the local branch reference, a normal
/// analysis runs the three-way merge, and everything else needs no action.
/// The outcome always belongs to the class the analysis called for.
fn merge(repo: &git2::Repository, remote_branch: &str, fetch_id: &str) -> (r: Result<
    (MergeKind, MergeOutcome),
    GitError,
>)
    ensures
        r matches Ok((k, o)) ==> kind_allows(k, o),
        r matches Err(e) ==> e is Git,
{
    let kind = match raw::merge_analysis_for(repo, fetch_id) {
        Ok(k) => k,
        Err(e) => {
            return Err(GitError::Git(e));
        },
    };
    let refname = branch_refname(remote_branch);
    let exists = raw::reference_exists(repo, refname.as_str());
    match merge_action(kind, exists) {
        MergeAction::FastForwardExisting => {
            match fast_forward(repo, refname.as_str(), fetch_id) {
                Ok(()) => Ok((kind, MergeOutcome::FastForwarded)),
                Err(e) => Err(e),
            }
        },
        MergeAction::CreateBranch => {
            match create_branch_at(repo, refname.as_str(), remote_branch, fetch_id) {
                Ok(()) => Ok((kind, MergeOutcome::CreatedBranch)),
                Err(e) => Err(e),
            }
        },
        MergeAction::ThreeWayMerge => {
            let head_id = match raw::head_commit_id(repo) {
                Ok(h) => h,
                Err(e) => {
                    return Err(GitError::Git(e));
                },
            };
            match normal_merge(repo, head_id.as_str(), fetch_id) {
                Ok(o) => Ok((kind, o)),
                Err(e) => Err(e),
            }
        },
        MergeAction::NoAction => Ok((kind, MergeOutcome::NoneNeeded)),
    }
}

/// A repository record: the unique name, the organization it belongs to, the
/// remote URL derived from them, and the local path once the repository has
/// been cloned.
#[derive(Clone, Debug)]
pub struct GitRepository {
    pub org: Option<String>,
    pub name: String,
    pub url: Option<String>,
    pub path: Option<String>,
}

impl GitRepository {
    /// Builds a record from a full name `org/name`. The remote URL is the
    /// fixed SSH template applied to the full name. Fails with `BadRepoName`
    /// exactly when the full name does not hold exactly one `/`.
    pub fn new(full_name: &str, path: Option<&str>) -> (r: Result<GitRepository, GitError>)
        ensures
            match r {
                Ok(g) => {
                    &&& valid_full_name(full_name@)
                    &&& g.org matches Some(o) && o@ == full_name@.subrange(
                        0,
                        find_char(full_name@, '/', 0),
                    )
                    &&& g.name@ == full_name@.subrange(
                        find_char(full_name@, '/', 0) + 1,
                        full_name@.len() as int,
                    )
                    &&& g.url matches Some(u) && u@ == "git@github.com:"@ + full_name@
                    &&& match path {
                        Some(p) => g.path matches Some(q) && q@ == p@,
                        None => g.path is None,
                    }
                },
                Err(e) => !valid_full_name(full_name@) && e is BadRepoName,
            },
    {
        let n = full_name.unicode_len();
        let i = scan_char(full_name, '/', 0);
        if i == n {
            return Err(GitError::BadRepoName);
        }
        let j = scan_char(full_name, '/', i + 1);
        if j != n {
            proof {
                lemma_find_char(full_name@, '/', i + 1);
            }
            return Err(GitError::BadRepoName);
        }

        let org = full_name.substring_char(0, i).to_owned();
        let name = full_name.substring_char(i + 1, n).to_owned();
        let mut url = String::new();
        url.append("git@github.com:");
        url.append(full_name);
        let path = match path {
            Some(p) => Some(p.to_owned()),
            None => None,
        };
        Ok(GitRepository { org: Some(org), name, url: Some(url), path })
    }

    /// Opens the on-disk repository at the record's path. Fails with
    /// `PathNotSet` exactly when no path has been recorded; an open failure
    /// from the git layer is carried through.
    pub fn open(&self) -> (r: Result<git2::Repository, GitError>)
        ensures
            self.path is None ==> (r matches Err(e) && e is PathNotSet),
            r matches Err(GitError::PathNotSet) ==> self.path is None,
            r matches Err(e) ==> e is PathNotSet || e is Git,
    {
        match &self.path {
            None => Err(GitError::PathNotSet),
            Some(p) => match raw::repo_open(p.as_str()) {
                Ok(repo) => Ok(repo),
                Err(e) => Err(GitError::Git(e)),
            },
        }
    }

    /// The abbreviated name of the branch HEAD points to. Fails with
    /// `HeadHasNoName` when HEAD has no usable name.
    pub fn current_branch(&self) -> (r: Result<String, GitError>)
        ensures
            self.path is None ==> (r matches Err(e) && e is PathNotSet),
            r matches Err(GitError::PathNotSet) ==> self.path is None,
            r matches Err(e) ==> e is PathNotSet || e is Git || e is HeadHasNoName,
    {
        let repo = match self.open() {
            Ok(repo) => repo,
            Err(e) => {
                return Err(e);
            },
        };
        match raw::head_shorthand(&repo) {
            Ok(Some(s)) => Ok(s),
            Ok(None) => Err(GitError::HeadHasNoName),
            Err(e) => Err(GitError::Git(e)),
        }
    }

    /// The short name of the remote's default branch (the part after the
    /// last `/` of the name the remote reports). Fails with
    /// `NoDefaultBranch` when the remote reports no usable name.
    pub fn default_branch(&self, key_path: &str) -> (r: Result<String, GitError>)
        ensures
            self.path is None ==> (r matches Err(e) && e is PathNotSet),
            r matches Err(GitError::PathNotSet) ==> self.path is None,
            r matches Err(e) ==> e is PathNotSet || e is Git || e is NoDefaultBranch,
            r matches Ok(b) ==> forall|k: int| 0 <= k < b@.len() ==> b@[k] != '/',
    {
        let repo = match self.open() {
            Ok(repo) => repo,
            Err(e) => {
                return Err(e);
            },
        };
        let full = match raw::remote_default_branch(&repo, "origin", key_path) {
            Ok(Some(b)) => b,
            Ok(None) => {
                return Err(GitError::NoDefaultBranch);
            },
            Err(e) => {
                return Err(GitError::Git(e));
            },
        };
        let short = last_segment(full.as_str(), '/');
        proof {
            lemma_tail_start_no_stop(full@, full@.len() as int, '/');
        }
        Ok(short)
    }

    /// The URL of the repository's `origin` remote. Fails with
    /// `MissingRemoteUrl` when the remote has no usable URL.
    pub fn remote(&self) -> (r: Result<String, GitError>)
        ensures
            self.path is None ==> (r matches Err(e) && e is PathNotSet),
            r matches Err(GitError::PathNotSet) ==> self.path is None,
            r matches Err(e) ==> e is PathNotSet || e is Git || e is MissingRemoteUrl,
    {
        let repo = match self.open() {
            Ok(repo) => repo,
            Err(e) => {
                return Err(e);
            },
        };
        match raw::find_remote_url(&repo, "origin") {
            Ok(Some(u)) => Ok(u),
            Ok(None) => Err(GitError::MissingRemoteUrl),
            Err(e) => Err(GitError::Git(e)),
        }
    }

    /// The URL of the repository's `origin` remote.
    pub fn get_remote(&self) -> (r: Result<String, GitError>)
        ensures
            self.path is None ==> (r matches Err(e) && e is PathNotSet),
            r matches Err(GitError::PathNotSet) ==> self.path is None,
            r matches Err(e) ==> e is PathNotSet || e is Git || e is MissingRemoteUrl,
    {
        self.remote()
    }

    /// Clones the repository into `path/name`. A destination that already
    /// exists makes the whole operation a no-op that leaves the record
    /// unchanged (no transfer is attempted); otherwise a successful clone
    /// records the destination as the repository's path.
    pub fn clone_repo(&mut self, path: &str, key_path: &str) -> (r: Result<
        CloneOutcome,
        GitError,
    >)
        ensures
            r == Ok::<CloneOutcome, GitError>(CloneOutcome::AlreadyExists) ==> *final(self) == *old(self),
            r matches Err(_) ==> *final(self) == *old(self),
            r == Ok::<CloneOutcome, GitError>(CloneOutcome::Cloned) ==> {
                &&& final(self).org == old(self).org
                &&& final(self).name == old(self).name
                &&& final(self).url == old(self).url
                &&& final(self).path matches Some(p) && p@ == path@ + "/"@ + old(self).name@
            },
            r matches Err(e) ==> e is MissingRemoteUrl || e is Git,
            old(self).url is None ==> (r matches Err(e) ==> e is MissingRemoteUrl),
            r matches Err(GitError::MissingRemoteUrl) ==> old(self).url is None,
    {
        let dest = join_path(path, self.name.as_str());
        if raw::path_exists(dest.as_str()) {
            return Ok(CloneOutcome::AlreadyExists);
        }
        let url = match &self.url {
            Some(u) => u.clone(),
            None => {
                return Err(GitError::MissingRemoteUrl);
            },
        };
        match raw::clone_repository(url.as_str(), dest.as_str(), key_path) {
            Ok(()) => {},
            Err(e) => {
                return Err(GitError::Git(e));
            },
        }
        self.path = Some(dest);
        Ok(CloneOutcome::Cloned)
    }

    /// Stages the paths matching `files`. With `update`, only paths whose
    /// working-tree status is modified or new are kept (the rule of
    /// `stage_entry`); without it, every matching path is staged.
    pub fn add(&self, files: Vec<String>, update: bool) -> (r: Result<(), GitError>)
        ensures
            self.path is None ==> (r matches Err(e) && e is PathNotSet),
            r matches Err(GitError::PathNotSet) ==> self.path is None,
            r matches Err(e) ==> e is PathNotSet || e is Git,
    {
        let repo = match self.open() {
            Ok(repo) => repo,
            Err(e) => {
                return Err(e);
            },
        };
        let mut idx = match raw::repo_index(&repo) {
            Ok(i) => i,
            Err(e) => {
                return Err(GitError::Git(e));
            },
        };
        match raw::index_add_all(&repo, &mut idx, &files, update) {
            Ok(()) => {},
            Err(e) => {
                return Err(GitError::Git(e));
            },
        }
        match raw::index_write(&mut idx) {
            Ok(()) => Ok(()),
            Err(e) => Err(GitError::Git(e)),
        }
    }

    /// Snapshots the index into a tree and commits it on HEAD with the
    /// current HEAD commit as the single parent (this path never writes a
    /// merge commit). Returns the new commit's id.
    pub fn commit(&self, commit_message: &str) -> (r: Result<String, GitError>)
        ensures
            self.path is None ==> (r matches Err(e) && e is PathNotSet),
            r matches Err(GitError::PathNotSet) ==> self.path is None,
            r matches Err(e) ==> e is PathNotSet || e is Git,
    {
        let repo = match self.open() {
            Ok(repo) => repo,
            Err(e) => {
                return Err(e);
            },
        };
        let mut idx = match raw::repo_index(&repo) {
            Ok(i) => i,
            Err(e) => {
                return Err(GitError::Git(e));
            },
        };
        let tree_id = match raw::index_write_tree(&mut idx) {
            Ok(t) => t,
            Err(e) => {
                return Err(GitError::Git(e));
            },
        };
        let parent = match raw::head_commit_id(&repo) {
            Ok(p) => p,
            Err(e) => {
                return Err(GitError::Git(e));
            },
        };
        match raw::create_commit_on_head(&repo, commit_message, tree_id.as_str(), parent.as_str(),
            None) {
            Ok(id) => Ok(id),
            Err(e) => Err(GitError::Git(e)),
        }
    }

    /// Creates a branch at the commit HEAD points to, without switching to it.
    pub fn branch(&self, branch: &str) -> (r: Result<(), GitError>)
        ensures
            self.path is None ==> (r matches Err(e) && e is PathNotSet),
            r matches Err(GitError::PathNotSet) ==> self.path is None,
            r matches Err(e) ==> e is PathNotSet || e is Git,
    {
        let repo = match self.open() {
            Ok(repo) => repo,
            Err(e) => {
                return Err(e);
            },
        };
        match raw::create_branch_at_head(&repo, branch) {
            Ok(()) => Ok(()),
            Err(e) => Err(GitError::Git(e)),
        }
    }

    /// Resolves `branch` by revision-parsing, force-checks-out its tree and
    /// moves HEAD to `refs/heads/<branch>`. An unresolvable revision fails
    /// with `RevparseFailed` carrying the revision string.
    pub fn checkout(&self, branch: &str) -> (r: Result<(), GitError>)
        ensures
            self.path is None ==> (r matches Err(e) && e is PathNotSet),
            r matches Err(GitError::PathNotSet) ==> self.path is None,
            r matches Err(e) ==> e is PathNotSet || e is Git || e is RevparseFailed,
            r matches Err(GitError::RevparseFailed(b)) ==> b@ == branch@,
    {
        let repo = match self.open() {
            Ok(repo) => repo,
            Err(e) => {
                return Err(e);
            },
        };
        let obj_id = match raw::revparse_single_id(&repo, branch) {
            Ok(o) => o,
            Err(_) => {
                return Err(GitError::RevparseFailed(branch.to_owned()));
            },
        };
        match raw::checkout_tree_by_id(&repo, obj_id.as_str()) {
            Ok(()) => {},
            Err(e) => {
                return Err(GitError::Git(e));
            },
        }
        let refname = branch_refname(branch);
        match raw::set_head(&repo, refname.as_str()) {
            Ok(()) => Ok(()),
            Err(e) => Err(GitError::Git(e)),
        }
    }

    /// Force-checks-out the working tree at HEAD's tree.
    pub fn checkout_default(&self) -> (r: Result<(), GitError>)
        ensures
            self.path is None ==> (r matches Err(e) && e is PathNotSet),
            r matches Err(GitError::PathNotSet) ==> self.path is None,
            r matches Err(e) ==> e is PathNotSet || e is Git,
    {
        let repo = match self.open() {
            Ok(repo) => repo,
            Err(e) => {
                return Err(e);
            },
        };
        match raw::checkout_head_force(&repo) {
            Ok(()) => Ok(()),
            Err(e) => Err(GitError::Git(e)),
        }
    }

    /// Pushes HEAD's full reference name to the same name on `origin`. A
    /// remote rejection (such as a non-fast-forward) comes back as the git
    /// layer reports it; there is no force push.
    pub fn push(&self, key_path: &str) -> (r: Result<(), GitError>)
        ensures
            self.path is None ==> (r matches Err(e) && e is PathNotSet),
            r matches Err(GitError::PathNotSet) ==> self.path is None,
            r matches Err(e) ==> e is PathNotSet || e is Git || e is HeadHasNoName,
    {
        let repo = match self.open() {
            Ok(repo) => repo,
            Err(e) => {
                return Err(e);
            },
        };
        let refname = match raw::head_refname(&repo) {
            Ok(Some(n)) => n,
            Ok(None) => {
                return Err(GitError::HeadHasNoName);
            },
            Err(e) => {
                return Err(GitError::Git(e));
            },
        };
        let refspec = refspec_for(refname.as_str());
        match raw::push_refspec(&repo, "origin", refspec.as_str(), key_path) {
            Ok(()) => Ok(()),
            Err(e) => Err(GitError::Git(e)),
        }
    }

    /// Fetches and merges: resolves the branch (the given one, or the
    /// current branch), fetches exactly that ref, classifies the fetched
    /// commit and dispatches on the classification. The report carries the
    /// branch, the classification, an outcome of the class the analysis
    /// called for, and the transfer counters.
    pub fn pull(&self, branch: Option<&str>, key_path: &str) -> (r: Result<PullReport, GitError>)
        ensures
            self.path is None ==> (r matches Err(e) && e is PathNotSet),
            r matches Err(GitError::PathNotSet) ==> self.path is None,
            r matches Ok(rep) ==> kind_allows(rep.kind, rep.outcome),
            branch matches Some(b) ==> (r matches Ok(rep) ==> rep.branch@ == b@),
            branch matches Some(_) ==> (r matches Err(e) ==> !(e is HeadHasNoName)),
    {
        let repo = match self.open() {
            Ok(repo) => repo,
            Err(e) => {
                return Err(e);
            },
        };
        let branch_name: String = match branch {
            Some(b) => b.to_owned(),
            None => match raw::head_shorthand(&repo) {
                Ok(Some(s)) => s,
                Ok(None) => {
                    return Err(GitError::HeadHasNoName);
                },
                Err(e) => {
                    return Err(GitError::Git(e));
                },
            },
        };
        let mut refs: Vec<String> = Vec::new();
        refs.push(branch_name.clone());
        let stats = match raw::fetch_refs(&repo, "origin", &refs, key_path) {
            Ok(s) => s,
            Err(e) => {
                return Err(GitError::Git(e));
            },
        };
        let fetch_id = match raw::fetch_head_id(&repo) {
            Ok(f) => f,
            Err(e) => {
                return Err(GitError::Git(e));
            },
        };
        match merge(&repo, branch_name.as_str(), fetch_id.as_str()) {
            Ok((kind, outcome)) => Ok(PullReport { branch: branch_name, kind, outcome, stats }),
            Err(e) => Err(e),
        }
    }

    /// Downloads objects for the given branch, or for the remote's full
    /// configured ref-specs when none is given. Returns the transfer
    /// counters, which are purely observational.
    pub fn fetch(&self, branch: Option<&str>, key_path: &str) -> (r: Result<
        TransferStats,
        GitError,
    >)
        ensures
            self.path is None ==> (r matches Err(e) && e is PathNotSet),
            r matches Err(GitError::PathNotSet) ==> self.path is None,
            r matches Err(e) ==> e is PathNotSet || e is Git,
    {
        let repo = match self.open() {
            Ok(repo) => repo,
            Err(e) => {
                return Err(e);
            },
        };
        let refs: Vec<String> = match branch {
            Some(b) => {
                let mut v: Vec<String> = Vec::new();
                v.push(b.to_owned());
                v
            },
            None => match raw::fetch_refspecs_of(&repo, "origin") {
                Ok(v) => v,
                Err(e) => {
                    return Err(GitError::Git(e));
                },
            },
        };
        match raw::fetch_refs(&repo, "origin", &refs, key_path) {
            Ok(s) => Ok(s),
            Err(e) => Err(GitError::Git(e)),
        }
    }

    /// Snapshots uncommitted changes into a new stash entry.
    pub fn stash(&self) -> (r: Result<(), GitError>)
        ensures
            self.path is None ==> (r matches Err(e) && e is PathNotSet),
            r matches Err(GitError::PathNotSet) ==> self.path is None,
            r matches Err(e) ==> e is PathNotSet || e is Git,
    {
        let mut repo = match self.open() {
            Ok(repo) => repo,
            Err(e) => {
                return Err(e);
            },
        };
        match raw::stash_save_default(&mut repo) {
            Ok(()) => Ok(()),
            Err(e) => Err(GitError::Git(e)),
        }
    }

    /// Restores the most recent stash entry and removes it from the list.
    pub fn stash_pop(&self) -> (r: Result<(), GitError>)
        ensures
            self.path is None ==> (r matches Err(e) && e is PathNotSet),
            r matches Err(GitError::PathNotSet) ==> self.path is None,
            r matches Err(e) ==> e is PathNotSet || e is Git,
    {
        let mut repo = match self.open() {
            Ok(repo) => repo,
            Err(e) => {
                return Err(e);
            },
        };
        match raw::stash_pop_latest(&mut repo) {
            Ok(()) => Ok(()),
            Err(e) => Err(GitError::Git(e)),
        }
    }

    /// Parses a revision string and reports its endpoints: the resolved id,
    /// and the lines a caller would print (the rule of `revparse_lines`).
    pub fn rev_parse(&self, rev: &str) -> (r: Result<(String, Vec<String>), GitError>)
        ensures
            self.path is None ==> (r matches Err(e) && e is PathNotSet),
            r matches Err(GitError::PathNotSet) ==> self.path is None,
            r matches Err(e) ==> e is PathNotSet || e is Git || e is InvalidRevspec,
    {
        let repo = match self.open() {
            Ok(repo) => repo,
            Err(e) => {
                return Err(e);
            },
        };
        let info = match raw::revparse_info(&repo, rev) {
            Ok(i) => i,
            Err(e) => {
                return Err(GitError::Git(e));
            },
        };
        let base: Option<String> = if info.range && info.merge_base {
            match (&info.from_id, &info.to_id) {
                (Some(f), Some(t)) => match raw::merge_base_of(&repo, f.as_str(), t.as_str()) {
                    Ok(b) => Some(b),
                    Err(e) => {
                        return Err(GitError::Git(e));
                    },
                },
                _ => None,
            }
        } else {
            None
        };
        revparse_lines(&info, &base)
    }
}

/// One batch-update pass over the registry: each record's name with its
/// outcome. A record without a URL is skipped with `MissingRemoteUrl`; for
/// the rest, the remote's default branch is checked out and pulled, and a
/// failure is carried as the record's outcome. The batch never stops early:
/// every record gets an entry, in registry order.
pub fn update_all(reg: &RepositoryRegistry, key_path: &str) -> (r: Vec<
    (String, Option<GitError>),
>)
    requires
        reg.wf(),
    ensures
        r@.len() == reg@.len(),
        forall|i: int| 0 <= i < r@.len() ==> (#[trigger] r@[i]).0@ == reg@[i].name@,
{
    let repos = reg.get_repos();
    let mut out: Vec<(String, Option<GitError>)> = Vec::new();
    let mut i: usize = 0;
    while i < repos.len()
        invariant
            i <= repos@.len(),
            repos@ == reg@,
            out@.len() == i,
            forall|k: int| 0 <= k < i ==> (#[trigger] out@[k]).0@ == reg@[k].name@,
        decreases repos@.len() - i,
    {
        let record = &repos[i];
        let outcome: Option<GitError> = if record.url.is_none() {
            Some(GitError::MissingRemoteUrl)
        } else {
            match record.default_branch(key_path) {
                Err(e) => Some(e),
                Ok(b) => match record.checkout(b.as_str()) {
                    Err(e) => Some(e),
                    Ok(()) => match record.pull(Some(b.as_str()), key_path) {
                        Err(e) => Some(e),
                        Ok(_report) => None,
                    },
                },
            }
        };
        out.push((record.name.clone(), outcome));
        i = i + 1;
    }
    out
}

/// What `tail_start` skips to holds no `stop`.
pub proof fn lemma_tail_start_no_stop(s: Seq<char>, i: int, stop: char)
    requires
        0 <= i <= s.len(),
    ensures
        0 <= tail_start(s, i, stop) <= i,
        forall|k: int| tail_start(s, i, stop) <= k < i ==> s[k] != stop,
    decreases i,
{
    if !(i == 0 || s[i - 1] == stop) {
        lemma_tail_start_no_stop(s, i - 1, stop);
    }
}

/// The report a revision parse produces: for a single revision, its id and
/// one line holding the id; for a range, the `to` id first, the merge base
/// when the parse asked for one and it is given, then `^` before the `from`
/// id, and the `from` id as the result. Anything else is `InvalidRevspec`,
/// as is an endpoint the parse did not deliver.
pub fn revparse_lines(info: &RevInfo, base: &Option<String>) -> (r: Result<
    (String, Vec<String>),
    GitError,
>)
    ensures
        info.single ==> match info.from_id {
            Some(f) => r matches Ok(p) && p.0@ == f@ && p.1@.len() == 1 && p.1@[0]@ == f@,
            None => r matches Err(e) && e is InvalidRevspec,
        },
        !info.single && info.range ==> match (info.from_id, info.to_id) {
            (Some(f), Some(t)) => r matches Ok(p) && p.0@ == f@ && (match base {
                Some(b) => if info.merge_base {
                    &&& p.1@.len() == 3
                    &&& p.1@[0]@ == t@
                    &&& p.1@[1]@ == b@
                    &&& p.1@[2]@ == "^"@ + f@
                } else {
                    &&& p.1@.len() == 2
                    &&& p.1@[0]@ == t@
                    &&& p.1@[1]@ == "^"@ + f@
                },
                None => {
                    &&& p.1@.len() == 2
                    &&& p.1@[0]@ == t@
                    &&& p.1@[1]@ == "^"@ + f@
                },
            }),
            _ => r matches Err(e) && e is InvalidRevspec,
        },
        !info.single && !info.range ==> (r matches Err(e) && e is InvalidRevspec),
{
    if info.single {
        match &info.from_id {
            Some(f) => {
                let mut lines: Vec<String> = Vec::new();
                lines.push(f.clone());
                Ok((f.clone(), lines))
            },
            None => Err(GitError::InvalidRevspec),
        }
    } else if info.range {
        match (&info.from_id, &info.to_id) {
            (Some(f), Some(t)) => {
                let mut lines: Vec<String> = Vec::new();
                lines.push(t.clone());
                if info.merge_base {
                    match base {
                        Some(b) => {
                            lines.push(b.clone());
                        },
                        None => {},
                    }
                }
                let mut caret = String::new();
                caret.append("^");
                caret.append(f.as_str());
                proof {
                    assert(caret@ =~= "^"@ + f@);
                }
                lines.push(caret);
                Ok((f.clone(), lines))
            },
            _ => Err(GitError::InvalidRevspec),
        }
    } else {
        Err(GitError::InvalidRevspec)
    }
}

} // verus!
