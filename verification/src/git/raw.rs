//! Trusted boundary around libgit2 and the directory walker.
//!
//! Everything here either declares an outside type so that it can appear in
//! signatures, or wraps an outside operation behind a contract that Verus
//! believes. Each doc comment names the outside functions relied on. Results
//! that depend on the repository on disk or on the network carry no ensures:
//! the verified callers state what they do for every value handed back.

use std::path::Path;

use git2::{AutotagOption, Cred, FetchOptions, PushOptions, RemoteCallbacks};
use vstd::prelude::*;

use crate::git::repo::{MergeKind, RevInfo, TransferStats, stage_entry};

verus! {

#[verifier::external_type_specification]
#[verifier::external_body]
pub struct ExGit2Error(git2::Error);

#[verifier::external_type_specification]
#[verifier::external_body]
pub struct ExRepository(git2::Repository);

#[verifier::external_type_specification]
#[verifier::external_body]
pub struct ExIndex(git2::Index);

#[verifier::external_type_specification]
#[verifier::external_body]
pub struct ExRemoteCallbacks<'a>(git2::RemoteCallbacks<'a>);

/// Relies on git2::RemoteCallbacks::credentials with git2::Cred::ssh_key: a
/// transport callback that authenticates with the ssh key at `key_path` and
/// the user name the remote URL names (or `git` when it names none).
#[verifier::external_body]
pub(crate) fn ssh_key_callbacks(key_path: &str) -> (r: git2::RemoteCallbacks<'static>) {
    let kp = key_path.to_string();
    let mut cb = RemoteCallbacks::new();
    cb.credentials(move |_u, user, _t| Cred::ssh_key(user.unwrap_or("git"), None, Path::new(&kp), None));
    cb
}

/// Relies on git2::Repository::open.
#[verifier::external_body]
pub(crate) fn repo_open(path: &str) -> (r: Result<git2::Repository, git2::Error>) {
    git2::Repository::open(std::path::Path::new(path))
}

/// Relies on git2::Repository::head and git2::Reference::shorthand (the
/// abbreviated name of the reference HEAD points to); a head whose name is
/// not usable comes back as `None`.
#[verifier::external_body]
pub(crate) fn head_shorthand(repo: &git2::Repository) -> (r: Result<Option<String>, git2::Error>) {
    Ok(repo.head()?.shorthand().ok().map(|s| s.to_string()))
}

/// Relies on git2::Repository::head and git2::Reference::name (the full
/// reference name of HEAD, such as `refs/heads/main`); a head whose name is
/// not usable comes back as `None`.
#[verifier::external_body]
pub(crate) fn head_refname(repo: &git2::Repository) -> (r: Result<Option<String>, git2::Error>) {
    Ok(repo.head()?.name().ok().map(|s| s.to_string()))
}

/// Relies on git2::Repository::head, git2::Reference::peel_to_commit and
/// git2::Commit::id: the id of the commit HEAD points to.
#[verifier::external_body]
pub(crate) fn head_commit_id(repo: &git2::Repository) -> (r: Result<String, git2::Error>) {
    Ok(repo.head()?.peel_to_commit()?.id().to_string())
}

/// Relies on git2::Repository::find_remote and git2::Remote::url; a remote
/// whose URL is not usable comes back as `None`.
#[verifier::external_body]
pub(crate) fn find_remote_url(repo: &git2::Repository, name: &str) -> (r: Result<
    Option<String>,
    git2::Error,
>) {
    Ok(repo.find_remote(name)?.url().ok().map(|s| s.to_string()))
}

/// Relies on git2::Repository::find_remote, git2::Remote::connect_auth with
/// an ssh-key credential callback, and git2::RemoteConnection::default_branch.
/// Returns the full name of the remote's default branch, or `None` when the
/// reported name is not usable.
#[verifier::external_body]
pub(crate) fn remote_default_branch(
    repo: &git2::Repository,
    name: &str,
    key_path: &str,
) -> (r: Result<Option<String>, git2::Error>) {
    let mut remote = repo.find_remote(name)?;
    let cb = ssh_key_callbacks(key_path);
    let conn = remote.connect_auth(git2::Direction::Fetch, Some(cb), None)?;
    Ok(conn.default_branch()?.as_str().ok().map(|s| s.to_string()))
}

/// Relies on git2::build::RepoBuilder::clone, with fetch options carrying an
/// ssh-key credential callback. A full clone of `url` into `dest`.
#[verifier::external_body]
pub(crate) fn clone_repository(url: &str, dest: &str, key_path: &str) -> (r: Result<
    (),
    git2::Error,
>) {
    let mut fo = FetchOptions::new();
    fo.remote_callbacks(ssh_key_callbacks(key_path));
    let mut builder = git2::build::RepoBuilder::new();
    builder.fetch_options(fo);
    builder.clone(url, Path::new(dest)).map(|_| ())
}

/// Relies on std::path::Path::exists.
#[verifier::external_body]
pub(crate) fn path_exists(p: &str) -> (r: bool) {
    std::path::Path::new(p).exists()
}

/// Relies on git2::Repository::find_remote and git2::Remote::fetch (download
/// tags included), with an ssh-key credential callback, and on
/// git2::Remote::stats for the transfer counters of this fetch.
#[verifier::external_body]
pub(crate) fn fetch_refs(
    repo: &git2::Repository,
    remote_name: &str,
    refs: &Vec<String>,
    key_path: &str,
) -> (r: Result<TransferStats, git2::Error>) {
    let mut remote = repo.find_remote(remote_name)?;
    let mut fo = FetchOptions::new();
    fo.remote_callbacks(ssh_key_callbacks(key_path));
    fo.download_tags(AutotagOption::All);
    let refs: Vec<&str> = refs.iter().map(|s| s.as_str()).collect();
    remote.fetch(&refs, Some(&mut fo), None)?;
    let s = remote.stats();
    Ok(TransferStats::from_counts((s.received_objects(), s.indexed_objects(), s.total_objects(),
        s.received_bytes(), s.local_objects(), s.indexed_deltas(), s.total_deltas())))
}

/// Relies on git2::Repository::find_remote and git2::Remote::fetch_refspecs:
/// the remote's configured fetch ref-specs.
#[verifier::external_body]
pub(crate) fn fetch_refspecs_of(repo: &git2::Repository, remote_name: &str) -> (r: Result<
    Vec<String>,
    git2::Error,
>) {
    let remote = repo.find_remote(remote_name)?;
    let arr = remote.fetch_refspecs()?;
    Ok(arr.iter().filter_map(|s| s.ok().flatten().map(|x| x.to_string())).collect())
}

/// Relies on git2::Repository::find_reference for `FETCH_HEAD`,
/// git2::Repository::reference_to_annotated_commit and
/// git2::AnnotatedCommit::id: the id of the commit the last fetch brought.
#[verifier::external_body]
pub(crate) fn fetch_head_id(repo: &git2::Repository) -> (r: Result<String, git2::Error>) {
    let fetch_head = repo.find_reference("FETCH_HEAD")?;
    Ok(repo.reference_to_annotated_commit(&fetch_head)?.id().to_string())
}

/// Relies on git2::Repository::merge_analysis over the annotated commit of
/// `oid` (git2::Oid::from_str, git2::Repository::find_annotated_commit).
/// The flags are read in the precedence the engine dispatches on:
/// fast-forward first, then normal, up-to-date, unborn.
#[verifier::external_body]
pub(crate) fn merge_analysis_for(repo: &git2::Repository, oid: &str) -> (r: Result<
    MergeKind,
    git2::Error,
>) {
    let id = git2::Oid::from_str(oid)?;
    let commit = repo.find_annotated_commit(id)?;
    let (a, _preference) = repo.merge_analysis(&[&commit])?;
    Ok(if a.is_fast_forward() { MergeKind::FastForward }
    else if a.is_normal() { MergeKind::Normal }
    else if a.is_up_to_date() { MergeKind::UpToDate }
    else if a.is_unborn() { MergeKind::Unborn }
    else { MergeKind::Nothing })
}

/// Relies on git2::Repository::find_reference: whether `refname` resolves.
#[verifier::external_body]
pub(crate) fn reference_exists(repo: &git2::Repository, refname: &str) -> (r: bool) {
    repo.find_reference(refname).is_ok()
}

/// Relies on git2::Repository::find_reference, git2::Oid::from_str and
/// git2::Reference::set_target: moves `refname` to `oid`, with `logmsg` in
/// the reflog.
#[verifier::external_body]
pub(crate) fn set_reference_target(
    repo: &git2::Repository,
    refname: &str,
    oid: &str,
    logmsg: &str,
) -> (r: Result<(), git2::Error>) {
    let id = git2::Oid::from_str(oid)?;
    repo.find_reference(refname)?.set_target(id, logmsg).map(|_| ())
}

/// Relies on git2::Oid::from_str and git2::Repository::reference: creates
/// (or force-moves) `refname` at `oid`, with `logmsg` in the reflog.
#[verifier::external_body]
pub(crate) fn create_reference(
    repo: &git2::Repository,
    refname: &str,
    oid: &str,
    force: bool,
    logmsg: &str,
) -> (r: Result<(), git2::Error>) {
    let id = git2::Oid::from_str(oid)?;
    repo.reference(refname, id, force, logmsg).map(|_| ())
}

/// Relies on git2::Repository::set_head.
#[verifier::external_body]
pub(crate) fn set_head(repo: &git2::Repository, refname: &str) -> (r: Result<(), git2::Error>) {
    repo.set_head(refname)
}

/// Relies on git2::Repository::checkout_head with a forced checkout: the
/// working tree is overwritten with HEAD's tree.
#[verifier::external_body]
pub(crate) fn checkout_head_force(repo: &git2::Repository) -> (r: Result<(), git2::Error>) {
    repo.checkout_head(Some(git2::build::CheckoutBuilder::default().force()))
}

/// Relies on git2::Repository::checkout_head with a forced checkout that
/// allows conflicts and writes them in merge style.
#[verifier::external_body]
pub(crate) fn checkout_head_merge_style(repo: &git2::Repository) -> (r: Result<(), git2::Error>) {
    repo.checkout_head(
        Some(
            git2::build::CheckoutBuilder::default().allow_conflicts(true).conflict_style_merge(
                true,
            ).force(),
        ),
    )
}

/// Relies on git2::Repository::checkout_head with default options.
#[verifier::external_body]
pub(crate) fn checkout_head_plain(repo: &git2::Repository) -> (r: Result<(), git2::Error>) {
    repo.checkout_head(None)
}

/// Relies on git2::Repository::merge_base (git2::Oid::from_str for both
/// ids): the nearest common ancestor of the two commits.
#[verifier::external_body]
pub(crate) fn merge_base_of(repo: &git2::Repository, a: &str, b: &str) -> (r: Result<
    String,
    git2::Error,
>) {
    let base = repo.merge_base(git2::Oid::from_str(a)?, git2::Oid::from_str(b)?)?;
    Ok(base.to_string())
}

/// Relies on git2::Repository::merge_trees over the trees of the three
/// commits (git2::Repository::find_commit, git2::Commit::tree): the in-memory
/// index of the three-way merge of `local` and `remote` against `ancestor`.
#[verifier::external_body]
pub(crate) fn merge_commit_trees(
    repo: &git2::Repository,
    ancestor: &str,
    local: &str,
    remote: &str,
) -> (r: Result<git2::Index, git2::Error>) {
    let ancestor_tree = repo.find_commit(git2::Oid::from_str(ancestor)?)?.tree()?;
    let local_tree = repo.find_commit(git2::Oid::from_str(local)?)?.tree()?;
    let remote_tree = repo.find_commit(git2::Oid::from_str(remote)?)?.tree()?;
    repo.merge_trees(&ancestor_tree, &local_tree, &remote_tree, None)
}

/// Relies on git2::Index::has_conflicts.
#[verifier::external_body]
pub(crate) fn index_has_conflicts(idx: &git2::Index) -> (r: bool) {
    idx.has_conflicts()
}

/// Relies on git2::Repository::checkout_index with conflicts allowed and
/// written in merge style: materializes `idx`, conflicted or not, into the
/// working tree.
#[verifier::external_body]
pub(crate) fn checkout_index_into_worktree(repo: &git2::Repository, idx: &mut git2::Index) -> (r:
    Result<(), git2::Error>) {
    let mut opts = git2::build::CheckoutBuilder::default();
    opts.allow_conflicts(true).conflict_style_merge(true).force();
    repo.checkout_index(Some(idx), Some(&mut opts))
}

/// Relies on git2::Index::write_tree_to: writes the index as a tree into the
/// repository and returns the tree's id.
#[verifier::external_body]
pub(crate) fn write_index_tree_to(repo: &git2::Repository, idx: &mut git2::Index) -> (r: Result<
    String,
    git2::Error,
>) {
    Ok(idx.write_tree_to(repo)?.to_string())
}

/// Relies on git2::Repository::commit on `HEAD` (git2::Repository::find_tree,
/// find_commit and signature convert the arguments): a commit of `tree_id`
/// with the given parents, returning the new commit's id.
#[verifier::external_body]
pub(crate) fn create_commit_on_head(
    repo: &git2::Repository,
    message: &str,
    tree_id: &str,
    parent_a: &str,
    parent_b: Option<&String>,
) -> (r: Result<String, git2::Error>) {
    let tree = repo.find_tree(git2::Oid::from_str(tree_id)?)?;
    let sig = repo.signature()?;
    let first = repo.find_commit(git2::Oid::from_str(parent_a)?)?;
    let id = match parent_b {
        Some(b) => {
            let second = repo.find_commit(git2::Oid::from_str(b)?)?;
            repo.commit(Some("HEAD"), &sig, &sig, message, &tree, &[&first, &second])?
        },
        None => repo.commit(Some("HEAD"), &sig, &sig, message, &tree, &[&first])?,
    };
    Ok(id.to_string())
}

/// Relies on git2::Repository::index.
#[verifier::external_body]
pub(crate) fn repo_index(repo: &git2::Repository) -> (r: Result<git2::Index, git2::Error>) {
    repo.index()
}

/// Relies on git2::Index::write_tree: writes the index as a tree and returns
/// the tree's id.
#[verifier::external_body]
pub(crate) fn index_write_tree(idx: &mut git2::Index) -> (r: Result<String, git2::Error>) {
    Ok(idx.write_tree()?.to_string())
}

/// Relies on git2::Index::write.
#[verifier::external_body]
pub(crate) fn index_write(idx: &mut git2::Index) -> (r: Result<(), git2::Error>) {
    idx.write()
}

/// Relies on git2::Index::add_all over the given pathspecs. With `update`,
/// each matched path is kept or skipped by the verified `stage_entry`, fed
/// the modified bit of git2::Repository::status_file (a path whose status
/// cannot be read is skipped).
#[verifier::external_body]
pub(crate) fn index_add_all(
    repo: &git2::Repository,
    idx: &mut git2::Index,
    pathspecs: &Vec<String>,
    update: bool,
) -> (r: Result<(), git2::Error>) {
    let cb = &mut |path: &std::path::Path, _spec: &[u8]| -> i32 {
        match repo.status_file(path) {
            Ok(st) => stage_entry(st.contains(git2::Status::WT_MODIFIED)),
            Err(_) => 1,
        }
    };
    let cb = if update { Some(cb as &mut git2::IndexMatchedPath) } else { None };
    idx.add_all(pathspecs.iter(), git2::IndexAddOption::DEFAULT, cb)
}

/// Relies on git2::Repository::stash_save with the default flags and the
/// repository's signature.
#[verifier::external_body]
pub(crate) fn stash_save_default(repo: &mut git2::Repository) -> (r: Result<(), git2::Error>) {
    let sig = repo.signature()?;
    repo.stash_save(&sig, "stash", Some(git2::StashFlags::DEFAULT)).map(|_| ())
}

/// Relies on git2::Repository::stash_pop for the most recent stash entry.
#[verifier::external_body]
pub(crate) fn stash_pop_latest(repo: &mut git2::Repository) -> (r: Result<(), git2::Error>) {
    repo.stash_pop(0, None)
}

/// Relies on git2::Repository::branch at the commit HEAD points to
/// (git2::Repository::head, git2::Reference::peel_to_commit), without
/// switching to it.
#[verifier::external_body]
pub(crate) fn create_branch_at_head(repo: &git2::Repository, name: &str) -> (r: Result<
    (),
    git2::Error,
>) {
    let commit = repo.head()?.peel_to_commit()?;
    repo.branch(name, &commit, false).map(|_| ())
}

/// Relies on git2::Repository::revparse_single and git2::Object::id.
#[verifier::external_body]
pub(crate) fn revparse_single_id(repo: &git2::Repository, spec: &str) -> (r: Result<
    String,
    git2::Error,
>) {
    Ok(repo.revparse_single(spec)?.id().to_string())
}

/// Relies on git2::Repository::checkout_tree with a forced checkout of the
/// object `oid` (git2::Oid::from_str, git2::Repository::find_object).
#[verifier::external_body]
pub(crate) fn checkout_tree_by_id(repo: &git2::Repository, oid: &str) -> (r: Result<
    (),
    git2::Error,
>) {
    let obj = repo.find_object(git2::Oid::from_str(oid)?, None)?;
    repo.checkout_tree(&obj, Some(git2::build::CheckoutBuilder::default().force()))
}

/// Relies on git2::Repository::revparse; the mode flags and endpoint ids of
/// the parsed revision are handed back as plain values.
#[verifier::external_body]
pub(crate) fn revparse_info(repo: &git2::Repository, rev: &str) -> (r: Result<RevInfo, git2::Error>) {
    let spec = repo.revparse(rev)?;
    Ok(RevInfo {
        from_id: spec.from().map(|o| o.id().to_string()),
        to_id: spec.to().map(|o| o.id().to_string()),
        single: spec.mode().contains(git2::RevparseMode::SINGLE),
        range: spec.mode().contains(git2::RevparseMode::RANGE),
        merge_base: spec.mode().contains(git2::RevparseMode::MERGE_BASE),
    })
}

/// Relies on git2::Repository::find_remote and git2::Remote::push of the
/// single ref-spec, with an ssh-key credential callback. A remote rejection
/// comes back as the error libgit2 reports.
#[verifier::external_body]
pub(crate) fn push_refspec(
    repo: &git2::Repository,
    remote_name: &str,
    refspec: &str,
    key_path: &str,
) -> (r: Result<(), git2::Error>) {
    let mut remote = repo.find_remote(remote_name)?;
    let mut po = PushOptions::new();
    po.remote_callbacks(ssh_key_callbacks(key_path));
    remote.push(&[refspec], Some(&mut po))
}

/// Relies on walkdir::WalkDir bounded by `max_depth`: every directory under
/// `root`, as a path (prefixed by `root` as given) and its depth below the
/// root. The entry of depth 0 is `root` itself.
#[verifier::external_body]
pub(crate) fn walk_directories(root: &str, max_depth: usize) -> (r: Vec<(String, usize)>)
    ensures
        forall|i: int|
            0 <= i < r@.len() ==> {
                &&& (#[trigger] r@[i]).1 <= max_depth
                &&& r@[i].0@.len() >= root@.len()
                &&& r@[i].0@.subrange(0, root@.len() as int) == root@
                &&& (r@[i].1 == 0 ==> r@[i].0@ == root@)
            },
{
    let mut out: Vec<(String, usize)> = Vec::new();
    for entry in walkdir::WalkDir::new(root).max_depth(max_depth) {
        if let Ok(entry) = entry {
            if entry.file_type().is_dir() {
                out.push((entry.path().to_string_lossy().into_owned(), entry.depth()));
            }
        }
    }
    out
}

} // verus!
