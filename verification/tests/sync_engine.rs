//! The synchronization engine against real repositories on disk, built and
//! inspected through git2 so that every expectation is checked against the
//! object database rather than the engine's own reporting.

use dev_cli::config::RepositoryRegistry;
use dev_cli::git::{GitError, GitRepository};
use dev_cli::git::repo::{update_all, CloneOutcome, MergeKind, MergeOutcome};

/// A fresh directory under the build tree for one fixture.
fn fixture_dir(name: &str) -> String {
    let nanos = std::time::SystemTime::now()
        .duration_since(std::time::UNIX_EPOCH)
        .unwrap()
        .as_nanos();
    format!("/tmp/dev_cli_fixtures/{}_{}", name, nanos)
}

/// Initializes a repository whose initial branch is `main`.
fn init_repo(path: &str, bare: bool) -> git2::Repository {
    let mut opts = git2::RepositoryInitOptions::new();
    opts.bare(bare).mkpath(true).initial_head("main");
    git2::Repository::init_opts(path, &opts).expect("fixture repository")
}

/// Gives a repository the committer identity the engine's commits use.
fn set_identity(repo: &git2::Repository) {
    let mut config = repo.config().unwrap();
    config.set_str("user.name", "tester").unwrap();
    config.set_str("user.email", "tester@example.com").unwrap();
}

/// Commits `file` with `content` on HEAD, without touching the working
/// tree: the blob and tree are written straight into the object database.
fn commit_file(repo: &git2::Repository, file: &str, content: &str, msg: &str) -> git2::Oid {
    let blob = repo.blob(content.as_bytes()).unwrap();
    let parent = match repo.head() {
        Ok(h) => Some(h.peel_to_commit().unwrap()),
        Err(_) => None,
    };
    let base_tree = parent.as_ref().map(|p| p.tree().unwrap());
    let mut tb = repo.treebuilder(base_tree.as_ref()).unwrap();
    tb.insert(file, blob, 0o100644).unwrap();
    let tree = repo.find_tree(tb.write().unwrap()).unwrap();
    let sig = git2::Signature::now("tester", "tester@example.com").unwrap();
    let parents: Vec<&git2::Commit> = parent.iter().collect();
    repo.commit(Some("HEAD"), &sig, &sig, msg, &tree, &parents)
        .unwrap()
}

/// The text of `file` in the tree of the commit HEAD points to.
fn head_file_content(repo: &git2::Repository, file: &str) -> String {
    let tree = repo.head().unwrap().peel_to_commit().unwrap().tree().unwrap();
    let entry = tree.get_name(file).expect("file in HEAD tree");
    let blob = repo.find_blob(entry.id()).unwrap();
    String::from_utf8(blob.content().to_vec()).unwrap()
}

/// A record for the working copy cloned from `url` into `root`, named `wc`.
fn cloned_record(url: &str, root: &str) -> GitRepository {
    let mut record = GitRepository {
        org: None,
        name: "wc".to_string(),
        url: Some(url.to_string()),
        path: None,
    };
    let outcome = record.clone_repo(root, "unused-key").expect("clone succeeds");
    assert!(matches!(outcome, CloneOutcome::Cloned));
    assert!(record.path.is_some());
    let repo = git2::Repository::open(record.path.as_deref().unwrap()).unwrap();
    set_identity(&repo);
    record
}

#[test]
fn clone_twice_skips_network_on_second_call() {
    let remote_dir = fixture_dir("clone_src");
    let remote = init_repo(&remote_dir, false);
    commit_file(&remote, "f", "one", "base");

    let root = fixture_dir("clone_dst");
    let mut record = GitRepository {
        org: None,
        name: "wc".to_string(),
        url: Some(remote_dir.clone()),
        path: None,
    };
    let first = record.clone_repo(&root, "unused-key").unwrap();
    assert!(matches!(first, CloneOutcome::Cloned));
    let path = record.path.clone().expect("path set by the clone");

    // A second clone against the same destination must not touch the
    // transport at all: with an unreachable URL it can only succeed by
    // skipping the transfer. The record keeps the path it has.
    record.url = Some("/nonexistent/unreachable/repository".to_string());
    record.path = Some(path.clone());
    let second = record.clone_repo(&root, "unused-key").unwrap();
    assert!(matches!(second, CloneOutcome::AlreadyExists));
    assert_eq!(record.path.as_deref(), Some(path.as_str()));
}

#[test]
fn pull_up_to_date_does_nothing() {
    let remote_dir = fixture_dir("utd_remote");
    let remote = init_repo(&remote_dir, false);
    commit_file(&remote, "f", "one", "base");

    let root = fixture_dir("utd_local");
    let record = cloned_record(&remote_dir, &root);

    let report = record.pull(Some("main"), "unused-key").unwrap();
    assert!(matches!(report.kind, MergeKind::UpToDate));
    assert!(matches!(report.outcome, MergeOutcome::NoneNeeded));
}

#[test]
fn pull_fast_forwards_to_remote_tip() {
    let remote_dir = fixture_dir("ff_remote");
    let remote = init_repo(&remote_dir, false);
    commit_file(&remote, "f", "one", "base");

    let root = fixture_dir("ff_local");
    let record = cloned_record(&remote_dir, &root);

    // The remote advances to a child commit.
    let y = commit_file(&remote, "f", "two", "advance");

    let report = record.pull(Some("main"), "unused-key").unwrap();
    assert!(matches!(report.kind, MergeKind::FastForward));
    assert!(matches!(report.outcome, MergeOutcome::FastForwarded));
    assert_eq!(report.branch, "main");

    let local = git2::Repository::open(record.path.as_deref().unwrap()).unwrap();
    let head = local.head().unwrap().peel_to_commit().unwrap();
    assert_eq!(head.id(), y);
    assert_eq!(head_file_content(&local, "f"), "two");
    // The working tree was checked out at the new tip: nothing differs
    // from HEAD.
    let statuses = local.statuses(None).unwrap();
    for entry in statuses.iter() {
        assert!(
            !entry.status().intersects(
                git2::Status::WT_MODIFIED | git2::Status::WT_DELETED | git2::Status::WT_NEW
            ),
            "working tree differs from the fast-forwarded tip"
        );
    }
}

#[test]
fn pull_merges_diverged_histories_without_overlap() {
    let remote_dir = fixture_dir("merge_remote");
    let remote = init_repo(&remote_dir, false);
    commit_file(&remote, "a", "base-a", "base a");
    commit_file(&remote, "b", "base-b", "base b");

    let root = fixture_dir("merge_local");
    let record = cloned_record(&remote_dir, &root);

    // Local commits an edit to one file; the remote independently edits
    // another.
    let local = git2::Repository::open(record.path.as_deref().unwrap()).unwrap();
    let l = commit_file(&local, "a", "local-a", "local edit");
    let r = commit_file(&remote, "b", "remote-b", "remote edit");

    let report = record.pull(Some("main"), "unused-key").unwrap();
    assert!(matches!(report.kind, MergeKind::Normal));
    assert!(matches!(report.outcome, MergeOutcome::Merged));

    let head = local.head().unwrap().peel_to_commit().unwrap();
    assert_eq!(head.parent_count(), 2);
    assert_eq!(head.parent_id(0).unwrap(), l);
    assert_eq!(head.parent_id(1).unwrap(), r);
    assert_eq!(head_file_content(&local, "a"), "local-a");
    assert_eq!(head_file_content(&local, "b"), "remote-b");
}

#[test]
fn pull_with_conflicts_creates_no_commit() {
    let remote_dir = fixture_dir("conflict_remote");
    let remote = init_repo(&remote_dir, false);
    commit_file(&remote, "a", "base", "base");

    let root = fixture_dir("conflict_local");
    let record = cloned_record(&remote_dir, &root);

    let local = git2::Repository::open(record.path.as_deref().unwrap()).unwrap();
    let l = commit_file(&local, "a", "local edit", "local");
    commit_file(&remote, "a", "remote edit", "remote");

    let report = record.pull(Some("main"), "unused-key").unwrap();
    assert!(matches!(report.kind, MergeKind::Normal));
    assert!(matches!(report.outcome, MergeOutcome::Conflicts));

    // No commit was created: HEAD still points at the local tip, with its
    // single parent.
    let head = local.head().unwrap().peel_to_commit().unwrap();
    assert_eq!(head.id(), l);
    assert_eq!(head.parent_count(), 1);
    // The conflicted result was materialized into the working tree.
    let statuses = local.statuses(None).unwrap();
    let conflicted_or_modified = statuses.iter().any(|e| {
        e.status()
            .intersects(git2::Status::WT_MODIFIED | git2::Status::CONFLICTED)
    });
    assert!(conflicted_or_modified, "conflicts reached the working tree");
}

#[test]
fn pull_into_unborn_repository_creates_the_branch() {
    let remote_dir = fixture_dir("unborn_remote");
    let remote = init_repo(&remote_dir, false);
    let tip = commit_file(&remote, "f", "one", "base");

    let local_dir = fixture_dir("unborn_local");
    let local = init_repo(&local_dir, false);
    local.remote("origin", &remote_dir).unwrap();

    let record = GitRepository {
        org: None,
        name: "wc".to_string(),
        url: Some(remote_dir.clone()),
        path: Some(local_dir.clone()),
    };
    let report = record.pull(Some("main"), "unused-key").unwrap();
    assert!(matches!(report.outcome, MergeOutcome::CreatedBranch));

    let head = local.head().unwrap().peel_to_commit().unwrap();
    assert_eq!(head.id(), tip);
}

#[test]
fn push_to_diverged_remote_is_rejected() {
    let remote_dir = fixture_dir("push_remote");
    let remote = init_repo(&remote_dir, true);
    commit_file(&remote, "f", "base", "base");

    let root = fixture_dir("push_local");
    let record = cloned_record(&remote_dir, &root);

    let local = git2::Repository::open(record.path.as_deref().unwrap()).unwrap();
    commit_file(&local, "f", "local", "local");
    // The remote advances independently: the local tip no longer contains
    // the remote tip.
    commit_file(&remote, "f", "remote", "remote");

    let result = record.push("unused-key");
    assert!(result.is_err(), "a non-fast-forward push must be rejected");
}

#[test]
fn push_to_unchanged_remote_succeeds() {
    let remote_dir = fixture_dir("pushok_remote");
    let remote = init_repo(&remote_dir, true);
    commit_file(&remote, "f", "base", "base");

    let root = fixture_dir("pushok_local");
    let record = cloned_record(&remote_dir, &root);

    let local = git2::Repository::open(record.path.as_deref().unwrap()).unwrap();
    let l = commit_file(&local, "f", "local", "local");

    record.push("unused-key").expect("fast-forward push succeeds");
    let remote_tip = remote.head().unwrap().peel_to_commit().unwrap();
    assert_eq!(remote_tip.id(), l);
}

#[test]
fn engine_reports_current_and_default_branch() {
    let remote_dir = fixture_dir("branches_remote");
    let remote = init_repo(&remote_dir, false);
    commit_file(&remote, "f", "one", "base");

    let root = fixture_dir("branches_local");
    let record = cloned_record(&remote_dir, &root);

    assert_eq!(record.current_branch().unwrap(), "main");
    assert_eq!(record.default_branch("unused-key").unwrap(), "main");
    assert_eq!(record.remote().unwrap(), remote_dir);
    assert_eq!(record.get_remote().unwrap(), remote_dir);
}

#[test]
fn branch_and_checkout_move_head() {
    let remote_dir = fixture_dir("co_remote");
    let remote = init_repo(&remote_dir, false);
    commit_file(&remote, "f", "one", "base");

    let root = fixture_dir("co_local");
    let record = cloned_record(&remote_dir, &root);

    record.branch("feature").expect("branch creation succeeds");
    record.checkout("feature").expect("checkout succeeds");
    let local = git2::Repository::open(record.path.as_deref().unwrap()).unwrap();
    assert_eq!(local.head().unwrap().shorthand().unwrap(), "feature");

    assert!(record.checkout("no-such-branch").is_err());
}

#[test]
fn commit_writes_the_index_with_one_parent() {
    let remote_dir = fixture_dir("ci_remote");
    let remote = init_repo(&remote_dir, false);
    commit_file(&remote, "f", "one", "base");

    let root = fixture_dir("ci_local");
    let record = cloned_record(&remote_dir, &root);
    let local = git2::Repository::open(record.path.as_deref().unwrap()).unwrap();
    let parent = local.head().unwrap().peel_to_commit().unwrap().id();

    let id = record.commit("snapshot").expect("commit succeeds");
    let head = local.head().unwrap().peel_to_commit().unwrap();
    assert_eq!(head.id().to_string(), id);
    assert_eq!(head.parent_count(), 1);
    assert_eq!(head.parent_id(0).unwrap(), parent);
    assert_eq!(head.message().unwrap(), "snapshot");
}

#[test]
fn rev_parse_reports_single_and_range() {
    let remote_dir = fixture_dir("rev_remote");
    let remote = init_repo(&remote_dir, false);
    commit_file(&remote, "f", "one", "base");
    let second = commit_file(&remote, "f", "two", "next");

    let root = fixture_dir("rev_local");
    let record = cloned_record(&remote_dir, &root);

    let (id, lines) = record.rev_parse("HEAD").unwrap();
    assert_eq!(id, second.to_string());
    assert_eq!(lines, vec![second.to_string()]);

    let (range_id, range_lines) = record.rev_parse("HEAD~1..HEAD").unwrap();
    assert_eq!(range_lines.len(), 2);
    assert_eq!(range_lines[0], second.to_string());
    assert_eq!(range_lines[1], format!("^{}", range_id));

    assert!(record.rev_parse("not-a-rev").is_err());
}

#[test]
fn operations_need_a_recorded_path() {
    let record = GitRepository {
        org: None,
        name: "wc".to_string(),
        url: None,
        path: None,
    };
    assert!(record.open().is_err());
    assert!(record.current_branch().is_err());
    assert!(record.push("unused-key").is_err());
    assert!(record.pull(Some("main"), "unused-key").is_err());
}

#[test]
fn fetch_downloads_for_branch_or_all_refspecs() {
    let remote_dir = fixture_dir("fetch_remote");
    let remote = init_repo(&remote_dir, false);
    commit_file(&remote, "f", "one", "base");

    let root = fixture_dir("fetch_local");
    let record = cloned_record(&remote_dir, &root);
    commit_file(&remote, "f", "two", "advance");

    record
        .fetch(Some("main"), "unused-key")
        .expect("fetch of one branch succeeds");
    record
        .fetch(None, "unused-key")
        .expect("fetch of the configured ref-specs succeeds");
}

#[test]
fn stage_and_checkout_default_succeed_on_clean_tree() {
    let remote_dir = fixture_dir("stage_remote");
    let remote = init_repo(&remote_dir, false);
    commit_file(&remote, "f", "one", "base");

    let root = fixture_dir("stage_local");
    let record = cloned_record(&remote_dir, &root);

    record
        .add(vec!["*".to_string()], false)
        .expect("staging succeeds");
    record
        .add(vec!["*".to_string()], true)
        .expect("update staging succeeds");
    record
        .checkout_default()
        .expect("checkout of HEAD succeeds");
}

#[test]
fn stash_without_changes_reports_a_git_error() {
    let remote_dir = fixture_dir("stash_remote");
    let remote = init_repo(&remote_dir, false);
    commit_file(&remote, "f", "one", "base");

    let root = fixture_dir("stash_local");
    let record = cloned_record(&remote_dir, &root);

    // Nothing is modified, so there is nothing to stash; the git layer's
    // error is carried through. Popping from an empty stash list fails the
    // same way.
    assert!(record.stash().is_err());
    assert!(record.stash_pop().is_err());
}

#[test]
fn update_all_continues_past_failures() {
    let remote_dir = fixture_dir("batch_remote");
    let remote = init_repo(&remote_dir, false);
    commit_file(&remote, "f", "one", "base");

    let root = fixture_dir("batch_local");
    let good = cloned_record(&remote_dir, &root);
    let tip = commit_file(&remote, "f", "two", "advance");

    let no_url = GitRepository {
        org: None,
        name: "aaa".to_string(),
        url: None,
        path: None,
    };
    let broken = GitRepository {
        org: None,
        name: "zzz".to_string(),
        url: Some(remote_dir.clone()),
        path: Some(fixture_dir("batch_missing")),
    };

    let good_path = good.path.clone();
    let registry = RepositoryRegistry::new(Some(vec![no_url, good, broken]));
    let results = update_all(&registry, "unused-key");

    // Every record got an outcome, in order, and the failures did not stop
    // the batch: the good repository in the middle was updated.
    assert_eq!(results.len(), 3);
    assert_eq!(results[0].0, "aaa");
    assert!(matches!(results[0].1, Some(GitError::MissingRemoteUrl)));
    assert_eq!(results[1].0, "wc");
    assert!(results[1].1.is_none());
    assert_eq!(results[2].0, "zzz");
    assert!(matches!(results[2].1, Some(GitError::Git(_))));

    let local = git2::Repository::open(good_path.as_deref().unwrap()).unwrap();
    assert_eq!(local.head().unwrap().peel_to_commit().unwrap().id(), tip);
}
