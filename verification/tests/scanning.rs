//! Directory scanning: the non-recursive scan examines only the root, and
//! the recursive scan never descends into hidden directories.

use dev_cli::git::scan;

fn fixture_dir(name: &str) -> String {
    let nanos = std::time::SystemTime::now()
        .duration_since(std::time::UNIX_EPOCH)
        .unwrap()
        .as_nanos();
    format!("/tmp/dev_cli_fixtures/{}_{}", name, nanos)
}

fn init_repo(path: &str) {
    let mut opts = git2::RepositoryInitOptions::new();
    opts.mkpath(true).initial_head("main");
    git2::Repository::init_opts(path, &opts).expect("fixture repository");
}

/// A plain directory, made without any file-system call of this crate's
/// own: a repository is initialized underneath it.
fn plain_dir(path: &str) {
    init_repo(&format!("{}/.marker", path));
}

#[test]
fn scan_without_recursion_returns_only_the_root() {
    let root = fixture_dir("scan_root");
    init_repo(&root);
    let found = scan::run(&root, 1, false).unwrap();
    assert_eq!(found.len(), 1);
    assert_eq!(found[0].0, root);
}

#[test]
fn scan_without_recursion_fails_on_a_plain_directory() {
    let root = fixture_dir("scan_plain");
    plain_dir(&root);
    assert!(scan::run(&root, 1, false).is_err());
}

#[test]
fn recursive_scan_skips_hidden_directories() {
    let root = fixture_dir("scan_tree");
    plain_dir(&root);
    init_repo(&format!("{}/visible", root));
    init_repo(&format!("{}/.hidden/inner", root));
    init_repo(&format!("{}/nested/deeper", root));

    let found = scan::run(&root, 4, true).unwrap();
    let paths: Vec<&str> = found.iter().map(|(p, _)| p.as_str()).collect();

    assert!(paths.contains(&format!("{}/visible", root).as_str()));
    assert!(paths.contains(&format!("{}/nested/deeper", root).as_str()));
    // No visited path holds a segment starting with `.` below the root.
    for p in &paths {
        let rel = &p[root.len()..];
        assert!(
            !rel.contains("/."),
            "hidden segment reached the result: {}",
            p
        );
    }
}

#[test]
fn recursive_scan_respects_the_depth_bound() {
    let root = fixture_dir("scan_depth");
    plain_dir(&root);
    init_repo(&format!("{}/one", root));
    init_repo(&format!("{}/a/b/deep", root));

    let found = scan::run(&root, 1, true).unwrap();
    let paths: Vec<&str> = found.iter().map(|(p, _)| p.as_str()).collect();
    assert!(paths.contains(&format!("{}/one", root).as_str()));
    assert!(!paths.contains(&format!("{}/a/b/deep", root).as_str()));
}

#[test]
fn recursive_scan_without_repositories_fails() {
    let root = fixture_dir("scan_none");
    plain_dir(&root);
    assert!(scan::run(&root, 0, true).is_err());
}
