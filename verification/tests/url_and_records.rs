//! Remote-URL parsing, repository records, the registry, and the language
//! dispatch.

use dev_cli::config::RepositoryRegistry;
use dev_cli::git::GitRepository;
use dev_cli::git::scan::{is_root_repo, scanned_record};
use dev_cli::git::url::parse_remote_url;
use dev_cli::runners::Language;

#[test]
fn parses_ssh_remote_url() {
    let r = parse_remote_url("git@github.com:acme/widget.git").unwrap();
    assert_eq!(r, ("widget".to_string(), Some("acme".to_string())));
}

#[test]
fn parses_https_remote_url() {
    let r = parse_remote_url("https://github.com/acme/widget.git").unwrap();
    assert_eq!(r, ("widget".to_string(), Some("acme".to_string())));
}

#[test]
fn parses_url_without_git_suffix() {
    let r = parse_remote_url("https://github.com/acme/widget").unwrap();
    assert_eq!(r, ("widget".to_string(), Some("acme".to_string())));
}

#[test]
fn parses_name_with_dash() {
    let r = parse_remote_url("git@github.com:my_org/my-repo.git").unwrap();
    assert_eq!(r, ("my-repo".to_string(), Some("my_org".to_string())));
}

#[test]
fn rejects_unparsable_url() {
    assert!(parse_remote_url("ftp://example.org/acme/widget").is_err());
    assert!(parse_remote_url("").is_err());
    assert!(parse_remote_url("git@github.com:acme").is_err());
}

#[test]
fn new_record_from_full_name() {
    let g = GitRepository::new("acme/widget", None).unwrap();
    assert_eq!(g.org.as_deref(), Some("acme"));
    assert_eq!(g.name, "widget");
    assert_eq!(g.url.as_deref(), Some("git@github.com:acme/widget"));
    assert!(g.path.is_none());

    let g = GitRepository::new("acme/widget", Some("/tmp/widget")).unwrap();
    assert_eq!(g.path.as_deref(), Some("/tmp/widget"));
}

#[test]
fn new_record_rejects_malformed_names() {
    assert!(GitRepository::new("widget", None).is_err());
    assert!(GitRepository::new("a/b/c", None).is_err());
}

#[test]
fn registry_keeps_one_record_per_name() {
    let a = GitRepository::new("acme/widget", None).unwrap();
    let b = GitRepository::new("acme/gadget", None).unwrap();
    let mut reg = RepositoryRegistry::new(Some(vec![a, b]));
    assert!(reg.get_repo("widget").is_some());
    assert!(reg.get_repo("gadget").is_some());
    assert!(reg.get_repo("missing").is_none());

    let replacement = GitRepository::new("other/widget", Some("/x")).unwrap();
    reg.update_repo(replacement);
    let got = reg.get_repo("widget").unwrap();
    assert_eq!(got.org.as_deref(), Some("other"));
    assert_eq!(got.path.as_deref(), Some("/x"));
    assert_eq!(reg.get_repos().len(), 2);
}

#[test]
fn registry_reports_duplicates_on_add() {
    let a = GitRepository::new("acme/widget", None).unwrap();
    let mut reg = RepositoryRegistry::new(None);
    let dup = reg.add_repo(None, &a);
    assert!(!dup);
    let dup = reg.add_repo(Some("widget".to_string()), &a);
    assert!(dup);
    assert_eq!(reg.get_repos().len(), 1);
}

#[test]
fn scanned_record_names_from_url_or_directory() {
    let g = scanned_record(
        Some("git@github.com:acme/widget.git".to_string()),
        "fallback".to_string(),
        Some("widget".to_string()),
    );
    assert_eq!(g.name, "widget");
    assert_eq!(g.org.as_deref(), Some("acme"));
    assert_eq!(g.path.as_deref(), Some("widget"));

    let g = scanned_record(Some("not a url".to_string()), "dirname".to_string(), None);
    assert_eq!(g.name, "dirname");
    assert!(g.org.is_none());

    let g = scanned_record(None, "dirname".to_string(), None);
    assert_eq!(g.name, "dirname");
    assert!(g.org.is_none());
}

#[test]
fn root_repo_path_is_dot() {
    assert_eq!(
        is_root_repo("sub", "/home/u/w", "/home/u/w"),
        Some(".".to_string())
    );
    assert_eq!(
        is_root_repo("sub", "/home/u/w/sub", "/home/u/w"),
        Some("sub".to_string())
    );
}

#[test]
fn language_for_extension() {
    assert!(matches!(
        Language::try_from("script.js"),
        Ok(Language::JavaScript(_))
    ));
    assert!(matches!(
        Language::try_from("script.ts"),
        Ok(Language::JavaScript(_))
    ));
    assert!(matches!(Language::try_from("run.lua"), Ok(Language::Lua(_))));
    assert!(matches!(Language::try_from("run.py"), Ok(Language::Python(_))));
    match Language::try_from("run.bash") {
        Ok(Language::Shell(sh)) => assert_eq!(sh.shell, "bash"),
        other => panic!("expected a shell runner, got {:?}", other),
    }
    assert!(Language::try_from("notes.txt").is_err());
}

#[test]
fn language_extensions() {
    assert_eq!(Language::try_from("a.py").unwrap().get_extension(), ".py");
    assert_eq!(Language::try_from("a.lua").unwrap().get_extension(), ".lua");
    assert_eq!(Language::try_from("a.js").unwrap().get_extension(), ".js");
    assert_eq!(Language::try_from("a.sh").unwrap().get_extension(), ".sh");
}

#[test]
fn registry_merge_prefers_later_records() {
    let a1 = GitRepository::new("one/widget", None).unwrap();
    let b = GitRepository::new("one/gadget", None).unwrap();
    let a2 = GitRepository::new("two/widget", Some("/w")).unwrap();
    let c = GitRepository::new("two/gizmo", None).unwrap();

    let mut left = RepositoryRegistry::new(Some(vec![a1, b]));
    let right = RepositoryRegistry::new(Some(vec![a2, c]));
    left.merge(right);

    assert_eq!(left.get_repos().len(), 3);
    let widget = left.get_repo("widget").unwrap();
    assert_eq!(widget.org.as_deref(), Some("two"));
    assert_eq!(widget.path.as_deref(), Some("/w"));
    assert!(left.get_repo("gadget").is_some());
    assert!(left.get_repo("gizmo").is_some());
}

#[test]
fn error_labels_name_the_condition() {
    let record = GitRepository {
        org: None,
        name: "wc".to_string(),
        url: None,
        path: None,
    };
    let err = match record.open() {
        Err(e) => e,
        Ok(_) => panic!("open without a path must fail"),
    };
    assert_eq!(err.label(), "repository path not set");
    let err = GitRepository::new("nameless", None).unwrap_err();
    assert_eq!(err.label(), "repo name must consist of {org}/{repo}");
}

#[test]
fn ssh_key_location_is_fixed_under_home() {
    assert_eq!(
        dev_cli::git::repo::ssh_key_path("/home/me"),
        "/home/me/.ssh/id_ed25519"
    );
}
