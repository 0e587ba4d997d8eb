//! The configuration of the bridge.

use crossbridge::config::{Complaint, Config, Presence, RepoConfig, RepoEntry};
use crossbridge::pathname::PathName;

/// The repositories that a configuration file names.
fn entries(text: &str) -> Vec<RepoEntry> {
    let table: toml::Table = text.parse().unwrap();
    let repos = table["repos"].as_table().unwrap();
    repos
        .iter()
        .map(|(slug, repo)| RepoEntry {
            slug: slug.clone(),
            repo: RepoConfig { path: PathName::from_text(repo["path"].as_str().unwrap()) },
        })
        .collect()
}

fn entry(slug: &str, path: &str) -> RepoEntry {
    RepoEntry { slug: slug.into(), repo: RepoConfig { path: PathName::from_text(path) } }
}

#[test]
fn parse_valid_config() {
    let config = Config::load(entries(
        r#"
[repos.alpha]
path = "/tmp/alpha"

[repos.beta]
path = "/tmp/beta"
"#,
    ))
    .unwrap();
    assert_eq!(config.len(), 2);
    assert!(config.get("alpha").is_some());
    assert!(config.get("beta").is_some());
    assert_eq!(
        config.get("alpha").unwrap().db_path(),
        PathName::from_text("/tmp/alpha/.crosslink/issues.db")
    );
}

#[test]
fn empty_repos_is_error() {
    let err = Config::load(entries("[repos]\n")).unwrap_err();
    assert!(err.contains("no repos defined"));
}

#[test]
fn repo_slugs_sorted() {
    let config = Config::load(entries(
        r#"
[repos.zebra]
path = "/tmp/z"

[repos.alpha]
path = "/tmp/a"
"#,
    ))
    .unwrap();
    assert_eq!(config.repo_slugs(), vec!["alpha", "zebra"]);
}

#[test]
fn slugs_are_sorted_from_any_order() {
    let config = Config::load(vec![
        entry("m", "/m"),
        entry("z", "/z"),
        entry("a", "/a"),
        entry("aa", "/aa"),
        entry("m", "/other"),
    ])
    .unwrap();
    assert_eq!(config.repo_slugs(), vec!["a", "aa", "m", "z"]);
    // Of two entries for one slug the later one counts.
    assert_eq!(config.get("m").unwrap().path, PathName::from_text("/other"));
    assert!(config.get("b").is_none());
    assert_eq!(config.entry(1).slug, "aa");
}

#[test]
fn what_is_missing_is_complained_about() {
    let config =
        Config::load(vec![entry("a", "/a"), entry("b", "/b"), entry("c", "/c")]).unwrap();
    let found = vec![
        Presence { path: true, database: true },
        Presence { path: false, database: false },
        Presence { path: true, database: false },
    ];
    let complaints = config.validate(&found);
    assert_eq!(complaints.len(), 2);
    assert!(matches!(&complaints[0], Complaint::NoRepo { slug, .. } if slug == "b"));
    assert!(matches!(&complaints[1], Complaint::NoDatabase { slug, .. } if slug == "c"));
}
