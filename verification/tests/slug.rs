//! Slugs: from a flag, from the environment, from a remote.

use crossbridge::pathname::PathName;
use crossbridge::paths::{own_slug_from_env, OWN_SLUG_ENV};
use crossbridge::slug::{
    derive_from_repo, derive_own_slug, find_origin, parse_origin_url, parse_slug,
    resolve_own_slug, resolve_slug, Role, SlugAction, SlugReply, SlugTask,
};

fn nowhere() -> PathName {
    PathName::from_text("/does/not/exist")
}

fn only_own_slug(k: &str) -> Option<Vec<u8>> {
    if k == OWN_SLUG_ENV { Some(b"from-env".to_vec()) } else { None }
}

/// Runs a search where there is no directory, and no program finds a remote.
fn run_in_void(mut task: SlugTask) -> Result<String, String> {
    loop {
        let reply = match task.current() {
            SlugAction::IsDir(_) => SlugReply::Answer(false),
            SlugAction::Run { .. } => SlugReply::Ran { success: false, stdout: vec![] },
            SlugAction::Return(r) => return r,
        };
        task.resume(reply);
    }
}

/// Runs a search with given replies, and says what was asked.
fn run_with(mut task: SlugTask, replies: Vec<SlugReply>) -> (Vec<String>, Result<String, String>) {
    let mut asked = Vec::new();
    let mut replies = replies.into_iter();
    loop {
        match task.current() {
            SlugAction::IsDir(p) => asked.push(format!("dir {}", p.display())),
            SlugAction::Run { program, args } => {
                let args: Vec<String> = args.iter().map(|a| a.display()).collect();
                asked.push(format!("{program} {}", args.join(" ")));
            }
            SlugAction::Return(r) => {
                assert!(replies.next().is_none(), "too many replies");
                return (asked, r);
            }
        }
        task.resume(replies.next().expect("a reply"));
    }
}

// --- the client's --------------------------------------------------------------

#[test]
fn resolve_flag_wins_over_env_and_derive() {
    let t = resolve_own_slug(Some("from-flag"), |_: &str| Some(b"from-env".to_vec()), nowhere());
    assert_eq!(run_in_void(t).expect("flag value should resolve"), "from-flag");
}

#[test]
fn resolve_flag_trims_whitespace() {
    let t = resolve_own_slug(Some("  firmware\n"), |_: &str| None, nowhere());
    assert_eq!(run_in_void(t).expect("trimmed flag should resolve"), "firmware");
}

#[test]
fn resolve_flag_empty_errors() {
    let t = resolve_own_slug(Some("   "), |_: &str| None, nowhere());
    let err = run_in_void(t).expect_err("empty flag should fail");
    assert!(err.contains("--slug"));
}

#[test]
fn a_blank_flag_falls_through_to_the_variable() {
    let t = resolve_own_slug(Some(" \t"), only_own_slug, nowhere());
    assert_eq!(run_in_void(t).as_deref(), Ok("from-env"));
    // And from there to the repository.
    let t = resolve_own_slug(Some(""), |_: &str| None, nowhere());
    let url = b"git@h:org/tools.git\n".to_vec();
    let replies =
        vec![SlugReply::Answer(false), SlugReply::Ran { success: true, stdout: url }];
    assert_eq!(run_with(t, replies).1.as_deref(), Ok("tools"));
    // A server takes a blank flag for a mistake.
    let t = resolve_slug(Some(" \t"), only_own_slug, nowhere());
    assert!(run_in_void(t).unwrap_err().contains("--slug"));
}

#[test]
fn resolve_env_used_when_flag_absent() {
    let t = resolve_own_slug(None, only_own_slug, nowhere());
    assert_eq!(run_in_void(t).expect("env value should resolve"), "from-env");
}

#[test]
fn resolve_falls_through_to_derive_when_neither_set() {
    let t = resolve_own_slug(None, |_: &str| None, nowhere());
    let err = run_in_void(t).expect_err("derivation should fail in a path with no git/jj repo");
    assert!(err.contains("cannot determine repo slug"));
}

#[test]
fn ssh_url_with_dot_git() {
    assert_eq!(
        parse_origin_url("git@github.com:AMD-PSP/firmware.git").as_deref(),
        Some("firmware"),
    );
}

#[test]
fn https_url_no_dot_git() {
    assert_eq!(
        parse_origin_url("https://github.com/AMD-PSP/firmware").as_deref(),
        Some("firmware"),
    );
}

#[test]
fn https_url_with_dot_git_and_trailing_whitespace() {
    assert_eq!(
        parse_origin_url("https://example.com/org/tools.git\n").as_deref(),
        Some("tools"),
    );
}

#[test]
fn empty_input() {
    assert_eq!(parse_origin_url(""), None);
    assert_eq!(parse_origin_url("   "), None);
}

#[test]
fn trailing_slash_yields_none() {
    assert_eq!(parse_origin_url("https://example.com/org/"), None);
}

#[test]
fn bare_name() {
    assert_eq!(parse_origin_url("repo.git").as_deref(), Some("repo"));
}

// --- the server's --------------------------------------------------------------

#[test]
fn slug_resolve_flag_wins_over_env_and_derive() {
    let t = resolve_slug(Some("from-flag"), |_: &str| Some(b"from-env".to_vec()), nowhere());
    assert_eq!(run_in_void(t).expect("flag value should resolve"), "from-flag");
}

#[test]
fn slug_resolve_flag_trims_whitespace() {
    let t = resolve_slug(Some("  firmware\n"), |_: &str| None, nowhere());
    assert_eq!(run_in_void(t).expect("trimmed flag should resolve"), "firmware");
}

#[test]
fn slug_resolve_flag_empty_errors() {
    let t = resolve_slug(Some("   "), |_: &str| None, nowhere());
    let err = run_in_void(t).expect_err("empty flag should fail");
    assert!(err.contains("--slug"));
}

#[test]
fn slug_resolve_env_used_when_flag_absent() {
    let t = resolve_slug(None, only_own_slug, nowhere());
    assert_eq!(run_in_void(t).expect("env value should resolve"), "from-env");
}

#[test]
fn slug_resolve_falls_through_to_derive_when_neither_set() {
    let t = resolve_slug(None, |_: &str| None, nowhere());
    let err = run_in_void(t).expect_err("derivation should fail in a path with no git/jj repo");
    assert!(err.contains("cannot auto-derive repo slug"));
    assert!(err.contains("--slug"));
}

#[test]
fn parse_scp_style() {
    assert_eq!(parse_slug("git@github.com:AMD-PSP/firmware.git").as_deref(), Some("firmware"));
}

#[test]
fn parse_https_with_dot_git() {
    assert_eq!(
        parse_slug("https://github.com/AMD-PSP/firmware.git").as_deref(),
        Some("firmware")
    );
}

#[test]
fn parse_https_without_dot_git() {
    assert_eq!(parse_slug("https://github.com/AMD-PSP/firmware").as_deref(), Some("firmware"));
}

#[test]
fn parse_ssh_url() {
    assert_eq!(
        parse_slug("ssh://git@github.com/AMD-PSP/firmware.git").as_deref(),
        Some("firmware")
    );
}

#[test]
fn parse_trailing_slash() {
    assert_eq!(parse_slug("https://github.com/AMD-PSP/firmware/").as_deref(), Some("firmware"));
}

#[test]
fn parse_local_path() {
    assert_eq!(parse_slug("/abs/path/to/firmware").as_deref(), Some("firmware"));
    assert_eq!(parse_slug("/abs/path/to/firmware.git").as_deref(), Some("firmware"));
}

#[test]
fn parse_query_and_fragment_stripped() {
    assert_eq!(parse_slug("https://example.com/org/repo.git?ref=main").as_deref(), Some("repo"));
    assert_eq!(parse_slug("https://example.com/org/repo#frag").as_deref(), Some("repo"));
}

#[test]
fn parse_empty_or_invalid() {
    assert!(parse_slug("").is_none());
    assert!(parse_slug("   ").is_none());
    assert!(parse_slug("https://example.com/").is_none());
    assert!(parse_slug("https://example.com").is_none());
}

#[test]
fn derive_from_repo_no_origin_is_actionable() {
    let msg = run_in_void(derive_from_repo(PathName::from_text("/repo")))
        .expect_err("no origin is an error");
    let first_line = msg.lines().next().unwrap_or_default();
    assert!(first_line.contains("--slug"), "got: {first_line:?}");
    assert!(msg.contains("origin"), "got: {msg:?}");
    assert!(!msg.contains("git remote get-url origin"), "got: {msg:?}");
    assert!(!msg.contains("jj git remote list"), "got: {msg:?}");
}

// --- what is asked, and what is made of it ----------------------------------------

#[test]
fn a_jj_repository_is_asked_through_jj() {
    let list = b"upstream https://example.com/x/other.git\norigin git@h:o/mine.git\n".to_vec();
    let (asked, r) = run_with(
        derive_from_repo(PathName::from_text("/repo")),
        vec![SlugReply::Answer(true), SlugReply::Ran { success: true, stdout: list }],
    );
    assert_eq!(asked, vec!["dir /repo/.jj", "jj -R /repo git remote list"]);
    assert_eq!(r.unwrap(), "mine");
}

#[test]
fn a_client_falls_back_to_git() {
    let (asked, r) = run_with(
        derive_own_slug(PathName::from_text("/repo")),
        vec![
            SlugReply::Answer(true),
            SlugReply::Ran { success: false, stdout: vec![] },
            SlugReply::Ran { success: true, stdout: b"https://h/o/mine.git\n".to_vec() },
        ],
    );
    assert_eq!(asked.len(), 3);
    assert!(asked[2].starts_with("git "), "got {asked:?}");
    assert_eq!(r.unwrap(), "mine");
}

#[test]
fn a_program_that_cannot_run_is_reported() {
    let (_, r) = run_with(
        derive_from_repo(PathName::from_text("/repo")),
        vec![SlugReply::Answer(false), SlugReply::Failed("no such program".into())],
    );
    assert_eq!(r.unwrap_err(), "running git in /repo: no such program");
}

#[test]
fn the_remote_named_origin_is_found() {
    let list = "other u1\n  origin   u2  \norigin u3\n";
    assert_eq!(find_origin(Role::Client, list).as_deref(), Some("u2"));
    assert_eq!(find_origin(Role::Client, "origins u1\n"), None);
}

#[test]
fn client_and_server_derive_the_same_slug() {
    for url in [
        "git@github.com:org/firmware.git",
        "https://github.com/org/firmware",
        "ssh://git@h/org/firmware.git",
        "/abs/firmware.git",
        " https://h/firmware.git \n",
    ] {
        assert_eq!(parse_origin_url(url), parse_slug(url), "{url}");
    }
    for url in ["https://example.com", "ssh://git@h", "file://x"] {
        assert_eq!(parse_origin_url(url), None, "{url}");
        assert_eq!(parse_slug(url), None, "{url}");
    }
    // They part on what only the server trims.
    assert_eq!(parse_origin_url("https://h/firmware/"), None);
    assert_eq!(parse_slug("https://h/firmware/").as_deref(), Some("firmware"));
}

#[test]
fn a_blank_or_undecodable_variable_does_not_count() {
    assert_eq!(own_slug_from_env(|_: &str| Some(b"  a b \n".to_vec())).as_deref(), Some("a b"));
    assert_eq!(own_slug_from_env(|_: &str| Some(b" \t".to_vec())), None);
    assert_eq!(own_slug_from_env(|_: &str| Some(vec![0xff, 0xfe])), None);
    assert_eq!(own_slug_from_env(|_: &str| None), None);
}
