//! Socket paths, and paths as such.

use crossbridge::pathname::PathName;
use crossbridge::paths::{
    default_socket_root, resolve_register_socket, resolve_runtime_root, runtime_root_from_socket,
    socket_dir, socket_root, target_socket, SocketLayout, DEFAULT_SOCKET_ROOT, SOCKET_ROOT_ENV,
    XDG_RUNTIME_DIR_ENV,
};

fn path(s: &str) -> PathName {
    PathName::from_text(s)
}

fn only(key: &'static str, value: &'static str) -> impl Fn(&str) -> Option<Vec<u8>> {
    move |k: &str| if k == key { Some(value.as_bytes().to_vec()) } else { None }
}

#[test]
fn default_socket_root_prefers_crossbridge_env() {
    let resolved = default_socket_root(|k: &str| match k {
        SOCKET_ROOT_ENV => Some(b"/srv/run".to_vec()),
        XDG_RUNTIME_DIR_ENV => Some(b"/run/user/1000".to_vec()),
        _ => None,
    });
    assert_eq!(resolved, path("/srv/run"));
}

#[test]
fn default_socket_root_falls_back_to_xdg() {
    let resolved = default_socket_root(|k: &str| match k {
        XDG_RUNTIME_DIR_ENV => Some(b"/run/user/1000".to_vec()),
        _ => None,
    });
    assert_eq!(resolved, path("/run/user/1000/crossbridge"));
}

#[test]
fn default_socket_root_falls_back_to_compiled_in_default() {
    let resolved = default_socket_root(|_: &str| None);
    assert_eq!(resolved, path(DEFAULT_SOCKET_ROOT));
}

#[test]
fn layout_paths_under_custom_root() {
    let l = SocketLayout::new(path("/tmp/xb"));
    assert_eq!(l.root(), &path("/tmp/xb"));
    assert_eq!(l.register_socket(), path("/tmp/xb/register.socket"));
    assert_eq!(l.peer_dir("repo-a"), path("/tmp/xb/repo-a"));
    assert_eq!(l.listener_socket("repo-a", "repo-b"), path("/tmp/xb/repo-a/repo-b.socket"));
}

#[test]
fn resolve_runtime_root_flag_only_wins() {
    let flag = path("/custom/run");
    assert_eq!(resolve_runtime_root(Some(&flag), |_: &str| None), flag);
}

#[test]
fn resolve_runtime_root_crossbridge_env_used_when_no_flag() {
    let resolved = resolve_runtime_root(None, only(SOCKET_ROOT_ENV, "/srv/run"));
    assert_eq!(resolved, path("/srv/run"));
}

#[test]
fn resolve_runtime_root_falls_back_to_xdg_runtime_dir() {
    let resolved = resolve_runtime_root(None, only(XDG_RUNTIME_DIR_ENV, "/run/user/1000"));
    assert_eq!(resolved, path("/run/user/1000/crossbridge"));
}

#[test]
fn resolve_runtime_root_flag_overrides_env() {
    let flag = path("/custom/run");
    let resolved = resolve_runtime_root(Some(&flag), |_: &str| Some(b"/srv/run".to_vec()));
    assert_eq!(resolved, flag);
}

#[test]
fn resolve_runtime_root_neither_falls_back_to_default() {
    assert_eq!(resolve_runtime_root(None, |_: &str| None), path(DEFAULT_SOCKET_ROOT));
}

#[test]
fn flag_only_wins() {
    let flag = path("/custom/r.sock");
    assert_eq!(resolve_register_socket(Some(&flag), |_: &str| None), flag);
}

#[test]
fn env_only_used_when_no_flag() {
    let resolved = resolve_register_socket(None, only(SOCKET_ROOT_ENV, "/srv/run"));
    assert_eq!(resolved, path("/srv/run/register.socket"));
}

#[test]
fn flag_overrides_env() {
    let flag = path("/custom/r.sock");
    let resolved = resolve_register_socket(Some(&flag), |_: &str| Some(b"/srv/run".to_vec()));
    assert_eq!(resolved, flag);
}

#[test]
fn neither_falls_back_to_default() {
    let resolved = resolve_register_socket(None, |_: &str| None);
    assert_eq!(resolved, path("/run/crossbridge/register.socket"));
}

#[test]
fn register_socket_lies_in_the_users_runtime_directory() {
    let resolved = resolve_register_socket(None, only(XDG_RUNTIME_DIR_ENV, "/run/user/7"));
    assert_eq!(resolved, path("/run/user/7/crossbridge/register.socket"));
}

#[test]
fn client_and_server_mean_the_same_socket() {
    let root = socket_root(only(SOCKET_ROOT_ENV, "/srv/run"));
    assert_eq!(root, path("/srv/run"));
    assert_eq!(socket_dir(&root, "a"), path("/srv/run/a"));
    // The server of `b` listens for `a` where the client of `a` looks for `b`.
    let layout = SocketLayout::new(root.copy());
    assert_eq!(target_socket(&root, "a", "b"), layout.listener_socket("a", "b"));
}

#[test]
fn root_of_a_register_socket() {
    assert_eq!(runtime_root_from_socket(&path("/x/register.socket")), path("/x"));
    assert_eq!(runtime_root_from_socket(&path("register.socket")), path(""));
    assert_eq!(runtime_root_from_socket(&path("/")), path("/run/crossbridge"));
    assert_eq!(runtime_root_from_socket(&path("")), path("/run/crossbridge"));
    for root in ["/run/crossbridge", "/", "", ".", "./a", "a/b", "/a//b"] {
        let layout = SocketLayout::new(path(root));
        assert_eq!(&runtime_root_from_socket(&layout.register_socket()), layout.root(), "{root}");
    }
    // Void components at the end of a root are not found again.
    let layout = SocketLayout::new(path("/a/./"));
    assert_eq!(runtime_root_from_socket(&layout.register_socket()), path("/a"));
}

// Joining and parents follow `std::path`.

fn cases() -> Vec<&'static str> {
    vec![
        "", "/", ".", "..", "a", "a/", "a//", "/a", "//a", "./a", ".//a", "./.", "./", "/.",
        "/./a", "a/.", "a/./", "a/b", "a//b", "a/./b", "a/b/.", "a/../b", "/a/b/c", "///", "a/.//",
        ".a", ".a/b", "..a", "./..", "/..", "a/..", "b/./.", "/a/./.", "x y/ü",
    ]
}

#[test]
fn parents_are_those_of_std() {
    for c in cases() {
        let expected = std::path::Path::new(c).parent().map(|p| p.to_str().unwrap().to_string());
        let got = path(c).parent().map(|p| p.display());
        assert_eq!(got, expected, "parent of {c:?}");
    }
}

#[test]
fn joins_are_those_of_std() {
    for a in cases() {
        for b in cases() {
            let expected = std::path::Path::new(a).join(b);
            let got = path(a).join(b);
            assert_eq!(got.display(), expected.to_str().unwrap(), "{a:?} and {b:?}");
        }
    }
}

#[test]
fn bytes_that_are_no_text_are_shown_with_replacements() {
    let p = PathName::from_bytes(vec![b'/', 0xff, b'a']);
    assert_eq!(p.display(), "/\u{fffd}a");
    assert_eq!(p.copy().as_bytes(), &vec![b'/', 0xff, b'a']);
}
