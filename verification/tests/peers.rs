//! The peers whose sockets lie in a directory.

use crossbridge::pathname::PathName;
use crossbridge::paths::socket_dir;
use crossbridge::peers::{list_peers, Entry, Listing};
use std::path::Path;
use tempfile::{tempdir, Builder, NamedTempFile, TempDir};

fn listing(dir: &Path) -> Listing {
    match dir.read_dir() {
        Ok(entries) => Listing::Entries(
            entries
                .map(|e| match e {
                    Ok(e) => Entry::Name(e.file_name().into_encoded_bytes()),
                    Err(e) => Entry::Failed(e.to_string()),
                })
                .collect(),
        ),
        Err(e) if e.kind() == std::io::ErrorKind::NotFound => Listing::NotFound,
        Err(e) => Listing::Failed(e.to_string()),
    }
}

fn peers_in(dir: &Path) -> Result<Vec<String>, String> {
    let name = PathName::from_text(dir.to_str().unwrap());
    list_peers(&name, listing(dir))
}

fn file(dir: &TempDir, name: &str) -> NamedTempFile {
    Builder::new().prefix(name).rand_bytes(0).tempfile_in(dir.path()).unwrap()
}

#[test]
fn empty_dir_yields_empty() {
    let dir = tempdir().unwrap();
    let peers = peers_in(dir.path()).unwrap();
    assert!(peers.is_empty());
}

#[test]
fn missing_dir_errors() {
    let dir = tempdir().unwrap();
    let err = peers_in(&dir.path().join("nope")).unwrap_err();
    assert!(err.contains("not registered with crossbridge"), "got: {err}");
}

#[test]
fn lists_socket_suffixes_only() {
    let dir = tempdir().unwrap();
    let _a = file(&dir, "firmware.socket");
    let _b = file(&dir, "tools.socket");
    let _c = file(&dir, "readme.txt");
    let peers = peers_in(dir.path()).unwrap();
    assert_eq!(peers, vec!["firmware".to_string(), "tools".to_string()]);
}

#[test]
fn ignores_non_socket_suffix_entries() {
    let dir = tempdir().unwrap();
    let _d = Builder::new()
        .prefix("nested.socket.d")
        .rand_bytes(0)
        .tempdir_in(dir.path())
        .unwrap();
    let _f = file(&dir, "ghidra.socket");
    let peers = peers_in(dir.path()).unwrap();
    assert_eq!(peers, vec!["ghidra".to_string()]);
}

// What the client lists: the peers in the directory of its own slug.

const OWN_SLUG: &str = "c";
const PEER_SLUG: &str = "p";

fn client_peers(root: &TempDir) -> Result<Vec<String>, String> {
    let root = PathName::from_text(root.path().to_str().unwrap());
    let dir = socket_dir(&root, OWN_SLUG);
    peers_in(Path::new(&dir.display()))
}

fn own_socket_dir(root: &TempDir) -> TempDir {
    Builder::new().prefix(OWN_SLUG).rand_bytes(0).tempdir_in(root.path()).unwrap()
}

#[test]
fn peers_lists_one_registered_peer() {
    let root = tempdir().unwrap();
    let dir = own_socket_dir(&root);
    let _socket = file(&dir, &format!("{PEER_SLUG}.socket"));
    assert_eq!(client_peers(&root).unwrap(), vec![PEER_SLUG]);
}

#[test]
fn peers_empty_dir_is_empty_output() {
    let root = tempdir().unwrap();
    let _dir = own_socket_dir(&root);
    assert!(client_peers(&root).unwrap().is_empty());
}

#[test]
fn peers_missing_dir_errors() {
    let root = tempdir().unwrap();
    let err = client_peers(&root).unwrap_err();
    assert!(err.contains("not registered with crossbridge (no socket dir)"), "got: {err}");
}

#[test]
fn peers_come_in_order_whatever_the_directory_says() {
    let dir = PathName::from_text("/x");
    let names = ["b.socket", ".socket", "ab.socket", "a.socket", "a.sock", "A.socket"];
    let entries = names.iter().map(|n| Entry::Name(n.as_bytes().to_vec())).collect();
    let peers = list_peers(&dir, Listing::Entries(entries)).unwrap();
    assert_eq!(peers, vec!["A", "a", "ab", "b"]);
}

#[test]
fn names_that_are_no_text_are_passed_over() {
    let entries = vec![
        Entry::Name(b"\xff.socket".to_vec()),
        Entry::Name("ü.socket".as_bytes().to_vec()),
    ];
    let peers = list_peers(&PathName::from_text("/x"), Listing::Entries(entries)).unwrap();
    assert_eq!(peers, vec!["ü"]);
}

#[test]
fn failures_name_the_directory() {
    let dir = PathName::from_text("/x");
    let err = list_peers(&dir, Listing::Failed("denied".into())).unwrap_err();
    assert!(err.contains("/x") && err.contains("denied"), "got: {err}");
    let entries = vec![Entry::Name(b"a.socket".to_vec()), Entry::Failed("gone".into())];
    let err = list_peers(&dir, Listing::Entries(entries)).unwrap_err();
    assert!(err.contains("gone"), "got: {err}");
}
