//! The server: its registration, its sockets, its life.

use std::collections::BTreeSet;

use crossbridge::framing::{read_message_sync, ByteReader, Error, IoFault};
use crossbridge::listeners::{AddAction, AddTask, ListenerSet};
use crossbridge::messages::{Notification, Register, RegisterResponse, SupervisorMessage};
use crossbridge::pathname::PathName;
use crossbridge::paths::SocketLayout;
use crossbridge::registry::Outcome;
use crossbridge::run::{run, ServerAction, ServerConfig, ServerReply, ServerTask};
use crossbridge::uplink::{
    connect_and_register, connect_and_register_with_backoff, next_backoff, read_notification,
    UplinkAction, UplinkReply, INITIAL_BACKOFF, MAX_BACKOFF,
};

fn socket() -> PathName {
    PathName::from_text("/x/register.socket")
}

fn ack(peers: &[&str]) -> SupervisorMessage {
    let peers = peers.iter().map(|p| p.to_string()).collect();
    SupervisorMessage::RegisterResponse(RegisterResponse::Ack { peers })
}

fn nack(reason: &str) -> SupervisorMessage {
    SupervisorMessage::RegisterResponse(RegisterResponse::Nack { reason: reason.into() })
}

fn peer_joined(slug: &str) -> SupervisorMessage {
    SupervisorMessage::Notification(Notification::PeerJoined { slug: slug.into() })
}

// --- registering ----------------------------------------------------------------------

#[test]
fn register_ack_returns_peers() {
    let mut t = connect_and_register(socket(), "repo-a".into(), "amd-psp".into());
    assert_eq!(t.current(), UplinkAction::Connect(socket()));
    t.resume(UplinkReply::Done);
    let observed = Register { slug: "repo-a".into(), group: "amd-psp".into() };
    assert_eq!(t.current(), UplinkAction::Send(observed));
    t.resume(UplinkReply::Done);
    assert_eq!(t.current(), UplinkAction::Receive);
    t.resume(UplinkReply::Message(ack(&["repo-b"])));
    assert_eq!(t.current(), UplinkAction::Return(Ok(vec!["repo-b".to_string()])));
}

#[test]
fn register_nack_is_error() {
    let mut t = connect_and_register(socket(), "repo-a".into(), "amd-psp".into());
    t.resume(UplinkReply::Done);
    t.resume(UplinkReply::Done);
    t.resume(UplinkReply::Message(nack("slug taken")));
    match t.current() {
        UplinkAction::Return(Err(msg)) => {
            assert!(msg.contains("rejected"), "got: {msg}");
            assert!(msg.contains("slug taken"), "got: {msg}");
        }
        other => panic!("got {other:?}"),
    }
}

#[test]
fn read_notification_decodes_peer_joined() {
    assert_eq!(
        read_notification(Ok(peer_joined("repo-c"))).unwrap(),
        Some(Notification::PeerJoined { slug: "repo-c".to_string() })
    );
    let end = IoFault { clean_end: true, text: "eof".into() };
    assert_eq!(read_notification(Err(Error::Io(end))).unwrap(), None);
}

#[test]
fn a_frame_that_is_cut_off_is_no_end() {
    let read = |bytes: Vec<u8>| {
        read_notification(read_message_sync::<SupervisorMessage>(&mut ByteReader::new(bytes)))
    };
    assert_eq!(read(vec![]), Ok(None));
    for cut in [vec![0], vec![0, 0, 0], vec![0, 0, 0, 5], vec![0, 0, 0, 5, 1]] {
        assert_eq!(
            read(cut).unwrap_err(),
            "reading notification: io error: failed to fill whole buffer"
        );
    }
}

#[test]
fn read_notification_reports_what_has_no_place() {
    let reset = IoFault { clean_end: false, text: "reset".into() };
    assert_eq!(
        read_notification(Err(Error::Io(reset))).unwrap_err(),
        "reading notification: io error: reset"
    );
    assert_eq!(
        read_notification(Ok(ack(&["a\"b", "c"]))).unwrap_err(),
        "supervisor sent unexpected RegisterResponse mid-stream: \
         Ack { peers: [\"a\\\"b\", \"c\"] }"
    );
    assert_eq!(
        read_notification(Ok(nack("no\n"))).unwrap_err(),
        "supervisor sent unexpected RegisterResponse mid-stream: Nack { reason: \"no\\n\" }"
    );
}

#[test]
fn backoff_eventually_connects() {
    let mut t = connect_and_register_with_backoff(socket(), "repo-a".into(), "amd-psp".into());
    let mut waits = Vec::new();
    for _ in 0..8 {
        assert_eq!(t.current(), UplinkAction::Connect(socket()));
        t.resume(UplinkReply::Failed("no such file".into()));
        match t.current() {
            UplinkAction::Wait { secs, .. } => waits.push(secs),
            other => panic!("got {other:?}"),
        }
        t.resume(UplinkReply::Done);
    }
    assert_eq!(waits, vec![1, 2, 4, 8, 16, 32, 60, 60]);
    t.resume(UplinkReply::Done);
    t.resume(UplinkReply::Done);
    t.resume(UplinkReply::Message(ack(&[])));
    assert_eq!(t.current(), UplinkAction::Return(Ok(vec![])));
}

#[test]
fn waits_double_up_to_a_minute() {
    assert_eq!((INITIAL_BACKOFF, MAX_BACKOFF), (1, 60));
    assert_eq!(next_backoff(1), 2);
    assert_eq!(next_backoff(32), 60);
    assert_eq!(next_backoff(60), 60);
    assert_eq!(next_backoff(u64::MAX), 60);
}

#[test]
fn a_rejection_is_not_tried_again() {
    let mut t = connect_and_register_with_backoff(socket(), "a".into(), "g".into());
    t.resume(UplinkReply::Done);
    t.resume(UplinkReply::Done);
    t.resume(UplinkReply::Message(nack("slug taken")));
    assert!(matches!(t.current(), UplinkAction::Return(Err(_))));
}

#[test]
fn a_notification_in_place_of_the_response_is_tried_again() {
    let mut t = connect_and_register_with_backoff(socket(), "a".into(), "g".into());
    t.resume(UplinkReply::Done);
    t.resume(UplinkReply::Done);
    t.resume(UplinkReply::Message(peer_joined("z")));
    match t.current() {
        UplinkAction::Wait { cause, .. } => {
            assert!(cause.contains("PeerJoined { slug: \"z\" }"), "got {cause}");
        }
        other => panic!("got {other:?}"),
    }
}

// --- sockets ----------------------------------------------------------------------------

/// Opens a socket among files that are kept in memory.
fn open(set: &mut ListenerSet, files: &mut BTreeSet<String>, peer: &str) -> Result<(), String> {
    let mut t: AddTask = set.add(peer);
    loop {
        let outcome = match t.current(set) {
            AddAction::CreateDir(_) => Outcome::Done,
            AddAction::Close { path, .. } | AddAction::RemoveFile(path) => {
                files.remove(&path.display());
                Outcome::Done
            }
            AddAction::Exists(p) => {
                if files.contains(&p.display()) {
                    Outcome::Done
                } else {
                    Outcome::Failed(String::new())
                }
            }
            AddAction::Bind { path, .. } => {
                if files.insert(path.display()) {
                    Outcome::Done
                } else {
                    Outcome::Failed("address in use".into())
                }
            }
            AddAction::Return(r) => return r,
        };
        t.resume(set, outcome);
    }
}

fn set() -> ListenerSet {
    ListenerSet::new("own".into(), SocketLayout::new(PathName::from_text("/r")))
}

#[test]
fn add_creates_socket_file() {
    let mut set = set();
    let mut files = BTreeSet::new();
    open(&mut set, &mut files, "peer-a").unwrap();
    let path = set.layout().listener_socket("peer-a", set.own_slug());
    assert!(files.contains(&path.display()), "socket file should exist at {}", path.display());
    assert_eq!(set.len(), 1);
}

#[test]
fn add_replaces_stale_socket() {
    let mut set = set();
    let mut files = BTreeSet::from(["/r/peer-a/own.socket".to_string()]);
    open(&mut set, &mut files, "peer-a").unwrap();
    assert_eq!(set.len(), 1);
    // A second opening replaces the first.
    open(&mut set, &mut files, "peer-a").unwrap();
    assert_eq!(set.len(), 1);
}

#[test]
fn remove_unlinks_socket_file() {
    let mut set = set();
    let mut files = BTreeSet::new();
    open(&mut set, &mut files, "peer-a").unwrap();
    let l = set.remove("peer-a").expect("a socket");
    assert_eq!(l.path, PathName::from_text("/r/peer-a/own.socket"));
    assert!(set.is_empty());
    assert!(set.remove("peer-a").is_none());
}

#[test]
fn drop_clears_all() {
    let mut set = set();
    let mut files = BTreeSet::new();
    open(&mut set, &mut files, "peer-a").unwrap();
    open(&mut set, &mut files, "peer-b").unwrap();
    let paths: Vec<String> = set.clear().iter().map(|l| l.path.display()).collect();
    assert_eq!(paths, vec!["/r/peer-a/own.socket", "/r/peer-b/own.socket"]);
    assert!(set.is_empty());
}

#[test]
fn an_opening_that_fails_leaves_no_socket() {
    let mut set = set();
    let mut t = set.add("p");
    t.resume(&mut set, Outcome::Failed("denied".into()));
    assert_eq!(t.current(&set), AddAction::Return(Err("denied".into())));
    assert!(set.is_empty());
}

// --- the life of a server -----------------------------------------------------------------

fn server() -> ServerTask {
    run(ServerConfig {
        slug: "own".into(),
        group: "g".into(),
        repo_path: PathName::from_text("/repo"),
        layout: SocketLayout::new(PathName::from_text("/r")),
    })
}

/// Brings a server to the point where it waits, with the given peers.
fn ready(peers: &[&str]) -> ServerTask {
    let mut t = server();
    t = t.resumed(ServerReply::Answer(true));
    t = t.resumed(ServerReply::Done);
    registered(t, peers)
}

/// Brings a server that registers to the point where it waits.
fn registered(mut t: ServerTask, peers: &[&str]) -> ServerTask {
    loop {
        let reply = match t.current() {
            ServerAction::Uplink(UplinkAction::Receive) => ServerReply::Message(ack(peers)),
            ServerAction::Uplink(_) => ServerReply::Done,
            ServerAction::Listen(AddAction::Exists(_)) => ServerReply::Failed(String::new()),
            ServerAction::Listen(_) => ServerReply::Done,
            ServerAction::Report { result, .. } => {
                result.unwrap();
                ServerReply::Done
            }
            ServerAction::Await => return t,
            other => panic!("got {other:?}"),
        };
        t = t.resumed(reply);
    }
}

#[test]
fn db_path_below_the_repository() {
    let cfg = ServerConfig {
        slug: "own".into(),
        group: "g".into(),
        repo_path: PathName::from_text("/repo"),
        layout: SocketLayout::new(PathName::from_text("/r")),
    };
    assert_eq!(cfg.db_path(), PathName::from_text("/repo/.crosslink/issues.db"));
}

#[test]
fn a_server_without_a_database_does_not_start() {
    let t = server();
    assert_eq!(
        t.current(),
        ServerAction::Exists(PathName::from_text("/repo/.crosslink/issues.db"))
    );
    let t = t.resumed(ServerReply::Answer(false));
    assert_eq!(
        t.current(),
        ServerAction::Return(Err("crosslink DB not found at /repo/.crosslink/issues.db \
                                  (run `crosslink init` in /repo first)"
            .into()))
    );
    let t = server().resumed(ServerReply::Answer(true));
    let t = t.resumed(ServerReply::Failed("corrupt".into()));
    assert_eq!(
        t.current(),
        ServerAction::Return(Err(
            "opening crosslink DB at /repo/.crosslink/issues.db: corrupt".into()
        ))
    );
}

#[test]
fn a_server_listens_for_the_peers_it_is_told_of() {
    let mut t = ready(&["a", "b"]);
    assert_eq!(t.listeners(), 2);
    let news = Notification::PeerJoined { slug: "c".into() };
    t = t.resumed(ServerReply::Notified(Ok(Some(news))));
    t = registered(t, &[]);
    assert_eq!(t.listeners(), 3);
    let news = Notification::PeerLeft { slug: "a".into() };
    t = t.resumed(ServerReply::Notified(Ok(Some(news))));
    assert_eq!(
        t.current(),
        ServerAction::Close {
            peer: "a".into(),
            path: PathName::from_text("/r/a/own.socket"),
        }
    );
    t = t.resumed(ServerReply::Done);
    assert_eq!((t.current(), t.listeners()), (ServerAction::Await, 2));
}

#[test]
fn a_peer_that_cannot_be_listened_for_is_reported() {
    let mut t = ready(&[]);
    let news = Notification::PeerJoined { slug: "c".into() };
    t = t.resumed(ServerReply::Notified(Ok(Some(news))));
    t = t.resumed(ServerReply::Failed("denied".into()));
    assert_eq!(
        t.current(),
        ServerAction::Report { peer: "c".into(), result: Err("denied".into()) }
    );
    t = t.resumed(ServerReply::Done);
    assert_eq!((t.current(), t.listeners()), (ServerAction::Await, 0));
}

#[test]
fn accepted_connection_is_forwarded() {
    let mut t = ready(&["peer-a", "peer-b"]);
    t = t.resumed(ServerReply::Accepted("peer-b".into()));
    assert_eq!(t.current(), ServerAction::Serve { peer: "peer-b".into() });
    t = t.resumed(ServerReply::Done);
    assert_eq!(t.current(), ServerAction::Await);
}

#[test]
fn a_lost_supervisor_is_registered_with_anew() {
    for word in [Ok(None), Err("reading notification: reset".to_string())] {
        let mut t = ready(&["a"]);
        t = t.resumed(ServerReply::Notified(word));
        assert_eq!(t.current(), ServerAction::Disconnect);
        t = t.resumed(ServerReply::Done);
        assert!(matches!(t.current(), ServerAction::Close { .. }));
        t = t.resumed(ServerReply::Done);
        assert_eq!(t.listeners(), 0);
        assert_eq!(
            t.current(),
            ServerAction::Uplink(UplinkAction::Connect(PathName::from_text(
                "/r/register.socket"
            )))
        );
        t = registered(t, &["a", "b"]);
        assert_eq!(t.listeners(), 2);
    }
}

#[test]
fn a_server_that_is_told_to_stop_cleans_up() {
    let mut t = ready(&["a", "b"]).resumed(ServerReply::Shutdown);
    assert!(matches!(t.current(), ServerAction::Close { peer, .. } if peer == "a"));
    t = t.resumed(ServerReply::Done);
    assert!(matches!(t.current(), ServerAction::Close { peer, .. } if peer == "b"));
    t = t.resumed(ServerReply::Done);
    assert_eq!(t.current(), ServerAction::Disconnect);
    t = t.resumed(ServerReply::Done);
    assert_eq!(t.current(), ServerAction::Return(Ok(())));
}

#[test]
fn a_server_stops_while_it_registers() {
    let mut t = server();
    t = t.resumed(ServerReply::Answer(true));
    t = t.resumed(ServerReply::Done);
    t = t.resumed(ServerReply::Failed("no such file".into()));
    assert!(matches!(t.current(), ServerAction::Uplink(UplinkAction::Wait { .. })));
    t = t.resumed(ServerReply::Shutdown);
    t = t.resumed(ServerReply::Done);
    assert_eq!(t.current(), ServerAction::Return(Ok(())));
}

#[test]
fn a_server_whose_slug_is_taken_ends() {
    let mut t = server();
    for reply in [
        ServerReply::Answer(true),
        ServerReply::Done,
        ServerReply::Done,
        ServerReply::Done,
        ServerReply::Message(nack("slug taken")),
    ] {
        t = t.resumed(reply);
    }
    match t.current() {
        ServerAction::Return(Err(e)) => assert!(e.contains("slug taken"), "got {e}"),
        other => panic!("got {other:?}"),
    }
}
