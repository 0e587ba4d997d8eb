//! The supervisor: its start, registrations and departures.

use std::collections::{BTreeMap, BTreeSet};

use crossbridge::messages::{Notification, Register, RegisterResponse, SupervisorMessage};
use crossbridge::pathname::PathName;
use crossbridge::registry::{Event, MembershipAction, MembershipTask, Outcome, Registry};
use crossbridge::supervisor::{run, Found, StartAction, StartReply};

/// A supervisor among directories and connections that are kept in memory.
struct World {
    reg: Registry,
    dirs: BTreeSet<String>,
    /// What each connection has been sent, by its id.
    inboxes: BTreeMap<u64, Vec<SupervisorMessage>>,
    /// Connections that cannot be written to.
    broken: BTreeSet<u64>,
    /// True when no directory can be made.
    read_only: bool,
    /// True when a new connection cannot be written to.
    deaf: bool,
}

impl World {
    fn new() -> World {
        World {
            reg: Registry::new(PathName::from_text("/run/xb")),
            dirs: BTreeSet::new(),
            inboxes: BTreeMap::new(),
            broken: BTreeSet::new(),
            read_only: false,
            deaf: false,
        }
    }

    /// Runs a task, and those that follow from it. Gives the response to a new
    /// connection, and its id if it was kept.
    fn drive(&mut self, mut t: MembershipTask) -> (Option<RegisterResponse>, Option<u64>) {
        let mut response = None;
        let mut kept = None;
        loop {
            let outcome = match t.current(&self.reg) {
                MembershipAction::Respond(SupervisorMessage::RegisterResponse(r)) => {
                    if self.deaf {
                        Outcome::Failed("broken pipe".into())
                    } else {
                        response = Some(r);
                        Outcome::Done
                    }
                }
                MembershipAction::CreateDir(p) => {
                    if self.read_only {
                        Outcome::Failed("read-only".into())
                    } else {
                        self.dirs.insert(p.display());
                        Outcome::Done
                    }
                }
                MembershipAction::RemoveDir(p) => {
                    self.dirs.remove(&p.display());
                    Outcome::Done
                }
                MembershipAction::Keep(id) => {
                    kept = Some(id);
                    self.inboxes.insert(id, vec![]);
                    Outcome::Done
                }
                MembershipAction::Forget(id) => {
                    self.inboxes.remove(&id);
                    Outcome::Done
                }
                MembershipAction::Notify(id, m) => {
                    if self.broken.contains(&id) {
                        Outcome::Failed("broken pipe".into())
                    } else {
                        self.inboxes.get_mut(&id).expect("a member").push(m);
                        Outcome::Done
                    }
                }
                MembershipAction::Finish(gone) => {
                    for id in gone {
                        self.depart(id);
                    }
                    return (response, kept);
                }
                other => panic!("got {other:?}"),
            };
            t.resume(&mut self.reg, outcome);
        }
    }

    fn register(&mut self, slug: &str, group: &str) -> (Option<RegisterResponse>, Option<u64>) {
        let register = Register { slug: slug.into(), group: group.into() };
        let t = self.reg.handle_event(Event::Registered(register));
        self.drive(t)
    }

    fn depart(&mut self, id: u64) {
        let t = self.reg.handle_event(Event::Departed { id });
        self.drive(t);
    }
}

fn joined(slug: &str) -> SupervisorMessage {
    SupervisorMessage::Notification(Notification::PeerJoined { slug: slug.into() })
}

fn left(slug: &str) -> SupervisorMessage {
    SupervisorMessage::Notification(Notification::PeerLeft { slug: slug.into() })
}

fn ack(peers: &[&str]) -> Option<RegisterResponse> {
    Some(RegisterResponse::Ack { peers: peers.iter().map(|p| p.to_string()).collect() })
}

#[test]
fn register_ack_with_empty_peers() {
    let mut w = World::new();
    let (response, kept) = w.register("alpha", "g1");
    assert_eq!(response, ack(&[]));
    assert!(kept.is_some());
    assert!(w.dirs.contains("/run/xb/alpha"), "slug directory missing");
}

#[test]
fn register_ack_with_existing_peers_and_join_fanout() {
    let mut w = World::new();
    let (ack_a, alpha) = w.register("alpha", "g1");
    assert_eq!(ack_a, ack(&[]));
    let (ack_b, _) = w.register("beta", "g1");
    assert_eq!(ack_b, ack(&["alpha"]));
    assert_eq!(w.inboxes[&alpha.unwrap()], vec![joined("beta")]);
}

#[test]
fn duplicate_slug_in_group_is_nacked_and_first_unaffected() {
    let mut w = World::new();
    let (_, alpha) = w.register("alpha", "g1");
    let (response, kept) = w.register("alpha", "g1");
    assert_eq!(
        response,
        Some(RegisterResponse::Nack {
            reason: "slug 'alpha' already registered in group 'g1'".into()
        })
    );
    assert!(kept.is_none(), "the duplicate's connection is dropped");
    assert!(w.dirs.contains("/run/xb/alpha"));

    w.register("beta", "g1");
    assert_eq!(w.inboxes[&alpha.unwrap()], vec![joined("beta")]);
}

#[test]
fn different_groups_do_not_see_each_other() {
    let mut w = World::new();
    let (_, alpha) = w.register("alpha", "g1");
    let (ack_g, gamma) = w.register("gamma", "g2");
    assert_eq!(ack_g, ack(&[]));
    assert!(w.inboxes[&alpha.unwrap()].is_empty());
    assert!(w.inboxes[&gamma.unwrap()].is_empty());
}

#[test]
fn peer_left_fanout_on_eof_and_dir_removed() {
    let mut w = World::new();
    let (_, alpha) = w.register("alpha", "g1");
    let (_, beta) = w.register("beta", "g1");
    assert!(w.dirs.contains("/run/xb/alpha") && w.dirs.contains("/run/xb/beta"));
    w.depart(alpha.unwrap());
    assert_eq!(w.inboxes[&beta.unwrap()], vec![left("alpha")]);
    assert!(!w.dirs.contains("/run/xb/alpha"), "alpha directory not removed");
    // The slug is free again.
    let (again, _) = w.register("alpha", "g1");
    assert_eq!(again, ack(&["beta"]));
}

#[test]
fn the_directory_goes_before_the_peers_hear_of_it() {
    let mut w = World::new();
    let (_, alpha) = w.register("alpha", "g1");
    w.register("beta", "g1");
    let mut t = w.reg.handle_departure(alpha.unwrap());
    let mut seen = Vec::new();
    loop {
        let a = t.current(&w.reg);
        seen.push(match a {
            MembershipAction::Forget(_) => "forget",
            MembershipAction::RemoveDir(_) => "remove",
            MembershipAction::Notify(..) => "notify",
            MembershipAction::Finish(_) => break,
            other => panic!("got {other:?}"),
        });
        t.resume(&mut w.reg, Outcome::Done);
    }
    assert_eq!(seen, vec!["forget", "remove", "notify"]);
}

#[test]
fn a_peer_that_cannot_be_told_departs_as_well() {
    let mut w = World::new();
    let (_, alpha) = w.register("alpha", "g1");
    let (_, beta) = w.register("beta", "g1");
    w.broken.insert(alpha.unwrap());
    w.register("gamma", "g1");
    // Alpha is gone, and the others know.
    assert!(!w.inboxes.contains_key(&alpha.unwrap()));
    assert_eq!(w.inboxes[&beta.unwrap()], vec![joined("gamma"), left("alpha")]);
    assert!(!w.reg.is_taken(&"alpha".into(), &"g1".into()));
}

#[test]
fn a_directory_that_cannot_be_made_is_a_nack() {
    let mut w = World::new();
    w.read_only = true;
    let (response, kept) = w.register("alpha", "g1");
    assert_eq!(
        response,
        Some(RegisterResponse::Nack {
            reason: "failed to create slug directory: read-only".into()
        })
    );
    assert!(kept.is_none());
    assert!(!w.reg.is_taken(&"alpha".into(), &"g1".into()));
}

#[test]
fn a_server_that_does_not_hear_the_ack_is_no_member() {
    let mut w = World::new();
    w.deaf = true;
    let (_, kept) = w.register("alpha", "g1");
    assert!(kept.is_none());
    assert!(w.dirs.is_empty());
    assert!(!w.reg.is_taken(&"alpha".into(), &"g1".into()));
}

#[test]
fn an_unknown_departure_changes_nothing() {
    let mut w = World::new();
    let (_, alpha) = w.register("alpha", "g1");
    w.depart(99);
    assert!(w.inboxes.contains_key(&alpha.unwrap()));
}

// --- the start ----------------------------------------------------------------------

fn item(name: &str, is_dir: bool) -> Found {
    Found::Item { name: name.as_bytes().to_vec(), is_dir: Ok(is_dir) }
}

/// Starts on `/b/register.socket`, and says what was asked, and the result.
fn start(replies: Vec<StartReply>) -> (Vec<String>, Result<PathName, String>) {
    let mut t = run(PathName::from_text("/b/register.socket"));
    let mut asked = Vec::new();
    let mut replies = replies.into_iter();
    loop {
        asked.push(match t.current() {
            StartAction::ReadDir(p) => format!("read {}", p.display()),
            StartAction::RemoveDir(p) => format!("remove dir {}", p.display()),
            StartAction::RemoveFile(p) => format!("remove file {}", p.display()),
            StartAction::CreateDir(p) => format!("create {}", p.display()),
            StartAction::Bind(p) => format!("bind {}", p.display()),
            StartAction::Return(r) => return (asked, r),
        });
        t = t.resumed(replies.next().expect("a reply"));
    }
}

#[test]
fn supervisor_restart_wipes_base_dir() {
    let found = vec![item("alpha", true), item("ghost", true), item("stray.tmp", false)];
    let (asked, result) = start(vec![
        StartReply::Listed(found),
        StartReply::Done,
        StartReply::Done,
        StartReply::Done,
        StartReply::Done,
    ]);
    assert_eq!(
        asked,
        vec![
            "read /b",
            "remove dir /b/alpha",
            "remove dir /b/ghost",
            "remove file /b/stray.tmp",
            "bind /b/register.socket",
        ]
    );
    assert_eq!(result.unwrap(), PathName::from_text("/b"));
}

#[test]
fn stale_socket_file_is_removed_and_rebound() {
    let found = vec![item("register.socket", false)];
    let (asked, result) =
        start(vec![StartReply::Listed(found), StartReply::Done, StartReply::Done]);
    assert_eq!(
        asked,
        vec!["read /b", "remove file /b/register.socket", "bind /b/register.socket"]
    );
    assert!(result.is_ok());
}

#[test]
fn a_missing_base_dir_is_made() {
    let (asked, result) = start(vec![StartReply::NotFound, StartReply::Done, StartReply::Done]);
    assert_eq!(asked, vec!["read /b", "create /b", "bind /b/register.socket"]);
    assert!(result.is_ok());
}

#[test]
fn failures_of_the_start_in_words() {
    let failed = || StartReply::Failed("denied".into());
    let (_, r) = start(vec![failed()]);
    assert_eq!(r.unwrap_err(), "preparing base directory: denied");
    let (_, r) = start(vec![StartReply::Listed(vec![item("d", true)]), failed()]);
    assert_eq!(r.unwrap_err(), "preparing base directory: removing directory /b/d: denied");
    let (_, r) = start(vec![StartReply::Listed(vec![item("f", false)]), failed()]);
    assert_eq!(r.unwrap_err(), "preparing base directory: removing file /b/f: denied");
    let (_, r) = start(vec![StartReply::NotFound, failed()]);
    assert_eq!(r.unwrap_err(), "preparing base directory: creating /b: denied");
    let (_, r) = start(vec![StartReply::Listed(vec![]), failed()]);
    assert_eq!(r.unwrap_err(), "binding register socket at /b/register.socket: denied");
    let (_, r) = start(vec![StartReply::Listed(vec![Found::Unread("gone".into())])]);
    assert_eq!(r.unwrap_err(), "preparing base directory: gone");
    let unknown = Found::Item { name: b"x".to_vec(), is_dir: Err("gone".into()) };
    let (_, r) = start(vec![StartReply::Listed(vec![unknown])]);
    assert_eq!(r.unwrap_err(), "preparing base directory: gone");
    assert_eq!(
        run(PathName::from_text("/")).current(),
        StartAction::Return(Err("socket path '/' has no parent directory".into()))
    );
}
