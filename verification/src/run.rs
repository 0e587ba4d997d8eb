//! The life of a server: it registers with the supervisor, listens for the peers
//! that the supervisor names, hands connections to be served, and registers anew
//! when the supervisor is lost, until it is told to stop.
//!
//! This is a task: it names what to do next, [`ServerTask::current`], and is
//! resumed with what came of it.

use vstd::prelude::*;

use crate::compose::{cat4, cat5, views, views_remove};
use crate::config::{db_below, issues_db};
use crate::encoding::lossy;
use crate::listeners::{
    add_action, add_next, position, set_next, AddAction, AddActionView, AddPhaseView, AddTask,
    AddTaskView, Listener, ListenerSet, ListenerSetView, ListenerView,
};
use crate::messages::{Notification, NotificationView, SupervisorMessage, SupervisorMessageView};
use crate::pathname::PathName;
use crate::paths::{register_below, SocketLayout};
use crate::registry::{Outcome, OutcomeView};
use crate::store::{copy_unit, unit_view};
use crate::uplink::{
    connect_and_register_with_backoff, uplink_action, uplink_next, UplinkAction, UplinkActionView,
    UplinkPhaseView, UplinkReply, UplinkReplyView, UplinkTask, UplinkTaskView, INITIAL_BACKOFF,
};

verus! {

broadcast use vstd::seq_lib::group_seq_properties;

/// What a server is started with.
#[derive(Debug, PartialEq, Eq)]
pub struct ServerConfig {
    pub slug: String,
    pub group: String,
    pub repo_path: PathName,
    pub layout: SocketLayout,
}

impl ServerConfig {
    /// The repository's issue database.
    pub fn db_path(&self) -> (r: PathName)
        ensures
            r@ == db_below(self.repo_path@),
    {
        issues_db(&self.repo_path)
    }
}

/// How far a server has come.
#[derive(Debug, PartialEq, Eq)]
pub enum ServerPhase {
    /// Is there an issue database?
    CheckDb,
    /// Opening it.
    OpenDb,
    /// Registering with the supervisor.
    Register(UplinkTask),
    /// Opening the sockets for the peers that the supervisor named: one of them is
    /// under way, the others follow.
    Install { task: AddTask, others: Vec<String> },
    /// Waiting for something to happen.
    Ready,
    /// Opening the socket for a peer that has joined.
    Join(AddTask),
    /// Closing the socket for a peer that has left.
    Leave(Listener),
    /// Serving a connection of a peer.
    Serve { peer: String },
    /// Closing all sockets, one now and the rest later, to stop or to register
    /// anew.
    CloseAll { now: Listener, rest: Vec<Listener>, stop: bool },
    /// Dropping the connection to the supervisor.
    Disconnect { stop: bool },
    /// The result is known.
    Finished(Result<(), String>),
}

/// The contents of [`ServerPhase`].
#[verifier::ext_equal]
pub enum ServerPhaseView {
    CheckDb,
    OpenDb,
    Register(UplinkTaskView),
    Install { task: AddTaskView, others: Seq<Seq<char>> },
    Ready,
    Join(AddTaskView),
    Leave(ListenerView),
    Serve { peer: Seq<char> },
    CloseAll { now: ListenerView, rest: Seq<ListenerView>, stop: bool },
    Disconnect { stop: bool },
    Finished(Result<(), Seq<char>>),
}

impl View for ServerPhase {
    type V = ServerPhaseView;

    open spec fn view(&self) -> ServerPhaseView {
        match self {
            ServerPhase::CheckDb => ServerPhaseView::CheckDb,
            ServerPhase::OpenDb => ServerPhaseView::OpenDb,
            ServerPhase::Register(t) => ServerPhaseView::Register(t@),
            ServerPhase::Install { task, others } => ServerPhaseView::Install {
                task: task@,
                others: views(others@),
            },
            ServerPhase::Ready => ServerPhaseView::Ready,
            ServerPhase::Join(t) => ServerPhaseView::Join(t@),
            ServerPhase::Leave(l) => ServerPhaseView::Leave(l@),
            ServerPhase::Serve { peer } => ServerPhaseView::Serve { peer: peer@ },
            ServerPhase::CloseAll { now, rest, stop } => ServerPhaseView::CloseAll {
                now: now@,
                rest: views(rest@),
                stop: *stop,
            },
            ServerPhase::Disconnect { stop } => ServerPhaseView::Disconnect { stop: *stop },
            ServerPhase::Finished(r) => ServerPhaseView::Finished(unit_view(*r)),
        }
    }
}

/// A server under way.
#[derive(Debug, PartialEq, Eq)]
pub struct ServerTask {
    slug: String,
    group: String,
    repo: PathName,
    set: ListenerSet,
    phase: ServerPhase,
}

/// The contents of [`ServerTask`].
#[verifier::ext_equal]
pub struct ServerTaskView {
    pub slug: Seq<char>,
    pub group: Seq<char>,
    pub repo: Seq<u8>,
    /// The sockets that are listened at.
    pub set: ListenerSetView,
    pub phase: ServerPhaseView,
}

impl View for ServerTask {
    type V = ServerTaskView;

    closed spec fn view(&self) -> ServerTaskView {
        ServerTaskView {
            slug: self.slug@,
            group: self.group@,
            repo: self.repo@,
            set: self.set@,
            phase: self.phase@,
        }
    }
}

/// What a server asks for.
#[derive(Debug, PartialEq, Eq)]
pub enum ServerAction {
    /// Is there anything at this path? Answered with `Answer`.
    Exists(PathName),
    /// Opens the issue database. Answered with `Done`.
    OpenDb(PathName),
    /// A step of the registration. Answered with `Done` or `Message`, or, when the
    /// server is told to stop meanwhile, with `Shutdown`.
    Uplink(UplinkAction),
    /// A step of the opening of a socket. Answered with `Done`.
    Listen(AddAction),
    /// Reporting how the opening of a socket came out. Answered with anything.
    Report { peer: String, result: Result<(), String> },
    /// Waits for a word of the supervisor, a connection, or the order to stop.
    /// Answered with `Notified`, `Accepted` or `Shutdown`.
    Await,
    /// Serves the connection that was accepted. Answered with anything.
    Serve { peer: String },
    /// Stops listening for the peer, and removes the socket's file. Answered with
    /// anything.
    Close { peer: String, path: PathName },
    /// Drops the connection to the supervisor. Answered with anything.
    Disconnect,
    /// Nothing more: this is the result.
    Return(Result<(), String>),
}

/// The contents of [`ServerAction`].
#[verifier::ext_equal]
pub enum ServerActionView {
    Exists(Seq<u8>),
    OpenDb(Seq<u8>),
    Uplink(UplinkActionView),
    Listen(AddActionView),
    Report { peer: Seq<char>, result: Result<(), Seq<char>> },
    Await,
    Serve { peer: Seq<char> },
    Close { peer: Seq<char>, path: Seq<u8> },
    Disconnect,
    Return(Result<(), Seq<char>>),
}

impl View for ServerAction {
    type V = ServerActionView;

    open spec fn view(&self) -> ServerActionView {
        match self {
            ServerAction::Exists(p) => ServerActionView::Exists(p@),
            ServerAction::OpenDb(p) => ServerActionView::OpenDb(p@),
            ServerAction::Uplink(a) => ServerActionView::Uplink(a@),
            ServerAction::Listen(a) => ServerActionView::Listen(a@),
            ServerAction::Report { peer, result } => ServerActionView::Report {
                peer: peer@,
                result: unit_view(*result),
            },
            ServerAction::Await => ServerActionView::Await,
            ServerAction::Serve { peer } => ServerActionView::Serve { peer: peer@ },
            ServerAction::Close { peer, path } => ServerActionView::Close {
                peer: peer@,
                path: path@,
            },
            ServerAction::Disconnect => ServerActionView::Disconnect,
            ServerAction::Return(r) => ServerActionView::Return(unit_view(*r)),
        }
    }
}

/// What came of an action.
#[derive(Debug, PartialEq, Eq)]
pub enum ServerReply {
    Answer(bool),
    Done,
    /// The action failed; the failure in words.
    Failed(String),
    /// A message was read.
    Message(SupervisorMessage),
    /// A word of the supervisor: a notification, the end of the stream, or a
    /// failure.
    Notified(Result<Option<Notification>, String>),
    /// A connection of a peer's client.
    Accepted(String),
    /// The order to stop.
    Shutdown,
}

/// The contents of [`ServerReply`].
#[verifier::ext_equal]
pub enum ServerReplyView {
    Answer(bool),
    Done,
    Failed(Seq<char>),
    Message(SupervisorMessageView),
    Notified(Result<Option<NotificationView>, Seq<char>>),
    Accepted(Seq<char>),
    Shutdown,
}

impl View for ServerReply {
    type V = ServerReplyView;

    open spec fn view(&self) -> ServerReplyView {
        match self {
            ServerReply::Answer(b) => ServerReplyView::Answer(*b),
            ServerReply::Done => ServerReplyView::Done,
            ServerReply::Failed(e) => ServerReplyView::Failed(e@),
            ServerReply::Message(m) => ServerReplyView::Message(m@),
            ServerReply::Notified(Ok(Some(n))) => ServerReplyView::Notified(Ok(Some(n@))),
            ServerReply::Notified(Ok(None)) => ServerReplyView::Notified(Ok(None)),
            ServerReply::Notified(Err(e)) => ServerReplyView::Notified(Err(e@)),
            ServerReply::Accepted(p) => ServerReplyView::Accepted(p@),
            ServerReply::Shutdown => ServerReplyView::Shutdown,
        }
    }
}

/// What the server asks for.
pub open spec fn server_action(t: ServerTaskView) -> ServerActionView {
    match t.phase {
        ServerPhaseView::CheckDb => ServerActionView::Exists(db_below(t.repo)),
        ServerPhaseView::OpenDb => ServerActionView::OpenDb(db_below(t.repo)),
        ServerPhaseView::Register(u) => ServerActionView::Uplink(uplink_action(u)),
        ServerPhaseView::Install { task, .. } => listening(t.set, task),
        ServerPhaseView::Ready => ServerActionView::Await,
        ServerPhaseView::Join(task) => listening(t.set, task),
        ServerPhaseView::Leave(l) => ServerActionView::Close { peer: l.peer, path: l.path },
        ServerPhaseView::Serve { peer } => ServerActionView::Serve { peer },
        ServerPhaseView::CloseAll { now, .. } => ServerActionView::Close {
            peer: now.peer,
            path: now.path,
        },
        ServerPhaseView::Disconnect { .. } => ServerActionView::Disconnect,
        ServerPhaseView::Finished(r) => ServerActionView::Return(r),
    }
}

/// What the opening of a socket asks for: a step, or to be reported.
pub open spec fn listening(set: ListenerSetView, task: AddTaskView) -> ServerActionView {
    match add_action(set, task) {
        AddActionView::Return(result) => ServerActionView::Report { peer: task.peer, result },
        step => ServerActionView::Listen(step),
    }
}

/// The outcome of a step of the opening of a socket, if the reply is one.
pub open spec fn as_outcome(reply: ServerReplyView) -> Option<OutcomeView> {
    match reply {
        ServerReplyView::Done => Some(OutcomeView::Done),
        ServerReplyView::Failed(e) => Some(OutcomeView::Failed(e)),
        _ => None,
    }
}

/// The reply to a step of the registration, if the reply is one.
pub open spec fn as_uplink(reply: ServerReplyView) -> Option<UplinkReplyView> {
    match reply {
        ServerReplyView::Done => Some(UplinkReplyView::Done),
        ServerReplyView::Message(m) => Some(UplinkReplyView::Message(m)),
        ServerReplyView::Failed(e) => Some(UplinkReplyView::Failed(e)),
        _ => None,
    }
}

/// A registration at its beginning.
pub open spec fn registering(t: ServerTaskView) -> ServerPhaseView {
    ServerPhaseView::Register(
        UplinkTaskView {
            socket: register_below(t.set.root),
            slug: t.slug,
            group: t.group,
            retry: true,
            backoff: INITIAL_BACKOFF,
            phase: UplinkPhaseView::Connect,
        },
    )
}

/// The opening of a socket at its beginning.
pub open spec fn opening(peer: Seq<char>) -> AddTaskView {
    AddTaskView { peer, phase: AddPhaseView::MakeDir }
}

/// Opening the sockets for the peers, one after the other.
pub open spec fn installing(peers: Seq<Seq<char>>) -> ServerPhaseView {
    if peers.len() > 0 {
        ServerPhaseView::Install { task: opening(peers[0]), others: peers.remove(0) }
    } else {
        ServerPhaseView::Ready
    }
}

/// Closing the sockets, one after the other. When all are closed a server that
/// stops leaves the supervisor, and one that does not registers anew.
pub open spec fn closing(
    t: ServerTaskView,
    sockets: Seq<ListenerView>,
    stop: bool,
) -> ServerPhaseView {
    if sockets.len() > 0 {
        ServerPhaseView::CloseAll { now: sockets[0], rest: sockets.remove(0), stop }
    } else if stop {
        ServerPhaseView::Disconnect { stop }
    } else {
        registering(t)
    }
}

/// The server with no sockets, and those that it had about to be closed.
pub open spec fn cleared(t: ServerTaskView, stop: bool) -> ServerTaskView {
    ServerTaskView {
        set: ListenerSetView { entries: Seq::empty(), ..t.set },
        phase: closing(t, t.set.entries, stop),
        ..t
    }
}

/// The failure when there is no issue database.
pub open spec fn no_database(repo: Seq<u8>) -> Seq<char> {
    "crosslink DB not found at "@ + lossy(db_below(repo)) + " (run `crosslink init` in "@ + lossy(
        repo,
    ) + " first)"@
}

/// Where the server stands after a step of its registration.
pub open spec fn registered(t: ServerTaskView, u: UplinkTaskView) -> ServerTaskView {
    ServerTaskView {
        phase: match uplink_action(u) {
            UplinkActionView::Return(Ok(peers)) => installing(peers),
            UplinkActionView::Return(Err(e)) => ServerPhaseView::Finished(Err(e)),
            _ => ServerPhaseView::Register(u),
        },
        ..t
    }
}

/// Where the server stands after something has happened while it waited.
pub open spec fn after_event(t: ServerTaskView, reply: ServerReplyView) -> ServerTaskView {
    match reply {
        ServerReplyView::Shutdown => cleared(t, true),
        ServerReplyView::Notified(Ok(Some(NotificationView::PeerJoined { slug }))) => {
            ServerTaskView { phase: ServerPhaseView::Join(opening(slug)), ..t }
        },
        ServerReplyView::Notified(Ok(Some(NotificationView::PeerLeft { slug }))) => ServerTaskView {
            set: t.set.without(slug),
            phase: match position(t.set.entries, slug, 0) {
                Some(i) => ServerPhaseView::Leave(t.set.entries[i]),
                None => ServerPhaseView::Ready,
            },
            ..t
        },
        ServerReplyView::Notified(_) => ServerTaskView {
            phase: ServerPhaseView::Disconnect { stop: false },
            ..t
        },
        ServerReplyView::Accepted(peer) => ServerTaskView {
            phase: ServerPhaseView::Serve { peer },
            ..t
        },
        _ => t,
    }
}

/// Where the server stands after a reply. A reply of a kind that was not asked for
/// changes nothing.
pub open spec fn server_next(t: ServerTaskView, reply: ServerReplyView) -> ServerTaskView {
    match t.phase {
        ServerPhaseView::CheckDb => match reply {
            ServerReplyView::Answer(true) => ServerTaskView {
                phase: ServerPhaseView::OpenDb,
                ..t
            },
            ServerReplyView::Answer(false) => ServerTaskView {
                phase: ServerPhaseView::Finished(Err(no_database(t.repo))),
                ..t
            },
            _ => t,
        },
        ServerPhaseView::OpenDb => match reply {
            ServerReplyView::Done => ServerTaskView { phase: registering(t), ..t },
            ServerReplyView::Failed(e) => ServerTaskView {
                phase: ServerPhaseView::Finished(
                    Err("opening crosslink DB at "@ + lossy(db_below(t.repo)) + ": "@ + e),
                ),
                ..t
            },
            _ => t,
        },
        ServerPhaseView::Register(u) => if reply is Shutdown {
            cleared(t, true)
        } else {
            match as_uplink(reply) {
                Some(r) => registered(t, uplink_next(u, r)),
                None => t,
            }
        },
        ServerPhaseView::Install { task, others } => if task.phase is Finished {
            ServerTaskView { phase: installing(others), ..t }
        } else {
            match as_outcome(reply) {
                Some(o) => ServerTaskView {
                    set: set_next(t.set, task, o),
                    phase: ServerPhaseView::Install {
                        task: AddTaskView { phase: add_next(t.set, task, o), ..task },
                        others,
                    },
                    ..t
                },
                None => t,
            }
        },
        ServerPhaseView::Ready => after_event(t, reply),
        ServerPhaseView::Join(task) => if task.phase is Finished {
            ServerTaskView { phase: ServerPhaseView::Ready, ..t }
        } else {
            match as_outcome(reply) {
                Some(o) => ServerTaskView {
                    set: set_next(t.set, task, o),
                    phase: ServerPhaseView::Join(
                        AddTaskView { phase: add_next(t.set, task, o), ..task },
                    ),
                    ..t
                },
                None => t,
            }
        },
        ServerPhaseView::Leave(_) => ServerTaskView { phase: ServerPhaseView::Ready, ..t },
        ServerPhaseView::Serve { .. } => ServerTaskView { phase: ServerPhaseView::Ready, ..t },
        ServerPhaseView::CloseAll { rest, stop, .. } => ServerTaskView {
            phase: closing(t, rest, stop),
            ..t
        },
        ServerPhaseView::Disconnect { stop } => if stop {
            ServerTaskView { phase: ServerPhaseView::Finished(Ok(())), ..t }
        } else {
            cleared(t, false)
        },
        ServerPhaseView::Finished(_) => t,
    }
}

/// Starts a server.
pub fn run(cfg: ServerConfig) -> (t: ServerTask)
    ensures
        t@ == (ServerTaskView {
            slug: cfg.slug@,
            group: cfg.group@,
            repo: cfg.repo_path@,
            set: ListenerSetView {
                own_slug: cfg.slug@,
                root: cfg.layout@,
                entries: Seq::empty(),
            },
            phase: ServerPhaseView::CheckDb,
        }),
        t@.set.wf(),
{
    let own: String = cfg.slug.clone();
    let set: ListenerSet = ListenerSet::new(own, cfg.layout);
    ServerTask {
        slug: cfg.slug,
        group: cfg.group,
        repo: cfg.repo_path,
        set,
        phase: ServerPhase::CheckDb,
    }
}

/// What the opening of a socket asks for.
fn listen(set: &ListenerSet, task: &AddTask) -> (a: ServerAction)
    ensures
        a@ == listening(set@, task@),
{
    match task.current(set) {
        AddAction::Return(result) => ServerAction::Report { peer: task.peer().clone(), result },
        step => ServerAction::Listen(step),
    }
}

impl ServerTask {
    /// The number of sockets that are listened at.
    pub fn listeners(&self) -> (n: usize)
        ensures
            n == self@.set.entries.len(),
    {
        self.set.len()
    }

    /// What to do next.
    pub fn current(&self) -> (a: ServerAction)
        ensures
            a@ == server_action(self@),
    {
        match &self.phase {
            ServerPhase::CheckDb => ServerAction::Exists(issues_db(&self.repo)),
            ServerPhase::OpenDb => ServerAction::OpenDb(issues_db(&self.repo)),
            ServerPhase::Register(u) => ServerAction::Uplink(u.current()),
            ServerPhase::Install { task, .. } => listen(&self.set, task),
            ServerPhase::Ready => ServerAction::Await,
            ServerPhase::Join(task) => listen(&self.set, task),
            ServerPhase::Leave(l) => ServerAction::Close {
                peer: l.peer.clone(),
                path: l.path.copy(),
            },
            ServerPhase::Serve { peer } => ServerAction::Serve { peer: peer.clone() },
            ServerPhase::CloseAll { now, .. } => ServerAction::Close {
                peer: now.peer.clone(),
                path: now.path.copy(),
            },
            ServerPhase::Disconnect { .. } => ServerAction::Disconnect,
            ServerPhase::Finished(r) => ServerAction::Return(copy_unit(r)),
        }
    }

    /// Begins a registration.
    fn registering(&self) -> (p: ServerPhase)
        ensures
            p@ == registering(self@),
    {
        let socket: PathName = self.set.layout().register_socket();
        let t: UplinkTask = connect_and_register_with_backoff(
            socket,
            self.slug.clone(),
            self.group.clone(),
        );
        ServerPhase::Register(t)
    }

    /// Begins the opening of the sockets for the peers.
    fn installing(&self, peers: Vec<String>) -> (p: ServerPhase)
        ensures
            p@ == installing(views(peers@)),
    {
        let mut others: Vec<String> = peers;
        if others.len() > 0 {
            let first: String = others.remove(0);
            proof {
                views_remove(peers@);
            }
            ServerPhase::Install { task: self.set.add(first.as_str()), others }
        } else {
            ServerPhase::Ready
        }
    }

    /// Begins the closing of the sockets.
    fn closing(&self, sockets: Vec<Listener>, stop: bool) -> (p: ServerPhase)
        ensures
            p@ == closing(self@, views(sockets@), stop),
    {
        let mut rest: Vec<Listener> = sockets;
        if rest.len() > 0 {
            let now: Listener = rest.remove(0);
            proof {
                views_remove(sockets@);
            }
            ServerPhase::CloseAll { now, rest, stop }
        } else if stop {
            ServerPhase::Disconnect { stop }
        } else {
            self.registering()
        }
    }

    /// Empties the set of sockets, and begins to close them.
    fn cleared(self, stop: bool) -> (t: ServerTask)
        ensures
            t@ == cleared(self@, stop),
    {
        let mut set: ListenerSet = self.set;
        let sockets: Vec<Listener> = set.clear();
        let t: ServerTask = ServerTask { set, ..self };
        let phase: ServerPhase = t.closing(sockets, stop);
        ServerTask { phase, ..t }
    }

    /// Goes on with a registration.
    fn registered(self, task: UplinkTask) -> (t: ServerTask)
        ensures
            t@ == registered(self@, task@),
    {
        let phase: ServerPhase = match task.current() {
            UplinkAction::Return(Ok(peers)) => self.installing(peers),
            UplinkAction::Return(Err(e)) => ServerPhase::Finished(Err(e)),
            _ => ServerPhase::Register(task),
        };
        ServerTask { phase, ..self }
    }

    /// Goes on with what has happened while the server waited.
    fn after_event(self, reply: ServerReply) -> (t: ServerTask)
        ensures
            t@ == after_event(self@, reply@),
    {
        match reply {
            ServerReply::Shutdown => self.cleared(true),
            ServerReply::Notified(Ok(Some(Notification::PeerJoined { slug }))) => {
                let phase: ServerPhase = ServerPhase::Join(self.set.add(slug.as_str()));
                ServerTask { phase, ..self }
            },
            ServerReply::Notified(Ok(Some(Notification::PeerLeft { slug }))) => {
                let mut set: ListenerSet = self.set;
                let phase: ServerPhase = match set.remove(slug.as_str()) {
                    Some(l) => ServerPhase::Leave(l),
                    None => ServerPhase::Ready,
                };
                ServerTask { set, phase, ..self }
            },
            ServerReply::Notified(_) => ServerTask {
                phase: ServerPhase::Disconnect { stop: false },
                ..self
            },
            ServerReply::Accepted(peer) => ServerTask {
                phase: ServerPhase::Serve { peer },
                ..self
            },
            _ => self,
        }
    }

    /// Goes on with what came of [`ServerTask::current`].
    pub fn resumed(self, reply: ServerReply) -> (t: ServerTask)
        ensures
            t@ == server_next(self@, reply@),
    {
        let ServerTask { slug, group, repo, set, phase } = self;
        match phase {
            ServerPhase::CheckDb => {
                let phase: ServerPhase = match reply {
                    ServerReply::Answer(true) => ServerPhase::OpenDb,
                    ServerReply::Answer(false) => ServerPhase::Finished(Err(missing(&repo))),
                    _ => ServerPhase::CheckDb,
                };
                ServerTask { slug, group, repo, set, phase }
            },
            ServerPhase::OpenDb => match reply {
                ServerReply::Done => {
                    let t: ServerTask = ServerTask { slug, group, repo, set, phase };
                    let phase: ServerPhase = t.registering();
                    ServerTask { phase, ..t }
                },
                ServerReply::Failed(e) => {
                    let db: String = issues_db(&repo).display();
                    let text: String = cat4(
                        "opening crosslink DB at ",
                        db.as_str(),
                        ": ",
                        e.as_str(),
                    );
                    let phase: ServerPhase = ServerPhase::Finished(Err(text));
                    ServerTask { slug, group, repo, set, phase }
                },
                _ => ServerTask { slug, group, repo, set, phase },
            },
            ServerPhase::Register(task) => {
                let mut task: UplinkTask = task;
                let reply: UplinkReply = match reply {
                    ServerReply::Shutdown => {
                        let phase: ServerPhase = ServerPhase::Ready;
                        let t: ServerTask = ServerTask { slug, group, repo, set, phase };
                        return t.cleared(true);
                    },
                    ServerReply::Done => UplinkReply::Done,
                    ServerReply::Message(m) => UplinkReply::Message(m),
                    ServerReply::Failed(e) => UplinkReply::Failed(e),
                    _ => {
                        let phase: ServerPhase = ServerPhase::Register(task);
                        return ServerTask { slug, group, repo, set, phase };
                    },
                };
                task.resume(reply);
                let phase: ServerPhase = ServerPhase::Ready;
                let t: ServerTask = ServerTask { slug, group, repo, set, phase };
                t.registered(task)
            },
            ServerPhase::Install { task, others } => {
                let mut set: ListenerSet = set;
                let mut task: AddTask = task;
                if task.is_finished() {
                    let t: ServerTask = ServerTask {
                        slug,
                        group,
                        repo,
                        set,
                        phase: ServerPhase::Ready,
                    };
                    let phase: ServerPhase = t.installing(others);
                    return ServerTask { phase, ..t };
                }
                if let Some(o) = outcome_of(reply) {
                    task.resume(&mut set, o);
                }
                ServerTask { slug, group, repo, set, phase: ServerPhase::Install { task, others } }
            },
            ServerPhase::Ready => {
                let t: ServerTask = ServerTask { slug, group, repo, set, phase };
                t.after_event(reply)
            },
            ServerPhase::Join(task) => {
                let mut set: ListenerSet = set;
                let mut task: AddTask = task;
                if task.is_finished() {
                    return ServerTask { slug, group, repo, set, phase: ServerPhase::Ready };
                }
                if let Some(o) = outcome_of(reply) {
                    task.resume(&mut set, o);
                }
                ServerTask { slug, group, repo, set, phase: ServerPhase::Join(task) }
            },
            ServerPhase::Leave(_) => ServerTask {
                slug,
                group,
                repo,
                set,
                phase: ServerPhase::Ready,
            },
            ServerPhase::Serve { .. } => ServerTask {
                slug,
                group,
                repo,
                set,
                phase: ServerPhase::Ready,
            },
            ServerPhase::CloseAll { rest, stop, .. } => {
                let phase: ServerPhase = ServerPhase::Ready;
                let t: ServerTask = ServerTask { slug, group, repo, set, phase };
                let phase: ServerPhase = t.closing(rest, stop);
                ServerTask { phase, ..t }
            },
            ServerPhase::Disconnect { stop } => {
                let t: ServerTask = ServerTask { slug, group, repo, set, phase };
                if stop {
                    ServerTask { phase: ServerPhase::Finished(Ok(())), ..t }
                } else {
                    t.cleared(false)
                }
            },
            ServerPhase::Finished(_) => ServerTask { slug, group, repo, set, phase },
        }
    }
}

/// The outcome of a step of the opening of a socket, if the reply is one.
fn outcome_of(reply: ServerReply) -> (r: Option<Outcome>)
    ensures
        match as_outcome(reply@) {
            Some(o) => r matches Some(x) && x@ == o,
            None => r is None,
        },
{
    match reply {
        ServerReply::Done => Some(Outcome::Done),
        ServerReply::Failed(e) => Some(Outcome::Failed(e)),
        _ => None,
    }
}

/// The failure when there is no issue database.
fn missing(repo: &PathName) -> (r: String)
    ensures
        r@ == no_database(repo@),
{
    let db: String = issues_db(repo).display();
    let place: String = repo.display();
    cat5(
        "crosslink DB not found at ",
        db.as_str(),
        " (run `crosslink init` in ",
        place.as_str(),
        " first)",
    )
}

} // verus!
