//! The start of the supervisor. The directory that holds the register socket is
//! emptied, or made when it is missing, and the socket is opened. From there on
//! the [`Registry`](crate::registry::Registry) over that directory decides.

use vstd::prelude::*;

use crate::compose::{cat2, cat3, cat4, views, views_remove};
use crate::encoding::lossy;
use crate::pathname::{below, parent_of, PathName};

verus! {

broadcast use vstd::seq_lib::group_seq_properties;

/// What was found in a directory.
#[derive(Debug, PartialEq, Eq)]
pub enum Found {
    /// An entry, and whether it is a directory, or why that is not known.
    Item { name: Vec<u8>, is_dir: Result<bool, String> },
    /// The next entry could not be read.
    Unread(String),
}

/// The contents of [`Found`].
#[verifier::ext_equal]
pub enum FoundView {
    Item { name: Seq<u8>, is_dir: Result<bool, Seq<char>> },
    Unread(Seq<char>),
}

impl View for Found {
    type V = FoundView;

    open spec fn view(&self) -> FoundView {
        match self {
            Found::Item { name, is_dir: Ok(b) } => FoundView::Item { name: name@, is_dir: Ok(*b) },
            Found::Item { name, is_dir: Err(e) } => FoundView::Item {
                name: name@,
                is_dir: Err(e@),
            },
            Found::Unread(e) => FoundView::Unread(e@),
        }
    }
}

/// How far the start has come.
#[derive(Debug, PartialEq, Eq)]
pub enum StartPhase {
    /// Reading the directory.
    List,
    /// Removing what was found: one entry now, the rest later.
    Wipe { path: PathName, is_dir: bool, rest: Vec<Found> },
    /// Making the directory.
    Create,
    /// Opening the socket.
    Bind,
    /// The result is known.
    Finished(Result<(), String>),
}

/// The contents of [`StartPhase`].
#[verifier::ext_equal]
pub enum StartPhaseView {
    List,
    Wipe { path: Seq<u8>, is_dir: bool, rest: Seq<FoundView> },
    Create,
    Bind,
    Finished(Result<(), Seq<char>>),
}

impl View for StartPhase {
    type V = StartPhaseView;

    open spec fn view(&self) -> StartPhaseView {
        match self {
            StartPhase::List => StartPhaseView::List,
            StartPhase::Wipe { path, is_dir, rest } => StartPhaseView::Wipe {
                path: path@,
                is_dir: *is_dir,
                rest: views(rest@),
            },
            StartPhase::Create => StartPhaseView::Create,
            StartPhase::Bind => StartPhaseView::Bind,
            StartPhase::Finished(Ok(())) => StartPhaseView::Finished(Ok(())),
            StartPhase::Finished(Err(e)) => StartPhaseView::Finished(Err(e@)),
        }
    }
}

/// The start under way.
#[derive(Debug, PartialEq, Eq)]
pub struct StartTask {
    socket: PathName,
    base: PathName,
    phase: StartPhase,
}

/// The contents of [`StartTask`].
#[verifier::ext_equal]
pub struct StartTaskView {
    pub socket: Seq<u8>,
    pub base: Seq<u8>,
    pub phase: StartPhaseView,
}

impl View for StartTask {
    type V = StartTaskView;

    closed spec fn view(&self) -> StartTaskView {
        StartTaskView { socket: self.socket@, base: self.base@, phase: self.phase@ }
    }
}

/// What the start asks for.
#[derive(Debug, PartialEq, Eq)]
pub enum StartAction {
    /// Reads a directory.
    ReadDir(PathName),
    /// Removes a directory with all that it holds.
    RemoveDir(PathName),
    /// Removes a file.
    RemoveFile(PathName),
    /// Makes a directory and its parents.
    CreateDir(PathName),
    /// Listens at the register socket.
    Bind(PathName),
    /// Nothing more. On success the registry is to be kept over this directory.
    Return(Result<PathName, String>),
}

/// The contents of [`StartAction`].
#[verifier::ext_equal]
pub enum StartActionView {
    ReadDir(Seq<u8>),
    RemoveDir(Seq<u8>),
    RemoveFile(Seq<u8>),
    CreateDir(Seq<u8>),
    Bind(Seq<u8>),
    Return(Result<Seq<u8>, Seq<char>>),
}

impl View for StartAction {
    type V = StartActionView;

    open spec fn view(&self) -> StartActionView {
        match self {
            StartAction::ReadDir(p) => StartActionView::ReadDir(p@),
            StartAction::RemoveDir(p) => StartActionView::RemoveDir(p@),
            StartAction::RemoveFile(p) => StartActionView::RemoveFile(p@),
            StartAction::CreateDir(p) => StartActionView::CreateDir(p@),
            StartAction::Bind(p) => StartActionView::Bind(p@),
            StartAction::Return(Ok(p)) => StartActionView::Return(Ok(p@)),
            StartAction::Return(Err(e)) => StartActionView::Return(Err(e@)),
        }
    }
}

/// What came of an action.
#[derive(Debug, PartialEq, Eq)]
pub enum StartReply {
    /// The directory was read.
    Listed(Vec<Found>),
    /// The directory does not exist.
    NotFound,
    Done,
    /// The action failed; the failure in words.
    Failed(String),
}

/// The contents of [`StartReply`].
#[verifier::ext_equal]
pub enum StartReplyView {
    Listed(Seq<FoundView>),
    NotFound,
    Done,
    Failed(Seq<char>),
}

impl View for StartReply {
    type V = StartReplyView;

    open spec fn view(&self) -> StartReplyView {
        match self {
            StartReply::Listed(found) => StartReplyView::Listed(views(found@)),
            StartReply::NotFound => StartReplyView::NotFound,
            StartReply::Done => StartReplyView::Done,
            StartReply::Failed(e) => StartReplyView::Failed(e@),
        }
    }
}

/// What precedes a failure to prepare the directory.
pub const PREPARING: &'static str = "preparing base directory: ";

/// The failure to prepare the directory.
pub open spec fn unprepared(e: Seq<char>) -> StartPhaseView {
    StartPhaseView::Finished(Err(PREPARING@ + e))
}

/// Removing what was found, one entry after the other. An entry that could not be
/// read, or is of an unknown kind, ends it.
pub open spec fn wiping(base: Seq<u8>, found: Seq<FoundView>) -> StartPhaseView {
    if found.len() == 0 {
        StartPhaseView::Bind
    } else {
        match found[0] {
            FoundView::Item { name, is_dir: Ok(is_dir) } => StartPhaseView::Wipe {
                path: below(base, name),
                is_dir,
                rest: found.remove(0),
            },
            FoundView::Item { is_dir: Err(e), .. } => unprepared(e),
            FoundView::Unread(e) => unprepared(e),
        }
    }
}

/// What the start asks for.
pub open spec fn start_action(t: StartTaskView) -> StartActionView {
    match t.phase {
        StartPhaseView::List => StartActionView::ReadDir(t.base),
        StartPhaseView::Wipe { path, is_dir, .. } => if is_dir {
            StartActionView::RemoveDir(path)
        } else {
            StartActionView::RemoveFile(path)
        },
        StartPhaseView::Create => StartActionView::CreateDir(t.base),
        StartPhaseView::Bind => StartActionView::Bind(t.socket),
        StartPhaseView::Finished(Ok(_)) => StartActionView::Return(Ok(t.base)),
        StartPhaseView::Finished(Err(e)) => StartActionView::Return(Err(e)),
    }
}

/// Where the start stands after a reply. A reply of a kind that was not asked for
/// changes nothing.
pub open spec fn start_next(t: StartTaskView, reply: StartReplyView) -> StartPhaseView {
    match (t.phase, reply) {
        (StartPhaseView::List, StartReplyView::Listed(found)) => wiping(t.base, found),
        (StartPhaseView::List, StartReplyView::NotFound) => StartPhaseView::Create,
        (StartPhaseView::List, StartReplyView::Failed(e)) => unprepared(e),
        (StartPhaseView::Wipe { rest, .. }, StartReplyView::Done) => wiping(t.base, rest),
        (StartPhaseView::Wipe { path, is_dir, .. }, StartReplyView::Failed(e)) => unprepared(
            (if is_dir {
                "removing directory "@
            } else {
                "removing file "@
            }) + lossy(path) + ": "@ + e,
        ),
        (StartPhaseView::Create, StartReplyView::Done) => StartPhaseView::Bind,
        (StartPhaseView::Create, StartReplyView::Failed(e)) => unprepared(
            "creating "@ + lossy(t.base) + ": "@ + e,
        ),
        (StartPhaseView::Bind, StartReplyView::Done) => StartPhaseView::Finished(Ok(())),
        (StartPhaseView::Bind, StartReplyView::Failed(e)) => StartPhaseView::Finished(
            Err("binding register socket at "@ + lossy(t.socket) + ": "@ + e),
        ),
        _ => t.phase,
    }
}

/// Starts the supervisor on the register socket `socket_path`. The directory that
/// holds the socket is emptied first; a path without one is refused.
pub fn run(socket_path: PathName) -> (t: StartTask)
    ensures
        t@ == (match parent_of(socket_path@) {
            Some(base) => StartTaskView {
                socket: socket_path@,
                base,
                phase: StartPhaseView::List,
            },
            None => StartTaskView {
                socket: socket_path@,
                base: Seq::empty(),
                phase: StartPhaseView::Finished(
                    Err(
                        "socket path '"@ + lossy(socket_path@) + "' has no parent directory"@,
                    ),
                ),
            },
        }),
{
    match socket_path.parent() {
        Some(base) => StartTask { socket: socket_path, base, phase: StartPhase::List },
        None => {
            let place: String = socket_path.display();
            let text: String = cat3("socket path '", place.as_str(), "' has no parent directory");
            StartTask {
                socket: socket_path,
                base: PathName::from_bytes(Vec::new()),
                phase: StartPhase::Finished(Err(text)),
            }
        },
    }
}

/// Begins the removal of what was found.
fn prepare_base_dir(base: &PathName, found: Vec<Found>) -> (p: StartPhase)
    ensures
        p@ == wiping(base@, views(found@)),
{
    let mut rest: Vec<Found> = found;
    if rest.len() == 0 {
        return StartPhase::Bind;
    }
    let first: Found = rest.remove(0);
    proof {
        views_remove(found@);
    }
    match first {
        Found::Item { name, is_dir: Ok(is_dir) } => StartPhase::Wipe {
            path: base.join_bytes(name),
            is_dir,
            rest,
        },
        Found::Item { is_dir: Err(e), .. } => unable(e.as_str()),
        Found::Unread(e) => unable(e.as_str()),
    }
}

/// The failure to prepare the directory.
fn unable(e: &str) -> (p: StartPhase)
    ensures
        p@ == unprepared(e@),
{
    StartPhase::Finished(Err(cat2(PREPARING, e)))
}

impl StartTask {
    /// What to do next.
    pub fn current(&self) -> (a: StartAction)
        ensures
            a@ == start_action(self@),
    {
        match &self.phase {
            StartPhase::List => StartAction::ReadDir(self.base.copy()),
            StartPhase::Wipe { path, is_dir, .. } => if *is_dir {
                StartAction::RemoveDir(path.copy())
            } else {
                StartAction::RemoveFile(path.copy())
            },
            StartPhase::Create => StartAction::CreateDir(self.base.copy()),
            StartPhase::Bind => StartAction::Bind(self.socket.copy()),
            StartPhase::Finished(Ok(())) => StartAction::Return(Ok(self.base.copy())),
            StartPhase::Finished(Err(e)) => StartAction::Return(Err(e.clone())),
        }
    }

    /// Goes on with what came of [`StartTask::current`].
    pub fn resumed(self, reply: StartReply) -> (t: StartTask)
        ensures
            t@ == (StartTaskView { phase: start_next(self@, reply@), ..self@ }),
    {
        let StartTask { socket, base, phase } = self;
        let next: StartPhase = match (phase, reply) {
            (StartPhase::List, StartReply::Listed(found)) => prepare_base_dir(&base, found),
            (StartPhase::List, StartReply::NotFound) => StartPhase::Create,
            (StartPhase::List, StartReply::Failed(e)) => unable(e.as_str()),
            (StartPhase::Wipe { rest, .. }, StartReply::Done) => prepare_base_dir(&base, rest),
            (StartPhase::Wipe { path, is_dir, .. }, StartReply::Failed(e)) => {
                let what: &str = if is_dir {
                    "removing directory "
                } else {
                    "removing file "
                };
                let place: String = path.display();
                let text: String = cat4(what, place.as_str(), ": ", e.as_str());
                unable(text.as_str())
            },
            (StartPhase::Create, StartReply::Done) => StartPhase::Bind,
            (StartPhase::Create, StartReply::Failed(e)) => {
                let place: String = base.display();
                let text: String = cat4("creating ", place.as_str(), ": ", e.as_str());
                unable(text.as_str())
            },
            (StartPhase::Bind, StartReply::Done) => StartPhase::Finished(Ok(())),
            (StartPhase::Bind, StartReply::Failed(e)) => {
                let place: String = socket.display();
                StartPhase::Finished(
                    Err(cat4("binding register socket at ", place.as_str(), ": ", e.as_str())),
                )
            },
            (phase, _) => phase,
        };
        StartTask { socket, base, phase: next }
    }
}

// --- laws ----------------------------------------------------------------------

/// Where the start stands after several replies.
pub open spec fn start_runs(t: StartTaskView, replies: Seq<StartReplyView>) -> StartTaskView
    decreases replies.len(),
{
    if replies.len() == 0 {
        t
    } else {
        let s = start_runs(t, replies.drop_last());
        StartTaskView { phase: start_next(s, replies.last()), ..s }
    }
}

/// True when every entry was read and is known to be a directory or not.
pub open spec fn all_known(found: Seq<FoundView>) -> bool {
    forall|i: int|
        0 <= i < found.len() ==> ((#[trigger] found[i]) matches FoundView::Item { is_dir, .. }
            && is_dir is Ok)
}

/// `n` times that an action was done.
pub open spec fn done_times(n: nat) -> Seq<StartReplyView> {
    Seq::new(n, |i: int| StartReplyView::Done)
}

/// A start in a directory that exists removes each entry that it holds, in turn: a
/// directory as one, anything else as a file. Only when all are gone is the socket
/// opened.
pub proof fn everything_is_wiped(t: StartTaskView, found: Seq<FoundView>, n: nat)
    requires
        t.phase is List,
        all_known(found),
        n <= found.len(),
    ensures
        start_action(start_runs(t, seq![StartReplyView::Listed(found)] + done_times(n))) == (if n
            < found.len() {
            let path = below(t.base, found[n as int]->name);
            if found[n as int]->is_dir->Ok_0 {
                StartActionView::RemoveDir(path)
            } else {
                StartActionView::RemoveFile(path)
            }
        } else {
            StartActionView::Bind(t.socket)
        }),
{
    wiping_runs(t, found, n);
    if n < found.len() {
        assert(found.skip(n as int)[0] == found[n as int]);
        assert(found[n as int] is Item);
    }
}

/// Where the removal stands after `n` entries.
proof fn wiping_runs(t: StartTaskView, found: Seq<FoundView>, n: nat)
    requires
        t.phase is List,
        all_known(found),
        n <= found.len(),
    ensures
        start_runs(t, seq![StartReplyView::Listed(found)] + done_times(n)) == (StartTaskView {
            phase: wiping(t.base, found.skip(n as int)),
            ..t
        }),
    decreases n,
{
    let replies = seq![StartReplyView::Listed(found)] + done_times(n);
    if n == 0 {
        assert(replies.drop_last() =~= Seq::empty());
        assert(replies.last() == StartReplyView::Listed(found));
        assert(start_runs(t, replies.drop_last()) == t);
        assert(found.skip(0) =~= found);
    } else {
        let m = (n - 1) as nat;
        wiping_runs(t, found, m);
        assert(replies.drop_last() =~= seq![StartReplyView::Listed(found)] + done_times(m));
        let left = found.skip(m as int);
        assert(left[0] == found[m as int]);
        assert(found[m as int] is Item);
        assert(left.remove(0) =~= found.skip(n as int));
    }
}

} // verus!
