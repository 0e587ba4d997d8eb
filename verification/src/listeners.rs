//! The sockets at which a server listens, one for each peer of its group.
//!
//! For every peer the server listens at `<root>/<peer>/<own>.socket`, where the
//! peer's clients find it. Which sockets are listened at is kept here; opening and
//! closing them is asked of the caller.

use vstd::prelude::*;

use crate::compose::{views, views_push};
use crate::pathname::{below_text, PathName};
use crate::paths::{listener_below, SocketLayout};
use crate::registry::{Outcome, OutcomeView};
use crate::store::{copy_unit, unit_view};
use crate::text::same_text;

verus! {

broadcast use vstd::seq_lib::group_seq_properties;

/// A socket that is listened at.
#[derive(Debug, PartialEq, Eq)]
pub struct Listener {
    pub peer: String,
    pub path: PathName,
}

/// The contents of [`Listener`].
#[verifier::ext_equal]
pub struct ListenerView {
    pub peer: Seq<char>,
    pub path: Seq<u8>,
}

impl View for Listener {
    type V = ListenerView;

    open spec fn view(&self) -> ListenerView {
        ListenerView { peer: self.peer@, path: self.path@ }
    }
}

/// The sockets that are listened at, at most one for each peer.
#[derive(Debug, PartialEq, Eq)]
pub struct ListenerSet {
    own_slug: String,
    layout: SocketLayout,
    entries: Vec<Listener>,
}

/// The contents of [`ListenerSet`].
#[verifier::ext_equal]
pub struct ListenerSetView {
    pub own_slug: Seq<char>,
    pub root: Seq<u8>,
    pub entries: Seq<ListenerView>,
}

impl View for ListenerSet {
    type V = ListenerSetView;

    closed spec fn view(&self) -> ListenerSetView {
        ListenerSetView {
            own_slug: self.own_slug@,
            root: self.layout@,
            entries: views(self.entries@),
        }
    }
}

impl ListenerSetView {
    /// No peer has two sockets, and each socket is where the layout has it.
    pub open spec fn wf(self) -> bool {
        &&& forall|i: int, j: int|
            0 <= i < j < self.entries.len() ==> (#[trigger] self.entries[i]).peer != (
            #[trigger] self.entries[j]).peer
        &&& forall|i: int|
            0 <= i < self.entries.len() ==> (#[trigger] self.entries[i]).path == listener_below(
                self.root,
                self.entries[i].peer,
                self.own_slug,
            )
    }

    /// The set without the socket of `peer`.
    pub open spec fn without(self, peer: Seq<char>) -> ListenerSetView {
        match position(self.entries, peer, 0) {
            Some(i) => ListenerSetView { entries: self.entries.remove(i), ..self },
            None => self,
        }
    }

    /// The set with a socket for `peer`.
    pub open spec fn with(self, peer: Seq<char>) -> ListenerSetView {
        ListenerSetView {
            entries: self.entries.push(
                ListenerView { peer, path: listener_below(self.root, peer, self.own_slug) },
            ),
            ..self
        }
    }
}

/// The position at or behind `from` of the socket of `peer`.
pub open spec fn position(entries: Seq<ListenerView>, peer: Seq<char>, from: int) -> Option<int>
    decreases entries.len() - from,
{
    if from >= entries.len() {
        None
    } else if entries[from].peer == peer {
        Some(from)
    } else {
        position(entries, peer, from + 1)
    }
}

/// What a position says.
pub proof fn position_is(entries: Seq<ListenerView>, peer: Seq<char>, from: int)
    requires
        0 <= from <= entries.len(),
    ensures
        match position(entries, peer, from) {
            Some(i) => from <= i < entries.len() && entries[i].peer == peer,
            None => forall|i: int|
                from <= i < entries.len() ==> (#[trigger] entries[i]).peer != peer,
        },
    decreases entries.len() - from,
{
    if from < entries.len() && entries[from].peer != peer {
        position_is(entries, peer, from + 1);
    }
}

/// Taking a peer's socket out, and putting one in for a peer that has none, keep
/// the set in order; and a peer that was taken out has no socket.
pub proof fn changes_keep_order(set: ListenerSetView, peer: Seq<char>)
    requires
        set.wf(),
    ensures
        set.without(peer).wf(),
        position(set.without(peer).entries, peer, 0) is None,
        set.without(peer).with(peer).wf(),
{
    position_is(set.entries, peer, 0);
    let less = set.without(peer);
    position_is(less.entries, peer, 0);
    if let Some(i) = position(set.entries, peer, 0) {
        assert forall|j: int| 0 <= j < less.entries.len() implies (#[trigger] less.entries[j]).peer
            != peer by {
            let k = if j < i {
                j
            } else {
                j + 1
            };
            assert(less.entries[j] == set.entries[k]);
            assert(set.entries[k].peer != set.entries[i].peer);
        }
    }
    let more = less.with(peer);
    assert forall|i: int, j: int| 0 <= i < j < more.entries.len() implies (
    #[trigger] more.entries[i]).peer != (#[trigger] more.entries[j]).peer by {
        assert(more.entries[i] == less.entries[i]);
        if j < less.entries.len() {
            assert(more.entries[j] == less.entries[j]);
        }
    }
}

impl ListenerSet {
    /// No sockets yet.
    pub fn new(own_slug: String, layout: SocketLayout) -> (r: ListenerSet)
        ensures
            r@ == (ListenerSetView {
                own_slug: own_slug@,
                root: layout@,
                entries: Seq::empty(),
            }),
            r@.wf(),
    {
        let r: ListenerSet = ListenerSet { own_slug, layout, entries: Vec::new() };
        assert(views(r.entries@) =~= Seq::<ListenerView>::empty());
        r
    }

    /// The server's own slug.
    pub fn own_slug(&self) -> (r: &String)
        ensures
            r@ == self@.own_slug,
    {
        &self.own_slug
    }

    /// The layout of the sockets.
    pub fn layout(&self) -> (r: &SocketLayout)
        ensures
            r@ == self@.root,
    {
        &self.layout
    }

    /// The number of sockets.
    pub fn len(&self) -> (n: usize)
        ensures
            n == self@.entries.len(),
    {
        self.entries.len()
    }

    /// True when there is no socket.
    pub fn is_empty(&self) -> (b: bool)
        ensures
            b == (self@.entries.len() == 0),
    {
        self.entries.len() == 0
    }

    /// Takes the socket of `peer_slug` out, if there is one. The caller stops
    /// listening at it and removes its file.
    pub fn remove(&mut self, peer_slug: &str) -> (r: Option<Listener>)
        ensures
            final(self)@ == old(self)@.without(peer_slug@),
            match r {
                Some(l) => position(old(self)@.entries, peer_slug@, 0) matches Some(i) && l@
                    == old(self)@.entries[i],
                None => position(old(self)@.entries, peer_slug@, 0) is None,
            },
    {
        let ghost all = self@.entries;
        let mut i: usize = 0;
        while i < self.entries.len()
            invariant
                *self == *old(self),
                all == self@.entries,
                i <= self.entries.len(),
                position(all, peer_slug@, 0) == position(all, peer_slug@, i as int),
            decreases self.entries.len() - i,
        {
            if same_text(self.entries[i].peer.as_str(), peer_slug) {
                assert(all[i as int].peer == peer_slug@);
                let l: Listener = self.entries.remove(i);
                assert(self@.entries =~= all.remove(i as int));
                return Some(l);
            }
            i = i + 1;
        }
        None
    }

    /// Takes all sockets out. The caller stops listening at them and removes their
    /// files.
    pub fn clear(&mut self) -> (r: Vec<Listener>)
        ensures
            views(r@) == old(self)@.entries,
            final(self)@ == (ListenerSetView { entries: Seq::empty(), ..old(self)@ }),
    {
        let mut out: Vec<Listener> = Vec::new();
        out.append(&mut self.entries);
        assert(out@ =~= old(self).entries@);
        assert(views(self.entries@) =~= Seq::<ListenerView>::empty());
        out
    }

    /// Puts a socket for `peer_slug` in.
    fn insert(&mut self, peer_slug: &String)
        ensures
            final(self)@ == old(self)@.with(peer_slug@),
    {
        let l: Listener = Listener {
            peer: peer_slug.clone(),
            path: self.layout.listener_socket(peer_slug.as_str(), self.own_slug.as_str()),
        };
        proof {
            views_push(self.entries@, l);
        }
        self.entries.push(l);
    }

    /// Starts listening for the peer `peer_slug`. A socket that it has is closed
    /// first, and a file in the way is removed.
    pub fn add(&self, peer_slug: &str) -> (t: AddTask)
        ensures
            t@ == (AddTaskView { peer: peer_slug@, phase: AddPhaseView::MakeDir }),
    {
        AddTask { peer: peer_slug.to_owned(), phase: AddPhase::MakeDir }
    }
}

// --- adding a socket -----------------------------------------------------------

/// How far the opening of a socket has come.
#[derive(Debug, PartialEq, Eq)]
pub enum AddPhase {
    /// Making the peer's directory.
    MakeDir,
    /// Closing the socket that the peer has had.
    CloseOld { path: PathName },
    /// Is there a file in the way?
    Probe,
    /// Removing it.
    RemoveStale,
    /// Opening the socket.
    Bind,
    /// The result is known.
    Finished(Result<(), String>),
}

/// The contents of [`AddPhase`].
#[verifier::ext_equal]
pub enum AddPhaseView {
    MakeDir,
    CloseOld { path: Seq<u8> },
    Probe,
    RemoveStale,
    Bind,
    Finished(Result<(), Seq<char>>),
}

impl View for AddPhase {
    type V = AddPhaseView;

    open spec fn view(&self) -> AddPhaseView {
        match self {
            AddPhase::MakeDir => AddPhaseView::MakeDir,
            AddPhase::CloseOld { path } => AddPhaseView::CloseOld { path: path@ },
            AddPhase::Probe => AddPhaseView::Probe,
            AddPhase::RemoveStale => AddPhaseView::RemoveStale,
            AddPhase::Bind => AddPhaseView::Bind,
            AddPhase::Finished(r) => AddPhaseView::Finished(unit_view(*r)),
        }
    }
}

/// The opening of a socket under way.
#[derive(Debug, PartialEq, Eq)]
pub struct AddTask {
    peer: String,
    phase: AddPhase,
}

/// The contents of [`AddTask`].
#[verifier::ext_equal]
pub struct AddTaskView {
    pub peer: Seq<char>,
    pub phase: AddPhaseView,
}

impl View for AddTask {
    type V = AddTaskView;

    closed spec fn view(&self) -> AddTaskView {
        AddTaskView { peer: self.peer@, phase: self.phase@ }
    }
}

/// What the opening asks for.
#[derive(Debug, PartialEq, Eq)]
pub enum AddAction {
    /// Creates a directory and its parents.
    CreateDir(PathName),
    /// Stops listening for the peer, and removes the socket's file.
    Close { peer: String, path: PathName },
    /// Is there anything at this path? Answered with `Done` for yes.
    Exists(PathName),
    /// Removes a file.
    RemoveFile(PathName),
    /// Starts listening for the peer.
    Bind { peer: String, path: PathName },
    /// Nothing more: this is the result.
    Return(Result<(), String>),
}

/// The contents of [`AddAction`].
#[verifier::ext_equal]
pub enum AddActionView {
    CreateDir(Seq<u8>),
    Close { peer: Seq<char>, path: Seq<u8> },
    Exists(Seq<u8>),
    RemoveFile(Seq<u8>),
    Bind { peer: Seq<char>, path: Seq<u8> },
    Return(Result<(), Seq<char>>),
}

impl View for AddAction {
    type V = AddActionView;

    open spec fn view(&self) -> AddActionView {
        match self {
            AddAction::CreateDir(p) => AddActionView::CreateDir(p@),
            AddAction::Close { peer, path } => AddActionView::Close { peer: peer@, path: path@ },
            AddAction::Exists(p) => AddActionView::Exists(p@),
            AddAction::RemoveFile(p) => AddActionView::RemoveFile(p@),
            AddAction::Bind { peer, path } => AddActionView::Bind { peer: peer@, path: path@ },
            AddAction::Return(r) => AddActionView::Return(unit_view(*r)),
        }
    }
}

/// What the opening asks for.
pub open spec fn add_action(set: ListenerSetView, t: AddTaskView) -> AddActionView {
    let path = listener_below(set.root, t.peer, set.own_slug);
    match t.phase {
        AddPhaseView::MakeDir => AddActionView::CreateDir(below_text(set.root, t.peer)),
        AddPhaseView::CloseOld { path: old_path } => AddActionView::Close {
            peer: t.peer,
            path: old_path,
        },
        AddPhaseView::Probe => AddActionView::Exists(path),
        AddPhaseView::RemoveStale => AddActionView::RemoveFile(path),
        AddPhaseView::Bind => AddActionView::Bind { peer: t.peer, path },
        AddPhaseView::Finished(r) => AddActionView::Return(r),
    }
}

/// Where the opening stands after an action.
pub open spec fn add_next(
    set: ListenerSetView,
    t: AddTaskView,
    outcome: OutcomeView,
) -> AddPhaseView {
    match (t.phase, outcome) {
        (AddPhaseView::MakeDir, OutcomeView::Failed(e)) => AddPhaseView::Finished(Err(e)),
        (AddPhaseView::MakeDir, OutcomeView::Done) => match position(set.entries, t.peer, 0) {
            Some(i) => AddPhaseView::CloseOld { path: set.entries[i].path },
            None => AddPhaseView::Probe,
        },
        (AddPhaseView::CloseOld { .. }, _) => AddPhaseView::Probe,
        (AddPhaseView::Probe, OutcomeView::Done) => AddPhaseView::RemoveStale,
        (AddPhaseView::Probe, OutcomeView::Failed(_)) => AddPhaseView::Bind,
        (AddPhaseView::RemoveStale, _) => AddPhaseView::Bind,
        (AddPhaseView::Bind, OutcomeView::Done) => AddPhaseView::Finished(Ok(())),
        (AddPhaseView::Bind, OutcomeView::Failed(e)) => AddPhaseView::Finished(Err(e)),
        (AddPhaseView::Finished(_), _) => t.phase,
    }
}

/// The set after an action: the old socket is out once the directory is there, and
/// the new one is in once it is open.
pub open spec fn set_next(
    set: ListenerSetView,
    t: AddTaskView,
    outcome: OutcomeView,
) -> ListenerSetView {
    match (t.phase, outcome) {
        (AddPhaseView::MakeDir, OutcomeView::Done) => set.without(t.peer),
        (AddPhaseView::Bind, OutcomeView::Done) => set.with(t.peer),
        _ => set,
    }
}

impl AddTask {
    /// The peer that the socket is for.
    pub fn peer(&self) -> (r: &String)
        ensures
            r@ == self@.peer,
    {
        &self.peer
    }

    /// True when nothing is left to do.
    pub fn is_finished(&self) -> (b: bool)
        ensures
            b == (self@.phase is Finished),
    {
        match self.phase {
            AddPhase::Finished(_) => true,
            _ => false,
        }
    }

    /// What to do next.
    pub fn current(&self, set: &ListenerSet) -> (a: AddAction)
        ensures
            a@ == add_action(set@, self@),
    {
        match &self.phase {
            AddPhase::MakeDir => AddAction::CreateDir(set.layout.peer_dir(self.peer.as_str())),
            AddPhase::CloseOld { path } => AddAction::Close {
                peer: self.peer.clone(),
                path: path.copy(),
            },
            AddPhase::Probe => AddAction::Exists(
                set.layout.listener_socket(self.peer.as_str(), set.own_slug.as_str()),
            ),
            AddPhase::RemoveStale => AddAction::RemoveFile(
                set.layout.listener_socket(self.peer.as_str(), set.own_slug.as_str()),
            ),
            AddPhase::Bind => AddAction::Bind {
                peer: self.peer.clone(),
                path: set.layout.listener_socket(self.peer.as_str(), set.own_slug.as_str()),
            },
            AddPhase::Finished(r) => AddAction::Return(copy_unit(r)),
        }
    }

    /// Goes on with what came of [`AddTask::current`].
    pub fn resume(&mut self, set: &mut ListenerSet, outcome: Outcome)
        ensures
            final(self)@ == (AddTaskView {
                phase: add_next(old(set)@, old(self)@, outcome@),
                ..old(self)@
            }),
            final(set)@ == set_next(old(set)@, old(self)@, outcome@),
    {
        let next: AddPhase = match (&self.phase, outcome) {
            (AddPhase::MakeDir, Outcome::Failed(e)) => AddPhase::Finished(Err(e)),
            (AddPhase::MakeDir, Outcome::Done) => match set.remove(self.peer.as_str()) {
                Some(l) => AddPhase::CloseOld { path: l.path },
                None => AddPhase::Probe,
            },
            (AddPhase::CloseOld { .. }, _) => AddPhase::Probe,
            (AddPhase::Probe, Outcome::Done) => AddPhase::RemoveStale,
            (AddPhase::Probe, Outcome::Failed(_)) => AddPhase::Bind,
            (AddPhase::RemoveStale, _) => AddPhase::Bind,
            (AddPhase::Bind, Outcome::Done) => {
                set.insert(&self.peer);
                AddPhase::Finished(Ok(()))
            },
            (AddPhase::Bind, Outcome::Failed(e)) => AddPhase::Finished(Err(e)),
            (AddPhase::Finished(_), _) => {
                return;
            },
        };
        self.phase = next;
    }
}

/// True when the task can run on the set: once the old socket is out, the peer has
/// none.
pub open spec fn add_applies(set: ListenerSetView, t: AddTaskView) -> bool {
    t.phase is MakeDir || t.phase is Finished || position(set.entries, t.peer, 0) is None
}

/// Every step of an opening keeps the set in order, whatever fails: no peer ever
/// has two sockets.
pub proof fn add_steps_keep_order(set: ListenerSetView, t: AddTaskView, outcome: OutcomeView)
    requires
        set.wf(),
        add_applies(set, t),
    ensures
        set_next(set, t, outcome).wf(),
        add_applies(
            set_next(set, t, outcome),
            AddTaskView { phase: add_next(set, t, outcome), ..t },
        ),
{
    changes_keep_order(set, t.peer);
}

} // verus!
