//! The supervisor's view of the world: which servers are registered, in which
//! group, and what has to happen when one comes or goes.
//!
//! Registrations and departures become tasks. A task names the action to take,
//! [`MembershipTask::current`], and is resumed with its outcome, until it is
//! finished. One task runs at a time.

use vstd::prelude::*;

use crate::compose::{cat2, cat5, views, views_push};
use crate::messages::{
    Notification, NotificationView, Register, RegisterResponse, RegisterResponseView,
    RegisterView, SupervisorMessage, SupervisorMessageView,
};
use crate::pathname::{below_text, PathName};

verus! {

broadcast use vstd::seq_lib::group_seq_properties;

/// A registered server.
#[derive(Debug, PartialEq, Eq)]
pub struct Member {
    /// The number of its connection.
    pub id: u64,
    pub slug: String,
    pub group: String,
}

/// The contents of [`Member`].
#[verifier::ext_equal]
pub struct MemberView {
    pub id: u64,
    pub slug: Seq<char>,
    pub group: Seq<char>,
}

impl View for Member {
    type V = MemberView;

    open spec fn view(&self) -> MemberView {
        MemberView { id: self.id, slug: self.slug@, group: self.group@ }
    }
}

/// The registered servers, in the order in which they registered.
#[derive(Debug)]
pub struct Registry {
    base_dir: PathName,
    next_id: u64,
    members: Vec<Member>,
}

/// The contents of [`Registry`].
#[verifier::ext_equal]
pub struct RegistryView {
    /// The directory that holds a directory for each slug.
    pub base_dir: Seq<u8>,
    /// The number that the next connection gets.
    pub next_id: u64,
    pub members: Seq<MemberView>,
}

impl View for Registry {
    type V = RegistryView;

    closed spec fn view(&self) -> RegistryView {
        RegistryView {
            base_dir: self.base_dir@,
            next_id: self.next_id,
            members: views(self.members@),
        }
    }
}

impl RegistryView {
    /// Connection numbers are used once, and within a group each slug is.
    pub open spec fn wf(self) -> bool {
        &&& forall|i: int|
            0 <= i < self.members.len() ==> (#[trigger] self.members[i]).id < self.next_id
        &&& forall|i: int, j: int|
            0 <= i < j < self.members.len() ==> (#[trigger] self.members[i]).id != (
            #[trigger] self.members[j]).id
        &&& forall|i: int, j: int|
            0 <= i < j < self.members.len() && (#[trigger] self.members[i]).group == (
            #[trigger] self.members[j]).group ==> self.members[i].slug != self.members[j].slug
    }

    /// True when a server of `group` is registered as `slug`.
    pub open spec fn is_taken(self, slug: Seq<char>, group: Seq<char>) -> bool {
        exists|i: int|
            0 <= i < self.members.len() && (#[trigger] self.members[i]).slug == slug
                && self.members[i].group == group
    }

    /// The directory of a slug.
    pub open spec fn slug_dir(self, slug: Seq<char>) -> Seq<u8> {
        below_text(self.base_dir, slug)
    }
}

/// The members that belong to `group`.
pub open spec fn of_group(members: Seq<MemberView>, group: Seq<char>) -> Seq<MemberView>
    decreases members.len(),
{
    if members.len() == 0 {
        Seq::empty()
    } else {
        let front = of_group(members.drop_last(), group);
        if members.last().group == group {
            front.push(members.last())
        } else {
            front
        }
    }
}

/// The slugs of members.
pub open spec fn slugs(members: Seq<MemberView>) -> Seq<Seq<char>> {
    Seq::new(members.len(), |i: int| members[i].slug)
}

/// The connection numbers of members.
pub open spec fn ids(members: Seq<MemberView>) -> Seq<u64> {
    Seq::new(members.len(), |i: int| members[i].id)
}

/// How far a registration or a departure has come.
#[derive(Debug, PartialEq, Eq)]
pub enum MembershipPhase {
    /// Telling the server that it is refused.
    Refuse { reason: String },
    /// Making the directory of its slug.
    MakeDir,
    /// Telling the server that it is accepted, and who its peers are.
    Greet,
    /// Keeping its connection under the number `id`.
    Keep { id: u64 },
    /// Removing the directory again, because the server could not be told.
    Undo,
    /// Letting go of the connection `id`.
    Forget { id: u64 },
    /// Removing the directory of the slug of a server that has gone.
    CleanUp,
    /// Telling the group; `failed` are those that could not be told.
    Tell { joined: bool, targets: Vec<u64>, at: usize, failed: Vec<u64> },
    /// Done; the connections in `departed` are to be treated as gone.
    Finished { departed: Vec<u64> },
}

/// The contents of [`MembershipPhase`].
#[verifier::ext_equal]
pub enum MembershipPhaseView {
    Refuse { reason: Seq<char> },
    MakeDir,
    Greet,
    Keep { id: u64 },
    Undo,
    Forget { id: u64 },
    CleanUp,
    Tell { joined: bool, targets: Seq<u64>, at: nat, failed: Seq<u64> },
    Finished { departed: Seq<u64> },
}

impl View for MembershipPhase {
    type V = MembershipPhaseView;

    open spec fn view(&self) -> MembershipPhaseView {
        match self {
            MembershipPhase::Refuse { reason } => MembershipPhaseView::Refuse { reason: reason@ },
            MembershipPhase::MakeDir => MembershipPhaseView::MakeDir,
            MembershipPhase::Greet => MembershipPhaseView::Greet,
            MembershipPhase::Keep { id } => MembershipPhaseView::Keep { id: *id },
            MembershipPhase::Undo => MembershipPhaseView::Undo,
            MembershipPhase::Forget { id } => MembershipPhaseView::Forget { id: *id },
            MembershipPhase::CleanUp => MembershipPhaseView::CleanUp,
            MembershipPhase::Tell { joined, targets, at, failed } => MembershipPhaseView::Tell {
                joined: *joined,
                targets: targets@,
                at: *at as nat,
                failed: failed@,
            },
            MembershipPhase::Finished { departed } => MembershipPhaseView::Finished {
                departed: departed@,
            },
        }
    }
}

/// A registration or a departure under way.
#[derive(Debug, PartialEq, Eq)]
pub struct MembershipTask {
    slug: String,
    group: String,
    phase: MembershipPhase,
}

/// The contents of [`MembershipTask`].
#[verifier::ext_equal]
pub struct MembershipTaskView {
    pub slug: Seq<char>,
    pub group: Seq<char>,
    pub phase: MembershipPhaseView,
}

impl View for MembershipTask {
    type V = MembershipTaskView;

    closed spec fn view(&self) -> MembershipTaskView {
        MembershipTaskView { slug: self.slug@, group: self.group@, phase: self.phase@ }
    }
}

/// What a task asks for.
#[derive(Debug, PartialEq, Eq)]
pub enum MembershipAction {
    /// Sends a message to the server that registers.
    Respond(SupervisorMessage),
    /// Creates a directory and its parents.
    CreateDir(PathName),
    /// Removes a directory and what it holds.
    RemoveDir(PathName),
    /// Keeps the connection of the server that registers under a number, and
    /// watches it for its end.
    Keep(u64),
    /// Lets go of a connection.
    Forget(u64),
    /// Sends a message to a registered server.
    Notify(u64, SupervisorMessage),
    /// Nothing more. Each of these connections is to be treated as departed.
    Finish(Vec<u64>),
}

/// The contents of [`MembershipAction`].
#[verifier::ext_equal]
pub enum MembershipActionView {
    Respond(SupervisorMessageView),
    CreateDir(Seq<u8>),
    RemoveDir(Seq<u8>),
    Keep(u64),
    Forget(u64),
    Notify(u64, SupervisorMessageView),
    Finish(Seq<u64>),
}

impl View for MembershipAction {
    type V = MembershipActionView;

    open spec fn view(&self) -> MembershipActionView {
        match self {
            MembershipAction::Respond(m) => MembershipActionView::Respond(m@),
            MembershipAction::CreateDir(p) => MembershipActionView::CreateDir(p@),
            MembershipAction::RemoveDir(p) => MembershipActionView::RemoveDir(p@),
            MembershipAction::Keep(id) => MembershipActionView::Keep(*id),
            MembershipAction::Forget(id) => MembershipActionView::Forget(*id),
            MembershipAction::Notify(id, m) => MembershipActionView::Notify(*id, m@),
            MembershipAction::Finish(v) => MembershipActionView::Finish(v@),
        }
    }
}

/// What came of an action.
#[derive(Debug, PartialEq, Eq)]
pub enum Outcome {
    /// It was carried out.
    Done,
    /// It failed; the failure in words.
    Failed(String),
}

/// The contents of [`Outcome`].
#[verifier::ext_equal]
pub enum OutcomeView {
    Done,
    Failed(Seq<char>),
}

impl View for Outcome {
    type V = OutcomeView;

    open spec fn view(&self) -> OutcomeView {
        match self {
            Outcome::Done => OutcomeView::Done,
            Outcome::Failed(e) => OutcomeView::Failed(e@),
        }
    }
}

/// Why a slug that is taken is refused.
pub open spec fn taken_reason(slug: Seq<char>, group: Seq<char>) -> Seq<char> {
    "slug '"@ + slug + "' already registered in group '"@ + group + "'"@
}

/// The message that a peer of the group has come or gone.
pub open spec fn news(joined: bool, slug: Seq<char>) -> SupervisorMessageView {
    SupervisorMessageView::Notification(
        if joined {
            NotificationView::PeerJoined { slug }
        } else {
            NotificationView::PeerLeft { slug }
        },
    )
}

/// What the task asks for.
pub open spec fn membership_action(
    reg: RegistryView,
    t: MembershipTaskView,
) -> MembershipActionView {
    match t.phase {
        MembershipPhaseView::Refuse { reason } => MembershipActionView::Respond(
            SupervisorMessageView::RegisterResponse(RegisterResponseView::Nack { reason }),
        ),
        MembershipPhaseView::MakeDir => MembershipActionView::CreateDir(reg.slug_dir(t.slug)),
        MembershipPhaseView::Greet => MembershipActionView::Respond(
            SupervisorMessageView::RegisterResponse(
                RegisterResponseView::Ack { peers: slugs(of_group(reg.members, t.group)) },
            ),
        ),
        MembershipPhaseView::Keep { id } => MembershipActionView::Keep(id),
        MembershipPhaseView::Undo => MembershipActionView::RemoveDir(reg.slug_dir(t.slug)),
        MembershipPhaseView::Forget { id } => MembershipActionView::Forget(id),
        MembershipPhaseView::CleanUp => MembershipActionView::RemoveDir(reg.slug_dir(t.slug)),
        MembershipPhaseView::Tell { joined, targets, at, failed } => if at < targets.len() {
            MembershipActionView::Notify(targets[at as int], news(joined, t.slug))
        } else {
            MembershipActionView::Finish(failed)
        },
        MembershipPhaseView::Finished { departed } => MembershipActionView::Finish(departed),
    }
}

/// Telling the members of a group that a peer has come or gone.
pub open spec fn telling(joined: bool, targets: Seq<u64>) -> MembershipPhaseView {
    MembershipPhaseView::Tell { joined, targets, at: 0, failed: Seq::empty() }
}

/// Where the task stands after an action, the registry being what it was.
pub open spec fn membership_next(
    reg: RegistryView,
    t: MembershipTaskView,
    outcome: OutcomeView,
) -> MembershipPhaseView {
    match (t.phase, outcome) {
        (MembershipPhaseView::Refuse { .. }, _) => MembershipPhaseView::Finished {
            departed: Seq::empty(),
        },
        (MembershipPhaseView::MakeDir, OutcomeView::Done) => MembershipPhaseView::Greet,
        (MembershipPhaseView::MakeDir, OutcomeView::Failed(e)) => MembershipPhaseView::Refuse {
            reason: "failed to create slug directory: "@ + e,
        },
        (MembershipPhaseView::Greet, OutcomeView::Done) => MembershipPhaseView::Keep {
            id: reg.next_id,
        },
        (MembershipPhaseView::Greet, OutcomeView::Failed(_)) => MembershipPhaseView::Undo,
        (MembershipPhaseView::Keep { .. }, _) => telling(
            true,
            ids(of_group(reg.members, t.group)),
        ),
        (MembershipPhaseView::Undo, _) => MembershipPhaseView::Finished { departed: Seq::empty() },
        (MembershipPhaseView::Forget { .. }, _) => MembershipPhaseView::CleanUp,
        (MembershipPhaseView::CleanUp, _) => telling(false, ids(of_group(reg.members, t.group))),
        (MembershipPhaseView::Tell { joined, targets, at, failed }, _) => if at < targets.len() {
            MembershipPhaseView::Tell {
                joined,
                targets,
                at: at + 1,
                failed: if outcome is Done {
                    failed
                } else {
                    failed.push(targets[at as int])
                },
            }
        } else {
            MembershipPhaseView::Finished { departed: failed }
        },
        (MembershipPhaseView::Finished { .. }, _) => t.phase,
    }
}

/// The registry after an action: the server becomes a member once it has been told
/// that it is accepted and its connection is kept.
pub open spec fn registry_next(
    reg: RegistryView,
    t: MembershipTaskView,
    outcome: OutcomeView,
) -> RegistryView {
    match (t.phase, outcome) {
        (MembershipPhaseView::Greet, OutcomeView::Done) => RegistryView {
            next_id: (reg.next_id + 1) as u64,
            ..reg
        },
        (MembershipPhaseView::Keep { id }, _) => RegistryView {
            members: reg.members.push(MemberView { id, slug: t.slug, group: t.group }),
            ..reg
        },
        _ => reg,
    }
}

/// A registration at its beginning: a slug that is taken in the group is refused,
/// any other is given a directory first.
pub open spec fn registration(reg: RegistryView, register: RegisterView) -> MembershipTaskView {
    MembershipTaskView {
        slug: register.slug,
        group: register.group,
        phase: if reg.is_taken(register.slug, register.group) {
            MembershipPhaseView::Refuse { reason: taken_reason(register.slug, register.group) }
        } else {
            MembershipPhaseView::MakeDir
        },
    }
}

/// The departure of the connection `id` at its beginning: its member, if there is
/// one, is out, and nothing is to be done if there is none.
pub open spec fn departs(
    before: RegistryView,
    id: u64,
    after: RegistryView,
    t: MembershipTaskView,
) -> bool {
    match member_at(before.members, id) {
        Some(i) => {
            let m = before.members[i];
            &&& after == (RegistryView { members: before.members.remove(i), ..before })
            &&& t == (MembershipTaskView {
                slug: m.slug,
                group: m.group,
                phase: MembershipPhaseView::Forget { id },
            })
        },
        None => after == before && t.phase == (MembershipPhaseView::Finished {
            departed: Seq::empty(),
        }),
    }
}

impl Registry {
    /// An empty registry over the directory `base_dir`.
    pub fn new(base_dir: PathName) -> (r: Registry)
        ensures
            r@ == (RegistryView { base_dir: base_dir@, next_id: 0, members: Seq::empty() }),
            r@.wf(),
    {
        let r: Registry = Registry { base_dir, next_id: 0, members: Vec::new() };
        assert(views(r.members@) =~= Seq::<MemberView>::empty());
        r
    }

    /// The id that the next member's connection is given.
    pub fn next_id(&self) -> (n: u64)
        ensures
            n == self@.next_id,
    {
        self.next_id
    }

    /// True when a server of `group` is registered as `slug`.
    pub fn is_taken(&self, slug: &String, group: &String) -> (b: bool)
        ensures
            b == self@.is_taken(slug@, group@),
    {
        let mut i: usize = 0;
        while i < self.members.len()
            invariant
                i <= self.members.len(),
                forall|j: int|
                    0 <= j < i ==> !((#[trigger] self@.members[j]).slug == slug@
                        && self@.members[j].group == group@),
            decreases self.members.len() - i,
        {
            if self.members[i].slug == *slug && self.members[i].group == *group {
                assert(self@.members[i as int].slug == slug@);
                return true;
            }
            i = i + 1;
        }
        false
    }

    /// The slugs of the members of `group`.
    fn group_slugs(&self, group: &String) -> (r: Vec<String>)
        ensures
            views(r@) == slugs(of_group(self@.members, group@)),
    {
        let mut r: Vec<String> = Vec::new();
        let mut i: usize = 0;
        let ghost all = self@.members;
        assert(views(r@) =~= slugs(of_group(all.take(0), group@)));
        while i < self.members.len()
            invariant
                i <= self.members.len(),
                all == self@.members,
                views(r@) == slugs(of_group(all.take(i as int), group@)),
            decreases self.members.len() - i,
        {
            let ghost front = of_group(all.take(i as int), group@);
            assert(all.take(i + 1).drop_last() == all.take(i as int));
            assert(all.take(i + 1).last() == self.members@[i as int]@);
            if self.members[i].group == *group {
                let s: String = self.members[i].slug.clone();
                proof {
                    views_push(r@, s);
                }
                r.push(s);
                assert(slugs(front.push(all[i as int])) =~= slugs(front).push(s@));
            }
            i = i + 1;
        }
        assert(all.take(i as int) == all);
        r
    }

    /// The connection numbers of the members of `group`.
    fn group_ids(&self, group: &String) -> (r: Vec<u64>)
        ensures
            r@ == ids(of_group(self@.members, group@)),
    {
        let mut r: Vec<u64> = Vec::new();
        let mut i: usize = 0;
        let ghost all = self@.members;
        assert(r@ =~= ids(of_group(all.take(0), group@)));
        while i < self.members.len()
            invariant
                i <= self.members.len(),
                all == self@.members,
                r@ == ids(of_group(all.take(i as int), group@)),
            decreases self.members.len() - i,
        {
            let ghost front = of_group(all.take(i as int), group@);
            assert(all.take(i + 1).drop_last() == all.take(i as int));
            assert(all.take(i + 1).last() == self.members@[i as int]@);
            if self.members[i].group == *group {
                r.push(self.members[i].id);
                assert(ids(front.push(all[i as int])) =~= ids(front).push(all[i as int].id));
            }
            i = i + 1;
        }
        assert(all.take(i as int) == all);
        r
    }

    /// Starts a registration: a slug that is taken in the group is refused, any
    /// other is given a directory first.
    pub fn handle_registration(&self, register: Register) -> (t: MembershipTask)
        ensures
            t@ == registration(self@, register@),
    {
        let phase: MembershipPhase = if self.is_taken(&register.slug, &register.group) {
            MembershipPhase::Refuse {
                reason: cat5(
                    "slug '",
                    register.slug.as_str(),
                    "' already registered in group '",
                    register.group.as_str(),
                    "'",
                ),
            }
        } else {
            MembershipPhase::MakeDir
        };
        MembershipTask { slug: register.slug, group: register.group, phase }
    }

    /// Starts the departure of the connection `id`: its member, if there is one,
    /// is removed at once.
    pub fn handle_departure(&mut self, id: u64) -> (t: MembershipTask)
        ensures
            departs(old(self)@, id, final(self)@, t@),
            old(self)@.wf() ==> final(self)@.wf(),
    {
        let mut i: usize = 0;
        let ghost all = self@.members;
        while i < self.members.len()
            invariant
                *self == *old(self),
                all == self@.members,
                i <= self.members.len(),
                member_at(all, id) == member_from(all, id, i as int),
            decreases self.members.len() - i,
        {
            if self.members[i].id == id {
                assert(all[i as int].id == id);
                let m: Member = self.members.remove(i);
                assert(self@.members =~= all.remove(i as int));
                return MembershipTask {
                    slug: m.slug,
                    group: m.group,
                    phase: MembershipPhase::Forget { id },
                };
            }
            i = i + 1;
        }
        MembershipTask {
            slug: String::new(),
            group: String::new(),
            phase: MembershipPhase::Finished { departed: Vec::new() },
        }
    }
}

/// What happens to the supervisor.
#[derive(Debug, PartialEq, Eq)]
pub enum Event {
    /// A new connection has sent its registration.
    Registered(Register),
    /// A member's connection has ended, or could not be written to.
    Departed { id: u64 },
}

impl Registry {
    /// Starts what an event calls for: a registration or a departure.
    pub fn handle_event(&mut self, event: Event) -> (t: MembershipTask)
        ensures
            match event {
                Event::Registered(register) => {
                    &&& final(self)@ == old(self)@
                    &&& t@ == registration(old(self)@, register@)
                },
                Event::Departed { id } => departs(old(self)@, id, final(self)@, t@),
            },
            old(self)@.wf() ==> final(self)@.wf(),
    {
        match event {
            Event::Registered(register) => self.handle_registration(register),
            Event::Departed { id } => self.handle_departure(id),
        }
    }
}

/// The position at or behind `from` of the member with the connection `id`.
pub open spec fn member_from(members: Seq<MemberView>, id: u64, from: int) -> Option<int>
    decreases members.len() - from,
{
    if from >= members.len() {
        None
    } else if members[from].id == id {
        Some(from)
    } else {
        member_from(members, id, from + 1)
    }
}

/// The position of the member with the connection `id`.
pub open spec fn member_at(members: Seq<MemberView>, id: u64) -> Option<int> {
    member_from(members, id, 0)
}

/// A copy of a list of connection numbers.
fn copy_ids(v: &Vec<u64>) -> (r: Vec<u64>)
    ensures
        r@ == v@,
{
    vstd::slice::slice_to_vec(v.as_slice())
}

impl MembershipTask {
    /// What to do next.
    pub fn current(&self, reg: &Registry) -> (a: MembershipAction)
        ensures
            a@ == membership_action(reg@, self@),
    {
        match &self.phase {
            MembershipPhase::Refuse { reason } => MembershipAction::Respond(
                SupervisorMessage::RegisterResponse(
                    RegisterResponse::Nack { reason: reason.clone() },
                ),
            ),
            MembershipPhase::MakeDir => MembershipAction::CreateDir(
                reg.base_dir.join(self.slug.as_str()),
            ),
            MembershipPhase::Greet => MembershipAction::Respond(
                SupervisorMessage::RegisterResponse(
                    RegisterResponse::Ack { peers: reg.group_slugs(&self.group) },
                ),
            ),
            MembershipPhase::Keep { id } => MembershipAction::Keep(*id),
            MembershipPhase::Undo => MembershipAction::RemoveDir(
                reg.base_dir.join(self.slug.as_str()),
            ),
            MembershipPhase::Forget { id } => MembershipAction::Forget(*id),
            MembershipPhase::CleanUp => MembershipAction::RemoveDir(
                reg.base_dir.join(self.slug.as_str()),
            ),
            MembershipPhase::Tell { joined, targets, at, failed } => if *at < targets.len() {
                let slug: String = self.slug.clone();
                let n: Notification = if *joined {
                    Notification::PeerJoined { slug }
                } else {
                    Notification::PeerLeft { slug }
                };
                MembershipAction::Notify(targets[*at], SupervisorMessage::Notification(n))
            } else {
                MembershipAction::Finish(copy_ids(failed))
            },
            MembershipPhase::Finished { departed } => MembershipAction::Finish(copy_ids(departed)),
        }
    }

    /// Goes on with what came of [`MembershipTask::current`]. A server that was told
    /// that it is accepted takes the next id, so there has to be one.
    pub fn resume(&mut self, reg: &mut Registry, outcome: Outcome)
        requires
            old(self)@.phase is Greet && outcome is Done ==> old(reg)@.next_id < u64::MAX,
        ensures
            final(self)@ == (MembershipTaskView {
                slug: old(self)@.slug,
                group: old(self)@.group,
                phase: membership_next(old(reg)@, old(self)@, outcome@),
            }),
            final(reg)@ == registry_next(old(reg)@, old(self)@, outcome@),
    {
        let next: MembershipPhase = match (&self.phase, outcome) {
            (MembershipPhase::Refuse { .. }, _) => MembershipPhase::Finished {
                departed: Vec::new(),
            },
            (MembershipPhase::MakeDir, Outcome::Done) => MembershipPhase::Greet,
            (MembershipPhase::MakeDir, Outcome::Failed(e)) => MembershipPhase::Refuse {
                reason: cat2("failed to create slug directory: ", e.as_str()),
            },
            (MembershipPhase::Greet, Outcome::Done) => {
                let id: u64 = reg.next_id;
                reg.next_id = id + 1;
                MembershipPhase::Keep { id }
            },
            (MembershipPhase::Greet, Outcome::Failed(_)) => MembershipPhase::Undo,
            (MembershipPhase::Keep { id }, _) => {
                let targets: Vec<u64> = reg.group_ids(&self.group);
                let m: Member = Member {
                    id: *id,
                    slug: self.slug.clone(),
                    group: self.group.clone(),
                };
                proof {
                    views_push(reg.members@, m);
                }
                reg.members.push(m);
                MembershipPhase::Tell { joined: true, targets, at: 0, failed: Vec::new() }
            },
            (MembershipPhase::Undo, _) => MembershipPhase::Finished { departed: Vec::new() },
            (MembershipPhase::Forget { .. }, _) => MembershipPhase::CleanUp,
            (MembershipPhase::CleanUp, _) => {
                let targets: Vec<u64> = reg.group_ids(&self.group);
                MembershipPhase::Tell { joined: false, targets, at: 0, failed: Vec::new() }
            },
            (MembershipPhase::Tell { joined, targets, at, failed }, o) => {
                let mut missed: Vec<u64> = copy_ids(failed);
                if *at < targets.len() {
                    if let Outcome::Failed(_) = o {
                        missed.push(targets[*at]);
                    }
                    MembershipPhase::Tell {
                        joined: *joined,
                        targets: copy_ids(targets),
                        at: *at + 1,
                        failed: missed,
                    }
                } else {
                    MembershipPhase::Finished { departed: missed }
                }
            },
            (MembershipPhase::Finished { .. }, _) => {
                return;
            },
        };
        self.phase = next;
    }
}

} // verus!
