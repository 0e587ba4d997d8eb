//! Delivering one outbound request of the polling bridge to its target.

use vstd::prelude::*;

use crate::compose::{cat3, cat4, decimal, decimal_i64, join, joined, views};
use crate::config::{db_below, path_of, slugs_of, Config, RepoView};
use crate::handler::{
    label_writes, make_label_writes, make_own_labels, own_labels, INBOUND_PRIORITY, NOTE_KIND,
};
use crate::labels::{
    find_prefixed, first_prefixed, has, ref_label, ref_text, OUTBOUND, STATUS_ERROR, STATUS_OPEN,
    STATUS_PENDING, TARGET_PREFIX,
};
use crate::pathname::PathName;
use crate::store::{
    copy_opt, copy_unit, unit_view, Issue, IssueView, RouteAction, RouteActionView, RouteOp,
    RouteOpView, StoreOp, StoreOpView, StoreReply, StoreReplyView, Write, WriteView,
};

verus! {

broadcast use vstd::seq_lib::group_seq_properties;

/// How far a delivery has come.
#[derive(Debug, PartialEq, Eq)]
pub enum OutboundPhase {
    /// Commenting that the target is unknown.
    Complain { text: String },
    /// Taking the request out of the queue.
    Park,
    /// Reading the UUID of the request.
    Identify { target: String, path: PathName },
    /// Opening the target's database.
    Open { target: String, path: PathName, uuid: String },
    /// Looking for an issue that was made for the same request.
    Find { uuid: String },
    /// It is there: reading its UUID.
    Settle { id: i64 },
    /// Creating the issue in the target.
    Create { uuid: String },
    /// Reading the UUID of the new issue.
    Name { uuid: String, id: i64 },
    /// Labelling the new issue.
    Label { uuid: String, id: i64, target_uuid: String },
    /// Changing the status of the request, and linking it to the issue in the target.
    Link { target_uuid: String },
    /// The result is known.
    Finished(Result<(), String>),
}

/// The contents of [`OutboundPhase`].
#[verifier::ext_equal]
pub enum OutboundPhaseView {
    Complain { text: Seq<char> },
    Park,
    Identify { target: Seq<char>, path: Seq<u8> },
    Open { target: Seq<char>, path: Seq<u8>, uuid: Seq<char> },
    Find { uuid: Seq<char> },
    Settle { id: i64 },
    Create { uuid: Seq<char> },
    Name { uuid: Seq<char>, id: i64 },
    Label { uuid: Seq<char>, id: i64, target_uuid: Seq<char> },
    Link { target_uuid: Seq<char> },
    Finished(Result<(), Seq<char>>),
}

impl View for OutboundPhase {
    type V = OutboundPhaseView;

    open spec fn view(&self) -> OutboundPhaseView {
        match self {
            OutboundPhase::Complain { text } => OutboundPhaseView::Complain { text: text@ },
            OutboundPhase::Park => OutboundPhaseView::Park,
            OutboundPhase::Identify { target, path } => OutboundPhaseView::Identify {
                target: target@,
                path: path@,
            },
            OutboundPhase::Open { target, path, uuid } => OutboundPhaseView::Open {
                target: target@,
                path: path@,
                uuid: uuid@,
            },
            OutboundPhase::Find { uuid } => OutboundPhaseView::Find { uuid: uuid@ },
            OutboundPhase::Settle { id } => OutboundPhaseView::Settle { id: *id },
            OutboundPhase::Create { uuid } => OutboundPhaseView::Create { uuid: uuid@ },
            OutboundPhase::Name { uuid, id } => OutboundPhaseView::Name { uuid: uuid@, id: *id },
            OutboundPhase::Label { uuid, id, target_uuid } => OutboundPhaseView::Label {
                uuid: uuid@,
                id: *id,
                target_uuid: target_uuid@,
            },
            OutboundPhase::Link { target_uuid } => OutboundPhaseView::Link {
                target_uuid: target_uuid@,
            },
            OutboundPhase::Finished(r) => OutboundPhaseView::Finished(unit_view(*r)),
        }
    }
}

/// A delivery under way.
#[derive(Debug, PartialEq, Eq)]
pub struct OutboundTask {
    source_slug: String,
    issue: Issue,
    labels: Vec<String>,
    phase: OutboundPhase,
}

/// The contents of [`OutboundTask`].
#[verifier::ext_equal]
pub struct OutboundTaskView {
    pub source_slug: Seq<char>,
    pub issue: IssueView,
    pub labels: Seq<Seq<char>>,
    pub phase: OutboundPhaseView,
}

impl View for OutboundTask {
    type V = OutboundTaskView;

    closed spec fn view(&self) -> OutboundTaskView {
        OutboundTaskView {
            source_slug: self.source_slug@,
            issue: self.issue@,
            labels: views(self.labels@),
            phase: self.phase@,
        }
    }
}

/// The failure of a request that names no target.
pub open spec fn no_target(id: i64) -> Seq<char> {
    "outbound issue "@ + decimal(id as int) + " missing xb-target label"@
}

/// The comment on a request for a target that is not configured.
pub open spec fn unknown_target(target: Seq<char>, available: Seq<Seq<char>>) -> Seq<char> {
    "crossbridge: unknown target '"@ + target + "'. Available: "@ + joined(available, ", "@)
}

/// Where a delivery starts.
pub open spec fn outbound_start(
    repos: Seq<RepoView>,
    issue: IssueView,
    labels: Seq<Seq<char>>,
) -> OutboundPhaseView {
    match first_prefixed(labels, TARGET_PREFIX@) {
        None => OutboundPhaseView::Finished(Err(no_target(issue.id))),
        Some(target) => match path_of(repos, target) {
            None => OutboundPhaseView::Complain { text: unknown_target(target, slugs_of(repos)) },
            Some(path) => OutboundPhaseView::Identify { target, path: db_below(path) },
        },
    }
}

/// The changes that take a request out of the queue.
pub open spec fn park_writes(id: i64) -> Seq<WriteView> {
    seq![
        WriteView::RemoveLabel { id, label: STATUS_OPEN@ },
        WriteView::RemoveLabel { id, label: OUTBOUND@ },
        WriteView::AddLabel { id, label: STATUS_ERROR@ },
    ]
}

/// The changes that turn one label into another.
pub open spec fn swap_label_writes(id: i64, was: Seq<char>, now: Seq<char>) -> Seq<WriteView> {
    seq![WriteView::RemoveLabel { id, label: was }, WriteView::AddLabel { id, label: now }]
}

/// The changes on a request once it is delivered.
pub open spec fn link_writes(id: i64, target_uuid: Seq<char>) -> Seq<WriteView> {
    swap_label_writes(id, STATUS_OPEN@, STATUS_PENDING@).push(
        WriteView::AddLabel { id, label: ref_text(target_uuid) },
    )
}

/// Makes the changes that turn one label into another.
pub(crate) fn make_swap_label_writes(id: i64, was: &str, now: &str) -> (r: Vec<Write>)
    ensures
        views(r@) == swap_label_writes(id, was@, now@),
{
    let mut r: Vec<Write> = Vec::new();
    r.push(Write::RemoveLabel { id, label: was.to_owned() });
    r.push(Write::AddLabel { id, label: now.to_owned() });
    assert(views(r@) =~= swap_label_writes(id, was@, now@));
    r
}

/// What the task asks for.
pub open spec fn outbound_action(t: OutboundTaskView) -> RouteActionView {
    let id = t.issue.id;
    match t.phase {
        OutboundPhaseView::Complain { text } => RouteActionView::Do(
            RouteOpView::Here(
                StoreOpView::Apply {
                    writes: seq![WriteView::AddComment { id, content: text, kind: NOTE_KIND@ }],
                },
            ),
        ),
        OutboundPhaseView::Park => RouteActionView::Do(
            RouteOpView::Here(StoreOpView::Transact { writes: park_writes(id) }),
        ),
        OutboundPhaseView::Identify { .. } => RouteActionView::Do(
            RouteOpView::Here(StoreOpView::Uuid { id }),
        ),
        OutboundPhaseView::Open { path, .. } => RouteActionView::Do(RouteOpView::OpenThere(path)),
        OutboundPhaseView::Find { uuid } => RouteActionView::Do(
            RouteOpView::There(StoreOpView::List { closed: false, label: ref_text(uuid) }),
        ),
        OutboundPhaseView::Settle { id: found } => RouteActionView::Do(
            RouteOpView::There(StoreOpView::Uuid { id: found }),
        ),
        OutboundPhaseView::Create { .. } => RouteActionView::Do(
            RouteOpView::There(
                StoreOpView::Create {
                    title: t.issue.title,
                    body: t.issue.description,
                    priority: INBOUND_PRIORITY@,
                },
            ),
        ),
        OutboundPhaseView::Name { id: new, .. } => RouteActionView::Do(
            RouteOpView::There(StoreOpView::Uuid { id: new }),
        ),
        OutboundPhaseView::Label { uuid, id: new, .. } => RouteActionView::Do(
            RouteOpView::There(
                StoreOpView::Apply { writes: label_writes(new, own_labels(t.source_slug, uuid)) },
            ),
        ),
        OutboundPhaseView::Link { target_uuid } => RouteActionView::Do(
            RouteOpView::Here(StoreOpView::Transact { writes: link_writes(id, target_uuid) }),
        ),
        OutboundPhaseView::Finished(r) => RouteActionView::Return(r),
    }
}

/// Where the task stands after a reply. A reply of a kind that was not asked for
/// changes nothing.
pub open spec fn outbound_next(t: OutboundTaskView, reply: StoreReplyView) -> OutboundPhaseView {
    match (t.phase, reply) {
        (OutboundPhaseView::Finished(r), _) => t.phase,
        (OutboundPhaseView::Open { target, .. }, StoreReplyView::Failed(e)) => {
            OutboundPhaseView::Finished(Err("opening target DB for '"@ + target + "': "@ + e))
        },
        (_, StoreReplyView::Failed(e)) => OutboundPhaseView::Finished(Err(e)),
        (OutboundPhaseView::Complain { .. }, StoreReplyView::Done) => OutboundPhaseView::Park,
        (OutboundPhaseView::Park, StoreReplyView::Done) => OutboundPhaseView::Finished(Ok(())),
        (OutboundPhaseView::Identify { target, path }, StoreReplyView::Uuid(uuid)) => {
            OutboundPhaseView::Open { target, path, uuid }
        },
        (OutboundPhaseView::Open { uuid, .. }, StoreReplyView::Done) => OutboundPhaseView::Find {
            uuid,
        },
        (OutboundPhaseView::Find { uuid }, StoreReplyView::Issues(v)) => if v.len() == 0 {
            OutboundPhaseView::Create { uuid }
        } else if t.labels.contains(STATUS_OPEN@) {
            OutboundPhaseView::Settle { id: v[0].id }
        } else {
            OutboundPhaseView::Finished(Ok(()))
        },
        (OutboundPhaseView::Settle { .. }, StoreReplyView::Uuid(target_uuid)) => {
            OutboundPhaseView::Link { target_uuid }
        },
        (OutboundPhaseView::Create { uuid }, StoreReplyView::Created(id)) => {
            OutboundPhaseView::Name { uuid, id }
        },
        (OutboundPhaseView::Name { uuid, id }, StoreReplyView::Uuid(target_uuid)) => {
            OutboundPhaseView::Label { uuid, id, target_uuid }
        },
        (OutboundPhaseView::Label { target_uuid, .. }, StoreReplyView::Done) => {
            OutboundPhaseView::Link { target_uuid }
        },
        (OutboundPhaseView::Link { .. }, StoreReplyView::Done) => OutboundPhaseView::Finished(
            Ok(()),
        ),
        _ => t.phase,
    }
}

/// Starts delivering a request of `source_slug` to the repository that its
/// `xb-target` label names.
///
/// A request for a repository that is not configured is commented on with those
/// that are, and taken out of the queue. A target that already has an open issue
/// for the request gets no second one: the request is linked to that one.
pub fn route_single_outbound(
    source_slug: &str,
    config: &Config,
    issue: Issue,
    labels: Vec<String>,
) -> (t: OutboundTask)
    ensures
        t@ == (OutboundTaskView {
            source_slug: source_slug@,
            issue: issue@,
            labels: views(labels@),
            phase: outbound_start(config@, issue@, views(labels@)),
        }),
{
    let phase: OutboundPhase = match find_prefixed(labels.as_slice(), TARGET_PREFIX) {
        None => OutboundPhase::Finished(
            Err(
                cat3(
                    "outbound issue ",
                    decimal_i64(issue.id).as_str(),
                    " missing xb-target label",
                ),
            ),
        ),
        Some(target) => match config.get(target) {
            None => {
                let available: String = join(&config.repo_slugs(), ", ");
                OutboundPhase::Complain {
                    text: cat4(
                        "crossbridge: unknown target '",
                        target,
                        "'. Available: ",
                        available.as_str(),
                    ),
                }
            },
            Some(repo) => OutboundPhase::Identify {
                target: target.to_owned(),
                path: repo.db_path(),
            },
        },
    };
    OutboundTask { source_slug: source_slug.to_owned(), issue, labels, phase }
}

impl OutboundTask {
    /// What to do next.
    pub fn current(&self) -> (a: RouteAction)
        ensures
            a@ == outbound_action(self@),
    {
        let id: i64 = self.issue.id;
        match &self.phase {
            OutboundPhase::Complain { text } => {
                let mut writes: Vec<Write> = Vec::new();
                writes.push(
                    Write::AddComment { id, content: text.clone(), kind: NOTE_KIND.to_owned() },
                );
                assert(views(writes@) =~= seq![
                    WriteView::AddComment { id, content: text@, kind: NOTE_KIND@ },
                ]);
                RouteAction::Do(RouteOp::Here(StoreOp::Apply { writes }))
            },
            OutboundPhase::Park => {
                let mut writes: Vec<Write> = Vec::new();
                writes.push(Write::RemoveLabel { id, label: STATUS_OPEN.to_owned() });
                writes.push(Write::RemoveLabel { id, label: OUTBOUND.to_owned() });
                writes.push(Write::AddLabel { id, label: STATUS_ERROR.to_owned() });
                assert(views(writes@) =~= park_writes(id));
                RouteAction::Do(RouteOp::Here(StoreOp::Transact { writes }))
            },
            OutboundPhase::Identify { .. } => RouteAction::Do(RouteOp::Here(StoreOp::Uuid { id })),
            OutboundPhase::Open { path, .. } => RouteAction::Do(RouteOp::OpenThere(path.copy())),
            OutboundPhase::Find { uuid } => RouteAction::Do(
                RouteOp::There(StoreOp::List { closed: false, label: ref_label(uuid.as_str()) }),
            ),
            OutboundPhase::Settle { id: found } => RouteAction::Do(
                RouteOp::There(StoreOp::Uuid { id: *found }),
            ),
            OutboundPhase::Create { .. } => RouteAction::Do(
                RouteOp::There(
                    StoreOp::Create {
                        title: self.issue.title.clone(),
                        body: copy_opt(&self.issue.description),
                        priority: INBOUND_PRIORITY.to_owned(),
                    },
                ),
            ),
            OutboundPhase::Name { id: new, .. } => RouteAction::Do(
                RouteOp::There(StoreOp::Uuid { id: *new }),
            ),
            OutboundPhase::Label { uuid, id: new, .. } => {
                let labels: Vec<String> = make_own_labels(
                    self.source_slug.as_str(),
                    uuid.as_str(),
                );
                RouteAction::Do(
                    RouteOp::There(StoreOp::Apply { writes: make_label_writes(*new, &labels) }),
                )
            },
            OutboundPhase::Link { target_uuid } => {
                let mut writes: Vec<Write> = make_swap_label_writes(
                    id,
                    STATUS_OPEN,
                    STATUS_PENDING,
                );
                let w: Write = Write::AddLabel { id, label: ref_label(target_uuid.as_str()) };
                proof {
                    crate::compose::views_push(writes@, w);
                }
                writes.push(w);
                RouteAction::Do(RouteOp::Here(StoreOp::Transact { writes }))
            },
            OutboundPhase::Finished(r) => RouteAction::Return(copy_unit(r)),
        }
    }

    /// Goes on with what came of [`OutboundTask::current`].
    pub fn resume(&mut self, reply: StoreReply)
        ensures
            final(self)@ == (OutboundTaskView {
                phase: outbound_next(old(self)@, reply@),
                ..old(self)@
            }),
    {
        let next: OutboundPhase = match (&self.phase, reply) {
            (OutboundPhase::Finished(_), _) => {
                return;
            },
            (OutboundPhase::Open { target, .. }, StoreReply::Failed(e)) => OutboundPhase::Finished(
                Err(cat4("opening target DB for '", target.as_str(), "': ", e.as_str())),
            ),
            (_, StoreReply::Failed(e)) => OutboundPhase::Finished(Err(e)),
            (OutboundPhase::Complain { .. }, StoreReply::Done) => OutboundPhase::Park,
            (OutboundPhase::Park, StoreReply::Done) => OutboundPhase::Finished(Ok(())),
            (OutboundPhase::Identify { target, path }, StoreReply::Uuid(uuid)) => {
                OutboundPhase::Open { target: target.clone(), path: path.copy(), uuid }
            },
            (OutboundPhase::Open { uuid, .. }, StoreReply::Done) => OutboundPhase::Find {
                uuid: uuid.clone(),
            },
            (OutboundPhase::Find { uuid }, StoreReply::Issues(v)) => if v.len() == 0 {
                OutboundPhase::Create { uuid: uuid.clone() }
            } else if has(self.labels.as_slice(), STATUS_OPEN) {
                OutboundPhase::Settle { id: v[0].id }
            } else {
                OutboundPhase::Finished(Ok(()))
            },
            (OutboundPhase::Settle { .. }, StoreReply::Uuid(target_uuid)) => OutboundPhase::Link {
                target_uuid,
            },
            (OutboundPhase::Create { uuid }, StoreReply::Created(id)) => OutboundPhase::Name {
                uuid: uuid.clone(),
                id,
            },
            (OutboundPhase::Name { uuid, id }, StoreReply::Uuid(target_uuid)) => {
                OutboundPhase::Label { uuid: uuid.clone(), id: *id, target_uuid }
            },
            (OutboundPhase::Label { target_uuid, .. }, StoreReply::Done) => OutboundPhase::Link {
                target_uuid: target_uuid.clone(),
            },
            (OutboundPhase::Link { .. }, StoreReply::Done) => OutboundPhase::Finished(Ok(())),
            _ => {
                return;
            },
        };
        self.phase = next;
    }
}

} // verus!
