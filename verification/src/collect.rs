//! Bringing one answer of the polling bridge back to where the request came from.

use vstd::prelude::*;

use crate::compose::{cat3, cat4, decimal, decimal_i64, views};
use crate::config::{db_below, path_of, Config, RepoView};
use crate::handler::{
    forwarded, from_peer, make_forwarded, make_from_peer, make_result_comments,
    make_result_writes, result_comments, result_writes,
};
use crate::labels::{
    find_prefixed, first_prefixed, REF_PREFIX, SOURCE_PREFIX, STATUS_PENDING, STATUS_RESOLVED,
};
use crate::messages::{AnswerComment, AnswerCommentView};
use crate::outbound::{make_swap_label_writes, swap_label_writes};
use crate::pathname::PathName;
use crate::store::{
    copy_unit, unit_view, Comment, CommentView, RouteAction, RouteActionView, RouteOp,
    RouteOpView, StoreOp, StoreOpView, StoreReply, StoreReplyView,
};

verus! {

broadcast use vstd::seq_lib::group_seq_properties;

/// What is said in place of an answer that holds no result.
pub const NO_RESULT: &'static str =
    "crossbridge: target agent marked answered but provided no result comments";

/// How far a collection has come. `source` is the request's issue.
#[derive(Debug, PartialEq, Eq)]
pub enum CollectPhase {
    /// Opening the database that the request came from.
    Open { slug: String, path: PathName, uuid: String },
    /// Looking for the request there.
    Locate { uuid: String },
    /// The request is gone: closing the answered issue.
    CloseOrphan,
    /// Reading the comments of the answered issue.
    ReadHere { source: i64 },
    /// Reading the comments that the request has.
    ReadThere { source: i64, results: Vec<AnswerComment> },
    /// Adding the new comments to the request.
    Copy { source: i64, texts: Vec<String> },
    /// Changing the status of the request.
    Swap { source: i64 },
    /// Closing the request.
    CloseThere { source: i64 },
    /// Closing the answered issue.
    CloseHere,
    /// The result is known.
    Finished(Result<(), String>),
}

/// The contents of [`CollectPhase`].
#[verifier::ext_equal]
pub enum CollectPhaseView {
    Open { slug: Seq<char>, path: Seq<u8>, uuid: Seq<char> },
    Locate { uuid: Seq<char> },
    CloseOrphan,
    ReadHere { source: i64 },
    ReadThere { source: i64, results: Seq<AnswerCommentView> },
    Copy { source: i64, texts: Seq<Seq<char>> },
    Swap { source: i64 },
    CloseThere { source: i64 },
    CloseHere,
    Finished(Result<(), Seq<char>>),
}

impl View for CollectPhase {
    type V = CollectPhaseView;

    open spec fn view(&self) -> CollectPhaseView {
        match self {
            CollectPhase::Open { slug, path, uuid } => CollectPhaseView::Open {
                slug: slug@,
                path: path@,
                uuid: uuid@,
            },
            CollectPhase::Locate { uuid } => CollectPhaseView::Locate { uuid: uuid@ },
            CollectPhase::CloseOrphan => CollectPhaseView::CloseOrphan,
            CollectPhase::ReadHere { source } => CollectPhaseView::ReadHere { source: *source },
            CollectPhase::ReadThere { source, results } => CollectPhaseView::ReadThere {
                source: *source,
                results: views(results@),
            },
            CollectPhase::Copy { source, texts } => CollectPhaseView::Copy {
                source: *source,
                texts: views(texts@),
            },
            CollectPhase::Swap { source } => CollectPhaseView::Swap { source: *source },
            CollectPhase::CloseThere { source } => CollectPhaseView::CloseThere { source: *source },
            CollectPhase::CloseHere => CollectPhaseView::CloseHere,
            CollectPhase::Finished(r) => CollectPhaseView::Finished(unit_view(*r)),
        }
    }
}

/// A collection under way.
#[derive(Debug, PartialEq, Eq)]
pub struct CollectTask {
    this_slug: String,
    id: i64,
    phase: CollectPhase,
}

/// The contents of [`CollectTask`].
#[verifier::ext_equal]
pub struct CollectTaskView {
    /// The repository that answers.
    pub this_slug: Seq<char>,
    /// The answered issue.
    pub id: i64,
    pub phase: CollectPhaseView,
}

impl View for CollectTask {
    type V = CollectTaskView;

    closed spec fn view(&self) -> CollectTaskView {
        CollectTaskView { this_slug: self.this_slug@, id: self.id, phase: self.phase@ }
    }
}

/// Where a collection starts.
pub open spec fn collect_start(
    repos: Seq<RepoView>,
    id: i64,
    labels: Seq<Seq<char>>,
) -> CollectPhaseView {
    match (first_prefixed(labels, SOURCE_PREFIX@), first_prefixed(labels, REF_PREFIX@)) {
        (None, _) => CollectPhaseView::Finished(
            Err("inbound issue "@ + decimal(id as int) + " missing xb-source label"@),
        ),
        (Some(_), None) => CollectPhaseView::Finished(
            Err("inbound issue "@ + decimal(id as int) + " missing xb-ref label"@),
        ),
        (Some(slug), Some(uuid)) => match path_of(repos, slug) {
            None => CollectPhaseView::Finished(Ok(())),
            Some(path) => CollectPhaseView::Open { slug, path: db_below(path), uuid },
        },
    }
}

/// The comments that an answer adds to the request, which already has `existing`.
pub open spec fn collected(
    peer: Seq<char>,
    results: Seq<AnswerCommentView>,
    existing: Seq<CommentView>,
) -> Seq<Seq<char>> {
    if results.len() == 0 {
        seq![from_peer(peer, NO_RESULT@)]
    } else {
        forwarded(peer, results, existing)
    }
}

/// What the task asks for.
pub open spec fn collect_action(t: CollectTaskView) -> RouteActionView {
    let id = t.id;
    match t.phase {
        CollectPhaseView::Open { path, .. } => RouteActionView::Do(RouteOpView::OpenThere(path)),
        CollectPhaseView::Locate { uuid } => RouteActionView::Do(
            RouteOpView::There(StoreOpView::IdOf { uuid }),
        ),
        CollectPhaseView::CloseOrphan => RouteActionView::Do(
            RouteOpView::Here(StoreOpView::Close { id }),
        ),
        CollectPhaseView::ReadHere { .. } => RouteActionView::Do(
            RouteOpView::Here(StoreOpView::Comments { id }),
        ),
        CollectPhaseView::ReadThere { source, .. } => RouteActionView::Do(
            RouteOpView::There(StoreOpView::Comments { id: source }),
        ),
        CollectPhaseView::Copy { source, texts } => RouteActionView::Do(
            RouteOpView::There(StoreOpView::Apply { writes: result_writes(source, texts) }),
        ),
        CollectPhaseView::Swap { source } => RouteActionView::Do(
            RouteOpView::There(
                StoreOpView::Transact {
                    writes: swap_label_writes(source, STATUS_PENDING@, STATUS_RESOLVED@),
                },
            ),
        ),
        CollectPhaseView::CloseThere { source } => RouteActionView::Do(
            RouteOpView::There(StoreOpView::Close { id: source }),
        ),
        CollectPhaseView::CloseHere => RouteActionView::Do(
            RouteOpView::Here(StoreOpView::Close { id }),
        ),
        CollectPhaseView::Finished(r) => RouteActionView::Return(r),
    }
}

/// Where the task stands after a reply. A reply of a kind that was not asked for
/// changes nothing.
pub open spec fn collect_next(t: CollectTaskView, reply: StoreReplyView) -> CollectPhaseView {
    match (t.phase, reply) {
        (CollectPhaseView::Finished(r), _) => t.phase,
        (CollectPhaseView::Open { slug, .. }, StoreReplyView::Failed(e)) => {
            CollectPhaseView::Finished(Err("opening source DB for '"@ + slug + "': "@ + e))
        },
        (CollectPhaseView::Locate { .. }, StoreReplyView::Failed(_)) => {
            CollectPhaseView::CloseOrphan
        },
        (_, StoreReplyView::Failed(e)) => CollectPhaseView::Finished(Err(e)),
        (CollectPhaseView::Open { uuid, .. }, StoreReplyView::Done) => CollectPhaseView::Locate {
            uuid,
        },
        (CollectPhaseView::Locate { .. }, StoreReplyView::Id(source)) => {
            CollectPhaseView::ReadHere { source }
        },
        (CollectPhaseView::CloseOrphan, StoreReplyView::Done) => CollectPhaseView::Finished(
            Ok(()),
        ),
        (CollectPhaseView::ReadHere { source }, StoreReplyView::Comments(v)) => {
            CollectPhaseView::ReadThere { source, results: result_comments(v) }
        },
        (CollectPhaseView::ReadThere { source, results }, StoreReplyView::Comments(v)) => {
            CollectPhaseView::Copy { source, texts: collected(t.this_slug, results, v) }
        },
        (CollectPhaseView::Copy { source, .. }, StoreReplyView::Done) => CollectPhaseView::Swap {
            source,
        },
        (CollectPhaseView::Swap { source }, StoreReplyView::Done) => CollectPhaseView::CloseThere {
            source,
        },
        (CollectPhaseView::CloseThere { .. }, StoreReplyView::Done) => CollectPhaseView::CloseHere,
        (CollectPhaseView::CloseHere, StoreReplyView::Done) => CollectPhaseView::Finished(Ok(())),
        _ => t.phase,
    }
}

/// Starts bringing the answer of issue `id` of `this_slug` back to the repository
/// that its `xb-source` label names, and to the issue there that its `xb-ref` label
/// names.
///
/// A repository that is not configured is passed over. When the request is gone,
/// the answered issue is closed.
pub fn collect_single_answer(
    this_slug: &str,
    config: &Config,
    id: i64,
    labels: &Vec<String>,
) -> (t: CollectTask)
    ensures
        t@ == (CollectTaskView {
            this_slug: this_slug@,
            id,
            phase: collect_start(config@, id, views(labels@)),
        }),
{
    let source: Option<&str> = find_prefixed(labels.as_slice(), SOURCE_PREFIX);
    let reference: Option<&str> = find_prefixed(labels.as_slice(), REF_PREFIX);
    let phase: CollectPhase = match (source, reference) {
        (None, _) => CollectPhase::Finished(
            Err(
                cat3("inbound issue ", decimal_i64(id).as_str(), " missing xb-source label"),
            ),
        ),
        (Some(_), None) => CollectPhase::Finished(
            Err(cat3("inbound issue ", decimal_i64(id).as_str(), " missing xb-ref label")),
        ),
        (Some(slug), Some(uuid)) => match config.get(slug) {
            None => CollectPhase::Finished(Ok(())),
            Some(repo) => CollectPhase::Open {
                slug: slug.to_owned(),
                path: repo.db_path(),
                uuid: uuid.to_owned(),
            },
        },
    };
    CollectTask { this_slug: this_slug.to_owned(), id, phase }
}

/// Makes the comments that an answer adds to the request.
fn make_collected(peer: &str, results: &Vec<AnswerComment>, existing: &Vec<Comment>) -> (r: Vec<
    String,
>)
    ensures
        views(r@) == collected(peer@, views(results@), views(existing@)),
{
    if results.len() == 0 {
        let mut r: Vec<String> = Vec::new();
        r.push(make_from_peer(peer, NO_RESULT));
        assert(views(r@) =~= seq![from_peer(peer@, NO_RESULT@)]);
        r
    } else {
        make_forwarded(peer, results, existing)
    }
}

impl CollectTask {
    /// What to do next.
    pub fn current(&self) -> (a: RouteAction)
        ensures
            a@ == collect_action(self@),
    {
        let id: i64 = self.id;
        match &self.phase {
            CollectPhase::Open { path, .. } => RouteAction::Do(RouteOp::OpenThere(path.copy())),
            CollectPhase::Locate { uuid } => RouteAction::Do(
                RouteOp::There(StoreOp::IdOf { uuid: uuid.clone() }),
            ),
            CollectPhase::CloseOrphan => RouteAction::Do(RouteOp::Here(StoreOp::Close { id })),
            CollectPhase::ReadHere { .. } => RouteAction::Do(
                RouteOp::Here(StoreOp::Comments { id }),
            ),
            CollectPhase::ReadThere { source, .. } => RouteAction::Do(
                RouteOp::There(StoreOp::Comments { id: *source }),
            ),
            CollectPhase::Copy { source, texts } => RouteAction::Do(
                RouteOp::There(StoreOp::Apply { writes: make_result_writes(*source, texts) }),
            ),
            CollectPhase::Swap { source } => RouteAction::Do(
                RouteOp::There(
                    StoreOp::Transact {
                        writes: make_swap_label_writes(*source, STATUS_PENDING, STATUS_RESOLVED),
                    },
                ),
            ),
            CollectPhase::CloseThere { source } => RouteAction::Do(
                RouteOp::There(StoreOp::Close { id: *source }),
            ),
            CollectPhase::CloseHere => RouteAction::Do(RouteOp::Here(StoreOp::Close { id })),
            CollectPhase::Finished(r) => RouteAction::Return(copy_unit(r)),
        }
    }

    /// Goes on with what came of [`CollectTask::current`].
    pub fn resume(&mut self, reply: StoreReply)
        ensures
            final(self)@ == (CollectTaskView {
                phase: collect_next(old(self)@, reply@),
                ..old(self)@
            }),
    {
        let next: CollectPhase = match (&self.phase, reply) {
            (CollectPhase::Finished(_), _) => {
                return;
            },
            (CollectPhase::Open { slug, .. }, StoreReply::Failed(e)) => CollectPhase::Finished(
                Err(cat4("opening source DB for '", slug.as_str(), "': ", e.as_str())),
            ),
            (CollectPhase::Locate { .. }, StoreReply::Failed(_)) => CollectPhase::CloseOrphan,
            (_, StoreReply::Failed(e)) => CollectPhase::Finished(Err(e)),
            (CollectPhase::Open { uuid, .. }, StoreReply::Done) => CollectPhase::Locate {
                uuid: uuid.clone(),
            },
            (CollectPhase::Locate { .. }, StoreReply::Id(source)) => CollectPhase::ReadHere {
                source,
            },
            (CollectPhase::CloseOrphan, StoreReply::Done) => CollectPhase::Finished(Ok(())),
            (CollectPhase::ReadHere { source }, StoreReply::Comments(v)) => {
                CollectPhase::ReadThere { source: *source, results: make_result_comments(&v) }
            },
            (CollectPhase::ReadThere { source, results }, StoreReply::Comments(v)) => {
                CollectPhase::Copy {
                    source: *source,
                    texts: make_collected(self.this_slug.as_str(), results, &v),
                }
            },
            (CollectPhase::Copy { source, .. }, StoreReply::Done) => CollectPhase::Swap {
                source: *source,
            },
            (CollectPhase::Swap { source }, StoreReply::Done) => CollectPhase::CloseThere {
                source: *source,
            },
            (CollectPhase::CloseThere { .. }, StoreReply::Done) => CollectPhase::CloseHere,
            (CollectPhase::CloseHere, StoreReply::Done) => CollectPhase::Finished(Ok(())),
            _ => {
                return;
            },
        };
        self.phase = next;
    }
}

} // verus!
