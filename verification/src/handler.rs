//! Carrying out client requests on the local issue database.
//!
//! A request becomes a task. The task names the operation to carry out next,
//! [`SubmitTask::current`] and [`AnswerTask::current`], and is resumed with its
//! outcome, until the operation is to return a result.

use vstd::prelude::*;

use crate::attachment::{
    comment_text, copy_attachments, format_comment, materialize, recording, MaterializeTask,
    MaterializeTaskView, MaterializedAttachment, MaterializedView,
};
use crate::compose::{cat2, cat3, cat4, decimal, decimal_i64, views, views_push};
use crate::framing::{reads_as, Error};
use crate::labels::{
    goes_along, has, ref_label, ref_text, source_text, travels, INBOUND, REQUEST, SOURCE_PREFIX,
    STATUS_OPEN, STATUS_PENDING, STATUS_RESOLVED,
};
use crate::messages::{
    AnswerComment, AnswerCommentView, ClientRequest, ClientRequestView, ServerResponse,
    ServerResponseView, SubmitAnswer, SubmitAnswerView, SubmitIssue, SubmitIssueView,
};
use crate::pathname::PathName;
use crate::store::{
    Comment, CommentView, StoreOp, StoreOpView, StoreReply, StoreReplyView, Write, WriteView,
};
use crate::text::same_text;

verus! {

broadcast use vstd::seq_lib::group_seq_properties;

/// The footer of every inbound issue's body. It tells the answering agent how to
/// send the result back; the agent fills in `<id>`.
pub const ANSWER_INSTRUCTION_FOOTER: &'static str =
    "\n\n---\nAfter answering, run: `crossbridge-client answer --issue <id>`";

/// The priority of every inbound issue.
pub const INBOUND_PRIORITY: &'static str = "high";

/// The kind of the comments that carry an answer.
pub const RESULT_KIND: &'static str = "result";

/// The kind of the comments that report on a request.
pub const NOTE_KIND: &'static str = "note";

/// The result of a task, with the failure in characters.
pub open spec fn outcome_view(r: Result<i64, String>) -> Result<i64, Seq<char>> {
    match r {
        Ok(id) => Ok(id),
        Err(e) => Err(e@),
    }
}

/// A copy of a task's result.
fn copy_outcome(r: &Result<i64, String>) -> (c: Result<i64, String>)
    ensures
        outcome_view(c) == outcome_view(*r),
{
    match r {
        Ok(id) => Ok(*id),
        Err(e) => Err(e.clone()),
    }
}

// --- labels and comments -------------------------------------------------------

/// `base` followed by those of `more` that stay with the issue and are not there
/// yet, each once.
pub open spec fn extended(base: Seq<Seq<char>>, more: Seq<Seq<char>>) -> Seq<Seq<char>>
    decreases more.len(),
{
    if more.len() == 0 {
        base
    } else {
        let so_far = extended(base, more.drop_last());
        if so_far.contains(more.last()) || !travels(more.last()) {
            so_far
        } else {
            so_far.push(more.last())
        }
    }
}

/// The labels that every inbound issue gets.
pub open spec fn own_labels(source_slug: Seq<char>, source_uuid: Seq<char>) -> Seq<Seq<char>> {
    seq![
        REQUEST@,
        INBOUND@,
        STATUS_OPEN@,
        source_text(source_slug),
        ref_text(source_uuid),
    ]
}

/// The labels of the inbound issue for a submission: its own, and those of the
/// request that stay with it.
pub open spec fn inbound_labels(submit: SubmitIssueView) -> Seq<Seq<char>> {
    extended(own_labels(submit.source_slug, submit.source_uuid), submit.labels)
}

/// The changes that add `labels` to issue `id`.
pub open spec fn label_writes(id: i64, labels: Seq<Seq<char>>) -> Seq<WriteView> {
    Seq::new(labels.len(), |i: int| WriteView::AddLabel { id, label: labels[i] })
}

/// The changes that add comments of the kind `result` to issue `id`.
pub open spec fn result_writes(id: i64, contents: Seq<Seq<char>>) -> Seq<WriteView> {
    Seq::new(
        contents.len(),
        |i: int| WriteView::AddComment { id, content: contents[i], kind: RESULT_KIND@ },
    )
}

/// Makes the labels that every inbound issue gets.
pub fn make_own_labels(source_slug: &str, source_uuid: &str) -> (r: Vec<String>)
    ensures
        views(r@) == own_labels(source_slug@, source_uuid@),
{
    let mut r: Vec<String> = Vec::new();
    r.push(REQUEST.to_owned());
    r.push(INBOUND.to_owned());
    r.push(STATUS_OPEN.to_owned());
    r.push(cat2(SOURCE_PREFIX, source_slug));
    r.push(ref_label(source_uuid));
    assert(views(r@) =~= own_labels(source_slug@, source_uuid@));
    r
}

/// Makes the labels of the inbound issue for a submission.
fn make_inbound_labels(submit: &SubmitIssue) -> (r: Vec<String>)
    ensures
        views(r@) == inbound_labels(submit@),
{
    let mut r: Vec<String> = make_own_labels(
        submit.source_slug.as_str(),
        submit.source_uuid.as_str(),
    );
    let ghost base = views(r@);
    let ghost more = views(submit.labels@);
    let mut i: usize = 0;
    while i < submit.labels.len()
        invariant
            i <= submit.labels.len(),
            more == views(submit.labels@),
            views(r@) == extended(base, more.take(i as int)),
        decreases submit.labels.len() - i,
    {
        assert(more.take(i + 1).drop_last() == more.take(i as int));
        assert(more.take(i + 1).last() == submit.labels@[i as int]@);
        let present: bool = has(r.as_slice(), submit.labels[i].as_str());
        if !present && goes_along(submit.labels[i].as_str()) {
            let l: String = submit.labels[i].clone();
            proof {
                views_push(r@, l);
            }
            r.push(l);
        }
        i = i + 1;
    }
    assert(more.take(i as int) == more);
    r
}

/// Makes the changes that add `labels` to issue `id`.
pub fn make_label_writes(id: i64, labels: &Vec<String>) -> (r: Vec<Write>)
    ensures
        views(r@) == label_writes(id, views(labels@)),
{
    let mut r: Vec<Write> = Vec::new();
    let mut i: usize = 0;
    let ghost all = label_writes(id, views(labels@));
    while i < labels.len()
        invariant
            i <= labels.len(),
            all == label_writes(id, views(labels@)),
            views(r@) == all.take(i as int),
        decreases labels.len() - i,
    {
        let w: Write = Write::AddLabel { id, label: labels[i].clone() };
        proof {
            views_push(r@, w);
        }
        r.push(w);
        assert(all.take(i as int).push(w@) == all.take(i + 1));
        i = i + 1;
    }
    assert(all.take(i as int) == all);
    r
}

/// Makes the changes that add comments of the kind `result` to issue `id`.
pub fn make_result_writes(id: i64, contents: &Vec<String>) -> (r: Vec<Write>)
    ensures
        views(r@) == result_writes(id, views(contents@)),
{
    let mut r: Vec<Write> = Vec::new();
    let mut i: usize = 0;
    let ghost all = result_writes(id, views(contents@));
    while i < contents.len()
        invariant
            i <= contents.len(),
            all == result_writes(id, views(contents@)),
            views(r@) == all.take(i as int),
        decreases contents.len() - i,
    {
        let w: Write = Write::AddComment {
            id,
            content: contents[i].clone(),
            kind: RESULT_KIND.to_owned(),
        };
        proof {
            views_push(r@, w);
        }
        r.push(w);
        assert(all.take(i as int).push(w@) == all.take(i + 1));
        i = i + 1;
    }
    assert(all.take(i as int) == all);
    r
}

// --- submissions ---------------------------------------------------------------

/// How far a submission has come.
#[derive(Debug, PartialEq, Eq)]
pub enum SubmitPhase {
    /// Looking for an open issue that was made for the same request.
    FindOpen,
    /// Looking for a closed one.
    FindClosed,
    /// Creating the issue.
    Create,
    /// Labelling the issue `id`.
    Label { id: i64 },
    /// Recording the attachments.
    Attach { id: i64 },
    /// Commenting on how the recording went.
    Note { id: i64, text: String },
    /// The result is known.
    Finished(Result<i64, String>),
}

/// The contents of [`SubmitPhase`].
#[verifier::ext_equal]
pub enum SubmitPhaseView {
    FindOpen,
    FindClosed,
    Create,
    Label { id: i64 },
    Attach { id: i64 },
    Note { id: i64, text: Seq<char> },
    Finished(Result<i64, Seq<char>>),
}

impl View for SubmitPhase {
    type V = SubmitPhaseView;

    open spec fn view(&self) -> SubmitPhaseView {
        match self {
            SubmitPhase::FindOpen => SubmitPhaseView::FindOpen,
            SubmitPhase::FindClosed => SubmitPhaseView::FindClosed,
            SubmitPhase::Create => SubmitPhaseView::Create,
            SubmitPhase::Label { id } => SubmitPhaseView::Label { id: *id },
            SubmitPhase::Attach { id } => SubmitPhaseView::Attach { id: *id },
            SubmitPhase::Note { id, text } => SubmitPhaseView::Note { id: *id, text: text@ },
            SubmitPhase::Finished(r) => SubmitPhaseView::Finished(outcome_view(*r)),
        }
    }
}

/// A submission under way.
#[derive(Debug, PartialEq, Eq)]
pub struct SubmitTask {
    pub submit: SubmitIssue,
    /// Where the repository lies.
    pub repo: PathName,
    pub phase: SubmitPhase,
}

/// The contents of [`SubmitTask`].
#[verifier::ext_equal]
pub struct SubmitTaskView {
    pub submit: SubmitIssueView,
    pub repo: Seq<u8>,
    pub phase: SubmitPhaseView,
}

impl View for SubmitTask {
    type V = SubmitTaskView;

    open spec fn view(&self) -> SubmitTaskView {
        SubmitTaskView { submit: self.submit@, repo: self.repo@, phase: self.phase@ }
    }
}

/// What a submission asks for.
#[derive(Debug, PartialEq, Eq)]
pub enum SubmitAction {
    /// An operation on the database.
    Store(StoreOp),
    /// Carrying out this recording of the attachments. Answered with
    /// `Materialized`.
    Materialize(MaterializeTask),
    /// Nothing more: this is the result.
    Return(Result<i64, String>),
}

/// The contents of [`SubmitAction`].
#[verifier::ext_equal]
pub enum SubmitActionView {
    Store(StoreOpView),
    Materialize(MaterializeTaskView),
    Return(Result<i64, Seq<char>>),
}

impl View for SubmitAction {
    type V = SubmitActionView;

    open spec fn view(&self) -> SubmitActionView {
        match self {
            SubmitAction::Store(op) => SubmitActionView::Store(op@),
            SubmitAction::Materialize(t) => SubmitActionView::Materialize(t@),
            SubmitAction::Return(r) => SubmitActionView::Return(outcome_view(*r)),
        }
    }
}

/// What came of the action.
#[derive(Debug, PartialEq, Eq)]
pub enum SubmitReply {
    /// The database's reply.
    Store(StoreReply),
    /// The commit, or why there is none.
    Materialized(Result<MaterializedAttachment, String>),
}

/// The contents of [`SubmitReply`].
#[verifier::ext_equal]
pub enum SubmitReplyView {
    Store(StoreReplyView),
    Materialized(Result<MaterializedView, Seq<char>>),
}

impl View for SubmitReply {
    type V = SubmitReplyView;

    open spec fn view(&self) -> SubmitReplyView {
        match self {
            SubmitReply::Store(r) => SubmitReplyView::Store(r@),
            SubmitReply::Materialized(Ok(rec)) => SubmitReplyView::Materialized(Ok(rec@)),
            SubmitReply::Materialized(Err(e)) => SubmitReplyView::Materialized(Err(e@)),
        }
    }
}

/// The operation that creates the inbound issue.
pub open spec fn creation(submit: SubmitIssueView) -> StoreOpView {
    StoreOpView::Create {
        title: submit.title,
        body: Some(submit.body + ANSWER_INSTRUCTION_FOOTER@),
        priority: INBOUND_PRIORITY@,
    }
}

/// The comment for attachments that could not be recorded.
pub open spec fn failed_note(e: Seq<char>) -> Seq<char> {
    "crossbridge: failed to materialize attachments: "@ + e
}

/// What the task asks for.
pub open spec fn submit_action(t: SubmitTaskView) -> SubmitActionView {
    match t.phase {
        SubmitPhaseView::FindOpen => SubmitActionView::Store(
            StoreOpView::List { closed: false, label: ref_text(t.submit.source_uuid) },
        ),
        SubmitPhaseView::FindClosed => SubmitActionView::Store(
            StoreOpView::List { closed: true, label: ref_text(t.submit.source_uuid) },
        ),
        SubmitPhaseView::Create => SubmitActionView::Store(creation(t.submit)),
        SubmitPhaseView::Label { id } => SubmitActionView::Store(
            StoreOpView::Transact { writes: label_writes(id, inbound_labels(t.submit)) },
        ),
        SubmitPhaseView::Attach { .. } => SubmitActionView::Materialize(
            recording(t.repo, t.submit.attachments),
        ),
        SubmitPhaseView::Note { id, text } => SubmitActionView::Store(
            StoreOpView::Apply {
                writes: seq![WriteView::AddComment { id, content: text, kind: NOTE_KIND@ }],
            },
        ),
        SubmitPhaseView::Finished(r) => SubmitActionView::Return(r),
    }
}

/// The failure of a search by label.
pub open spec fn listing_failure(label: Seq<char>, e: Seq<char>) -> Seq<char> {
    "listing issues by label "@ + label + ": "@ + e
}

/// Where the task stands after a reply. A reply of a kind that was not asked for
/// changes nothing.
pub open spec fn submit_next(t: SubmitTaskView, reply: SubmitReplyView) -> SubmitPhaseView {
    match (t.phase, reply) {
        (SubmitPhaseView::FindOpen, SubmitReplyView::Store(StoreReplyView::Issues(v))) => if v.len()
            > 0 {
            SubmitPhaseView::Finished(Ok(v[0].id))
        } else {
            SubmitPhaseView::FindClosed
        },
        (SubmitPhaseView::FindClosed, SubmitReplyView::Store(StoreReplyView::Issues(v))) => if v.len()
            > 0 {
            SubmitPhaseView::Finished(Ok(v[0].id))
        } else {
            SubmitPhaseView::Create
        },
        (SubmitPhaseView::FindOpen, SubmitReplyView::Store(StoreReplyView::Failed(e))) => {
            SubmitPhaseView::Finished(Err(listing_failure(ref_text(t.submit.source_uuid), e)))
        },
        (SubmitPhaseView::FindClosed, SubmitReplyView::Store(StoreReplyView::Failed(e))) => {
            SubmitPhaseView::Finished(Err(listing_failure(ref_text(t.submit.source_uuid), e)))
        },
        (SubmitPhaseView::Create, SubmitReplyView::Store(StoreReplyView::Created(id))) => {
            SubmitPhaseView::Label { id }
        },
        (SubmitPhaseView::Create, SubmitReplyView::Store(StoreReplyView::Failed(e))) => {
            SubmitPhaseView::Finished(Err("creating local issue: "@ + e))
        },
        (SubmitPhaseView::Label { id }, SubmitReplyView::Store(StoreReplyView::Done)) => {
            if t.submit.attachments.len() > 0 {
                SubmitPhaseView::Attach { id }
            } else {
                SubmitPhaseView::Finished(Ok(id))
            }
        },
        (SubmitPhaseView::Label { id }, SubmitReplyView::Store(StoreReplyView::Failed(e))) => {
            SubmitPhaseView::Finished(Err("applying labels: "@ + e))
        },
        (SubmitPhaseView::Attach { id }, SubmitReplyView::Materialized(Ok(rec))) => {
            SubmitPhaseView::Note { id, text: comment_text(rec) }
        },
        (SubmitPhaseView::Attach { id }, SubmitReplyView::Materialized(Err(e))) => {
            SubmitPhaseView::Note { id, text: failed_note(e) }
        },
        (SubmitPhaseView::Note { id, text }, SubmitReplyView::Store(StoreReplyView::Done)) => {
            SubmitPhaseView::Finished(Ok(id))
        },
        (SubmitPhaseView::Note { id, text }, SubmitReplyView::Store(StoreReplyView::Failed(e))) => {
            SubmitPhaseView::Finished(Ok(id))
        },
        _ => t.phase,
    }
}

/// Starts carrying out a submission to the repository at `repo_path`.
///
/// An issue that already carries `xb-ref:<source_uuid>` is returned as it is:
/// nothing is created, labelled or attached a second time.
pub fn handle_submit(submit: SubmitIssue, repo_path: PathName) -> (t: SubmitTask)
    ensures
        t@ == (SubmitTaskView {
            submit: submit@,
            repo: repo_path@,
            phase: SubmitPhaseView::FindOpen,
        }),
{
    SubmitTask { submit, repo: repo_path, phase: SubmitPhase::FindOpen }
}

impl SubmitTask {
    /// What to do next.
    pub fn current(&self) -> (a: SubmitAction)
        ensures
            a@ == submit_action(self@),
    {
        match &self.phase {
            SubmitPhase::FindOpen => SubmitAction::Store(
                StoreOp::List {
                    closed: false,
                    label: ref_label(self.submit.source_uuid.as_str()),
                },
            ),
            SubmitPhase::FindClosed => SubmitAction::Store(
                StoreOp::List {
                    closed: true,
                    label: ref_label(self.submit.source_uuid.as_str()),
                },
            ),
            SubmitPhase::Create => SubmitAction::Store(
                StoreOp::Create {
                    title: self.submit.title.clone(),
                    body: Some(cat2(self.submit.body.as_str(), ANSWER_INSTRUCTION_FOOTER)),
                    priority: INBOUND_PRIORITY.to_owned(),
                },
            ),
            SubmitPhase::Label { id } => SubmitAction::Store(
                StoreOp::Transact {
                    writes: make_label_writes(*id, &make_inbound_labels(&self.submit)),
                },
            ),
            SubmitPhase::Attach { .. } => SubmitAction::Materialize(
                materialize(self.repo.copy(), copy_attachments(&self.submit.attachments)),
            ),
            SubmitPhase::Note { id, text } => {
                let mut writes: Vec<Write> = Vec::new();
                writes.push(
                    Write::AddComment {
                        id: *id,
                        content: text.clone(),
                        kind: NOTE_KIND.to_owned(),
                    },
                );
                assert(views(writes@) =~= seq![
                    WriteView::AddComment { id: *id, content: text@, kind: NOTE_KIND@ },
                ]);
                SubmitAction::Store(StoreOp::Apply { writes })
            },
            SubmitPhase::Finished(r) => SubmitAction::Return(copy_outcome(r)),
        }
    }

    /// Goes on with what came of [`SubmitTask::current`].
    pub fn resume(&mut self, reply: SubmitReply)
        ensures
            final(self)@ == (SubmitTaskView {
                submit: old(self)@.submit,
                repo: old(self)@.repo,
                phase: submit_next(old(self)@, reply@),
            }),
    {
        match reply {
            SubmitReply::Store(r) => self.store_replied(r),
            SubmitReply::Materialized(m) => {
                if let SubmitPhase::Attach { id } = &self.phase {
                    let id: i64 = *id;
                    let text: String = match m {
                        Ok(rec) => format_comment(&rec),
                        Err(e) => cat2(
                            "crossbridge: failed to materialize attachments: ",
                            e.as_str(),
                        ),
                    };
                    self.phase = SubmitPhase::Note { id, text };
                }
            },
        }
    }

    fn store_replied(&mut self, reply: StoreReply)
        ensures
            final(self)@ == (SubmitTaskView {
                submit: old(self)@.submit,
                repo: old(self)@.repo,
                phase: submit_next(old(self)@, SubmitReplyView::Store(reply@)),
            }),
    {
        let next: SubmitPhase = match (&self.phase, reply) {
            (SubmitPhase::FindOpen, StoreReply::Issues(v)) => if v.len() > 0 {
                SubmitPhase::Finished(Ok(v[0].id))
            } else {
                SubmitPhase::FindClosed
            },
            (SubmitPhase::FindClosed, StoreReply::Issues(v)) => if v.len() > 0 {
                SubmitPhase::Finished(Ok(v[0].id))
            } else {
                SubmitPhase::Create
            },
            (SubmitPhase::FindOpen, StoreReply::Failed(e)) => {
                let label: String = ref_label(self.submit.source_uuid.as_str());
                SubmitPhase::Finished(Err(listing_failed(label.as_str(), e.as_str())))
            },
            (SubmitPhase::FindClosed, StoreReply::Failed(e)) => {
                let label: String = ref_label(self.submit.source_uuid.as_str());
                SubmitPhase::Finished(Err(listing_failed(label.as_str(), e.as_str())))
            },
            (SubmitPhase::Create, StoreReply::Created(id)) => SubmitPhase::Label { id },
            (SubmitPhase::Create, StoreReply::Failed(e)) => SubmitPhase::Finished(
                Err(cat2("creating local issue: ", e.as_str())),
            ),
            (SubmitPhase::Label { id }, StoreReply::Done) => {
                if self.submit.attachments.len() > 0 {
                    SubmitPhase::Attach { id: *id }
                } else {
                    SubmitPhase::Finished(Ok(*id))
                }
            },
            (SubmitPhase::Label { id }, StoreReply::Failed(e)) => SubmitPhase::Finished(
                Err(cat2("applying labels: ", e.as_str())),
            ),
            (SubmitPhase::Note { id, text }, StoreReply::Done) => SubmitPhase::Finished(Ok(*id)),
            (SubmitPhase::Note { id, text }, StoreReply::Failed(e)) => SubmitPhase::Finished(
                Ok(*id),
            ),
            _ => {
                return;
            },
        };
        self.phase = next;
    }
}

/// The failure of a search by label.
fn listing_failed(label: &str, e: &str) -> (r: String)
    ensures
        r@ == listing_failure(label@, e@),
{
    cat4("listing issues by label ", label, ": ", e)
}

// --- answers -------------------------------------------------------------------

/// A forwarded comment: the answering peer and what it said.
pub open spec fn from_peer(peer: Seq<char>, content: Seq<char>) -> Seq<char> {
    "[from "@ + peer + "] "@ + content
}

/// Makes a forwarded comment.
pub fn make_from_peer(peer: &str, content: &str) -> (r: String)
    ensures
        r@ == from_peer(peer@, content@),
{
    cat4("[from ", peer, "] ", content)
}

/// The contents of comments.
pub open spec fn contents(comments: Seq<CommentView>) -> Seq<Seq<char>> {
    Seq::new(comments.len(), |i: int| comments[i].content)
}

/// What is forwarded of an answer: its comments of the kind `result`, marked with
/// the peer, each once, without those that are already among `existing`.
pub open spec fn forwarded(
    peer: Seq<char>,
    comments: Seq<AnswerCommentView>,
    existing: Seq<CommentView>,
) -> Seq<Seq<char>>
    decreases comments.len(),
{
    if comments.len() == 0 {
        Seq::empty()
    } else {
        let front = forwarded(peer, comments.drop_last(), existing);
        let text = from_peer(peer, comments.last().content);
        if comments.last().kind == RESULT_KIND@ && !contents(existing).contains(text)
            && !front.contains(text) {
            front.push(text)
        } else {
            front
        }
    }
}

/// True when one of the comments says `text`.
pub fn is_said(comments: &Vec<Comment>, text: &str) -> (r: bool)
    ensures
        r == contents(views(comments@)).contains(text@),
{
    let ghost said = contents(views(comments@));
    let mut i: usize = 0;
    while i < comments.len()
        invariant
            i <= comments.len(),
            said == contents(views(comments@)),
            forall|j: int| 0 <= j < i ==> said[j] != text@,
        decreases comments.len() - i,
    {
        if same_text(comments[i].content.as_str(), text) {
            assert(said[i as int] == text@);
            return true;
        }
        i = i + 1;
    }
    false
}

/// Makes what is forwarded of an answer.
pub(crate) fn make_forwarded(
    peer: &str,
    comments: &Vec<AnswerComment>,
    existing: &Vec<Comment>,
) -> (r: Vec<String>)
    ensures
        views(r@) == forwarded(peer@, views(comments@), views(existing@)),
{
    let mut r: Vec<String> = Vec::new();
    let ghost all = views(comments@);
    let mut i: usize = 0;
    assert(views(r@) == forwarded(peer@, all.take(0), views(existing@)));
    while i < comments.len()
        invariant
            i <= comments.len(),
            all == views(comments@),
            views(r@) == forwarded(peer@, all.take(i as int), views(existing@)),
        decreases comments.len() - i,
    {
        assert(all.take(i + 1).drop_last() == all.take(i as int));
        assert(all.take(i + 1).last() == comments@[i as int]@);
        if same_text(comments[i].kind.as_str(), RESULT_KIND) {
            let text: String = make_from_peer(peer, comments[i].content.as_str());
            let already: bool = has(r.as_slice(), text.as_str());
            if !already && !is_said(existing, text.as_str()) {
                proof {
                    views_push(r@, text);
                }
                r.push(text);
            }
        }
        i = i + 1;
    }
    assert(all.take(i as int) == all);
    r
}

/// The comments of the kind `result`, as they travel with an answer.
pub open spec fn result_comments(comments: Seq<CommentView>) -> Seq<AnswerCommentView>
    decreases comments.len(),
{
    if comments.len() == 0 {
        Seq::empty()
    } else {
        let front = result_comments(comments.drop_last());
        let last = comments.last();
        if last.kind == RESULT_KIND@ {
            front.push(AnswerCommentView { content: last.content, kind: last.kind })
        } else {
            front
        }
    }
}

/// Takes the comments of the kind `result`, as they travel with an answer.
pub(crate) fn make_result_comments(comments: &Vec<Comment>) -> (r: Vec<AnswerComment>)
    ensures
        views(r@) == result_comments(views(comments@)),
{
    let mut r: Vec<AnswerComment> = Vec::new();
    let ghost all = views(comments@);
    let mut i: usize = 0;
    assert(views(r@) =~= result_comments(all.take(0)));
    while i < comments.len()
        invariant
            i <= comments.len(),
            all == views(comments@),
            views(r@) == result_comments(all.take(i as int)),
        decreases comments.len() - i,
    {
        assert(all.take(i + 1).drop_last() == all.take(i as int));
        assert(all.take(i + 1).last() == comments@[i as int]@);
        if same_text(comments[i].kind.as_str(), RESULT_KIND) {
            let c: AnswerComment = AnswerComment {
                content: comments[i].content.clone(),
                kind: comments[i].kind.clone(),
            };
            proof {
                views_push(r@, c);
            }
            r.push(c);
        }
        i = i + 1;
    }
    assert(all.take(i as int) == all);
    r
}

/// How far an answer has come.
#[derive(Debug, PartialEq, Eq)]
pub enum AnswerPhase {
    /// Looking for the open issue that the answer is for.
    FindOpen,
    /// Looking for it among the closed ones.
    FindClosed,
    /// Reading the comments that issue `id` has.
    Read { id: i64 },
    /// Adding the new comments, and reading the labels, in a transaction.
    Copy { id: i64, to_copy: Vec<String> },
    /// Changing the status in the same transaction.
    Swap { id: i64, drop_pending: bool, add_resolved: bool },
    /// Loading the issue.
    Load { id: i64 },
    /// Closing the issue.
    Close { id: i64 },
    /// The result is known.
    Finished(Result<i64, String>),
}

/// The contents of [`AnswerPhase`].
#[verifier::ext_equal]
pub enum AnswerPhaseView {
    FindOpen,
    FindClosed,
    Read { id: i64 },
    Copy { id: i64, to_copy: Seq<Seq<char>> },
    Swap { id: i64, drop_pending: bool, add_resolved: bool },
    Load { id: i64 },
    Close { id: i64 },
    Finished(Result<i64, Seq<char>>),
}

impl View for AnswerPhase {
    type V = AnswerPhaseView;

    open spec fn view(&self) -> AnswerPhaseView {
        match self {
            AnswerPhase::FindOpen => AnswerPhaseView::FindOpen,
            AnswerPhase::FindClosed => AnswerPhaseView::FindClosed,
            AnswerPhase::Read { id } => AnswerPhaseView::Read { id: *id },
            AnswerPhase::Copy { id, to_copy } => AnswerPhaseView::Copy {
                id: *id,
                to_copy: views(to_copy@),
            },
            AnswerPhase::Swap { id, drop_pending, add_resolved } => AnswerPhaseView::Swap {
                id: *id,
                drop_pending: *drop_pending,
                add_resolved: *add_resolved,
            },
            AnswerPhase::Load { id } => AnswerPhaseView::Load { id: *id },
            AnswerPhase::Close { id } => AnswerPhaseView::Close { id: *id },
            AnswerPhase::Finished(r) => AnswerPhaseView::Finished(outcome_view(*r)),
        }
    }
}

/// An answer under way.
#[derive(Debug, PartialEq, Eq)]
pub struct AnswerTask {
    /// The peer that answers.
    pub peer: String,
    pub answer: SubmitAnswer,
    pub phase: AnswerPhase,
}

/// The contents of [`AnswerTask`].
#[verifier::ext_equal]
pub struct AnswerTaskView {
    pub peer: Seq<char>,
    pub answer: SubmitAnswerView,
    pub phase: AnswerPhaseView,
}

impl View for AnswerTask {
    type V = AnswerTaskView;

    open spec fn view(&self) -> AnswerTaskView {
        AnswerTaskView { peer: self.peer@, answer: self.answer@, phase: self.phase@ }
    }
}

/// What an answer asks for.
#[derive(Debug, PartialEq, Eq)]
pub enum AnswerAction {
    /// An operation on the database.
    Store(StoreOp),
    /// Nothing more: this is the result.
    Return(Result<i64, String>),
}

/// The contents of [`AnswerAction`].
#[verifier::ext_equal]
pub enum AnswerActionView {
    Store(StoreOpView),
    Return(Result<i64, Seq<char>>),
}

impl View for AnswerAction {
    type V = AnswerActionView;

    open spec fn view(&self) -> AnswerActionView {
        match self {
            AnswerAction::Store(op) => AnswerActionView::Store(op@),
            AnswerAction::Return(r) => AnswerActionView::Return(outcome_view(*r)),
        }
    }
}

/// The changes that turn `xb-status:pending` into `xb-status:resolved`, as far as
/// they are needed.
pub open spec fn swap_writes(id: i64, drop_pending: bool, add_resolved: bool) -> Seq<WriteView> {
    (if drop_pending {
        seq![WriteView::RemoveLabel { id, label: STATUS_PENDING@ }]
    } else {
        seq![]
    }) + (if add_resolved {
        seq![WriteView::AddLabel { id, label: STATUS_RESOLVED@ }]
    } else {
        seq![]
    })
}

/// What the task asks for.
pub open spec fn answer_action(t: AnswerTaskView) -> AnswerActionView {
    match t.phase {
        AnswerPhaseView::FindOpen => AnswerActionView::Store(
            StoreOpView::List { closed: false, label: ref_text(t.answer.source_uuid) },
        ),
        AnswerPhaseView::FindClosed => AnswerActionView::Store(
            StoreOpView::List { closed: true, label: ref_text(t.answer.source_uuid) },
        ),
        AnswerPhaseView::Read { id } => AnswerActionView::Store(StoreOpView::Comments { id }),
        AnswerPhaseView::Copy { id, to_copy } => AnswerActionView::Store(
            StoreOpView::Begin { writes: result_writes(id, to_copy), id },
        ),
        AnswerPhaseView::Swap { id, drop_pending, add_resolved } => AnswerActionView::Store(
            StoreOpView::Commit { writes: swap_writes(id, drop_pending, add_resolved) },
        ),
        AnswerPhaseView::Load { id } => AnswerActionView::Store(StoreOpView::Get { id }),
        AnswerPhaseView::Close { id } => AnswerActionView::Store(StoreOpView::Close { id }),
        AnswerPhaseView::Finished(r) => AnswerActionView::Return(r),
    }
}

/// Where the task stands after a failure.
pub open spec fn answer_failed(t: AnswerTaskView, e: Seq<char>) -> AnswerPhaseView {
    match t.phase {
        AnswerPhaseView::FindOpen | AnswerPhaseView::FindClosed => AnswerPhaseView::Finished(
            Err(listing_failure(ref_text(t.answer.source_uuid), e)),
        ),
        AnswerPhaseView::Read { id } => AnswerPhaseView::Finished(Err("reading comments: "@ + e)),
        AnswerPhaseView::Copy { .. } | AnswerPhaseView::Swap { .. } => AnswerPhaseView::Finished(
            Err("applying answer: "@ + e),
        ),
        AnswerPhaseView::Load { id } => AnswerPhaseView::Finished(
            Err("loading issue "@ + decimal(id as int) + ": "@ + e),
        ),
        AnswerPhaseView::Close { id } => AnswerPhaseView::Finished(
            Err("closing issue "@ + decimal(id as int) + ": "@ + e),
        ),
        AnswerPhaseView::Finished(r) => t.phase,
    }
}

/// Where the task stands after a reply. A reply of a kind that was not asked for
/// changes nothing.
pub open spec fn answer_next(t: AnswerTaskView, reply: StoreReplyView) -> AnswerPhaseView {
    match (t.phase, reply) {
        (_, StoreReplyView::Failed(e)) => answer_failed(t, e),
        (AnswerPhaseView::FindOpen, StoreReplyView::Issues(v)) => if v.len() > 0 {
            AnswerPhaseView::Read { id: v[0].id }
        } else {
            AnswerPhaseView::FindClosed
        },
        (AnswerPhaseView::FindClosed, StoreReplyView::Issues(v)) => if v.len() > 0 {
            AnswerPhaseView::Read { id: v[0].id }
        } else {
            AnswerPhaseView::Finished(
                Err("no local issue with label "@ + ref_text(t.answer.source_uuid)),
            )
        },
        (AnswerPhaseView::Read { id }, StoreReplyView::Comments(v)) => AnswerPhaseView::Copy {
            id,
            to_copy: forwarded(t.peer, t.answer.comments, v),
        },
        (AnswerPhaseView::Copy { id, to_copy }, StoreReplyView::Labels(v)) => AnswerPhaseView::Swap {
            id,
            drop_pending: v.contains(STATUS_PENDING@),
            add_resolved: !v.contains(STATUS_RESOLVED@),
        },
        (AnswerPhaseView::Swap { id, .. }, StoreReplyView::Done) => AnswerPhaseView::Load { id },
        (AnswerPhaseView::Load { id }, StoreReplyView::Found(Some(issue))) => {
            if issue.status == "closed"@ {
                AnswerPhaseView::Finished(Ok(id))
            } else {
                AnswerPhaseView::Close { id }
            }
        },
        (AnswerPhaseView::Load { id }, StoreReplyView::Found(None)) => AnswerPhaseView::Finished(
            Err("issue "@ + decimal(id as int) + " disappeared"@),
        ),
        (AnswerPhaseView::Close { id }, StoreReplyView::Done) => AnswerPhaseView::Finished(Ok(id)),
        _ => t.phase,
    }
}

/// Starts applying the answer of `peer_slug` to the outbound issue that carries
/// `xb-ref:<source_uuid>`.
///
/// Comments of the kind `result` are copied, marked with the peer, unless the
/// issue has them; `xb-status:pending` becomes `xb-status:resolved`; the issue is
/// closed. Without such an issue the result is a failure.
pub fn handle_answer(peer_slug: &str, answer: SubmitAnswer) -> (t: AnswerTask)
    ensures
        t@ == (AnswerTaskView {
            peer: peer_slug@,
            answer: answer@,
            phase: AnswerPhaseView::FindOpen,
        }),
{
    AnswerTask { peer: peer_slug.to_owned(), answer, phase: AnswerPhase::FindOpen }
}

/// Makes the changes that turn `xb-status:pending` into `xb-status:resolved`.
fn make_swap_writes(id: i64, drop_pending: bool, add_resolved: bool) -> (r: Vec<Write>)
    ensures
        views(r@) == swap_writes(id, drop_pending, add_resolved),
{
    let mut r: Vec<Write> = Vec::new();
    if drop_pending {
        r.push(Write::RemoveLabel { id, label: STATUS_PENDING.to_owned() });
    }
    if add_resolved {
        r.push(Write::AddLabel { id, label: STATUS_RESOLVED.to_owned() });
    }
    assert(views(r@) =~= swap_writes(id, drop_pending, add_resolved));
    r
}

impl AnswerTask {
    /// What to do next.
    pub fn current(&self) -> (a: AnswerAction)
        ensures
            a@ == answer_action(self@),
    {
        match &self.phase {
            AnswerPhase::FindOpen => AnswerAction::Store(
                StoreOp::List {
                    closed: false,
                    label: ref_label(self.answer.source_uuid.as_str()),
                },
            ),
            AnswerPhase::FindClosed => AnswerAction::Store(
                StoreOp::List {
                    closed: true,
                    label: ref_label(self.answer.source_uuid.as_str()),
                },
            ),
            AnswerPhase::Read { id } => AnswerAction::Store(StoreOp::Comments { id: *id }),
            AnswerPhase::Copy { id, to_copy } => AnswerAction::Store(
                StoreOp::Begin { writes: make_result_writes(*id, to_copy), id: *id },
            ),
            AnswerPhase::Swap { id, drop_pending, add_resolved } => AnswerAction::Store(
                StoreOp::Commit { writes: make_swap_writes(*id, *drop_pending, *add_resolved) },
            ),
            AnswerPhase::Load { id } => AnswerAction::Store(StoreOp::Get { id: *id }),
            AnswerPhase::Close { id } => AnswerAction::Store(StoreOp::Close { id: *id }),
            AnswerPhase::Finished(r) => AnswerAction::Return(copy_outcome(r)),
        }
    }

    /// Goes on with what came of [`AnswerTask::current`].
    pub fn resume(&mut self, reply: StoreReply)
        ensures
            final(self)@ == (AnswerTaskView {
                peer: old(self)@.peer,
                answer: old(self)@.answer,
                phase: answer_next(old(self)@, reply@),
            }),
    {
        let next: AnswerPhase = match (&self.phase, reply) {
            (_, StoreReply::Failed(e)) => match self.failed(e.as_str()) {
                Some(message) => AnswerPhase::Finished(Err(message)),
                None => {
                    return;
                },
            },
            (AnswerPhase::FindOpen, StoreReply::Issues(v)) => if v.len() > 0 {
                AnswerPhase::Read { id: v[0].id }
            } else {
                AnswerPhase::FindClosed
            },
            (AnswerPhase::FindClosed, StoreReply::Issues(v)) => if v.len() > 0 {
                AnswerPhase::Read { id: v[0].id }
            } else {
                let label: String = ref_label(self.answer.source_uuid.as_str());
                AnswerPhase::Finished(Err(cat2("no local issue with label ", label.as_str())))
            },
            (AnswerPhase::Read { id }, StoreReply::Comments(v)) => AnswerPhase::Copy {
                id: *id,
                to_copy: make_forwarded(self.peer.as_str(), &self.answer.comments, &v),
            },
            (AnswerPhase::Copy { id, to_copy }, StoreReply::Labels(v)) => {
                let resolved: bool = has(v.as_slice(), STATUS_RESOLVED);
                AnswerPhase::Swap {
                    id: *id,
                    drop_pending: has(v.as_slice(), STATUS_PENDING),
                    add_resolved: !resolved,
                }
            },
            (AnswerPhase::Swap { id, .. }, StoreReply::Done) => AnswerPhase::Load { id: *id },
            (AnswerPhase::Load { id }, StoreReply::Found(Some(issue))) => {
                if same_text(issue.status.as_str(), "closed") {
                    AnswerPhase::Finished(Ok(*id))
                } else {
                    AnswerPhase::Close { id: *id }
                }
            },
            (AnswerPhase::Load { id }, StoreReply::Found(None)) => AnswerPhase::Finished(
                Err(cat3("issue ", decimal_i64(*id).as_str(), " disappeared")),
            ),
            (AnswerPhase::Close { id }, StoreReply::Done) => AnswerPhase::Finished(Ok(*id)),
            _ => {
                return;
            },
        };
        self.phase = next;
    }

    /// The failure to return when the current operation fails with `e`.
    fn failed(&self, e: &str) -> (r: Option<String>)
        ensures
            match r {
                Some(message) => answer_failed(self@, e@) == AnswerPhaseView::Finished(
                    Err(message@),
                ),
                None => answer_failed(self@, e@) == self@.phase,
            },
    {
        match &self.phase {
            AnswerPhase::FindOpen | AnswerPhase::FindClosed => {
                let label: String = ref_label(self.answer.source_uuid.as_str());
                Some(listing_failed(label.as_str(), e))
            },
            AnswerPhase::Read { id } => Some(cat2("reading comments: ", e)),
            AnswerPhase::Copy { .. } | AnswerPhase::Swap { .. } => Some(
                cat2("applying answer: ", e),
            ),
            AnswerPhase::Load { id } => Some(
                cat4("loading issue ", decimal_i64(*id).as_str(), ": ", e),
            ),
            AnswerPhase::Close { id } => Some(
                cat4("closing issue ", decimal_i64(*id).as_str(), ": ", e),
            ),
            AnswerPhase::Finished(_) => None,
        }
    }
}

// --- connections ---------------------------------------------------------------

/// What a connection leads to.
#[derive(Debug, PartialEq, Eq)]
pub enum Dispatch {
    /// Send this response at once; whether it arrives does not matter.
    Reply(ServerResponse),
    /// Carry out a submission, and send [`response_to`] its result.
    Submit(SubmitTask),
    /// Carry out an answer, and send [`response_to`] its result.
    Answer(AnswerTask),
}

/// Decides what to do with what was read from a connection of `peer_slug` to the
/// server of the repository at `repo_path`. A frame that holds no request is
/// answered with an error.
pub fn handle_connection(
    read: Result<ClientRequest, Error>,
    peer_slug: &str,
    repo_path: &PathName,
) -> (d: Dispatch)
    ensures
        match read {
            Ok(request) => match request@ {
                ClientRequestView::Submit(s) => d matches Dispatch::Submit(t) && t@ == (
                SubmitTaskView {
                    submit: s,
                    repo: repo_path@,
                    phase: SubmitPhaseView::FindOpen,
                }),
                ClientRequestView::Answer(a) => d matches Dispatch::Answer(t) && t@ == (
                AnswerTaskView { peer: peer_slug@, answer: a, phase: AnswerPhaseView::FindOpen }),
            },
            Err(e) => d matches Dispatch::Reply(ServerResponse::Error { message }) && exists|
                cause: Seq<char>,
            | #[trigger]
                reads_as(e, cause) && message@ == "malformed request: "@ + cause,
        },
{
    match read {
        Ok(ClientRequest::Submit(submit)) => Dispatch::Submit(
            handle_submit(submit, repo_path.copy()),
        ),
        Ok(ClientRequest::Answer(answer)) => Dispatch::Answer(handle_answer(peer_slug, answer)),
        Err(e) => {
            let cause: String = e.text();
            let message: String = cat2("malformed request: ", cause.as_str());
            assert(reads_as(e, cause@));
            Dispatch::Reply(ServerResponse::Error { message })
        },
    }
}

/// The response to a request whose result is `outcome`.
pub fn response_to(outcome: Result<i64, String>) -> (r: ServerResponse)
    ensures
        r@ == (match outcome_view(outcome) {
            Ok(issue_id) => ServerResponseView::Success { issue_id },
            Err(message) => ServerResponseView::Error { message },
        }),
{
    match outcome {
        Ok(issue_id) => ServerResponse::Success { issue_id },
        Err(message) => ServerResponse::Error { message },
    }
}

/// The failure when the response to a request cannot be written.
pub fn response_failure(e: &Error) -> (r: String)
    ensures
        exists|cause: Seq<char>| #[trigger]
            reads_as(*e, cause) && r@ == "writing response frame: "@ + cause,
{
    let cause: String = e.text();
    assert(reads_as(*e, cause@));
    cat2("writing response frame: ", cause.as_str())
}

} // verus!
