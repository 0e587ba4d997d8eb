//! What submissions and answers leave behind in the database.

use vstd::prelude::*;

use crate::attachment::{comment_text, MaterializedView};
use crate::handler::{
    answer_action, answer_next, contents, extended, failed_note, forwarded, from_peer,
    inbound_labels, label_writes, own_labels, result_writes, submit_action, submit_next,
    swap_writes, AnswerActionView, AnswerPhaseView, AnswerTaskView, SubmitActionView,
    SubmitPhaseView, SubmitReplyView, SubmitTaskView, ANSWER_INSTRUCTION_FOOTER, INBOUND_PRIORITY,
    NOTE_KIND, RESULT_KIND,
};
use crate::labels::{ref_text, travels, STATUS_PENDING, STATUS_RESOLVED};
use crate::messages::{AnswerCommentView, SubmitAnswerView, SubmitIssueView};
use crate::model::{
    with_label, with_label_contains, with_labels, with_labels_contains, without_absent,
    without_label, without_label_contains, Record, Store,
};
use crate::store::{CommentView, WriteView};

verus! {

broadcast use vstd::seq_lib::group_seq_properties;

// --- running a task against the model ------------------------------------------

/// A submission carried on for at most `fuel` operations, where recording the
/// attachments comes out as `m`.
pub open spec fn submit_run(
    s: Store,
    t: SubmitTaskView,
    m: Result<MaterializedView, Seq<char>>,
    fuel: nat,
) -> (Store, SubmitTaskView)
    decreases fuel,
{
    if fuel == 0 {
        (s, t)
    } else {
        match submit_action(t) {
            SubmitActionView::Return(_) => (s, t),
            SubmitActionView::Store(op) => {
                let (s2, reply) = s.perform(op);
                let phase = submit_next(t, SubmitReplyView::Store(reply));
                submit_run(s2, SubmitTaskView { phase, ..t }, m, (fuel - 1) as nat)
            },
            SubmitActionView::Materialize(_) => {
                let phase = submit_next(t, SubmitReplyView::Materialized(m));
                submit_run(s, SubmitTaskView { phase, ..t }, m, (fuel - 1) as nat)
            },
        }
    }
}

/// A submission carried to its end.
pub open spec fn submitted(
    s: Store,
    submit: SubmitIssueView,
    repo: Seq<u8>,
    m: Result<MaterializedView, Seq<char>>,
) -> (Store, SubmitPhaseView) {
    let (s2, t) = submit_run(
        s,
        SubmitTaskView { submit, repo, phase: SubmitPhaseView::FindOpen },
        m,
        7,
    );
    (s2, t.phase)
}

/// An answer carried on for at most `fuel` operations.
pub open spec fn answer_run(s: Store, t: AnswerTaskView, fuel: nat) -> (Store, AnswerTaskView)
    decreases fuel,
{
    if fuel == 0 {
        (s, t)
    } else {
        match answer_action(t) {
            AnswerActionView::Return(_) => (s, t),
            AnswerActionView::Store(op) => {
                let (s2, reply) = s.perform(op);
                let phase = answer_next(t, reply);
                answer_run(s2, AnswerTaskView { phase, ..t }, (fuel - 1) as nat)
            },
        }
    }
}

/// An answer carried to its end.
pub open spec fn answered(s: Store, peer: Seq<char>, answer: SubmitAnswerView) -> (
    Store,
    AnswerPhaseView,
) {
    let (s2, t) = answer_run(
        s,
        AnswerTaskView { peer, answer, phase: AnswerPhaseView::FindOpen },
        8,
    );
    (s2, t.phase)
}

/// The issue that is found by a label: the newest open one that carries it, else
/// the newest closed one.
pub open spec fn issue_with(s: Store, label: Seq<char>) -> Option<i64> {
    let open = s.listed(false, label, s.next as int);
    let closed = s.listed(true, label, s.next as int);
    if open.len() > 0 {
        Some(open[0].id)
    } else if closed.len() > 0 {
        Some(closed[0].id)
    } else {
        None
    }
}

/// An issue is found by a label exactly when one carries it, and then that issue
/// carries it.
pub proof fn issue_with_carries(s: Store, label: Seq<char>)
    requires
        s.wf(),
    ensures
        match issue_with(s, label) {
            Some(id) => s.issues.contains_key(id) && s.issues[id].labels.contains(label),
            None => forall|id: i64| #[trigger]
                s.issues.contains_key(id) ==> !s.issues[id].labels.contains(label),
        },
{
    let n = s.next as int;
    s.listed_carry(false, label, n);
    s.listed_carry(true, label, n);
    s.listed_empty(false, label, n);
    s.listed_empty(true, label, n);
    if issue_with(s, label) is None {
        assert forall|id: i64| #[trigger] s.issues.contains_key(id) implies !s.issues[id].labels.contains(
            label,
        ) by {
            assert(!s.carries(id, s.issues[id].closed, label));
        }
    }
}

// --- series of changes ---------------------------------------------------------

/// Adding labels one by one adds them all.
pub proof fn label_writes_effect(s: Store, id: i64, labels: Seq<Seq<char>>)
    requires
        s.issues.contains_key(id),
    ensures
        s.all_written(label_writes(id, labels)) == s.relabelled(
            id,
            with_labels(s.issues[id].labels, labels),
        ),
    decreases labels.len(),
{
    let ws = label_writes(id, labels);
    if labels.len() == 0 {
        assert(s.issues.insert(id, s.issues[id]) =~= s.issues);
        assert(s.relabelled(id, s.issues[id].labels) =~= s);
    } else {
        label_writes_effect(s, id, labels.drop_last());
        assert(ws.drop_last() =~= label_writes(id, labels.drop_last()));
        let mid = s.all_written(ws.drop_last());
        assert(ws.last() == WriteView::AddLabel { id, label: labels.last() });
        assert(mid.written(ws.last()) =~= s.relabelled(
            id,
            with_labels(s.issues[id].labels, labels),
        ));
    }
}

/// Comments of the kind `result` with the given contents.
pub open spec fn results(texts: Seq<Seq<char>>) -> Seq<CommentView> {
    Seq::new(texts.len(), |i: int| CommentView { content: texts[i], kind: RESULT_KIND@ })
}

/// The database with comments appended to issue `id`.
pub open spec fn with_comments(s: Store, id: i64, more: Seq<CommentView>) -> Store {
    let r = s.issues[id];
    Store { issues: s.issues.insert(id, Record { comments: r.comments + more, ..r }), ..s }
}

/// Adding comments one by one appends them in order.
pub proof fn result_writes_effect(s: Store, id: i64, texts: Seq<Seq<char>>)
    requires
        s.issues.contains_key(id),
    ensures
        s.all_written(result_writes(id, texts)) == with_comments(s, id, results(texts)),
    decreases texts.len(),
{
    let ws = result_writes(id, texts);
    let r = s.issues[id];
    if texts.len() == 0 {
        assert(r.comments + results(texts) =~= r.comments);
        assert(s.issues.insert(id, r) =~= s.issues);
        assert(with_comments(s, id, results(texts)) =~= s);
    } else {
        result_writes_effect(s, id, texts.drop_last());
        assert(ws.drop_last() =~= result_writes(id, texts.drop_last()));
        let mid = s.all_written(ws.drop_last());
        let last = WriteView::AddComment { id, content: texts.last(), kind: RESULT_KIND@ };
        assert(ws.last() == last);
        assert((r.comments + results(texts.drop_last())).push(
            CommentView { content: texts.last(), kind: RESULT_KIND@ },
        ) =~= r.comments + results(texts));
        assert(mid.written(last) =~= with_comments(s, id, results(texts)));
    }
}

/// What a list of labels keeps when it is extended.
pub proof fn extended_keeps(base: Seq<Seq<char>>, more: Seq<Seq<char>>, x: Seq<char>)
    ensures
        extended(base, more).contains(x) <==> (base.contains(x) || (more.contains(x) && travels(
            x,
        ))),
    decreases more.len(),
{
    if more.len() > 0 {
        let front = more.drop_last();
        let so_far = extended(base, front);
        extended_keeps(base, front, x);
        assert(more.contains(x) <==> (front.contains(x) || x == more.last())) by {
            if front.contains(x) {
                assert(more[front.index_of(x)] == x);
            }
            assert(more[more.len() - 1] == more.last());
            if more.contains(x) && x != more.last() {
                assert(front[more.index_of(x)] == x);
            }
        }
        assert(so_far.push(more.last()).contains(x) <==> (so_far.contains(x) || x == more.last()))
            by {
            if so_far.contains(x) {
                assert(so_far.push(more.last())[so_far.index_of(x)] == x);
            }
            assert(so_far.push(more.last())[so_far.len() as int] == more.last());
        }
    }
}

// --- submissions ---------------------------------------------------------------

/// The comments that a submission's attachments leave.
pub open spec fn notes(
    submit: SubmitIssueView,
    m: Result<MaterializedView, Seq<char>>,
) -> Seq<CommentView> {
    if submit.attachments.len() == 0 {
        Seq::empty()
    } else {
        let text = match m {
            Ok(rec) => comment_text(rec),
            Err(e) => failed_note(e),
        };
        seq![CommentView { content: text, kind: NOTE_KIND@ }]
    }
}

/// The issue that a submission creates.
pub open spec fn inbound_record(
    s: Store,
    submit: SubmitIssueView,
    m: Result<MaterializedView, Seq<char>>,
) -> Record {
    Record {
        title: submit.title,
        body: Some(submit.body + ANSWER_INSTRUCTION_FOOTER@),
        priority: INBOUND_PRIORITY@,
        closed: false,
        uuid: (s.minted)(s.next),
        labels: with_labels(Seq::empty(), inbound_labels(submit)),
        comments: notes(submit, m),
    }
}

/// What a submission does: it returns the issue that was made for the same
/// request, open or closed, and changes nothing; or, when there is none, it makes
/// exactly one new issue and returns it, whether or not the attachments could be
/// recorded.
#[verifier::rlimit(40)]
pub proof fn submission_effect(
    s: Store,
    submit: SubmitIssueView,
    repo: Seq<u8>,
    m: Result<MaterializedView, Seq<char>>,
)
    requires
        s.wf(),
    ensures
        match issue_with(s, ref_text(submit.source_uuid)) {
            Some(id) => submitted(s, submit, repo, m) == (s, SubmitPhaseView::Finished(Ok(id))),
            None => submitted(s, submit, repo, m) == (
                Store {
                    issues: s.issues.insert(s.next, inbound_record(s, submit, m)),
                    next: (s.next + 1) as i64,
                    minted: s.minted,
                },
                SubmitPhaseView::Finished(Ok(s.next)),
            ),
        },
{
    reveal_with_fuel(submit_run, 8);
    let label = ref_text(submit.source_uuid);
    if issue_with(s, label) is None {
        let id = s.next;
        let body = Some(submit.body + ANSWER_INSTRUCTION_FOOTER@);
        let s1 = s.created(submit.title, body, INBOUND_PRIORITY@);
        let s2 = s1.all_written(label_writes(id, inbound_labels(submit)));
        label_writes_effect(s1, id, inbound_labels(submit));
        let end = Store {
            issues: s.issues.insert(s.next, inbound_record(s, submit, m)),
            next: (s.next + 1) as i64,
            minted: s.minted,
        };
        if submit.attachments.len() == 0 {
            assert(s2 =~= end);
        } else {
            let text = notes(submit, m)[0].content;
            let w = WriteView::AddComment { id, content: text, kind: NOTE_KIND@ };
            assert(seq![w].drop_last() =~= Seq::<WriteView>::empty());
            reveal_with_fuel(Store::all_written, 2);
            let s3 = s2.all_written(seq![w]);
            assert(Seq::<CommentView>::empty().push(CommentView { content: text, kind: NOTE_KIND@ })
                =~= notes(submit, m));
            assert(s3 =~= end);
        }
    }
}

/// The inbound issue carries the label of its request.
pub proof fn inbound_record_is_labelled(
    s: Store,
    submit: SubmitIssueView,
    m: Result<MaterializedView, Seq<char>>,
)
    ensures
        inbound_record(s, submit, m).labels.contains(ref_text(submit.source_uuid)),
{
    let label = ref_text(submit.source_uuid);
    let base = own_labels(submit.source_slug, submit.source_uuid);
    assert(base[4] == label);
    extended_keeps(base, submit.labels, label);
    with_labels_contains(Seq::empty(), inbound_labels(submit), label);
}

/// Submitting is idempotent: a second submission for the same request returns the
/// same issue and changes nothing, whatever title, body, labels and attachments it
/// comes with.
pub proof fn submission_is_idempotent(
    s: Store,
    first: SubmitIssueView,
    second: SubmitIssueView,
    repo: Seq<u8>,
    m1: Result<MaterializedView, Seq<char>>,
    m2: Result<MaterializedView, Seq<char>>,
)
    requires
        s.wf(),
        s.next + 1 < i64::MAX,
        first.source_uuid == second.source_uuid,
    ensures
        submitted(submitted(s, first, repo, m1).0, second, repo, m2)
            == submitted(s, first, repo, m1),
{
    let label = ref_text(first.source_uuid);
    submission_effect(s, first, repo, m1);
    let s1 = submitted(s, first, repo, m1).0;
    if issue_with(s, label) is None {
        inbound_record_is_labelled(s, first, m1);
        assert(s1.carries(s.next, false, label));
        assert(s1.listed(false, label, s1.next as int)[0].id == s.next);
        assert(issue_with(s1, label) == Some(s.next));
        created_wf(s, inbound_record(s, first, m1));
    }
    submission_effect(s1, second, repo, m2);
}

/// A database with one issue more is in order.
pub proof fn created_wf(s: Store, r: Record)
    requires
        s.wf(),
        s.next + 1 < i64::MAX,
        r.uuid == (s.minted)(s.next),
    ensures
        (Store {
            issues: s.issues.insert(s.next, r),
            next: (s.next + 1) as i64,
            minted: s.minted,
        }).wf(),
{
}

// --- answers -------------------------------------------------------------------

/// The labels of an issue whose answer has come.
pub open spec fn resolved(labels: Seq<Seq<char>>) -> Seq<Seq<char>> {
    with_label(without_label(labels, STATUS_PENDING@), STATUS_RESOLVED@)
}

/// An issue once an answer has been applied to it.
pub open spec fn answered_record(r: Record, peer: Seq<char>, answer: SubmitAnswerView) -> Record {
    Record {
        closed: true,
        labels: resolved(r.labels),
        comments: r.comments + results(forwarded(peer, answer.comments, r.comments)),
        ..r
    }
}

/// The status labels are different texts.
pub proof fn statuses_differ()
    ensures
        STATUS_PENDING@ != STATUS_RESOLVED@,
{
    reveal_strlit("xb-status:pending");
    reveal_strlit("xb-status:resolved");
    assert(STATUS_PENDING@.len() != STATUS_RESOLVED@.len());
}

/// The changes of a swap leave the resolved labels.
proof fn swap_effect(s: Store, id: i64)
    requires
        s.issues.contains_key(id),
    ensures
        ({
            let labels = s.issues[id].labels;
            s.all_written(
                swap_writes(
                    id,
                    labels.contains(STATUS_PENDING@),
                    !labels.contains(STATUS_RESOLVED@),
                ),
            ) == s.relabelled(id, resolved(labels))
        }),
{
    let labels = s.issues[id].labels;
    let drop_pending = labels.contains(STATUS_PENDING@);
    let add_resolved = !labels.contains(STATUS_RESOLVED@);
    let ws = swap_writes(id, drop_pending, add_resolved);
    statuses_differ();
    without_label_contains(labels, STATUS_PENDING@, STATUS_RESOLVED@);
    if !drop_pending {
        without_absent(labels, STATUS_PENDING@);
    }
    let rem = WriteView::RemoveLabel { id, label: STATUS_PENDING@ };
    let set = WriteView::AddLabel { id, label: STATUS_RESOLVED@ };
    reveal_with_fuel(Store::all_written, 3);
    if drop_pending && add_resolved {
        assert(ws =~= seq![rem, set]);
        assert(ws.drop_last() =~= seq![rem]);
        assert(ws.drop_last().drop_last() =~= Seq::<WriteView>::empty());
        assert(ws.last() == set && ws.drop_last().last() == rem);
    } else if drop_pending {
        assert(ws =~= seq![rem]);
        assert(ws.drop_last() =~= Seq::<WriteView>::empty());
    } else if add_resolved {
        assert(ws =~= seq![set]);
        assert(ws.drop_last() =~= Seq::<WriteView>::empty());
    } else {
        assert(ws =~= Seq::<WriteView>::empty());
    }
    assert(s.all_written(ws) =~= s.relabelled(id, resolved(labels)));
}

/// What an answer does: without an issue that carries the request's label it
/// fails and changes nothing; otherwise it returns that issue, to which the new
/// result comments have been appended, whose status is resolved and which is
/// closed, and changes nothing else.
#[verifier::rlimit(40)]
pub proof fn answer_effect(s: Store, peer: Seq<char>, answer: SubmitAnswerView)
    requires
        s.wf(),
    ensures
        match issue_with(s, ref_text(answer.source_uuid)) {
            Some(id) => s.issues.contains_key(id) && answered(s, peer, answer) == (
                Store {
                    issues: s.issues.insert(id, answered_record(s.issues[id], peer, answer)),
                    ..s
                },
                AnswerPhaseView::Finished(Ok(id)),
            ),
            None => answered(s, peer, answer) == (
                s,
                AnswerPhaseView::Finished(
                    Err("no local issue with label "@ + ref_text(answer.source_uuid)),
                ),
            ),
        },
{
    reveal_with_fuel(answer_run, 9);
    let label = ref_text(answer.source_uuid);
    issue_with_carries(s, label);
    if let Some(id) = issue_with(s, label) {
        let r = s.issues[id];
        let texts = forwarded(peer, answer.comments, r.comments);
        result_writes_effect(s, id, texts);
        let s1 = s.all_written(result_writes(id, texts));
        assert(s1.issues[id].labels == r.labels);
        swap_effect(s1, id);
        let s2 = s1.relabelled(id, resolved(r.labels));
        let end = Store {
            issues: s.issues.insert(id, answered_record(r, peer, answer)),
            ..s
        };
        reveal_strlit("open");
        reveal_strlit("closed");
        assert("open"@.len() != "closed"@.len());
        if r.closed {
            assert(s2 =~= end);
        } else {
            assert(s2.closed(id) =~= end);
        }
    }
}

/// True when one of the comments is a result that reads `text` once it is marked
/// with the peer.
pub open spec fn sent(peer: Seq<char>, comments: Seq<AnswerCommentView>, text: Seq<char>) -> bool {
    exists|i: int|
        0 <= i < comments.len() && (#[trigger] comments[i]).kind == RESULT_KIND@ && text
            == from_peer(peer, comments[i].content)
}

/// Exactly the results are forwarded, marked with the peer, and of these exactly
/// the ones that the issue does not have yet.
pub proof fn only_new_results_are_forwarded(
    peer: Seq<char>,
    comments: Seq<AnswerCommentView>,
    existing: Seq<CommentView>,
    text: Seq<char>,
)
    ensures
        forwarded(peer, comments, existing).contains(text) <==> (sent(peer, comments, text)
            && !contents(existing).contains(text)),
    decreases comments.len(),
{
    if comments.len() > 0 {
        let init = comments.drop_last();
        let last = comments.last();
        let front = forwarded(peer, init, existing);
        let marked = from_peer(peer, last.content);
        only_new_results_are_forwarded(peer, init, existing, text);
        if sent(peer, init, text) {
            let i = choose|i: int|
                0 <= i < init.len() && (#[trigger] init[i]).kind == RESULT_KIND@ && text
                    == from_peer(peer, init[i].content);
            assert(comments[i] == init[i]);
        }
        if sent(peer, comments, text) && !sent(peer, init, text) {
            let i = choose|i: int|
                0 <= i < comments.len() && (#[trigger] comments[i]).kind == RESULT_KIND@ && text
                    == from_peer(peer, comments[i].content);
            if i < init.len() {
                assert(init[i] == comments[i]);
            }
        }
        if last.kind == RESULT_KIND@ && text == marked {
            assert(comments[comments.len() - 1] == last);
        }
        assert(front.push(marked).contains(text) <==> (front.contains(text) || text == marked)) by {
            if front.contains(text) {
                assert(front.push(marked)[front.index_of(text)] == text);
            }
            assert(front.push(marked)[front.len() as int] == marked);
        }
    }
}

/// No comment is forwarded twice with one answer, however often the answer says it.
pub proof fn each_result_is_forwarded_once(
    peer: Seq<char>,
    comments: Seq<AnswerCommentView>,
    existing: Seq<CommentView>,
)
    ensures
        forwarded(peer, comments, existing).no_duplicates(),
    decreases comments.len(),
{
    if comments.len() > 0 {
        each_result_is_forwarded_once(peer, comments.drop_last(), existing);
    }
}

/// Once the comments have been forwarded, nothing is left to forward.
pub proof fn nothing_is_forwarded_twice(
    peer: Seq<char>,
    comments: Seq<AnswerCommentView>,
    existing: Seq<CommentView>,
)
    ensures
        forwarded(
            peer,
            comments,
            existing + results(forwarded(peer, comments, existing)),
        ).len() == 0,
{
    let texts = forwarded(peer, comments, existing);
    let now = existing + results(texts);
    let again = forwarded(peer, comments, now);
    if again.len() > 0 {
        let text = again[0];
        assert(again.contains(text));
        only_new_results_are_forwarded(peer, comments, now, text);
        only_new_results_are_forwarded(peer, comments, existing, text);
        if contents(existing).contains(text) {
            let i = contents(existing).index_of(text);
            assert(contents(now)[i] == text);
        } else {
            let i = texts.index_of(text);
            assert(contents(now)[existing.len() + i] == text);
        }
    }
}

/// A label that is there stays there when it is added.
proof fn resolved_twice(labels: Seq<Seq<char>>)
    ensures
        resolved(resolved(labels)) == resolved(labels),
{
    statuses_differ();
    let once = resolved(labels);
    with_label_contains(without_label(labels, STATUS_PENDING@), STATUS_RESOLVED@, STATUS_PENDING@);
    with_label_contains(without_label(labels, STATUS_PENDING@), STATUS_RESOLVED@, STATUS_RESOLVED@);
    without_label_contains(labels, STATUS_PENDING@, STATUS_PENDING@);
    without_absent(once, STATUS_PENDING@);
}

/// Resolving replaces the pending status by the resolved one and touches no other
/// label.
pub proof fn resolving_swaps_the_status(labels: Seq<Seq<char>>, label: Seq<char>)
    ensures
        resolved(labels).contains(label) <==> (label == STATUS_RESOLVED@ || (label
            != STATUS_PENDING@ && labels.contains(label))),
{
    with_label_contains(without_label(labels, STATUS_PENDING@), STATUS_RESOLVED@, label);
    without_label_contains(labels, STATUS_PENDING@, label);
}

/// Answering is idempotent: when the same answer comes a second time, the result
/// is the same and nothing changes, provided that only one issue carries the
/// request's label.
pub proof fn answer_is_idempotent(s: Store, peer: Seq<char>, answer: SubmitAnswerView, id: i64)
    requires
        s.wf(),
        forall|other: i64| #[trigger]
            s.issues.contains_key(other) && s.issues[other].labels.contains(
                ref_text(answer.source_uuid),
            ) ==> other == id,
    ensures
        answered(answered(s, peer, answer).0, peer, answer) == answered(s, peer, answer),
{
    let label = ref_text(answer.source_uuid);
    answer_effect(s, peer, answer);
    issue_with_carries(s, label);
    if let Some(found) = issue_with(s, label) {
        assert(found == id);
        let r = s.issues[id];
        let r1 = answered_record(r, peer, answer);
        let s1 = answered(s, peer, answer).0;
        assert(s1.issues.dom() =~= s.issues.dom());
        assert(s1.wf());
        ref_is_no_status(answer.source_uuid);
        resolving_swaps_the_status(r.labels, label);
        issue_with_carries(s1, label);
        assert(s1.issues.contains_key(id));
        assert(issue_with(s1, label) == Some(id)) by {
            if let Some(other) = issue_with(s1, label) {
                assert(s.issues.contains_key(other));
                if other != id {
                    assert(s1.issues[other] == s.issues[other]);
                }
            }
        }
        answer_effect(s1, peer, answer);
        nothing_is_forwarded_twice(peer, answer.comments, r.comments);
        resolved_twice(r.labels);
        let none = forwarded(peer, answer.comments, r1.comments);
        assert(none =~= Seq::<Seq<char>>::empty());
        assert(r1.comments + results(none) =~= r1.comments);
        assert(answered_record(r1, peer, answer) =~= r1);
        assert(s1.issues.insert(id, r1) =~= s1.issues);
    }
}

/// A reference label is no status label.
pub proof fn ref_is_no_status(uuid: Seq<char>)
    ensures
        ref_text(uuid) != STATUS_PENDING@,
        ref_text(uuid) != STATUS_RESOLVED@,
{
    reveal_strlit("xb-ref:");
    reveal_strlit("xb-status:pending");
    reveal_strlit("xb-status:resolved");
    assert(ref_text(uuid)[3] == 'r');
    assert(STATUS_PENDING@[3] == 's');
    assert(STATUS_RESOLVED@[3] == 's');
}

} // verus!
