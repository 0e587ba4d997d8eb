//! What deliveries and collections leave behind in the two databases.

use vstd::prelude::*;

use crate::collect::{
    collect_action, collect_next, collect_start, collected, CollectPhaseView, CollectTaskView,
};
use crate::config::{path_of, slugs_of, RepoView};
use crate::handler::{
    forwarded, label_writes, own_labels, result_comments, result_writes, INBOUND_PRIORITY,
    NOTE_KIND,
};
use crate::handler_laws::{
    created_wf, label_writes_effect, nothing_is_forwarded_twice, resolved, result_writes_effect,
    results, with_comments,
};
use crate::labels::{
    first_prefixed, is_status, ref_text, source_text, INBOUND, OUTBOUND, REF_PREFIX, REQUEST,
    SOURCE_PREFIX, STATUS_ANSWERED, STATUS_ERROR, STATUS_OPEN, STATUS_PENDING, STATUS_PREFIX,
    STATUS_RESOLVED, TARGET_PREFIX,
};
use crate::messages::AnswerCommentView;
use crate::model::{
    with_label, with_label_contains, with_labels, with_labels_contains, without_label,
    without_label_contains, Record, Store,
};
use crate::outbound::{
    link_writes, outbound_action, outbound_next, outbound_start, swap_label_writes, unknown_target,
    OutboundPhaseView, OutboundTaskView,
};
use crate::store::{
    CommentView, IssueView, RouteActionView, RouteOpView, StoreReplyView, WriteView,
};

verus! {

broadcast use vstd::seq_lib::group_seq_properties;

// --- running a task against the model ------------------------------------------

/// Carries out an operation on two databases, of which the other one can be
/// opened.
pub open spec fn perform_route(here: Store, there: Store, op: RouteOpView) -> (
    Store,
    Store,
    StoreReplyView,
) {
    match op {
        RouteOpView::OpenThere(_) => (here, there, StoreReplyView::Done),
        RouteOpView::Here(o) => {
            let (s, r) = here.perform(o);
            (s, there, r)
        },
        RouteOpView::There(o) => {
            let (s, r) = there.perform(o);
            (here, s, r)
        },
    }
}

/// A delivery carried on for at most `fuel` operations.
pub open spec fn outbound_run(here: Store, there: Store, t: OutboundTaskView, fuel: nat) -> (
    Store,
    Store,
    OutboundPhaseView,
)
    decreases fuel,
{
    match outbound_action(t) {
        RouteActionView::Do(op) => if fuel == 0 {
            (here, there, t.phase)
        } else {
            let (h, th, reply) = perform_route(here, there, op);
            let phase = outbound_next(t, reply);
            outbound_run(h, th, OutboundTaskView { phase, ..t }, (fuel - 1) as nat)
        },
        RouteActionView::Return(_) => (here, there, t.phase),
    }
}

/// A collection carried on for at most `fuel` operations.
pub open spec fn collect_run(here: Store, there: Store, t: CollectTaskView, fuel: nat) -> (
    Store,
    Store,
    CollectPhaseView,
)
    decreases fuel,
{
    match collect_action(t) {
        RouteActionView::Do(op) => if fuel == 0 {
            (here, there, t.phase)
        } else {
            let (h, th, reply) = perform_route(here, there, op);
            let phase = collect_next(t, reply);
            collect_run(h, th, CollectTaskView { phase, ..t }, (fuel - 1) as nat)
        },
        RouteActionView::Return(_) => (here, there, t.phase),
    }
}

/// Delivers request `id` of `here`, carried to its end.
pub open spec fn delivered(
    here: Store,
    there: Store,
    repos: Seq<RepoView>,
    slug: Seq<char>,
    id: i64,
) -> (Store, Store, OutboundPhaseView) {
    let issue = here.issue(id);
    let labels = here.labels(id);
    outbound_run(
        here,
        there,
        OutboundTaskView {
            source_slug: slug,
            issue,
            labels,
            phase: outbound_start(repos, issue, labels),
        },
        7,
    )
}

/// Collects the answer of issue `id` of `here`, carried to its end.
pub open spec fn collection(
    here: Store,
    there: Store,
    repos: Seq<RepoView>,
    slug: Seq<char>,
    id: i64,
) -> (Store, Store, CollectPhaseView) {
    collect_run(
        here,
        there,
        CollectTaskView {
            this_slug: slug,
            id,
            phase: collect_start(repos, id, here.labels(id)),
        },
        8,
    )
}

// --- series of changes ---------------------------------------------------------

/// The labels after one was turned into another.
pub open spec fn swapped(labels: Seq<Seq<char>>, was: Seq<char>, now: Seq<char>) -> Seq<Seq<char>> {
    with_label(without_label(labels, was), now)
}

proof fn two_writes(s: Store, a: WriteView, b: WriteView)
    ensures
        s.all_written(seq![a, b]) == s.written(a).written(b),
{
    reveal_with_fuel(Store::all_written, 3);
    assert(seq![a, b].drop_last() =~= seq![a]);
    assert(seq![a].drop_last() =~= Seq::<WriteView>::empty());
}

proof fn three_writes(s: Store, a: WriteView, b: WriteView, c: WriteView)
    ensures
        s.all_written(seq![a, b, c]) == s.written(a).written(b).written(c),
{
    two_writes(s, a, b);
    assert(seq![a, b, c].drop_last() =~= seq![a, b]);
}

/// What the changes that turn one label into another leave.
pub proof fn swap_label_effect(s: Store, id: i64, was: Seq<char>, now: Seq<char>)
    requires
        s.issues.contains_key(id),
    ensures
        s.all_written(swap_label_writes(id, was, now)) == s.relabelled(
            id,
            swapped(s.issues[id].labels, was, now),
        ),
{
    let a = WriteView::RemoveLabel { id, label: was };
    let b = WriteView::AddLabel { id, label: now };
    two_writes(s, a, b);
    assert(s.written(a).written(b) =~= s.relabelled(id, swapped(s.issues[id].labels, was, now)));
}

proof fn link_effect(s: Store, id: i64, target_uuid: Seq<char>)
    requires
        s.issues.contains_key(id),
    ensures
        s.all_written(link_writes(id, target_uuid)) == s.relabelled(
            id,
            with_label(
                swapped(s.issues[id].labels, STATUS_OPEN@, STATUS_PENDING@),
                ref_text(target_uuid),
            ),
        ),
{
    let a = WriteView::RemoveLabel { id, label: STATUS_OPEN@ };
    let b = WriteView::AddLabel { id, label: STATUS_PENDING@ };
    let c = WriteView::AddLabel { id, label: ref_text(target_uuid) };
    assert(link_writes(id, target_uuid) =~= seq![a, b, c]);
    three_writes(s, a, b, c);
    assert(s.written(a).written(b).written(c) =~= s.relabelled(
        id,
        with_label(
            swapped(s.issues[id].labels, STATUS_OPEN@, STATUS_PENDING@),
            ref_text(target_uuid),
        ),
    ));
}

// --- deliveries ----------------------------------------------------------------

/// The issue that a delivery makes in the target.
pub open spec fn delivered_record(
    there: Store,
    issue: IssueView,
    slug: Seq<char>,
    uuid: Seq<char>,
) -> Record {
    Record {
        title: issue.title,
        body: issue.description,
        priority: INBOUND_PRIORITY@,
        closed: false,
        uuid: (there.minted)(there.next),
        labels: with_labels(Seq::empty(), own_labels(slug, uuid)),
        comments: Seq::empty(),
    }
}

/// What a delivery does. When the target has no open issue for the request, it
/// gets exactly one new issue, and the request is marked pending and linked to it.
/// When it has one, the target is left as it is, and a request that was still open
/// is marked pending and linked to the one that is there.
#[verifier::rlimit(60)]
pub proof fn delivery_effect(
    here: Store,
    there: Store,
    repos: Seq<RepoView>,
    slug: Seq<char>,
    id: i64,
    target: Seq<char>,
)
    requires
        here.wf(),
        there.wf(),
        here.issues.contains_key(id),
        first_prefixed(here.issues[id].labels, TARGET_PREFIX@) == Some(target),
        path_of(repos, target) is Some,
    ensures
        ({
            let labels = here.issues[id].labels;
            let label = ref_text(here.issues[id].uuid);
            let pending = swapped(labels, STATUS_OPEN@, STATUS_PENDING@);
            let found = there.listed(false, label, there.next as int);
            delivered(here, there, repos, slug, id) == (if found.len() > 0 {
                (
                    if labels.contains(STATUS_OPEN@) {
                        here.relabelled(
                            id,
                            with_label(pending, ref_text(there.issues[found[0].id].uuid)),
                        )
                    } else {
                        here
                    },
                    there,
                    OutboundPhaseView::Finished(Ok(())),
                )
            } else {
                (
                    here.relabelled(
                        id,
                        with_label(pending, ref_text((there.minted)(there.next))),
                    ),
                    Store {
                        issues: there.issues.insert(
                            there.next,
                            delivered_record(there, here.issue(id), slug, here.issues[id].uuid),
                        ),
                        next: (there.next + 1) as i64,
                        minted: there.minted,
                    },
                    OutboundPhaseView::Finished(Ok(())),
                )
            })
        }),
{
    reveal_with_fuel(outbound_run, 9);
    let uuid = here.issues[id].uuid;
    let issue = here.issue(id);
    let found = there.listed(false, ref_text(uuid), there.next as int);
    if found.len() > 0 {
        there.listed_carry(false, ref_text(uuid), there.next as int);
        assert(there.issues.contains_key(found[0].id));
        link_effect(here, id, there.issues[found[0].id].uuid);
    }
    let new = there.next;
    let th1 = there.created(issue.title, issue.description, INBOUND_PRIORITY@);
    let target_uuid = (there.minted)(new);
    label_writes_effect(th1, new, own_labels(slug, uuid));
    let th2 = th1.all_written(label_writes(new, own_labels(slug, uuid)));
    let end = Store {
        issues: there.issues.insert(new, delivered_record(there, issue, slug, uuid)),
        next: (there.next + 1) as i64,
        minted: there.minted,
    };
    assert(th2 =~= end);
    link_effect(here, id, target_uuid);
}

/// What a request for an unknown repository gets: one comment that names the
/// configured ones, and the error status; it is out of the queue, and no other
/// database is touched.
#[verifier::rlimit(40)]
pub proof fn unknown_target_effect(
    here: Store,
    there: Store,
    repos: Seq<RepoView>,
    slug: Seq<char>,
    id: i64,
    target: Seq<char>,
)
    requires
        here.wf(),
        here.issues.contains_key(id),
        first_prefixed(here.issues[id].labels, TARGET_PREFIX@) == Some(target),
        path_of(repos, target) is None,
    ensures
        ({
            let r = here.issues[id];
            let note = CommentView {
                content: unknown_target(target, slugs_of(repos)),
                kind: NOTE_KIND@,
            };
            delivered(here, there, repos, slug, id) == (
                Store {
                    issues: here.issues.insert(
                        id,
                        Record {
                            comments: r.comments.push(note),
                            labels: with_label(
                                without_label(without_label(r.labels, STATUS_OPEN@), OUTBOUND@),
                                STATUS_ERROR@,
                            ),
                            ..r
                        },
                    ),
                    ..here
                },
                there,
                OutboundPhaseView::Finished(Ok(())),
            )
        }),
{
    reveal_with_fuel(outbound_run, 4);
    let r = here.issues[id];
    let text = unknown_target(target, slugs_of(repos));
    let w = WriteView::AddComment { id, content: text, kind: NOTE_KIND@ };
    reveal_with_fuel(Store::all_written, 2);
    assert(seq![w].drop_last() =~= Seq::<WriteView>::empty());
    let s1 = here.written(w);
    assert(here.all_written(seq![w]) == s1);
    let a = WriteView::RemoveLabel { id, label: STATUS_OPEN@ };
    let b = WriteView::RemoveLabel { id, label: OUTBOUND@ };
    let c = WriteView::AddLabel { id, label: STATUS_ERROR@ };
    three_writes(s1, a, b, c);
    let note = CommentView { content: text, kind: NOTE_KIND@ };
    let end = Store {
        issues: here.issues.insert(
            id,
            Record {
                comments: r.comments.push(note),
                labels: with_label(
                    without_label(without_label(r.labels, STATUS_OPEN@), OUTBOUND@),
                    STATUS_ERROR@,
                ),
                ..r
            },
        ),
        ..here
    };
    assert(s1.written(a).written(b).written(c) =~= end);
}

/// A delivered issue carries the label of its request.
proof fn delivered_record_is_labelled(
    there: Store,
    issue: IssueView,
    slug: Seq<char>,
    uuid: Seq<char>,
)
    ensures
        delivered_record(there, issue, slug, uuid).labels.contains(ref_text(uuid)),
{
    let own = own_labels(slug, uuid);
    assert(own[4] == ref_text(uuid));
    with_labels_contains(Seq::empty(), own, ref_text(uuid));
}

/// No request is delivered twice while the issue that was made for it is open.
/// Whatever has happened to the request since its delivery, for instance that its
/// new status was lost in a crash, a further delivery leaves the target as it is,
/// provided that the target itself has not changed in between. Only open issues of
/// the target count: one that was closed there does not keep a second from being
/// made.
pub proof fn no_second_delivery(
    here: Store,
    there: Store,
    repos: Seq<RepoView>,
    slug: Seq<char>,
    id: i64,
    target: Seq<char>,
    later: Store,
)
    requires
        here.wf(),
        there.wf(),
        there.next + 1 < i64::MAX,
        here.issues.contains_key(id),
        first_prefixed(here.issues[id].labels, TARGET_PREFIX@) == Some(target),
        path_of(repos, target) is Some,
        later.wf(),
        later.issues.contains_key(id),
        later.issues[id].uuid == here.issues[id].uuid,
        first_prefixed(later.issues[id].labels, TARGET_PREFIX@) == Some(target),
    ensures
        ({
            let there2 = delivered(here, there, repos, slug, id).1;
            delivered(later, there2, repos, slug, id).1 == there2
        }),
{
    let uuid = here.issues[id].uuid;
    let label = ref_text(uuid);
    delivery_effect(here, there, repos, slug, id, target);
    let there2 = delivered(here, there, repos, slug, id).1;
    if there.listed(false, label, there.next as int).len() == 0 {
        let r = delivered_record(there, here.issue(id), slug, uuid);
        created_wf(there, r);
        delivered_record_is_labelled(there, here.issue(id), slug, uuid);
        assert(there2.carries(there.next, false, label));
        assert(there2.listed(false, label, there2.next as int)[0].id == there.next);
    }
    delivery_effect(later, there2, repos, slug, id, target);
}

/// A delivery that broke off between the two databases is completed by the next
/// one: when only the target kept its part, the second delivery leaves both
/// databases as an unbroken one does.
pub proof fn a_broken_delivery_is_completed(
    here: Store,
    there: Store,
    repos: Seq<RepoView>,
    slug: Seq<char>,
    id: i64,
    target: Seq<char>,
)
    requires
        here.wf(),
        there.wf(),
        there.next + 1 < i64::MAX,
        here.issues.contains_key(id),
        here.issues[id].labels.contains(STATUS_OPEN@),
        first_prefixed(here.issues[id].labels, TARGET_PREFIX@) == Some(target),
        path_of(repos, target) is Some,
    ensures
        ({
            let whole = delivered(here, there, repos, slug, id);
            delivered(here, whole.1, repos, slug, id) == whole
        }),
{
    let uuid = here.issues[id].uuid;
    let label = ref_text(uuid);
    delivery_effect(here, there, repos, slug, id, target);
    let there2 = delivered(here, there, repos, slug, id).1;
    if there.listed(false, label, there.next as int).len() == 0 {
        let r = delivered_record(there, here.issue(id), slug, uuid);
        created_wf(there, r);
        delivered_record_is_labelled(there, here.issue(id), slug, uuid);
        assert(there2.carries(there.next, false, label));
        assert(there2.listed(false, label, there2.next as int)[0].id == there.next);
    }
    delivery_effect(here, there2, repos, slug, id, target);
}

// --- collections ---------------------------------------------------------------

/// The request once its answer has been collected.
pub open spec fn collected_record(
    r: Record,
    peer: Seq<char>,
    answers: Seq<AnswerCommentView>,
) -> Record {
    Record {
        closed: true,
        labels: resolved(r.labels),
        comments: r.comments + results(collected(peer, answers, r.comments)),
        ..r
    }
}

/// What a collection does. The request gets the new result comments, or a
/// placeholder when there is no result at all; its status is resolved and it is
/// closed, as is the answered issue. When the request is gone, the answered issue
/// is closed and nothing else changes.
#[verifier::rlimit(60)]
pub proof fn collection_effect(
    here: Store,
    there: Store,
    repos: Seq<RepoView>,
    slug: Seq<char>,
    id: i64,
    source: Seq<char>,
    uuid: Seq<char>,
)
    requires
        here.wf(),
        there.wf(),
        here.issues.contains_key(id),
        first_prefixed(here.issues[id].labels, SOURCE_PREFIX@) == Some(source),
        first_prefixed(here.issues[id].labels, REF_PREFIX@) == Some(uuid),
        path_of(repos, source) is Some,
    ensures
        match there.id_of(uuid, there.next as int) {
            Some(sid) => there.issues.contains_key(sid) && there.issues[sid].uuid == uuid
                && collection(here, there, repos, slug, id) == (
                here.closed(id),
                Store {
                    issues: there.issues.insert(
                        sid,
                        collected_record(
                            there.issues[sid],
                            slug,
                            result_comments(here.issues[id].comments),
                        ),
                    ),
                    ..there
                },
                CollectPhaseView::Finished(Ok(())),
            ),
            None => collection(here, there, repos, slug, id) == (
                here.closed(id),
                there,
                CollectPhaseView::Finished(Ok(())),
            ),
        },
{
    reveal_with_fuel(collect_run, 10);
    there.id_of_found(uuid, there.next as int);
    if let Some(sid) = there.id_of(uuid, there.next as int) {
        let r = there.issues[sid];
        let answers = result_comments(here.issues[id].comments);
        let texts = collected(slug, answers, r.comments);
        result_writes_effect(there, sid, texts);
        let s1 = there.all_written(result_writes(sid, texts));
        assert(s1 == with_comments(there, sid, results(texts)));
        assert(s1.issues[sid].labels == r.labels);
        swap_label_effect(s1, sid, STATUS_PENDING@, STATUS_RESOLVED@);
        let s2 = s1.relabelled(sid, resolved(r.labels));
        let end = Store {
            issues: there.issues.insert(sid, collected_record(r, slug, answers)),
            ..there
        };
        assert(s2.closed(sid) =~= end);
    }
}

/// Collecting an answer that holds a result a second time, for instance after a
/// crash before the answered issue was closed, adds no comment.
pub proof fn recollection_adds_nothing(
    r: Record,
    peer: Seq<char>,
    answers: Seq<AnswerCommentView>,
)
    requires
        answers.len() > 0,
    ensures
        collected_record(collected_record(r, peer, answers), peer, answers).comments
            == collected_record(r, peer, answers).comments,
{
    nothing_is_forwarded_twice(peer, answers, r.comments);
    let once = collected_record(r, peer, answers).comments;
    let again = forwarded(peer, answers, once);
    assert(again =~= Seq::<Seq<char>>::empty());
    assert(once + results(again) =~= once);
}

// --- one status at a time ------------------------------------------------------

/// True when the labels hold no status other than `status`.
pub open spec fn only_status(labels: Seq<Seq<char>>, status: Seq<char>) -> bool {
    forall|l: Seq<char>| #[trigger] labels.contains(l) && is_status(l) ==> l == status
}

/// The labels that are no status.
pub proof fn no_statuses(slug: Seq<char>, uuid: Seq<char>)
    ensures
        !is_status(REQUEST@),
        !is_status(OUTBOUND@),
        !is_status(INBOUND@),
        !is_status(source_text(slug)),
        !is_status(ref_text(uuid)),
{
    reveal_strlit("xb-status:");
    reveal_strlit("type:request");
    reveal_strlit("xb:inbound");
    reveal_strlit("xb:outbound");
    reveal_strlit("xb-source:");
    reveal_strlit("xb-ref:");
    let p = STATUS_PREFIX@;
    assert(p[0] == 'x' && p[2] == '-' && p[3] == 's' && p[4] == 't');
    assert(REQUEST@[0] == 't');
    assert(INBOUND@[2] == ':');
    assert(OUTBOUND@[2] == ':');
    assert(source_text(slug)[4] == 'o');
    assert(ref_text(uuid)[3] == 'r');
}

/// The steps that turn one status into the next leave no second one: a delivery
/// turns the only status `open` of a request into the only status `pending`, and
/// gives the new issue the only status `open`; a request for an unknown target is
/// left with the only status `error`; an answer turns the only status `open` of the
/// issue into the only status `answered`; and its arrival, by a collection or by a
/// message, turns the only status `pending` of the request into the only status
/// `resolved`.
pub proof fn one_status_at_a_time(
    labels: Seq<Seq<char>>,
    slug: Seq<char>,
    uuid: Seq<char>,
)
    ensures
        only_status(labels, STATUS_OPEN@) ==> only_status(
            swapped(labels, STATUS_OPEN@, STATUS_ANSWERED@),
            STATUS_ANSWERED@,
        ) && only_status(
            with_label(swapped(labels, STATUS_OPEN@, STATUS_PENDING@), ref_text(uuid)),
            STATUS_PENDING@,
        ) && only_status(
            with_label(
                without_label(without_label(labels, STATUS_OPEN@), OUTBOUND@),
                STATUS_ERROR@,
            ),
            STATUS_ERROR@,
        ),
        only_status(labels, STATUS_PENDING@) ==> only_status(resolved(labels), STATUS_RESOLVED@),
        only_status(with_labels(Seq::empty(), own_labels(slug, uuid)), STATUS_OPEN@),
{
    broadcast use with_label_contains, without_label_contains;

    no_statuses(slug, uuid);
    let own = own_labels(slug, uuid);
    assert forall|l: Seq<char>| #[trigger]
        with_labels(Seq::empty(), own).contains(l) && is_status(l) implies l == STATUS_OPEN@ by {
        with_labels_contains(Seq::empty(), own, l);
        let i = own.index_of(l);
        assert(own[i] == l);
    }
}

} // verus!
