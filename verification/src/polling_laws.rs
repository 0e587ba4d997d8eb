//! What holds of the polling bridge as a whole.

use vstd::prelude::*;

use crate::client_laws::{only_prefixed_is_found, prefixes_differ};
use crate::collect::{collected, CollectPhaseView};
use crate::config::{path_of, RepoView};
use crate::handler::{own_labels, result_comments};
use crate::handler_laws::{
    created_wf, resolved, resolving_swaps_the_status, results, statuses_differ, with_comments,
};
use crate::labels::{
    first_prefixed, ref_text, source_text, INBOUND, OUTBOUND, REF_PREFIX, REQUEST, SOURCE_PREFIX,
    STATUS_ANSWERED, STATUS_ERROR, STATUS_OPEN, STATUS_PENDING, STATUS_RESOLVED, TARGET_PREFIX,
};
use crate::model::{
    with_label, with_label_contains, with_labels, with_labels_contains, without_label,
    without_label_contains, Store,
};
use crate::outbound::OutboundPhaseView;
use crate::route::{
    candidates, cycle_next, fresh_scan, one_action, one_start, scan_action, scan_next,
    CandidateView, CyclePhaseView, CycleTaskView, OneTaskView, ScanActionView, ScanPhaseView,
    ScanTaskView,
};
use crate::route_laws::{
    collection, collection_effect, delivered, delivered_record, delivery_effect, swapped,
};
use crate::store::{CommentView, IssueView, StoreReplyView};

verus! {

broadcast use vstd::seq_lib::group_seq_properties;

/// A scan takes up every listed issue that is in the status that is due, with its
/// labels, and no other.
pub proof fn exactly_the_due_issues_are_taken(
    issues: Seq<IssueView>,
    lists: Seq<Seq<Seq<char>>>,
    status: Seq<char>,
    c: CandidateView,
)
    ensures
        candidates(issues, lists, status).contains(c) <==> exists|i: int|
            0 <= i < issues.len() && i < lists.len() && (#[trigger] issues[i]) == c.issue
                && lists[i] == c.labels && c.labels.contains(status),
    decreases issues.len(),
{
    let all = candidates(issues, lists, status);
    if issues.len() > 0 {
        let n = issues.len() - 1;
        let less = issues.drop_last();
        let front = candidates(less, lists, status);
        exactly_the_due_issues_are_taken(less, lists, status, c);
        let last = CandidateView { issue: issues[n], labels: lists[n] };
        assert(front.push(last).contains(c) <==> front.contains(c) || c == last) by {
            assert(front.push(last)[front.len() as int] == last);
            if front.contains(c) {
                assert(front.push(last)[front.index_of(c)] == c);
            }
        }
        if front.contains(c) {
            let i = choose|i: int|
                0 <= i < less.len() && i < lists.len() && (#[trigger] less[i]) == c.issue
                    && lists[i] == c.labels && c.labels.contains(status);
            assert(issues[i] == c.issue);
        }
        if exists|i: int|
            0 <= i < issues.len() && i < lists.len() && (#[trigger] issues[i]) == c.issue
                && lists[i] == c.labels && c.labels.contains(status) {
            let i = choose|i: int|
                0 <= i < issues.len() && i < lists.len() && (#[trigger] issues[i]) == c.issue
                    && lists[i] == c.labels && c.labels.contains(status);
            if i < n {
                assert(less[i] == c.issue);
            }
        }
    }
}

/// One issue's failure stops nothing: however its handling ends, the end is
/// reported and the next issue is taken up, or the scan ends well after the last;
/// and a cycle goes on with the next scan or the next repository, however a scan
/// ends.
pub proof fn one_failure_stops_nothing(
    repos: Seq<RepoView>,
    scan: ScanTaskView,
    queue: Seq<CandidateView>,
    at: nat,
    task: OneTaskView,
    cycle: CycleTaskView,
    reply: StoreReplyView,
)
    requires
        scan.phase == (ScanPhaseView::Each { queue, at, task }),
        one_action(task) is Return,
        at < queue.len(),
        cycle.at < repos.len(),
    ensures
        scan_action(scan) == (ScanActionView::Report {
            issue: queue[at as int].issue.id,
            result: one_action(task)->Return_0,
        }),
        scan_next(repos, scan, reply) == (if at + 1 < queue.len() {
            ScanPhaseView::Each {
                queue,
                at: at + 1,
                task: one_start(repos, scan.outbound, scan.slug, queue[at as int + 1]),
            }
        } else {
            ScanPhaseView::Finished(Ok(()))
        }),
        cycle.phase matches CyclePhaseView::Scanning(s) ==> (scan_action(s) is Return
            ==> cycle_next(repos, cycle, reply) == (if s.outbound {
            CycleTaskView { phase: fresh_scan(false, s.slug), ..cycle }
        } else {
            CycleTaskView { at: cycle.at + 1, phase: CyclePhaseView::Open }
        })),
        cycle.phase is Open && reply is Failed ==> cycle_next(repos, cycle, reply) == (
        CycleTaskView { at: cycle.at + 1, phase: CyclePhaseView::Open }),
{
}

/// A database in which issue `id` was answered: it has got comments, and its status
/// is no longer open but answered.
pub open spec fn replied(s: Store, id: i64, remarks: Seq<CommentView>) -> Store {
    with_comments(s, id, remarks).relabelled(
        id,
        swapped(s.issues[id].labels, STATUS_OPEN@, STATUS_ANSWERED@),
    )
}

/// An issue that was delivered and answered still names the repository and the
/// request that it came from.
proof fn answered_names_its_origin(slug: Seq<char>, uuid: Seq<char>)
    ensures
        ({
            let labels = swapped(
                with_labels(Seq::empty(), own_labels(slug, uuid)),
                STATUS_OPEN@,
                STATUS_ANSWERED@,
            );
            &&& first_prefixed(labels, SOURCE_PREFIX@) == Some(slug)
            &&& first_prefixed(labels, REF_PREFIX@) == Some(uuid)
        }),
{
    broadcast use with_label_contains, without_label_contains;

    let own = own_labels(slug, uuid);
    let labels = swapped(with_labels(Seq::empty(), own), STATUS_OPEN@, STATUS_ANSWERED@);
    prefixes_differ(slug, uuid);
    assert(own[3] == source_text(slug));
    assert(own[4] == ref_text(uuid));
    assert forall|l: Seq<char>| #[trigger] labels.contains(l) <==> (l == STATUS_ANSWERED@ || (
    own.contains(l) && l != STATUS_OPEN@)) by {
        with_labels_contains(Seq::empty(), own, l);
    }
    assert forall|l: Seq<char>| #[trigger]
        labels.contains(l) && SOURCE_PREFIX@.is_prefix_of(l) implies l == SOURCE_PREFIX@ + slug by {
        if own.contains(l) {
            let i = own.index_of(l);
            assert(own[i] == l);
        }
    }
    assert forall|l: Seq<char>| #[trigger]
        labels.contains(l) && REF_PREFIX@.is_prefix_of(l) implies l == REF_PREFIX@ + uuid by {
        if own.contains(l) {
            let i = own.index_of(l);
            assert(own[i] == l);
        }
    }
    assert(own.contains(source_text(slug)) && own.contains(ref_text(uuid)));
    assert(labels.contains(source_text(slug)) && labels.contains(ref_text(uuid)));
    only_prefixed_is_found(labels, SOURCE_PREFIX@, slug);
    only_prefixed_is_found(labels, REF_PREFIX@, uuid);
}

/// True when no label starts with `prefix`.
pub open spec fn none_starts_with(labels: Seq<Seq<char>>, prefix: Seq<char>) -> bool {
    forall|l: Seq<char>| #[trigger] labels.contains(l) ==> !prefix.is_prefix_of(l)
}

/// No issue names both a target and a source. The issue that a delivery makes names
/// no target; and a request that names no source still names none when it is marked
/// pending and linked, when it is parked for want of its target, and when it is
/// resolved.
pub proof fn target_and_source_exclude_each_other(
    labels: Seq<Seq<char>>,
    slug: Seq<char>,
    uuid: Seq<char>,
)
    ensures
        none_starts_with(with_labels(Seq::empty(), own_labels(slug, uuid)), TARGET_PREFIX@),
        none_starts_with(labels, SOURCE_PREFIX@) ==> none_starts_with(
            with_label(swapped(labels, STATUS_OPEN@, STATUS_PENDING@), ref_text(uuid)),
            SOURCE_PREFIX@,
        ) && none_starts_with(
            with_label(
                without_label(without_label(labels, STATUS_OPEN@), OUTBOUND@),
                STATUS_ERROR@,
            ),
            SOURCE_PREFIX@,
        ) && none_starts_with(resolved(labels), SOURCE_PREFIX@),
{
    broadcast use with_label_contains, without_label_contains;

    prefixes_differ(slug, uuid);
    reveal_strlit("xb-target:");
    reveal_strlit("xb-source:");
    reveal_strlit("xb-ref:");
    reveal_strlit("type:request");
    reveal_strlit("xb:inbound");
    reveal_strlit("xb-status:open");
    reveal_strlit("xb-status:pending");
    reveal_strlit("xb-status:error");
    reveal_strlit("xb-status:resolved");
    assert(TARGET_PREFIX@[0] == 'x' && TARGET_PREFIX@[2] == '-' && TARGET_PREFIX@[3] == 't');
    assert(SOURCE_PREFIX@[3] == 's' && SOURCE_PREFIX@[4] == 'o');
    assert(STATUS_PENDING@[4] == 't' && STATUS_ERROR@[4] == 't' && STATUS_RESOLVED@[4] == 't');
    assert(REQUEST@[0] == 't');
    assert(INBOUND@[2] == ':');
    assert(STATUS_OPEN@[3] == 's');
    assert(source_text(slug)[3] == 's');
    assert(ref_text(uuid)[3] == 'r');
    let own = own_labels(slug, uuid);
    assert forall|l: Seq<char>| #[trigger]
        with_labels(Seq::empty(), own).contains(l) implies !TARGET_PREFIX@.is_prefix_of(l) by {
        with_labels_contains(Seq::empty(), own, l);
        let i = own.index_of(l);
        assert(own[i] == l);
    }
}

/// The polling bridge carries a request there and its answer back.
///
/// Issue `id` of `a`, the repository `slug`, is meant for the repository `target`,
/// whose database `b` has nothing of it yet. The bridge delivers it; there it is
/// commented on with `remarks` and marked answered; the bridge collects it. In the
/// end the request is resolved and closed and has, beyond its own comments, the new
/// results, marked with the repository that they came from; the delivered issue is
/// closed; and no other issue of `a` has changed.
pub proof fn polled_there_and_back(
    a: Store,
    b: Store,
    repos: Seq<RepoView>,
    slug: Seq<char>,
    target: Seq<char>,
    id: i64,
    remarks: Seq<CommentView>,
)
    requires
        a.wf(),
        b.wf(),
        b.next + 1 < i64::MAX,
        a.issues.contains_key(id),
        first_prefixed(a.issues[id].labels, TARGET_PREFIX@) == Some(target),
        path_of(repos, target) is Some,
        path_of(repos, slug) is Some,
        b.listed(false, ref_text(a.issues[id].uuid), b.next as int).len() == 0,
    ensures
        ({
            let (a1, b1, sent) = delivered(a, b, repos, slug, id);
            let b2 = replied(b1, b.next, remarks);
            let (b3, a3, fetched) = collection(b2, a1, repos, target, b.next);
            &&& sent == OutboundPhaseView::Finished(Ok(()))
            &&& fetched == CollectPhaseView::Finished(Ok(()))
            &&& a3.issues.dom() =~= a.issues.dom()
            &&& a3.issues[id].closed
            &&& a3.issues[id].labels.contains(STATUS_RESOLVED@)
            &&& !a3.issues[id].labels.contains(STATUS_PENDING@)
            &&& a3.issues[id].comments == a.issues[id].comments + results(
                collected(target, result_comments(remarks), a.issues[id].comments),
            )
            &&& forall|other: i64| #[trigger]
                a.issues.contains_key(other) && other != id ==> a3.issues[other] == a.issues[other]
            &&& b3.issues[b.next].closed
            &&& b3.issues[b.next].comments == remarks
        }),
{
    let uuid = a.issues[id].uuid;
    let nb = b.next;
    delivery_effect(a, b, repos, slug, id, target);
    let (a1, b1, sent) = delivered(a, b, repos, slug, id);
    let rec = delivered_record(b, a.issue(id), slug, uuid);
    created_wf(b, rec);
    assert(b1.issues[nb] == rec);
    assert(a1.issues.dom() =~= a.issues.dom());
    assert(a1.wf());

    let b2 = replied(b1, nb, remarks);
    assert(b2.issues.dom() =~= b1.issues.dom());
    assert(b2.wf());
    answered_names_its_origin(slug, uuid);
    assert(Seq::<CommentView>::empty() + remarks =~= remarks);

    collection_effect(b2, a1, repos, target, nb, slug, uuid);
    a1.id_of_found(uuid, a1.next as int);
    assert(a1.id_of(uuid, a1.next as int) == Some(id)) by {
        assert(a1.issues.contains_key(id) && a1.issues[id].uuid == uuid);
    }
    let (b3, a3, fetched) = collection(b2, a1, repos, target, nb);
    assert(a3.issues.dom() =~= a.issues.dom());
    statuses_differ();
    resolving_swaps_the_status(a1.issues[id].labels, STATUS_RESOLVED@);
    resolving_swaps_the_status(a1.issues[id].labels, STATUS_PENDING@);
}

} // verus!
