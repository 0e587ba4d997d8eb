//! What the client's commands leave behind, and the whole way of a request: from
//! one repository to another and back.

use vstd::prelude::*;

use crate::attachment::MaterializedView;
use crate::client::{
    answer_command_action, answer_command_next, answered_text, answering, no_issue, not_available,
    status_removals, submission, submit_command_action, submit_command_next, submitted_text,
    submitted_writes, trip_failure, AnswerCommandPhaseView, AnswerCommandView, ClientActionView,
    ClientReplyView, SubmitCommandPhaseView, SubmitCommandView,
};
use crate::handler::{
    forwarded, inbound_labels, label_writes, own_labels, result_comments, AnswerPhaseView,
    SubmitPhaseView,
};
use crate::handler_laws::{
    answer_effect, answered, created_wf, extended_keeps, inbound_record, issue_with,
    issue_with_carries, label_writes_effect, resolving_swaps_the_status, results,
    submission_effect, submitted, with_comments,
};
use crate::labels::{
    first_prefixed, is_status, ref_text, source_text, travels, INBOUND, OUTBOUND, REF_PREFIX,
    REQUEST, SOURCE_PREFIX, STATUS_ANSWERED, STATUS_OPEN, STATUS_PENDING, STATUS_RESOLVED,
    TARGET_PREFIX,
};
use crate::messages::{ServerResponseView, SubmitIssueView};
use crate::model::{
    with_label_contains, with_labels, with_labels_contains, without_label, without_label_contains,
    Record, Store,
};
use crate::outbound::swap_label_writes;
use crate::route_laws::{no_statuses, one_status_at_a_time, only_status, swap_label_effect, swapped};
use crate::store::{CommentView, WriteView};

verus! {

broadcast use vstd::seq_lib::group_seq_properties;

// --- running a command against the model ---------------------------------------

/// The reply to an action of a command: the database does what the model does,
/// `there` says whether the peer's socket exists, and `trip` is what comes of a
/// round trip.
pub open spec fn client_reply(
    s: Store,
    action: ClientActionView,
    there: bool,
    trip: ClientReplyView,
) -> (Store, ClientReplyView) {
    match action {
        ClientActionView::Store(op) => {
            let (s2, r) = s.perform(op);
            (s2, ClientReplyView::Store(r))
        },
        ClientActionView::Exists(_) => (s, ClientReplyView::Answer(there)),
        ClientActionView::RoundTrip(_, _) => (s, trip),
        ClientActionView::Return(_) => (s, trip),
    }
}

/// `submit` carried on for at most `fuel` actions.
pub open spec fn submit_command_run(
    s: Store,
    t: SubmitCommandView,
    there: bool,
    trip: ClientReplyView,
    fuel: nat,
) -> (Store, SubmitCommandPhaseView)
    decreases fuel,
{
    let action = submit_command_action(t);
    if fuel == 0 || action is Return {
        (s, t.phase)
    } else {
        let (s2, reply) = client_reply(s, action, there, trip);
        let phase = submit_command_next(t, reply);
        submit_command_run(s2, SubmitCommandView { phase, ..t }, there, trip, (fuel - 1) as nat)
    }
}

/// `answer` carried on for at most `fuel` actions.
pub open spec fn answer_command_run(
    s: Store,
    t: AnswerCommandView,
    there: bool,
    trip: ClientReplyView,
    fuel: nat,
) -> (Store, AnswerCommandPhaseView)
    decreases fuel,
{
    let action = answer_command_action(t);
    if fuel == 0 || action is Return {
        (s, t.phase)
    } else {
        let (s2, reply) = client_reply(s, action, there, trip);
        let phase = answer_command_next(t, reply);
        answer_command_run(s2, AnswerCommandView { phase, ..t }, there, trip, (fuel - 1) as nat)
    }
}

// --- submit --------------------------------------------------------------------

/// What `submit` does. Without the issue, without the target's socket or without
/// the target's consent it fails and changes nothing; otherwise it takes
/// every other status from the issue, marks it as outbound and pending and links it
/// to its own UUID.
#[verifier::rlimit(60)]
pub proof fn submit_command_effect(
    s: Store,
    t: SubmitCommandView,
    there: bool,
    trip: ClientReplyView,
)
    requires
        s.wf(),
        t.phase is Load,
        trip_failure(t.target, trip) is Some || trip matches ClientReplyView::Response(_),
    ensures
        submit_command_run(s, t, there, trip, 6) == (if !s.issues.contains_key(t.issue_id) {
            (s, SubmitCommandPhaseView::Finished(Err(no_issue(t.issue_id))))
        } else if !there {
            (s, SubmitCommandPhaseView::Finished(Err(not_available(t.target))))
        } else {
            match trip_failure(t.target, trip) {
                Some(e) => (s, SubmitCommandPhaseView::Finished(Err(e))),
                None => {
                    let remote = trip->Response_0->issue_id;
                    (
                        s.all_written(
                            submitted_writes(
                                t.issue_id,
                                s.issues[t.issue_id].labels,
                                s.issues[t.issue_id].uuid,
                            ),
                        ),
                        SubmitCommandPhaseView::Finished(
                            Ok(submitted_text(t.issue_id, t.target, remote)),
                        ),
                    )
                },
            }
        }),
{
    reveal_with_fuel(submit_command_run, 7);
}

/// The request that `submit` sends is the issue as it stands: its title, its body
/// or nothing, its labels, and the names by which its repository and the issue are
/// known.
#[verifier::rlimit(40)]
pub proof fn submit_command_sends_the_issue(s: Store, t: SubmitCommandView)
    requires
        s.issues.contains_key(t.issue_id),
        t.phase is Load,
    ensures
        ({
            let nowhere = ClientReplyView::Answer(true);
            let phase = submit_command_run(s, t, true, nowhere, 4).1;
            let id = t.issue_id;
            submit_command_action(SubmitCommandView { phase, ..t }) matches
                ClientActionView::RoundTrip(_, request) && request
                == crate::messages::ClientRequestView::Submit(
                submission(s.issue(id), s.issues[id].uuid, s.issues[id].labels, t.own),
            )
        }),
{
    reveal_with_fuel(submit_command_run, 5);
}

// --- answer --------------------------------------------------------------------

/// An issue once it has been answered.
pub open spec fn marked_answered(s: Store, id: i64) -> Store {
    let r = s.issues[id];
    Store {
        issues: s.issues.insert(
            id,
            Record {
                closed: true,
                labels: swapped(r.labels, STATUS_OPEN@, STATUS_ANSWERED@),
                ..r
            },
        ),
        ..s
    }
}

/// What `answer` does on an issue that came from `peer`, where it is known as
/// `uuid`. Without the peer's socket or its consent it fails and changes nothing;
/// otherwise the issue is no longer open but answered, and closed.
#[verifier::rlimit(80)]
pub proof fn answer_command_effect(
    s: Store,
    t: AnswerCommandView,
    peer: Seq<char>,
    uuid: Seq<char>,
    there: bool,
    trip: ClientReplyView,
)
    requires
        s.wf(),
        t.phase is Load,
        s.issues.contains_key(t.issue_id),
        s.issues[t.issue_id].labels.contains(INBOUND@),
        first_prefixed(s.issues[t.issue_id].labels, SOURCE_PREFIX@) == Some(peer),
        first_prefixed(s.issues[t.issue_id].labels, REF_PREFIX@) == Some(uuid),
        trip_failure(peer, trip) is Some || trip matches ClientReplyView::Response(_),
    ensures
        answer_command_run(s, t, there, trip, 7) == (if !there {
            (s, AnswerCommandPhaseView::Finished(Err(not_available(peer))))
        } else {
            match trip_failure(peer, trip) {
                Some(e) => (s, AnswerCommandPhaseView::Finished(Err(e))),
                None => {
                    let remote = trip->Response_0->issue_id;
                    (
                        marked_answered(s, t.issue_id),
                        AnswerCommandPhaseView::Finished(
                            Ok(answered_text(t.issue_id, peer, remote)),
                        ),
                    )
                },
            }
        }),
{
    reveal_with_fuel(answer_command_run, 8);
    let id = t.issue_id;
    swap_label_effect(s, id, STATUS_OPEN@, STATUS_ANSWERED@);
    let swapping = swap_label_writes(id, STATUS_OPEN@, STATUS_ANSWERED@);
    assert(s.all_written(swapping).closed(id) =~= marked_answered(s, id));
}

/// The answer that `answer` sends: under the request's name, the issue's comments
/// of the kind `result` and no others.
#[verifier::rlimit(60)]
pub proof fn answer_command_sends_the_results(
    s: Store,
    t: AnswerCommandView,
    peer: Seq<char>,
    uuid: Seq<char>,
)
    requires
        t.phase is Load,
        s.issues.contains_key(t.issue_id),
        s.issues[t.issue_id].labels.contains(INBOUND@),
        first_prefixed(s.issues[t.issue_id].labels, SOURCE_PREFIX@) == Some(peer),
        first_prefixed(s.issues[t.issue_id].labels, REF_PREFIX@) == Some(uuid),
    ensures
        ({
            let nowhere = ClientReplyView::Answer(true);
            let phase = answer_command_run(s, t, true, nowhere, 4).1;
            answer_command_action(AnswerCommandView { phase, ..t }) matches
                ClientActionView::RoundTrip(_, request) && request
                == crate::messages::ClientRequestView::Answer(
                answering(uuid, result_comments(s.issues[t.issue_id].comments)),
            )
        }),
{
    reveal_with_fuel(answer_command_run, 5);
}

// --- there and back ------------------------------------------------------------

/// A label that is the only one with its prefix is the one that is found.
pub proof fn only_prefixed_is_found(labels: Seq<Seq<char>>, prefix: Seq<char>, value: Seq<char>)
    requires
        labels.contains(prefix + value),
        forall|l: Seq<char>| #[trigger]
            labels.contains(l) && prefix.is_prefix_of(l) ==> l == prefix + value,
    ensures
        first_prefixed(labels, prefix) == Some(value),
    decreases labels.len(),
{
    let rest = labels.drop_first();
    assert(labels.contains(labels[0]));
    assert((prefix + value).skip(prefix.len() as int) == value);
    assert((prefix + value).subrange(0, prefix.len() as int) == prefix);
    if !prefix.is_prefix_of(labels[0]) {
        let i = labels.index_of(prefix + value);
        assert(rest[i - 1] == prefix + value);
        assert forall|l: Seq<char>| #[trigger]
            rest.contains(l) && prefix.is_prefix_of(l) implies l == prefix + value by {
            let j = rest.index_of(l);
            assert(labels[j + 1] == l);
            assert(labels.contains(l));
        }
        only_prefixed_is_found(rest, prefix, value);
    }
}

/// The prefixes of labels exclude each other.
pub proof fn prefixes_differ(slug: Seq<char>, uuid: Seq<char>)
    ensures
        !SOURCE_PREFIX@.is_prefix_of(STATUS_ANSWERED@),
        !REF_PREFIX@.is_prefix_of(STATUS_ANSWERED@),
        !SOURCE_PREFIX@.is_prefix_of(REQUEST@),
        !SOURCE_PREFIX@.is_prefix_of(INBOUND@),
        !SOURCE_PREFIX@.is_prefix_of(STATUS_OPEN@),
        !SOURCE_PREFIX@.is_prefix_of(ref_text(uuid)),
        !REF_PREFIX@.is_prefix_of(REQUEST@),
        !REF_PREFIX@.is_prefix_of(INBOUND@),
        !REF_PREFIX@.is_prefix_of(STATUS_OPEN@),
        !REF_PREFIX@.is_prefix_of(source_text(slug)),
        SOURCE_PREFIX@.is_prefix_of(source_text(slug)),
        REF_PREFIX@.is_prefix_of(ref_text(uuid)),
{
    reveal_strlit("xb-source:");
    reveal_strlit("xb-ref:");
    reveal_strlit("type:request");
    reveal_strlit("xb:inbound");
    reveal_strlit("xb-status:open");
    reveal_strlit("xb-status:answered");
    assert(STATUS_ANSWERED@[3] == 's' && STATUS_ANSWERED@[4] == 't');
    assert(SOURCE_PREFIX@[0] == 'x' && SOURCE_PREFIX@[2] == '-' && SOURCE_PREFIX@[3] == 's'
        && SOURCE_PREFIX@[4] == 'o');
    assert(REF_PREFIX@[0] == 'x' && REF_PREFIX@[2] == '-' && REF_PREFIX@[3] == 'r');
    assert(REQUEST@[0] == 't');
    assert(INBOUND@[2] == ':');
    assert(STATUS_OPEN@[3] == 's' && STATUS_OPEN@[4] == 't');
    assert(ref_text(uuid)[3] == 'r');
    assert(source_text(slug)[3] == 's');
    assert(source_text(slug).subrange(0, SOURCE_PREFIX@.len() as int) =~= SOURCE_PREFIX@);
    assert(ref_text(uuid).subrange(0, REF_PREFIX@.len() as int) =~= REF_PREFIX@);
}

/// The labels of the inbound issue name the repository and the issue that the
/// request came from, when the request itself names no other.
pub proof fn inbound_issue_names_its_origin(submit: SubmitIssueView)
    requires
        forall|l: Seq<char>| #[trigger]
            submit.labels.contains(l) ==> !SOURCE_PREFIX@.is_prefix_of(l) && (
            REF_PREFIX@.is_prefix_of(l) ==> l == ref_text(submit.source_uuid)),
    ensures
        ({
            let labels = with_labels(Seq::empty(), inbound_labels(submit));
            &&& labels.contains(INBOUND@)
            &&& first_prefixed(labels, SOURCE_PREFIX@) == Some(submit.source_slug)
            &&& first_prefixed(labels, REF_PREFIX@) == Some(submit.source_uuid)
        }),
{
    let own = own_labels(submit.source_slug, submit.source_uuid);
    let labels = with_labels(Seq::empty(), inbound_labels(submit));
    prefixes_differ(submit.source_slug, submit.source_uuid);
    assert forall|l: Seq<char>| #[trigger] labels.contains(l) <==> (own.contains(l)
        || (submit.labels.contains(l) && travels(l))) by {
        with_labels_contains(Seq::empty(), inbound_labels(submit), l);
        extended_keeps(own, submit.labels, l);
    }
    assert(own[1] == INBOUND@);
    assert(own[3] == source_text(submit.source_slug));
    assert(own[4] == ref_text(submit.source_uuid));
    assert forall|l: Seq<char>| #[trigger]
        labels.contains(l) && SOURCE_PREFIX@.is_prefix_of(l) implies l == SOURCE_PREFIX@
        + submit.source_slug by {
        if own.contains(l) {
            let i = own.index_of(l);
            assert(own[i] == l);
        }
    }
    assert forall|l: Seq<char>| #[trigger]
        labels.contains(l) && REF_PREFIX@.is_prefix_of(l) implies l == REF_PREFIX@
        + submit.source_uuid by {
        if own.contains(l) {
            let i = own.index_of(l);
            assert(own[i] == l);
        }
    }
    assert(labels.contains(source_text(submit.source_slug)));
    assert(labels.contains(ref_text(submit.source_uuid)));
    only_prefixed_is_found(labels, SOURCE_PREFIX@, submit.source_slug);
    only_prefixed_is_found(labels, REF_PREFIX@, submit.source_uuid);
}

/// The labels without those of `gone` that are a status other than `pending`.
pub open spec fn unmarked(labels: Seq<Seq<char>>, gone: Seq<Seq<char>>) -> Seq<Seq<char>>
    decreases gone.len(),
{
    if gone.len() == 0 {
        labels
    } else {
        let front = unmarked(labels, gone.drop_last());
        if is_status(gone.last()) && gone.last() != STATUS_PENDING@ {
            without_label(front, gone.last())
        } else {
            front
        }
    }
}

/// The labels of an issue once it has been submitted.
pub open spec fn marked_submitted(labels: Seq<Seq<char>>, uuid: Seq<char>) -> Seq<Seq<char>> {
    with_labels(unmarked(labels, labels), seq![OUTBOUND@, STATUS_PENDING@, ref_text(uuid)])
}

proof fn unmarked_contains(labels: Seq<Seq<char>>, gone: Seq<Seq<char>>, x: Seq<char>)
    ensures
        unmarked(labels, gone).contains(x) <==> (labels.contains(x) && !(gone.contains(x)
            && is_status(x) && x != STATUS_PENDING@)),
    decreases gone.len(),
{
    if gone.len() > 0 {
        let front = gone.drop_last();
        unmarked_contains(labels, front, x);
        without_label_contains(unmarked(labels, front), gone.last(), x);
        assert(gone == front.push(gone.last()));
    }
}

proof fn status_removals_effect(s: Store, id: i64, gone: Seq<Seq<char>>)
    requires
        s.issues.contains_key(id),
    ensures
        s.all_written(status_removals(id, gone)) == s.relabelled(
            id,
            unmarked(s.issues[id].labels, gone),
        ),
    decreases gone.len(),
{
    if gone.len() == 0 {
        assert(s.relabelled(id, s.issues[id].labels) =~= s);
    } else {
        let front = gone.drop_last();
        status_removals_effect(s, id, front);
        let ws = status_removals(id, front);
        let w = WriteView::RemoveLabel { id, label: gone.last() };
        assert(ws.push(w).drop_last() =~= ws);
        assert(s.all_written(ws).written(w) =~= s.relabelled(
            id,
            without_label(unmarked(s.issues[id].labels, front), gone.last()),
        ));
    }
}

/// What the changes of a submission leave.
pub proof fn submitted_labels(s: Store, id: i64)
    requires
        s.issues.contains_key(id),
    ensures
        ({
            let r = s.issues[id];
            s.all_written(submitted_writes(id, r.labels, r.uuid)) == s.relabelled(
                id,
                marked_submitted(r.labels, r.uuid),
            )
        }),
{
    let r = s.issues[id];
    let ws = status_removals(id, r.labels);
    let a = WriteView::AddLabel { id, label: OUTBOUND@ };
    let b = WriteView::AddLabel { id, label: STATUS_PENDING@ };
    let c = WriteView::AddLabel { id, label: ref_text(r.uuid) };
    let more = seq![OUTBOUND@, STATUS_PENDING@, ref_text(r.uuid)];
    status_removals_effect(s, id, r.labels);
    let s1 = s.all_written(ws);
    reveal_with_fuel(Store::all_written, 4);
    assert(ws.push(a).drop_last() =~= ws);
    assert(ws.push(a).push(b).drop_last() =~= ws.push(a));
    assert(ws.push(a).push(b).push(c).drop_last() =~= ws.push(a).push(b));
    assert(seq![a].drop_last() =~= Seq::<WriteView>::empty());
    assert(seq![a, b].drop_last() =~= seq![a]);
    assert(seq![a, b, c].drop_last() =~= seq![a, b]);
    assert(label_writes(id, more) =~= seq![a, b, c]);
    label_writes_effect(s1, id, more);
    assert(s1.relabelled(id, marked_submitted(r.labels, r.uuid)) =~= s.relabelled(
        id,
        marked_submitted(r.labels, r.uuid),
    ));
}

/// A submission leaves one status on either side, whatever status the issue had:
/// the request is pending, and the issue that the server makes of it is open. The
/// request keeps every label that is no status.
pub proof fn a_submission_sets_one_status(submit: SubmitIssueView)
    ensures
        only_status(marked_submitted(submit.labels, submit.source_uuid), STATUS_PENDING@),
        marked_submitted(submit.labels, submit.source_uuid).contains(STATUS_PENDING@),
        forall|l: Seq<char>| #[trigger]
            submit.labels.contains(l) && !is_status(l) ==> marked_submitted(
                submit.labels,
                submit.source_uuid,
            ).contains(l),
        only_status(with_labels(Seq::empty(), inbound_labels(submit)), STATUS_OPEN@),
        with_labels(Seq::empty(), inbound_labels(submit)).contains(STATUS_OPEN@),
{
    no_statuses(submit.source_slug, submit.source_uuid);
    let more = seq![OUTBOUND@, STATUS_PENDING@, ref_text(submit.source_uuid)];
    let kept = unmarked(submit.labels, submit.labels);
    let marked = with_labels(kept, more);
    assert(more[1] == STATUS_PENDING@);
    with_labels_contains(kept, more, STATUS_PENDING@);
    assert forall|l: Seq<char>| #[trigger]
        submit.labels.contains(l) && !is_status(l) implies marked.contains(l) by {
        with_labels_contains(kept, more, l);
        unmarked_contains(submit.labels, submit.labels, l);
    }
    assert forall|l: Seq<char>| #[trigger] marked.contains(l) && is_status(l) implies l
        == STATUS_PENDING@ by {
        with_labels_contains(kept, more, l);
        unmarked_contains(submit.labels, submit.labels, l);
        if more.contains(l) {
            let i = more.index_of(l);
            assert(more[i] == l);
        }
    }
    let own = own_labels(submit.source_slug, submit.source_uuid);
    let inbound = with_labels(Seq::empty(), inbound_labels(submit));
    assert(own[2] == STATUS_OPEN@);
    extended_keeps(own, submit.labels, STATUS_OPEN@);
    with_labels_contains(Seq::empty(), inbound_labels(submit), STATUS_OPEN@);
    assert forall|l: Seq<char>| #[trigger] inbound.contains(l) && is_status(l) implies l
        == STATUS_OPEN@ by {
        with_labels_contains(Seq::empty(), inbound_labels(submit), l);
        extended_keeps(own, submit.labels, l);
        let i = own.index_of(l);
        assert(own[i] == l);
    }
}

/// The issue that the server makes of a submission names its source and no target,
/// whatever labels the request came with.
pub proof fn an_inbound_issue_has_no_target(submit: SubmitIssueView, label: Seq<char>)
    requires
        with_labels(Seq::empty(), inbound_labels(submit)).contains(label),
    ensures
        !TARGET_PREFIX@.is_prefix_of(label),
{
    let own = own_labels(submit.source_slug, submit.source_uuid);
    with_labels_contains(Seq::empty(), inbound_labels(submit), label);
    extended_keeps(own, submit.labels, label);
    if own.contains(label) {
        let i = own.index_of(label);
        assert(own[i] == label);
        reveal_strlit("xb-target:");
        reveal_strlit("xb-source:");
        reveal_strlit("xb-ref:");
        reveal_strlit("type:request");
        reveal_strlit("xb:inbound");
        reveal_strlit("xb-status:open");
        let p = TARGET_PREFIX@;
        assert(p[0] == 'x' && p[2] == '-' && p[3] == 't');
        assert(REQUEST@[0] == 't');
        assert(INBOUND@[2] == ':');
        assert(STATUS_OPEN@[3] == 's');
        assert(source_text(submit.source_slug)[3] == 's');
        assert(ref_text(submit.source_uuid)[3] == 'r');
        assert(p.is_prefix_of(label) ==> label[0] == p[0] && label[2] == p[2] && label[3] == p[3]);
    }
}

/// The whole way of a request, when every message arrives.
///
/// Issue `id` of `a` is submitted to the repository of `b`, at `home`, which has
/// nothing of it yet. There it becomes a new issue, which an agent comments on with
/// `remarks`; then it is answered. In the end the request is resolved and closed
/// and has, beyond its own comments, the new results marked with the repository
/// that they came from, and no other issue of `a` has changed; the issue in `b` is
/// marked answered and closed. Neither has another status left.
#[verifier::rlimit(100)]
#[verifier::spinoff_prover]
pub proof fn there_and_back(
    a: Store,
    b: Store,
    id: i64,
    ask: SubmitCommandView,
    reply: AnswerCommandView,
    remarks: Seq<CommentView>,
    home: Seq<u8>,
    m: Result<MaterializedView, Seq<char>>,
)
    requires
        a.wf(),
        b.wf(),
        b.next + 1 < i64::MAX,
        a.issues.contains_key(id),
        ask.issue_id == id,
        ask.phase is Load,
        reply.issue_id == b.next,
        reply.phase is Load,
        issue_with(b, ref_text(a.issues[id].uuid)) is None,
        forall|other: i64| #[trigger]
            a.issues.contains_key(other) && a.issues[other].labels.contains(
                ref_text(a.issues[id].uuid),
            ) ==> other == id,
        forall|l: Seq<char>| #[trigger]
            a.issues[id].labels.contains(l) ==> !SOURCE_PREFIX@.is_prefix_of(l) && (
            REF_PREFIX@.is_prefix_of(l) ==> l == ref_text(a.issues[id].uuid)),
    ensures
        ({
            let uuid = a.issues[id].uuid;
            let request = submission(a.issue(id), uuid, a.issues[id].labels, ask.own);
            let (b1, accepted) = submitted(b, request, home, m);
            let consent = ClientReplyView::Response(
                ServerResponseView::Success { issue_id: b.next },
            );
            let a1 = submit_command_run(a, ask, true, consent, 6).0;
            let b2 = with_comments(b1, b.next, remarks);
            let answer = answering(uuid, result_comments(remarks));
            let (a2, applied) = answered(a1, reply.own, answer);
            let thanks = ClientReplyView::Response(ServerResponseView::Success { issue_id: id });
            let (b3, printed) = answer_command_run(b2, reply, true, thanks, 7);
            &&& accepted == SubmitPhaseView::Finished(Ok(b.next))
            &&& applied == AnswerPhaseView::Finished(Ok(id))
            &&& printed == AnswerCommandPhaseView::Finished(
                Ok(answered_text(b.next, ask.own, id)),
            )
            &&& a2.issues.dom() =~= a.issues.dom()
            &&& a2.issues[id].closed
            &&& a2.issues[id].labels.contains(STATUS_RESOLVED@)
            &&& only_status(a2.issues[id].labels, STATUS_RESOLVED@)
            &&& a2.issues[id].comments == a.issues[id].comments + results(
                forwarded(reply.own, result_comments(remarks), a.issues[id].comments),
            )
            &&& forall|other: i64| #[trigger]
                a.issues.contains_key(other) && other != id ==> a2.issues[other] == a.issues[other]
            &&& b3.issues[b.next].closed
            &&& b3.issues[b.next].labels.contains(STATUS_ANSWERED@)
            &&& only_status(b3.issues[b.next].labels, STATUS_ANSWERED@)
            &&& b3.issues[b.next].comments == remarks
        }),
{
    let uuid = a.issues[id].uuid;
    let label = ref_text(uuid);
    let request = submission(a.issue(id), uuid, a.issues[id].labels, ask.own);
    let nb = b.next;
    submission_effect(b, request, home, m);
    let b1 = submitted(b, request, home, m).0;
    let rec = inbound_record(b, request, m);
    created_wf(b, rec);
    assert(b1.issues[nb] == rec);

    let consent = ClientReplyView::Response(ServerResponseView::Success { issue_id: nb });
    submit_command_effect(a, ask, true, consent);
    submitted_labels(a, id);
    let more = seq![OUTBOUND@, STATUS_PENDING@, label];
    let kept = unmarked(a.issues[id].labels, a.issues[id].labels);
    let marked = marked_submitted(a.issues[id].labels, uuid);
    let a1 = a.relabelled(id, marked);
    assert(more[2] == label);
    with_labels_contains(kept, more, label);
    a_submission_sets_one_status(request);
    assert(a1.issues.dom() =~= a.issues.dom());
    assert(a1.wf());
    issue_with_carries(a1, label);
    assert(issue_with(a1, label) == Some(id)) by {
        assert(a1.issues.contains_key(id));
        if let Some(other) = issue_with(a1, label) {
            if other != id {
                assert(a.issues.contains_key(other));
            }
        }
    }

    let answer = answering(uuid, result_comments(remarks));
    answer_effect(a1, reply.own, answer);
    resolving_swaps_the_status(marked, STATUS_RESOLVED@);
    one_status_at_a_time(marked, ask.own, uuid);

    let b2 = with_comments(b1, nb, remarks);
    assert(b2.issues.dom() =~= b1.issues.dom());
    assert(b2.wf());
    assert(rec.comments =~= Seq::<CommentView>::empty());
    assert(Seq::<CommentView>::empty() + remarks =~= remarks);
    inbound_issue_names_its_origin(request);
    let thanks = ClientReplyView::Response(ServerResponseView::Success { issue_id: id });
    answer_command_effect(b2, reply, ask.own, uuid, true, thanks);
    one_status_at_a_time(rec.labels, ask.own, uuid);
    with_label_contains(
        without_label(rec.labels, STATUS_OPEN@),
        STATUS_ANSWERED@,
        STATUS_ANSWERED@,
    );
}

/// The labels of a submitted issue are those that it had, without their statuses, and
/// three more: that it is outbound, that it is pending, and its own reference.
pub proof fn labels_of_a_submitted_issue(
    labels: Seq<Seq<char>>,
    uuid: Seq<char>,
    label: Seq<char>,
)
    ensures
        marked_submitted(labels, uuid).contains(label) <==> (labels.contains(label)
            && !"xb-status:"@.is_prefix_of(label)) || label == "xb:outbound"@ || label
            == "xb-status:pending"@ || label == "xb-ref:"@ + uuid,
{
    let more = seq![OUTBOUND@, STATUS_PENDING@, ref_text(uuid)];
    let kept = unmarked(labels, labels);
    with_labels_contains(kept, more, label);
    unmarked_contains(labels, labels, label);
    assert(more[0] == "xb:outbound"@ && more[1] == "xb-status:pending"@ && more[2] == "xb-ref:"@
        + uuid);
    if more.contains(label) {
        let i = more.index_of(label);
        assert(more[i] == label);
    }
}

/// The labels of an inbound issue are its own five and, of the request's labels, all that
/// are neither a status nor name a target.
pub proof fn labels_of_an_inbound_issue(submit: SubmitIssueView, label: Seq<char>)
    ensures
        with_labels(Seq::empty(), inbound_labels(submit)).contains(label) <==> label
            == "type:request"@ || label == "xb:inbound"@ || label == "xb-status:open"@ || label
            == "xb-source:"@ + submit.source_slug || label == "xb-ref:"@ + submit.source_uuid || (
        submit.labels.contains(label) && !"xb-status:"@.is_prefix_of(label)
            && !"xb-target:"@.is_prefix_of(label)),
{
    let own = own_labels(submit.source_slug, submit.source_uuid);
    with_labels_contains(Seq::empty(), inbound_labels(submit), label);
    extended_keeps(own, submit.labels, label);
    crate::step_laws::own_labels_are(submit.source_slug, submit.source_uuid, label);
}

} // verus!
