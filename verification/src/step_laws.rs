//! What single steps of the tasks say, to whom they say it, and where they lead when
//! something fails.

use vstd::prelude::*;
use vstd::utf8::*;

use crate::attachment::{recording, MaterializedView};
use crate::client::{
    answer_command_action, answer_command_next, answer_labels, answered_text, answering, no_issue,
    not_available, submission, submit_command_action, submit_command_next, submitted_text,
    trip_failure, AnswerCommandPhaseView, AnswerCommandView, ClientActionView, ClientReplyView,
    SubmitCommandPhaseView, SubmitCommandView,
};
use crate::collect::{
    collect_action, collect_next, collect_start, collected, CollectPhaseView, CollectTaskView,
};
use crate::compose::{decimal, joined};
use crate::config::{path_of, slugs_of, RepoView};
use crate::handler::{
    answer_action, answer_next, forwarded, from_peer, own_labels, result_comments, submit_action,
    submit_next, AnswerActionView, AnswerPhaseView, AnswerTaskView, SubmitActionView,
    SubmitPhaseView, SubmitReplyView, SubmitTaskView,
};
use crate::handler_laws::{issue_with, submission_effect, submitted};
use crate::labels::first_prefixed;
use crate::messages::{AnswerCommentView, ServerResponseView, SubmitAnswerView, SubmitIssueView};
use crate::model::Store;
use crate::outbound::{
    outbound_action, outbound_next, outbound_start, OutboundPhaseView, OutboundTaskView,
};
use crate::pathname::below;
use crate::route::{
    candidates, cycle_action, cycle_next, each_from, scan_action, scan_next, CycleActionView,
    CyclePhaseView, CycleTaskView, ScanActionView, ScanPhaseView, ScanTaskView,
};
use crate::store::{
    CommentView, IssueView, RouteActionView, RouteOpView, StoreOpView, StoreReplyView,
};

verus! {

broadcast use vstd::seq_lib::group_seq_properties;

/// A cause at the end of a text.
proof fn ends_with(text: Seq<char>, front: Seq<char>, cause: Seq<char>)
    requires
        text == front + cause,
    ensures
        cause.is_suffix_of(text),
{
    assert(text.subrange(text.len() - cause.len(), text.len() as int) =~= cause);
}

// --- comments ------------------------------------------------------------------

/// A comment that is forwarded says in brackets who said it, and then, to the
/// letter, what was said.
pub proof fn forwarded_comments_keep_their_words(peer: Seq<char>, content: Seq<char>)
    ensures
        from_peer(peer, content) == "[from "@ + peer + "] "@ + content,
{
}

/// The comments of the kind `result` travel with an answer, as they are and in their
/// order; others do not.
pub proof fn results_travel_in_order(comments: Seq<CommentView>, last: CommentView)
    ensures
        result_comments(Seq::empty()).len() == 0,
        result_comments(comments.push(last)) == (if last.kind == "result"@ {
            result_comments(comments).push(
                AnswerCommentView { content: last.content, kind: "result"@ },
            )
        } else {
            result_comments(comments)
        }),
{
    assert(comments.push(last).drop_last() =~= comments);
}

/// The comments that are forwarded stand in the order of the answer: one more comment
/// adds at most itself, at the end, namely when it is a result that is neither on the
/// issue nor among those before it.
pub proof fn forwarding_keeps_the_order(
    peer: Seq<char>,
    comments: Seq<AnswerCommentView>,
    last: AnswerCommentView,
    existing: Seq<CommentView>,
)
    ensures
        forwarded(peer, Seq::empty(), existing).len() == 0,
        ({
            let before = forwarded(peer, comments, existing);
            let text = "[from "@ + peer + "] "@ + last.content;
            let said = exists|i: int|
                0 <= i < existing.len() && (#[trigger] existing[i]).content == text;
            forwarded(peer, comments.push(last), existing) == (if last.kind == "result"@ && !said
                && !before.contains(text) {
                before.push(text)
            } else {
                before
            })
        }),
{
    assert(comments.push(last).drop_last() =~= comments);
    let text = "[from "@ + peer + "] "@ + last.content;
    let all = crate::handler::contents(existing);
    if all.contains(text) {
        let i = all.index_of(text);
        assert(existing[i].content == text);
    }
    if exists|i: int| 0 <= i < existing.len() && (#[trigger] existing[i]).content == text {
        let i = choose|i: int| 0 <= i < existing.len() && (#[trigger] existing[i]).content == text;
        assert(all[i] == text);
    }
}

/// In place of an answer without results the request gets one comment that says so.
pub proof fn an_empty_answer_is_said_to_be_empty(
    peer: Seq<char>,
    results: Seq<AnswerCommentView>,
    existing: Seq<CommentView>,
)
    ensures
        results.len() == 0 ==> collected(peer, results, existing) =~= seq![
            "[from "@ + peer + "] "@
                + "crossbridge: target agent marked answered but provided no result comments"@,
        ],
        results.len() > 0 ==> collected(peer, results, existing) == forwarded(
            peer,
            results,
            existing,
        ),
{
}

// --- the server ----------------------------------------------------------------

/// An inbound issue is marked as a request, as inbound and as open, and names the
/// repository and the issue that it came from; these are its own labels.
pub proof fn own_labels_are(slug: Seq<char>, uuid: Seq<char>, label: Seq<char>)
    ensures
        own_labels(slug, uuid).contains(label) <==> label == "type:request"@ || label
            == "xb:inbound"@ || label == "xb-status:open"@ || label == "xb-source:"@ + slug
            || label == "xb-ref:"@ + uuid,
{
    let own = own_labels(slug, uuid);
    assert(own[0] == "type:request"@ && own[1] == "xb:inbound"@ && own[2] == "xb-status:open"@);
    assert(own[3] == "xb-source:"@ + slug && own[4] == "xb-ref:"@ + uuid);
    if own.contains(label) {
        let i = own.index_of(label);
        assert(own[i] == label);
    }
}

/// The issue that a submission makes has the request's title and body, tells below
/// the body how to answer, and is of high priority and open.
pub proof fn an_inbound_issue_tells_how_to_answer(
    s: Store,
    submit: SubmitIssueView,
    repo: Seq<u8>,
    m: Result<MaterializedView, Seq<char>>,
)
    requires
        s.wf(),
        issue_with(s, "xb-ref:"@ + submit.source_uuid) is None,
    ensures
        ({
            let made = submitted(s, submit, repo, m).0.issues[s.next];
            &&& made.title == submit.title
            &&& made.body == Some(
                submit.body
                    + "\n\n---\nAfter answering, run: `crossbridge-client answer --issue <id>`"@,
            )
            &&& made.priority == "high"@
            &&& !made.closed
        }),
{
    submission_effect(s, submit, repo, m);
}

/// A submission that the database fails ends in a failure that carries the cause; it
/// goes no step further. Once the issue is there and labelled, a comment that cannot
/// be written does not count.
pub proof fn a_submission_stops_at_a_failure(t: SubmitTaskView, e: Seq<char>)
    ensures
        t.phase is FindOpen || t.phase is FindClosed || t.phase is Create || t.phase is Label ==> (
        submit_next(t, SubmitReplyView::Store(StoreReplyView::Failed(e))) matches
            SubmitPhaseView::Finished(r) && (r matches Err(text) && e.is_suffix_of(text))),
        t.phase matches SubmitPhaseView::Note { id, .. } ==> submit_next(
            t,
            SubmitReplyView::Store(StoreReplyView::Failed(e)),
        ) == SubmitPhaseView::Finished(Ok(id)),
{
    let next = submit_next(t, SubmitReplyView::Store(StoreReplyView::Failed(e)));
    if let SubmitPhaseView::Finished(Err(text)) = next {
        if !(t.phase is Finished) {
            ends_with(text, text.take(text.len() - e.len()), e);
        }
    }
}

/// What is said of attachments: which commit holds which files, or why they could not be
/// recorded. Only a submission that has any waits for them.
pub proof fn what_is_said_of_attachments(
    t: SubmitTaskView,
    id: i64,
    rec: MaterializedView,
    e: Seq<char>,
)
    ensures
        t.phase == (SubmitPhaseView::Attach { id }) ==> {
            &&& submit_next(t, SubmitReplyView::Materialized(Ok(rec))) == (SubmitPhaseView::Note {
                id,
                text: "crossbridge: materialized attachment(s) ["@ + joined(rec.filenames, ", "@)
                    + "] as commit "@ + rec.commit_id,
            })
            &&& submit_next(t, SubmitReplyView::Materialized(Err(e))) == (SubmitPhaseView::Note {
                id,
                text: "crossbridge: failed to materialize attachments: "@ + e,
            })
        },
        t.phase == (SubmitPhaseView::Label { id }) ==> submit_next(
            t,
            SubmitReplyView::Store(StoreReplyView::Done),
        ) == (if t.submit.attachments.len() == 0 {
            SubmitPhaseView::Finished(Ok(id))
        } else {
            SubmitPhaseView::Attach { id }
        }),
        t.phase == (SubmitPhaseView::Attach { id }) ==> submit_action(t)
            == SubmitActionView::Materialize(recording(t.repo, t.submit.attachments)),
{
}

/// A request that has been answered is closed, unless it is closed already: whatever
/// other status the database gives it, it is closed.
pub proof fn an_answered_request_is_closed(t: AnswerTaskView, id: i64, issue: IssueView)
    requires
        t.phase == (AnswerPhaseView::Load { id }),
    ensures
        issue.status == "closed"@ ==> answer_next(t, StoreReplyView::Found(Some(issue)))
            == AnswerPhaseView::Finished(Ok(id)),
        issue.status != "closed"@ ==> {
            let next = answer_next(t, StoreReplyView::Found(Some(issue)));
            &&& answer_action(AnswerTaskView { phase: next, ..t }) == AnswerActionView::Store(
                StoreOpView::Close { id },
            )
            &&& answer_next(AnswerTaskView { phase: next, ..t }, StoreReplyView::Done)
                == AnswerPhaseView::Finished(Ok(id))
        },
{
}

/// An answer that the database fails ends in a failure that carries the cause; an
/// answer to no request fails and names the label that was looked for.
pub proof fn an_answer_stops_at_a_failure(t: AnswerTaskView, e: Seq<char>)
    ensures
        !(t.phase is Finished) ==> (answer_next(t, StoreReplyView::Failed(e)) matches
            AnswerPhaseView::Finished(r) && (r matches Err(text) && e.is_suffix_of(text))),
        t.phase is FindClosed ==> answer_next(t, StoreReplyView::Issues(Seq::empty()))
            == AnswerPhaseView::Finished(
            Err("no local issue with label xb-ref:"@ + t.answer.source_uuid),
        ),
        t.phase matches AnswerPhaseView::Load { id } ==> (answer_next(
            t,
            StoreReplyView::Found(None),
        ) matches AnswerPhaseView::Finished(r) && r is Err),
{
    if !(t.phase is Finished) {
        if let AnswerPhaseView::Finished(Err(text)) = answer_next(t, StoreReplyView::Failed(e)) {
            ends_with(text, text.take(text.len() - e.len()), e);
        }
    }
    reveal_strlit("no local issue with label ");
    reveal_strlit("xb-ref:");
    reveal_strlit("no local issue with label xb-ref:");
    assert("no local issue with label xb-ref:"@ + t.answer.source_uuid
        =~= "no local issue with label "@ + ("xb-ref:"@ + t.answer.source_uuid));
}

// --- the client ----------------------------------------------------------------

/// What is submitted is the issue: its title, its description or nothing, all of its
/// labels, the name of its repository and its own UUID, and no attachments.
pub proof fn a_submission_is_the_issue(
    issue: IssueView,
    uuid: Seq<char>,
    labels: Seq<Seq<char>>,
    own: Seq<char>,
)
    ensures
        ({
            let sent = submission(issue, uuid, labels, own);
            &&& sent.title == issue.title
            &&& issue.description matches Some(d) ==> sent.body == d
            &&& issue.description is None ==> sent.body.len() == 0
            &&& sent.labels == labels
            &&& sent.source_slug == own
            &&& sent.source_uuid == uuid
            &&& sent.attachments.len() == 0
        }),
{
}

/// An answer goes under the name of the request and carries the results, and no
/// attachments.
pub proof fn an_answer_names_its_request(uuid: Seq<char>, results: Seq<AnswerCommentView>)
    ensures
        ({
            let sent: SubmitAnswerView = answering(uuid, results);
            &&& sent.source_uuid == uuid
            &&& sent.comments == results
            &&& sent.attachments.len() == 0
        }),
{
}

/// A round trip fails exactly when the peer is not reached, the request not sent, the
/// response not read, or the peer refuses. The failure names the peer and carries the
/// cause; a refusal is told in the peer's own words.
pub proof fn which_round_trips_fail(peer: Seq<char>, e: Seq<char>, id: i64)
    ensures
        trip_failure(peer, ClientReplyView::ConnectFailed(e)) == Some(
            "cannot reach peer '"@ + peer + "': "@ + e,
        ),
        trip_failure(peer, ClientReplyView::SendFailed(e)) == Some(
            "failed to send request to peer '"@ + peer + "': "@ + e,
        ),
        trip_failure(peer, ClientReplyView::ReadFailed(e)) == Some(
            "failed to read response from peer '"@ + peer + "': "@ + e,
        ),
        trip_failure(
            peer,
            ClientReplyView::Response(ServerResponseView::Error { message: e }),
        ) == Some(e),
        trip_failure(
            peer,
            ClientReplyView::Response(ServerResponseView::Success { issue_id: id }),
        ) is None,
{
}

/// What the commands print and how they say what is missing.
pub proof fn what_the_client_says(id: i64, peer: Seq<char>, remote: i64)
    ensures
        no_issue(id) == "issue #"@ + decimal(id as int) + " not found"@,
        not_available(peer) == "peer '"@ + peer + "' not available (not connected)"@,
        submitted_text(id, peer, remote) =~= "submitted issue #"@ + decimal(id as int) + " to '"@
            + peer + "' (remote id "@ + decimal(remote as int) + ")"@,
        answered_text(id, peer, remote) =~= "answered issue #"@ + decimal(id as int) + " -> '"@
            + peer + "' (remote id "@ + decimal(remote as int) + ")"@,
{
}

/// Only an inbound issue is answered, and only when it names the repository and the
/// request that it came from: the answer goes to that repository, under the name of
/// that request. Otherwise the command fails and says what is missing.
pub proof fn who_gets_the_answer(
    issue_id: i64,
    id: i64,
    labels: Seq<Seq<char>>,
    peer: Seq<char>,
    uuid: Seq<char>,
)
    ensures
        !labels.contains("xb:inbound"@) ==> answer_labels(issue_id, id, labels)
            == AnswerCommandPhaseView::Finished(
            Err("issue #"@ + decimal(issue_id as int) + " is not an inbound crossbridge issue"@),
        ),
        labels.contains("xb:inbound"@) && first_prefixed(labels, "xb-source:"@) is None
            ==> answer_labels(issue_id, id, labels) == AnswerCommandPhaseView::Finished(
            Err(
                "issue #"@ + decimal(issue_id as int)
                    + " is missing required label 'xb-source:<slug>'"@,
            ),
        ),
        labels.contains("xb:inbound"@) && first_prefixed(labels, "xb-source:"@) is Some
            && first_prefixed(labels, "xb-ref:"@) is None ==> answer_labels(issue_id, id, labels)
            == AnswerCommandPhaseView::Finished(
            Err(
                "issue #"@ + decimal(issue_id as int)
                    + " is missing required label 'xb-ref:<uuid>'"@,
            ),
        ),
        labels.contains("xb:inbound"@) && first_prefixed(labels, "xb-source:"@) == Some(peer)
            && first_prefixed(labels, "xb-ref:"@) == Some(uuid) ==> answer_labels(
            issue_id,
            id,
            labels,
        ) == (AnswerCommandPhaseView::Comments { id, peer, uuid }),
{
}

/// The client of `own` looks for a peer, and talks to it, at one and the same socket:
/// the one named after the peer in the directory of `own`.
pub proof fn where_the_client_calls(s: SubmitCommandView, a: AnswerCommandView)
    ensures
        s.phase is Probe ==> submit_command_action(s) == ClientActionView::Exists(
            below(
                below(s.root, encode_utf8(s.own)),
                encode_utf8(s.target + ".socket"@),
            ),
        ),
        s.phase is Send ==> (submit_command_action(s) matches ClientActionView::RoundTrip(p, _)
            && p == below(
            below(s.root, encode_utf8(s.own)),
            encode_utf8(s.target + ".socket"@),
        )),
        a.phase matches AnswerCommandPhaseView::Probe { peer, .. } ==> answer_command_action(a)
            == ClientActionView::Exists(
            below(below(a.root, encode_utf8(a.own)), encode_utf8(peer + ".socket"@)),
        ),
        a.phase matches AnswerCommandPhaseView::Send { peer, .. } ==> (answer_command_action(
            a,
        ) matches ClientActionView::RoundTrip(p, _) && p == below(
            below(a.root, encode_utf8(a.own)),
            encode_utf8(peer + ".socket"@),
        )),
{
}

/// A command that its own database fails ends in a failure that carries the cause.
pub proof fn commands_stop_at_a_failure(s: SubmitCommandView, a: AnswerCommandView, e: Seq<char>)
    ensures
        s.phase is Load || s.phase is Name || s.phase is Labels || s.phase is Mark ==> (
        submit_command_next(s, ClientReplyView::Store(StoreReplyView::Failed(e))) matches
            SubmitCommandPhaseView::Finished(r) && (r matches Err(text) && e.is_suffix_of(text))),
        a.phase is Load || a.phase is Labels || a.phase is Comments || a.phase is Mark || a.phase
            is Close ==> (answer_command_next(
            a,
            ClientReplyView::Store(StoreReplyView::Failed(e)),
        ) matches AnswerCommandPhaseView::Finished(r) && (r matches Err(text) && e.is_suffix_of(
            text,
        ))),
{
    let reply = ClientReplyView::Store(StoreReplyView::Failed(e));
    if let SubmitCommandPhaseView::Finished(Err(text)) = submit_command_next(s, reply) {
        if !(s.phase is Finished) {
            ends_with(text, text.take(text.len() - e.len()), e);
        }
    }
    if let AnswerCommandPhaseView::Finished(Err(text)) = answer_command_next(a, reply) {
        if !(a.phase is Finished) {
            ends_with(text, text.take(text.len() - e.len()), e);
        }
    }
}

// --- the polling bridge --------------------------------------------------------

/// Where a delivery goes: to the database of the repository that the request's
/// `xb-target` label names. A request without such a label fails; one for a repository
/// that is not configured is told which ones are.
pub proof fn where_a_delivery_goes(
    repos: Seq<RepoView>,
    t: OutboundTaskView,
    target: Seq<char>,
    path: Seq<u8>,
    uuid: Seq<char>,
)
    requires
        t.phase == outbound_start(repos, t.issue, t.labels),
    ensures
        first_prefixed(t.labels, "xb-target:"@) is None ==> t.phase == OutboundPhaseView::Finished(
            Err("outbound issue "@ + decimal(t.issue.id as int) + " missing xb-target label"@),
        ),
        first_prefixed(t.labels, "xb-target:"@) == Some(target) && path_of(repos, target) is None
            ==> t.phase == (OutboundPhaseView::Complain {
            text: "crossbridge: unknown target '"@ + target + "'. Available: "@ + joined(
                slugs_of(repos),
                ", "@,
            ),
        }),
        first_prefixed(t.labels, "xb-target:"@) == Some(target) && path_of(repos, target) == Some(
            path,
        ) ==> {
            let next = outbound_next(t, StoreReplyView::Uuid(uuid));
            let opening = outbound_action(OutboundTaskView { phase: next, ..t });
            &&& outbound_action(t) == RouteActionView::Do(
                RouteOpView::Here(StoreOpView::Uuid { id: t.issue.id }),
            )
            &&& opening == RouteActionView::Do(
                RouteOpView::OpenThere(
                    below(
                        below(path, encode_utf8(".crosslink"@)),
                        encode_utf8("issues.db"@),
                    ),
                ),
            )
        },
{
}

/// Where an answer is brought: to the database of the repository that the issue's
/// `xb-source` label names, and there to the issue with the UUID that its `xb-ref`
/// label names. A repository that is not configured is passed over; without one of the
/// labels the collection fails.
pub proof fn where_an_answer_is_brought(
    repos: Seq<RepoView>,
    t: CollectTaskView,
    labels: Seq<Seq<char>>,
    source: Seq<char>,
    uuid: Seq<char>,
    path: Seq<u8>,
)
    requires
        t.phase == collect_start(repos, t.id, labels),
    ensures
        first_prefixed(labels, "xb-source:"@) is None ==> t.phase == CollectPhaseView::Finished(
            Err("inbound issue "@ + decimal(t.id as int) + " missing xb-source label"@),
        ),
        first_prefixed(labels, "xb-source:"@) is Some && first_prefixed(labels, "xb-ref:"@) is None
            ==> t.phase == CollectPhaseView::Finished(
            Err("inbound issue "@ + decimal(t.id as int) + " missing xb-ref label"@),
        ),
        first_prefixed(labels, "xb-source:"@) == Some(source) && first_prefixed(
            labels,
            "xb-ref:"@,
        ) == Some(uuid) ==> {
            &&& path_of(repos, source) is None ==> (t.phase matches CollectPhaseView::Finished(r)
                && r is Ok)
            &&& path_of(repos, source) == Some(path) ==> {
                let next = collect_next(t, StoreReplyView::Done);
                &&& collect_action(t) == RouteActionView::Do(
                    RouteOpView::OpenThere(
                        below(
                            below(path, encode_utf8(".crosslink"@)),
                            encode_utf8("issues.db"@),
                        ),
                    ),
                )
                &&& collect_action(CollectTaskView { phase: next, ..t }) == RouteActionView::Do(
                    RouteOpView::There(StoreOpView::IdOf { uuid }),
                )
            }
        },
{
}

/// What a database fails, fails the delivery or the collection, and the failure carries
/// the cause. Only a request that cannot be found does not: its answered issue is
/// closed.
pub proof fn routing_stops_at_a_failure(o: OutboundTaskView, c: CollectTaskView, e: Seq<char>)
    ensures
        !(o.phase is Finished) ==> (outbound_next(o, StoreReplyView::Failed(e)) matches
            OutboundPhaseView::Finished(r) && (r matches Err(text) && e.is_suffix_of(text))),
        !(c.phase is Finished) && !(c.phase is Locate) ==> (collect_next(
            c,
            StoreReplyView::Failed(e),
        ) matches CollectPhaseView::Finished(r) && (r matches Err(text) && e.is_suffix_of(text))),
        c.phase is Locate ==> {
            let next = collect_next(c, StoreReplyView::Failed(e));
            let then = collect_next(
                CollectTaskView { phase: next, ..c },
                StoreReplyView::Done,
            );
            &&& collect_action(CollectTaskView { phase: next, ..c }) == RouteActionView::Do(
                RouteOpView::Here(StoreOpView::Close { id: c.id }),
            )
            &&& (then matches CollectPhaseView::Finished(r) && r is Ok)
        },
{
    if let OutboundPhaseView::Finished(Err(text)) = outbound_next(o, StoreReplyView::Failed(e)) {
        if !(o.phase is Finished) {
            ends_with(text, text.take(text.len() - e.len()), e);
        }
    }
    if let CollectPhaseView::Finished(Err(text)) = collect_next(c, StoreReplyView::Failed(e)) {
        if !(c.phase is Finished) {
            ends_with(text, text.take(text.len() - e.len()), e);
        }
    }
}

/// What a scan looks for: open issues marked as outbound, of which those are due whose
/// status is open; or open issues marked as inbound, of which those are due that are
/// answered. Labels are asked for of all that are listed, and the due ones are taken up
/// from the first on.
pub proof fn what_a_scan_looks_for(
    repos: Seq<RepoView>,
    t: ScanTaskView,
    issues: Seq<IssueView>,
    lists: Seq<Seq<Seq<char>>>,
    e: Seq<char>,
)
    ensures
        t.phase is List ==> {
            &&& scan_action(t) == ScanActionView::Do(
                RouteOpView::Here(
                    StoreOpView::List {
                        closed: false,
                        label: if t.outbound {
                            "xb:outbound"@
                        } else {
                            "xb:inbound"@
                        },
                    },
                ),
            )
            &&& issues.len() > 0 ==> scan_next(repos, t, StoreReplyView::Issues(issues)) == (
            ScanPhaseView::Labels { issues })
            &&& issues.len() == 0 ==> (scan_next(repos, t, StoreReplyView::Issues(issues)) matches
                ScanPhaseView::Finished(r) && r is Ok)
            &&& scan_next(repos, t, StoreReplyView::Failed(e)) == ScanPhaseView::Finished(Err(e))
        },
        t.phase == (ScanPhaseView::Labels { issues }) ==> {
            let due = if t.outbound {
                "xb-status:open"@
            } else {
                "xb-status:answered"@
            };
            &&& (scan_action(t) matches ScanActionView::Do(op) && (op matches RouteOpView::Here(o)
                && (o matches StoreOpView::LabelsOfAll { ids } && ids.len() == issues.len()
                && forall|i: int| 0 <= i < ids.len() ==> #[trigger] ids[i] == issues[i].id)))
            &&& scan_next(repos, t, StoreReplyView::LabelLists(lists)) == each_from(
                repos,
                t.outbound,
                t.slug,
                candidates(issues, lists, due),
                0,
            )
            &&& scan_next(repos, t, StoreReplyView::Failed(e)) == ScanPhaseView::Finished(Err(e))
        },
{
}

/// A cycle goes through the repositories in their order: it opens the database of each,
/// first delivers what goes out from there, then collects what was answered there, and
/// ends behind the last one.
pub proof fn a_cycle_visits_every_repository(
    repos: Seq<RepoView>,
    t: CycleTaskView,
    s: ScanTaskView,
    reply: StoreReplyView,
)
    ensures
        t.at >= repos.len() ==> cycle_action(repos, t) is Finish,
        t.at < repos.len() && t.phase is Open ==> {
            &&& cycle_action(repos, t) == CycleActionView::OpenHere(
                below(
                    below(repos[t.at as int].path, encode_utf8(".crosslink"@)),
                    encode_utf8("issues.db"@),
                ),
            )
            &&& cycle_next(repos, t, StoreReplyView::Done) == (CycleTaskView {
                at: t.at,
                phase: CyclePhaseView::Scanning(
                    ScanTaskView {
                        outbound: true,
                        slug: repos[t.at as int].slug,
                        phase: ScanPhaseView::List,
                    },
                ),
            })
        },
        t.at < repos.len() && t.phase == CyclePhaseView::Scanning(s) && scan_action(s) is Return
            ==> cycle_next(repos, t, reply) == (if s.outbound {
            CycleTaskView {
                at: t.at,
                phase: CyclePhaseView::Scanning(
                    ScanTaskView { outbound: false, slug: s.slug, phase: ScanPhaseView::List },
                ),
            }
        } else {
            CycleTaskView { at: t.at + 1, phase: CyclePhaseView::Open }
        }),
{
}

} // verus!
