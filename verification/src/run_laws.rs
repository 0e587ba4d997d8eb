//! What holds of a server's life as a whole.

use vstd::prelude::*;

use crate::listeners::{
    add_applies, add_next, add_steps_keep_order, changes_keep_order, position, position_is,
    set_next, AddPhaseView, AddTaskView, ListenerSetView,
};
use crate::messages::NotificationView;
use crate::paths::register_below;
use crate::registry::OutcomeView;
use crate::run::{
    as_outcome, cleared, closing, installing, server_action, server_next, ServerActionView,
    ServerPhaseView, ServerReplyView, ServerTaskView,
};
use crate::uplink::UplinkActionView;

verus! {

broadcast use vstd::seq_lib::group_seq_properties;

/// What holds of a server at every step: its sockets are in order, and it has none
/// while it is starting, registering, closing down or done.
pub open spec fn in_order(t: ServerTaskView) -> bool {
    &&& t.set.wf()
    &&& match t.phase {
        ServerPhaseView::Install { task, .. } => add_applies(t.set, task),
        ServerPhaseView::Join(task) => add_applies(t.set, task),
        ServerPhaseView::Ready => true,
        ServerPhaseView::Leave(_) => true,
        ServerPhaseView::Serve { .. } => true,
        ServerPhaseView::Disconnect { stop } => stop ==> t.set.entries.len() == 0,
        _ => t.set.entries.len() == 0,
    }
}

/// A server is in order at every step, whatever it is told: no peer has two sockets,
/// and a server that registers, or has returned, listens at none.
pub proof fn steps_stay_in_order(t: ServerTaskView, reply: ServerReplyView)
    requires
        in_order(t),
    ensures
        in_order(server_next(t, reply)),
{
    let next = server_next(t, reply);
    match t.phase {
        ServerPhaseView::Install { task, .. } => {
            if let Some(o) = as_outcome(reply) {
                add_steps_keep_order(t.set, task, o);
            }
        },
        ServerPhaseView::Join(task) => {
            if let Some(o) = as_outcome(reply) {
                add_steps_keep_order(t.set, task, o);
            }
        },
        ServerPhaseView::Ready => {
            if let ServerReplyView::Notified(
                Ok(Some(NotificationView::PeerLeft { slug })),
            ) = reply {
                changes_keep_order(t.set, slug);
            }
        },
        _ => {},
    }
    assert(next.set.wf());
}

/// Where a server stands after several replies.
pub open spec fn server_runs(t: ServerTaskView, replies: Seq<ServerReplyView>) -> ServerTaskView
    decreases replies.len(),
{
    if replies.len() == 0 {
        t
    } else {
        server_next(server_runs(t, replies.drop_last()), replies.last())
    }
}

/// A server that is told to stop, or loses the supervisor, closes every socket that
/// it has, in turn, and whatever comes of it; then it leaves the supervisor and
/// returns, or registers anew.
pub proof fn every_socket_is_closed(
    t: ServerTaskView,
    stop: bool,
    replies: Seq<ServerReplyView>,
)
    requires
        replies.len() <= t.set.entries.len(),
    ensures
        server_action(server_runs(cleared(t, stop), replies)) == (if replies.len()
            < t.set.entries.len() {
            let socket = t.set.entries[replies.len() as int];
            ServerActionView::Close { peer: socket.peer, path: socket.path }
        } else if stop {
            ServerActionView::Disconnect
        } else {
            ServerActionView::Uplink(UplinkActionView::Connect(register_below(t.set.root)))
        }),
{
    closing_runs(t, stop, replies);
}

/// Where the closing stands after some of the sockets.
proof fn closing_runs(t: ServerTaskView, stop: bool, replies: Seq<ServerReplyView>)
    requires
        replies.len() <= t.set.entries.len(),
    ensures
        server_runs(cleared(t, stop), replies) == (ServerTaskView {
            phase: closing(t, t.set.entries.skip(replies.len() as int), stop),
            ..cleared(t, stop)
        }),
    decreases replies.len(),
{
    let sockets = t.set.entries;
    let n = replies.len() as int;
    if n == 0 {
        assert(sockets.skip(0) =~= sockets);
    } else {
        closing_runs(t, stop, replies.drop_last());
        let left = sockets.skip(n - 1);
        assert(left.remove(0) =~= sockets.skip(n));
    }
}

/// A server that waits and is told to stop returns without an error as soon as it
/// has closed its sockets and left the supervisor.
pub proof fn stopping_ends_well(t: ServerTaskView, replies: Seq<ServerReplyView>)
    requires
        t.phase is Ready || t.phase is Register,
        replies.len() == t.set.entries.len() + 1,
    ensures
        server_action(server_runs(server_next(t, ServerReplyView::Shutdown), replies))
            == ServerActionView::Return(Ok(())),
{
    closing_runs(t, true, replies.drop_last());
}

/// Whatever comes of a request, the server goes on waiting, with the sockets that it
/// had.
pub proof fn a_request_stops_nothing(t: ServerTaskView, peer: Seq<char>, reply: ServerReplyView)
    requires
        t.phase is Ready,
    ensures
        server_action(server_next(t, ServerReplyView::Accepted(peer))) == (
        ServerActionView::Serve { peer }),
        server_next(server_next(t, ServerReplyView::Accepted(peer)), reply) == t,
{
}

/// True when the socket was opened.
pub open spec fn succeeded(phase: AddPhaseView) -> bool {
    phase matches AddPhaseView::Finished(r) && r is Ok
}

/// A peer's socket that was opened is listened at, and no other peer's socket is
/// touched by any step of the opening.
pub proof fn opening_serves_its_peer(
    set: ListenerSetView,
    t: AddTaskView,
    outcome: OutcomeView,
    other: Seq<char>,
)
    requires
        other != t.peer,
        !(t.phase is Finished),
    ensures
        succeeded(add_next(set, t, outcome)) ==> listens_for(set_next(set, t, outcome), t.peer),
        listens_for(set_next(set, t, outcome), other) == listens_for(set, other),
{
    let next = set_next(set, t, outcome);
    position_is(set.entries, t.peer, 0);
    if let (AddPhaseView::Bind, OutcomeView::Done) = (t.phase, outcome) {
        let n = set.entries.len() as int;
        assert(next.entries[n].peer == t.peer);
        assert forall|i: int| 0 <= i < n implies next.entries[i] == set.entries[i] by {}
    }
    if let (AddPhaseView::MakeDir, OutcomeView::Done) = (t.phase, outcome) {
        removal_spares(set, t.peer, other);
    }
    if listens_for(set, other) {
        let i = choose|i: int| 0 <= i < set.entries.len() && (#[trigger] set.entries[i]).peer == other;
        if t.phase is Bind {
            assert(set.with(t.peer).entries[i].peer == other);
        }
    }
}

/// True when the set has a socket for the peer.
pub open spec fn listens_for(set: ListenerSetView, peer: Seq<char>) -> bool {
    exists|i: int| 0 <= i < set.entries.len() && (#[trigger] set.entries[i]).peer == peer
}

/// Taking one peer's socket out leaves the others.
proof fn removal_spares(set: ListenerSetView, peer: Seq<char>, other: Seq<char>)
    requires
        other != peer,
    ensures
        listens_for(set.without(peer), other) == listens_for(set, other),
{
    position_is(set.entries, peer, 0);
    let less = set.without(peer);
    if let Some(k) = position(set.entries, peer, 0) {
        if listens_for(set, other) {
            let i = choose|i: int|
                0 <= i < set.entries.len() && (#[trigger] set.entries[i]).peer == other;
            let j = if i < k {
                i
            } else {
                i - 1
            };
            assert(less.entries[j] == set.entries[i]);
        }
        if listens_for(less, other) {
            let j = choose|j: int|
                0 <= j < less.entries.len() && (#[trigger] less.entries[j]).peer == other;
            let i = if j < k {
                j
            } else {
                j + 1
            };
            assert(less.entries[j] == set.entries[i]);
        }
    }
}

/// What has become of the peers that the supervisor named: of each, the socket is
/// still to be opened or being opened, or it is listened at, or its opening has
/// failed and was reported.
pub open spec fn accounted_for(
    t: ServerTaskView,
    peers: Seq<Seq<char>>,
    failed: Set<Seq<char>>,
) -> bool {
    &&& forall|i: int|
        0 <= i < peers.len() ==> #[trigger] failed.contains(peers[i]) || listens_for(
            t.set,
            peers[i],
        ) || to_be_opened(t, peers[i])
    &&& t.phase matches ServerPhaseView::Install { task, .. } ==> (succeeded(task.phase)
        ==> listens_for(t.set, task.peer))
}

/// True when the opening of the peer's socket is under way or to come.
pub open spec fn to_be_opened(t: ServerTaskView, peer: Seq<char>) -> bool {
    t.phase matches ServerPhaseView::Install { task, others } && (task.peer == peer
        || others.contains(peer))
}

/// A server that has registered accounts for every peer that the supervisor named,
/// at every step until it waits; then each is listened for, unless the failure of
/// its opening was reported.
pub proof fn named_peers_are_served(
    t: ServerTaskView,
    peers: Seq<Seq<char>>,
    failed: Set<Seq<char>>,
    reply: ServerReplyView,
)
    ensures
        accounted_for(ServerTaskView { phase: installing(peers), ..t }, peers, failed),
        t.phase is Install && accounted_for(t, peers, failed) ==> accounted_for(
            server_next(t, reply),
            peers,
            match server_action(t) {
                ServerActionView::Report { peer, result: Err(_) } => failed.insert(peer),
                _ => failed,
            },
        ),
        t.phase is Ready && accounted_for(t, peers, failed) ==> forall|i: int|
            0 <= i < peers.len() && !(#[trigger] failed.contains(peers[i])) ==> listens_for(
                t.set,
                peers[i],
            ),
{
    let fresh = ServerTaskView { phase: installing(peers), ..t };
    assert forall|i: int| 0 <= i < peers.len() implies to_be_opened(fresh, peers[i]) by {
        if i > 0 {
            assert(peers.remove(0)[i - 1] == peers[i]);
        }
    }
    if t.phase is Install && accounted_for(t, peers, failed) {
        a_step_accounts(t, peers, failed, reply);
    }
}

/// One step of the opening of the sockets.
proof fn a_step_accounts(
    t: ServerTaskView,
    peers: Seq<Seq<char>>,
    failed: Set<Seq<char>>,
    reply: ServerReplyView,
)
    requires
        t.phase is Install,
        accounted_for(t, peers, failed),
    ensures
        accounted_for(
            server_next(t, reply),
            peers,
            match server_action(t) {
                ServerActionView::Report { peer, result: Err(_) } => failed.insert(peer),
                _ => failed,
            },
        ),
{
    let next = server_next(t, reply);
    if let ServerPhaseView::Install { task, others } = t.phase {
        let more = match server_action(t) {
            ServerActionView::Report { peer, result: Err(_) } => failed.insert(peer),
            _ => failed,
        };
        if let AddPhaseView::Finished(r) = task.phase {
            if r is Err {
                assert(more == failed.insert(task.peer));
            }
            assert forall|i: int| 0 <= i < peers.len() implies #[trigger] more.contains(peers[i])
                || listens_for(next.set, peers[i]) || to_be_opened(next, peers[i]) by {
                let p = peers[i];
                assert(failed.contains(peers[i]) || listens_for(t.set, p) || to_be_opened(t, p));
                if task.peer != p && others.contains(p) {
                    let k = choose|k: int| 0 <= k < others.len() && others[k] == p;
                    if k > 0 {
                        assert(others.remove(0)[k - 1] == p);
                    }
                }
            }
        } else if let Some(o) = as_outcome(reply) {
            assert forall|i: int| 0 <= i < peers.len() implies #[trigger] more.contains(peers[i])
                || listens_for(next.set, peers[i]) || to_be_opened(next, peers[i]) by {
                let p = peers[i];
                assert(failed.contains(peers[i]) || listens_for(t.set, p) || to_be_opened(t, p));
                if task.peer != p {
                    opening_serves_its_peer(t.set, task, o, p);
                }
            }
            let q = task.peer.push('.');
            opening_serves_its_peer(t.set, task, o, q);
        }
    }
}

/// A peer that has left is listened for no more, its socket is closed, and the
/// other peers' sockets stay.
pub proof fn a_peer_that_left_is_dropped(t: ServerTaskView, peer: Seq<char>, other: Seq<char>)
    requires
        t.phase is Ready,
        t.set.wf(),
        other != peer,
    ensures
        ({
            let next = server_next(
                t,
                ServerReplyView::Notified(Ok(Some(NotificationView::PeerLeft { slug: peer }))),
            );
            &&& !listens_for(next.set, peer)
            &&& listens_for(next.set, other) == listens_for(t.set, other)
            &&& listens_for(t.set, peer) ==> (server_action(next) matches ServerActionView::Close {
                peer: closed,
                ..
            } && closed == peer)
        }),
{
    changes_keep_order(t.set, peer);
    position_is(t.set.entries, peer, 0);
    position_is(t.set.without(peer).entries, peer, 0);
    removal_spares(t.set, peer, other);
}

} // verus!
