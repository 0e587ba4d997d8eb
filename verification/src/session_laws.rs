//! Steps of the supervisor and of the servers: what they ask for, what they say to
//! each other, and where they lead when something fails.

use vstd::prelude::*;
use vstd::utf8::*;

use crate::compose::joined;
use crate::encoding::lossy;
use crate::listeners::{
    add_action, add_next, position_is, set_next, AddActionView, AddPhaseView, AddTaskView,
    ListenerSetView, ListenerView,
};
use crate::messages::{NotificationView, RegisterResponseView, RegisterView, SupervisorMessageView};
use crate::pathname::below;
use crate::registry::{
    membership_action, membership_next, registration, registry_next, MembershipActionView,
    MembershipPhaseView, MembershipTaskView, OutcomeView, RegistryView,
};
use crate::run::{
    server_action, server_next, ServerActionView, ServerPhaseView, ServerReplyView, ServerTaskView,
};
use crate::supervisor::{
    start_action, start_next, FoundView, StartActionView, StartPhaseView, StartReplyView,
    StartTaskView,
};
use crate::uplink::{
    all_quoted, notification_text, quoted, response_text, uplink_action, uplink_next,
    UplinkActionView, UplinkPhaseView, UplinkReplyView, UplinkTaskView,
};

verus! {

broadcast use vstd::seq_lib::group_seq_properties;

/// A cause at the end of a text.
proof fn ends_with(text: Seq<char>, cause: Seq<char>)
    requires
        cause.len() <= text.len(),
        text =~= text.take(text.len() - cause.len()) + cause,
    ensures
        cause.is_suffix_of(text),
{
    assert(text.subrange(text.len() - cause.len(), text.len() as int) =~= cause);
}

// --- the supervisor ------------------------------------------------------------

/// A server is refused at once exactly when another one of the same group has its
/// slug; the same slug in another group is no hindrance. Any other server is given
/// its directory, which is named after it.
pub proof fn who_is_refused(reg: RegistryView, register: RegisterView)
    ensures
        ({
            let t = registration(reg, register);
            let taken = exists|i: int|
                0 <= i < reg.members.len() && (#[trigger] reg.members[i]).slug == register.slug
                    && reg.members[i].group == register.group;
            &&& t.slug == register.slug
            &&& t.group == register.group
            &&& taken ==> membership_action(reg, t) == MembershipActionView::Respond(
                SupervisorMessageView::RegisterResponse(
                    RegisterResponseView::Nack {
                        reason: "slug '"@ + register.slug + "' already registered in group '"@
                            + register.group + "'"@,
                    },
                ),
            )
            &&& !taken ==> membership_action(reg, t) == MembershipActionView::CreateDir(
                below(reg.base_dir, encode_utf8(register.slug)),
            )
        }),
{
}

/// A server whose directory cannot be made is refused with the cause. One that cannot
/// be greeted leaves nothing behind: its directory is removed and it is no member. The
/// directory of a server that has left is removed, before its peers are told.
pub proof fn a_failed_registration_is_undone(
    reg: RegistryView,
    t: MembershipTaskView,
    e: Seq<char>,
    outcome: OutcomeView,
)
    ensures
        t.phase is MakeDir ==> {
            let next = membership_next(reg, t, OutcomeView::Failed(e));
            &&& (next matches MembershipPhaseView::Refuse { reason } && e.is_suffix_of(reason))
            &&& registry_next(reg, t, OutcomeView::Failed(e)) == reg
            &&& membership_next(reg, t, OutcomeView::Done) is Greet
        },
        t.phase is Greet ==> {
            let next = membership_next(reg, t, OutcomeView::Failed(e));
            let then = MembershipTaskView { phase: next, ..t };
            &&& registry_next(reg, t, OutcomeView::Failed(e)) == reg
            &&& membership_action(reg, then) == MembershipActionView::RemoveDir(
                below(reg.base_dir, encode_utf8(t.slug)),
            )
            &&& registry_next(reg, then, outcome) == reg
            &&& (membership_next(reg, then, outcome) matches MembershipPhaseView::Finished {
                departed,
            } && departed.len() == 0)
        },
        t.phase is Forget ==> {
            let then = MembershipTaskView { phase: membership_next(reg, t, outcome), ..t };
            &&& membership_action(reg, then) == MembershipActionView::RemoveDir(
                below(reg.base_dir, encode_utf8(t.slug)),
            )
            &&& membership_next(reg, then, outcome) is Tell
        },
{
    if let MembershipPhaseView::Refuse { reason } = membership_next(
        reg,
        t,
        OutcomeView::Failed(e),
    ) {
        if t.phase is MakeDir {
            ends_with(reason, e);
        }
    }
}

/// A supervisor reads the directory of its socket, makes it where there is none, and
/// opens the socket only then. Whatever fails ends the start, with the cause.
pub proof fn steps_of_a_start(t: StartTaskView, e: Seq<char>)
    ensures
        t.phase is List ==> {
            let then = StartTaskView { phase: start_next(t, StartReplyView::NotFound), ..t };
            let last = StartTaskView { phase: start_next(then, StartReplyView::Done), ..t };
            &&& start_action(t) == StartActionView::ReadDir(t.base)
            &&& start_action(then) == StartActionView::CreateDir(t.base)
            &&& start_action(last) == StartActionView::Bind(t.socket)
        },
        t.phase is Bind ==> start_action(
            StartTaskView { phase: start_next(t, StartReplyView::Done), ..t },
        ) == StartActionView::Return(Ok(t.base)),
        !(t.phase is Finished) ==> (start_next(t, StartReplyView::Failed(e)) matches
            StartPhaseView::Finished(r) && (r matches Err(text) && e.is_suffix_of(text))),
{
    if !(t.phase is Finished) {
        if let StartPhaseView::Finished(Err(text)) = start_next(t, StartReplyView::Failed(e)) {
            ends_with(text, e);
        }
    }
}

// --- registering with the supervisor -------------------------------------------

/// A registration connects to the register socket, sends slug and group, and reads
/// the response. An acceptance ends it with the peers that were named, a rejection with
/// the reason. Any other failure ends the attempt with the cause: then it waits, if it
/// may try again, or has failed.
pub proof fn steps_of_a_registration(
    t: UplinkTaskView,
    peers: Seq<Seq<char>>,
    reason: Seq<char>,
    e: Seq<char>,
)
    ensures
        t.phase is Connect ==> uplink_action(t) == UplinkActionView::Connect(t.socket) && (
        uplink_next(t, UplinkReplyView::Done).phase is Send),
        t.phase is Send ==> uplink_action(t) == UplinkActionView::Send(
            RegisterView { slug: t.slug, group: t.group },
        ) && (uplink_next(t, UplinkReplyView::Done).phase is Receive),
        t.phase is Receive ==> {
            &&& uplink_action(t) is Receive
            &&& uplink_action(
                uplink_next(
                    t,
                    UplinkReplyView::Message(
                        SupervisorMessageView::RegisterResponse(
                            RegisterResponseView::Ack { peers },
                        ),
                    ),
                ),
            ) == UplinkActionView::Return(Ok(peers))
            &&& (uplink_action(
                uplink_next(
                    t,
                    UplinkReplyView::Message(
                        SupervisorMessageView::RegisterResponse(
                            RegisterResponseView::Nack { reason },
                        ),
                    ),
                ),
            ) matches UplinkActionView::Return(r) && (r matches Err(text) && reason.is_suffix_of(
                text,
            )))
        },
        t.phase is Connect || t.phase is Send || t.phase is Receive ==> {
            let next = uplink_next(t, UplinkReplyView::Failed(e));
            &&& t.retry ==> (uplink_action(next) matches UplinkActionView::Wait { secs, cause }
                && secs == t.backoff && e.is_suffix_of(cause))
            &&& !t.retry ==> (uplink_action(next) matches UplinkActionView::Return(r) && (
            r matches Err(text) && e.is_suffix_of(text)))
        },
        t.phase is Wait ==> uplink_next(t, UplinkReplyView::Done).phase is Connect,
{
    let next = uplink_next(t, UplinkReplyView::Failed(e));
    if t.phase is Connect || t.phase is Send || t.phase is Receive {
        match next.phase {
            UplinkPhaseView::Wait { cause } => {
                ends_with(cause, e);
            },
            UplinkPhaseView::Finished(Err(text)) => {
                ends_with(text, e);
            },
            _ => {},
        }
    }
    if t.phase is Receive {
        let nack = UplinkReplyView::Message(
            SupervisorMessageView::RegisterResponse(RegisterResponseView::Nack { reason }),
        );
        if let UplinkPhaseView::Finished(Err(text)) = uplink_next(t, nack).phase {
            ends_with(text, reason);
        }
    }
}

// --- sockets -------------------------------------------------------------------

/// A socket is opened in these steps: the peer's directory is made; an old socket of
/// the peer is closed; a file that is left at the socket's place is removed; the socket
/// is opened there. Only a directory that cannot be made and a socket that cannot be
/// opened are failures; they are told as they are, and then the peer is not listened
/// for.
pub proof fn steps_of_an_opening(set: ListenerSetView, t: AddTaskView, e: Seq<char>)
    ensures
        ({
            let dir = below(set.root, encode_utf8(t.peer));
            let path = below(dir, encode_utf8(set.own_slug + ".socket"@));
            let done = add_next(set, t, OutcomeView::Done);
            let failed = add_next(set, t, OutcomeView::Failed(e));
            &&& t.phase is MakeDir ==> (match done {
                AddPhaseView::Probe => forall|i: int|
                    0 <= i < set.entries.len() ==> (#[trigger] set.entries[i]).peer != t.peer,
                AddPhaseView::CloseOld { path: old } => exists|i: int|
                    0 <= i < set.entries.len() && (#[trigger] set.entries[i]).peer == t.peer
                        && set.entries[i].path == old,
                _ => false,
            })
            &&& t.phase is MakeDir ==> add_action(set, t) == AddActionView::CreateDir(dir)
                && failed == AddPhaseView::Finished(Err(e)) && set_next(
                set,
                t,
                OutcomeView::Failed(e),
            ) == set
            &&& t.phase matches AddPhaseView::CloseOld { path: old } ==> add_action(set, t) == (
            AddActionView::Close { peer: t.peer, path: old }) && done is Probe && failed is Probe
            &&& t.phase is Probe ==> add_action(set, t) == AddActionView::Exists(path) && (done
                is RemoveStale) && (failed is Bind)
            &&& t.phase is RemoveStale ==> add_action(set, t) == AddActionView::RemoveFile(path)
                && (done is Bind) && (failed is Bind)
            &&& t.phase is Bind ==> add_action(set, t) == (AddActionView::Bind {
                peer: t.peer,
                path,
            }) && (done matches AddPhaseView::Finished(r) && r is Ok) && failed
                == AddPhaseView::Finished(Err(e)) && set_next(set, t, OutcomeView::Failed(e)) == set
        }),
{
    position_is(set.entries, t.peer, 0);
}

/// While a socket is opened, the set of sockets changes twice: once the directory is
/// there the peer's old socket is out, and no other; once the new one is open it is in,
/// behind the others.
pub proof fn an_opening_changes_one_socket(
    set: ListenerSetView,
    t: AddTaskView,
    outcome: OutcomeView,
    l: ListenerView,
)
    requires
        set.wf(),
    ensures
        t.phase is MakeDir && outcome is Done ==> {
            let after = set_next(set, t, outcome);
            &&& after.own_slug == set.own_slug && after.root == set.root
            &&& after.entries.contains(l) <==> set.entries.contains(l) && l.peer != t.peer
        },
        t.phase is Bind && outcome is Done ==> set_next(set, t, outcome) == (ListenerSetView {
            entries: set.entries + seq![
                ListenerView {
                    peer: t.peer,
                    path: below(
                        below(set.root, encode_utf8(t.peer)),
                        encode_utf8(set.own_slug + ".socket"@),
                    ),
                },
            ],
            ..set
        }),
        !(t.phase is MakeDir || t.phase is Bind) || outcome is Failed ==> set_next(set, t, outcome)
            == set,
{
    position_is(set.entries, t.peer, 0);
    if t.phase is MakeDir && outcome is Done {
        let after = set_next(set, t, outcome);
        if let Some(i) = crate::listeners::position(set.entries, t.peer, 0) {
            if set.entries.contains(l) && l.peer != t.peer {
                let j = set.entries.index_of(l);
                assert(after.entries[if j < i {
                    j
                } else {
                    j - 1
                }] == l);
            }
            if after.entries.contains(l) {
                let k = after.entries.index_of(l);
                let j = if k < i {
                    k
                } else {
                    k + 1
                };
                assert(set.entries[j] == l && j != i);
                assert(set.entries[i].peer == t.peer);
                assert(l.peer != t.peer) by {
                    if j < i {
                        assert(set.entries[j].peer != set.entries[i].peer);
                    } else {
                        assert(set.entries[i].peer != set.entries[j].peer);
                    }
                }
            }
        }
    }
    if t.phase is Bind && outcome is Done {
        let one = ListenerView {
            peer: t.peer,
            path: below(
                below(set.root, encode_utf8(t.peer)),
                encode_utf8(set.own_slug + ".socket"@),
            ),
        };
        assert(set.entries.push(one) =~= set.entries + seq![one]);
    }
}

// --- a server's life -----------------------------------------------------------

/// A server starts only where there is a database, which it opens; then it registers
/// its slug and group at the register socket below its root, and tries again as long as
/// it takes. Without a database it ends and says where it looked; a database that
/// cannot be opened ends it with the cause.
pub proof fn how_a_server_starts(t: ServerTaskView, e: Seq<char>)
    ensures
        ({
            let db = below(below(t.repo, encode_utf8(".crosslink"@)), encode_utf8("issues.db"@));
            &&& t.phase is CheckDb ==> {
                &&& server_action(t) == ServerActionView::Exists(db)
                &&& server_action(server_next(t, ServerReplyView::Answer(true)))
                    == ServerActionView::OpenDb(db)
                &&& (server_next(t, ServerReplyView::Answer(false)).phase matches
                    ServerPhaseView::Finished(r) && (r matches Err(text) && text
                    == "crosslink DB not found at "@ + lossy(db) + " (run `crosslink init` in "@
                    + lossy(t.repo) + " first)"@))
            }
            &&& t.phase is OpenDb ==> {
                &&& (server_next(t, ServerReplyView::Done).phase matches ServerPhaseView::Register(
                    u,
                ) && u.socket == below(t.set.root, encode_utf8("register.socket"@)) && u.slug
                    == t.slug && u.group == t.group && u.retry && u.backoff == 1
                    && u.phase is Connect)
                &&& (server_next(t, ServerReplyView::Failed(e)).phase matches
                    ServerPhaseView::Finished(r) && (r matches Err(text) && e.is_suffix_of(text)))
            }
        }),
{
    if t.phase is OpenDb {
        if let ServerPhaseView::Finished(Err(text)) = server_next(
            t,
            ServerReplyView::Failed(e),
        ).phase {
            ends_with(text, e);
        }
    }
}

/// What a waiting server does: it opens a socket for a peer that has come, and closes
/// that of one that has gone; it serves a connection; it leaves the supervisor, to
/// register anew, when the supervisor is gone or says what it should not. A peer that
/// has gone and was not listened for changes nothing.
pub proof fn what_a_waiting_server_does(
    t: ServerTaskView,
    peer: Seq<char>,
    e: Seq<char>,
    reply: ServerReplyView,
)
    requires
        t.phase is Ready,
    ensures
        server_action(t) is Await,
        ({
            let joined = server_next(
                t,
                ServerReplyView::Notified(Ok(Some(NotificationView::PeerJoined { slug: peer }))),
            );
            &&& joined.set == t.set
            &&& server_action(joined) == ServerActionView::Listen(
                AddActionView::CreateDir(below(t.set.root, encode_utf8(peer))),
            )
        }),
        (forall|i: int| 0 <= i < t.set.entries.len() ==> (#[trigger] t.set.entries[i]).peer
            != peer) ==> server_next(
            t,
            ServerReplyView::Notified(Ok(Some(NotificationView::PeerLeft { slug: peer }))),
        ) == t,
        server_action(server_next(t, ServerReplyView::Accepted(peer))) == (
        ServerActionView::Serve { peer }),
        ({
            let lost = server_next(t, ServerReplyView::Notified(Ok(None)));
            let wrong = server_next(t, ServerReplyView::Notified(Err(e)));
            &&& lost == wrong
            &&& lost.set == t.set
            &&& server_action(lost) is Disconnect
            &&& server_next(lost, reply) == crate::run::cleared(lost, false)
        }),
        server_next(t, ServerReplyView::Shutdown) == crate::run::cleared(t, true),
{
    position_is(t.set.entries, peer, 0);
}

/// A server that is accepted opens a socket for each peer that was named, the first one
/// first; with no peers it waits at once. One that is rejected ends with the reason.
pub proof fn an_accepted_server_listens(
    t: ServerTaskView,
    u: UplinkTaskView,
    peers: Seq<Seq<char>>,
    reason: Seq<char>,
)
    requires
        t.phase == ServerPhaseView::Register(u),
        u.phase is Receive,
    ensures
        ({
            let next = server_next(
                t,
                ServerReplyView::Message(
                    SupervisorMessageView::RegisterResponse(RegisterResponseView::Ack { peers }),
                ),
            );
            &&& next.set == t.set
            &&& peers.len() == 0 ==> server_action(next) is Await
            &&& peers.len() > 0 ==> server_action(next) == ServerActionView::Listen(
                AddActionView::CreateDir(below(t.set.root, encode_utf8(peers[0]))),
            )
        }),
        ({
            let next = server_next(
                t,
                ServerReplyView::Message(
                    SupervisorMessageView::RegisterResponse(RegisterResponseView::Nack { reason }),
                ),
            );
            server_action(next) matches ServerActionView::Return(r) && (r matches Err(text)
                && reason.is_suffix_of(text))
        }),
{
    let nack = ServerReplyView::Message(
        SupervisorMessageView::RegisterResponse(RegisterResponseView::Nack { reason }),
    );
    if let ServerPhaseView::Finished(Err(text)) = server_next(t, nack).phase {
        ends_with(text, reason);
    }
}

/// A message that is no response to the registration fails the attempt.
pub proof fn a_notification_is_no_response(t: UplinkTaskView, n: NotificationView)
    requires
        t.phase is Receive,
    ensures
        ({
            let next = uplink_next(
                t,
                UplinkReplyView::Message(SupervisorMessageView::Notification(n)),
            );
            &&& t.retry ==> next.phase is Wait
            &&& !t.retry ==> (next.phase matches UplinkPhaseView::Finished(r) && r is Err)
        }),
{
}

/// What is in the directory is removed one entry after another, in the order in which
/// it was listed, and then the socket is opened.
pub proof fn entries_go_one_by_one(
    t: StartTaskView,
    name: Seq<u8>,
    is_dir: bool,
    rest: Seq<FoundView>,
)
    ensures
        t.phase is List ==> {
            let one = FoundView::Item { name, is_dir: Ok(is_dir) };
            let next = StartTaskView {
                phase: start_next(t, StartReplyView::Listed(seq![one] + rest)),
                ..t
            };
            &&& start_action(next) == (if is_dir {
                StartActionView::RemoveDir(below(t.base, name))
            } else {
                StartActionView::RemoveFile(below(t.base, name))
            })
            &&& start_next(next, StartReplyView::Done) == start_next(
                t,
                StartReplyView::Listed(rest),
            )
            &&& start_next(t, StartReplyView::Listed(Seq::empty())) is Bind
        },
{
    let all = seq![FoundView::Item { name, is_dir: Ok(is_dir) }] + rest;
    assert(all[0] == (FoundView::Item { name, is_dir: Ok::<bool, Seq<char>>(is_dir) }));
    assert(all.remove(0) =~= rest);
}

/// An entry that could not be read, or whose kind is not known, ends the start with the
/// cause; nothing behind it is removed, and the socket is not opened.
pub proof fn an_unknown_entry_ends_the_start(
    t: StartTaskView,
    found: Seq<FoundView>,
    e: Seq<char>,
)
    requires
        t.phase is List,
        found.len() > 0,
        found[0] == FoundView::Unread(e) || (found[0] matches FoundView::Item { is_dir, .. }
            && is_dir == Err::<bool, Seq<char>>(e)),
    ensures
        start_next(t, StartReplyView::Listed(found)) matches StartPhaseView::Finished(r) && (
        r matches Err(text) && e.is_suffix_of(text)),
{
    if let StartPhaseView::Finished(Err(text)) = start_next(t, StartReplyView::Listed(found)) {
        ends_with(text, e);
    }
}

/// While a server registers, its registration goes by its own rules, and the server with
/// it: until the registration has ended it does nothing else.
pub proof fn a_registering_server_follows_its_registration(
    t: ServerTaskView,
    u: UplinkTaskView,
    m: SupervisorMessageView,
    e: Seq<char>,
)
    requires
        t.phase == ServerPhaseView::Register(u),
    ensures
        server_action(t) == ServerActionView::Uplink(uplink_action(u)),
        ({
            let next = uplink_next(u, UplinkReplyView::Done);
            !(next.phase is Finished) ==> server_next(t, ServerReplyView::Done) == (
            ServerTaskView { phase: ServerPhaseView::Register(next), ..t })
        }),
        ({
            let next = uplink_next(u, UplinkReplyView::Failed(e));
            !(next.phase is Finished) ==> server_next(t, ServerReplyView::Failed(e)) == (
            ServerTaskView { phase: ServerPhaseView::Register(next), ..t })
        }),
        ({
            let next = uplink_next(u, UplinkReplyView::Message(m));
            !(next.phase is Finished) ==> server_next(t, ServerReplyView::Message(m)) == (
            ServerTaskView { phase: ServerPhaseView::Register(next), ..t })
        }),
{
}

/// While a server opens a socket, the opening goes by its own rules. When it has ended,
/// its end is reported; then the next peer's socket is opened, or the server waits.
pub proof fn an_opening_server_follows_the_opening(
    t: ServerTaskView,
    task: AddTaskView,
    others: Seq<Seq<char>>,
    e: Seq<char>,
    reply: ServerReplyView,
)
    ensures
        t.phase == ServerPhaseView::Join(task) && !(task.phase is Finished) ==> {
            &&& server_action(t) == ServerActionView::Listen(add_action(t.set, task))
            &&& server_next(t, ServerReplyView::Done) == (ServerTaskView {
                set: set_next(t.set, task, OutcomeView::Done),
                phase: ServerPhaseView::Join(
                    AddTaskView { phase: add_next(t.set, task, OutcomeView::Done), ..task },
                ),
                ..t
            })
            &&& server_next(t, ServerReplyView::Failed(e)) == (ServerTaskView {
                set: set_next(t.set, task, OutcomeView::Failed(e)),
                phase: ServerPhaseView::Join(
                    AddTaskView { phase: add_next(t.set, task, OutcomeView::Failed(e)), ..task },
                ),
                ..t
            })
        },
        t.phase == (ServerPhaseView::Install { task, others }) && !(task.phase is Finished) ==> {
            &&& server_action(t) == ServerActionView::Listen(add_action(t.set, task))
            &&& server_next(t, ServerReplyView::Done) == (ServerTaskView {
                set: set_next(t.set, task, OutcomeView::Done),
                phase: ServerPhaseView::Install {
                    task: AddTaskView { phase: add_next(t.set, task, OutcomeView::Done), ..task },
                    others,
                },
                ..t
            })
            &&& server_next(t, ServerReplyView::Failed(e)) == (ServerTaskView {
                set: set_next(t.set, task, OutcomeView::Failed(e)),
                phase: ServerPhaseView::Install {
                    task: AddTaskView {
                        phase: add_next(t.set, task, OutcomeView::Failed(e)),
                        ..task
                    },
                    others,
                },
                ..t
            })
        },
        task.phase matches AddPhaseView::Finished(r) ==> {
            &&& t.phase == ServerPhaseView::Join(task) ==> server_action(t) == (
            ServerActionView::Report { peer: task.peer, result: r }) && server_next(t, reply) == (
            ServerTaskView { phase: ServerPhaseView::Ready, ..t })
            &&& t.phase == (ServerPhaseView::Install { task, others }) ==> {
                &&& server_action(t) == (ServerActionView::Report { peer: task.peer, result: r })
                &&& server_next(t, reply).set == t.set
                &&& others.len() == 0 ==> server_next(t, reply).phase is Ready
                &&& others.len() > 0 ==> server_next(t, reply).phase == (
                ServerPhaseView::Install {
                    task: AddTaskView { peer: others[0], phase: AddPhaseView::MakeDir },
                    others: others.skip(1),
                })
            }
        },
{
    if others.len() > 0 {
        assert(others.remove(0) =~= others.skip(1));
    }
}

/// How messages read: their name, and their contents in braces, with texts in quotation
/// marks.
pub proof fn how_messages_read(slug: Seq<char>, peers: Seq<Seq<char>>, reason: Seq<char>)
    ensures
        notification_text(NotificationView::PeerJoined { slug }) == "PeerJoined { slug: "@ + quoted(
            slug,
        ) + " }"@,
        notification_text(NotificationView::PeerLeft { slug }) == "PeerLeft { slug: "@ + quoted(
            slug,
        ) + " }"@,
        response_text(RegisterResponseView::Ack { peers }) == "Ack { peers: ["@ + joined(
            Seq::new(peers.len(), |i: int| quoted(peers[i])),
            ", "@,
        ) + "] }"@,
        response_text(RegisterResponseView::Nack { reason }) == "Nack { reason: "@ + quoted(reason)
            + " }"@,
{
    assert(all_quoted(peers) =~= Seq::new(peers.len(), |i: int| quoted(peers[i])));
}

} // verus!
