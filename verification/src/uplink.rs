//! A server's connection to the supervisor: registering, waiting between attempts,
//! and reading what the supervisor says.

use vstd::prelude::*;

use crate::compose::{cat2, cat3, cat4, joined, views, views_push};
use crate::encoding::lossy;
use crate::framing::{reads_as, Error};
use crate::messages::{
    Notification, NotificationView, Register, RegisterResponse, RegisterResponseView,
    RegisterView, SupervisorMessage, SupervisorMessageView,
};
use crate::pathname::PathName;
use crate::store::copy_texts;

verus! {

broadcast use vstd::seq_lib::group_seq_properties;

/// Seconds to wait after the first failed attempt.
pub const INITIAL_BACKOFF: u64 = 1;

/// Seconds to wait at most.
pub const MAX_BACKOFF: u64 = 60;

/// The wait that follows a wait of `secs` seconds: twice as long, but not longer
/// than [`MAX_BACKOFF`].
pub open spec fn longer(secs: nat) -> nat {
    if 2 * secs > MAX_BACKOFF {
        MAX_BACKOFF as nat
    } else {
        2 * secs
    }
}

/// The wait that follows a wait of `secs` seconds.
pub fn next_backoff(secs: u64) -> (r: u64)
    ensures
        r == longer(secs as nat),
{
    if secs > MAX_BACKOFF / 2 {
        MAX_BACKOFF
    } else {
        2 * secs
    }
}

/// The wait that follows `failures` waits, each after a failed attempt.
pub open spec fn wait_after(failures: nat) -> nat
    decreases failures,
{
    if failures == 0 {
        INITIAL_BACKOFF as nat
    } else {
        longer(wait_after((failures - 1) as nat))
    }
}

/// Waits never get shorter, are never longer than [`MAX_BACKOFF`], and from the
/// seventh on are exactly that long.
pub proof fn waits_grow_to_the_limit(failures: nat)
    ensures
        INITIAL_BACKOFF <= wait_after(failures) <= wait_after(failures + 1) <= MAX_BACKOFF,
        failures >= 6 ==> wait_after(failures) == MAX_BACKOFF,
    decreases failures,
{
    reveal_with_fuel(wait_after, 8);
    if failures > 6 {
        waits_grow_to_the_limit((failures - 1) as nat);
    }
}

// --- messages in writing -------------------------------------------------------

/// A text in quotation marks, with what needs it escaped, as `Debug` writes it.
pub uninterp spec fn quoted(s: Seq<char>) -> Seq<char>;

/// The `Debug` form of a `str`. How it escapes is left to the named function.
#[verifier::external_body]
fn quote(s: &str) -> (r: String)
    ensures
        r@ == quoted(s@),
{
    format!("{s:?}")
}

/// Each text in quotation marks.
pub open spec fn all_quoted(texts: Seq<Seq<char>>) -> Seq<Seq<char>> {
    Seq::new(texts.len(), |i: int| quoted(texts[i]))
}

/// A notification in writing.
pub open spec fn notification_text(n: NotificationView) -> Seq<char> {
    match n {
        NotificationView::PeerJoined { slug } => "PeerJoined { slug: "@ + quoted(slug) + " }"@,
        NotificationView::PeerLeft { slug } => "PeerLeft { slug: "@ + quoted(slug) + " }"@,
    }
}

/// A register response in writing.
pub open spec fn response_text(r: RegisterResponseView) -> Seq<char> {
    match r {
        RegisterResponseView::Ack { peers } => "Ack { peers: ["@ + joined(
            all_quoted(peers),
            ", "@,
        ) + "] }"@,
        RegisterResponseView::Nack { reason } => "Nack { reason: "@ + quoted(reason) + " }"@,
    }
}

fn write_notification(n: &Notification) -> (r: String)
    ensures
        r@ == notification_text(n@),
{
    match n {
        Notification::PeerJoined { slug } => cat3(
            "PeerJoined { slug: ",
            quote(slug.as_str()).as_str(),
            " }",
        ),
        Notification::PeerLeft { slug } => cat3(
            "PeerLeft { slug: ",
            quote(slug.as_str()).as_str(),
            " }",
        ),
    }
}

fn write_response(m: &RegisterResponse) -> (r: String)
    ensures
        r@ == response_text(m@),
{
    match m {
        RegisterResponse::Ack { peers } => {
            let mut parts: Vec<String> = Vec::new();
            let ghost all = all_quoted(views(peers@));
            let mut i: usize = 0;
            while i < peers.len()
                invariant
                    i <= peers.len(),
                    all == all_quoted(views(peers@)),
                    views(parts@) == all.take(i as int),
                decreases peers.len() - i,
            {
                let q: String = quote(peers[i].as_str());
                proof {
                    views_push(parts@, q);
                }
                parts.push(q);
                assert(all.take(i as int).push(q@) == all.take(i + 1));
                i = i + 1;
            }
            assert(all.take(i as int) == all);
            cat3("Ack { peers: [", crate::compose::join(&parts, ", ").as_str(), "] }")
        },
        RegisterResponse::Nack { reason } => cat3(
            "Nack { reason: ",
            quote(reason.as_str()).as_str(),
            " }",
        ),
    }
}

// --- notifications -------------------------------------------------------------

/// What a frame from the supervisor means to a registered server: a notification,
/// the end of the stream in front of a frame, or a failure. A response to a
/// registration has no place there.
pub fn read_notification(read: Result<SupervisorMessage, Error>) -> (r: Result<
    Option<Notification>,
    String,
>)
    ensures
        match read {
            Ok(m) => match m@ {
                SupervisorMessageView::Notification(n) => r matches Ok(Some(got)) && got@ == n,
                SupervisorMessageView::RegisterResponse(resp) => r matches Err(e) && e@
                    == "supervisor sent unexpected RegisterResponse mid-stream: "@ + response_text(
                    resp,
                ),
            },
            Err(fault) => if fault matches Error::Io(f) && f.clean_end {
                r matches Ok(None)
            } else {
                r matches Err(e) && exists|cause: Seq<char>| #[trigger]
                    reads_as(fault, cause) && e@ == "reading notification: "@ + cause
            },
        },
{
    match read {
        Ok(SupervisorMessage::Notification(n)) => Ok(Some(n)),
        Ok(SupervisorMessage::RegisterResponse(resp)) => Err(
            cat2(
                "supervisor sent unexpected RegisterResponse mid-stream: ",
                write_response(&resp).as_str(),
            ),
        ),
        Err(fault) => {
            if let Error::Io(f) = &fault {
                if f.clean_end {
                    return Ok(None);
                }
            }
            let cause: String = fault.text();
            assert(reads_as(fault, cause@));
            Err(cat2("reading notification: ", cause.as_str()))
        },
    }
}

// --- registering ---------------------------------------------------------------

/// The result of registering, in characters: the slugs of the peers, or the
/// failure.
pub open spec fn peers_view(r: Result<Vec<String>, String>) -> Result<Seq<Seq<char>>, Seq<char>> {
    match r {
        Ok(v) => Ok(views(v@)),
        Err(e) => Err(e@),
    }
}

/// How far the registration has come.
#[derive(Debug, PartialEq, Eq)]
pub enum UplinkPhase {
    /// Connecting to the register socket.
    Connect,
    /// Sending the registration.
    Send,
    /// Reading the response.
    Receive,
    /// Waiting before the next attempt.
    Wait { cause: String },
    /// The result is known.
    Finished(Result<Vec<String>, String>),
}

/// The contents of [`UplinkPhase`].
#[verifier::ext_equal]
pub enum UplinkPhaseView {
    Connect,
    Send,
    Receive,
    Wait { cause: Seq<char> },
    Finished(Result<Seq<Seq<char>>, Seq<char>>),
}

impl View for UplinkPhase {
    type V = UplinkPhaseView;

    open spec fn view(&self) -> UplinkPhaseView {
        match self {
            UplinkPhase::Connect => UplinkPhaseView::Connect,
            UplinkPhase::Send => UplinkPhaseView::Send,
            UplinkPhase::Receive => UplinkPhaseView::Receive,
            UplinkPhase::Wait { cause } => UplinkPhaseView::Wait { cause: cause@ },
            UplinkPhase::Finished(r) => UplinkPhaseView::Finished(peers_view(*r)),
        }
    }
}

/// A registration under way.
#[derive(Debug, PartialEq, Eq)]
pub struct UplinkTask {
    socket: PathName,
    slug: String,
    group: String,
    retry: bool,
    backoff: u64,
    phase: UplinkPhase,
}

/// The contents of [`UplinkTask`].
#[verifier::ext_equal]
pub struct UplinkTaskView {
    /// The register socket.
    pub socket: Seq<u8>,
    pub slug: Seq<char>,
    pub group: Seq<char>,
    /// True when failures are followed by another attempt.
    pub retry: bool,
    /// Seconds to wait after the next failure.
    pub backoff: u64,
    pub phase: UplinkPhaseView,
}

impl View for UplinkTask {
    type V = UplinkTaskView;

    closed spec fn view(&self) -> UplinkTaskView {
        UplinkTaskView {
            socket: self.socket@,
            slug: self.slug@,
            group: self.group@,
            retry: self.retry,
            backoff: self.backoff,
            phase: self.phase@,
        }
    }
}

/// What the registration asks for.
#[derive(Debug, PartialEq, Eq)]
pub enum UplinkAction {
    /// Connects to the socket.
    Connect(PathName),
    /// Sends a message on the connection.
    Send(Register),
    /// Reads a message from the connection.
    Receive,
    /// Drops the connection, if there is one, and waits; why, in words.
    Wait { secs: u64, cause: String },
    /// Nothing more: the peers' slugs, or the failure.
    Return(Result<Vec<String>, String>),
}

/// The contents of [`UplinkAction`].
#[verifier::ext_equal]
pub enum UplinkActionView {
    Connect(Seq<u8>),
    Send(RegisterView),
    Receive,
    Wait { secs: u64, cause: Seq<char> },
    Return(Result<Seq<Seq<char>>, Seq<char>>),
}

impl View for UplinkAction {
    type V = UplinkActionView;

    open spec fn view(&self) -> UplinkActionView {
        match self {
            UplinkAction::Connect(p) => UplinkActionView::Connect(p@),
            UplinkAction::Send(m) => UplinkActionView::Send(m@),
            UplinkAction::Receive => UplinkActionView::Receive,
            UplinkAction::Wait { secs, cause } => UplinkActionView::Wait {
                secs: *secs,
                cause: cause@,
            },
            UplinkAction::Return(r) => UplinkActionView::Return(peers_view(*r)),
        }
    }
}

/// What came of an action.
#[derive(Debug, PartialEq, Eq)]
pub enum UplinkReply {
    /// Connected, sent or waited.
    Done,
    /// A message was read.
    Message(SupervisorMessage),
    /// The action failed; the failure in words.
    Failed(String),
}

/// The contents of [`UplinkReply`].
#[verifier::ext_equal]
pub enum UplinkReplyView {
    Done,
    Message(SupervisorMessageView),
    Failed(Seq<char>),
}

impl View for UplinkReply {
    type V = UplinkReplyView;

    open spec fn view(&self) -> UplinkReplyView {
        match self {
            UplinkReply::Done => UplinkReplyView::Done,
            UplinkReply::Message(m) => UplinkReplyView::Message(m@),
            UplinkReply::Failed(e) => UplinkReplyView::Failed(e@),
        }
    }
}

/// What the task asks for.
pub open spec fn uplink_action(t: UplinkTaskView) -> UplinkActionView {
    match t.phase {
        UplinkPhaseView::Connect => UplinkActionView::Connect(t.socket),
        UplinkPhaseView::Send => UplinkActionView::Send(
            RegisterView { slug: t.slug, group: t.group },
        ),
        UplinkPhaseView::Receive => UplinkActionView::Receive,
        UplinkPhaseView::Wait { cause } => UplinkActionView::Wait { secs: t.backoff, cause },
        UplinkPhaseView::Finished(r) => UplinkActionView::Return(r),
    }
}

/// A failed attempt: another one follows after a wait, or the failure is the
/// result.
pub open spec fn attempt_failed(t: UplinkTaskView, cause: Seq<char>) -> UplinkTaskView {
    UplinkTaskView {
        phase: if t.retry {
            UplinkPhaseView::Wait { cause }
        } else {
            UplinkPhaseView::Finished(Err(cause))
        },
        ..t
    }
}

/// Where the task stands after a reply. A rejected registration is not tried
/// again. A reply of a kind that was not asked for changes nothing.
pub open spec fn uplink_next(t: UplinkTaskView, reply: UplinkReplyView) -> UplinkTaskView {
    match (t.phase, reply) {
        (UplinkPhaseView::Connect, UplinkReplyView::Done) => UplinkTaskView {
            phase: UplinkPhaseView::Send,
            ..t
        },
        (UplinkPhaseView::Connect, UplinkReplyView::Failed(e)) => attempt_failed(
            t,
            "connecting to supervisor at "@ + lossy(t.socket) + ": "@ + e,
        ),
        (UplinkPhaseView::Send, UplinkReplyView::Done) => UplinkTaskView {
            phase: UplinkPhaseView::Receive,
            ..t
        },
        (UplinkPhaseView::Send, UplinkReplyView::Failed(e)) => attempt_failed(
            t,
            "sending Register frame: "@ + e,
        ),
        (UplinkPhaseView::Receive, UplinkReplyView::Failed(e)) => attempt_failed(
            t,
            "reading RegisterResponse frame: "@ + e,
        ),
        (
            UplinkPhaseView::Receive,
            UplinkReplyView::Message(
                SupervisorMessageView::RegisterResponse(RegisterResponseView::Ack { peers }),
            ),
        ) => UplinkTaskView { phase: UplinkPhaseView::Finished(Ok(peers)), ..t },
        (
            UplinkPhaseView::Receive,
            UplinkReplyView::Message(
                SupervisorMessageView::RegisterResponse(RegisterResponseView::Nack { reason }),
            ),
        ) => UplinkTaskView {
            phase: UplinkPhaseView::Finished(
                Err("supervisor rejected registration: "@ + reason),
            ),
            ..t
        },
        (
            UplinkPhaseView::Receive,
            UplinkReplyView::Message(SupervisorMessageView::Notification(n)),
        ) => attempt_failed(
            t,
            "expected RegisterResponse from supervisor, got Notification: "@ + notification_text(n),
        ),
        (UplinkPhaseView::Wait { .. }, UplinkReplyView::Done) => UplinkTaskView {
            backoff: longer(t.backoff as nat) as u64,
            phase: UplinkPhaseView::Connect,
            ..t
        },
        _ => t,
    }
}

/// Starts one attempt to register `slug` in `group` at the socket.
pub fn connect_and_register(socket_path: PathName, slug: String, group: String) -> (t: UplinkTask)
    ensures
        t@ == (UplinkTaskView {
            socket: socket_path@,
            slug: slug@,
            group: group@,
            retry: false,
            backoff: INITIAL_BACKOFF,
            phase: UplinkPhaseView::Connect,
        }),
{
    UplinkTask {
        socket: socket_path,
        slug,
        group,
        retry: false,
        backoff: INITIAL_BACKOFF,
        phase: UplinkPhase::Connect,
    }
}

/// Starts registering `slug` in `group` at the socket, with as many attempts as it
/// takes.
pub fn connect_and_register_with_backoff(
    socket_path: PathName,
    slug: String,
    group: String,
) -> (t: UplinkTask)
    ensures
        t@ == (UplinkTaskView {
            socket: socket_path@,
            slug: slug@,
            group: group@,
            retry: true,
            backoff: INITIAL_BACKOFF,
            phase: UplinkPhaseView::Connect,
        }),
{
    UplinkTask {
        socket: socket_path,
        slug,
        group,
        retry: true,
        backoff: INITIAL_BACKOFF,
        phase: UplinkPhase::Connect,
    }
}

impl UplinkTask {
    /// What to do next.
    pub fn current(&self) -> (a: UplinkAction)
        ensures
            a@ == uplink_action(self@),
    {
        match &self.phase {
            UplinkPhase::Connect => UplinkAction::Connect(self.socket.copy()),
            UplinkPhase::Send => UplinkAction::Send(
                Register { slug: self.slug.clone(), group: self.group.clone() },
            ),
            UplinkPhase::Receive => UplinkAction::Receive,
            UplinkPhase::Wait { cause } => UplinkAction::Wait {
                secs: self.backoff,
                cause: cause.clone(),
            },
            UplinkPhase::Finished(r) => UplinkAction::Return(
                match r {
                    Ok(v) => Ok(copy_texts(v)),
                    Err(e) => Err(e.clone()),
                },
            ),
        }
    }

    /// A failed attempt.
    fn failed(&self, cause: String) -> (p: UplinkPhase)
        ensures
            p@ == attempt_failed(self@, cause@).phase,
    {
        if self.retry {
            UplinkPhase::Wait { cause }
        } else {
            UplinkPhase::Finished(Err(cause))
        }
    }

    /// Goes on with what came of [`UplinkTask::current`].
    pub fn resume(&mut self, reply: UplinkReply)
        ensures
            final(self)@ == uplink_next(old(self)@, reply@),
    {
        let next: UplinkPhase = match (&self.phase, reply) {
            (UplinkPhase::Connect, UplinkReply::Done) => UplinkPhase::Send,
            (UplinkPhase::Connect, UplinkReply::Failed(e)) => {
                let place: String = self.socket.display();
                self.failed(cat4("connecting to supervisor at ", place.as_str(), ": ", e.as_str()))
            },
            (UplinkPhase::Send, UplinkReply::Done) => UplinkPhase::Receive,
            (UplinkPhase::Send, UplinkReply::Failed(e)) => self.failed(
                cat2("sending Register frame: ", e.as_str()),
            ),
            (UplinkPhase::Receive, UplinkReply::Failed(e)) => self.failed(
                cat2("reading RegisterResponse frame: ", e.as_str()),
            ),
            (
                UplinkPhase::Receive,
                UplinkReply::Message(
                    SupervisorMessage::RegisterResponse(RegisterResponse::Ack { peers }),
                ),
            ) => UplinkPhase::Finished(Ok(peers)),
            (
                UplinkPhase::Receive,
                UplinkReply::Message(
                    SupervisorMessage::RegisterResponse(RegisterResponse::Nack { reason }),
                ),
            ) => UplinkPhase::Finished(
                Err(cat2("supervisor rejected registration: ", reason.as_str())),
            ),
            (
                UplinkPhase::Receive,
                UplinkReply::Message(SupervisorMessage::Notification(n)),
            ) => self.failed(
                cat2(
                    "expected RegisterResponse from supervisor, got Notification: ",
                    write_notification(&n).as_str(),
                ),
            ),
            (UplinkPhase::Wait { .. }, UplinkReply::Done) => {
                self.backoff = next_backoff(self.backoff);
                UplinkPhase::Connect
            },
            _ => {
                return;
            },
        };
        self.phase = next;
    }
}

/// A registration that was rejected is over: nothing that follows starts another
/// attempt, and the failure stays.
pub proof fn rejection_is_final(t: UplinkTaskView, reason: Seq<char>, later: UplinkReplyView)
    requires
        t.phase is Receive,
    ensures
        ({
            let nack = UplinkReplyView::Message(
                SupervisorMessageView::RegisterResponse(RegisterResponseView::Nack { reason }),
            );
            let over = uplink_next(t, nack);
            uplink_action(over) == UplinkActionView::Return(
                Err("supervisor rejected registration: "@ + reason),
            ) && uplink_next(over, later) == over
        }),
{
}

/// The task after a series of replies.
pub open spec fn uplink_after(t: UplinkTaskView, replies: Seq<UplinkReplyView>) -> UplinkTaskView
    decreases replies.len(),
{
    if replies.len() == 0 {
        t
    } else {
        uplink_next(uplink_after(t, replies.drop_last()), replies.last())
    }
}

/// The number of waits that the replies end.
pub open spec fn waits_among(t: UplinkTaskView, replies: Seq<UplinkReplyView>) -> nat
    decreases replies.len(),
{
    if replies.len() == 0 {
        0
    } else {
        let before = uplink_after(t, replies.drop_last());
        let earlier = waits_among(t, replies.drop_last());
        if before.phase is Wait && replies.last() is Done {
            earlier + 1
        } else {
            earlier
        }
    }
}

/// The waits of a registration are [`wait_after`] of 0, of 1 and so on: whatever
/// has come, after `k` waits the next one takes `wait_after(k)` seconds.
pub proof fn waits_follow_one_another(t: UplinkTaskView, replies: Seq<UplinkReplyView>)
    requires
        t.phase is Connect,
        t.backoff == INITIAL_BACKOFF,
    ensures
        uplink_after(t, replies).backoff == wait_after(waits_among(t, replies)),
        uplink_action(uplink_after(t, replies)) matches UplinkActionView::Wait { secs, .. }
            ==> secs == wait_after(waits_among(t, replies)),
    decreases replies.len(),
{
    if replies.len() > 0 {
        waits_follow_one_another(t, replies.drop_last());
        waits_grow_to_the_limit(waits_among(t, replies.drop_last()));
    }
}

} // verus!
