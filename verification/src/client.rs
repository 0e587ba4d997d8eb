//! The client's commands.
//!
//! A command is a task: it names what to do next and is resumed with what came of
//! it. What a command prints, or how it fails, is its result.

use vstd::prelude::*;
use vstd::utf8::*;

use crate::compose::{cat2, cat3, cat4, cat5, decimal, decimal_i64, views};
use crate::config::{db_below, issues_db};
use crate::handler::{make_result_comments, result_comments};
use crate::labels::{
    find_prefixed, first_prefixed, has, is_status, names_status, ref_label, ref_text, INBOUND,
    OUTBOUND, REF_PREFIX, SOURCE_PREFIX, STATUS_ANSWERED, STATUS_OPEN, STATUS_PENDING,
};
use crate::messages::{
    AnswerComment, AnswerCommentView, ClientRequest, ClientRequestView, ServerResponse,
    ServerResponseView, SubmitAnswer, SubmitAnswerView, SubmitIssue, SubmitIssueView,
};
use crate::outbound::{make_swap_label_writes, swap_label_writes};
use crate::pathname::{below, parent_is_shorter, parent_of, PathName};
use crate::paths::{listener_below, target_socket};
use crate::slug::slug_view;
use crate::store::{
    copy_texts, Issue, IssueView, StoreOp, StoreOpView, StoreReply, StoreReplyView, Write,
    WriteView,
};
use crate::text::same_text;

verus! {

broadcast use vstd::seq_lib::group_seq_properties;

// --- the repository ------------------------------------------------------------

/// The search for the repository that a directory belongs to: `current` is looked
/// at, or the repository has been found.
#[derive(Debug, PartialEq, Eq)]
pub struct RootTask {
    start: PathName,
    current: PathName,
    found: bool,
}

/// The contents of [`RootTask`].
#[verifier::ext_equal]
pub struct RootTaskView {
    pub start: Seq<u8>,
    pub current: Seq<u8>,
    pub found: bool,
}

impl View for RootTask {
    type V = RootTaskView;

    closed spec fn view(&self) -> RootTaskView {
        RootTaskView { start: self.start@, current: self.current@, found: self.found }
    }
}

/// What the search asks for.
#[derive(Debug, PartialEq, Eq)]
pub enum RootAction {
    /// Is there anything at this path?
    Exists(PathName),
    /// Nothing more: this is the repository.
    Return(PathName),
}

/// The contents of [`RootAction`].
#[verifier::ext_equal]
pub enum RootActionView {
    Exists(Seq<u8>),
    Return(Seq<u8>),
}

impl View for RootAction {
    type V = RootActionView;

    open spec fn view(&self) -> RootActionView {
        match self {
            RootAction::Exists(p) => RootActionView::Exists(p@),
            RootAction::Return(p) => RootActionView::Return(p@),
        }
    }
}

/// What the search asks for.
pub open spec fn root_action(t: RootTaskView) -> RootActionView {
    if t.found {
        RootActionView::Return(t.current)
    } else {
        RootActionView::Exists(db_below(t.current))
    }
}

/// Where the search stands after a reply: a directory with an issue database is
/// the repository, another one hands on to its parent, and where there is none the
/// directory that the search started from counts.
pub open spec fn root_next(t: RootTaskView, yes: bool) -> RootTaskView {
    if t.found {
        t
    } else if yes {
        RootTaskView { found: true, ..t }
    } else {
        match parent_of(t.current) {
            Some(p) => RootTaskView { current: p, ..t },
            None => RootTaskView { current: t.start, found: true, ..t },
        }
    }
}

/// Starts looking for the repository that `start` belongs to, walking up.
pub fn repo_root_from(start: &PathName) -> (t: RootTask)
    ensures
        t@ == (RootTaskView { start: start@, current: start@, found: false }),
{
    RootTask { start: start.copy(), current: start.copy(), found: false }
}

impl RootTask {
    /// What to do next.
    pub fn current(&self) -> (a: RootAction)
        ensures
            a@ == root_action(self@),
    {
        if self.found {
            RootAction::Return(self.current.copy())
        } else {
            RootAction::Exists(issues_db(&self.current))
        }
    }

    /// Goes on with the answer to [`RootTask::current`].
    pub fn resume(&mut self, yes: bool)
        ensures
            final(self)@ == root_next(old(self)@, yes),
    {
        if self.found {
            return;
        }
        if yes {
            self.found = true;
            return;
        }
        match self.current.parent() {
            Some(p) => {
                self.current = p;
            },
            None => {
                self.current = self.start.copy();
                self.found = true;
            },
        }
    }
}

/// The search carried on for at most `fuel` questions, where `there` says what
/// exists.
pub open spec fn root_run(
    t: RootTaskView,
    there: spec_fn(Seq<u8>) -> bool,
    fuel: nat,
) -> RootTaskView
    decreases fuel,
{
    match root_action(t) {
        RootActionView::Return(_) => t,
        RootActionView::Exists(p) => if fuel == 0 {
            t
        } else {
            root_run(root_next(t, there(p)), there, (fuel - 1) as nat)
        },
    }
}

/// The nearest of `dir` and the directories above it that has an issue database;
/// `start` when none has.
pub open spec fn nearest_repo(
    dir: Seq<u8>,
    start: Seq<u8>,
    there: spec_fn(Seq<u8>) -> bool,
) -> Seq<u8>
    decreases dir.len(),
{
    if there(db_below(dir)) {
        dir
    } else {
        match parent_of(dir) {
            Some(p) => if p.len() < dir.len() {
                nearest_repo(p, start, there)
            } else {
                start
            },
            None => start,
        }
    }
}

/// The search ends, and finds the nearest repository.
pub proof fn search_finds_the_nearest(
    dir: Seq<u8>,
    start: Seq<u8>,
    there: spec_fn(Seq<u8>) -> bool,
    fuel: nat,
)
    requires
        fuel > dir.len(),
    ensures
        root_action(
            root_run(RootTaskView { start, current: dir, found: false }, there, fuel),
        ) == RootActionView::Return(nearest_repo(dir, start, there)),
    decreases fuel,
{
    reveal_with_fuel(root_run, 2);
    parent_is_shorter(dir);
    if !there(db_below(dir)) {
        if let Some(p) = parent_of(dir) {
            search_finds_the_nearest(p, start, there, (fuel - 1) as nat);
        }
    }
}

// --- actions -------------------------------------------------------------------

/// What a command asks for.
#[derive(Debug, PartialEq, Eq)]
pub enum ClientAction {
    /// An operation on the repository's own database.
    Store(StoreOp),
    /// Is there anything at this path? Answered with `Answer`.
    Exists(PathName),
    /// Sends a request to the socket and reads the response. Answered with
    /// `Response` or one of the three failures.
    RoundTrip(PathName, ClientRequest),
    /// Nothing more: what to print, or the failure.
    Return(Result<String, String>),
}

/// The contents of [`ClientAction`].
#[verifier::ext_equal]
pub enum ClientActionView {
    Store(StoreOpView),
    Exists(Seq<u8>),
    RoundTrip(Seq<u8>, ClientRequestView),
    Return(Result<Seq<char>, Seq<char>>),
}

impl View for ClientAction {
    type V = ClientActionView;

    open spec fn view(&self) -> ClientActionView {
        match self {
            ClientAction::Store(op) => ClientActionView::Store(op@),
            ClientAction::Exists(p) => ClientActionView::Exists(p@),
            ClientAction::RoundTrip(p, r) => ClientActionView::RoundTrip(p@, r@),
            ClientAction::Return(r) => ClientActionView::Return(slug_view(*r)),
        }
    }
}

/// What came of an action.
#[derive(Debug, PartialEq, Eq)]
pub enum ClientReply {
    Store(StoreReply),
    Answer(bool),
    Response(ServerResponse),
    /// The socket could not be connected to; the failure in words.
    ConnectFailed(String),
    /// The request could not be sent; the failure in words.
    SendFailed(String),
    /// The response could not be read; the failure in words.
    ReadFailed(String),
}

/// The contents of [`ClientReply`].
#[verifier::ext_equal]
pub enum ClientReplyView {
    Store(StoreReplyView),
    Answer(bool),
    Response(ServerResponseView),
    ConnectFailed(Seq<char>),
    SendFailed(Seq<char>),
    ReadFailed(Seq<char>),
}

impl View for ClientReply {
    type V = ClientReplyView;

    open spec fn view(&self) -> ClientReplyView {
        match self {
            ClientReply::Store(r) => ClientReplyView::Store(r@),
            ClientReply::Answer(b) => ClientReplyView::Answer(*b),
            ClientReply::Response(r) => ClientReplyView::Response(r@),
            ClientReply::ConnectFailed(e) => ClientReplyView::ConnectFailed(e@),
            ClientReply::SendFailed(e) => ClientReplyView::SendFailed(e@),
            ClientReply::ReadFailed(e) => ClientReplyView::ReadFailed(e@),
        }
    }
}

/// How a round trip to `peer` failed: it could not be reached, the request could
/// not be sent, the response could not be read, or the peer refused.
pub open spec fn trip_failure(peer: Seq<char>, reply: ClientReplyView) -> Option<Seq<char>> {
    match reply {
        ClientReplyView::ConnectFailed(e) => Some("cannot reach peer '"@ + peer + "': "@ + e),
        ClientReplyView::SendFailed(e) => Some(
            "failed to send request to peer '"@ + peer + "': "@ + e,
        ),
        ClientReplyView::ReadFailed(e) => Some(
            "failed to read response from peer '"@ + peer + "': "@ + e,
        ),
        ClientReplyView::Response(ServerResponseView::Error { message }) => Some(message),
        _ => None,
    }
}

/// How a round trip to `peer` failed, if it did.
fn trip_failed(peer: &str, reply: &ClientReply) -> (r: Option<String>)
    ensures
        match r {
            Some(e) => trip_failure(peer@, reply@) == Some(e@),
            None => trip_failure(peer@, reply@) is None,
        },
{
    match reply {
        ClientReply::ConnectFailed(e) => Some(
            cat4("cannot reach peer '", peer, "': ", e.as_str()),
        ),
        ClientReply::SendFailed(e) => Some(
            cat4("failed to send request to peer '", peer, "': ", e.as_str()),
        ),
        ClientReply::ReadFailed(e) => Some(
            cat4("failed to read response from peer '", peer, "': ", e.as_str()),
        ),
        ClientReply::Response(ServerResponse::Error { message }) => Some(message.clone()),
        _ => None,
    }
}

/// The failure when there is no such issue.
pub open spec fn no_issue(id: i64) -> Seq<char> {
    "issue #"@ + decimal(id as int) + " not found"@
}

/// The failure when a peer is not connected.
pub open spec fn not_available(peer: Seq<char>) -> Seq<char> {
    "peer '"@ + peer + "' not available (not connected)"@
}

// --- submit --------------------------------------------------------------------

/// How far `submit` has come.
#[derive(Debug, PartialEq, Eq)]
pub enum SubmitCommandPhase {
    /// Loading the issue.
    Load,
    /// Reading its UUID.
    Name { issue: Issue },
    /// Reading its labels.
    Labels { issue: Issue, uuid: String },
    /// Is the target's socket there?
    Probe { issue: Issue, uuid: String, labels: Vec<String> },
    /// Sending the issue.
    Send { issue: Issue, uuid: String, labels: Vec<String> },
    /// Marking the issue as submitted.
    Mark { id: i64, uuid: String, labels: Vec<String>, remote: i64 },
    /// The result is known.
    Finished(Result<String, String>),
}

/// The contents of [`SubmitCommandPhase`].
#[verifier::ext_equal]
pub enum SubmitCommandPhaseView {
    Load,
    Name { issue: IssueView },
    Labels { issue: IssueView, uuid: Seq<char> },
    Probe { issue: IssueView, uuid: Seq<char>, labels: Seq<Seq<char>> },
    Send { issue: IssueView, uuid: Seq<char>, labels: Seq<Seq<char>> },
    Mark { id: i64, uuid: Seq<char>, labels: Seq<Seq<char>>, remote: i64 },
    Finished(Result<Seq<char>, Seq<char>>),
}

impl View for SubmitCommandPhase {
    type V = SubmitCommandPhaseView;

    open spec fn view(&self) -> SubmitCommandPhaseView {
        match self {
            SubmitCommandPhase::Load => SubmitCommandPhaseView::Load,
            SubmitCommandPhase::Name { issue } => SubmitCommandPhaseView::Name { issue: issue@ },
            SubmitCommandPhase::Labels { issue, uuid } => SubmitCommandPhaseView::Labels {
                issue: issue@,
                uuid: uuid@,
            },
            SubmitCommandPhase::Probe { issue, uuid, labels } => SubmitCommandPhaseView::Probe {
                issue: issue@,
                uuid: uuid@,
                labels: views(labels@),
            },
            SubmitCommandPhase::Send { issue, uuid, labels } => SubmitCommandPhaseView::Send {
                issue: issue@,
                uuid: uuid@,
                labels: views(labels@),
            },
            SubmitCommandPhase::Mark { id, uuid, labels, remote } => SubmitCommandPhaseView::Mark {
                id: *id,
                uuid: uuid@,
                labels: views(labels@),
                remote: *remote,
            },
            SubmitCommandPhase::Finished(r) => SubmitCommandPhaseView::Finished(slug_view(*r)),
        }
    }
}

/// `submit` under way.
#[derive(Debug, PartialEq, Eq)]
pub struct SubmitCommand {
    root: PathName,
    own: String,
    issue_id: i64,
    target: String,
    phase: SubmitCommandPhase,
}

/// The contents of [`SubmitCommand`].
#[verifier::ext_equal]
pub struct SubmitCommandView {
    /// The socket root.
    pub root: Seq<u8>,
    /// The repository's own slug.
    pub own: Seq<char>,
    /// The issue that was asked for.
    pub issue_id: i64,
    /// The repository that it goes to.
    pub target: Seq<char>,
    pub phase: SubmitCommandPhaseView,
}

impl View for SubmitCommand {
    type V = SubmitCommandView;

    closed spec fn view(&self) -> SubmitCommandView {
        SubmitCommandView {
            root: self.root@,
            own: self.own@,
            issue_id: self.issue_id,
            target: self.target@,
            phase: self.phase@,
        }
    }
}

/// The request for an issue.
pub open spec fn submission(
    issue: IssueView,
    uuid: Seq<char>,
    labels: Seq<Seq<char>>,
    own: Seq<char>,
) -> SubmitIssueView {
    SubmitIssueView {
        title: issue.title,
        body: match issue.description {
            Some(d) => d,
            None => Seq::empty(),
        },
        labels,
        source_slug: own,
        source_uuid: uuid,
        attachments: Seq::empty(),
    }
}

/// The changes that take every status but `pending` from an issue with the given
/// labels.
pub open spec fn status_removals(id: i64, labels: Seq<Seq<char>>) -> Seq<WriteView>
    decreases labels.len(),
{
    if labels.len() == 0 {
        Seq::empty()
    } else {
        let front = status_removals(id, labels.drop_last());
        let last = labels.last();
        if is_status(last) && last != STATUS_PENDING@ {
            front.push(WriteView::RemoveLabel { id, label: last })
        } else {
            front
        }
    }
}

/// The changes that mark an issue with the given labels as submitted. The link is
/// the issue's own UUID, by which the answer will name it.
pub open spec fn submitted_writes(id: i64, labels: Seq<Seq<char>>, uuid: Seq<char>) -> Seq<
    WriteView,
> {
    status_removals(id, labels).push(WriteView::AddLabel { id, label: OUTBOUND@ }).push(
        WriteView::AddLabel { id, label: STATUS_PENDING@ },
    ).push(WriteView::AddLabel { id, label: ref_text(uuid) })
}

/// What the command asks for.
pub open spec fn submit_command_action(t: SubmitCommandView) -> ClientActionView {
    match t.phase {
        SubmitCommandPhaseView::Load => ClientActionView::Store(
            StoreOpView::Get { id: t.issue_id },
        ),
        SubmitCommandPhaseView::Name { issue } => ClientActionView::Store(
            StoreOpView::Uuid { id: issue.id },
        ),
        SubmitCommandPhaseView::Labels { issue, .. } => ClientActionView::Store(
            StoreOpView::Labels { id: issue.id },
        ),
        SubmitCommandPhaseView::Probe { .. } => ClientActionView::Exists(
            listener_below(t.root, t.own, t.target),
        ),
        SubmitCommandPhaseView::Send { issue, uuid, labels } => ClientActionView::RoundTrip(
            listener_below(t.root, t.own, t.target),
            ClientRequestView::Submit(submission(issue, uuid, labels, t.own)),
        ),
        SubmitCommandPhaseView::Mark { id, uuid, labels, .. } => ClientActionView::Store(
            StoreOpView::Apply { writes: submitted_writes(id, labels, uuid) },
        ),
        SubmitCommandPhaseView::Finished(r) => ClientActionView::Return(r),
    }
}

/// What `submit` prints.
pub open spec fn submitted_text(issue_id: i64, target: Seq<char>, remote: i64) -> Seq<char> {
    "submitted issue #"@ + decimal(issue_id as int) + " to '"@ + target + ("' (remote id "@
        + decimal(remote as int) + ")"@)
}

/// Where the command stands after a reply. A reply of a kind that was not asked
/// for changes nothing.
pub open spec fn submit_command_next(
    t: SubmitCommandView,
    reply: ClientReplyView,
) -> SubmitCommandPhaseView {
    match (t.phase, reply) {
        (SubmitCommandPhaseView::Finished(_), _) => t.phase,
        (
            SubmitCommandPhaseView::Name { .. },
            ClientReplyView::Store(StoreReplyView::Failed(e)),
        ) => SubmitCommandPhaseView::Finished(
            Err("issue #"@ + decimal(t.issue_id as int) + " has no UUID in the local DB: "@ + e),
        ),
        (SubmitCommandPhaseView::Probe { .. }, ClientReplyView::Store(_)) => t.phase,
        (SubmitCommandPhaseView::Send { .. }, ClientReplyView::Store(_)) => t.phase,
        (_, ClientReplyView::Store(StoreReplyView::Failed(e))) => SubmitCommandPhaseView::Finished(
            Err(e),
        ),
        (
            SubmitCommandPhaseView::Load,
            ClientReplyView::Store(StoreReplyView::Found(Some(issue))),
        ) => SubmitCommandPhaseView::Name { issue },
        (SubmitCommandPhaseView::Load, ClientReplyView::Store(StoreReplyView::Found(None))) => {
            SubmitCommandPhaseView::Finished(Err(no_issue(t.issue_id)))
        },
        (
            SubmitCommandPhaseView::Name { issue },
            ClientReplyView::Store(StoreReplyView::Uuid(uuid)),
        ) => SubmitCommandPhaseView::Labels { issue, uuid },
        (
            SubmitCommandPhaseView::Labels { issue, uuid },
            ClientReplyView::Store(StoreReplyView::Labels(labels)),
        ) => SubmitCommandPhaseView::Probe { issue, uuid, labels },
        (SubmitCommandPhaseView::Probe { issue, uuid, labels }, ClientReplyView::Answer(yes)) => {
            if yes {
                SubmitCommandPhaseView::Send { issue, uuid, labels }
            } else {
                SubmitCommandPhaseView::Finished(Err(not_available(t.target)))
            }
        },
        (SubmitCommandPhaseView::Send { issue, uuid, labels }, r) => match trip_failure(
            t.target,
            r,
        ) {
            Some(e) => SubmitCommandPhaseView::Finished(Err(e)),
            None => match r {
                ClientReplyView::Response(ServerResponseView::Success { issue_id }) => {
                    SubmitCommandPhaseView::Mark { id: issue.id, uuid, labels, remote: issue_id }
                },
                _ => t.phase,
            },
        },
        (
            SubmitCommandPhaseView::Mark { remote, .. },
            ClientReplyView::Store(StoreReplyView::Done),
        ) => SubmitCommandPhaseView::Finished(
            Ok(submitted_text(t.issue_id, t.target, remote)),
        ),
        _ => t.phase,
    }
}

/// Starts submitting issue `issue_id` of the repository `own` to `target`, whose
/// socket is below `root`.
///
/// Nothing is written before the target has accepted the issue.
pub fn submit_cmd(root: PathName, own: String, issue_id: i64, target: String) -> (t: SubmitCommand)
    ensures
        t@ == (SubmitCommandView {
            root: root@,
            own: own@,
            issue_id,
            target: target@,
            phase: SubmitCommandPhaseView::Load,
        }),
{
    SubmitCommand { root, own, issue_id, target, phase: SubmitCommandPhase::Load }
}

/// Makes the changes that mark an issue with the given labels as submitted.
fn make_submitted_writes(id: i64, labels: &Vec<String>, uuid: &str) -> (r: Vec<Write>)
    ensures
        views(r@) == submitted_writes(id, views(labels@), uuid@),
{
    let mut r: Vec<Write> = Vec::new();
    let ghost all = views(labels@);
    let mut i: usize = 0;
    assert(views(r@) =~= status_removals(id, all.take(0)));
    while i < labels.len()
        invariant
            i <= labels.len(),
            all == views(labels@),
            views(r@) == status_removals(id, all.take(i as int)),
        decreases labels.len() - i,
    {
        assert(all.take(i + 1).drop_last() == all.take(i as int));
        assert(all.take(i + 1).last() == labels@[i as int]@);
        let pending: bool = same_text(labels[i].as_str(), STATUS_PENDING);
        if names_status(labels[i].as_str()) && !pending {
            let w: Write = Write::RemoveLabel { id, label: labels[i].clone() };
            proof {
                crate::compose::views_push(r@, w);
            }
            r.push(w);
        }
        i = i + 1;
    }
    assert(all.take(i as int) == all);
    let ghost gone = r@;
    let outbound: Write = Write::AddLabel { id, label: OUTBOUND.to_owned() };
    let pending: Write = Write::AddLabel { id, label: STATUS_PENDING.to_owned() };
    let link: Write = Write::AddLabel { id, label: ref_label(uuid) };
    proof {
        crate::compose::views_push(gone, outbound);
        crate::compose::views_push(gone.push(outbound), pending);
        crate::compose::views_push(gone.push(outbound).push(pending), link);
    }
    r.push(outbound);
    r.push(pending);
    r.push(link);
    r
}

/// Makes the request for an issue.
fn make_submission(issue: &Issue, uuid: &String, labels: &Vec<String>, own: &String) -> (r:
    SubmitIssue)
    ensures
        r@ == submission(issue@, uuid@, views(labels@), own@),
{
    let body: String = match &issue.description {
        Some(d) => d.clone(),
        None => {
            let none: String = String::new();
            assert(none@ =~= Seq::<char>::empty());
            none
        },
    };
    let r: SubmitIssue = SubmitIssue {
        title: issue.title.clone(),
        body,
        labels: copy_texts(labels),
        source_slug: own.clone(),
        source_uuid: uuid.clone(),
        attachments: Vec::new(),
    };
    assert(r@.attachments =~= Seq::empty());
    r
}

/// A copy of a command's result.
fn copy_result(r: &Result<String, String>) -> (c: Result<String, String>)
    ensures
        slug_view(c) == slug_view(*r),
{
    match r {
        Ok(s) => Ok(s.clone()),
        Err(e) => Err(e.clone()),
    }
}

impl SubmitCommand {
    /// What to do next.
    pub fn current(&self) -> (a: ClientAction)
        ensures
            a@ == submit_command_action(self@),
    {
        match &self.phase {
            SubmitCommandPhase::Load => ClientAction::Store(StoreOp::Get { id: self.issue_id }),
            SubmitCommandPhase::Name { issue } => ClientAction::Store(
                StoreOp::Uuid { id: issue.id },
            ),
            SubmitCommandPhase::Labels { issue, .. } => ClientAction::Store(
                StoreOp::Labels { id: issue.id },
            ),
            SubmitCommandPhase::Probe { .. } => ClientAction::Exists(
                target_socket(&self.root, self.own.as_str(), self.target.as_str()),
            ),
            SubmitCommandPhase::Send { issue, uuid, labels } => ClientAction::RoundTrip(
                target_socket(&self.root, self.own.as_str(), self.target.as_str()),
                ClientRequest::Submit(make_submission(issue, uuid, labels, &self.own)),
            ),
            SubmitCommandPhase::Mark { id, uuid, labels, .. } => ClientAction::Store(
                StoreOp::Apply { writes: make_submitted_writes(*id, labels, uuid.as_str()) },
            ),
            SubmitCommandPhase::Finished(r) => ClientAction::Return(copy_result(r)),
        }
    }

    /// Goes on with what came of [`SubmitCommand::current`].
    pub fn resumed(self, reply: ClientReply) -> (t: SubmitCommand)
        ensures
            t@ == (SubmitCommandView { phase: submit_command_next(self@, reply@), ..self@ }),
    {
        let SubmitCommand { root, own, issue_id, target, phase } = self;
        let next: SubmitCommandPhase = match (phase, reply) {
            (SubmitCommandPhase::Finished(r), _) => SubmitCommandPhase::Finished(r),
            (SubmitCommandPhase::Name { .. }, ClientReply::Store(StoreReply::Failed(e))) => {
                SubmitCommandPhase::Finished(
                    Err(
                        cat4(
                            "issue #",
                            decimal_i64(issue_id).as_str(),
                            " has no UUID in the local DB: ",
                            e.as_str(),
                        ),
                    ),
                )
            },
            (SubmitCommandPhase::Probe { issue, uuid, labels }, ClientReply::Store(_)) => {
                SubmitCommandPhase::Probe { issue, uuid, labels }
            },
            (SubmitCommandPhase::Send { issue, uuid, labels }, ClientReply::Store(_)) => {
                SubmitCommandPhase::Send { issue, uuid, labels }
            },
            (_, ClientReply::Store(StoreReply::Failed(e))) => SubmitCommandPhase::Finished(Err(e)),
            (SubmitCommandPhase::Load, ClientReply::Store(StoreReply::Found(Some(issue)))) => {
                SubmitCommandPhase::Name { issue }
            },
            (SubmitCommandPhase::Load, ClientReply::Store(StoreReply::Found(None))) => {
                SubmitCommandPhase::Finished(Err(issue_missing(issue_id)))
            },
            (SubmitCommandPhase::Name { issue }, ClientReply::Store(StoreReply::Uuid(uuid))) => {
                SubmitCommandPhase::Labels { issue, uuid }
            },
            (
                SubmitCommandPhase::Labels { issue, uuid },
                ClientReply::Store(StoreReply::Labels(labels)),
            ) => SubmitCommandPhase::Probe { issue, uuid, labels },
            (SubmitCommandPhase::Probe { issue, uuid, labels }, ClientReply::Answer(yes)) => {
                if yes {
                    SubmitCommandPhase::Send { issue, uuid, labels }
                } else {
                    SubmitCommandPhase::Finished(Err(peer_missing(target.as_str())))
                }
            },
            (SubmitCommandPhase::Send { issue, uuid, labels }, r) => match trip_failed(
                target.as_str(),
                &r,
            ) {
                Some(e) => SubmitCommandPhase::Finished(Err(e)),
                None => match r {
                    ClientReply::Response(ServerResponse::Success { issue_id: remote }) => {
                        SubmitCommandPhase::Mark { id: issue.id, uuid, labels, remote }
                    },
                    _ => SubmitCommandPhase::Send { issue, uuid, labels },
                },
            },
            (
                SubmitCommandPhase::Mark { remote, .. },
                ClientReply::Store(StoreReply::Done),
            ) => {
                let tail: String = cat3("' (remote id ", decimal_i64(remote).as_str(), ")");
                SubmitCommandPhase::Finished(
                    Ok(
                        cat5(
                            "submitted issue #",
                            decimal_i64(issue_id).as_str(),
                            " to '",
                            target.as_str(),
                            tail.as_str(),
                        ),
                    ),
                )
            },
            (p, _) => p,
        };
        SubmitCommand { root, own, issue_id, target, phase: next }
    }
}

fn issue_missing(id: i64) -> (r: String)
    ensures
        r@ == no_issue(id),
{
    cat3("issue #", decimal_i64(id).as_str(), " not found")
}

fn peer_missing(peer: &str) -> (r: String)
    ensures
        r@ == not_available(peer@),
{
    cat3("peer '", peer, "' not available (not connected)")
}

// --- answer --------------------------------------------------------------------

/// How far `answer` has come. `id` is the issue, `peer` the repository that the
/// answer goes to and `uuid` the name of the request there.
#[derive(Debug, PartialEq, Eq)]
pub enum AnswerCommandPhase {
    /// Loading the issue.
    Load,
    /// Reading its labels.
    Labels { id: i64 },
    /// Reading its comments.
    Comments { id: i64, peer: String, uuid: String },
    /// Is the peer's socket there?
    Probe { id: i64, peer: String, uuid: String, results: Vec<AnswerComment> },
    /// Sending the answer.
    Send { id: i64, peer: String, uuid: String, results: Vec<AnswerComment> },
    /// Marking the issue as answered.
    Mark { id: i64, peer: String, remote: i64 },
    /// Closing the issue.
    Close { id: i64, peer: String, remote: i64 },
    /// The result is known.
    Finished(Result<String, String>),
}

/// The contents of [`AnswerCommandPhase`].
#[verifier::ext_equal]
pub enum AnswerCommandPhaseView {
    Load,
    Labels { id: i64 },
    Comments { id: i64, peer: Seq<char>, uuid: Seq<char> },
    Probe { id: i64, peer: Seq<char>, uuid: Seq<char>, results: Seq<AnswerCommentView> },
    Send { id: i64, peer: Seq<char>, uuid: Seq<char>, results: Seq<AnswerCommentView> },
    Mark { id: i64, peer: Seq<char>, remote: i64 },
    Close { id: i64, peer: Seq<char>, remote: i64 },
    Finished(Result<Seq<char>, Seq<char>>),
}

impl View for AnswerCommandPhase {
    type V = AnswerCommandPhaseView;

    open spec fn view(&self) -> AnswerCommandPhaseView {
        match self {
            AnswerCommandPhase::Load => AnswerCommandPhaseView::Load,
            AnswerCommandPhase::Labels { id } => AnswerCommandPhaseView::Labels { id: *id },
            AnswerCommandPhase::Comments { id, peer, uuid } => AnswerCommandPhaseView::Comments {
                id: *id,
                peer: peer@,
                uuid: uuid@,
            },
            AnswerCommandPhase::Probe { id, peer, uuid, results } => {
                AnswerCommandPhaseView::Probe {
                    id: *id,
                    peer: peer@,
                    uuid: uuid@,
                    results: views(results@),
                }
            },
            AnswerCommandPhase::Send { id, peer, uuid, results } => AnswerCommandPhaseView::Send {
                id: *id,
                peer: peer@,
                uuid: uuid@,
                results: views(results@),
            },
            AnswerCommandPhase::Mark { id, peer, remote } => AnswerCommandPhaseView::Mark {
                id: *id,
                peer: peer@,
                remote: *remote,
            },
            AnswerCommandPhase::Close { id, peer, remote } => AnswerCommandPhaseView::Close {
                id: *id,
                peer: peer@,
                remote: *remote,
            },
            AnswerCommandPhase::Finished(r) => AnswerCommandPhaseView::Finished(slug_view(*r)),
        }
    }
}

/// `answer` under way.
#[derive(Debug, PartialEq, Eq)]
pub struct AnswerCommand {
    root: PathName,
    own: String,
    issue_id: i64,
    phase: AnswerCommandPhase,
}

/// The contents of [`AnswerCommand`].
#[verifier::ext_equal]
pub struct AnswerCommandView {
    /// The socket root.
    pub root: Seq<u8>,
    /// The repository's own slug.
    pub own: Seq<char>,
    /// The issue that was asked for.
    pub issue_id: i64,
    pub phase: AnswerCommandPhaseView,
}

impl View for AnswerCommand {
    type V = AnswerCommandView;

    closed spec fn view(&self) -> AnswerCommandView {
        AnswerCommandView {
            root: self.root@,
            own: self.own@,
            issue_id: self.issue_id,
            phase: self.phase@,
        }
    }
}

/// The request that carries an answer.
pub open spec fn answering(uuid: Seq<char>, results: Seq<AnswerCommentView>) -> SubmitAnswerView {
    SubmitAnswerView { source_uuid: uuid, comments: results, attachments: Seq::empty() }
}

/// What the command asks for.
pub open spec fn answer_command_action(t: AnswerCommandView) -> ClientActionView {
    match t.phase {
        AnswerCommandPhaseView::Load => ClientActionView::Store(
            StoreOpView::Get { id: t.issue_id },
        ),
        AnswerCommandPhaseView::Labels { id } => ClientActionView::Store(
            StoreOpView::Labels { id },
        ),
        AnswerCommandPhaseView::Comments { id, .. } => ClientActionView::Store(
            StoreOpView::Comments { id },
        ),
        AnswerCommandPhaseView::Probe { peer, .. } => ClientActionView::Exists(
            listener_below(t.root, t.own, peer),
        ),
        AnswerCommandPhaseView::Send { peer, uuid, results, .. } => ClientActionView::RoundTrip(
            listener_below(t.root, t.own, peer),
            ClientRequestView::Answer(answering(uuid, results)),
        ),
        AnswerCommandPhaseView::Mark { id, .. } => ClientActionView::Store(
            StoreOpView::Transact {
                writes: swap_label_writes(id, STATUS_OPEN@, STATUS_ANSWERED@),
            },
        ),
        AnswerCommandPhaseView::Close { id, .. } => ClientActionView::Store(
            StoreOpView::Close { id },
        ),
        AnswerCommandPhaseView::Finished(r) => ClientActionView::Return(r),
    }
}

/// What the labels make of the command: the issue has to be an inbound one, and to
/// say where it came from and by which name.
pub open spec fn answer_labels(
    issue_id: i64,
    id: i64,
    labels: Seq<Seq<char>>,
) -> AnswerCommandPhaseView {
    let number = "issue #"@ + decimal(issue_id as int);
    if !labels.contains(INBOUND@) {
        AnswerCommandPhaseView::Finished(
            Err(number + " is not an inbound crossbridge issue"@),
        )
    } else {
        match (first_prefixed(labels, SOURCE_PREFIX@), first_prefixed(labels, REF_PREFIX@)) {
            (None, _) => AnswerCommandPhaseView::Finished(
                Err(number + " is missing required label 'xb-source:<slug>'"@),
            ),
            (Some(_), None) => AnswerCommandPhaseView::Finished(
                Err(number + " is missing required label 'xb-ref:<uuid>'"@),
            ),
            (Some(peer), Some(uuid)) => AnswerCommandPhaseView::Comments { id, peer, uuid },
        }
    }
}

/// What `answer` prints.
pub open spec fn answered_text(issue_id: i64, peer: Seq<char>, remote: i64) -> Seq<char> {
    "answered issue #"@ + decimal(issue_id as int) + " -> '"@ + peer + ("' (remote id "@ + decimal(
        remote as int,
    ) + ")"@)
}

/// Where the command stands after a reply. A reply of a kind that was not asked
/// for changes nothing.
pub open spec fn answer_command_next(
    t: AnswerCommandView,
    reply: ClientReplyView,
) -> AnswerCommandPhaseView {
    match (t.phase, reply) {
        (AnswerCommandPhaseView::Finished(_), _) => t.phase,
        (AnswerCommandPhaseView::Probe { .. }, ClientReplyView::Store(_)) => t.phase,
        (AnswerCommandPhaseView::Send { .. }, ClientReplyView::Store(_)) => t.phase,
        (_, ClientReplyView::Store(StoreReplyView::Failed(e))) => AnswerCommandPhaseView::Finished(
            Err(e),
        ),
        (
            AnswerCommandPhaseView::Load,
            ClientReplyView::Store(StoreReplyView::Found(Some(issue))),
        ) => AnswerCommandPhaseView::Labels { id: issue.id },
        (AnswerCommandPhaseView::Load, ClientReplyView::Store(StoreReplyView::Found(None))) => {
            AnswerCommandPhaseView::Finished(Err(no_issue(t.issue_id)))
        },
        (
            AnswerCommandPhaseView::Labels { id },
            ClientReplyView::Store(StoreReplyView::Labels(labels)),
        ) => answer_labels(t.issue_id, id, labels),
        (
            AnswerCommandPhaseView::Comments { id, peer, uuid },
            ClientReplyView::Store(StoreReplyView::Comments(v)),
        ) => AnswerCommandPhaseView::Probe { id, peer, uuid, results: result_comments(v) },
        (
            AnswerCommandPhaseView::Probe { id, peer, uuid, results },
            ClientReplyView::Answer(yes),
        ) => if yes {
            AnswerCommandPhaseView::Send { id, peer, uuid, results }
        } else {
            AnswerCommandPhaseView::Finished(Err(not_available(peer)))
        },
        (AnswerCommandPhaseView::Send { id, peer, .. }, r) => match trip_failure(peer, r) {
            Some(e) => AnswerCommandPhaseView::Finished(Err(e)),
            None => match r {
                ClientReplyView::Response(ServerResponseView::Success { issue_id }) => {
                    AnswerCommandPhaseView::Mark { id, peer, remote: issue_id }
                },
                _ => t.phase,
            },
        },
        (
            AnswerCommandPhaseView::Mark { id, peer, remote },
            ClientReplyView::Store(StoreReplyView::Done),
        ) => AnswerCommandPhaseView::Close { id, peer, remote },
        (
            AnswerCommandPhaseView::Close { peer, remote, .. },
            ClientReplyView::Store(StoreReplyView::Done),
        ) => AnswerCommandPhaseView::Finished(Ok(answered_text(t.issue_id, peer, remote))),
        _ => t.phase,
    }
}

/// Starts answering the inbound issue `issue_id` of the repository `own`: its
/// comments of the kind `result` go to the repository that it came from, whose
/// socket is below `root`.
///
/// Nothing is written before that repository has accepted the answer.
pub fn answer_cmd(root: PathName, own: String, issue_id: i64) -> (t: AnswerCommand)
    ensures
        t@ == (AnswerCommandView {
            root: root@,
            own: own@,
            issue_id,
            phase: AnswerCommandPhaseView::Load,
        }),
{
    AnswerCommand { root, own, issue_id, phase: AnswerCommandPhase::Load }
}

/// What the labels make of the command.
fn check_labels(issue_id: i64, id: i64, labels: &Vec<String>) -> (p: AnswerCommandPhase)
    ensures
        p@ == answer_labels(issue_id, id, views(labels@)),
{
    let number: String = cat2("issue #", decimal_i64(issue_id).as_str());
    let inbound: bool = has(labels.as_slice(), INBOUND);
    if !inbound {
        return AnswerCommandPhase::Finished(
            Err(cat2(number.as_str(), " is not an inbound crossbridge issue")),
        );
    }
    let source: Option<&str> = find_prefixed(labels.as_slice(), SOURCE_PREFIX);
    let reference: Option<&str> = find_prefixed(labels.as_slice(), REF_PREFIX);
    match (source, reference) {
        (None, _) => AnswerCommandPhase::Finished(
            Err(cat2(number.as_str(), " is missing required label 'xb-source:<slug>'")),
        ),
        (Some(_), None) => AnswerCommandPhase::Finished(
            Err(cat2(number.as_str(), " is missing required label 'xb-ref:<uuid>'")),
        ),
        (Some(peer), Some(uuid)) => AnswerCommandPhase::Comments {
            id,
            peer: peer.to_owned(),
            uuid: uuid.to_owned(),
        },
    }
}

/// A copy of comments.
fn copy_comments(v: &Vec<AnswerComment>) -> (r: Vec<AnswerComment>)
    ensures
        views(r@) == views(v@),
{
    let mut r: Vec<AnswerComment> = Vec::new();
    let ghost all = views(v@);
    let mut i: usize = 0;
    while i < v.len()
        invariant
            i <= v.len(),
            all == views(v@),
            views(r@) == all.take(i as int),
        decreases v.len() - i,
    {
        let c: AnswerComment = AnswerComment {
            content: v[i].content.clone(),
            kind: v[i].kind.clone(),
        };
        proof {
            crate::compose::views_push(r@, c);
        }
        r.push(c);
        assert(all.take(i as int).push(c@) == all.take(i + 1));
        i = i + 1;
    }
    assert(all.take(i as int) == all);
    r
}

impl AnswerCommand {
    /// What to do next.
    pub fn current(&self) -> (a: ClientAction)
        ensures
            a@ == answer_command_action(self@),
    {
        match &self.phase {
            AnswerCommandPhase::Load => ClientAction::Store(StoreOp::Get { id: self.issue_id }),
            AnswerCommandPhase::Labels { id } => ClientAction::Store(StoreOp::Labels { id: *id }),
            AnswerCommandPhase::Comments { id, .. } => ClientAction::Store(
                StoreOp::Comments { id: *id },
            ),
            AnswerCommandPhase::Probe { peer, .. } => ClientAction::Exists(
                target_socket(&self.root, self.own.as_str(), peer.as_str()),
            ),
            AnswerCommandPhase::Send { peer, uuid, results, .. } => {
                let answer: SubmitAnswer = SubmitAnswer {
                    source_uuid: uuid.clone(),
                    comments: copy_comments(results),
                    attachments: Vec::new(),
                };
                assert(answer@.attachments =~= Seq::empty());
                ClientAction::RoundTrip(
                    target_socket(&self.root, self.own.as_str(), peer.as_str()),
                    ClientRequest::Answer(answer),
                )
            },
            AnswerCommandPhase::Mark { id, .. } => ClientAction::Store(
                StoreOp::Transact {
                    writes: make_swap_label_writes(*id, STATUS_OPEN, STATUS_ANSWERED),
                },
            ),
            AnswerCommandPhase::Close { id, .. } => ClientAction::Store(
                StoreOp::Close { id: *id },
            ),
            AnswerCommandPhase::Finished(r) => ClientAction::Return(copy_result(r)),
        }
    }

    /// Goes on with what came of [`AnswerCommand::current`].
    pub fn resumed(self, reply: ClientReply) -> (t: AnswerCommand)
        ensures
            t@ == (AnswerCommandView { phase: answer_command_next(self@, reply@), ..self@ }),
    {
        let AnswerCommand { root, own, issue_id, phase } = self;
        let next: AnswerCommandPhase = match (phase, reply) {
            (AnswerCommandPhase::Finished(r), _) => AnswerCommandPhase::Finished(r),
            (AnswerCommandPhase::Probe { id, peer, uuid, results }, ClientReply::Store(_)) => {
                AnswerCommandPhase::Probe { id, peer, uuid, results }
            },
            (AnswerCommandPhase::Send { id, peer, uuid, results }, ClientReply::Store(_)) => {
                AnswerCommandPhase::Send { id, peer, uuid, results }
            },
            (_, ClientReply::Store(StoreReply::Failed(e))) => AnswerCommandPhase::Finished(Err(e)),
            (AnswerCommandPhase::Load, ClientReply::Store(StoreReply::Found(Some(issue)))) => {
                AnswerCommandPhase::Labels { id: issue.id }
            },
            (AnswerCommandPhase::Load, ClientReply::Store(StoreReply::Found(None))) => {
                AnswerCommandPhase::Finished(Err(issue_missing(issue_id)))
            },
            (AnswerCommandPhase::Labels { id }, ClientReply::Store(StoreReply::Labels(labels))) => {
                check_labels(issue_id, id, &labels)
            },
            (
                AnswerCommandPhase::Comments { id, peer, uuid },
                ClientReply::Store(StoreReply::Comments(v)),
            ) => AnswerCommandPhase::Probe { id, peer, uuid, results: make_result_comments(&v) },
            (AnswerCommandPhase::Probe { id, peer, uuid, results }, ClientReply::Answer(yes)) => {
                if yes {
                    AnswerCommandPhase::Send { id, peer, uuid, results }
                } else {
                    AnswerCommandPhase::Finished(Err(peer_missing(peer.as_str())))
                }
            },
            (AnswerCommandPhase::Send { id, peer, uuid, results }, r) => match trip_failed(
                peer.as_str(),
                &r,
            ) {
                Some(e) => AnswerCommandPhase::Finished(Err(e)),
                None => match r {
                    ClientReply::Response(ServerResponse::Success { issue_id: remote }) => {
                        AnswerCommandPhase::Mark { id, peer, remote }
                    },
                    _ => AnswerCommandPhase::Send { id, peer, uuid, results },
                },
            },
            (
                AnswerCommandPhase::Mark { id, peer, remote },
                ClientReply::Store(StoreReply::Done),
            ) => AnswerCommandPhase::Close { id, peer, remote },
            (
                AnswerCommandPhase::Close { peer, remote, .. },
                ClientReply::Store(StoreReply::Done),
            ) => {
                let tail: String = cat3("' (remote id ", decimal_i64(remote).as_str(), ")");
                AnswerCommandPhase::Finished(
                    Ok(
                        cat5(
                            "answered issue #",
                            decimal_i64(issue_id).as_str(),
                            " -> '",
                            peer.as_str(),
                            tail.as_str(),
                        ),
                    ),
                )
            },
            (p, _) => p,
        };
        AnswerCommand { root, own, issue_id, phase: next }
    }
}

/// A directory that holds an issue database is its own repository; another one belongs to
/// the repository of the directory above it; and where no directory above has a database,
/// the one that was started from counts.
pub proof fn the_nearest_repository_counts(
    dir: Seq<u8>,
    start: Seq<u8>,
    there: spec_fn(Seq<u8>) -> bool,
)
    ensures
        ({
            let db = below(below(dir, encode_utf8(".crosslink"@)), encode_utf8("issues.db"@));
            &&& there(db) ==> nearest_repo(dir, start, there) == dir
            &&& !there(db) ==> (match parent_of(dir) {
                Some(p) => nearest_repo(dir, start, there) == nearest_repo(p, start, there),
                None => nearest_repo(dir, start, there) == start,
            })
        }),
{
    parent_is_shorter(dir);
}

} // verus!
