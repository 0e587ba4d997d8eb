//! One cycle of the polling bridge: for each repository, deliver its outbound
//! requests, then collect its answers.
//!
//! A repository whose database cannot be opened is passed over, and a request or
//! an answer that fails is reported and does not keep the others from being
//! handled.

use vstd::prelude::*;

use crate::collect::{
    collect_action, collect_next, collect_single_answer, collect_start, CollectTask,
    CollectTaskView,
};
use crate::compose::{views, views_push};
use crate::config::{db_below, Config, RepoView};
use crate::labels::{has, INBOUND, OUTBOUND, STATUS_ANSWERED, STATUS_OPEN};
use crate::outbound::{
    outbound_action, outbound_next, outbound_start, route_single_outbound, OutboundTask,
    OutboundTaskView,
};
use crate::pathname::PathName;
use crate::store::{
    copy_opt, copy_texts, copy_unit, label_lists, unit_view, Issue, IssueView, RouteAction,
    RouteActionView, RouteOp, RouteOpView, StoreOp, StoreOpView, StoreReply, StoreReplyView,
};

verus! {

broadcast use vstd::seq_lib::group_seq_properties;

// --- candidates ----------------------------------------------------------------

/// An issue that is to be handled, with its labels.
#[derive(Debug, PartialEq, Eq)]
pub struct Candidate {
    pub issue: Issue,
    pub labels: Vec<String>,
}

/// The contents of [`Candidate`].
#[verifier::ext_equal]
pub struct CandidateView {
    pub issue: IssueView,
    pub labels: Seq<Seq<char>>,
}

impl View for Candidate {
    type V = CandidateView;

    open spec fn view(&self) -> CandidateView {
        CandidateView { issue: self.issue@, labels: views(self.labels@) }
    }
}

/// The issues whose label list holds `status`, in order, each with its list. An
/// issue without a list is left out.
pub open spec fn candidates(
    issues: Seq<IssueView>,
    lists: Seq<Seq<Seq<char>>>,
    status: Seq<char>,
) -> Seq<CandidateView>
    decreases issues.len(),
{
    if issues.len() == 0 {
        Seq::empty()
    } else {
        let i = issues.len() - 1;
        let front = candidates(issues.drop_last(), lists, status);
        if i < lists.len() && lists[i].contains(status) {
            front.push(CandidateView { issue: issues[i], labels: lists[i] })
        } else {
            front
        }
    }
}

/// A copy of an issue.
fn copy_issue(i: &Issue) -> (r: Issue)
    ensures
        r@ == i@,
{
    Issue {
        id: i.id,
        title: i.title.clone(),
        description: copy_opt(&i.description),
        status: i.status.clone(),
    }
}

/// Picks the issues whose label list holds `status`.
fn pick(issues: &Vec<Issue>, lists: &Vec<Vec<String>>, status: &str) -> (r: Vec<Candidate>)
    ensures
        views(r@) == candidates(views(issues@), label_lists(lists@), status@),
{
    let mut r: Vec<Candidate> = Vec::new();
    let ghost all = views(issues@);
    let ghost ls = label_lists(lists@);
    let mut i: usize = 0;
    assert(views(r@) =~= candidates(all.take(0), ls, status@));
    while i < issues.len()
        invariant
            i <= issues.len(),
            all == views(issues@),
            ls == label_lists(lists@),
            views(r@) == candidates(all.take(i as int), ls, status@),
        decreases issues.len() - i,
    {
        assert(all.take(i + 1).drop_last() == all.take(i as int));
        assert(all.take(i + 1)[i as int] == issues@[i as int]@);
        if i < lists.len() && has(lists[i].as_slice(), status) {
            let c: Candidate = Candidate {
                issue: copy_issue(&issues[i]),
                labels: copy_texts(&lists[i]),
            };
            proof {
                views_push(r@, c);
            }
            r.push(c);
        }
        i = i + 1;
    }
    assert(all.take(i as int) == all);
    r
}

// --- one issue -----------------------------------------------------------------

/// The handling of one issue.
#[derive(Debug, PartialEq, Eq)]
pub enum OneTask {
    Deliver(OutboundTask),
    Collect(CollectTask),
}

/// The contents of [`OneTask`].
#[verifier::ext_equal]
pub enum OneTaskView {
    Deliver(OutboundTaskView),
    Collect(CollectTaskView),
}

impl View for OneTask {
    type V = OneTaskView;

    open spec fn view(&self) -> OneTaskView {
        match self {
            OneTask::Deliver(t) => OneTaskView::Deliver(t@),
            OneTask::Collect(t) => OneTaskView::Collect(t@),
        }
    }
}

/// Where the handling of an issue starts: an outbound one is delivered, an
/// answered one is collected.
pub open spec fn one_start(
    repos: Seq<RepoView>,
    outbound: bool,
    slug: Seq<char>,
    c: CandidateView,
) -> OneTaskView {
    if outbound {
        OneTaskView::Deliver(
            OutboundTaskView {
                source_slug: slug,
                issue: c.issue,
                labels: c.labels,
                phase: outbound_start(repos, c.issue, c.labels),
            },
        )
    } else {
        OneTaskView::Collect(
            CollectTaskView {
                this_slug: slug,
                id: c.issue.id,
                phase: collect_start(repos, c.issue.id, c.labels),
            },
        )
    }
}

/// What the handling of an issue asks for.
pub open spec fn one_action(t: OneTaskView) -> RouteActionView {
    match t {
        OneTaskView::Deliver(o) => outbound_action(o),
        OneTaskView::Collect(c) => collect_action(c),
    }
}

/// Where the handling of an issue stands after a reply.
pub open spec fn one_next(t: OneTaskView, reply: StoreReplyView) -> OneTaskView {
    match t {
        OneTaskView::Deliver(o) => OneTaskView::Deliver(
            OutboundTaskView { phase: outbound_next(o, reply), ..o },
        ),
        OneTaskView::Collect(c) => OneTaskView::Collect(
            CollectTaskView { phase: collect_next(c, reply), ..c },
        ),
    }
}

impl OneTask {
    fn start(outbound: bool, slug: &str, config: &Config, c: &Candidate) -> (t: OneTask)
        ensures
            t@ == one_start(config@, outbound, slug@, c@),
    {
        if outbound {
            OneTask::Deliver(
                route_single_outbound(slug, config, copy_issue(&c.issue), copy_texts(&c.labels)),
            )
        } else {
            OneTask::Collect(collect_single_answer(slug, config, c.issue.id, &c.labels))
        }
    }

    fn current(&self) -> (a: RouteAction)
        ensures
            a@ == one_action(self@),
    {
        match self {
            OneTask::Deliver(t) => t.current(),
            OneTask::Collect(t) => t.current(),
        }
    }

    fn resumed(self, reply: StoreReply) -> (t: OneTask)
        ensures
            t@ == one_next(self@, reply@),
    {
        match self {
            OneTask::Deliver(t) => {
                let mut t: OutboundTask = t;
                t.resume(reply);
                OneTask::Deliver(t)
            },
            OneTask::Collect(t) => {
                let mut t: CollectTask = t;
                t.resume(reply);
                OneTask::Collect(t)
            },
        }
    }
}

// --- all issues of a repository ------------------------------------------------

/// How far the handling of a repository's issues has come.
#[derive(Debug, PartialEq, Eq)]
pub enum ScanPhase {
    /// Listing the open issues that carry the marker.
    List,
    /// Reading their labels.
    Labels { issues: Vec<Issue> },
    /// Handling those of `queue`, the one at `at` being under way.
    Each { queue: Vec<Candidate>, at: usize, task: OneTask },
    /// The result is known.
    Finished(Result<(), String>),
}

/// The contents of [`ScanPhase`].
#[verifier::ext_equal]
pub enum ScanPhaseView {
    List,
    Labels { issues: Seq<IssueView> },
    Each { queue: Seq<CandidateView>, at: nat, task: OneTaskView },
    Finished(Result<(), Seq<char>>),
}

impl View for ScanPhase {
    type V = ScanPhaseView;

    open spec fn view(&self) -> ScanPhaseView {
        match self {
            ScanPhase::List => ScanPhaseView::List,
            ScanPhase::Labels { issues } => ScanPhaseView::Labels { issues: views(issues@) },
            ScanPhase::Each { queue, at, task } => ScanPhaseView::Each {
                queue: views(queue@),
                at: *at as nat,
                task: task@,
            },
            ScanPhase::Finished(r) => ScanPhaseView::Finished(unit_view(*r)),
        }
    }
}

/// The handling of a repository's outbound or answered issues.
#[derive(Debug, PartialEq, Eq)]
pub struct ScanTask {
    outbound: bool,
    slug: String,
    phase: ScanPhase,
}

/// The contents of [`ScanTask`].
#[verifier::ext_equal]
pub struct ScanTaskView {
    pub outbound: bool,
    pub slug: Seq<char>,
    pub phase: ScanPhaseView,
}

impl View for ScanTask {
    type V = ScanTaskView;

    closed spec fn view(&self) -> ScanTaskView {
        ScanTaskView { outbound: self.outbound, slug: self.slug@, phase: self.phase@ }
    }
}

/// What the handling of a repository's issues asks for.
#[derive(Debug, PartialEq, Eq)]
pub enum ScanAction {
    /// An operation.
    Do(RouteOp),
    /// Reporting how the handling of an issue came out. Answered with anything.
    Report { issue: i64, result: Result<(), String> },
    /// Nothing more: this is the result.
    Return(Result<(), String>),
}

/// The contents of [`ScanAction`].
#[verifier::ext_equal]
pub enum ScanActionView {
    Do(RouteOpView),
    Report { issue: i64, result: Result<(), Seq<char>> },
    Return(Result<(), Seq<char>>),
}

impl View for ScanAction {
    type V = ScanActionView;

    open spec fn view(&self) -> ScanActionView {
        match self {
            ScanAction::Do(op) => ScanActionView::Do(op@),
            ScanAction::Report { issue, result } => ScanActionView::Report {
                issue: *issue,
                result: unit_view(*result),
            },
            ScanAction::Return(r) => ScanActionView::Return(unit_view(*r)),
        }
    }
}

/// The ids of issues.
pub open spec fn ids_of(issues: Seq<IssueView>) -> Seq<i64> {
    Seq::new(issues.len(), |i: int| issues[i].id)
}

/// The marker that the issues carry.
pub open spec fn marker(outbound: bool) -> Seq<char> {
    if outbound {
        OUTBOUND@
    } else {
        INBOUND@
    }
}

/// The status in which the issues are handled.
pub open spec fn due(outbound: bool) -> Seq<char> {
    if outbound {
        STATUS_OPEN@
    } else {
        STATUS_ANSWERED@
    }
}

/// What the task asks for.
pub open spec fn scan_action(t: ScanTaskView) -> ScanActionView {
    match t.phase {
        ScanPhaseView::List => ScanActionView::Do(
            RouteOpView::Here(StoreOpView::List { closed: false, label: marker(t.outbound) }),
        ),
        ScanPhaseView::Labels { issues } => ScanActionView::Do(
            RouteOpView::Here(StoreOpView::LabelsOfAll { ids: ids_of(issues) }),
        ),
        ScanPhaseView::Each { queue, at, task } => match one_action(task) {
            RouteActionView::Do(op) => ScanActionView::Do(op),
            RouteActionView::Return(result) => if at < queue.len() {
                ScanActionView::Report { issue: queue[at as int].issue.id, result }
            } else {
                ScanActionView::Return(Ok(()))
            },
        },
        ScanPhaseView::Finished(r) => ScanActionView::Return(r),
    }
}

/// Handling the candidates from position `at` on.
pub open spec fn each_from(
    repos: Seq<RepoView>,
    outbound: bool,
    slug: Seq<char>,
    queue: Seq<CandidateView>,
    at: nat,
) -> ScanPhaseView {
    if at < queue.len() {
        ScanPhaseView::Each { queue, at, task: one_start(repos, outbound, slug, queue[at as int]) }
    } else {
        ScanPhaseView::Finished(Ok(()))
    }
}

/// Where the task stands after a reply. A reply of a kind that was not asked for
/// changes nothing.
pub open spec fn scan_next(
    repos: Seq<RepoView>,
    t: ScanTaskView,
    reply: StoreReplyView,
) -> ScanPhaseView {
    match (t.phase, reply) {
        (ScanPhaseView::List, StoreReplyView::Issues(v)) => if v.len() == 0 {
            ScanPhaseView::Finished(Ok(()))
        } else {
            ScanPhaseView::Labels { issues: v }
        },
        (ScanPhaseView::List, StoreReplyView::Failed(e)) => ScanPhaseView::Finished(Err(e)),
        (ScanPhaseView::Labels { issues }, StoreReplyView::LabelLists(ls)) => each_from(
            repos,
            t.outbound,
            t.slug,
            candidates(issues, ls, due(t.outbound)),
            0,
        ),
        (ScanPhaseView::Labels { .. }, StoreReplyView::Failed(e)) => ScanPhaseView::Finished(
            Err(e),
        ),
        (ScanPhaseView::Each { queue, at, task }, _) => if one_action(task) is Return {
            each_from(repos, t.outbound, t.slug, queue, at + 1)
        } else {
            ScanPhaseView::Each { queue, at, task: one_next(task, reply) }
        },
        _ => t.phase,
    }
}

/// Makes the ids of issues.
fn make_ids(issues: &Vec<Issue>) -> (r: Vec<i64>)
    ensures
        r@ == ids_of(views(issues@)),
{
    let mut r: Vec<i64> = Vec::new();
    let ghost all = ids_of(views(issues@));
    let mut i: usize = 0;
    while i < issues.len()
        invariant
            i <= issues.len(),
            all == ids_of(views(issues@)),
            r@ == all.take(i as int),
        decreases issues.len() - i,
    {
        r.push(issues[i].id);
        assert(all.take(i as int).push(issues@[i as int].id) == all.take(i + 1));
        i = i + 1;
    }
    assert(all.take(i as int) == all);
    r
}

/// Starts delivering the outbound requests of a repository: the open issues that
/// carry `xb:outbound` and `xb-status:open`.
pub fn route_outbound(source_slug: &str) -> (t: ScanTask)
    ensures
        t@ == (ScanTaskView { outbound: true, slug: source_slug@, phase: ScanPhaseView::List }),
{
    ScanTask { outbound: true, slug: source_slug.to_owned(), phase: ScanPhase::List }
}

/// Starts collecting the answers of a repository: the open issues that carry
/// `xb:inbound` and `xb-status:answered`.
pub fn collect_answered(this_slug: &str) -> (t: ScanTask)
    ensures
        t@ == (ScanTaskView { outbound: false, slug: this_slug@, phase: ScanPhaseView::List }),
{
    ScanTask { outbound: false, slug: this_slug.to_owned(), phase: ScanPhase::List }
}

impl ScanTask {
    /// What to do next.
    pub fn current(&self) -> (a: ScanAction)
        ensures
            a@ == scan_action(self@),
    {
        match &self.phase {
            ScanPhase::List => {
                let label: &str = if self.outbound {
                    OUTBOUND
                } else {
                    INBOUND
                };
                ScanAction::Do(
                    RouteOp::Here(StoreOp::List { closed: false, label: label.to_owned() }),
                )
            },
            ScanPhase::Labels { issues } => ScanAction::Do(
                RouteOp::Here(StoreOp::LabelsOfAll { ids: make_ids(issues) }),
            ),
            ScanPhase::Each { queue, at, task } => match task.current() {
                RouteAction::Do(op) => ScanAction::Do(op),
                RouteAction::Return(result) => if *at < queue.len() {
                    ScanAction::Report { issue: queue[*at].issue.id, result }
                } else {
                    ScanAction::Return(Ok(()))
                },
            },
            ScanPhase::Finished(r) => ScanAction::Return(copy_unit(r)),
        }
    }

    /// Goes on with what came of [`ScanTask::current`].
    pub fn resumed(self, config: &Config, reply: StoreReply) -> (t: ScanTask)
        ensures
            t@ == (ScanTaskView { phase: scan_next(config@, self@, reply@), ..self@ }),
    {
        let ScanTask { outbound, slug, phase } = self;
        let next: ScanPhase = match (phase, reply) {
            (ScanPhase::List, StoreReply::Issues(v)) => if v.len() == 0 {
                ScanPhase::Finished(Ok(()))
            } else {
                ScanPhase::Labels { issues: v }
            },
            (ScanPhase::List, StoreReply::Failed(e)) => ScanPhase::Finished(Err(e)),
            (ScanPhase::Labels { issues }, StoreReply::LabelLists(ls)) => {
                let status: &str = if outbound {
                    STATUS_OPEN
                } else {
                    STATUS_ANSWERED
                };
                each(outbound, slug.as_str(), config, pick(&issues, &ls, status), 0)
            },
            (ScanPhase::Labels { .. }, StoreReply::Failed(e)) => ScanPhase::Finished(Err(e)),
            (ScanPhase::Each { queue, at, task }, r) => match task.current() {
                RouteAction::Return(_) => if at < queue.len() {
                    each(outbound, slug.as_str(), config, queue, at + 1)
                } else {
                    ScanPhase::Finished(Ok(()))
                },
                RouteAction::Do(_) => ScanPhase::Each { queue, at, task: task.resumed(r) },
            },
            (p, _) => p,
        };
        ScanTask { outbound, slug, phase: next }
    }
}

/// Handles the candidates from position `at` on.
fn each(outbound: bool, slug: &str, config: &Config, queue: Vec<Candidate>, at: usize) -> (p:
    ScanPhase)
    ensures
        p@ == each_from(config@, outbound, slug@, views(queue@), at as nat),
{
    if at < queue.len() {
        let task: OneTask = OneTask::start(outbound, slug, config, &queue[at]);
        ScanPhase::Each { queue, at, task }
    } else {
        ScanPhase::Finished(Ok(()))
    }
}

// --- all repositories ----------------------------------------------------------

/// How far the handling of one repository has come.
#[derive(Debug, PartialEq, Eq)]
pub enum CyclePhase {
    /// Opening its database.
    Open,
    /// Delivering its requests, or collecting its answers.
    Scanning(ScanTask),
}

/// The contents of [`CyclePhase`].
#[verifier::ext_equal]
pub enum CyclePhaseView {
    Open,
    Scanning(ScanTaskView),
}

impl View for CyclePhase {
    type V = CyclePhaseView;

    open spec fn view(&self) -> CyclePhaseView {
        match self {
            CyclePhase::Open => CyclePhaseView::Open,
            CyclePhase::Scanning(t) => CyclePhaseView::Scanning(t@),
        }
    }
}

/// A cycle under way: the repository at position `at` is being handled.
#[derive(Debug, PartialEq, Eq)]
pub struct CycleTask {
    at: usize,
    phase: CyclePhase,
}

/// The contents of [`CycleTask`].
#[verifier::ext_equal]
pub struct CycleTaskView {
    pub at: nat,
    pub phase: CyclePhaseView,
}

impl View for CycleTask {
    type V = CycleTaskView;

    closed spec fn view(&self) -> CycleTaskView {
        CycleTaskView { at: self.at as nat, phase: self.phase@ }
    }
}

/// What a cycle asks for.
#[derive(Debug, PartialEq, Eq)]
pub enum CycleAction {
    /// Opens the database of the repository that is to be handled. Answered with
    /// `Done`.
    OpenHere(PathName),
    /// An operation on that database, or on another repository's.
    Do(RouteOp),
    /// Reporting how the handling of an issue came out. Answered with anything.
    Report { issue: i64, result: Result<(), String> },
    /// Reporting how all deliveries, or all collections, of the repository came
    /// out. Answered with anything.
    ReportAll { outbound: bool, result: Result<(), String> },
    /// Nothing more.
    Finish,
}

/// The contents of [`CycleAction`].
#[verifier::ext_equal]
pub enum CycleActionView {
    OpenHere(Seq<u8>),
    Do(RouteOpView),
    Report { issue: i64, result: Result<(), Seq<char>> },
    ReportAll { outbound: bool, result: Result<(), Seq<char>> },
    Finish,
}

impl View for CycleAction {
    type V = CycleActionView;

    open spec fn view(&self) -> CycleActionView {
        match self {
            CycleAction::OpenHere(p) => CycleActionView::OpenHere(p@),
            CycleAction::Do(op) => CycleActionView::Do(op@),
            CycleAction::Report { issue, result } => CycleActionView::Report {
                issue: *issue,
                result: unit_view(*result),
            },
            CycleAction::ReportAll { outbound, result } => CycleActionView::ReportAll {
                outbound: *outbound,
                result: unit_view(*result),
            },
            CycleAction::Finish => CycleActionView::Finish,
        }
    }
}

/// What the cycle asks for.
pub open spec fn cycle_action(repos: Seq<RepoView>, t: CycleTaskView) -> CycleActionView {
    if t.at >= repos.len() {
        CycleActionView::Finish
    } else {
        match t.phase {
            CyclePhaseView::Open => CycleActionView::OpenHere(db_below(repos[t.at as int].path)),
            CyclePhaseView::Scanning(s) => match scan_action(s) {
                ScanActionView::Do(op) => CycleActionView::Do(op),
                ScanActionView::Report { issue, result } => CycleActionView::Report {
                    issue,
                    result,
                },
                ScanActionView::Return(result) => CycleActionView::ReportAll {
                    outbound: s.outbound,
                    result,
                },
            },
        }
    }
}

/// Handling the next repository.
pub open spec fn next_repo(t: CycleTaskView) -> CycleTaskView {
    CycleTaskView { at: t.at + 1, phase: CyclePhaseView::Open }
}

/// A scan at its beginning.
pub open spec fn fresh_scan(outbound: bool, slug: Seq<char>) -> CyclePhaseView {
    CyclePhaseView::Scanning(ScanTaskView { outbound, slug, phase: ScanPhaseView::List })
}

/// Where the cycle stands after a reply. A reply of a kind that was not asked for
/// changes nothing.
pub open spec fn cycle_next(
    repos: Seq<RepoView>,
    t: CycleTaskView,
    reply: StoreReplyView,
) -> CycleTaskView {
    if t.at >= repos.len() {
        t
    } else {
        match t.phase {
            CyclePhaseView::Open => match reply {
                StoreReplyView::Done => CycleTaskView {
                    phase: fresh_scan(true, repos[t.at as int].slug),
                    ..t
                },
                StoreReplyView::Failed(_) => next_repo(t),
                _ => t,
            },
            CyclePhaseView::Scanning(s) => if scan_action(s) is Return {
                if s.outbound {
                    CycleTaskView { phase: fresh_scan(false, s.slug), ..t }
                } else {
                    next_repo(t)
                }
            } else {
                CycleTaskView {
                    phase: CyclePhaseView::Scanning(
                        ScanTaskView { phase: scan_next(repos, s, reply), ..s },
                    ),
                    ..t
                }
            },
        }
    }
}

/// Starts a cycle.
pub fn run_cycle() -> (t: CycleTask)
    ensures
        t@ == (CycleTaskView { at: 0, phase: CyclePhaseView::Open }),
{
    CycleTask { at: 0, phase: CyclePhase::Open }
}

impl CycleTask {
    /// What to do next.
    pub fn current(&self, config: &Config) -> (a: CycleAction)
        ensures
            a@ == cycle_action(config@, self@),
    {
        if self.at >= config.len() {
            return CycleAction::Finish;
        }
        match &self.phase {
            CyclePhase::Open => CycleAction::OpenHere(config.entry(self.at).repo.db_path()),
            CyclePhase::Scanning(s) => match s.current() {
                ScanAction::Do(op) => CycleAction::Do(op),
                ScanAction::Report { issue, result } => CycleAction::Report { issue, result },
                ScanAction::Return(result) => CycleAction::ReportAll {
                    outbound: s.outbound,
                    result,
                },
            },
        }
    }

    /// Goes on with what came of [`CycleTask::current`].
    pub fn resumed(self, config: &Config, reply: StoreReply) -> (t: CycleTask)
        ensures
            t@ == cycle_next(config@, self@, reply@),
    {
        if self.at >= config.len() {
            return self;
        }
        let CycleTask { at, phase } = self;
        match phase {
            CyclePhase::Open => match reply {
                StoreReply::Done => {
                    let slug: &str = config.entry(at).slug.as_str();
                    CycleTask { at, phase: CyclePhase::Scanning(route_outbound(slug)) }
                },
                StoreReply::Failed(_) => CycleTask { at: at + 1, phase: CyclePhase::Open },
                _ => CycleTask { at, phase: CyclePhase::Open },
            },
            CyclePhase::Scanning(s) => match s.current() {
                ScanAction::Return(_) => if s.outbound {
                    CycleTask {
                        at,
                        phase: CyclePhase::Scanning(collect_answered(s.slug.as_str())),
                    }
                } else {
                    CycleTask { at: at + 1, phase: CyclePhase::Open }
                },
                _ => CycleTask { at, phase: CyclePhase::Scanning(s.resumed(config, reply)) },
            },
        }
    }
}

} // verus!
