//! What is asked of a repository's issue database.
//!
//! The tasks of this library do not touch a database. They name the operation to
//! carry out, a [`StoreOp`], and are resumed with its outcome, a [`StoreReply`].
//! [`Store`](crate::model::Store) models a database in which every operation
//! succeeds: the laws say what a task leaves behind in it.

use vstd::prelude::*;

use crate::compose::{views, views_push};
use crate::pathname::PathName;

verus! {

broadcast use vstd::seq_lib::group_seq_properties;

// --- values --------------------------------------------------------------------

/// An issue as the database returns it.
#[derive(Debug, Clone, PartialEq, Eq)]
pub struct Issue {
    pub id: i64,
    pub title: String,
    pub description: Option<String>,
    /// `open`, `closed` or whatever else the database has.
    pub status: String,
}

/// The contents of [`Issue`].
#[verifier::ext_equal]
pub struct IssueView {
    pub id: i64,
    pub title: Seq<char>,
    pub description: Option<Seq<char>>,
    pub status: Seq<char>,
}

/// The characters of an optional text.
pub open spec fn opt_text(o: Option<String>) -> Option<Seq<char>> {
    match o {
        Some(s) => Some(s@),
        None => None,
    }
}

/// A copy of an optional text.
pub fn copy_opt(o: &Option<String>) -> (r: Option<String>)
    ensures
        opt_text(r) == opt_text(*o),
{
    match o {
        Some(s) => Some(s.clone()),
        None => None,
    }
}

/// A copy of a list of texts.
pub fn copy_texts(v: &Vec<String>) -> (r: Vec<String>)
    ensures
        views(r@) == views(v@),
{
    let mut r: Vec<String> = Vec::new();
    let mut i: usize = 0;
    while i < v.len()
        invariant
            i <= v.len(),
            views(r@) == views(v@).take(i as int),
        decreases v.len() - i,
    {
        let x: String = v[i].clone();
        proof {
            views_push(r@, x);
        }
        r.push(x);
        assert(views(v@).take(i as int).push(x@) == views(v@).take(i + 1));
        i = i + 1;
    }
    assert(views(v@).take(i as int) == views(v@));
    r
}

impl View for Issue {
    type V = IssueView;

    open spec fn view(&self) -> IssueView {
        IssueView {
            id: self.id,
            title: self.title@,
            description: opt_text(self.description),
            status: self.status@,
        }
    }
}

/// A comment as the database returns it.
#[derive(Debug, Clone, PartialEq, Eq)]
pub struct Comment {
    pub content: String,
    pub kind: String,
}

/// The contents of [`Comment`].
#[verifier::ext_equal]
pub struct CommentView {
    pub content: Seq<char>,
    pub kind: Seq<char>,
}

impl View for Comment {
    type V = CommentView;

    open spec fn view(&self) -> CommentView {
        CommentView { content: self.content@, kind: self.kind@ }
    }
}

// --- operations ----------------------------------------------------------------

/// One change to one issue.
#[derive(Debug, Clone, PartialEq, Eq)]
pub enum Write {
    /// Adds a label, unless the issue has it.
    AddLabel { id: i64, label: String },
    /// Removes a label, if the issue has it.
    RemoveLabel { id: i64, label: String },
    /// Adds a comment.
    AddComment { id: i64, content: String, kind: String },
}

/// The contents of [`Write`].
#[verifier::ext_equal]
pub enum WriteView {
    AddLabel { id: i64, label: Seq<char> },
    RemoveLabel { id: i64, label: Seq<char> },
    AddComment { id: i64, content: Seq<char>, kind: Seq<char> },
}

impl View for Write {
    type V = WriteView;

    open spec fn view(&self) -> WriteView {
        match self {
            Write::AddLabel { id, label } => WriteView::AddLabel { id: *id, label: label@ },
            Write::RemoveLabel { id, label } => WriteView::RemoveLabel { id: *id, label: label@ },
            Write::AddComment { id, content, kind } => WriteView::AddComment {
                id: *id,
                content: content@,
                kind: kind@,
            },
        }
    }
}

/// One operation on the database.
#[derive(Debug, Clone, PartialEq, Eq)]
pub enum StoreOp {
    /// The issues that carry `label` and are closed or open, as `closed` says, the
    /// highest id first. Answered with `Issues`.
    List { closed: bool, label: String },
    /// The labels of each issue of `ids`, in that order. Answered with
    /// `LabelLists`.
    LabelsOfAll { ids: Vec<i64> },
    /// Creates an open issue. Answered with `Created`.
    Create { title: String, body: Option<String>, priority: String },
    /// The issue `id`. Answered with `Found`.
    Get { id: i64 },
    /// The labels of issue `id`, in alphabetical order. Answered with `Labels`.
    Labels { id: i64 },
    /// The comments of issue `id`, the oldest first. Answered with `Comments`.
    Comments { id: i64 },
    /// The UUID of issue `id`. Answered with `Uuid`.
    Uuid { id: i64 },
    /// The issue whose UUID is `uuid`. Answered with `Id`.
    IdOf { uuid: String },
    /// Closes issue `id`. Answered with `Done`.
    Close { id: i64 },
    /// Makes the changes one after another, stopping at the first that fails.
    /// Answered with `Done`.
    Apply { writes: Vec<Write> },
    /// Makes all of the changes or, when one fails, none. Answered with `Done`.
    Transact { writes: Vec<Write> },
    /// Opens a transaction, makes the changes and reads the labels of issue `id`.
    /// Answered with `Labels`. A failure undoes the changes.
    Begin { writes: Vec<Write>, id: i64 },
    /// Makes the changes and closes the transaction. Answered with `Done`. A
    /// failure undoes them and those of `Begin`.
    Commit { writes: Vec<Write> },
}

/// The contents of [`StoreOp`].
#[verifier::ext_equal]
pub enum StoreOpView {
    List { closed: bool, label: Seq<char> },
    LabelsOfAll { ids: Seq<i64> },
    Create { title: Seq<char>, body: Option<Seq<char>>, priority: Seq<char> },
    Get { id: i64 },
    Labels { id: i64 },
    Comments { id: i64 },
    Uuid { id: i64 },
    IdOf { uuid: Seq<char> },
    Close { id: i64 },
    Apply { writes: Seq<WriteView> },
    Transact { writes: Seq<WriteView> },
    Begin { writes: Seq<WriteView>, id: i64 },
    Commit { writes: Seq<WriteView> },
}

impl View for StoreOp {
    type V = StoreOpView;

    open spec fn view(&self) -> StoreOpView {
        match self {
            StoreOp::List { closed, label } => StoreOpView::List {
                closed: *closed,
                label: label@,
            },
            StoreOp::LabelsOfAll { ids } => StoreOpView::LabelsOfAll { ids: ids@ },
            StoreOp::Create { title, body, priority } => StoreOpView::Create {
                title: title@,
                body: opt_text(*body),
                priority: priority@,
            },
            StoreOp::Get { id } => StoreOpView::Get { id: *id },
            StoreOp::Labels { id } => StoreOpView::Labels { id: *id },
            StoreOp::Comments { id } => StoreOpView::Comments { id: *id },
            StoreOp::Uuid { id } => StoreOpView::Uuid { id: *id },
            StoreOp::IdOf { uuid } => StoreOpView::IdOf { uuid: uuid@ },
            StoreOp::Close { id } => StoreOpView::Close { id: *id },
            StoreOp::Apply { writes } => StoreOpView::Apply { writes: views(writes@) },
            StoreOp::Transact { writes } => StoreOpView::Transact { writes: views(writes@) },
            StoreOp::Begin { writes, id } => StoreOpView::Begin {
                writes: views(writes@),
                id: *id,
            },
            StoreOp::Commit { writes } => StoreOpView::Commit { writes: views(writes@) },
        }
    }
}

/// The outcome of an operation.
#[derive(Debug, Clone, PartialEq, Eq)]
pub enum StoreReply {
    Issues(Vec<Issue>),
    LabelLists(Vec<Vec<String>>),
    Created(i64),
    Found(Option<Issue>),
    Labels(Vec<String>),
    Comments(Vec<Comment>),
    Uuid(String),
    Id(i64),
    Done,
    /// The operation failed; the failure in words.
    Failed(String),
}

/// The contents of [`StoreReply`].
#[verifier::ext_equal]
pub enum StoreReplyView {
    Issues(Seq<IssueView>),
    LabelLists(Seq<Seq<Seq<char>>>),
    Created(i64),
    Found(Option<IssueView>),
    Labels(Seq<Seq<char>>),
    Comments(Seq<CommentView>),
    Uuid(Seq<char>),
    Id(i64),
    Done,
    Failed(Seq<char>),
}

/// The label lists of several issues.
pub open spec fn label_lists(v: Seq<Vec<String>>) -> Seq<Seq<Seq<char>>> {
    Seq::new(v.len(), |i: int| views(v[i]@))
}

impl View for StoreReply {
    type V = StoreReplyView;

    open spec fn view(&self) -> StoreReplyView {
        match self {
            StoreReply::Issues(v) => StoreReplyView::Issues(views(v@)),
            StoreReply::LabelLists(v) => StoreReplyView::LabelLists(label_lists(v@)),
            StoreReply::Created(id) => StoreReplyView::Created(*id),
            StoreReply::Found(Some(i)) => StoreReplyView::Found(Some(i@)),
            StoreReply::Found(None) => StoreReplyView::Found(None),
            StoreReply::Labels(v) => StoreReplyView::Labels(views(v@)),
            StoreReply::Comments(v) => StoreReplyView::Comments(views(v@)),
            StoreReply::Uuid(u) => StoreReplyView::Uuid(u@),
            StoreReply::Id(id) => StoreReplyView::Id(*id),
            StoreReply::Done => StoreReplyView::Done,
            StoreReply::Failed(e) => StoreReplyView::Failed(e@),
        }
    }
}

/// The result of a task that returns nothing, with the failure in characters.
pub open spec fn unit_view(r: Result<(), String>) -> Result<(), Seq<char>> {
    match r {
        Ok(_) => Ok(()),
        Err(e) => Err(e@),
    }
}

/// A copy of such a result.
pub(crate) fn copy_unit(r: &Result<(), String>) -> (c: Result<(), String>)
    ensures
        unit_view(c) == unit_view(*r),
{
    match r {
        Ok(_) => Ok(()),
        Err(e) => Err(e.clone()),
    }
}

// --- two databases -------------------------------------------------------------

/// An operation of a task that works on two databases: the one it was started for,
/// and one that it opens.
#[derive(Debug, PartialEq, Eq)]
pub enum RouteOp {
    /// Opens the database of another repository. Answered with `Done`.
    OpenThere(PathName),
    /// An operation on the task's own database.
    Here(StoreOp),
    /// An operation on the other repository's database.
    There(StoreOp),
}

/// The contents of [`RouteOp`].
#[verifier::ext_equal]
pub enum RouteOpView {
    OpenThere(Seq<u8>),
    Here(StoreOpView),
    There(StoreOpView),
}

impl View for RouteOp {
    type V = RouteOpView;

    open spec fn view(&self) -> RouteOpView {
        match self {
            RouteOp::OpenThere(p) => RouteOpView::OpenThere(p@),
            RouteOp::Here(op) => RouteOpView::Here(op@),
            RouteOp::There(op) => RouteOpView::There(op@),
        }
    }
}

/// What such a task asks for.
#[derive(Debug, PartialEq, Eq)]
pub enum RouteAction {
    /// An operation.
    Do(RouteOp),
    /// Nothing more: this is the result.
    Return(Result<(), String>),
}

/// The contents of [`RouteAction`].
#[verifier::ext_equal]
pub enum RouteActionView {
    Do(RouteOpView),
    Return(Result<(), Seq<char>>),
}

impl View for RouteAction {
    type V = RouteActionView;

    open spec fn view(&self) -> RouteActionView {
        match self {
            RouteAction::Do(op) => RouteActionView::Do(op@),
            RouteAction::Return(r) => RouteActionView::Return(unit_view(*r)),
        }
    }
}

} // verus!
