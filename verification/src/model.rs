//! A model of an issue database in which every operation succeeds.
//!
//! It is mathematics only: the laws of the tasks are stated over it.

use vstd::prelude::*;

use crate::order::{inserted, inserted_contains};
use crate::store::{CommentView, IssueView, StoreOpView, StoreReplyView, WriteView};

verus! {

broadcast use vstd::seq_lib::group_seq_properties;

/// An issue with all that belongs to it.
#[verifier::ext_equal]
pub struct Record {
    pub title: Seq<char>,
    pub body: Option<Seq<char>>,
    pub priority: Seq<char>,
    pub closed: bool,
    pub uuid: Seq<char>,
    /// The labels, in alphabetical order.
    pub labels: Seq<Seq<char>>,
    /// The comments, the oldest first.
    pub comments: Seq<CommentView>,
}

/// A database: its issues by id, the id that the next issue gets, and the UUID
/// that each future issue will get.
#[verifier::ext_equal]
pub struct Store {
    pub issues: Map<i64, Record>,
    pub next: i64,
    pub minted: spec_fn(i64) -> Seq<char>,
}

impl Store {
    /// Ids are positive and used once; UUIDs are unique, those to come included.
    pub open spec fn wf(self) -> bool {
        &&& 1 <= self.next < i64::MAX
        &&& forall|id: i64| #[trigger] self.issues.contains_key(id) ==> 1 <= id < self.next
        &&& forall|a: i64, b: i64|
            self.issues.contains_key(a) && self.issues.contains_key(b) && a != b
                ==> #[trigger] self.issues[a].uuid != #[trigger] self.issues[b].uuid
        &&& forall|a: i64, b: i64|
            self.issues.contains_key(a) && self.next <= b ==> #[trigger] self.issues[a].uuid
                != #[trigger] (self.minted)(b)
        &&& forall|a: i64, b: i64|
            self.next <= a < b ==> #[trigger] (self.minted)(a) != #[trigger] (self.minted)(b)
    }

    /// True when issue `id` exists, is closed or open as `closed` says, and
    /// carries `label`.
    pub open spec fn carries(self, id: i64, closed: bool, label: Seq<char>) -> bool {
        self.issues.contains_key(id) && self.issues[id].closed == closed
            && self.issues[id].labels.contains(label)
    }

    /// What a query returns of issue `id`.
    pub open spec fn issue(self, id: i64) -> IssueView {
        let r = self.issues[id];
        IssueView {
            id,
            title: r.title,
            description: r.body,
            status: if r.closed {
                "closed"@
            } else {
                "open"@
            },
        }
    }

    /// The issues below `bound` that carry `label`, the highest id first.
    pub open spec fn listed(self, closed: bool, label: Seq<char>, bound: int) -> Seq<IssueView>
        decreases bound,
    {
        if bound <= 1 {
            Seq::empty()
        } else {
            let id = (bound - 1) as i64;
            if self.carries(id, closed, label) {
                seq![self.issue(id)] + self.listed(closed, label, bound - 1)
            } else {
                self.listed(closed, label, bound - 1)
            }
        }
    }

    /// The id below `bound` whose issue has the given UUID.
    pub open spec fn id_of(self, uuid: Seq<char>, bound: int) -> Option<i64>
        decreases bound,
    {
        if bound <= 1 {
            None
        } else {
            let id = (bound - 1) as i64;
            if self.issues.contains_key(id) && self.issues[id].uuid == uuid {
                Some(id)
            } else {
                self.id_of(uuid, bound - 1)
            }
        }
    }

    /// The database after one change.
    pub open spec fn written(self, w: WriteView) -> Store {
        match w {
            WriteView::AddLabel { id, label } => self.relabelled(
                id,
                with_label(self.issues[id].labels, label),
            ),
            WriteView::RemoveLabel { id, label } => self.relabelled(
                id,
                without_label(self.issues[id].labels, label),
            ),
            WriteView::AddComment { id, content, kind } => if self.issues.contains_key(id) {
                let r = self.issues[id];
                Store {
                    issues: self.issues.insert(
                        id,
                        Record { comments: r.comments.push(CommentView { content, kind }), ..r },
                    ),
                    ..self
                }
            } else {
                self
            },
        }
    }

    /// The database with other labels on issue `id`.
    pub open spec fn relabelled(self, id: i64, labels: Seq<Seq<char>>) -> Store {
        if self.issues.contains_key(id) {
            Store {
                issues: self.issues.insert(id, Record { labels, ..self.issues[id] }),
                ..self
            }
        } else {
            self
        }
    }

    /// The database after several changes, one after another.
    pub open spec fn all_written(self, ws: Seq<WriteView>) -> Store
        decreases ws.len(),
    {
        if ws.len() == 0 {
            self
        } else {
            self.all_written(ws.drop_last()).written(ws.last())
        }
    }

    /// The database with issue `id` closed.
    pub open spec fn closed(self, id: i64) -> Store {
        if self.issues.contains_key(id) {
            Store {
                issues: self.issues.insert(id, Record { closed: true, ..self.issues[id] }),
                ..self
            }
        } else {
            self
        }
    }

    /// The database with a new issue.
    pub open spec fn created(
        self,
        title: Seq<char>,
        body: Option<Seq<char>>,
        priority: Seq<char>,
    ) -> Store {
        let r = Record {
            title,
            body,
            priority,
            closed: false,
            uuid: (self.minted)(self.next),
            labels: Seq::empty(),
            comments: Seq::empty(),
        };
        Store {
            issues: self.issues.insert(self.next, r),
            next: (self.next + 1) as i64,
            minted: self.minted,
        }
    }

    /// The labels of issue `id`.
    pub open spec fn labels(self, id: i64) -> Seq<Seq<char>> {
        if self.issues.contains_key(id) {
            self.issues[id].labels
        } else {
            Seq::empty()
        }
    }

    /// The comments of issue `id`.
    pub open spec fn comments(self, id: i64) -> Seq<CommentView> {
        if self.issues.contains_key(id) {
            self.issues[id].comments
        } else {
            Seq::empty()
        }
    }

    /// Carries out an operation: the database it leaves and the reply.
    pub open spec fn perform(self, op: StoreOpView) -> (Store, StoreReplyView) {
        match op {
            StoreOpView::List { closed, label } => (
                self,
                StoreReplyView::Issues(self.listed(closed, label, self.next as int)),
            ),
            StoreOpView::LabelsOfAll { ids } => (
                self,
                StoreReplyView::LabelLists(Seq::new(ids.len(), |i: int| self.labels(ids[i]))),
            ),
            StoreOpView::Create { title, body, priority } => (
                self.created(title, body, priority),
                StoreReplyView::Created(self.next),
            ),
            StoreOpView::Get { id } => (
                self,
                StoreReplyView::Found(
                    if self.issues.contains_key(id) {
                        Some(self.issue(id))
                    } else {
                        None
                    },
                ),
            ),
            StoreOpView::Labels { id } => (self, StoreReplyView::Labels(self.labels(id))),
            StoreOpView::Comments { id } => (self, StoreReplyView::Comments(self.comments(id))),
            StoreOpView::Uuid { id } => (
                self,
                if self.issues.contains_key(id) {
                    StoreReplyView::Uuid(self.issues[id].uuid)
                } else {
                    StoreReplyView::Failed("no such issue"@)
                },
            ),
            StoreOpView::IdOf { uuid } => (
                self,
                match self.id_of(uuid, self.next as int) {
                    Some(id) => StoreReplyView::Id(id),
                    None => StoreReplyView::Failed("no such issue"@),
                },
            ),
            StoreOpView::Close { id } => (self.closed(id), StoreReplyView::Done),
            StoreOpView::Apply { writes } => (self.all_written(writes), StoreReplyView::Done),
            StoreOpView::Transact { writes } => (self.all_written(writes), StoreReplyView::Done),
            StoreOpView::Begin { writes, id } => {
                let s = self.all_written(writes);
                (s, StoreReplyView::Labels(s.labels(id)))
            },
            StoreOpView::Commit { writes } => (self.all_written(writes), StoreReplyView::Done),
        }
    }
}

/// The labels with `label` among them.
pub open spec fn with_label(labels: Seq<Seq<char>>, label: Seq<char>) -> Seq<Seq<char>> {
    if labels.contains(label) {
        labels
    } else {
        inserted(labels, label)
    }
}

/// The labels without `label`.
pub open spec fn without_label(labels: Seq<Seq<char>>, label: Seq<char>) -> Seq<Seq<char>>
    decreases labels.len(),
{
    if labels.len() == 0 {
        labels
    } else if labels.last() == label {
        without_label(labels.drop_last(), label)
    } else {
        without_label(labels.drop_last(), label).push(labels.last())
    }
}

/// The labels with each of `more` among them.
pub open spec fn with_labels(labels: Seq<Seq<char>>, more: Seq<Seq<char>>) -> Seq<Seq<char>>
    decreases more.len(),
{
    if more.len() == 0 {
        labels
    } else {
        with_label(with_labels(labels, more.drop_last()), more.last())
    }
}

// --- facts about the model -----------------------------------------------------

/// What an added label leaves.
pub broadcast proof fn with_label_contains(labels: Seq<Seq<char>>, l: Seq<char>, x: Seq<char>)
    ensures
        #[trigger] with_label(labels, l).contains(x) <==> (x == l || labels.contains(x)),
{
    inserted_contains(labels, l, x);
}

/// What a removed label leaves.
pub broadcast proof fn without_label_contains(labels: Seq<Seq<char>>, l: Seq<char>, x: Seq<char>)
    ensures
        #[trigger] without_label(labels, l).contains(x) <==> (x != l && labels.contains(x)),
    decreases labels.len(),
{
    if labels.len() > 0 {
        let front = labels.drop_last();
        let last = labels.last();
        without_label_contains(front, l, x);
        assert(labels == front.push(last));
        let kept = without_label(front, l);
        assert(labels.contains(x) <==> (front.contains(x) || x == last)) by {
            if front.contains(x) {
                assert(labels[front.index_of(x)] == x);
            }
            assert(labels[labels.len() - 1] == last);
        }
        assert(kept.push(last).contains(x) <==> (kept.contains(x) || x == last)) by {
            if kept.contains(x) {
                assert(kept.push(last)[kept.index_of(x)] == x);
            }
            assert(kept.push(last)[kept.len() as int] == last);
        }
    }
}

/// What several added labels leave.
pub proof fn with_labels_contains(labels: Seq<Seq<char>>, more: Seq<Seq<char>>, x: Seq<char>)
    ensures
        with_labels(labels, more).contains(x) <==> (labels.contains(x) || more.contains(x)),
    decreases more.len(),
{
    if more.len() > 0 {
        let front = more.drop_last();
        with_labels_contains(labels, front, x);
        with_label_contains(with_labels(labels, front), more.last(), x);
        assert(more.contains(x) <==> (front.contains(x) || x == more.last())) by {
            if front.contains(x) {
                assert(more[front.index_of(x)] == x);
            }
            assert(more[more.len() - 1] == more.last());
            if more.contains(x) && x != more.last() {
                assert(front[more.index_of(x)] == x);
            }
        }
    }
}

/// Removing an absent label changes nothing.
pub proof fn without_absent(labels: Seq<Seq<char>>, l: Seq<char>)
    requires
        !labels.contains(l),
    ensures
        without_label(labels, l) == labels,
    decreases labels.len(),
{
    if labels.len() > 0 {
        assert(labels[labels.len() - 1] == labels.last());
        assert(forall|i: int| 0 <= i < labels.len() - 1 ==> labels.drop_last()[i] == labels[i]);
        without_absent(labels.drop_last(), l);
        assert(labels.drop_last().push(labels.last()) == labels);
    }
}

impl Store {
    /// The first listed issue carries the label, and every listed one exists.
    pub proof fn listed_carry(self, closed: bool, label: Seq<char>, bound: int)
        requires
            bound <= i64::MAX,
        ensures
            forall|i: int|
                0 <= i < self.listed(closed, label, bound).len() ==> {
                    let v = #[trigger] self.listed(closed, label, bound)[i];
                    self.carries(v.id, closed, label) && 1 <= v.id < bound && v == self.issue(v.id)
                },
        decreases bound,
    {
        if bound > 1 {
            self.listed_carry(closed, label, bound - 1);
            let id = (bound - 1) as i64;
            let rest = self.listed(closed, label, bound - 1);
            if self.carries(id, closed, label) {
                let all = self.listed(closed, label, bound);
                assert forall|i: int| 0 <= i < all.len() implies {
                    let v = #[trigger] all[i];
                    self.carries(v.id, closed, label) && 1 <= v.id < bound && v == self.issue(v.id)
                } by {
                    if i > 0 {
                        assert(all[i] == rest[i - 1]);
                    }
                }
            }
        }
    }

    /// Nothing is listed exactly when no issue below the bound carries the label.
    pub proof fn listed_empty(self, closed: bool, label: Seq<char>, bound: int)
        requires
            bound <= i64::MAX,
        ensures
            self.listed(closed, label, bound).len() == 0 <==> forall|id: i64|
                1 <= id < bound ==> !#[trigger] self.carries(id, closed, label),
        decreases bound,
    {
        if bound > 1 {
            self.listed_empty(closed, label, bound - 1);
            let top = (bound - 1) as i64;
            if self.carries(top, closed, label) {
                assert(!(forall|id: i64| 1 <= id < bound ==> !self.carries(id, closed, label)));
            }
        }
    }

    /// The id that has a given UUID, when there is one.
    pub proof fn id_of_found(self, uuid: Seq<char>, bound: int)
        requires
            bound <= i64::MAX,
        ensures
            match self.id_of(uuid, bound) {
                Some(id) => 1 <= id < bound && self.issues.contains_key(id)
                    && self.issues[id].uuid == uuid,
                None => forall|id: i64|
                    1 <= id < bound && #[trigger] self.issues.contains_key(id)
                        ==> self.issues[id].uuid != uuid,
            },
        decreases bound,
    {
        if bound > 1 {
            self.id_of_found(uuid, bound - 1);
        }
    }

    /// Changes keep the ids, the UUIDs and the closing of every issue.
    pub proof fn written_frame(self, ws: Seq<WriteView>)
        ensures
            self.all_written(ws).next == self.next,
            self.all_written(ws).minted == self.minted,
            self.all_written(ws).issues.dom() == self.issues.dom(),
            forall|id: i64| #[trigger]
                self.issues.contains_key(id) ==> {
                    let a = self.issues[id];
                    let b = self.all_written(ws).issues[id];
                    a.uuid == b.uuid && a.closed == b.closed && a.title == b.title && a.body
                        == b.body && a.priority == b.priority
                },
            self.wf() ==> self.all_written(ws).wf(),
        decreases ws.len(),
    {
        if ws.len() > 0 {
            self.written_frame(ws.drop_last());
            let s = self.all_written(ws.drop_last());
            let t = s.written(ws.last());
            assert(t.issues.dom() =~= s.issues.dom());
        }
    }
}

} // verus!
