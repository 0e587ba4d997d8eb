//! The label conventions by which a request is tracked on both sides.

use vstd::prelude::*;

use crate::compose::{cat2, views};
use crate::text::{same_text, strip_prefix, stripped_prefix};

verus! {

broadcast use vstd::seq_lib::group_seq_properties;

/// Marks an issue as a cross-project request.
pub const REQUEST: &'static str = "type:request";

/// Marks an issue that came from another repository.
pub const INBOUND: &'static str = "xb:inbound";

/// Marks an issue that goes to another repository.
pub const OUTBOUND: &'static str = "xb:outbound";

/// Not yet picked up, or not yet answered.
pub const STATUS_OPEN: &'static str = "xb-status:open";

/// Delivered, and waiting for the answer.
pub const STATUS_PENDING: &'static str = "xb-status:pending";

/// Answered in the target repository.
pub const STATUS_ANSWERED: &'static str = "xb-status:answered";

/// The answer has come back.
pub const STATUS_RESOLVED: &'static str = "xb-status:resolved";

/// Could not be routed.
pub const STATUS_ERROR: &'static str = "xb-status:error";

/// Precedes every status. An issue has at most one.
pub const STATUS_PREFIX: &'static str = "xb-status:";

/// Precedes the slug of the repository that a request goes to.
pub const TARGET_PREFIX: &'static str = "xb-target:";

/// Precedes the slug of the repository that a request came from.
pub const SOURCE_PREFIX: &'static str = "xb-source:";

/// Precedes the UUID that links the two issues of a request.
pub const REF_PREFIX: &'static str = "xb-ref:";

/// The label `xb-ref:<value>`.
pub open spec fn ref_text(value: Seq<char>) -> Seq<char> {
    REF_PREFIX@ + value
}

/// The label `xb-source:<slug>`.
pub open spec fn source_text(slug: Seq<char>) -> Seq<char> {
    SOURCE_PREFIX@ + slug
}

/// True when the label is a status.
pub open spec fn is_status(label: Seq<char>) -> bool {
    STATUS_PREFIX@.is_prefix_of(label)
}

/// True when the label stays with the issue that is made for a request. The
/// request's status does not, for the new issue has one of its own; nor does the
/// name of the target, for the new issue names its source, and no issue names both.
pub open spec fn travels(label: Seq<char>) -> bool {
    !is_status(label) && !TARGET_PREFIX@.is_prefix_of(label)
}

/// What follows `prefix` in the first label that starts with it.
pub open spec fn first_prefixed(labels: Seq<Seq<char>>, prefix: Seq<char>) -> Option<Seq<char>>
    decreases labels.len(),
{
    if labels.len() == 0 {
        None
    } else {
        match stripped_prefix(labels[0], prefix) {
            Some(value) => Some(value),
            None => first_prefixed(labels.drop_first(), prefix),
        }
    }
}

/// Makes the label `xb-ref:<value>`.
pub fn ref_label(value: &str) -> (r: String)
    ensures
        r@ == ref_text(value@),
{
    cat2(REF_PREFIX, value)
}

/// Is the label a status?
pub fn names_status(label: &str) -> (r: bool)
    ensures
        r == is_status(label@),
{
    strip_prefix(label, STATUS_PREFIX).is_some()
}

/// Does the label stay with the issue that is made for a request?
pub fn goes_along(label: &str) -> (r: bool)
    ensures
        r == travels(label@),
{
    !names_status(label) && strip_prefix(label, TARGET_PREFIX).is_none()
}

/// Finds what follows `prefix` in the first label that starts with it.
pub fn find_prefixed<'a>(labels: &'a [String], prefix: &str) -> (r: Option<&'a str>)
    ensures
        match r {
            Some(value) => first_prefixed(views(labels@), prefix@) == Some(value@),
            None => first_prefixed(views(labels@), prefix@) is None,
        },
{
    let mut i: usize = 0;
    let ghost all = views(labels@);
    assert(all.skip(0) == all);
    while i < labels.len()
        invariant
            i <= labels.len(),
            all == views(labels@),
            first_prefixed(all, prefix@) == first_prefixed(all.skip(i as int), prefix@),
        decreases labels.len() - i,
    {
        assert(all.skip(i as int).drop_first() == all.skip(i + 1));
        assert(all.skip(i as int)[0] == labels@[i as int]@);
        if let Some(value) = strip_prefix(labels[i].as_str(), prefix) {
            return Some(value);
        }
        i = i + 1;
    }
    None
}

/// True when one of the labels is `marker`.
pub fn has(labels: &[String], marker: &str) -> (r: bool)
    ensures
        r == views(labels@).contains(marker@),
{
    let mut i: usize = 0;
    while i < labels.len()
        invariant
            i <= labels.len(),
            forall|j: int| 0 <= j < i ==> views(labels@)[j] != marker@,
        decreases labels.len() - i,
    {
        if same_text(labels[i].as_str(), marker) {
            assert(views(labels@)[i as int] == marker@);
            return true;
        }
        i = i + 1;
    }
    false
}

/// Of several labels with the prefix the first one counts, and what follows the
/// prefix is its value; without such a label there is none.
pub proof fn the_first_label_counts(
    front: Seq<Seq<char>>,
    value: Seq<char>,
    back: Seq<Seq<char>>,
    prefix: Seq<char>,
)
    requires
        forall|i: int| 0 <= i < front.len() ==> !prefix.is_prefix_of(#[trigger] front[i]),
    ensures
        first_prefixed(front.push(prefix + value) + back, prefix) == Some(value),
        first_prefixed(front, prefix) is None,
    decreases front.len(),
{
    let all = front.push(prefix + value) + back;
    if front.len() == 0 {
        assert(all[0] == prefix + value);
        assert((prefix + value).subrange(0, prefix.len() as int) =~= prefix);
        assert((prefix + value).skip(prefix.len() as int) =~= value);
    } else {
        let rest = front.drop_first();
        assert(all[0] == front[0]);
        assert(all.drop_first() =~= rest.push(prefix + value) + back);
        assert forall|i: int| 0 <= i < rest.len() implies !prefix.is_prefix_of(
            #[trigger] rest[i],
        ) by {
            assert(rest[i] == front[i + 1]);
        }
        the_first_label_counts(rest, value, back, prefix);
    }
}

/// A label stays behind exactly when it is a status or names a target.
pub proof fn what_stays_behind(rest: Seq<char>, label: Seq<char>)
    ensures
        !travels("xb-status:"@ + rest),
        !travels("xb-target:"@ + rest),
        !travels(label) ==> (exists|value: Seq<char>|
            label == #[trigger] ("xb-status:"@ + value)) || (exists|value: Seq<char>|
            label == #[trigger] ("xb-target:"@ + value)),
{
    let a = "xb-status:"@ + rest;
    let b = "xb-target:"@ + rest;
    assert(a.subrange(0, "xb-status:"@.len() as int) =~= "xb-status:"@);
    assert(b.subrange(0, "xb-target:"@.len() as int) =~= "xb-target:"@);
    if is_status(label) {
        let value = label.skip("xb-status:"@.len() as int);
        assert(label =~= "xb-status:"@ + value);
    } else if !travels(label) {
        let value = label.skip("xb-target:"@.len() as int);
        assert(label =~= "xb-target:"@ + value);
    }
}

} // verus!
