//! The alphabetical order of strings: characters are compared from the front, by
//! code point, and a string comes after its own proper prefixes.

use vstd::prelude::*;
use vstd::seq_lib::*;

use crate::compose::views;
use crate::text::chars_of;

verus! {

broadcast use vstd::seq_lib::group_seq_properties;

/// True when `a` comes strictly before `b`.
pub open spec fn precedes(a: Seq<char>, b: Seq<char>) -> bool
    decreases a.len(),
{
    if b.len() == 0 {
        false
    } else if a.len() == 0 {
        true
    } else if a[0] != b[0] {
        a[0] < b[0]
    } else {
        precedes(a.drop_first(), b.drop_first())
    }
}

/// True when no element comes before one that stands in front of it.
pub open spec fn sorted(s: Seq<Seq<char>>) -> bool {
    forall|i: int, j: int| 0 <= i < j < s.len() ==> !precedes(#[trigger] s[j], #[trigger] s[i])
}

/// True when each element comes strictly before all that follow it.
pub open spec fn strictly_sorted(s: Seq<Seq<char>>) -> bool {
    forall|i: int, j: int| 0 <= i < j < s.len() ==> precedes(#[trigger] s[i], #[trigger] s[j])
}

/// `s` with `x` put in front of the first element that `x` comes before.
pub open spec fn inserted(s: Seq<Seq<char>>, x: Seq<char>) -> Seq<Seq<char>>
    decreases s.len(),
{
    if s.len() == 0 {
        seq![x]
    } else if precedes(x, s[0]) {
        seq![x] + s
    } else {
        seq![s[0]] + inserted(s.drop_first(), x)
    }
}

/// What an insertion leaves: the elements that were there and the new one.
pub proof fn inserted_contains(s: Seq<Seq<char>>, x: Seq<char>, y: Seq<char>)
    ensures
        inserted(s, x).contains(y) <==> (y == x || s.contains(y)),
    decreases s.len(),
{
    let r = inserted(s, x);
    if s.len() == 0 {
        assert(r[0] == x);
    } else if precedes(x, s[0]) {
        assert(r[0] == x);
        if s.contains(y) {
            let i = s.index_of(y);
            assert(r[i + 1] == y);
        }
        if r.contains(y) && y != x {
            let i = r.index_of(y);
            assert(s[i - 1] == y);
        }
    } else {
        let t = inserted(s.drop_first(), x);
        inserted_contains(s.drop_first(), x, y);
        assert(r[0] == s[0]);
        if t.contains(y) {
            let i = t.index_of(y);
            assert(r[i + 1] == y);
        }
        if r.contains(y) && y != s[0] {
            let i = r.index_of(y);
            assert(t[i - 1] == y);
        }
        if s.contains(y) && y != s[0] {
            let i = s.index_of(y);
            assert(s.drop_first()[i - 1] == y);
        }
        if s.drop_first().contains(y) {
            let i = s.drop_first().index_of(y);
            assert(s[i + 1] == y);
        }
    }
}

/// Nothing comes before itself.
pub proof fn precedes_irreflexive(a: Seq<char>)
    ensures
        !precedes(a, a),
    decreases a.len(),
{
    if a.len() > 0 {
        precedes_irreflexive(a.drop_first());
    }
}

/// The order is transitive.
pub proof fn precedes_transitive(a: Seq<char>, b: Seq<char>, c: Seq<char>)
    requires
        precedes(a, b),
        precedes(b, c),
    ensures
        precedes(a, c),
    decreases a.len(),
{
    if a.len() > 0 && a[0] == b[0] && b[0] == c[0] {
        precedes_transitive(a.drop_first(), b.drop_first(), c.drop_first());
    }
}

/// Of two different strings one comes before the other.
pub proof fn precedes_total(a: Seq<char>, b: Seq<char>)
    ensures
        a == b || precedes(a, b) || precedes(b, a),
    decreases a.len(),
{
    if a.len() > 0 && b.len() > 0 && a[0] == b[0] {
        precedes_total(a.drop_first(), b.drop_first());
        if a.drop_first() == b.drop_first() {
            assert(a == seq![a[0]] + a.drop_first());
            assert(b == seq![b[0]] + b.drop_first());
        }
    } else if a.len() == 0 && b.len() == 0 {
        assert(a == b);
    }
}

/// True when `a` comes strictly before `b`.
pub fn comes_before(a: &str, b: &str) -> (r: bool)
    ensures
        r == precedes(a@, b@),
{
    let x: Vec<char> = chars_of(a);
    let y: Vec<char> = chars_of(b);
    let mut i: usize = 0;
    assert(a@.skip(0) == a@);
    assert(b@.skip(0) == b@);
    while i < x.len() && i < y.len() && x[i] == y[i]
        invariant
            x@ == a@,
            y@ == b@,
            i <= x.len(),
            i <= y.len(),
            precedes(a@, b@) == precedes(a@.skip(i as int), b@.skip(i as int)),
        decreases x.len() - i,
    {
        assert(a@.skip(i as int).drop_first() == a@.skip(i + 1));
        assert(b@.skip(i as int).drop_first() == b@.skip(i + 1));
        i = i + 1;
    }
    if i == y.len() {
        false
    } else if i == x.len() {
        true
    } else {
        x[i] < y[i]
    }
}

/// The strings of `names` in alphabetical order, each as often as it occurs in
/// `names`.
pub fn sort_names(names: Vec<String>) -> (r: Vec<String>)
    ensures
        sorted(views(r@)),
        views(r@).to_multiset() == views(names@).to_multiset(),
{
    broadcast use group_to_multiset_ensures;

    let mut out: Vec<String> = Vec::new();
    let mut k: usize = 0;
    assert(views(out@) == views(names@.take(0)));
    while k < names.len()
        invariant
            k <= names.len(),
            sorted(views(out@)),
            views(out@).to_multiset() == views(names@.take(k as int)).to_multiset(),
        decreases names.len() - k,
    {
        let x: String = names[k].clone();
        let ghost was = views(out@);
        let mut i: usize = out.len();
        while i > 0 && comes_before(x.as_str(), out[i - 1].as_str())
            invariant
                i <= out.len(),
                was == views(out@),
                forall|j: int| i <= j < out.len() ==> precedes(x@, #[trigger] was[j]),
            decreases i,
        {
            i = i - 1;
        }
        let ghost xs = x@;
        out.insert(i, x);
        proof {
            let now = views(out@);
            assert(now == was.insert(i as int, xs));
            assert forall|p: int, q: int| 0 <= p < q < now.len() implies !precedes(
                #[trigger] now[q],
                #[trigger] now[p],
            ) by {
                if q == i {
                    // the element in front is at most the last one not after x
                    if precedes(xs, was[p]) && p < i - 1 {
                        precedes_total(was[i - 1], was[p]);
                        if precedes(was[p], was[i - 1]) {
                            precedes_transitive(xs, was[p], was[i - 1]);
                        }
                    }
                } else if p == i {
                    assert(precedes(xs, was[q - 1]));
                    if precedes(was[q - 1], xs) {
                        precedes_transitive(xs, was[q - 1], xs);
                        precedes_irreflexive(xs);
                    }
                } else {
                    let a = if p < i { p } else { p - 1 };
                    let b = if q < i { q } else { q - 1 };
                    assert(!precedes(was[b], was[a]));
                }
            }
            assert(now.remove(i as int) == was);
            assert(now.to_multiset() == was.to_multiset().insert(xs)) by {
                assert(now.remove(i as int).to_multiset() == now.to_multiset().remove(now[i as int]));
                assert(now.contains(now[i as int]));
            }
            assert(views(names@.take(k + 1)) == views(names@.take(k as int)).push(xs));
        }
        k = k + 1;
    }
    assert(names@.take(k as int) == names@);
    out
}

/// The order is that of a dictionary: the first character in which two texts differ
/// decides, by its code point, and a text comes before what it is the beginning of.
pub proof fn the_first_difference_decides(
    common: Seq<char>,
    a: char,
    x: Seq<char>,
    b: char,
    y: Seq<char>,
)
    ensures
        a != b ==> (precedes(common + (seq![a] + x), common + (seq![b] + y)) <==> (a as u32)
            < (b as u32)),
        precedes(common, common + (seq![a] + x)),
        !precedes(common + x, common),
    decreases common.len(),
{
    let p = common + (seq![a] + x);
    let q = common + (seq![b] + y);
    let e = common + x;
    if common.len() > 0 {
        let rest = common.drop_first();
        assert(p.drop_first() =~= rest + (seq![a] + x));
        assert(q.drop_first() =~= rest + (seq![b] + y));
        assert(e.drop_first() =~= rest + x);
        assert(p[0] == common[0] && q[0] == common[0] && e[0] == common[0]);
        the_first_difference_decides(rest, a, x, b, y);
    } else {
        assert(p =~= seq![a] + x);
        assert(q =~= seq![b] + y);
        assert(p[0] == a && q[0] == b);
    }
}

} // verus!
