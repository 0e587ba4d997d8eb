//! What trimming and cutting do to a text that is put together from known parts.

use vstd::prelude::*;

use crate::text::{
    after_first, after_last, after_marker, after_white, before_first, before_white, first_sep,
    first_white, last_sep_end, stripped_prefix, stripped_suffix, trimmed, trimmed_end,
    trimmed_end_of, trimmed_start, white_space,
};

verus! {

broadcast use vstd::seq_lib::group_seq_properties;

/// True when every character of `s` is white space.
pub open spec fn blank(s: Seq<char>) -> bool {
    forall|i: int| 0 <= i < s.len() ==> white_space(#[trigger] s[i])
}

/// True when `s` has no white space at either end.
pub open spec fn snug(s: Seq<char>) -> bool {
    s.len() > 0 ==> !white_space(s[0]) && !white_space(s[s.len() - 1])
}

/// True when no character of `s` is one of `seps`.
pub open spec fn free_of(s: Seq<char>, seps: Seq<char>) -> bool {
    forall|i: int| 0 <= i < s.len() ==> !seps.contains(#[trigger] s[i])
}

/// True when `marker` stands in `s` at index `i`.
pub open spec fn stands_at(s: Seq<char>, marker: Seq<char>, i: int) -> bool {
    0 <= i && i + marker.len() <= s.len() && s.subrange(i, i + marker.len()) == marker
}

/// White space is what Unicode lists as such: twenty-five characters.
pub proof fn white_space_is(c: char)
    ensures
        white_space(c) <==> seq![
            0x9u32,
            0xa,
            0xb,
            0xc,
            0xd,
            0x20,
            0x85,
            0xa0,
            0x1680,
            0x2000,
            0x2001,
            0x2002,
            0x2003,
            0x2004,
            0x2005,
            0x2006,
            0x2007,
            0x2008,
            0x2009,
            0x200a,
            0x2028,
            0x2029,
            0x202f,
            0x205f,
            0x3000,
        ].contains(c as u32),
{
    let all = seq![
        0x9u32, 0xa, 0xb, 0xc, 0xd, 0x20, 0x85, 0xa0, 0x1680, 0x2000, 0x2001, 0x2002, 0x2003,
        0x2004, 0x2005, 0x2006, 0x2007, 0x2008, 0x2009, 0x200a, 0x2028, 0x2029, 0x202f, 0x205f,
        0x3000,
    ];
    let n = c as u32;
    assert(all.len() == 25);
    assert(all[0] == 0x9 && all[1] == 0xa && all[2] == 0xb && all[3] == 0xc && all[4] == 0xd);
    assert(all[5] == 0x20 && all[6] == 0x85 && all[7] == 0xa0 && all[8] == 0x1680);
    assert(all[9] == 0x2000 && all[10] == 0x2001 && all[11] == 0x2002 && all[12] == 0x2003);
    assert(all[13] == 0x2004 && all[14] == 0x2005 && all[15] == 0x2006 && all[16] == 0x2007);
    assert(all[17] == 0x2008 && all[18] == 0x2009 && all[19] == 0x200a && all[20] == 0x2028);
    assert(all[21] == 0x2029 && all[22] == 0x202f && all[23] == 0x205f && all[24] == 0x3000);
    if all.contains(n) {
        let i = all.index_of(n);
        assert(all[i] == n);
    }
}

proof fn trimmed_start_of(lead: Seq<char>, t: Seq<char>)
    requires
        blank(lead),
        t.len() > 0 ==> !white_space(t[0]),
    ensures
        trimmed_start(lead + t) == t,
    decreases lead.len(),
{
    let s = lead + t;
    if lead.len() > 0 {
        assert(s[0] == lead[0]);
        let rest = lead.drop_first();
        assert(s.drop_first() =~= rest + t);
        assert forall|i: int| 0 <= i < rest.len() implies white_space(#[trigger] rest[i]) by {
            assert(rest[i] == lead[i + 1]);
        }
        trimmed_start_of(rest, t);
    } else {
        assert(s =~= t);
    }
}

proof fn trimmed_end_is(t: Seq<char>, trail: Seq<char>)
    requires
        blank(trail),
        t.len() > 0 ==> !white_space(t[t.len() - 1]),
    ensures
        trimmed_end(t + trail) == t,
    decreases trail.len(),
{
    let s = t + trail;
    if trail.len() > 0 {
        assert(s.last() == trail[trail.len() - 1]);
        let rest = trail.drop_last();
        assert(s.drop_last() =~= t + rest);
        assert forall|i: int| 0 <= i < rest.len() implies white_space(#[trigger] rest[i]) by {
            assert(rest[i] == trail[i]);
        }
        trimmed_end_is(t, rest);
    } else {
        assert(s =~= t);
    }
}

/// Trimming takes the white space off both ends and nothing else.
pub proof fn trimming_takes_the_ends(lead: Seq<char>, t: Seq<char>, trail: Seq<char>)
    requires
        blank(lead),
        snug(t),
        blank(trail),
    ensures
        trimmed(lead + t + trail) == t,
{
    if t.len() == 0 {
        let all = lead + trail;
        assert(lead + t + trail =~= all + Seq::<char>::empty());
        assert forall|i: int| 0 <= i < all.len() implies white_space(#[trigger] all[i]) by {
            if i < lead.len() {
                assert(all[i] == lead[i]);
            } else {
                assert(all[i] == trail[i - lead.len()]);
            }
        }
        trimmed_start_of(all, Seq::empty());
    } else {
        let back = t + trail;
        assert(lead + t + trail =~= lead + back);
        assert(back[0] == t[0]);
        trimmed_start_of(lead, back);
        trimmed_end_is(t, trail);
    }
}

proof fn first_sep_of(front: Seq<char>, rest: Seq<char>, seps: Seq<char>)
    requires
        free_of(front, seps),
        rest.len() > 0 ==> seps.contains(rest[0]),
    ensures
        first_sep(front + rest, seps) == front.len(),
    decreases front.len(),
{
    let s = front + rest;
    if front.len() > 0 {
        assert(s[0] == front[0]);
        let tail = front.drop_first();
        assert(s.drop_first() =~= tail + rest);
        assert forall|i: int| 0 <= i < tail.len() implies !seps.contains(#[trigger] tail[i]) by {
            assert(tail[i] == front[i + 1]);
        }
        first_sep_of(tail, rest, seps);
    } else {
        assert(s =~= rest);
    }
}

/// A text is cut at its first separator: what stands in front of it is free of
/// separators, and what stands behind it is all the rest.
pub proof fn cutting_at_the_first(
    front: Seq<char>,
    sep: char,
    rest: Seq<char>,
    seps: Seq<char>,
)
    requires
        free_of(front, seps),
        seps.contains(sep),
    ensures
        before_first(front.push(sep) + rest, seps) == front,
        after_first(front.push(sep) + rest, seps) == Some(rest),
{
    let s = front.push(sep) + rest;
    let back = seq![sep] + rest;
    assert(s =~= front + back);
    first_sep_of(front, back, seps);
    assert(s.take(front.len() as int) =~= front);
    assert(s.skip(front.len() as int + 1) =~= rest);
}

/// A text without a separator is not cut.
pub proof fn without_a_separator(s: Seq<char>, seps: Seq<char>)
    requires
        free_of(s, seps),
    ensures
        before_first(s, seps) == s,
        after_first(s, seps) is None,
        after_last(s, seps) == s,
{
    assert(s + Seq::<char>::empty() =~= s);
    first_sep_of(s, Seq::empty(), seps);
    assert(s.take(s.len() as int) =~= s);
    assert(Seq::<char>::empty() + s =~= s);
    last_sep_end_of(Seq::empty(), s, seps);
    assert(s.skip(0) =~= s);
}

proof fn last_sep_end_of(front: Seq<char>, rest: Seq<char>, seps: Seq<char>)
    requires
        front.len() > 0 ==> seps.contains(front[front.len() - 1]),
        free_of(rest, seps),
    ensures
        last_sep_end(front + rest, seps) == front.len(),
    decreases rest.len(),
{
    let s = front + rest;
    if rest.len() > 0 {
        assert(s.last() == rest[rest.len() - 1]);
        let init = rest.drop_last();
        assert(s.drop_last() =~= front + init);
        assert forall|i: int| 0 <= i < init.len() implies !seps.contains(#[trigger] init[i]) by {
            assert(init[i] == rest[i]);
        }
        last_sep_end_of(front, init, seps);
    } else {
        assert(s =~= front);
    }
}

/// What follows the last separator is free of separators and stands at the end.
pub proof fn cutting_at_the_last(front: Seq<char>, rest: Seq<char>, seps: Seq<char>)
    requires
        front.len() > 0 ==> seps.contains(front[front.len() - 1]),
        free_of(rest, seps),
    ensures
        after_last(front + rest, seps) == rest,
{
    last_sep_end_of(front, rest, seps);
    assert((front + rest).skip(front.len() as int) =~= rest);
}

/// What follows a marker is all that stands behind its first occurrence.
pub proof fn cutting_at_a_marker(s: Seq<char>, marker: Seq<char>, at: int)
    requires
        stands_at(s, marker, at),
        forall|i: int| 0 <= i < at ==> !#[trigger] stands_at(s, marker, i),
    ensures
        after_marker(s, marker) == Some(s.skip(at + marker.len())),
    decreases s.len(),
{
    if at == 0 {
        assert(marker.is_prefix_of(s));
    } else {
        assert(!stands_at(s, marker, 0));
        if marker.is_prefix_of(s) {
            assert(s.subrange(0, marker.len() as int) =~= marker);
        }
        let t = s.drop_first();
        assert(t.subrange(at - 1, at - 1 + marker.len()) =~= s.subrange(at, at + marker.len()));
        assert forall|i: int| 0 <= i < at - 1 implies !#[trigger] stands_at(t, marker, i) by {
            assert(!stands_at(s, marker, i + 1));
            if stands_at(t, marker, i) {
                assert(s.subrange(i + 1, i + 1 + marker.len()) =~= t.subrange(
                    i,
                    i + marker.len(),
                ));
            }
        }
        cutting_at_a_marker(t, marker, at - 1);
        assert(t.skip(at - 1 + marker.len()) =~= s.skip(at + marker.len()));
    }
}

/// A text in which the marker does not stand has nothing behind it.
pub proof fn without_a_marker(s: Seq<char>, marker: Seq<char>)
    requires
        marker.len() > 0,
        forall|i: int| !#[trigger] stands_at(s, marker, i),
    ensures
        after_marker(s, marker) is None,
    decreases s.len(),
{
    assert(!stands_at(s, marker, 0));
    if marker.is_prefix_of(s) {
        assert(s.subrange(0, marker.len() as int) =~= marker);
    }
    if s.len() > 0 {
        let t = s.drop_first();
        assert forall|i: int| !#[trigger] stands_at(t, marker, i) by {
            assert(!stands_at(s, marker, i + 1));
            if stands_at(t, marker, i) {
                assert(s.subrange(i + 1, i + 1 + marker.len()) =~= t.subrange(
                    i,
                    i + marker.len(),
                ));
            }
        }
        without_a_marker(t, marker);
    }
}

/// The characters of a set are taken off the end, and only there.
pub proof fn trimming_a_set(t: Seq<char>, tail: Seq<char>, drop: Seq<char>)
    requires
        t.len() > 0 ==> !drop.contains(t[t.len() - 1]),
        forall|i: int| 0 <= i < tail.len() ==> drop.contains(#[trigger] tail[i]),
    ensures
        trimmed_end_of(t + tail, drop) == t,
    decreases tail.len(),
{
    let s = t + tail;
    if tail.len() > 0 {
        assert(s.last() == tail[tail.len() - 1]);
        let init = tail.drop_last();
        assert(s.drop_last() =~= t + init);
        assert forall|i: int| 0 <= i < init.len() implies drop.contains(#[trigger] init[i]) by {
            assert(init[i] == tail[i]);
        }
        trimming_a_set(t, init, drop);
    } else {
        assert(s =~= t);
    }
}

/// A prefix or a suffix is taken off where it stands, and only there.
pub proof fn stripping_takes_one_end(t: Seq<char>, end: Seq<char>, s: Seq<char>)
    ensures
        stripped_prefix(end + t, end) == Some(t),
        stripped_suffix(t + end, end) == Some(t),
        stripped_prefix(s, end) matches Some(rest) ==> s == end + rest,
        stripped_suffix(s, end) matches Some(rest) ==> s == rest + end,
{
    let p = end + t;
    assert(p.subrange(0, end.len() as int) =~= end);
    assert(end.is_prefix_of(p));
    assert(p.skip(end.len() as int) =~= t);
    let q = t + end;
    assert(q.subrange(t.len() as int, q.len() as int) =~= end);
    assert(end.is_suffix_of(q));
    assert(q.take(t.len() as int) =~= t);
    if end.is_prefix_of(s) {
        assert(s =~= end + s.skip(end.len() as int));
    }
    if end.is_suffix_of(s) {
        assert(s =~= s.take(s.len() - end.len()) + end);
    }
}

proof fn first_white_of(word: Seq<char>, rest: Seq<char>)
    requires
        forall|i: int| 0 <= i < word.len() ==> !white_space(#[trigger] word[i]),
        rest.len() > 0 ==> white_space(rest[0]),
    ensures
        first_white(word + rest) == word.len(),
    decreases word.len(),
{
    let s = word + rest;
    if word.len() > 0 {
        assert(s[0] == word[0]);
        let tail = word.drop_first();
        assert(s.drop_first() =~= tail + rest);
        assert forall|i: int| 0 <= i < tail.len() implies !white_space(#[trigger] tail[i]) by {
            assert(tail[i] == word[i + 1]);
        }
        first_white_of(tail, rest);
    } else {
        assert(s =~= rest);
    }
}

/// A text is split at its first white space.
pub proof fn splitting_at_white_space(word: Seq<char>, rest: Seq<char>)
    requires
        forall|i: int| 0 <= i < word.len() ==> !white_space(#[trigger] word[i]),
        rest.len() > 0 ==> white_space(rest[0]),
    ensures
        before_white(word + rest) == word,
        after_white(word + rest) == (if rest.len() > 0 {
            rest.drop_first()
        } else {
            rest
        }),
{
    let s = word + rest;
    first_white_of(word, rest);
    assert(s.take(word.len() as int) =~= word);
    if rest.len() > 0 {
        assert(s.skip(word.len() as int + 1) =~= rest.drop_first());
    } else {
        assert(rest =~= Seq::<char>::empty());
    }
}

} // verus!
