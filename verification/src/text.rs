//! Character-level operations on strings.
//!
//! A string is modelled by the sequence of its characters. The operations here
//! are those that label, URL and file-name handling is made of: trimming white
//! space, cutting at separators and testing prefixes and suffixes.

use vstd::prelude::*;
use vstd::string::*;

verus! {

broadcast use vstd::seq_lib::group_seq_properties;

// --- white space ---------------------------------------------------------------

/// The characters with the Unicode property `White_Space`.
pub open spec fn white_space(c: char) -> bool {
    ||| '\u{9}' <= c <= '\u{d}'
    ||| c == ' '
    ||| c == '\u{85}'
    ||| c == '\u{a0}'
    ||| c == '\u{1680}'
    ||| '\u{2000}' <= c <= '\u{200a}'
    ||| c == '\u{2028}'
    ||| c == '\u{2029}'
    ||| c == '\u{202f}'
    ||| c == '\u{205f}'
    ||| c == '\u{3000}'
}

/// True when `c` has the Unicode property `White_Space`.
pub fn is_white_space(c: char) -> (b: bool)
    ensures
        b == white_space(c),
{
    ('\u{9}' <= c && c <= '\u{d}') || c == ' ' || c == '\u{85}' || c == '\u{a0}' || c == '\u{1680}'
        || ('\u{2000}' <= c && c <= '\u{200a}') || c == '\u{2028}' || c == '\u{2029}' || c
        == '\u{202f}' || c == '\u{205f}' || c == '\u{3000}'
}

/// `s` without the white space at its front.
pub open spec fn trimmed_start(s: Seq<char>) -> Seq<char>
    decreases s.len(),
{
    if s.len() > 0 && white_space(s[0]) {
        trimmed_start(s.drop_first())
    } else {
        s
    }
}

/// `s` without the white space at its back.
pub open spec fn trimmed_end(s: Seq<char>) -> Seq<char>
    decreases s.len(),
{
    if s.len() > 0 && white_space(s.last()) {
        trimmed_end(s.drop_last())
    } else {
        s
    }
}

/// `s` without the white space at either end.
pub open spec fn trimmed(s: Seq<char>) -> Seq<char> {
    trimmed_end(trimmed_start(s))
}

// --- cutting at separators -----------------------------------------------------

/// The index of the first character of `s` that is in `seps`; the length of `s`
/// when there is none.
pub open spec fn first_sep(s: Seq<char>, seps: Seq<char>) -> nat
    decreases s.len(),
{
    if s.len() == 0 || seps.contains(s[0]) {
        0
    } else {
        1 + first_sep(s.drop_first(), seps)
    }
}

/// The index just behind the last character of `s` that is in `seps`; zero when
/// there is none.
pub open spec fn last_sep_end(s: Seq<char>, seps: Seq<char>) -> nat
    decreases s.len(),
{
    if s.len() == 0 || seps.contains(s.last()) {
        s.len()
    } else {
        last_sep_end(s.drop_last(), seps)
    }
}

/// What precedes the first separator; all of `s` when there is none.
pub open spec fn before_first(s: Seq<char>, seps: Seq<char>) -> Seq<char> {
    s.take(first_sep(s, seps) as int)
}

/// What follows the first separator, when there is one.
pub open spec fn after_first(s: Seq<char>, seps: Seq<char>) -> Option<Seq<char>> {
    if first_sep(s, seps) < s.len() {
        Some(s.skip(first_sep(s, seps) as int + 1))
    } else {
        None
    }
}

/// What follows the last separator; all of `s` when there is none.
pub open spec fn after_last(s: Seq<char>, seps: Seq<char>) -> Seq<char> {
    s.skip(last_sep_end(s, seps) as int)
}

/// What follows the first occurrence of `marker` in `s`, when there is one.
pub open spec fn after_marker(s: Seq<char>, marker: Seq<char>) -> Option<Seq<char>>
    decreases s.len(),
{
    if marker.is_prefix_of(s) {
        Some(s.skip(marker.len() as int))
    } else if s.len() == 0 {
        None
    } else {
        after_marker(s.drop_first(), marker)
    }
}

/// `s` without the characters of `drop` at its back.
pub open spec fn trimmed_end_of(s: Seq<char>, drop: Seq<char>) -> Seq<char>
    decreases s.len(),
{
    if s.len() > 0 && drop.contains(s.last()) {
        trimmed_end_of(s.drop_last(), drop)
    } else {
        s
    }
}

/// What follows `prefix` when `s` starts with it.
pub open spec fn stripped_prefix(s: Seq<char>, prefix: Seq<char>) -> Option<Seq<char>> {
    if prefix.is_prefix_of(s) {
        Some(s.skip(prefix.len() as int))
    } else {
        None
    }
}

/// What precedes `suffix` when `s` ends with it.
pub open spec fn stripped_suffix(s: Seq<char>, suffix: Seq<char>) -> Option<Seq<char>> {
    if suffix.is_suffix_of(s) {
        Some(s.take(s.len() - suffix.len()))
    } else {
        None
    }
}

/// The index of the first white space of `s`; the length of `s` when there is
/// none.
pub open spec fn first_white(s: Seq<char>) -> nat
    decreases s.len(),
{
    if s.len() == 0 || white_space(s[0]) {
        0
    } else {
        1 + first_white(s.drop_first())
    }
}

/// What precedes the first white space; all of `s` when there is none.
pub open spec fn before_white(s: Seq<char>) -> Seq<char> {
    s.take(first_white(s) as int)
}

/// What follows the first white space; nothing when there is none.
pub open spec fn after_white(s: Seq<char>) -> Seq<char> {
    if first_white(s) < s.len() {
        s.skip(first_white(s) as int + 1)
    } else {
        Seq::empty()
    }
}

// --- executable counterparts ---------------------------------------------------

/// The characters of `s`, in order.
pub fn chars_of(s: &str) -> (cs: Vec<char>)
    ensures
        cs@ == s@,
{
    let mut cs: Vec<char> = Vec::new();
    for c in it: s.chars()
        invariant
            it.seq() == s@,
            cs@ == s@.take(it.index() as int),
    {
        cs.push(c);
    }
    cs
}

/// `s` without the white space at either end.
pub fn trim(s: &str) -> (r: &str)
    ensures
        r@ == trimmed(s@),
{
    let cs: Vec<char> = chars_of(s);
    let n: usize = cs.len();
    let mut a: usize = 0;
    while a < n && is_white_space(cs[a])
        invariant
            cs@ == s@,
            n == s@.len(),
            a <= n,
            trimmed_start(s@) == trimmed_start(s@.skip(a as int)),
        decreases n - a,
    {
        assert(s@.skip(a as int).drop_first() == s@.skip(a + 1));
        a = a + 1;
    }
    let mut b: usize = n;
    assert(s@.subrange(a as int, b as int) == s@.skip(a as int));
    while a < b && is_white_space(cs[b - 1])
        invariant
            cs@ == s@,
            n == s@.len(),
            a <= b <= n,
            trimmed(s@) == trimmed_end(s@.subrange(a as int, b as int)),
        decreases b - a,
    {
        assert(s@.subrange(a as int, b as int).drop_last() == s@.subrange(a as int, b - 1));
        b = b - 1;
    }
    s.substring_char(a, b)
}

/// `s` without the characters of `drop` at its back.
pub fn trim_end_of<'a>(s: &'a str, drop: &str) -> (r: &'a str)
    ensures
        r@ == trimmed_end_of(s@, drop@),
{
    let cs: Vec<char> = chars_of(s);
    let mut b: usize = cs.len();
    assert(s@.take(b as int) == s@);
    while 0 < b && is_one_of(cs[b - 1], drop)
        invariant
            cs@ == s@,
            b <= s@.len(),
            trimmed_end_of(s@, drop@) == trimmed_end_of(s@.take(b as int), drop@),
        decreases b,
    {
        assert(s@.take(b as int).drop_last() == s@.take(b - 1));
        b = b - 1;
    }
    assert(s@.subrange(0, b as int) == s@.take(b as int));
    s.substring_char(0, b)
}

/// True when `c` occurs in `set`.
pub fn is_one_of(c: char, set: &str) -> (b: bool)
    ensures
        b == set@.contains(c),
{
    let cs: Vec<char> = chars_of(set);
    let mut i: usize = 0;
    while i < cs.len()
        invariant
            cs@ == set@,
            i <= cs.len(),
            forall|j: int| 0 <= j < i ==> set@[j] != c,
        decreases cs.len() - i,
    {
        if cs[i] == c {
            return true;
        }
        i = i + 1;
    }
    false
}

/// What precedes the first character of `s` that is in `seps`; all of `s` when
/// there is none.
pub fn cut_before_first<'a>(s: &'a str, seps: &str) -> (r: &'a str)
    ensures
        r@ == before_first(s@, seps@),
{
    let i: usize = find_first(s, seps);
    assert(s@.subrange(0, i as int) == s@.take(i as int));
    s.substring_char(0, i)
}

/// What follows the first character of `s` that is in `seps`, when there is one.
pub fn cut_after_first<'a>(s: &'a str, seps: &str) -> (r: Option<&'a str>)
    ensures
        match r {
            Some(t) => after_first(s@, seps@) == Some(t@),
            None => after_first(s@, seps@) is None,
        },
{
    let i: usize = find_first(s, seps);
    let n: usize = s.unicode_len();
    if i < n {
        assert(s@.subrange(i + 1, n as int) == s@.skip(i + 1));
        Some(s.substring_char(i + 1, n))
    } else {
        None
    }
}

/// The index of the first character of `s` that is in `seps`; the number of
/// characters of `s` when there is none.
fn find_first(s: &str, seps: &str) -> (i: usize)
    ensures
        i == first_sep(s@, seps@),
        i <= s@.len(),
{
    let cs: Vec<char> = chars_of(s);
    let mut i: usize = 0;
    assert(s@.skip(0) == s@);
    while i < cs.len() && !is_one_of(cs[i], seps)
        invariant
            cs@ == s@,
            i <= cs.len(),
            first_sep(s@, seps@) == i + first_sep(s@.skip(i as int), seps@),
        decreases cs.len() - i,
    {
        assert(s@.skip(i as int).drop_first() == s@.skip(i + 1));
        i = i + 1;
    }
    i
}

/// What follows the last character of `s` that is in `seps`; all of `s` when
/// there is none.
pub fn cut_after_last<'a>(s: &'a str, seps: &str) -> (r: &'a str)
    ensures
        r@ == after_last(s@, seps@),
{
    let cs: Vec<char> = chars_of(s);
    let n: usize = cs.len();
    let mut i: usize = n;
    assert(s@.take(n as int) == s@);
    while 0 < i && !is_one_of(cs[i - 1], seps)
        invariant
            cs@ == s@,
            n == cs.len(),
            i <= n,
            last_sep_end(s@, seps@) == last_sep_end(s@.take(i as int), seps@),
        decreases i,
    {
        assert(s@.take(i as int).drop_last() == s@.take(i - 1));
        i = i - 1;
    }
    assert(s@.subrange(i as int, n as int) == s@.skip(i as int));
    s.substring_char(i, n)
}

/// True when the characters of `cs` from `at` on begin with those of `p`.
fn occurs_at(cs: &Vec<char>, at: usize, p: &Vec<char>) -> (b: bool)
    requires
        at <= cs.len(),
    ensures
        b == p@.is_prefix_of(cs@.skip(at as int)),
{
    if p.len() > cs.len() - at {
        return false;
    }
    let mut i: usize = 0;
    while i < p.len()
        invariant
            i <= p.len() <= cs.len() - at,
            forall|j: int| 0 <= j < i ==> p@[j] == #[trigger] cs@.skip(at as int)[j],
        decreases p.len() - i,
    {
        if cs[at + i] != p[i] {
            assert(p@[i as int] != cs@.skip(at as int)[i as int]);
            return false;
        }
        i = i + 1;
    }
    assert(p@ =~= cs@.skip(at as int).subrange(0, p@.len() as int));
    true
}

/// What follows the first occurrence of `marker` in `s`, when there is one.
pub fn cut_after_marker<'a>(s: &'a str, marker: &str) -> (r: Option<&'a str>)
    ensures
        match r {
            Some(t) => after_marker(s@, marker@) == Some(t@),
            None => after_marker(s@, marker@) is None,
        },
{
    let cs: Vec<char> = chars_of(s);
    let m: Vec<char> = chars_of(marker);
    let n: usize = cs.len();
    let mut i: usize = 0;
    assert(s@.skip(0) == s@);
    loop
        invariant
            cs@ == s@,
            m@ == marker@,
            n == cs.len(),
            i <= n,
            after_marker(s@, marker@) == after_marker(s@.skip(i as int), marker@),
        decreases n - i,
    {
        if occurs_at(&cs, i, &m) {
            assert(s@.skip(i as int).skip(m@.len() as int) == s@.subrange(
                i + m@.len(),
                n as int,
            ));
            return Some(s.substring_char(i + m.len(), n));
        }
        if i == n {
            return None;
        }
        assert(s@.skip(i as int).drop_first() == s@.skip(i + 1));
        i = i + 1;
    }
}

/// Splits `s` at its first white space: what precedes it and what follows it.
/// Without white space the first part is all of `s` and the second is empty.
pub fn split_white(s: &str) -> (r: (&str, &str))
    ensures
        r.0@ == before_white(s@),
        r.1@ == after_white(s@),
{
    let cs: Vec<char> = chars_of(s);
    let n: usize = cs.len();
    let mut i: usize = 0;
    assert(s@.skip(0) == s@);
    while i < n && !is_white_space(cs[i])
        invariant
            cs@ == s@,
            n == cs.len(),
            i <= n,
            first_white(s@) == i + first_white(s@.skip(i as int)),
        decreases n - i,
    {
        assert(s@.skip(i as int).drop_first() == s@.skip(i + 1));
        i = i + 1;
    }
    assert(s@.subrange(0, i as int) == s@.take(i as int));
    if i < n {
        assert(s@.subrange(i + 1, n as int) == s@.skip(i + 1));
        (s.substring_char(0, i), s.substring_char(i + 1, n))
    } else {
        assert(s@.subrange(n as int, n as int) == Seq::<char>::empty());
        (s.substring_char(0, i), s.substring_char(n, n))
    }
}

/// True when the two strings hold the same characters.
pub fn same_text(a: &str, b: &str) -> (r: bool)
    ensures
        r == (a@ == b@),
{
    let x: Vec<char> = chars_of(a);
    let y: Vec<char> = chars_of(b);
    if x.len() != y.len() {
        return false;
    }
    assert(a@.skip(0) == a@);
    let r: bool = occurs_at(&x, 0, &y);
    assert(a@.subrange(0, b@.len() as int) == a@);
    r
}

/// What follows `prefix` when `s` starts with it.
pub fn strip_prefix<'a>(s: &'a str, prefix: &str) -> (r: Option<&'a str>)
    ensures
        match r {
            Some(t) => stripped_prefix(s@, prefix@) == Some(t@),
            None => stripped_prefix(s@, prefix@) is None,
        },
{
    let cs: Vec<char> = chars_of(s);
    let p: Vec<char> = chars_of(prefix);
    assert(s@.skip(0) == s@);
    if occurs_at(&cs, 0, &p) {
        assert(s@.subrange(p@.len() as int, cs@.len() as int) == s@.skip(p@.len() as int));
        Some(s.substring_char(p.len(), cs.len()))
    } else {
        None
    }
}

/// What precedes `suffix` when `s` ends with it.
pub fn strip_suffix<'a>(s: &'a str, suffix: &str) -> (r: Option<&'a str>)
    ensures
        match r {
            Some(t) => stripped_suffix(s@, suffix@) == Some(t@),
            None => stripped_suffix(s@, suffix@) is None,
        },
{
    let cs: Vec<char> = chars_of(s);
    let p: Vec<char> = chars_of(suffix);
    if p.len() <= cs.len() && occurs_at(&cs, cs.len() - p.len(), &p) {
        let k: usize = cs.len() - p.len();
        assert(s@.skip(k as int).subrange(0, p@.len() as int) == s@.skip(k as int));
        assert(s@.subrange(0, k as int) == s@.take(k as int));
        Some(s.substring_char(0, k))
    } else {
        if p.len() <= cs.len() {
            let ghost k = cs.len() - p.len();
            assert(s@.skip(k).subrange(0, p@.len() as int) == s@.skip(k));
        }
        None
    }
}

} // verus!
