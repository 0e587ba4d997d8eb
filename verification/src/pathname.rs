//! File names and paths, as the byte strings that Unix takes them for.

use vstd::prelude::*;
use vstd::utf8::*;

use crate::encoding::{bytes_of, lossy, lossy_text};

verus! {

broadcast use vstd::seq_lib::group_seq_properties;

/// The byte `/`.
pub const SLASH: u8 = 47;

/// The byte `.`.
pub const DOT: u8 = 46;

/// A path: the bytes between which `/` separates components.
#[derive(Debug, Clone, PartialEq, Eq)]
pub struct PathName {
    bytes: Vec<u8>,
}

impl View for PathName {
    type V = Seq<u8>;

    closed spec fn view(&self) -> Seq<u8> {
        self.bytes@
    }
}

/// `base` with `child` below it. An absolute `child` stands alone; otherwise one
/// `/` separates the two, unless `base` is empty or ends with one.
pub open spec fn below(base: Seq<u8>, child: Seq<u8>) -> Seq<u8> {
    if child.len() > 0 && child[0] == SLASH {
        child
    } else if base.len() == 0 || base.last() == SLASH {
        base + child
    } else {
        base.push(SLASH) + child
    }
}

/// `base` with a name given as text below it.
pub open spec fn below_text(base: Seq<u8>, child: Seq<char>) -> Seq<u8> {
    below(base, encode_utf8(child))
}

/// True when the path starts at the file-system root.
pub open spec fn rooted(p: Seq<u8>) -> bool {
    p.len() > 0 && p[0] == SLASH
}

/// True when the path starts with a component `.`.
pub open spec fn starts_at_dot(p: Seq<u8>) -> bool {
    p.len() > 0 && p[0] == DOT && (p.len() == 1 || p[1] == SLASH)
}

/// The number of bytes in front of the components that can be taken off: the
/// leading `/` or the leading `.`, when there is one.
pub open spec fn anchor(p: Seq<u8>) -> nat {
    if rooted(p) || starts_at_dot(p) {
        1
    } else {
        0
    }
}

/// Where the last component of `p` begins: behind its last `/`, but not before
/// `start`.
pub open spec fn last_start(p: Seq<u8>, start: nat) -> nat
    decreases p.len(),
{
    if p.len() <= start {
        start
    } else if p.last() == SLASH {
        p.len()
    } else {
        last_start(p.drop_last(), start)
    }
}

/// `p` without its last component and the `/` in front of it.
pub open spec fn without_last(p: Seq<u8>, start: nat) -> Seq<u8> {
    let k = last_start(p, start);
    if k > start {
        p.take(k - 1)
    } else {
        p.take(start as int)
    }
}

/// True when the last component of `p` is empty or `.`, which name nothing.
pub open spec fn last_is_void(p: Seq<u8>, start: nat) -> bool {
    let c = p.skip(last_start(p, start) as int);
    c.len() == 0 || (c.len() == 1 && c[0] == DOT)
}

/// `p` without the void components at its end.
pub open spec fn tidy_end(p: Seq<u8>, start: nat) -> Seq<u8>
    decreases p.len(),
{
    if p.len() <= start || !last_is_void(p, start) {
        p
    } else if without_last(p, start).len() < p.len() {
        tidy_end(without_last(p, start), start)
    } else {
        p
    }
}

/// The directory that holds `p`: `p` without its final component. There is none
/// for the root and for the empty path.
pub open spec fn parent_of(p: Seq<u8>) -> Option<Seq<u8>> {
    let start = anchor(p);
    let q = tidy_end(p, start);
    if q.len() > start {
        Some(tidy_end(without_last(q, start), start))
    } else if starts_at_dot(p) {
        Some(Seq::empty())
    } else {
        None
    }
}

proof fn last_start_bounds(p: Seq<u8>, start: nat)
    ensures
        start <= last_start(p, start),
        p.len() > start ==> last_start(p, start) <= p.len(),
    decreases p.len(),
{
    if p.len() > start && p.last() != SLASH {
        last_start_bounds(p.drop_last(), start);
    }
}

proof fn tidy_end_shortens(p: Seq<u8>, start: nat)
    ensures
        tidy_end(p, start).len() <= p.len(),
    decreases p.len(),
{
    if p.len() > start && last_is_void(p, start) && without_last(p, start).len() < p.len() {
        tidy_end_shortens(without_last(p, start), start);
    }
}

/// A directory's path is shorter than the paths of what it holds.
pub proof fn parent_is_shorter(p: Seq<u8>)
    ensures
        parent_of(p) matches Some(q) ==> q.len() < p.len(),
{
    let start = anchor(p);
    let q = tidy_end(p, start);
    tidy_end_shortens(p, start);
    if q.len() > start {
        last_start_bounds(q, start);
        tidy_end_shortens(without_last(q, start), start);
    }
}

/// True when `name` can stand for one component: it is not empty, not `.`, and has
/// no `/` in it.
pub open spec fn is_component(name: Seq<u8>) -> bool {
    name.len() > 0 && !name.contains(SLASH) && name != seq![DOT]
}

/// Where the last component begins does not depend on what it is.
proof fn last_start_below(base: Seq<u8>, name: Seq<u8>, start: nat)
    requires
        start <= base.len(),
        !name.contains(SLASH),
    ensures
        last_start(base + name, start) == last_start(base, start),
    decreases name.len(),
{
    if name.len() == 0 {
        assert(base + name == base);
    } else {
        let front = name.drop_last();
        assert(name.contains(name.last()));
        assert(forall|x: u8| front.contains(x) ==> name.contains(x));
        assert((base + name).drop_last() == base + front);
        last_start_below(base, front, start);
    }
}

/// The directory that holds what stands below a path is that path, without the void
/// components at its end.
pub proof fn parent_of_below(base: Seq<u8>, name: Seq<u8>)
    requires
        is_component(name),
    ensures
        parent_of(below(base, name)) == Some(tidy_end(base, anchor(base))),
{
    let p = below(base, name);
    let start = anchor(base);
    assert(name.contains(name[0]));
    let front = if base.len() == 0 || base.last() == SLASH {
        base
    } else {
        base.push(SLASH)
    };
    assert(p == front + name);
    assert(name.len() > 1 ==> name.contains(name[1]));
    assert(name.len() == 1 ==> name == seq![name[0]]);
    assert(anchor(p) == start);
    last_start_below(front, name, start);
    let k = last_start(p, start);
    assert(front.len() > start ==> k == front.len());
    assert(p.skip(k as int) == name);
    assert(tidy_end(p, start) == p);
    if base.len() > 0 && base.last() != SLASH {
        assert(without_last(p, start) == base);
    } else if base.len() > start {
        assert(last_start(base, start) == base.len());
        assert(last_is_void(base, start));
        assert(without_last(p, start) == without_last(base, start));
    } else {
        assert(without_last(p, start) == base);
    }
}

/// Where the last component of the first `end` bytes begins.
fn find_last_start(p: &Vec<u8>, end: usize, start: usize) -> (k: usize)
    requires
        start < end <= p.len(),
    ensures
        k == last_start(p@.take(end as int), start as nat),
        start <= k <= end,
{
    let mut k: usize = end;
    while k > start && p[k - 1] != SLASH
        invariant
            start <= k <= end <= p.len(),
            last_start(p@.take(end as int), start as nat) == last_start(
                p@.take(k as int),
                start as nat,
            ),
        decreases k,
    {
        assert(p@.take(k as int).drop_last() == p@.take(k - 1));
        k = k - 1;
    }
    k
}

/// The length of the first `end` bytes without the void components at their end.
fn find_tidy_end(p: &Vec<u8>, end: usize, start: usize) -> (e: usize)
    requires
        end <= p.len(),
    ensures
        e <= end,
        p@.take(e as int) == tidy_end(p@.take(end as int), start as nat),
{
    let mut e: usize = end;
    while e > start
        invariant
            e <= end <= p.len(),
            tidy_end(p@.take(end as int), start as nat) == tidy_end(
                p@.take(e as int),
                start as nat,
            ),
        ensures
            e <= end,
            p@.take(e as int) == tidy_end(p@.take(end as int), start as nat),
        decreases e,
    {
        let k: usize = find_last_start(p, e, start);
        let ghost q = p@.take(e as int);
        assert(q.skip(k as int).len() == e - k);
        if !(k == e || (k + 1 == e && p[k] == DOT)) {
            assert(!last_is_void(q, start as nat));
            break;
        }
        assert(last_is_void(q, start as nat));
        let cut: usize = if k > start {
            k - 1
        } else {
            start
        };
        assert(without_last(q, start as nat) == p@.take(cut as int));
        e = cut;
    }
    e
}

impl PathName {
    /// The path made of `bytes`.
    pub fn from_bytes(bytes: Vec<u8>) -> (r: PathName)
        ensures
            r@ == bytes@,
    {
        PathName { bytes }
    }

    /// The path written as `text`.
    pub fn from_text(text: &str) -> (r: PathName)
        ensures
            r@ == encode_utf8(text@),
    {
        PathName { bytes: bytes_of(text) }
    }

    /// The bytes of the path.
    pub fn as_bytes(&self) -> (r: &Vec<u8>)
        ensures
            r@ == self@,
    {
        &self.bytes
    }

    /// A copy of the path.
    pub fn copy(&self) -> (r: PathName)
        ensures
            r@ == self@,
    {
        PathName { bytes: vstd::slice::slice_to_vec(self.bytes.as_slice()) }
    }

    /// The path in writing, with replacement characters for what is not UTF-8.
    pub fn display(&self) -> (r: String)
        ensures
            r@ == lossy(self@),
            valid_utf8(self@) ==> r@ == decode_utf8(self@),
    {
        lossy_text(&self.bytes)
    }

    /// This path with `child` below it.
    pub fn join(&self, child: &str) -> (r: PathName)
        ensures
            r@ == below_text(self@, child@),
    {
        self.join_bytes(bytes_of(child))
    }

    /// This path with the name made of `child` below it.
    pub fn join_bytes(&self, child: Vec<u8>) -> (r: PathName)
        ensures
            r@ == below(self@, child@),
    {
        let mut tail: Vec<u8> = child;
        if tail.len() > 0 && tail[0] == SLASH {
            return PathName { bytes: tail };
        }
        let mut out: PathName = self.copy();
        let n: usize = out.bytes.len();
        if n > 0 && out.bytes[n - 1] != SLASH {
            out.bytes.push(SLASH);
        }
        out.bytes.append(&mut tail);
        out
    }

    /// The directory that holds this path, when there is one.
    pub fn parent(&self) -> (r: Option<PathName>)
        ensures
            match r {
                Some(q) => parent_of(self@) == Some(q@),
                None => parent_of(self@) is None,
            },
    {
        let n: usize = self.bytes.len();
        let at_dot: bool = n > 0 && self.bytes[0] == DOT && (n == 1 || self.bytes[1] == SLASH);
        let start: usize = if (n > 0 && self.bytes[0] == SLASH) || at_dot {
            1
        } else {
            0
        };
        assert(self@.take(n as int) == self@);
        let e: usize = find_tidy_end(&self.bytes, n, start);
        if e > start {
            let k: usize = find_last_start(&self.bytes, e, start);
            let cut: usize = if k > start {
                k - 1
            } else {
                start
            };
            assert(without_last(self@.take(e as int), start as nat) == self@.take(cut as int));
            let f: usize = find_tidy_end(&self.bytes, cut, start);
            let mut out: PathName = self.copy();
            out.bytes.truncate(f);
            assert(out@ == self@.take(f as int));
            Some(out)
        } else if at_dot {
            Some(PathName { bytes: Vec::new() })
        } else {
            None
        }
    }
}

/// What stands below a path is the path, one slash and the name; the slash is that
/// of the path when it ends with one, and a name below nothing stands alone, as an
/// absolute name does below anything.
pub proof fn names_stand_behind_a_slash(base: Seq<u8>, name: Seq<u8>)
    ensures
        name.len() > 0 && name[0] == 47 ==> below(base, name) == name,
        !(name.len() > 0 && name[0] == 47) ==> {
            &&& base.len() == 0 ==> below(base, name) == name
            &&& base.len() > 0 && base[base.len() - 1] == 47 ==> below(base, name) == base + name
            &&& base.len() > 0 && base[base.len() - 1] != 47 ==> below(base, name) == base + seq![
                47u8,
            ] + name
        },
{
    if base.len() == 0 {
        assert(base + name =~= name);
    } else {
        assert(base.push(SLASH) =~= base + seq![47u8]);
    }
}

} // verus!
