//! Values as bytes: the compact binary format that the messages travel in.
//!
//! Numbers are variable-length: seven bits to a byte, the lowest first, with the
//! top bit set on every byte but the last. A signed number is folded onto the
//! natural numbers first. A text is the number of its UTF-8 bytes and then those
//! bytes; a list is the number of its elements and then the elements; a structure
//! is its fields one after another, and a variant is its number and its fields.

use vstd::prelude::*;
use vstd::string::*;
use vstd::utf8::*;

use postcard::Error as PostcardFault;

use crate::compose::views;

verus! {

broadcast use vstd::seq_lib::group_seq_properties;

/// The error of the `postcard` crate.
#[verifier::external_type_specification]
#[verifier::external_body]
pub struct ExPostcardError(PostcardFault);

// --- the format ----------------------------------------------------------------

/// The variable-length form of `n`.
pub open spec fn varint(n: nat) -> Seq<u8>
    decreases n,
{
    if n < 128 {
        seq![n as u8]
    } else {
        seq![(n % 128 + 128) as u8] + varint(n / 128)
    }
}

/// Reads a variable-length number of at most `width` bytes, the last of which is
/// at most `last` when all of them are used: the number and the bytes behind it.
pub open spec fn varint_taken(bytes: Seq<u8>, width: nat, last: nat) -> Option<(nat, Seq<u8>)>
    decreases width,
{
    if width == 0 || bytes.len() == 0 {
        None
    } else if bytes[0] < 128 {
        if width == 1 && bytes[0] > last {
            None
        } else {
            Some((bytes[0] as nat, bytes.skip(1)))
        }
    } else {
        match varint_taken(bytes.skip(1), (width - 1) as nat, last) {
            Some((n, rest)) => Some(((bytes[0] - 128 + 128 * n) as nat, rest)),
            None => None,
        }
    }
}

/// The number of values that `width` bytes can hold, the last of them at most
/// `last`.
pub open spec fn varint_room(width: nat, last: nat) -> nat
    decreases width,
{
    if width == 0 {
        0
    } else if width == 1 {
        last + 1
    } else {
        128 * varint_room((width - 1) as nat, last)
    }
}

/// `n` folded onto the natural numbers: 0, -1, 1, -2, 2 and so on.
pub open spec fn folded(n: int) -> nat {
    if n >= 0 {
        (2 * n) as nat
    } else {
        (-2 * n - 1) as nat
    }
}

/// The number that is folded onto `z`.
pub open spec fn unfolded(z: nat) -> int {
    if z % 2 == 0 {
        (z / 2) as int
    } else {
        -((z + 1) / 2)
    }
}

/// The form of a text.
pub open spec fn text_wire(s: Seq<char>) -> Seq<u8> {
    varint(encode_utf8(s).len()) + encode_utf8(s)
}

/// Reads a text: its characters and the bytes behind it.
pub open spec fn text_taken(bytes: Seq<u8>) -> Option<(Seq<char>, Seq<u8>)> {
    match length_taken(bytes) {
        Some((n, rest)) => if n <= rest.len() && valid_utf8(rest.take(n as int)) {
            Some((decode_utf8(rest.take(n as int)), rest.skip(n as int)))
        } else {
            None
        },
        None => None,
    }
}

/// Reads the length of a text or a list: as many bytes as a machine word takes.
pub open spec fn length_taken(bytes: Seq<u8>) -> Option<(nat, Seq<u8>)> {
    if usize::BITS == 64 {
        varint_taken(bytes, 10, 1)
    } else {
        varint_taken(bytes, 5, 15)
    }
}

/// Reads a number of at most ten bytes that a machine word can hold.
pub open spec fn count_taken(bytes: Seq<u8>) -> Option<(nat, Seq<u8>)> {
    match varint_taken(bytes, 10, 1) {
        Some((n, rest)) => if n <= usize::MAX {
            Some((n, rest))
        } else {
            None
        },
        None => None,
    }
}

// --- the calls into postcard ---------------------------------------------------

/// `postcard::to_stdvec` on a `u32`: always succeeds, with the variable-length
/// form of the number.
#[verifier::external_body]
pub(crate) fn u32_bytes(n: u32) -> (r: Result<Vec<u8>, postcard::Error>)
    ensures
        r is Ok,
        r->Ok_0@ == varint(n as nat),
{
    postcard::to_stdvec(&n)
}

/// `postcard::to_stdvec` on a `usize`: always succeeds, with the variable-length
/// form of the number.
#[verifier::external_body]
pub(crate) fn usize_bytes(n: usize) -> (r: Result<Vec<u8>, postcard::Error>)
    ensures
        r is Ok,
        r->Ok_0@ == varint(n as nat),
{
    postcard::to_stdvec(&n)
}

/// `postcard::to_stdvec` on an `i64`: always succeeds, with the variable-length
/// form of the folded number.
#[verifier::external_body]
pub(crate) fn i64_bytes(n: i64) -> (r: Result<Vec<u8>, postcard::Error>)
    ensures
        r is Ok,
        r->Ok_0@ == varint(folded(n as int)),
{
    postcard::to_stdvec(&n)
}

/// `postcard::to_stdvec` on a `str`: always succeeds, with the number of UTF-8
/// bytes and then those bytes.
#[verifier::external_body]
pub(crate) fn str_bytes(s: &str) -> (r: Result<Vec<u8>, postcard::Error>)
    ensures
        r is Ok,
        r->Ok_0@ == text_wire(s@),
{
    postcard::to_stdvec(s)
}

/// `postcard::take_from_bytes` for a `u32`: the number at the front of `bytes`,
/// of at most five bytes, and what follows it; an error when there is none.
#[verifier::external_body]
pub(crate) fn u32_from(bytes: &[u8]) -> (r: Result<(u32, &[u8]), postcard::Error>)
    ensures
        match r {
            Ok((n, rest)) => varint_taken(bytes@, 5, 15) == Some((n as nat, rest@)),
            Err(_) => varint_taken(bytes@, 5, 15) is None,
        },
{
    postcard::take_from_bytes(bytes)
}

/// `postcard::take_from_bytes` for a `usize`: the number at the front of `bytes`,
/// of at most ten bytes, and what follows it; an error when there is none or when
/// it is larger than a `usize`.
#[verifier::external_body]
pub(crate) fn usize_from(bytes: &[u8]) -> (r: Result<(usize, &[u8]), postcard::Error>)
    ensures
        match r {
            Ok((n, rest)) => count_taken(bytes@) == Some((n as nat, rest@)),
            Err(_) => count_taken(bytes@) is None,
        },
{
    postcard::take_from_bytes(bytes)
}

/// `postcard::take_from_bytes` for an `i64`: the number that is folded onto the
/// one at the front of `bytes`, of at most ten bytes, and what follows it; an
/// error when there is none.
#[verifier::external_body]
pub(crate) fn i64_from(bytes: &[u8]) -> (r: Result<(i64, &[u8]), postcard::Error>)
    ensures
        match r {
            Ok((n, rest)) => varint_taken(bytes@, 10, 1) matches Some((z, tail)) && n == unfolded(z)
                && rest@ == tail,
            Err(_) => varint_taken(bytes@, 10, 1) is None,
        },
{
    postcard::take_from_bytes(bytes)
}

/// `postcard::take_from_bytes` for a `u8`: the first byte and what follows it; an
/// error when there is none.
#[verifier::external_body]
pub(crate) fn u8_from(bytes: &[u8]) -> (r: Result<(u8, &[u8]), postcard::Error>)
    ensures
        match r {
            Ok((b, rest)) => bytes@.len() > 0 && b == bytes@[0] && rest@ == bytes@.skip(1),
            Err(_) => bytes@.len() == 0,
        },
{
    postcard::take_from_bytes(bytes)
}

/// `postcard::take_from_bytes` for a `String`: the text at the front of `bytes`
/// and what follows it; an error when the length is malformed, when fewer bytes
/// follow than it says, or when they are not UTF-8.
#[verifier::external_body]
pub(crate) fn string_from(bytes: &[u8]) -> (r: Result<(String, &[u8]), postcard::Error>)
    ensures
        match r {
            Ok((s, rest)) => text_taken(bytes@) == Some((s@, rest@)),
            Err(_) => text_taken(bytes@) is None,
        },
{
    postcard::take_from_bytes(bytes)
}

/// `serde::de::Error::custom` for `postcard::Error`: the error for a variant
/// number that no variant has. Which error that is is left unsaid.
#[verifier::external_body]
pub(crate) fn no_such_variant() -> (r: postcard::Error) {
    serde::de::Error::custom("unknown variant")
}

// --- reading back what was written ---------------------------------------------

/// A number that fits is read back from its variable-length form.
pub proof fn varint_read_back(n: nat, tail: Seq<u8>, width: nat, last: nat)
    requires
        last < 128,
        n < varint_room(width, last),
    ensures
        varint_taken(varint(n) + tail, width, last) == Some((n, tail)),
    decreases width,
{
    let bytes = varint(n) + tail;
    if n < 128 {
        assert(bytes[0] == n as u8);
        assert(bytes.skip(1) == tail);
    } else {
        assert(bytes[0] == (n % 128 + 128) as u8);
        assert(bytes.skip(1) == varint(n / 128) + tail);
        varint_read_back(n / 128, tail, (width - 1) as nat, last);
    }
}

proof fn room_of_words()
    ensures
        varint_room(5, 15) == 0x1_0000_0000,
        varint_room(10, 1) == 0x1_0000_0000_0000_0000,
{
    reveal_with_fuel(varint_room, 11);
}

/// A folded number is unfolded to itself.
pub proof fn unfolded_folded(n: int)
    ensures
        unfolded(folded(n)) == n,
{
}

proof fn text_read_back(s: Seq<char>, tail: Seq<u8>)
    requires
        encode_utf8(s).len() <= usize::MAX,
    ensures
        text_taken(text_wire(s) + tail) == Some((s, tail)),
{
    let e = encode_utf8(s);
    room_of_words();
    assert(text_wire(s) + tail == varint(e.len()) + (e + tail));
    if usize::BITS == 64 {
        varint_read_back(e.len(), e + tail, 10, 1);
    } else {
        varint_read_back(e.len(), e + tail, 5, 15);
    }
    assert((e + tail).take(e.len() as int) == e);
    assert((e + tail).skip(e.len() as int) == tail);
    encode_utf8_valid_utf8(s);
    encode_utf8_decode_utf8(s);
}

// --- values that travel --------------------------------------------------------

/// A type whose values travel as bytes.
pub trait Wire: Sized + View {
    /// The bytes of a value.
    spec fn wire(v: Self::V) -> Seq<u8>;

    /// Reads a value: what is found at the front of `bytes`, and the bytes behind
    /// it; nothing when no value stands there.
    spec fn taken(bytes: Seq<u8>) -> Option<(Self::V, Seq<u8>)>;

    /// True when every text and list in the value has a length that a machine
    /// word can hold, as those of a value in memory do.
    spec fn fits(v: Self::V) -> bool;

    /// A value is read back from its bytes, whatever follows them.
    proof fn read_back(v: Self::V, tail: Seq<u8>)
        requires
            Self::fits(v),
        ensures
            Self::taken(Self::wire(v) + tail) == Some((v, tail)),
    ;

    /// Appends the bytes of this value to `out`.
    fn put(&self, out: &mut Vec<u8>) -> (r: Result<(), postcard::Error>)
        ensures
            r is Ok,
            Self::fits(self@),
            final(out)@ == old(out)@ + Self::wire(self@),
    ;

    /// Reads a value from the front of `bytes`.
    fn take(bytes: &[u8]) -> (r: Result<(Self, &[u8]), postcard::Error>)
        ensures
            match r {
                Ok((m, rest)) => Self::taken(bytes@) == Some((m@, rest@)),
                Err(_) => Self::taken(bytes@) is None,
            },
    ;
}

impl Wire for String {
    open spec fn wire(v: Seq<char>) -> Seq<u8> {
        text_wire(v)
    }

    open spec fn taken(bytes: Seq<u8>) -> Option<(Seq<char>, Seq<u8>)> {
        text_taken(bytes)
    }

    open spec fn fits(v: Seq<char>) -> bool {
        encode_utf8(v).len() <= usize::MAX
    }

    proof fn read_back(v: Seq<char>, tail: Seq<u8>) {
        text_read_back(v, tail);
    }

    fn put(&self, out: &mut Vec<u8>) -> (r: Result<(), postcard::Error>) {
        let mut b: Vec<u8> = str_bytes(self.as_str())?;
        let n: usize = self.as_str().as_bytes().len();
        assert(n == encode_utf8(self@).len());
        out.append(&mut b);
        Ok(())
    }

    fn take(bytes: &[u8]) -> (r: Result<(Self, &[u8]), postcard::Error>) {
        string_from(bytes)
    }
}

impl Wire for u8 {
    open spec fn wire(v: u8) -> Seq<u8> {
        seq![v]
    }

    open spec fn taken(bytes: Seq<u8>) -> Option<(u8, Seq<u8>)> {
        if bytes.len() > 0 {
            Some((bytes[0], bytes.skip(1)))
        } else {
            None
        }
    }

    open spec fn fits(v: u8) -> bool {
        true
    }

    proof fn read_back(v: u8, tail: Seq<u8>) {
        assert((seq![v] + tail).skip(1) == tail);
    }

    fn put(&self, out: &mut Vec<u8>) -> (r: Result<(), postcard::Error>) {
        out.push(*self);
        Ok(())
    }

    fn take(bytes: &[u8]) -> (r: Result<(Self, &[u8]), postcard::Error>) {
        u8_from(bytes)
    }
}

impl Wire for i64 {
    open spec fn wire(v: i64) -> Seq<u8> {
        varint(folded(v as int))
    }

    open spec fn taken(bytes: Seq<u8>) -> Option<(i64, Seq<u8>)> {
        match varint_taken(bytes, 10, 1) {
            Some((z, rest)) => Some((unfolded(z) as i64, rest)),
            None => None,
        }
    }

    open spec fn fits(v: i64) -> bool {
        true
    }

    proof fn read_back(v: i64, tail: Seq<u8>) {
        room_of_words();
        varint_read_back(folded(v as int), tail, 10, 1);
        unfolded_folded(v as int);
    }

    fn put(&self, out: &mut Vec<u8>) -> (r: Result<(), postcard::Error>) {
        let mut b: Vec<u8> = i64_bytes(*self)?;
        out.append(&mut b);
        Ok(())
    }

    fn take(bytes: &[u8]) -> (r: Result<(Self, &[u8]), postcard::Error>) {
        i64_from(bytes)
    }
}

/// The elements' bytes, one element after another.
pub open spec fn items_wire<T: Wire>(items: Seq<T::V>) -> Seq<u8>
    decreases items.len(),
{
    if items.len() == 0 {
        Seq::empty()
    } else {
        items_wire::<T>(items.drop_last()) + T::wire(items.last())
    }
}

/// Reads `n` elements.
pub open spec fn items_taken<T: Wire>(bytes: Seq<u8>, n: nat) -> Option<(Seq<T::V>, Seq<u8>)>
    decreases n,
{
    if n == 0 {
        Some((Seq::empty(), bytes))
    } else {
        match items_taken::<T>(bytes, (n - 1) as nat) {
            Some((items, rest)) => match T::taken(rest) {
                Some((v, behind)) => Some((items.push(v), behind)),
                None => None,
            },
            None => None,
        }
    }
}

/// The bytes of a list.
pub open spec fn list_wire<T: Wire>(items: Seq<T::V>) -> Seq<u8> {
    varint(items.len()) + items_wire::<T>(items)
}

/// Reads a list.
pub open spec fn list_taken<T: Wire>(bytes: Seq<u8>) -> Option<(Seq<T::V>, Seq<u8>)> {
    match length_taken(bytes) {
        Some((n, rest)) => items_taken::<T>(rest, n),
        None => None,
    }
}

/// True when the list and all its elements fit.
pub open spec fn list_fits<T: Wire>(items: Seq<T::V>) -> bool {
    &&& items.len() <= usize::MAX
    &&& forall|i: int| 0 <= i < items.len() ==> T::fits(#[trigger] items[i])
}

proof fn items_read_back<T: Wire>(items: Seq<T::V>, tail: Seq<u8>)
    requires
        forall|i: int| 0 <= i < items.len() ==> T::fits(#[trigger] items[i]),
    ensures
        items_taken::<T>(items_wire::<T>(items) + tail, items.len()) == Some((items, tail)),
    decreases items.len(),
{
    if items.len() == 0 {
        assert(items_wire::<T>(items) + tail == tail);
        assert(items == Seq::<T::V>::empty());
    } else {
        let front = items.drop_last();
        let last = items.last();
        assert(items_wire::<T>(items) + tail == items_wire::<T>(front) + (T::wire(last) + tail));
        assert forall|i: int| 0 <= i < front.len() implies T::fits(#[trigger] front[i]) by {
            assert(front[i] == items[i]);
        }
        items_read_back::<T>(front, T::wire(last) + tail);
        assert(T::fits(items[items.len() - 1]));
        T::read_back(last, tail);
        assert(front.push(last) == items);
    }
}

/// A list is read back from its bytes.
pub proof fn list_read_back<T: Wire>(items: Seq<T::V>, tail: Seq<u8>)
    requires
        list_fits::<T>(items),
    ensures
        list_taken::<T>(list_wire::<T>(items) + tail) == Some((items, tail)),
{
    room_of_words();
    assert(list_wire::<T>(items) + tail == varint(items.len()) + (items_wire::<T>(items) + tail));
    if usize::BITS == 64 {
        varint_read_back(items.len(), items_wire::<T>(items) + tail, 10, 1);
    } else {
        varint_read_back(items.len(), items_wire::<T>(items) + tail, 5, 15);
    }
    items_read_back::<T>(items, tail);
}

/// Once no element can be read, no longer list can be read either.
proof fn items_stop<T: Wire>(bytes: Seq<u8>, i: nat, n: nat)
    requires
        i <= n,
        items_taken::<T>(bytes, i) is None,
    ensures
        items_taken::<T>(bytes, n) is None,
    decreases n,
{
    if i < n {
        items_stop::<T>(bytes, i, (n - 1) as nat);
    }
}

/// Appends the bytes of a list to `out`.
pub fn put_list<T: Wire>(items: &Vec<T>, out: &mut Vec<u8>) -> (r: Result<(), postcard::Error>)
    ensures
        r is Ok,
        list_fits::<T>(views(items@)),
        final(out)@ == old(out)@ + list_wire::<T>(views(items@)),
{
    let mut b: Vec<u8> = usize_bytes(items.len())?;
    out.append(&mut b);
    let ghost base = out@;
    let mut i: usize = 0;
    assert(base + items_wire::<T>(views(items@.take(0))) == base);
    while i < items.len()
        invariant
            i <= items.len(),
            forall|j: int| 0 <= j < i ==> T::fits(#[trigger] items@[j]@),
            out@ == base + items_wire::<T>(views(items@.take(i as int))),
        decreases items.len() - i,
    {
        items[i].put(out)?;
        assert(views(items@.take(i + 1)).drop_last() == views(items@.take(i as int)));
        assert(views(items@.take(i + 1)).last() == items@[i as int]@);
        i = i + 1;
    }
    assert(items@.take(i as int) == items@);
    assert(out@ == old(out)@ + list_wire::<T>(views(items@)));
    Ok(())
}

/// A number that is read is less than the number of values that there is room for.
proof fn varint_bounded(bytes: Seq<u8>, width: nat, last: nat)
    requires
        last < 128,
    ensures
        varint_taken(bytes, width, last) matches Some((n, _)) ==> n < varint_room(width, last),
    decreases width,
{
    reveal_with_fuel(varint_taken, 2);
    if width > 1 {
        varint_bounded(bytes.skip(1), (width - 1) as nat, last);
        room_is_positive((width - 1) as nat, last);
    }
}

proof fn room_is_positive(width: nat, last: nat)
    requires
        width > 0,
    ensures
        varint_room(width, last) > 0,
    decreases width,
{
    if width > 1 {
        room_is_positive((width - 1) as nat, last);
    }
}

/// Reads the length of a list from the front of `bytes`.
fn length_from(bytes: &[u8]) -> (r: Result<(usize, &[u8]), postcard::Error>)
    ensures
        match r {
            Ok((n, rest)) => length_taken(bytes@) == Some((n as nat, rest@)),
            Err(_) => length_taken(bytes@) is None,
        },
{
    proof {
        room_of_words();
        varint_bounded(bytes@, 10, 1);
    }
    if usize::BITS == 64 {
        usize_from(bytes)
    } else {
        match u32_from(bytes) {
            Ok((n, rest)) => Ok((n as usize, rest)),
            Err(e) => Err(e),
        }
    }
}

/// Reads a list from the front of `bytes`.
pub fn take_list<T: Wire>(bytes: &[u8]) -> (r: Result<(Vec<T>, &[u8]), postcard::Error>)
    ensures
        match r {
            Ok((items, rest)) => list_taken::<T>(bytes@) == Some((views(items@), rest@)),
            Err(_) => list_taken::<T>(bytes@) is None,
        },
{
    let (n, start): (usize, &[u8]) = match length_from(bytes) {
        Ok(p) => p,
        Err(e) => {
            return Err(e);
        },
    };
    let mut rest: &[u8] = start;
    let mut items: Vec<T> = Vec::new();
    let mut i: usize = 0;
    assert(views(items@) == Seq::<T::V>::empty());
    while i < n
        invariant
            i <= n,
            length_taken(bytes@) == Some((n as nat, start@)),
            items_taken::<T>(start@, i as nat) == Some((views(items@), rest@)),
        decreases n - i,
    {
        match T::take(rest) {
            Ok((m, behind)) => {
                let ghost was = views(items@);
                let ghost v = m@;
                items.push(m);
                assert(views(items@) == was.push(v));
                rest = behind;
            },
            Err(e) => {
                proof {
                    assert(items_taken::<T>(start@, (i + 1) as nat) is None);
                    items_stop::<T>(start@, (i + 1) as nat, n as nat);
                }
                return Err(e);
            },
        }
        i = i + 1;
    }
    Ok((items, rest))
}

} // verus!
