//! Length-prefixed frames.
//!
//! A frame is the length of its payload, as four bytes with the highest first,
//! and then the payload: the bytes of one message. Payloads above
//! [`MAX_FRAME_SIZE`] are refused on both sides, which bounds the memory that
//! malformed input can claim.

use vstd::prelude::*;

use crate::codec::Wire;
use crate::compose::{cat2, cat5, decimal_nat, decimal_usize};

verus! {

broadcast use vstd::seq_lib::group_seq_properties;

/// The largest payload: 16 MiB.
pub const MAX_FRAME_SIZE: usize = 16 * 1024 * 1024;

/// A failed read or write on the stream below the frames.
#[derive(Debug, Clone, PartialEq, Eq)]
pub struct IoFault {
    /// True when the stream ended before the first byte of a frame: nothing was cut
    /// off.
    pub clean_end: bool,
    /// The failure in words.
    pub text: String,
}

/// The ways in which framing, encoding and decoding fail.
#[derive(Debug)]
pub enum Error {
    /// The stream failed.
    Io(IoFault),
    /// The payload is not the bytes of a message.
    Postcard(postcard::Error),
    /// The payload is too large.
    FrameTooLarge { size: usize, max: usize },
}

/// The words that `std` has for a stream that ended too early.
pub const SHORT_READ: &'static str = "failed to fill whole buffer";

/// The `Display` text of a `postcard::Error`. What it says is left unsaid: the
/// error is opaque here.
#[verifier::external_body]
fn postcard_text(e: &postcard::Error) -> (r: String) {
    e.to_string()
}

/// True when `text` is how the error reads. Of a malformed payload only the
/// beginning is fixed.
pub open spec fn reads_as(e: Error, text: Seq<char>) -> bool {
    match e {
        Error::Io(f) => text == "io error: "@ + f.text@,
        Error::Postcard(_) => "postcard error: "@.is_prefix_of(text),
        Error::FrameTooLarge { size, max } => text == "frame too large: "@ + decimal_nat(
            size as nat,
        ) + " bytes (max "@ + decimal_nat(max as nat) + ")"@,
    }
}

impl Error {
    /// The error in words.
    pub fn text(&self) -> (r: String)
        ensures
            reads_as(*self, r@),
    {
        match self {
            Error::Io(f) => cat2("io error: ", f.text.as_str()),
            Error::Postcard(e) => {
                let cause: String = postcard_text(e);
                let r: String = cat2("postcard error: ", cause.as_str());
                assert(r@.subrange(0, "postcard error: "@.len() as int) == "postcard error: "@);
                r
            },
            Error::FrameTooLarge { size, max } => cat5(
                "frame too large: ",
                decimal_usize(*size).as_str(),
                " bytes (max ",
                decimal_usize(*max).as_str(),
                ")",
            ),
        }
    }
}

// --- frames --------------------------------------------------------------------

/// `n` as four bytes, the highest first.
pub open spec fn big_endian(n: nat) -> Seq<u8> {
    seq![
        (n / 0x1_00_00_00 % 256) as u8,
        (n / 0x1_00_00 % 256) as u8,
        (n / 0x1_00 % 256) as u8,
        (n % 256) as u8,
    ]
}

/// The number that four bytes hold, the highest first.
pub open spec fn from_big_endian(b: Seq<u8>) -> nat {
    (b[0] * 0x1_00_00_00 + b[1] * 0x1_00_00 + b[2] * 0x1_00 + b[3]) as nat
}

/// The frame that carries `payload`.
pub open spec fn frame(payload: Seq<u8>) -> Seq<u8> {
    big_endian(payload.len()) + payload
}

/// What is found at the front of a stream that holds `bytes` and then ends.
#[verifier::ext_equal]
pub enum Found<V> {
    /// No byte at all.
    End,
    /// Too few bytes for a length, or fewer than the length says.
    CutOff,
    /// A length above the limit; the bytes behind it.
    TooLarge(nat, Seq<u8>),
    /// A payload that is not a message; the bytes behind the frame.
    Malformed(Seq<u8>),
    /// A message; the bytes behind the frame.
    Message(V, Seq<u8>),
}

/// What reading one frame finds in `bytes`.
pub open spec fn found<T: Wire>(bytes: Seq<u8>) -> Found<T::V> {
    if bytes.len() == 0 {
        Found::End
    } else if bytes.len() < 4 {
        Found::CutOff
    } else {
        let n = from_big_endian(bytes);
        let rest = bytes.skip(4);
        if n > MAX_FRAME_SIZE {
            Found::TooLarge(n, rest)
        } else if rest.len() < n {
            Found::CutOff
        } else {
            match T::taken(rest.take(n as int)) {
                Some((v, _)) => Found::Message(v, rest.skip(n as int)),
                None => Found::Malformed(rest.skip(n as int)),
            }
        }
    }
}

/// The four bytes of a length give the length back.
pub proof fn big_endian_read_back(n: nat, tail: Seq<u8>)
    requires
        n < 0x1_00_00_00_00,
    ensures
        from_big_endian(big_endian(n) + tail) == n,
{
    let b = big_endian(n);
    assert(forall|i: int| 0 <= i < 4 ==> (b + tail)[i] == b[i]);
}

/// A message that was framed is found again, and what follows its frame is left
/// for the next reader.
pub proof fn frame_read_back<T: Wire>(v: T::V, tail: Seq<u8>)
    requires
        T::fits(v),
        T::wire(v).len() <= MAX_FRAME_SIZE,
    ensures
        found::<T>(frame(T::wire(v)) + tail) == Found::Message(v, tail),
{
    let p = T::wire(v);
    let bytes = frame(p) + tail;
    assert(bytes == big_endian(p.len()) + (p + tail));
    big_endian_read_back(p.len(), p + tail);
    assert(bytes.skip(4) == p + tail);
    assert((p + tail).take(p.len() as int) == p);
    assert((p + tail).skip(p.len() as int) == tail);
    T::read_back(v, Seq::empty());
    assert(p + Seq::<u8>::empty() == p);
}

/// Two messages that were framed one after the other are found one after the
/// other.
pub proof fn frames_read_back_in_order<S: Wire, T: Wire>(a: S::V, b: T::V, tail: Seq<u8>)
    requires
        S::fits(a),
        T::fits(b),
        S::wire(a).len() <= MAX_FRAME_SIZE,
        T::wire(b).len() <= MAX_FRAME_SIZE,
    ensures
        found::<S>(frame(S::wire(a)) + frame(T::wire(b)) + tail) == Found::Message(
            a,
            frame(T::wire(b)) + tail,
        ),
        found::<T>(frame(T::wire(b)) + tail) == Found::Message(b, tail),
{
    let second = frame(T::wire(b));
    assert(frame(S::wire(a)) + second + tail == frame(S::wire(a)) + (second + tail));
    frame_read_back::<S>(a, second + tail);
    frame_read_back::<T>(b, tail);
}

/// A stream ends cleanly only in front of a frame: any part of a frame, without its
/// end, is found cut off, and no byte at all is no part of one.
pub proof fn only_whole_frames_end_cleanly<T: Wire>(v: T::V, k: int)
    requires
        T::wire(v).len() <= MAX_FRAME_SIZE,
        0 <= k < frame(T::wire(v)).len(),
    ensures
        found::<T>(frame(T::wire(v)).take(k)) == (if k == 0 {
            Found::<T::V>::End
        } else {
            Found::<T::V>::CutOff
        }),
{
    let p = T::wire(v);
    let part = frame(p).take(k);
    if k >= 4 {
        let tail = p.take(k - 4);
        assert(part =~= big_endian(p.len()) + tail);
        big_endian_read_back(p.len(), tail);
        assert(part.skip(4) =~= tail);
    }
}

/// Refuses a payload length above [`MAX_FRAME_SIZE`].
pub fn check_incoming_len(len: usize) -> (r: Result<(), Error>)
    ensures
        len <= MAX_FRAME_SIZE ==> r == Ok::<(), Error>(()),
        len > MAX_FRAME_SIZE ==> r == Err::<(), Error>(
            Error::FrameTooLarge { size: len, max: MAX_FRAME_SIZE },
        ),
{
    if len > MAX_FRAME_SIZE {
        return Err(Error::FrameTooLarge { size: len, max: MAX_FRAME_SIZE });
    }
    Ok(())
}

/// The payload of a frame for `msg`; refused when it is above [`MAX_FRAME_SIZE`].
pub fn encode<T: Wire>(msg: &T) -> (r: Result<Vec<u8>, Error>)
    ensures
        T::fits(msg@),
        match r {
            Ok(payload) => payload@ == T::wire(msg@) && payload@.len() <= MAX_FRAME_SIZE,
            Err(Error::FrameTooLarge { size, max }) => size == T::wire(msg@).len() && size
                > MAX_FRAME_SIZE && max == MAX_FRAME_SIZE,
            Err(_) => false,
        },
{
    let mut payload: Vec<u8> = Vec::new();
    if let Err(e) = msg.put(&mut payload) {
        return Err(Error::Postcard(e));
    }
    assert(payload@ == T::wire(msg@));
    match check_incoming_len(payload.len()) {
        Ok(_) => Ok(payload),
        Err(e) => Err(e),
    }
}

/// The message that a payload holds. Bytes behind it are ignored.
pub fn decode<T: Wire>(payload: &[u8]) -> (r: Result<T, Error>)
    ensures
        match T::taken(payload@) {
            Some((v, _)) => r matches Ok(m) && m@ == v,
            None => r matches Err(Error::Postcard(_)),
        },
{
    match T::take(payload) {
        Ok((m, _)) => Ok(m),
        Err(e) => Err(Error::Postcard(e)),
    }
}

/// The length that the first four bytes of a frame announce; refused when it is
/// above [`MAX_FRAME_SIZE`].
pub fn announced_len(header: &[u8]) -> (r: Result<usize, Error>)
    requires
        header@.len() >= 4,
    ensures
        ({
            let n = from_big_endian(header@);
            match r {
                Ok(len) => len == n && n <= MAX_FRAME_SIZE,
                Err(Error::FrameTooLarge { size, max }) => size == n && n > MAX_FRAME_SIZE && max
                    == MAX_FRAME_SIZE,
                Err(_) => false,
            }
        }),
{
    let n: u32 = header[0] as u32 * 0x1_00_00_00 + header[1] as u32 * 0x1_00_00 + header[2] as u32
        * 0x1_00 + header[3] as u32;
    let len: usize = n as usize;
    match check_incoming_len(len) {
        Ok(_) => Ok(len),
        Err(e) => Err(e),
    }
}

/// The frame that carries `msg`; refused when the payload is above
/// [`MAX_FRAME_SIZE`].
pub fn encode_frame<T: Wire>(msg: &T) -> (r: Result<Vec<u8>, Error>)
    ensures
        T::fits(msg@),
        match r {
            Ok(bytes) => bytes@ == frame(T::wire(msg@)) && T::wire(msg@).len() <= MAX_FRAME_SIZE,
            Err(Error::FrameTooLarge { size, max }) => size == T::wire(msg@).len() && size
                > MAX_FRAME_SIZE && max == MAX_FRAME_SIZE,
            Err(_) => false,
        },
{
    let mut payload: Vec<u8> = match encode(msg) {
        Ok(p) => p,
        Err(e) => {
            return Err(e);
        },
    };
    let n: u32 = payload.len() as u32;
    let mut out: Vec<u8> = Vec::new();
    out.push((n / 0x1_00_00_00 % 256) as u8);
    out.push((n / 0x1_00_00 % 256) as u8);
    out.push((n / 0x1_00 % 256) as u8);
    out.push((n % 256) as u8);
    assert(out@ == big_endian(payload@.len()));
    out.append(&mut payload);
    Ok(out)
}

/// Appends the frame of `msg` to `w`. When the payload is above
/// [`MAX_FRAME_SIZE`], nothing is appended.
pub fn write_message_sync<T: Wire>(w: &mut Vec<u8>, msg: &T) -> (r: Result<(), Error>)
    ensures
        T::fits(msg@),
        match r {
            Ok(_) => T::wire(msg@).len() <= MAX_FRAME_SIZE && final(w)@ == old(w)@ + frame(
                T::wire(msg@),
            ),
            Err(Error::FrameTooLarge { size, max }) => size == T::wire(msg@).len() && size
                > MAX_FRAME_SIZE && max == MAX_FRAME_SIZE && final(w)@ == old(w)@,
            Err(_) => false,
        },
{
    match encode_frame(msg) {
        Ok(mut bytes) => {
            w.append(&mut bytes);
            Ok(())
        },
        Err(e) => Err(e),
    }
}

/// A stream of bytes in memory, read from the front.
#[derive(Debug)]
pub struct ByteReader {
    bytes: Vec<u8>,
    pos: usize,
}

impl View for ByteReader {
    type V = Seq<u8>;

    /// The bytes that are still to be read.
    closed spec fn view(&self) -> Seq<u8> {
        self.bytes@.skip(self.pos as int)
    }
}

impl ByteReader {
    #[verifier::type_invariant]
    spec fn within(self) -> bool {
        self.pos <= self.bytes@.len()
    }

    /// A reader at the front of `bytes`.
    pub fn new(bytes: Vec<u8>) -> (r: ByteReader)
        ensures
            r@ == bytes@,
    {
        let r: ByteReader = ByteReader { bytes, pos: 0 };
        assert(r.bytes@.skip(0) == r.bytes@);
        r
    }

    /// The number of bytes that are still to be read.
    pub fn left(&self) -> (n: usize)
        ensures
            n == self@.len(),
    {
        proof {
            use_type_invariant(self);
        }
        self.bytes.len() - self.pos
    }

    /// The next `n` bytes. When fewer are left, they are all used up.
    pub fn read_exact(&mut self, n: usize) -> (r: Option<Vec<u8>>)
        ensures
            match r {
                Some(b) => n <= old(self)@.len() && b@ == old(self)@.take(n as int) && final(self)@
                    == old(self)@.skip(n as int),
                None => n > old(self)@.len() && final(self)@.len() == 0,
            },
    {
        proof {
            use_type_invariant(&*self);
        }
        let left: usize = self.bytes.len() - self.pos;
        if n > left {
            self.pos = self.bytes.len();
            return None;
        }
        let end: usize = self.pos + n;
        let b: Vec<u8> = vstd::slice::slice_to_vec(
            vstd::slice::slice_subrange(self.bytes.as_slice(), self.pos, end),
        );
        assert(b@ == old(self)@.take(n as int));
        self.pos = end;
        assert(self@ == old(self)@.skip(n as int));
        Some(b)
    }
}

/// The failure of a stream that ended when `count` bytes of a frame had come, with
/// the words for it.
pub fn ended_after(count: usize, text: &str) -> (r: Error)
    ensures
        r matches Error::Io(f) && f.clean_end == (count == 0) && f.text@ == text@,
{
    Error::Io(IoFault { clean_end: count == 0, text: text.to_owned() })
}

/// Reads one frame from `r` and decodes its message.
pub fn read_message_sync<T: Wire>(r: &mut ByteReader) -> (m: Result<T, Error>)
    ensures
        match found::<T>(old(r)@) {
            Found::End => m matches Err(Error::Io(f)) && f.clean_end && f.text@ == SHORT_READ@
                && final(r)@.len() == 0,
            Found::CutOff => m matches Err(Error::Io(f)) && !f.clean_end && f.text@ == SHORT_READ@
                && final(r)@.len() == 0,
            Found::TooLarge(n, rest) => m matches Err(Error::FrameTooLarge { size, max }) && size
                == n && max == MAX_FRAME_SIZE && final(r)@ == rest,
            Found::Malformed(rest) => m matches Err(Error::Postcard(_)) && final(r)@ == rest,
            Found::Message(v, rest) => m matches Ok(t) && t@ == v && final(r)@ == rest,
        },
{
    let ghost bytes = r@;
    let left: usize = r.left();
    let header: Vec<u8> = match r.read_exact(4) {
        Some(h) => h,
        None => {
            return Err(ended_after(left, SHORT_READ));
        },
    };
    assert(from_big_endian(header@) == from_big_endian(bytes));
    let len: usize = match announced_len(header.as_slice()) {
        Ok(n) => n,
        Err(e) => {
            return Err(e);
        },
    };
    match r.read_exact(len) {
        Some(payload) => decode(payload.as_slice()),
        None => Err(ended_after(left, SHORT_READ)),
    }
}

} // verus!
