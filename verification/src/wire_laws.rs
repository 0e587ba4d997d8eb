//! What the bytes of messages and frames are, and which bytes are no message.

use vstd::prelude::*;
use vstd::utf8::*;

use crate::codec::{items_taken, list_wire, text_taken, varint, varint_taken, Wire};
use crate::framing::{big_endian, found, frame, from_big_endian, Found};
use crate::messages::{
    AnswerComment, AnswerCommentView, Attachment, AttachmentView, ClientRequest, ClientRequestView,
    Notification, NotificationView, Register, RegisterResponse, RegisterResponseView, RegisterView,
    ServerResponse, ServerResponseView, SubmitAnswer, SubmitAnswerView, SubmitIssue,
    SubmitIssueView, SupervisorMessage, SupervisorMessageView,
};

verus! {

broadcast use vstd::seq_lib::group_seq_properties;

/// A number takes one byte for each seven bits, the lowest first, and every byte but
/// the last is marked by its highest bit.
pub proof fn numbers_go_in_groups_of_seven_bits(n: nat, low: nat)
    ensures
        n < 128 ==> varint(n) == seq![n as u8],
        n > 0 && low < 128 ==> varint(128 * n + low) == seq![(128 + low) as u8] + varint(n),
{
    if n > 0 && low < 128 {
        assert((128 * n + low) % 128 == low && (128 * n + low) / 128 == n);
    }
}

/// A text is the number of its bytes and its bytes in UTF-8; a list is the number of
/// its items and its items one after another.
pub proof fn lengths_stand_in_front<T: Wire>(s: Seq<char>, items: Seq<T::V>, last: T::V)
    ensures
        <String as Wire>::wire(s) == varint(encode_utf8(s).len()) + encode_utf8(s),
        list_wire::<T>(Seq::empty()) == seq![0u8],
        list_wire::<T>(items.push(last)).skip(varint(items.len() + 1).len() as int) == list_wire::<
            T,
        >(items).skip(varint(items.len()).len() as int) + T::wire(last),
        list_wire::<T>(items).take(varint(items.len()).len() as int) == varint(items.len()),
{
    let all = items.push(last);
    assert(all.drop_last() =~= items);
    let a = varint(items.len());
    let b = varint(items.len() + 1);
    assert(list_wire::<T>(items).skip(a.len() as int) =~= crate::codec::items_wire::<T>(items));
    assert(list_wire::<T>(items).take(a.len() as int) =~= a);
    assert(list_wire::<T>(all).skip(b.len() as int) =~= crate::codec::items_wire::<T>(all));
    assert(crate::codec::items_wire::<T>(Seq::empty()) =~= Seq::<u8>::empty());
}

/// The fields of a message follow each other in the order in which they are declared.
pub proof fn fields_follow_each_other(
    r: RegisterView,
    c: AnswerCommentView,
    a: AttachmentView,
    s: SubmitIssueView,
    w: SubmitAnswerView,
)
    ensures
        Register::wire(r) == <String as Wire>::wire(r.slug) + <String as Wire>::wire(r.group),
        AnswerComment::wire(c) == <String as Wire>::wire(c.content) + <String as Wire>::wire(
            c.kind,
        ),
        Attachment::wire(a) == <String as Wire>::wire(a.filename) + list_wire::<u8>(a.data),
        SubmitIssue::wire(s) == <String as Wire>::wire(s.title) + <String as Wire>::wire(s.body)
            + list_wire::<String>(s.labels) + <String as Wire>::wire(s.source_slug)
            + <String as Wire>::wire(s.source_uuid) + list_wire::<Attachment>(s.attachments),
        SubmitAnswer::wire(w) == <String as Wire>::wire(w.source_uuid) + list_wire::<
            AnswerComment,
        >(w.comments) + list_wire::<Attachment>(w.attachments),
{
}

/// A message that is one of two kinds starts with the number of its kind, 0 for the
/// first and 1 for the second, and goes on with its contents.
pub proof fn kinds_are_numbered(
    peers: Seq<Seq<char>>,
    text: Seq<char>,
    id: i64,
    r: RegisterResponseView,
    n: NotificationView,
    s: SubmitIssueView,
    w: SubmitAnswerView,
)
    ensures
        RegisterResponse::wire(RegisterResponseView::Ack { peers }) == seq![0u8] + list_wire::<
            String,
        >(peers),
        RegisterResponse::wire(RegisterResponseView::Nack { reason: text }) == seq![1u8]
            + <String as Wire>::wire(text),
        Notification::wire(NotificationView::PeerJoined { slug: text }) == seq![0u8]
            + <String as Wire>::wire(text),
        Notification::wire(NotificationView::PeerLeft { slug: text }) == seq![1u8]
            + <String as Wire>::wire(text),
        SupervisorMessage::wire(SupervisorMessageView::RegisterResponse(r)) == seq![0u8]
            + RegisterResponse::wire(r),
        SupervisorMessage::wire(SupervisorMessageView::Notification(n)) == seq![1u8]
            + Notification::wire(n),
        ClientRequest::wire(ClientRequestView::Submit(s)) == seq![0u8] + SubmitIssue::wire(s),
        ClientRequest::wire(ClientRequestView::Answer(w)) == seq![1u8] + SubmitAnswer::wire(w),
        ServerResponse::wire(ServerResponseView::Success { issue_id: id }) == seq![0u8]
            + <i64 as Wire>::wire(id),
        ServerResponse::wire(ServerResponseView::Error { message: text }) == seq![1u8]
            + <String as Wire>::wire(text),
{
}

/// Whole numbers go as natural ones, the negative ones between the others: `n` as twice
/// `n`, and `-n` as one less than that.
pub proof fn signs_are_folded(n: i64)
    ensures
        n >= 0 ==> <i64 as Wire>::wire(n) == varint((2 * n) as nat),
        n < 0 ==> <i64 as Wire>::wire(n) == varint((-2 * n - 1) as nat),
{
}

/// A number of a kind that there is not is no message.
pub proof fn other_kinds_are_refused(kind: u8, rest: Seq<u8>)
    requires
        2 <= kind < 128,
    ensures
        RegisterResponse::taken(seq![kind] + rest) is None,
        Notification::taken(seq![kind] + rest) is None,
        SupervisorMessage::taken(seq![kind] + rest) is None,
        ClientRequest::taken(seq![kind] + rest) is None,
        ServerResponse::taken(seq![kind] + rest) is None,
        RegisterResponse::taken(Seq::empty()) is None,
        Notification::taken(Seq::empty()) is None,
        SupervisorMessage::taken(Seq::empty()) is None,
        ClientRequest::taken(Seq::empty()) is None,
        ServerResponse::taken(Seq::empty()) is None,
{
    let bytes = seq![kind] + rest;
    assert(bytes[0] == kind);
    reveal_with_fuel(varint_taken, 2);
}

/// A text is read only when all of its bytes are there and are UTF-8.
pub proof fn only_whole_texts_are_read(n: nat, bytes: Seq<u8>)
    requires
        n < 128,
    ensures
        text_taken(seq![n as u8] + bytes) == (if n <= bytes.len() && valid_utf8(
            bytes.take(n as int),
        ) {
            Some((decode_utf8(bytes.take(n as int)), bytes.skip(n as int)))
        } else {
            None
        }),
        text_taken(Seq::empty()) is None,
{
    let all = seq![n as u8] + bytes;
    assert(all[0] == n as u8);
    assert(all.skip(1) =~= bytes);
    reveal_with_fuel(varint_taken, 2);
}

proof fn four_groups(a: int, b: int, c: int, d: int)
    requires
        0 <= a < 256,
        0 <= b < 256,
        0 <= c < 256,
        0 <= d < 256,
    ensures
        ({
            let n = a * 0x1_00_00_00 + b * 0x1_00_00 + c * 0x1_00 + d;
            &&& n % 256 == d
            &&& n / 0x1_00 % 256 == c
            &&& n / 0x1_00_00 % 256 == b
            &&& n / 0x1_00_00_00 % 256 == a
        }),
{
    let n = a * 0x1_00_00_00 + b * 0x1_00_00 + c * 0x1_00 + d;
    assert(n / 0x1_00 == a * 0x1_00_00 + b * 0x1_00 + c);
    assert(n / 0x1_00_00 == a * 0x1_00 + b);
    assert(n / 0x1_00_00_00 == a);
}

/// A frame is the length of its payload in four bytes, the highest first, and the
/// payload.
pub proof fn frames_start_with_their_length(a: u8, b: u8, c: u8, d: u8, payload: Seq<u8>)
    ensures
        big_endian(
            (a * 0x1_00_00_00 + b * 0x1_00_00 + c * 0x1_00 + d) as nat,
        ) =~= seq![a, b, c, d],
        from_big_endian(seq![a, b, c, d] + payload) == a * 0x1_00_00_00 + b * 0x1_00_00 + c
            * 0x1_00 + d,
        frame(payload).len() == payload.len() + 4,
        frame(payload).skip(4) == payload,
        frame(payload).take(4) == big_endian(payload.len()),
{
    assert(frame(payload).skip(4) =~= payload);
    assert(frame(payload).take(4) =~= big_endian(payload.len()));
    four_groups(a as int, b as int, c as int, d as int);
    let s = seq![a, b, c, d] + payload;
    assert(s[0] == a && s[1] == b && s[2] == c && s[3] == d);
}

/// A length above sixteen mebibytes is refused, whatever follows; the payload is not
/// read. A payload that is no message is refused too, and the stream goes on behind it.
pub proof fn which_frames_are_refused<T: Wire>(n: nat, payload: Seq<u8>, tail: Seq<u8>)
    ensures
        16777216 < n < 0x1_00_00_00_00 ==> found::<T>(big_endian(n) + tail) == Found::<
            T::V,
        >::TooLarge(n, tail),
        payload.len() <= 16777216 && T::taken(payload) is None ==> found::<T>(
            big_endian(payload.len()) + payload + tail,
        ) == Found::<T::V>::Malformed(tail),
{
    if 16777216 < n < 0x1_00_00_00_00 {
        crate::framing::big_endian_read_back(n, tail);
        assert((big_endian(n) + tail).skip(4) =~= tail);
    }
    if payload.len() <= 16777216 {
        let bytes = big_endian(payload.len()) + payload + tail;
        assert(bytes =~= big_endian(payload.len()) + (payload + tail));
        crate::framing::big_endian_read_back(payload.len(), payload + tail);
        assert(bytes.skip(4) =~= payload + tail);
        assert((payload + tail).take(payload.len() as int) =~= payload);
        assert((payload + tail).skip(payload.len() as int) =~= tail);
    }
}

/// A list is read only when all of its items are there.
pub proof fn only_whole_lists_are_read<T: Wire>(bytes: Seq<u8>, n: nat)
    ensures
        items_taken::<T>(bytes, 0) == Some((Seq::<T::V>::empty(), bytes)),
        n > 0 && T::taken(bytes) is None ==> items_taken::<T>(bytes, n) is None,
        n > 0 ==> (T::taken(bytes) matches Some((first, rest)) ==> (match items_taken::<T>(
            rest,
            (n - 1) as nat,
        ) {
            Some((others, left)) => items_taken::<T>(bytes, n) == Some((seq![first] + others, left)),
            None => items_taken::<T>(bytes, n) is None,
        })),
    decreases n,
{
    if n > 1 {
        let m = (n - 1) as nat;
        only_whole_lists_are_read::<T>(bytes, m);
        if let Some((first, rest)) = T::taken(bytes) {
            if let Some((others, left)) = items_taken::<T>(rest, (m - 1) as nat) {
                if let Some((last, behind)) = T::taken(left) {
                    assert((seq![first] + others).push(last) =~= seq![first] + others.push(last));
                }
            }
        }
    } else if n == 1 {
        if let Some((first, rest)) = T::taken(bytes) {
            assert(Seq::<T::V>::empty().push(first) =~= seq![first] + Seq::<T::V>::empty());
            assert(items_taken::<T>(rest, 0) == Some((Seq::<T::V>::empty(), rest)));
        }
        assert(items_taken::<T>(bytes, 0) == Some((Seq::<T::V>::empty(), bytes)));
    }
}

} // verus!
