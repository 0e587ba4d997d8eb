//! The messages that supervisor, repo servers and clients exchange, and their
//! bytes.

use vstd::prelude::*;

use crate::codec::{
    list_fits, list_read_back, list_taken, list_wire, no_such_variant, put_list, take_list,
    u32_bytes, u32_from, varint, varint_read_back, varint_room, varint_taken, Wire,
};
use crate::compose::views;

verus! {

broadcast use vstd::seq_lib::group_seq_properties;

/// The number of a variant is read back from its bytes.
proof fn tag_read_back(tag: nat, tail: Seq<u8>)
    requires
        tag < 128,
    ensures
        varint_taken(varint(tag) + tail, 5, 15) == Some((tag, tail)),
{
    reveal_with_fuel(varint_room, 6);
    varint_read_back(tag, tail, 5, 15);
}

/// Appends the number of a variant.
fn put_tag(tag: u32, out: &mut Vec<u8>) -> (r: Result<(), postcard::Error>)
    ensures
        r is Ok,
        final(out)@ == old(out)@ + varint(tag as nat),
{
    let mut b: Vec<u8> = u32_bytes(tag)?;
    out.append(&mut b);
    Ok(())
}

/// Repo server to supervisor: identifies the server on the persistent stream. Sent
/// once, right after connecting to the register socket.
#[derive(Debug, Clone, PartialEq, Eq)]
pub struct Register {
    pub slug: String,
    pub group: String,
}

/// The contents of [`Register`].
#[verifier::ext_equal]
pub struct RegisterView {
    pub slug: Seq<char>,
    pub group: Seq<char>,
}

impl View for Register {
    type V = RegisterView;

    open spec fn view(&self) -> RegisterView {
        RegisterView {
            slug: self.slug@,
            group: self.group@,
        }
    }
}

impl Wire for Register {
    open spec fn wire(v: RegisterView) -> Seq<u8> {
        <String as Wire>::wire(v.slug) + <String as Wire>::wire(v.group)
    }

    open spec fn taken(bytes: Seq<u8>) -> Option<(RegisterView, Seq<u8>)> {
        match <String as Wire>::taken(bytes) {
            Some((slug, r0)) => match <String as Wire>::taken(r0) {
                Some((group, r1)) => Some((RegisterView { slug, group }, r1)),
                None => None,
            },
            None => None,
        }
    }

    open spec fn fits(v: RegisterView) -> bool {
        &&& <String as Wire>::fits(v.slug)
        &&& <String as Wire>::fits(v.group)
    }

    proof fn read_back(v: RegisterView, tail: Seq<u8>) {
        let t1 = tail;
        let t0 = <String as Wire>::wire(v.group) + t1;
        assert(Self::wire(v) + tail == <String as Wire>::wire(v.slug) + t0);
        <String as Wire>::read_back(v.slug, t0);
        <String as Wire>::read_back(v.group, t1);
    }

    fn put(&self, out: &mut Vec<u8>) -> (r: Result<(), postcard::Error>) {
        self.slug.put(out)?;
        self.group.put(out)?;
        assert(out@ == old(out)@ + Self::wire(self@));
        Ok(())
    }

    fn take(bytes: &[u8]) -> (r: Result<(Self, &[u8]), postcard::Error>) {
        let (slug, r0): (String, &[u8]) = match <String as Wire>::take(bytes) {
            Ok(p) => p,
            Err(e) => {
                return Err(e);
            },
        };
        let (group, r1): (String, &[u8]) = match <String as Wire>::take(r0) {
            Ok(p) => p,
            Err(e) => {
                return Err(e);
            },
        };
        Ok((Register { slug, group }, r1))
    }
}

/// A comment that travels with an answer.
#[derive(Debug, Clone, PartialEq, Eq)]
pub struct AnswerComment {
    pub content: String,
    /// The comment's kind, such as `result` or `note`.
    pub kind: String,
}

/// The contents of [`AnswerComment`].
#[verifier::ext_equal]
pub struct AnswerCommentView {
    pub content: Seq<char>,
    pub kind: Seq<char>,
}

impl View for AnswerComment {
    type V = AnswerCommentView;

    open spec fn view(&self) -> AnswerCommentView {
        AnswerCommentView {
            content: self.content@,
            kind: self.kind@,
        }
    }
}

impl Wire for AnswerComment {
    open spec fn wire(v: AnswerCommentView) -> Seq<u8> {
        <String as Wire>::wire(v.content) + <String as Wire>::wire(v.kind)
    }

    open spec fn taken(bytes: Seq<u8>) -> Option<(AnswerCommentView, Seq<u8>)> {
        match <String as Wire>::taken(bytes) {
            Some((content, r0)) => match <String as Wire>::taken(r0) {
                Some((kind, r1)) => Some((AnswerCommentView { content, kind }, r1)),
                None => None,
            },
            None => None,
        }
    }

    open spec fn fits(v: AnswerCommentView) -> bool {
        &&& <String as Wire>::fits(v.content)
        &&& <String as Wire>::fits(v.kind)
    }

    proof fn read_back(v: AnswerCommentView, tail: Seq<u8>) {
        let t1 = tail;
        let t0 = <String as Wire>::wire(v.kind) + t1;
        assert(Self::wire(v) + tail == <String as Wire>::wire(v.content) + t0);
        <String as Wire>::read_back(v.content, t0);
        <String as Wire>::read_back(v.kind, t1);
    }

    fn put(&self, out: &mut Vec<u8>) -> (r: Result<(), postcard::Error>) {
        self.content.put(out)?;
        self.kind.put(out)?;
        assert(out@ == old(out)@ + Self::wire(self@));
        Ok(())
    }

    fn take(bytes: &[u8]) -> (r: Result<(Self, &[u8]), postcard::Error>) {
        let (content, r0): (String, &[u8]) = match <String as Wire>::take(bytes) {
            Ok(p) => p,
            Err(e) => {
                return Err(e);
            },
        };
        let (kind, r1): (String, &[u8]) = match <String as Wire>::take(r0) {
            Ok(p) => p,
            Err(e) => {
                return Err(e);
            },
        };
        Ok((AnswerComment { content, kind }, r1))
    }
}

/// A file that travels inside a request, recorded as a commit on the receiving
/// side.
#[derive(Debug, Clone, PartialEq, Eq)]
pub struct Attachment {
    pub filename: String,
    pub data: Vec<u8>,
}

/// The contents of [`Attachment`].
#[verifier::ext_equal]
pub struct AttachmentView {
    pub filename: Seq<char>,
    pub data: Seq<u8>,
}

impl View for Attachment {
    type V = AttachmentView;

    open spec fn view(&self) -> AttachmentView {
        AttachmentView {
            filename: self.filename@,
            data: self.data@,
        }
    }
}

impl Wire for Attachment {
    open spec fn wire(v: AttachmentView) -> Seq<u8> {
        <String as Wire>::wire(v.filename) + list_wire::<u8>(v.data)
    }

    open spec fn taken(bytes: Seq<u8>) -> Option<(AttachmentView, Seq<u8>)> {
        match <String as Wire>::taken(bytes) {
            Some((filename, r0)) => match list_taken::<u8>(r0) {
                Some((data, r1)) => Some((AttachmentView { filename, data }, r1)),
                None => None,
            },
            None => None,
        }
    }

    open spec fn fits(v: AttachmentView) -> bool {
        &&& <String as Wire>::fits(v.filename)
        &&& list_fits::<u8>(v.data)
    }

    proof fn read_back(v: AttachmentView, tail: Seq<u8>) {
        let t1 = tail;
        let t0 = list_wire::<u8>(v.data) + t1;
        assert(Self::wire(v) + tail == <String as Wire>::wire(v.filename) + t0);
        <String as Wire>::read_back(v.filename, t0);
        list_read_back::<u8>(v.data, t1);
    }

    fn put(&self, out: &mut Vec<u8>) -> (r: Result<(), postcard::Error>) {
        self.filename.put(out)?;
        put_list(&self.data, out)?;
        assert(views(self.data@) == self.data@);
        assert(out@ == old(out)@ + Self::wire(self@));
        Ok(())
    }

    fn take(bytes: &[u8]) -> (r: Result<(Self, &[u8]), postcard::Error>) {
        let (filename, r0): (String, &[u8]) = match <String as Wire>::take(bytes) {
            Ok(p) => p,
            Err(e) => {
                return Err(e);
            },
        };
        let (data, r1): (Vec<u8>, &[u8]) = match take_list::<u8>(r0) {
            Ok(p) => p,
            Err(e) => {
                return Err(e);
            },
        };
        assert(views(data@) == data@);
        Ok((Attachment { filename, data }, r1))
    }
}

/// Submits a new issue from `source_slug`, known there as `source_uuid`, to the
/// peer's server.
#[derive(Debug, Clone, PartialEq, Eq)]
pub struct SubmitIssue {
    pub title: String,
    pub body: String,
    pub labels: Vec<String>,
    pub source_slug: String,
    pub source_uuid: String,
    pub attachments: Vec<Attachment>,
}

/// The contents of [`SubmitIssue`].
#[verifier::ext_equal]
pub struct SubmitIssueView {
    pub title: Seq<char>,
    pub body: Seq<char>,
    pub labels: Seq<Seq<char>>,
    pub source_slug: Seq<char>,
    pub source_uuid: Seq<char>,
    pub attachments: Seq<AttachmentView>,
}

impl View for SubmitIssue {
    type V = SubmitIssueView;

    open spec fn view(&self) -> SubmitIssueView {
        SubmitIssueView {
            title: self.title@,
            body: self.body@,
            labels: views(self.labels@),
            source_slug: self.source_slug@,
            source_uuid: self.source_uuid@,
            attachments: views(self.attachments@),
        }
    }
}

impl Wire for SubmitIssue {
    open spec fn wire(v: SubmitIssueView) -> Seq<u8> {
        <String as Wire>::wire(v.title) + <String as Wire>::wire(v.body) + list_wire::<String>(
            v.labels,
        ) + <String as Wire>::wire(v.source_slug) + <String as Wire>::wire(v.source_uuid)
            + list_wire::<Attachment>(v.attachments)
    }

    open spec fn taken(bytes: Seq<u8>) -> Option<(SubmitIssueView, Seq<u8>)> {
        match <String as Wire>::taken(bytes) {
            Some((title, r0)) => match <String as Wire>::taken(r0) {
                Some((body, r1)) => match list_taken::<String>(r1) {
                    Some((labels, r2)) => match <String as Wire>::taken(r2) {
                        Some((source_slug, r3)) => match <String as Wire>::taken(r3) {
                            Some((source_uuid, r4)) => match list_taken::<Attachment>(r4) {
                                Some((attachments, r5)) => {
                                    let v = SubmitIssueView {
                                        title,
                                        body,
                                        labels,
                                        source_slug,
                                        source_uuid,
                                        attachments,
                                    };
                                    Some((v, r5))
                                },
                                None => None,
                            },
                            None => None,
                        },
                        None => None,
                    },
                    None => None,
                },
                None => None,
            },
            None => None,
        }
    }

    open spec fn fits(v: SubmitIssueView) -> bool {
        &&& <String as Wire>::fits(v.title)
        &&& <String as Wire>::fits(v.body)
        &&& list_fits::<String>(v.labels)
        &&& <String as Wire>::fits(v.source_slug)
        &&& <String as Wire>::fits(v.source_uuid)
        &&& list_fits::<Attachment>(v.attachments)
    }

    proof fn read_back(v: SubmitIssueView, tail: Seq<u8>) {
        let t5 = tail;
        let t4 = list_wire::<Attachment>(v.attachments) + t5;
        let t3 = <String as Wire>::wire(v.source_uuid) + t4;
        let t2 = <String as Wire>::wire(v.source_slug) + t3;
        let t1 = list_wire::<String>(v.labels) + t2;
        let t0 = <String as Wire>::wire(v.body) + t1;
        assert(Self::wire(v) + tail == <String as Wire>::wire(v.title) + t0);
        <String as Wire>::read_back(v.title, t0);
        <String as Wire>::read_back(v.body, t1);
        list_read_back::<String>(v.labels, t2);
        <String as Wire>::read_back(v.source_slug, t3);
        <String as Wire>::read_back(v.source_uuid, t4);
        list_read_back::<Attachment>(v.attachments, t5);
    }

    fn put(&self, out: &mut Vec<u8>) -> (r: Result<(), postcard::Error>) {
        self.title.put(out)?;
        self.body.put(out)?;
        put_list(&self.labels, out)?;
        self.source_slug.put(out)?;
        self.source_uuid.put(out)?;
        put_list(&self.attachments, out)?;
        assert(out@ == old(out)@ + Self::wire(self@));
        Ok(())
    }

    fn take(bytes: &[u8]) -> (r: Result<(Self, &[u8]), postcard::Error>) {
        let (title, r0): (String, &[u8]) = match <String as Wire>::take(bytes) {
            Ok(p) => p,
            Err(e) => {
                return Err(e);
            },
        };
        let (body, r1): (String, &[u8]) = match <String as Wire>::take(r0) {
            Ok(p) => p,
            Err(e) => {
                return Err(e);
            },
        };
        let (labels, r2): (Vec<String>, &[u8]) = match take_list::<String>(r1) {
            Ok(p) => p,
            Err(e) => {
                return Err(e);
            },
        };
        let (source_slug, r3): (String, &[u8]) = match <String as Wire>::take(r2) {
            Ok(p) => p,
            Err(e) => {
                return Err(e);
            },
        };
        let (source_uuid, r4): (String, &[u8]) = match <String as Wire>::take(r3) {
            Ok(p) => p,
            Err(e) => {
                return Err(e);
            },
        };
        let (attachments, r5): (Vec<Attachment>, &[u8]) = match take_list::<Attachment>(r4) {
            Ok(p) => p,
            Err(e) => {
                return Err(e);
            },
        };
        Ok((SubmitIssue { title, body, labels, source_slug, source_uuid, attachments }, r5))
    }
}

/// Answers an issue that was submitted earlier, identified by `source_uuid`.
#[derive(Debug, Clone, PartialEq, Eq)]
pub struct SubmitAnswer {
    pub source_uuid: String,
    pub comments: Vec<AnswerComment>,
    pub attachments: Vec<Attachment>,
}

/// The contents of [`SubmitAnswer`].
#[verifier::ext_equal]
pub struct SubmitAnswerView {
    pub source_uuid: Seq<char>,
    pub comments: Seq<AnswerCommentView>,
    pub attachments: Seq<AttachmentView>,
}

impl View for SubmitAnswer {
    type V = SubmitAnswerView;

    open spec fn view(&self) -> SubmitAnswerView {
        SubmitAnswerView {
            source_uuid: self.source_uuid@,
            comments: views(self.comments@),
            attachments: views(self.attachments@),
        }
    }
}

impl Wire for SubmitAnswer {
    open spec fn wire(v: SubmitAnswerView) -> Seq<u8> {
        <String as Wire>::wire(v.source_uuid) + list_wire::<AnswerComment>(v.comments)
            + list_wire::<Attachment>(v.attachments)
    }

    open spec fn taken(bytes: Seq<u8>) -> Option<(SubmitAnswerView, Seq<u8>)> {
        match <String as Wire>::taken(bytes) {
            Some((source_uuid, r0)) => match list_taken::<AnswerComment>(r0) {
                Some((comments, r1)) => match list_taken::<Attachment>(r1) {
                    Some((attachments, r2)) => {
                        Some((SubmitAnswerView { source_uuid, comments, attachments }, r2))
                    },
                    None => None,
                },
                None => None,
            },
            None => None,
        }
    }

    open spec fn fits(v: SubmitAnswerView) -> bool {
        &&& <String as Wire>::fits(v.source_uuid)
        &&& list_fits::<AnswerComment>(v.comments)
        &&& list_fits::<Attachment>(v.attachments)
    }

    proof fn read_back(v: SubmitAnswerView, tail: Seq<u8>) {
        let t2 = tail;
        let t1 = list_wire::<Attachment>(v.attachments) + t2;
        let t0 = list_wire::<AnswerComment>(v.comments) + t1;
        assert(Self::wire(v) + tail == <String as Wire>::wire(v.source_uuid) + t0);
        <String as Wire>::read_back(v.source_uuid, t0);
        list_read_back::<AnswerComment>(v.comments, t1);
        list_read_back::<Attachment>(v.attachments, t2);
    }

    fn put(&self, out: &mut Vec<u8>) -> (r: Result<(), postcard::Error>) {
        self.source_uuid.put(out)?;
        put_list(&self.comments, out)?;
        put_list(&self.attachments, out)?;
        assert(out@ == old(out)@ + Self::wire(self@));
        Ok(())
    }

    fn take(bytes: &[u8]) -> (r: Result<(Self, &[u8]), postcard::Error>) {
        let (source_uuid, r0): (String, &[u8]) = match <String as Wire>::take(bytes) {
            Ok(p) => p,
            Err(e) => {
                return Err(e);
            },
        };
        let (comments, r1): (Vec<AnswerComment>, &[u8]) = match take_list::<AnswerComment>(r0) {
            Ok(p) => p,
            Err(e) => {
                return Err(e);
            },
        };
        let (attachments, r2): (Vec<Attachment>, &[u8]) = match take_list::<Attachment>(r1) {
            Ok(p) => p,
            Err(e) => {
                return Err(e);
            },
        };
        Ok((SubmitAnswer { source_uuid, comments, attachments }, r2))
    }
}

/// Supervisor to repo server: the reply to a `Register`.
#[derive(Debug, Clone, PartialEq, Eq)]
pub enum RegisterResponse {
    /// Registration accepted. `peers` are the slugs of the other servers of the group.
    Ack { peers: Vec<String> },
    /// Registration rejected, for instance because the slug is taken.
    Nack { reason: String },
}

/// The contents of [`RegisterResponse`].
#[verifier::ext_equal]
pub enum RegisterResponseView {
    Ack { peers: Seq<Seq<char>> },
    Nack { reason: Seq<char> },
}

impl View for RegisterResponse {
    type V = RegisterResponseView;

    open spec fn view(&self) -> RegisterResponseView {
        match self {
            RegisterResponse::Ack { peers } => RegisterResponseView::Ack { peers: views(peers@) },
            RegisterResponse::Nack { reason } => RegisterResponseView::Nack { reason: reason@ },
        }
    }
}

impl Wire for RegisterResponse {
    open spec fn wire(v: RegisterResponseView) -> Seq<u8> {
        match v {
            RegisterResponseView::Ack { peers } => varint(0) + list_wire::<String>(peers),
            RegisterResponseView::Nack { reason } => varint(1) + <String as Wire>::wire(reason),
        }
    }

    open spec fn taken(bytes: Seq<u8>) -> Option<(RegisterResponseView, Seq<u8>)> {
        match varint_taken(bytes, 5, 15) {
            Some((tag, rest)) => if tag == 0 {
                match list_taken::<String>(rest) {
                    Some((peers, r0)) => Some((RegisterResponseView::Ack { peers }, r0)),
                    None => None,
                }
            } else if tag == 1 {
                match <String as Wire>::taken(rest) {
                    Some((reason, r0)) => Some((RegisterResponseView::Nack { reason }, r0)),
                    None => None,
                }
            } else {
                None
            },
            None => None,
        }
    }

    open spec fn fits(v: RegisterResponseView) -> bool {
        match v {
            RegisterResponseView::Ack { peers } => list_fits::<String>(peers),
            RegisterResponseView::Nack { reason } => <String as Wire>::fits(reason),
        }
    }

    proof fn read_back(v: RegisterResponseView, tail: Seq<u8>) {
        match v {
            RegisterResponseView::Ack { peers } => {
                tag_read_back(0, list_wire::<String>(peers) + tail);
                assert(Self::wire(v) + tail == varint(0) + (list_wire::<String>(peers) + tail));
                list_read_back::<String>(peers, tail);
            },
            RegisterResponseView::Nack { reason } => {
                tag_read_back(1, <String as Wire>::wire(reason) + tail);
                assert(Self::wire(v) + tail == varint(1) + (<String as Wire>::wire(reason) + tail));
                <String as Wire>::read_back(reason, tail);
            },
        }
    }

    fn put(&self, out: &mut Vec<u8>) -> (r: Result<(), postcard::Error>) {
        match self {
            RegisterResponse::Ack { peers } => {
                put_tag(0, out)?;
                put_list(peers, out)?;
            },
            RegisterResponse::Nack { reason } => {
                put_tag(1, out)?;
                reason.put(out)?;
            },
        }
        assert(out@ == old(out)@ + Self::wire(self@));
        Ok(())
    }

    fn take(bytes: &[u8]) -> (r: Result<(Self, &[u8]), postcard::Error>) {
        let (tag, rest): (u32, &[u8]) = match u32_from(bytes) {
            Ok(p) => p,
            Err(e) => {
                return Err(e);
            },
        };
        if tag == 0 {
            match take_list::<String>(rest) {
                Ok((peers, behind)) => Ok((RegisterResponse::Ack { peers }, behind)),
                Err(e) => Err(e),
            }
        } else if tag == 1 {
            match <String as Wire>::take(rest) {
                Ok((reason, behind)) => Ok((RegisterResponse::Nack { reason }, behind)),
                Err(e) => Err(e),
            }
        } else {
            Err(no_such_variant())
        }
    }
}

/// Supervisor to repo server: a change in the group.
#[derive(Debug, Clone, PartialEq, Eq)]
pub enum Notification {
    /// A server has joined.
    PeerJoined { slug: String },
    /// A server has left.
    PeerLeft { slug: String },
}

/// The contents of [`Notification`].
#[verifier::ext_equal]
pub enum NotificationView {
    PeerJoined { slug: Seq<char> },
    PeerLeft { slug: Seq<char> },
}

impl View for Notification {
    type V = NotificationView;

    open spec fn view(&self) -> NotificationView {
        match self {
            Notification::PeerJoined { slug } => NotificationView::PeerJoined { slug: slug@ },
            Notification::PeerLeft { slug } => NotificationView::PeerLeft { slug: slug@ },
        }
    }
}

impl Wire for Notification {
    open spec fn wire(v: NotificationView) -> Seq<u8> {
        match v {
            NotificationView::PeerJoined { slug } => varint(0) + <String as Wire>::wire(slug),
            NotificationView::PeerLeft { slug } => varint(1) + <String as Wire>::wire(slug),
        }
    }

    open spec fn taken(bytes: Seq<u8>) -> Option<(NotificationView, Seq<u8>)> {
        match varint_taken(bytes, 5, 15) {
            Some((tag, rest)) => if tag == 0 {
                match <String as Wire>::taken(rest) {
                    Some((slug, r0)) => Some((NotificationView::PeerJoined { slug }, r0)),
                    None => None,
                }
            } else if tag == 1 {
                match <String as Wire>::taken(rest) {
                    Some((slug, r0)) => Some((NotificationView::PeerLeft { slug }, r0)),
                    None => None,
                }
            } else {
                None
            },
            None => None,
        }
    }

    open spec fn fits(v: NotificationView) -> bool {
        match v {
            NotificationView::PeerJoined { slug } => <String as Wire>::fits(slug),
            NotificationView::PeerLeft { slug } => <String as Wire>::fits(slug),
        }
    }

    proof fn read_back(v: NotificationView, tail: Seq<u8>) {
        match v {
            NotificationView::PeerJoined { slug } => {
                tag_read_back(0, <String as Wire>::wire(slug) + tail);
                assert(Self::wire(v) + tail == varint(0) + (<String as Wire>::wire(slug) + tail));
                <String as Wire>::read_back(slug, tail);
            },
            NotificationView::PeerLeft { slug } => {
                tag_read_back(1, <String as Wire>::wire(slug) + tail);
                assert(Self::wire(v) + tail == varint(1) + (<String as Wire>::wire(slug) + tail));
                <String as Wire>::read_back(slug, tail);
            },
        }
    }

    fn put(&self, out: &mut Vec<u8>) -> (r: Result<(), postcard::Error>) {
        match self {
            Notification::PeerJoined { slug } => {
                put_tag(0, out)?;
                slug.put(out)?;
            },
            Notification::PeerLeft { slug } => {
                put_tag(1, out)?;
                slug.put(out)?;
            },
        }
        assert(out@ == old(out)@ + Self::wire(self@));
        Ok(())
    }

    fn take(bytes: &[u8]) -> (r: Result<(Self, &[u8]), postcard::Error>) {
        let (tag, rest): (u32, &[u8]) = match u32_from(bytes) {
            Ok(p) => p,
            Err(e) => {
                return Err(e);
            },
        };
        if tag == 0 {
            match <String as Wire>::take(rest) {
                Ok((slug, behind)) => Ok((Notification::PeerJoined { slug }, behind)),
                Err(e) => Err(e),
            }
        } else if tag == 1 {
            match <String as Wire>::take(rest) {
                Ok((slug, behind)) => Ok((Notification::PeerLeft { slug }, behind)),
                Err(e) => Err(e),
            }
        } else {
            Err(no_such_variant())
        }
    }
}

/// What travels from the supervisor to a repo server.
#[derive(Debug, Clone, PartialEq, Eq)]
pub enum SupervisorMessage {
    RegisterResponse(RegisterResponse),
    Notification(Notification),
}

/// The contents of [`SupervisorMessage`].
#[verifier::ext_equal]
pub enum SupervisorMessageView {
    RegisterResponse(RegisterResponseView),
    Notification(NotificationView),
}

impl View for SupervisorMessage {
    type V = SupervisorMessageView;

    open spec fn view(&self) -> SupervisorMessageView {
        match self {
            SupervisorMessage::RegisterResponse(m) => SupervisorMessageView::RegisterResponse(m@),
            SupervisorMessage::Notification(m) => SupervisorMessageView::Notification(m@),
        }
    }
}

impl Wire for SupervisorMessage {
    open spec fn wire(v: SupervisorMessageView) -> Seq<u8> {
        match v {
            SupervisorMessageView::RegisterResponse(m) => varint(0)
                + <RegisterResponse as Wire>::wire(m),
            SupervisorMessageView::Notification(m) => varint(1) + <Notification as Wire>::wire(m),
        }
    }

    open spec fn taken(bytes: Seq<u8>) -> Option<(SupervisorMessageView, Seq<u8>)> {
        match varint_taken(bytes, 5, 15) {
            Some((tag, rest)) => if tag == 0 {
                match <RegisterResponse as Wire>::taken(rest) {
                    Some((m, r0)) => Some((SupervisorMessageView::RegisterResponse(m), r0)),
                    None => None,
                }
            } else if tag == 1 {
                match <Notification as Wire>::taken(rest) {
                    Some((m, r0)) => Some((SupervisorMessageView::Notification(m), r0)),
                    None => None,
                }
            } else {
                None
            },
            None => None,
        }
    }

    open spec fn fits(v: SupervisorMessageView) -> bool {
        match v {
            SupervisorMessageView::RegisterResponse(m) => <RegisterResponse as Wire>::fits(m),
            SupervisorMessageView::Notification(m) => <Notification as Wire>::fits(m),
        }
    }

    proof fn read_back(v: SupervisorMessageView, tail: Seq<u8>) {
        match v {
            SupervisorMessageView::RegisterResponse(m) => {
                tag_read_back(0, <RegisterResponse as Wire>::wire(m) + tail);
                assert(Self::wire(v) + tail == varint(0) + (<RegisterResponse as Wire>::wire(m)
                    + tail));
                <RegisterResponse as Wire>::read_back(m, tail);
            },
            SupervisorMessageView::Notification(m) => {
                tag_read_back(1, <Notification as Wire>::wire(m) + tail);
                assert(Self::wire(v) + tail == varint(1) + (<Notification as Wire>::wire(m)
                    + tail));
                <Notification as Wire>::read_back(m, tail);
            },
        }
    }

    fn put(&self, out: &mut Vec<u8>) -> (r: Result<(), postcard::Error>) {
        match self {
            SupervisorMessage::RegisterResponse(m) => {
                put_tag(0, out)?;
                m.put(out)?;
            },
            SupervisorMessage::Notification(m) => {
                put_tag(1, out)?;
                m.put(out)?;
            },
        }
        assert(out@ == old(out)@ + Self::wire(self@));
        Ok(())
    }

    fn take(bytes: &[u8]) -> (r: Result<(Self, &[u8]), postcard::Error>) {
        let (tag, rest): (u32, &[u8]) = match u32_from(bytes) {
            Ok(p) => p,
            Err(e) => {
                return Err(e);
            },
        };
        if tag == 0 {
            match <RegisterResponse as Wire>::take(rest) {
                Ok((m, behind)) => Ok((SupervisorMessage::RegisterResponse(m), behind)),
                Err(e) => Err(e),
            }
        } else if tag == 1 {
            match <Notification as Wire>::take(rest) {
                Ok((m, behind)) => Ok((SupervisorMessage::Notification(m), behind)),
                Err(e) => Err(e),
            }
        } else {
            Err(no_such_variant())
        }
    }
}

/// Client to repo server: one request on a per-peer socket.
#[derive(Debug, Clone, PartialEq, Eq)]
pub enum ClientRequest {
    Submit(SubmitIssue),
    Answer(SubmitAnswer),
}

/// The contents of [`ClientRequest`].
#[verifier::ext_equal]
pub enum ClientRequestView {
    Submit(SubmitIssueView),
    Answer(SubmitAnswerView),
}

impl View for ClientRequest {
    type V = ClientRequestView;

    open spec fn view(&self) -> ClientRequestView {
        match self {
            ClientRequest::Submit(m) => ClientRequestView::Submit(m@),
            ClientRequest::Answer(m) => ClientRequestView::Answer(m@),
        }
    }
}

impl Wire for ClientRequest {
    open spec fn wire(v: ClientRequestView) -> Seq<u8> {
        match v {
            ClientRequestView::Submit(m) => varint(0) + <SubmitIssue as Wire>::wire(m),
            ClientRequestView::Answer(m) => varint(1) + <SubmitAnswer as Wire>::wire(m),
        }
    }

    open spec fn taken(bytes: Seq<u8>) -> Option<(ClientRequestView, Seq<u8>)> {
        match varint_taken(bytes, 5, 15) {
            Some((tag, rest)) => if tag == 0 {
                match <SubmitIssue as Wire>::taken(rest) {
                    Some((m, r0)) => Some((ClientRequestView::Submit(m), r0)),
                    None => None,
                }
            } else if tag == 1 {
                match <SubmitAnswer as Wire>::taken(rest) {
                    Some((m, r0)) => Some((ClientRequestView::Answer(m), r0)),
                    None => None,
                }
            } else {
                None
            },
            None => None,
        }
    }

    open spec fn fits(v: ClientRequestView) -> bool {
        match v {
            ClientRequestView::Submit(m) => <SubmitIssue as Wire>::fits(m),
            ClientRequestView::Answer(m) => <SubmitAnswer as Wire>::fits(m),
        }
    }

    proof fn read_back(v: ClientRequestView, tail: Seq<u8>) {
        match v {
            ClientRequestView::Submit(m) => {
                tag_read_back(0, <SubmitIssue as Wire>::wire(m) + tail);
                assert(Self::wire(v) + tail == varint(0) + (<SubmitIssue as Wire>::wire(m) + tail));
                <SubmitIssue as Wire>::read_back(m, tail);
            },
            ClientRequestView::Answer(m) => {
                tag_read_back(1, <SubmitAnswer as Wire>::wire(m) + tail);
                assert(Self::wire(v) + tail == varint(1) + (<SubmitAnswer as Wire>::wire(m)
                    + tail));
                <SubmitAnswer as Wire>::read_back(m, tail);
            },
        }
    }

    fn put(&self, out: &mut Vec<u8>) -> (r: Result<(), postcard::Error>) {
        match self {
            ClientRequest::Submit(m) => {
                put_tag(0, out)?;
                m.put(out)?;
            },
            ClientRequest::Answer(m) => {
                put_tag(1, out)?;
                m.put(out)?;
            },
        }
        assert(out@ == old(out)@ + Self::wire(self@));
        Ok(())
    }

    fn take(bytes: &[u8]) -> (r: Result<(Self, &[u8]), postcard::Error>) {
        let (tag, rest): (u32, &[u8]) = match u32_from(bytes) {
            Ok(p) => p,
            Err(e) => {
                return Err(e);
            },
        };
        if tag == 0 {
            match <SubmitIssue as Wire>::take(rest) {
                Ok((m, behind)) => Ok((ClientRequest::Submit(m), behind)),
                Err(e) => Err(e),
            }
        } else if tag == 1 {
            match <SubmitAnswer as Wire>::take(rest) {
                Ok((m, behind)) => Ok((ClientRequest::Answer(m), behind)),
                Err(e) => Err(e),
            }
        } else {
            Err(no_such_variant())
        }
    }
}

/// Repo server to client: the reply to a `ClientRequest`.
#[derive(Debug, Clone, PartialEq, Eq)]
pub enum ServerResponse {
    /// The request was carried out on the issue `issue_id`.
    Success { issue_id: i64 },
    /// The request failed.
    Error { message: String },
}

/// The contents of [`ServerResponse`].
#[verifier::ext_equal]
pub enum ServerResponseView {
    Success { issue_id: i64 },
    Error { message: Seq<char> },
}

impl View for ServerResponse {
    type V = ServerResponseView;

    open spec fn view(&self) -> ServerResponseView {
        match self {
            ServerResponse::Success { issue_id } => ServerResponseView::Success {
                issue_id: *issue_id,
            },
            ServerResponse::Error { message } => ServerResponseView::Error { message: message@ },
        }
    }
}

impl Wire for ServerResponse {
    open spec fn wire(v: ServerResponseView) -> Seq<u8> {
        match v {
            ServerResponseView::Success { issue_id } => varint(0) + <i64 as Wire>::wire(issue_id),
            ServerResponseView::Error { message } => varint(1) + <String as Wire>::wire(message),
        }
    }

    open spec fn taken(bytes: Seq<u8>) -> Option<(ServerResponseView, Seq<u8>)> {
        match varint_taken(bytes, 5, 15) {
            Some((tag, rest)) => if tag == 0 {
                match <i64 as Wire>::taken(rest) {
                    Some((issue_id, r0)) => Some((ServerResponseView::Success { issue_id }, r0)),
                    None => None,
                }
            } else if tag == 1 {
                match <String as Wire>::taken(rest) {
                    Some((message, r0)) => Some((ServerResponseView::Error { message }, r0)),
                    None => None,
                }
            } else {
                None
            },
            None => None,
        }
    }

    open spec fn fits(v: ServerResponseView) -> bool {
        match v {
            ServerResponseView::Success { issue_id } => <i64 as Wire>::fits(issue_id),
            ServerResponseView::Error { message } => <String as Wire>::fits(message),
        }
    }

    proof fn read_back(v: ServerResponseView, tail: Seq<u8>) {
        match v {
            ServerResponseView::Success { issue_id } => {
                tag_read_back(0, <i64 as Wire>::wire(issue_id) + tail);
                assert(Self::wire(v) + tail == varint(0) + (<i64 as Wire>::wire(issue_id) + tail));
                <i64 as Wire>::read_back(issue_id, tail);
            },
            ServerResponseView::Error { message } => {
                tag_read_back(1, <String as Wire>::wire(message) + tail);
                assert(Self::wire(v) + tail == varint(1) + (<String as Wire>::wire(message)
                    + tail));
                <String as Wire>::read_back(message, tail);
            },
        }
    }

    fn put(&self, out: &mut Vec<u8>) -> (r: Result<(), postcard::Error>) {
        match self {
            ServerResponse::Success { issue_id } => {
                put_tag(0, out)?;
                issue_id.put(out)?;
            },
            ServerResponse::Error { message } => {
                put_tag(1, out)?;
                message.put(out)?;
            },
        }
        assert(out@ == old(out)@ + Self::wire(self@));
        Ok(())
    }

    fn take(bytes: &[u8]) -> (r: Result<(Self, &[u8]), postcard::Error>) {
        let (tag, rest): (u32, &[u8]) = match u32_from(bytes) {
            Ok(p) => p,
            Err(e) => {
                return Err(e);
            },
        };
        if tag == 0 {
            match <i64 as Wire>::take(rest) {
                Ok((issue_id, behind)) => Ok((ServerResponse::Success { issue_id }, behind)),
                Err(e) => Err(e),
            }
        } else if tag == 1 {
            match <String as Wire>::take(rest) {
                Ok((message, behind)) => Ok((ServerResponse::Error { message }, behind)),
                Err(e) => Err(e),
            }
        } else {
            Err(no_such_variant())
        }
    }
}

} // verus!
