//! The messages, their bytes, and the frames that carry them.

use std::io::Cursor;

use crossbridge::codec::Wire;
use crossbridge::framing::{
    announced_len, check_incoming_len, decode, encode, encode_frame, ended_after,
    read_message_sync, write_message_sync, ByteReader, Error, IoFault, MAX_FRAME_SIZE,
};
use crossbridge::messages::{
    AnswerComment, Attachment, ClientRequest, Notification, Register, RegisterResponse,
    ServerResponse, SubmitAnswer, SubmitIssue, SupervisorMessage,
};
use tokio::io::{AsyncRead, AsyncReadExt, AsyncWrite, AsyncWriteExt};

fn sample_register() -> Register {
    Register { slug: "firmware".into(), group: "amd-psp".into() }
}

fn sample_submit() -> SubmitIssue {
    SubmitIssue {
        title: "Found a bug".into(),
        body: "Coverage map attached.".into(),
        labels: vec!["bug".into(), "fuzz".into()],
        source_slug: "fuzzer".into(),
        source_uuid: "abcd-1234".into(),
        attachments: vec![Attachment {
            filename: "coverage.bin".into(),
            data: vec![0xDE, 0xAD, 0xBE, 0xEF],
        }],
    }
}

fn sample_answer() -> SubmitAnswer {
    SubmitAnswer {
        source_uuid: "abcd-1234".into(),
        comments: vec![AnswerComment {
            content: "Fixed in 0x1234".into(),
            kind: "result".into(),
        }],
        attachments: vec![],
    }
}

fn roundtrip<T: Wire + PartialEq + std::fmt::Debug>(value: &T) {
    let bytes = encode(value).unwrap();
    let decoded: T = decode(&bytes).unwrap();
    assert_eq!(value, &decoded);
}

async fn write_message<W: AsyncWrite + Unpin, T: Wire>(w: &mut W, msg: &T) -> Result<(), Error> {
    let frame = encode_frame(msg)?;
    w.write_all(&frame).await.map_err(fault)
}

async fn read_message<R: AsyncRead + Unpin, T: Wire>(r: &mut R) -> Result<T, Error> {
    let mut header = [0u8; 4];
    let mut count = 0;
    while count < header.len() {
        match r.read(&mut header[count..]).await.map_err(fault)? {
            0 => return Err(ended_after(count, "early eof")),
            n => count += n,
        }
    }
    let mut payload = vec![0u8; announced_len(&header)?];
    r.read_exact(&mut payload).await.map_err(fault)?;
    decode(&payload)
}

fn fault(e: std::io::Error) -> Error {
    Error::Io(IoFault {
        clean_end: false,
        text: e.to_string(),
    })
}

fn block_on<F: std::future::Future>(f: F) -> F::Output {
    tokio::runtime::Builder::new_current_thread().build().unwrap().block_on(f)
}

#[test]
fn register_roundtrip() {
    roundtrip(&sample_register());
}

#[test]
fn register_response_variants_roundtrip() {
    roundtrip(&RegisterResponse::Ack { peers: vec!["a".into(), "b".into()] });
    roundtrip(&RegisterResponse::Nack { reason: "slug taken".into() });
}

#[test]
fn notification_roundtrip() {
    roundtrip(&Notification::PeerJoined { slug: "x".into() });
    roundtrip(&Notification::PeerLeft { slug: "y".into() });
}

#[test]
fn supervisor_message_discrimination() {
    let ack = SupervisorMessage::RegisterResponse(RegisterResponse::Ack { peers: vec![] });
    let notif = SupervisorMessage::Notification(Notification::PeerJoined { slug: "x".into() });
    roundtrip(&ack);
    roundtrip(&notif);

    let ack_bytes = encode(&ack).unwrap();
    let notif_bytes = encode(&notif).unwrap();
    assert_ne!(
        ack_bytes[0], notif_bytes[0],
        "outer enum variants must use distinct postcard tags"
    );
}

#[test]
fn client_request_roundtrip() {
    roundtrip(&ClientRequest::Submit(sample_submit()));
    roundtrip(&ClientRequest::Answer(sample_answer()));
}

#[test]
fn server_response_roundtrip() {
    roundtrip(&ServerResponse::Success { issue_id: 42 });
    roundtrip(&ServerResponse::Error { message: "nope".into() });
}

#[test]
fn sync_framing_roundtrip() {
    let mut buf: Vec<u8> = Vec::new();
    let msg = ClientRequest::Submit(sample_submit());
    write_message_sync(&mut buf, &msg).unwrap();

    // The length prefix is four bytes, big-endian, and counts the payload.
    let payload_len = encode(&msg).unwrap().len();
    let prefix = u32::from_be_bytes(buf[..4].try_into().unwrap()) as usize;
    assert_eq!(prefix, payload_len);
    assert_eq!(buf.len(), 4 + payload_len);

    let mut reader = ByteReader::new(buf);
    let decoded: ClientRequest = read_message_sync(&mut reader).unwrap();
    assert_eq!(decoded, msg);
}

#[test]
fn sync_framing_back_to_back() {
    let mut buf: Vec<u8> = Vec::new();
    let a = SupervisorMessage::RegisterResponse(RegisterResponse::Ack {
        peers: vec!["p1".into()],
    });
    let b = SupervisorMessage::Notification(Notification::PeerJoined { slug: "p2".into() });
    write_message_sync(&mut buf, &a).unwrap();
    write_message_sync(&mut buf, &b).unwrap();

    let mut reader = ByteReader::new(buf);
    let got_a: SupervisorMessage = read_message_sync(&mut reader).unwrap();
    let got_b: SupervisorMessage = read_message_sync(&mut reader).unwrap();
    assert_eq!(got_a, a);
    assert_eq!(got_b, b);
}

#[test]
fn sync_read_rejects_oversize_frame() {
    let mut buf: Vec<u8> = Vec::new();
    let oversize = (MAX_FRAME_SIZE as u32 + 1).to_be_bytes();
    buf.extend_from_slice(&oversize);
    let mut reader = ByteReader::new(buf);
    let err = read_message_sync::<Register>(&mut reader).unwrap_err();
    assert!(matches!(err, Error::FrameTooLarge { .. }));
}

#[test]
fn sync_write_rejects_oversize_payload() {
    let big = Attachment { filename: "big".into(), data: vec![0u8; MAX_FRAME_SIZE + 1] };
    let mut sink: Vec<u8> = Vec::new();
    let err = write_message_sync(&mut sink, &big).unwrap_err();
    assert!(matches!(err, Error::FrameTooLarge { .. }));
    assert!(sink.is_empty());
}

#[test]
fn sync_read_short_input_is_io_error() {
    // Only three bytes, the prefix needs four.
    let mut reader = ByteReader::new(vec![0u8, 0, 0]);
    let err = read_message_sync::<Register>(&mut reader).unwrap_err();
    assert!(matches!(err, Error::Io(_)));
}

#[test]
fn async_framing_roundtrip() {
    block_on(async {
        let msg = ClientRequest::Answer(sample_answer());
        let mut buf: Vec<u8> = Vec::new();
        write_message(&mut buf, &msg).await.unwrap();

        let mut cursor = Cursor::new(buf);
        let decoded: ClientRequest = read_message(&mut cursor).await.unwrap();
        assert_eq!(decoded, msg);
    });
}

#[test]
fn async_framing_back_to_back() {
    block_on(async {
        let a = ServerResponse::Success { issue_id: 1 };
        let b = ServerResponse::Error { message: "boom".into() };
        let mut buf: Vec<u8> = Vec::new();
        write_message(&mut buf, &a).await.unwrap();
        write_message(&mut buf, &b).await.unwrap();

        let mut cursor = Cursor::new(buf);
        let got_a: ServerResponse = read_message(&mut cursor).await.unwrap();
        let got_b: ServerResponse = read_message(&mut cursor).await.unwrap();
        assert_eq!(got_a, a);
        assert_eq!(got_b, b);
    });
}

#[test]
fn async_read_rejects_oversize_frame() {
    block_on(async {
        let mut buf: Vec<u8> = Vec::new();
        let oversize = (MAX_FRAME_SIZE as u32 + 1).to_be_bytes();
        buf.extend_from_slice(&oversize);
        let mut cursor = Cursor::new(buf);
        let err = read_message::<_, Register>(&mut cursor).await.unwrap_err();
        assert!(matches!(err, Error::FrameTooLarge { .. }));
    });
}

#[test]
fn sync_and_async_wire_compatible() {
    // A frame written to memory reads back from a stream: the bytes are the same.
    let msg = SupervisorMessage::Notification(Notification::PeerJoined { slug: "z".into() });
    let mut buf: Vec<u8> = Vec::new();
    write_message_sync(&mut buf, &msg).unwrap();

    let decoded: SupervisorMessage = block_on(async {
        let mut cursor = Cursor::new(buf);
        read_message(&mut cursor).await.unwrap()
    });
    assert_eq!(decoded, msg);
}

// A struct's fields follow each other as a tuple's do, and a variant is its number
// in front of its fields, so `postcard` itself gives the expected bytes.

#[test]
fn bytes_are_those_of_postcard() {
    assert_eq!(
        encode(&sample_register()).unwrap(),
        postcard::to_stdvec(&("firmware", "amd-psp")).unwrap()
    );
    assert_eq!(
        encode(&RegisterResponse::Ack { peers: vec!["a".into(), "b".into()] }).unwrap(),
        postcard::to_stdvec(&(0u32, vec!["a", "b"])).unwrap()
    );
    assert_eq!(
        encode(&SupervisorMessage::Notification(Notification::PeerLeft { slug: "y".into() }))
            .unwrap(),
        postcard::to_stdvec(&(1u32, 1u32, "y")).unwrap()
    );
    assert_eq!(
        encode(&ClientRequest::Submit(sample_submit())).unwrap(),
        postcard::to_stdvec(&(
            0u32,
            "Found a bug",
            "Coverage map attached.",
            vec!["bug", "fuzz"],
            "fuzzer",
            "abcd-1234",
            vec![("coverage.bin", vec![0xDEu8, 0xAD, 0xBE, 0xEF])],
        ))
        .unwrap()
    );
    assert_eq!(
        encode(&ClientRequest::Answer(sample_answer())).unwrap(),
        postcard::to_stdvec(&(
            1u32,
            "abcd-1234",
            vec![("Fixed in 0x1234", "result")],
            Vec::<(String, Vec<u8>)>::new(),
        ))
        .unwrap()
    );
}

#[test]
fn numbers_are_folded_and_spread() {
    for id in [0i64, -1, 1, 63, -64, 64, 300, -300, i64::MAX, i64::MIN] {
        let msg = ServerResponse::Success { issue_id: id };
        assert_eq!(encode(&msg).unwrap(), postcard::to_stdvec(&(0u32, id)).unwrap());
        roundtrip(&msg);
    }
    // 300 folds to 600, which is 0x58 and 4 in groups of seven bits.
    assert_eq!(
        encode(&ServerResponse::Success { issue_id: 300 }).unwrap(),
        vec![0, 0xd8, 0x04]
    );
}

#[test]
fn long_texts_and_lists_roundtrip() {
    let peers: Vec<String> = (0..300).map(|i| format!("peer-{i}-größe")).collect();
    roundtrip(&RegisterResponse::Ack { peers });
    roundtrip(&Attachment { filename: "ü".into(), data: (0..=255u8).cycle().take(70_000).collect() });
}

#[test]
fn malformed_payloads_are_postcard_errors() {
    // No such variant.
    assert!(matches!(decode::<ServerResponse>(&[7]), Err(Error::Postcard(_))));
    // Nothing at all, a text that is cut short, a text that is not UTF-8.
    assert!(matches!(decode::<Register>(&[]), Err(Error::Postcard(_))));
    assert!(matches!(decode::<Register>(&[5, b'a']), Err(Error::Postcard(_))));
    assert!(matches!(decode::<Register>(&[1, 0xff, 0]), Err(Error::Postcard(_))));
    // A number of more than five groups for a variant.
    assert!(matches!(
        decode::<ServerResponse>(&[0x80, 0x80, 0x80, 0x80, 0x80, 0x00]),
        Err(Error::Postcard(_))
    ));
}

#[test]
fn bytes_behind_a_message_are_ignored() {
    let mut bytes = encode(&sample_register()).unwrap();
    bytes.extend_from_slice(b"more");
    assert_eq!(decode::<Register>(&bytes).unwrap(), sample_register());
}

#[test]
fn a_frame_is_its_length_and_its_payload() {
    let frame = encode_frame(&sample_register()).unwrap();
    assert_eq!(&frame[..4], &[0, 0, 0, 17]);
    assert_eq!(announced_len(&frame).unwrap(), 17);
    assert_eq!(&frame[4..], &encode(&sample_register()).unwrap()[..]);
    assert_eq!(announced_len(&[0x00, 0xff, 0x01, 0x02]).unwrap(), 0xff0102);
}

#[test]
fn the_largest_frame_is_accepted() {
    assert!(check_incoming_len(MAX_FRAME_SIZE).is_ok());
    assert!(matches!(
        check_incoming_len(MAX_FRAME_SIZE + 1),
        Err(Error::FrameTooLarge { size: 16_777_217, max: 16_777_216 })
    ));
}

#[test]
fn errors_in_words() {
    let e = check_incoming_len(MAX_FRAME_SIZE + 1).unwrap_err();
    assert_eq!(e.text(), "frame too large: 16777217 bytes (max 16777216)");

    let mut reader = ByteReader::new(vec![0, 0, 0, 9, 1, 2]);
    let e = read_message_sync::<Register>(&mut reader).unwrap_err();
    assert_eq!(e.text(), "io error: failed to fill whole buffer");

    let e = decode::<Register>(&[]).unwrap_err();
    let words = postcard::from_bytes::<u8>(&[]).unwrap_err().to_string();
    assert_eq!(e.text(), format!("postcard error: {words}"));
}

#[test]
fn a_short_read_says_so() {
    for (bytes, clean) in [(vec![], true), (vec![0, 0], false), (vec![0, 0, 0, 5, 1], false)] {
        let mut reader = ByteReader::new(bytes.clone());
        match read_message_sync::<Register>(&mut reader) {
            Err(Error::Io(f)) => assert_eq!(f.clean_end, clean),
            other => panic!("got {other:?}"),
        }
        match block_on(read_message::<_, Register>(&mut Cursor::new(bytes))) {
            Err(Error::Io(f)) => assert_eq!(f.clean_end, clean),
            other => panic!("got {other:?}"),
        }
    }
}
