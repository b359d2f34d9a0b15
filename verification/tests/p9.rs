use firmware::p9::{
    attach, check_reply, clunk, frame, getattr, next_read, next_tag, open, parse_header, read,
    recv_getattr, recv_read, recv_version, version, walk, Header, ProtocolError, Qid,
};

#[test]
fn version_request() {
    let mut expected = vec![21, 0, 0, 0, 100, 0xff, 0xff, 0, 0, 1, 0, 8, 0];
    expected.extend_from_slice(b"9P2000.L");
    assert_eq!(version(), expected);
}

#[test]
fn requests_are_framed() {
    assert_eq!(frame(7, 0x0102, &[]), vec![7, 0, 0, 0, 7, 2, 1]);
    assert_eq!(frame(9, 1, &[0xaa, 0xbb]), vec![9, 0, 0, 0, 9, 1, 0, 0xaa, 0xbb]);
    assert_eq!(clunk(3, 0x0a0b_0c0d), vec![11, 0, 0, 0, 120, 3, 0, 0x0d, 0x0c, 0x0b, 0x0a]);
    assert_eq!(
        open(4, 1, 0x8000),
        vec![15, 0, 0, 0, 12, 4, 0, 1, 0, 0, 0, 0, 0x80, 0, 0]
    );
    assert_eq!(
        getattr(5, 1, 0x0102_0304_0506_0708),
        vec![19, 0, 0, 0, 24, 5, 0, 1, 0, 0, 0, 8, 7, 6, 5, 4, 3, 2, 1]
    );
    assert_eq!(
        read(6, 1, 0x1_0000_0000, 4096),
        vec![23, 0, 0, 0, 116, 6, 0, 1, 0, 0, 0, 0, 0, 0, 0, 1, 0, 0, 0, 0, 0x10, 0, 0]
    );
}

#[test]
fn attach_and_walk() {
    let mut expected = vec![29, 0, 0, 0, 104, 1, 0, 0, 0, 0, 0, 0xff, 0xff, 0xff, 0xff];
    expected.extend_from_slice(&[4, 0]);
    expected.extend_from_slice(b"root");
    expected.extend_from_slice(&[2, 0]);
    expected.extend_from_slice(b"/x");
    expected.extend_from_slice(&[0xff; 4]);
    assert_eq!(attach(1, 0, b"root", b"/x"), expected);

    let names = vec![b"boot".to_vec(), b"vmlinux".to_vec()];
    let mut walked = vec![32, 0, 0, 0, 110, 2, 0, 0, 0, 0, 0, 1, 0, 0, 0, 2, 0];
    walked.extend_from_slice(&[4, 0]);
    walked.extend_from_slice(b"boot");
    walked.extend_from_slice(&[7, 0]);
    walked.extend_from_slice(b"vmlinux");
    assert_eq!(walk(2, 0, 1, &names), walked);
    assert_eq!(walk(2, 0, 1, &vec![]), vec![17, 0, 0, 0, 110, 2, 0, 0, 0, 0, 0, 1, 0, 0, 0, 0, 0]);
}

#[test]
fn tags_wrap() {
    assert_eq!(next_tag(0), 1);
    assert_eq!(next_tag(0xfffe), 0xffff);
    assert_eq!(next_tag(0xffff), 0);
}

#[test]
fn replies_are_checked() {
    assert_eq!(
        parse_header(&[0x0b, 0x01, 0, 0, 117, 0x34, 0x12, 9, 9]),
        Header { length: 0x10b, msg: 117, tag: 0x1234 }
    );
    assert_eq!(check_reply(105, 105, &[]), Ok(()));
    assert_eq!(check_reply(105, 7, &[2, 0, 0, 0]), Err(ProtocolError::Server(2)));
    assert_eq!(check_reply(105, 7, &[2, 0, 0]), Err(ProtocolError::Malformed));
    assert_eq!(check_reply(105, 111, &[2, 0, 0, 0]), Err(ProtocolError::Malformed));
}

#[test]
fn granted_message_size() {
    assert_eq!(recv_version(&[0, 0x20, 0, 0, 8, 0]), Ok(0x2000 - 24));
    assert_eq!(recv_version(&[0, 0, 1, 0]), Ok(65536 - 24));
    assert_eq!(recv_version(&[0, 0, 2, 0]), Ok(65536 - 24));
    assert_eq!(recv_version(&[24, 0, 0, 0]), Ok(0));
    assert_eq!(recv_version(&[23, 0, 0, 0]), Err(ProtocolError::Malformed));
    assert_eq!(recv_version(&[1, 2, 3]), Err(ProtocolError::Malformed));
}

#[test]
fn read_replies() {
    assert_eq!(recv_read(&[11 + 5, 0, 0, 0, 117, 1, 0, 5, 0, 0, 0]), Ok(5));
    assert_eq!(recv_read(&[11, 0, 0, 0, 117, 1, 0, 0, 0, 0, 0]), Ok(0));
    assert_eq!(recv_read(&[11 + 4, 0, 0, 0, 117, 1, 0, 5, 0, 0, 0]), Err(ProtocolError::Malformed));
    assert_eq!(recv_read(&[11, 0, 0, 0, 7, 1, 0, 13, 0, 0, 0]), Err(ProtocolError::Server(13)));
    assert_eq!(recv_read(&[11, 0, 0, 0, 121, 1, 0, 0, 0, 0, 0]), Err(ProtocolError::Malformed));
    assert_eq!(
        recv_read(&[10, 0, 0, 0, 117, 1, 0, 0xff, 0xff, 0xff, 0xff]),
        Err(ProtocolError::Malformed)
    );
}

#[test]
fn attributes() {
    let mut body = vec![0u8; 60];
    body[8] = 0x80;
    body[9..13].copy_from_slice(&7u32.to_le_bytes());
    body[13..21].copy_from_slice(&0x1122_3344_5566_7788u64.to_le_bytes());
    body[49..57].copy_from_slice(&0x0123_4567u64.to_le_bytes());
    assert_eq!(
        recv_getattr(&body),
        Ok((Qid { kind: 0x80, version: 7, path: 0x1122_3344_5566_7788 }, 0x0123_4567))
    );
    assert_eq!(recv_getattr(&body[..56]), Err(ProtocolError::Malformed));
    assert_eq!(
        Qid::parse(&body[8..21]),
        Qid { kind: 0x80, version: 7, path: 0x1122_3344_5566_7788 }
    );
}

#[test]
fn reads_are_sized() {
    assert_eq!(next_read(100, 0, 40), 40);
    assert_eq!(next_read(100, 80, 40), 20);
    assert_eq!(next_read(100, 100, 40), 0);
    assert_eq!(next_read(100, 200, 40), 0);
    assert_eq!(next_read(u64::MAX, 0, u32::MAX), u32::MAX);
}
