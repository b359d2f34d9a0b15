use firmware::boot::unpack_kernel;
use firmware::inflate::{inflate, is_gzip, payload_start, verify_inflated, InflateError};

const PAYLOAD: &[u8] = b"riscv firmware kernel image payload";

const STREAM: [u8; 37] = [
    0x2b, 0xca, 0x2c, 0x4e, 0x2e, 0x53, 0x48, 0xcb, 0x2c, 0xca, 0x2d, 0x4f, 0x2c, 0x4a, 0x55,
    0xc8, 0x4e, 0x2d, 0xca, 0x4b, 0xcd, 0x51, 0xc8, 0xcc, 0x4d, 0x4c, 0x4f, 0x55, 0x28, 0x48,
    0xac, 0xcc, 0xc9, 0x4f, 0x4c, 0x01, 0x00,
];

const CRC: u32 = 0xe8f8_a787;

fn member(flags: u8, fields: &[u8], crc: u32, size: u32) -> Vec<u8> {
    let mut out = vec![0x1f, 0x8b, 0x08, flags, 0, 0, 0, 0, 0, 3];
    out.extend_from_slice(fields);
    out.extend_from_slice(&STREAM);
    out.extend_from_slice(&crc.to_le_bytes());
    out.extend_from_slice(&size.to_le_bytes());
    out
}

#[test]
fn recognises_gzip() {
    assert!(is_gzip(&member(0, &[], CRC, 35)));
    assert!(!is_gzip(&[0x1f, 0x8b, 8]));
    let mut short = vec![0u8; 18];
    short[0] = 0x1f;
    short[1] = 0x8b;
    assert!(!is_gzip(&short));
    short.push(0);
    assert!(is_gzip(&short));
    short[1] = 0x8c;
    assert!(!is_gzip(&short));
    assert!(!is_gzip(&[]));
}

#[test]
fn plain_member_unpacks() {
    assert_eq!(inflate(&member(0, &[], CRC, 35)), Ok(PAYLOAD.to_vec()));
}

#[test]
fn optional_fields_are_skipped() {
    let named = member(0x08 | 0x10 | 0x02, b"vmlinux\0boot\0\x12\x34", CRC, 35);
    assert_eq!(payload_start(&named), Some(25));
    assert_eq!(inflate(&named), Ok(PAYLOAD.to_vec()));
    let extra = member(0x04, &[2, 0, 0xaa, 0xbb], CRC, 35);
    assert_eq!(payload_start(&extra), Some(14));
    assert_eq!(inflate(&extra), Ok(PAYLOAD.to_vec()));
    let empty_extra = member(0x04, &[0, 0], CRC, 35);
    assert_eq!(payload_start(&empty_extra), Some(12));
    assert_eq!(inflate(&empty_extra), Ok(PAYLOAD.to_vec()));
    let all = member(0x1e, b"\x01\x00\x00vmlinux\0boot\0\x12\x34", CRC, 35);
    assert_eq!(payload_start(&all), Some(28));
    assert_eq!(inflate(&all), Ok(PAYLOAD.to_vec()));
    assert_eq!(payload_start(&member(0, &[], CRC, 35)), Some(10));
}

#[test]
fn header_must_end_before_trailer() {
    let long_extra = member(0x04, &[0x2c, 0x01], CRC, 35);
    assert_eq!(payload_start(&long_extra), None);
    assert_eq!(inflate(&long_extra), Err(InflateError::Malformed));
    let mut unterminated = vec![0x1f, 0x8b, 0x08, 0x08, 0, 0, 0, 0, 0, 3];
    unterminated.extend_from_slice(&[0x41; 20]);
    assert_eq!(inflate(&unterminated), Err(InflateError::Malformed));
    let mut tiny = vec![0x1f, 0x8b, 0x08, 0];
    tiny.extend_from_slice(&[0; 13]);
    assert_eq!(inflate(&tiny), Err(InflateError::Malformed));
}

#[test]
fn wrong_magic_and_method() {
    let mut bad = member(0, &[], CRC, 35);
    bad[0] = 0x1e;
    assert_eq!(inflate(&bad), Err(InflateError::NotGzip));
    assert_eq!(inflate(&[]), Err(InflateError::NotGzip));
    assert_eq!(inflate(&[0x1f]), Err(InflateError::NotGzip));
    let mut stored = member(0, &[], CRC, 35);
    stored[2] = 0;
    assert_eq!(inflate(&stored), Err(InflateError::NotDeflate));
    assert_eq!(inflate(&[0x1f, 0x8b]), Err(InflateError::NotDeflate));
}

#[test]
fn trailer_is_checked() {
    assert_eq!(inflate(&member(0, &[], CRC ^ 1, 35)), Err(InflateError::CrcMismatch));
    assert_eq!(inflate(&member(0, &[], CRC, 36)), Err(InflateError::SizeMismatch));
    assert_eq!(inflate(&member(0, &[], CRC ^ 1, 36)), Err(InflateError::CrcMismatch));
    let mut broken = member(0, &[], CRC, 35);
    broken[10] = 0xff;
    broken[11] = 0xff;
    assert_eq!(inflate(&broken), Err(InflateError::InflateFailed));
}

#[test]
fn verdict_on_a_stream() {
    assert_eq!(verify_inflated(None, 0, 0, 0), Err(InflateError::InflateFailed));
    assert_eq!(verify_inflated(Some(vec![1, 2]), 5, 5, 2), Ok(vec![1, 2]));
    assert_eq!(verify_inflated(Some(vec![1, 2]), 5, 6, 2), Err(InflateError::CrcMismatch));
    assert_eq!(verify_inflated(Some(vec![1, 2]), 5, 5, 3), Err(InflateError::SizeMismatch));
    assert_eq!(verify_inflated(Some(vec![]), 0, 0, 0), Ok(vec![]));
}

#[test]
fn kernel_is_unpacked_only_if_gzip() {
    assert_eq!(unpack_kernel(member(0, &[], CRC, 35)), Ok(PAYLOAD.to_vec()));
    assert_eq!(unpack_kernel(PAYLOAD.to_vec()), Ok(PAYLOAD.to_vec()));
    assert_eq!(unpack_kernel(member(0, &[], CRC, 1)), Err(InflateError::SizeMismatch));
    assert_eq!(unpack_kernel(vec![]), Ok(vec![]));
}
