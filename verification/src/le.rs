//! Little-endian numbers in byte buffers, read and written by the byte order
//! library.

use byteorder::{ByteOrder, LittleEndian};
use vstd::prelude::*;
use crate::misalign::spec_le_bytes;

verus! {

/// Two bytes as a little-endian number.
pub open spec fn spec_u16_le(b0: u8, b1: u8) -> u16 {
    (b0 as u16) | ((b1 as u16) << 8)
}

/// Four bytes as a little-endian number.
pub open spec fn spec_u32_le(b0: u8, b1: u8, b2: u8, b3: u8) -> u32 {
    (b0 as u32) | ((b1 as u32) << 8) | ((b2 as u32) << 16) | ((b3 as u32) << 24)
}

/// The first eight bytes of a buffer as a little-endian number.
pub open spec fn spec_u64_le(s: Seq<u8>) -> u64 {
    (spec_u32_le(s[0], s[1], s[2], s[3]) as u64) | ((spec_u32_le(s[4], s[5], s[6], s[7]) as u64)
        << 32)
}

/// `byteorder::LittleEndian::read_u16`: the first two bytes of `buf`, low
/// byte first. The library panics on a shorter buffer.
#[verifier::external_body]
pub(crate) fn read_u16_le(buf: &[u8]) -> (r: u16)
    requires
        buf@.len() >= 2,
    ensures
        r == spec_u16_le(buf@[0], buf@[1]),
{
    LittleEndian::read_u16(buf)
}

/// `byteorder::LittleEndian::read_u32`: the first four bytes of `buf`, low
/// byte first. The library panics on a shorter buffer.
#[verifier::external_body]
pub(crate) fn read_u32_le(buf: &[u8]) -> (r: u32)
    requires
        buf@.len() >= 4,
    ensures
        r == spec_u32_le(buf@[0], buf@[1], buf@[2], buf@[3]),
{
    LittleEndian::read_u32(buf)
}

/// `byteorder::LittleEndian::read_u64`: the first eight bytes of `buf`, low
/// byte first. The library panics on a shorter buffer.
#[verifier::external_body]
pub(crate) fn read_u64_le(buf: &[u8]) -> (r: u64)
    requires
        buf@.len() >= 8,
    ensures
        r == spec_u64_le(buf@),
{
    LittleEndian::read_u64(buf)
}

/// `byteorder::LittleEndian::write_u16` into two bytes: low byte first.
#[verifier::external_body]
fn bytes_of_u16(value: u16) -> (r: [u8; 2])
    ensures
        r@ == spec_le_bytes(value as u64, 2),
{
    let mut bytes = [0u8; 2];
    LittleEndian::write_u16(&mut bytes, value);
    bytes
}

/// `byteorder::LittleEndian::write_u32` into four bytes: low byte first.
#[verifier::external_body]
fn bytes_of_u32(value: u32) -> (r: [u8; 4])
    ensures
        r@ == spec_le_bytes(value as u64, 4),
{
    let mut bytes = [0u8; 4];
    LittleEndian::write_u32(&mut bytes, value);
    bytes
}

/// `byteorder::LittleEndian::write_u64` into eight bytes: low byte first.
#[verifier::external_body]
fn bytes_of_u64(value: u64) -> (r: [u8; 8])
    ensures
        r@ == spec_le_bytes(value, 8),
{
    let mut bytes = [0u8; 8];
    LittleEndian::write_u64(&mut bytes, value);
    bytes
}

/// Appends a number in two bytes, low byte first.
pub fn put_u16(out: &mut Vec<u8>, value: u16)
    ensures
        final(out)@ == old(out)@ + spec_le_bytes(value as u64, 2),
{
    let bytes: [u8; 2] = bytes_of_u16(value);
    out.extend_from_slice(bytes.as_slice());
    assert(out@ =~= old(out)@ + spec_le_bytes(value as u64, 2));
}

/// Appends a number in four bytes, low byte first.
pub fn put_u32(out: &mut Vec<u8>, value: u32)
    ensures
        final(out)@ == old(out)@ + spec_le_bytes(value as u64, 4),
{
    let bytes: [u8; 4] = bytes_of_u32(value);
    out.extend_from_slice(bytes.as_slice());
    assert(out@ =~= old(out)@ + spec_le_bytes(value as u64, 4));
}

/// Appends a number in eight bytes, low byte first.
pub fn put_u64(out: &mut Vec<u8>, value: u64)
    ensures
        final(out)@ == old(out)@ + spec_le_bytes(value, 8),
{
    let bytes: [u8; 8] = bytes_of_u64(value);
    out.extend_from_slice(bytes.as_slice());
    assert(out@ =~= old(out)@ + spec_le_bytes(value, 8));
}

} // verus!
