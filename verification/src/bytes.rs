//! Little-endian fields of byte buffers.

use vstd::prelude::*;

verus! {

/// The two bytes at `off` as a little-endian number.
pub open spec fn spec_u16_at(s: Seq<u8>, off: int) -> u16 {
    (s[off] as u16) | ((s[off + 1] as u16) << 8)
}

/// The four bytes at `off` as a little-endian number.
pub open spec fn spec_u32_at(s: Seq<u8>, off: int) -> u32 {
    (s[off] as u32) | ((s[off + 1] as u32) << 8) | ((s[off + 2] as u32) << 16) | ((s[off + 3] as u32)
        << 24)
}

/// The eight bytes at `off` as a little-endian number.
pub open spec fn spec_u64_at(s: Seq<u8>, off: int) -> u64 {
    (spec_u32_at(s, off) as u64) | ((spec_u32_at(s, off + 4) as u64) << 32)
}

pub fn u16_at(data: &[u8], off: usize) -> (r: u16)
    requires
        off + 2 <= data@.len(),
    ensures
        r == spec_u16_at(data@, off as int),
{
    (data[off] as u16) | ((data[off + 1] as u16) << 8)
}

pub fn u32_at(data: &[u8], off: usize) -> (r: u32)
    requires
        off + 4 <= data@.len(),
    ensures
        r == spec_u32_at(data@, off as int),
{
    (data[off] as u32) | ((data[off + 1] as u32) << 8) | ((data[off + 2] as u32) << 16) | ((
    data[off + 3] as u32) << 24)
}

pub fn u64_at(data: &[u8], off: usize) -> (r: u64)
    requires
        off + 8 <= data@.len(),
    ensures
        r == spec_u64_at(data@, off as int),
{
    let len: usize = data.len();
    assert(off + 8 <= len);
    (u32_at(data, off) as u64) | ((u32_at(data, off + 4) as u64) << 32)
}

/// Two 32-bit halves as one number.
pub open spec fn spec_join(high: u32, low: u32) -> u64 {
    ((high as u64) << 32) | (low as u64)
}

pub fn join(high: u32, low: u32) -> (r: u64)
    ensures
        r == spec_join(high, low),
{
    ((high as u64) << 32) | (low as u64)
}

} // verus!
