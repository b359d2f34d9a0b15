//! Unwrapping a gzip member: the header is walked and the trailer checked
//! here; the deflate stream and the checksum are left to the libraries made
//! for them.

use crate::le::{read_u16_le, read_u32_le, spec_u16_le, spec_u32_le};
use vstd::prelude::*;
use vstd::slice::slice_subrange;

verus! {

pub const FLAG_HCRC: u8 = 0x02;

pub const FLAG_EXTRA: u8 = 0x04;

pub const FLAG_NAME: u8 = 0x08;

pub const FLAG_COMMENT: u8 = 0x10;

/// Length of the fixed part of the header.
pub const HEADER_LEN: usize = 10;

/// Length of the trailer: checksum and size, four bytes each.
pub const TRAILER_LEN: usize = 8;

/// Why a buffer could not be unwrapped.
#[derive(Clone, Copy, Debug, PartialEq, Eq, Structural)]
pub enum InflateError {
    /// The buffer does not begin with the gzip magic.
    NotGzip,
    /// The compression method is not deflate.
    NotDeflate,
    /// The header runs past the place where the trailer begins.
    Malformed,
    /// The deflate stream is invalid.
    InflateFailed,
    /// The checksum of the output is not the one in the trailer.
    CrcMismatch,
    /// The length of the output is not the one in the trailer.
    SizeMismatch,
}

/// What `miniz_oxide::inflate::decompress_to_vec` makes of a raw deflate
/// stream: the decompressed bytes, or nothing where it reports an error.
pub uninterp spec fn deflate_output(input: Seq<u8>) -> Option<Seq<u8>>;

/// The CRC-32 checksum of a byte string as `crc32fast::hash` computes it.
pub uninterp spec fn crc32(data: Seq<u8>) -> u32;

/// `miniz_oxide::inflate::decompress_to_vec`, with its error dropped: the
/// decompressed stream, or `None` where the library rejects the input.
#[verifier::external_body]
fn raw_inflate(input: &[u8]) -> (r: Option<Vec<u8>>)
    ensures
        r.is_some() == deflate_output(input@).is_some(),
        r.is_some() ==> r.unwrap()@ == deflate_output(input@).unwrap(),
{
    miniz_oxide::inflate::decompress_to_vec(input).ok()
}

/// `crc32fast::hash`: the checksum of the whole slice.
#[verifier::external_body]
fn crc32_of(data: &[u8]) -> (r: u32)
    ensures
        r == crc32(data@),
{
    crc32fast::hash(data)
}

/// Whether a buffer looks like a gzip member: longer than the smallest
/// possible member and beginning with the magic bytes.
pub open spec fn spec_is_gzip(file: Seq<u8>) -> bool {
    file.len() > 18 && file[0] == 0x1f && file[1] == 0x8b
}

pub fn is_gzip(file: &[u8]) -> (r: bool)
    ensures
        r == spec_is_gzip(file@),
{
    file.len() > 18 && file[0] == 0x1f && file[1] == 0x8b
}

/// Index of the first zero byte at or after `from`, or the length of the
/// string if there is none.
pub open spec fn spec_find_nul(s: Seq<u8>, from: int) -> int
    decreases s.len() - from,
{
    if from < 0 || from >= s.len() {
        s.len() as int
    } else if s[from] == 0 {
        from
    } else {
        spec_find_nul(s, from + 1)
    }
}

/// The index just past the zero-terminated string that begins at `ptr`;
/// `None` if `ptr` lies beyond the buffer or the string does not end in it.
pub open spec fn spec_after_string(g: Seq<u8>, ptr: int) -> Option<int> {
    if 0 <= ptr <= g.len() && spec_find_nul(g, ptr) < g.len() {
        Some(spec_find_nul(g, ptr) + 1)
    } else {
        None
    }
}

/// Where the deflate stream of a member begins: after the fixed header, the
/// extra field if there is one, which is two bytes of length and as many
/// bytes as they say, the file name and the comment if there are any, each
/// up to its terminating zero, and two bytes of header checksum if there is
/// one. `None` if that place lies beyond the begin of the trailer.
pub open spec fn spec_payload_start(g: Seq<u8>) -> Option<int>
    recommends
        g.len() >= 18,
{
    let flags = g[3];
    let after_extra: int = if flags & FLAG_EXTRA != 0 {
        12 + spec_u16_le(g[10], g[11])
    } else {
        10
    };
    let after_name = if flags & FLAG_NAME != 0 {
        spec_after_string(g, after_extra)
    } else {
        Some(after_extra)
    };
    let after_comment = match after_name {
        Some(p) => if flags & FLAG_COMMENT != 0 {
            spec_after_string(g, p)
        } else {
            Some(p)
        },
        None => None,
    };
    match after_comment {
        Some(p) => {
            let after_hcrc = if flags & FLAG_HCRC != 0 {
                p + 2
            } else {
                p
            };
            if after_hcrc <= g.len() - 8 {
                Some(after_hcrc)
            } else {
                None
            }
        },
        None => None,
    }
}

/// The verdict on a decompressed stream: it must exist, have the expected
/// checksum and the expected length, in this order.
pub open spec fn spec_verify(
    output: Option<Seq<u8>>,
    crc: u32,
    expected_crc: u32,
    expected_size: u32,
) -> Result<Seq<u8>, InflateError> {
    match output {
        None => Err(InflateError::InflateFailed),
        Some(d) => if crc != expected_crc {
            Err(InflateError::CrcMismatch)
        } else if d.len() != expected_size {
            Err(InflateError::SizeMismatch)
        } else {
            Ok(d)
        },
    }
}

/// What unwrapping a buffer gives.
pub open spec fn spec_inflate(g: Seq<u8>) -> Result<Seq<u8>, InflateError> {
    if g.len() < 2 || g[0] != 0x1f || g[1] != 0x8b {
        Err(InflateError::NotGzip)
    } else if g.len() < 3 || g[2] != 8 {
        Err(InflateError::NotDeflate)
    } else if g.len() < 18 {
        Err(InflateError::Malformed)
    } else {
        match spec_payload_start(g) {
            None => Err(InflateError::Malformed),
            Some(p) => {
                let n = g.len() as int;
                let output = deflate_output(g.subrange(p, n - 8));
                spec_verify(
                    output,
                    match output {
                        Some(d) => crc32(d),
                        None => 0,
                    },
                    spec_u32_le(g[n - 8], g[n - 7], g[n - 6], g[n - 5]),
                    spec_u32_le(g[n - 4], g[n - 3], g[n - 2], g[n - 1]),
                )
            },
        }
    }
}

fn find_nul(data: &[u8], from: usize) -> (r: usize)
    requires
        from <= data@.len(),
    ensures
        r == spec_find_nul(data@, from as int),
        from <= r <= data@.len(),
{
    let mut i: usize = from;
    while i < data.len() && data[i] != 0
        invariant
            from <= i <= data@.len(),
            spec_find_nul(data@, from as int) == spec_find_nul(data@, i as int),
        decreases data@.len() - i,
    {
        i = i + 1;
    }
    i
}

fn after_string(data: &[u8], ptr: usize) -> (r: Option<usize>)
    ensures
        match r {
            Some(p) => spec_after_string(data@, ptr as int) == Some(p as int) && ptr < p
                <= data@.len(),
            None => spec_after_string(data@, ptr as int).is_none(),
        },
{
    if ptr > data.len() {
        return None;
    }
    let nul: usize = find_nul(data, ptr);
    if nul < data.len() {
        Some(nul + 1)
    } else {
        None
    }
}

/// Finds the begin of the deflate stream in a member of at least header and
/// trailer length.
pub fn payload_start(gzip: &[u8]) -> (r: Option<usize>)
    requires
        gzip@.len() >= 18,
    ensures
        match r {
            Some(p) => spec_payload_start(gzip@) == Some(p as int) && 10 <= p <= gzip@.len() - 8,
            None => spec_payload_start(gzip@).is_none(),
        },
{
    let flags: u8 = gzip[3];
    let mut ptr: usize = HEADER_LEN;
    if flags & FLAG_EXTRA != 0 {
        let field: &[u8] = slice_subrange(gzip, ptr, gzip.len());
        let xlen: u16 = read_u16_le(field);
        assert(field@[0] == gzip@[10] && field@[1] == gzip@[11]);
        ptr = ptr + 2 + xlen as usize;
    }
    let ghost after_extra = ptr as int;
    if flags & FLAG_NAME != 0 {
        match after_string(gzip, ptr) {
            Some(p) => {
                ptr = p;
            },
            None => {
                return None;
            },
        }
    }
    let ghost after_name = ptr as int;
    if flags & FLAG_COMMENT != 0 {
        match after_string(gzip, ptr) {
            Some(p) => {
                ptr = p;
            },
            None => {
                return None;
            },
        }
    }
    let ghost after_comment = ptr as int;
    assert(10 <= after_extra <= after_name <= after_comment);
    if ptr > gzip.len() - TRAILER_LEN {
        return None;
    }
    if flags & FLAG_HCRC != 0 {
        ptr = ptr + 2;
    }
    if ptr <= gzip.len() - TRAILER_LEN {
        Some(ptr)
    } else {
        None
    }
}

/// Checks a decompressed stream against the trailer of its member: `crc` is
/// the checksum of the stream, `expected_crc` and `expected_size` are what
/// the trailer says.
pub fn verify_inflated(
    output: Option<Vec<u8>>,
    crc: u32,
    expected_crc: u32,
    expected_size: u32,
) -> (r: Result<Vec<u8>, InflateError>)
    ensures
        match r {
            Ok(v) => output.is_some() && v@ == output.unwrap()@ && spec_verify(
                Some(output.unwrap()@),
                crc,
                expected_crc,
                expected_size,
            ) == Ok::<Seq<u8>, InflateError>(v@),
            Err(e) => spec_verify(
                match output {
                    Some(d) => Some(d@),
                    None => None,
                },
                crc,
                expected_crc,
                expected_size,
            ) == Err::<Seq<u8>, InflateError>(e),
        },
{
    match output {
        None => Err(InflateError::InflateFailed),
        Some(data) => {
            if crc != expected_crc {
                Err(InflateError::CrcMismatch)
            } else if data.len() != expected_size as usize {
                Err(InflateError::SizeMismatch)
            } else {
                Ok(data)
            }
        },
    }
}

/// Unwraps a gzip member: checks magic and method, skips the header,
/// decompresses the deflate stream and checks checksum and length against
/// the trailer.
pub fn inflate(gzip: &[u8]) -> (r: Result<Vec<u8>, InflateError>)
    ensures
        match r {
            Ok(v) => spec_inflate(gzip@) == Ok::<Seq<u8>, InflateError>(v@),
            Err(e) => spec_inflate(gzip@) == Err::<Seq<u8>, InflateError>(e),
        },
{
    let n: usize = gzip.len();
    if n < 2 || gzip[0] != 0x1f || gzip[1] != 0x8b {
        return Err(InflateError::NotGzip);
    }
    if n < 3 || gzip[2] != 8 {
        return Err(InflateError::NotDeflate);
    }
    if n < 18 {
        return Err(InflateError::Malformed);
    }
    let start: usize = match payload_start(gzip) {
        Some(p) => p,
        None => {
            return Err(InflateError::Malformed);
        },
    };
    let output: Option<Vec<u8>> = raw_inflate(slice_subrange(gzip, start, n - TRAILER_LEN));
    let tail: &[u8] = slice_subrange(gzip, n - TRAILER_LEN, n);
    let expected_crc: u32 = read_u32_le(tail);
    let expected_size: u32 = read_u32_le(slice_subrange(tail, 4, 8));
    let crc: u32 = match &output {
        Some(data) => crc32_of(data.as_slice()),
        None => 0,
    };
    verify_inflated(output, crc, expected_crc, expected_size)
}

} // verus!
