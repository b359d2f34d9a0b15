//! Messages of the 9P2000.L file protocol, as far as fetching one file needs
//! them: requests are built and replies are taken apart here; sending and
//! receiving is the caller's part.

use vstd::prelude::*;
use vstd::slice::slice_subrange;
use crate::le::{
    put_u16, put_u32, put_u64, read_u16_le, read_u32_le, read_u64_le, spec_u16_le, spec_u32_le,
    spec_u64_le,
};
use crate::misalign::spec_le_bytes;

verus! {

pub const T_VERSION: u8 = 100;

pub const T_ATTACH: u8 = 104;

pub const T_WALK: u8 = 110;

pub const T_LOPEN: u8 = 12;

pub const T_GETATTR: u8 = 24;

pub const T_READ: u8 = 116;

pub const T_CLUNK: u8 = 120;

/// Type of the reply to a read.
pub const R_READ: u8 = 117;

/// Type of the reply that reports an error.
pub const R_LERROR: u8 = 7;

/// Length of size, type and tag, with which every message begins.
pub const HEADER_LEN: usize = 7;

/// The largest message size that is offered.
pub const MAX_MSIZE: u32 = 65536;

/// Bytes of a read reply that are not data, generously counted.
pub const READ_OVERHEAD: u32 = 24;

/// The tag of the version request, which has none.
pub const NO_TAG: u16 = 0xffff;

/// Why a reply was refused.
#[derive(Clone, Copy, Debug, PartialEq, Eq, Structural)]
pub enum ProtocolError {
    /// The reply is not of the expected type or contradicts itself.
    Malformed,
    /// The server reported this error number.
    Server(u32),
}

/// The server's name for a file.
#[derive(Clone, Copy, Debug, PartialEq, Eq, Structural)]
pub struct Qid {
    pub kind: u8,
    pub version: u32,
    pub path: u64,
}

/// What begins every message: its whole length, its type and its tag.
#[derive(Clone, Copy, Debug, PartialEq, Eq, Structural)]
pub struct Header {
    pub length: u32,
    pub msg: u8,
    pub tag: u16,
}

/// A string as the protocol carries it: its length in two bytes, then its
/// bytes.
pub open spec fn spec_str(s: Seq<u8>) -> Seq<u8> {
    spec_le_bytes(s.len() as u64, 2) + s
}

/// A message: length of the whole in four bytes, type, tag, body.
pub open spec fn spec_frame(msg: u8, tag: u16, body: Seq<u8>) -> Seq<u8> {
    spec_le_bytes((7 + body.len()) as u64, 4) + seq![msg] + spec_le_bytes(tag as u64, 2) + body
}

/// The first `n` names of a walk, each as a string, one after the other.
pub open spec fn spec_names(names: Seq<Vec<u8>>, n: int) -> Seq<u8>
    decreases n,
{
    if n <= 0 {
        Seq::empty()
    } else {
        spec_names(names, n - 1) + spec_str(names[n - 1]@)
    }
}

pub open spec fn spec_version_body() -> Seq<u8> {
    spec_le_bytes(MAX_MSIZE as u64, 4) + spec_str(
        seq![0x39u8, 0x50u8, 0x32u8, 0x30u8, 0x30u8, 0x30u8, 0x2eu8, 0x4cu8],
    )
}

pub open spec fn spec_attach_body(fid: u32, uname: Seq<u8>, aname: Seq<u8>) -> Seq<u8> {
    spec_le_bytes(fid as u64, 4) + spec_le_bytes(0xffff_ffff, 4) + spec_str(uname) + spec_str(aname)
        + spec_le_bytes(0xffff_ffff, 4)
}

pub open spec fn spec_walk_body(fid: u32, newfid: u32, names: Seq<Vec<u8>>) -> Seq<u8> {
    spec_le_bytes(fid as u64, 4) + spec_le_bytes(newfid as u64, 4) + spec_le_bytes(
        names.len() as u64,
        2,
    ) + spec_names(names, names.len() as int)
}

fn put_str(out: &mut Vec<u8>, s: &[u8])
    requires
        s@.len() <= 0xffff,
    ensures
        final(out)@ == old(out)@ + spec_str(s@),
{
    put_u16(out, s.len() as u16);
    out.extend_from_slice(s);
    assert(out@ =~= old(out)@ + spec_str(s@));
}

/// Puts size, type and tag in front of a body.
pub fn frame(msg: u8, tag: u16, body: &[u8]) -> (r: Vec<u8>)
    requires
        body@.len() + 7 <= u32::MAX,
    ensures
        r@ == spec_frame(msg, tag, body@),
{
    let mut out: Vec<u8> = Vec::new();
    put_u32(&mut out, (body.len() + 7) as u32);
    out.push(msg);
    put_u16(&mut out, tag);
    out.extend_from_slice(body);
    assert(out@ =~= spec_frame(msg, tag, body@));
    out
}

/// The request that opens a session: it offers the message size and names
/// the protocol, and carries no tag.
pub fn version() -> (r: Vec<u8>)
    ensures
        r@ == spec_frame(T_VERSION, NO_TAG, spec_version_body()),
{
    let mut body: Vec<u8> = Vec::new();
    put_u32(&mut body, MAX_MSIZE);
    let name: [u8; 8] = [0x39, 0x50, 0x32, 0x30, 0x30, 0x30, 0x2e, 0x4c];
    assert(name@ =~= seq![0x39u8, 0x50u8, 0x32u8, 0x30u8, 0x30u8, 0x30u8, 0x2eu8, 0x4cu8]);
    put_str(&mut body, name.as_slice());
    frame(T_VERSION, NO_TAG, body.as_slice())
}

/// The request that binds `fid` to the root of the tree `aname`, for user
/// `uname` without authentication.
pub fn attach(tag: u16, fid: u32, uname: &[u8], aname: &[u8]) -> (r: Vec<u8>)
    requires
        uname@.len() <= 0xffff,
        aname@.len() <= 0xffff,
    ensures
        r@ == spec_frame(T_ATTACH, tag, spec_attach_body(fid, uname@, aname@)),
{
    let mut body: Vec<u8> = Vec::new();
    put_u32(&mut body, fid);
    put_u32(&mut body, 0xffff_ffff);
    put_str(&mut body, uname);
    put_str(&mut body, aname);
    put_u32(&mut body, 0xffff_ffff);
    frame(T_ATTACH, tag, body.as_slice())
}

/// The request that binds `newfid` to the file reached from `fid` along
/// `names`.
pub fn walk(tag: u16, fid: u32, newfid: u32, names: &Vec<Vec<u8>>) -> (r: Vec<u8>)
    requires
        names@.len() <= 16,
        forall|i: int| 0 <= i < names@.len() ==> names@[i]@.len() <= 0xffff,
    ensures
        r@ == spec_frame(T_WALK, tag, spec_walk_body(fid, newfid, names@)),
{
    let mut body: Vec<u8> = Vec::new();
    put_u32(&mut body, fid);
    put_u32(&mut body, newfid);
    put_u16(&mut body, names.len() as u16);
    let ghost head = body@;
    let mut i: usize = 0;
    assert(body@ =~= head + spec_names(names@, 0));
    while i < names.len()
        invariant
            i <= names@.len() <= 16,
            forall|k: int| 0 <= k < names@.len() ==> names@[k]@.len() <= 0xffff,
            body@ == head + spec_names(names@, i as int),
            body@.len() <= 10 + i * 0x1_0001,
        decreases names@.len() - i,
    {
        put_str(&mut body, names[i].as_slice());
        i = i + 1;
        assert(body@ =~= head + spec_names(names@, i as int));
    }
    frame(T_WALK, tag, body.as_slice())
}

/// The request that opens `fid` with the given flags.
pub fn open(tag: u16, fid: u32, flags: u32) -> (r: Vec<u8>)
    ensures
        r@ == spec_frame(
            T_LOPEN,
            tag,
            spec_le_bytes(fid as u64, 4) + spec_le_bytes(flags as u64, 4),
        ),
{
    let mut body: Vec<u8> = Vec::new();
    put_u32(&mut body, fid);
    put_u32(&mut body, flags);
    frame(T_LOPEN, tag, body.as_slice())
}

/// The request for the attributes of `fid` that `request_mask` names.
pub fn getattr(tag: u16, fid: u32, request_mask: u64) -> (r: Vec<u8>)
    ensures
        r@ == spec_frame(
            T_GETATTR,
            tag,
            spec_le_bytes(fid as u64, 4) + spec_le_bytes(request_mask, 8),
        ),
{
    let mut body: Vec<u8> = Vec::new();
    put_u32(&mut body, fid);
    put_u64(&mut body, request_mask);
    frame(T_GETATTR, tag, body.as_slice())
}

/// The request for `count` bytes of `fid` from `offset` on.
pub fn read(tag: u16, fid: u32, offset: u64, count: u32) -> (r: Vec<u8>)
    ensures
        r@ == spec_frame(
            T_READ,
            tag,
            spec_le_bytes(fid as u64, 4) + spec_le_bytes(offset, 8) + spec_le_bytes(
                count as u64,
                4,
            ),
        ),
{
    let mut body: Vec<u8> = Vec::new();
    put_u32(&mut body, fid);
    put_u64(&mut body, offset);
    put_u32(&mut body, count);
    frame(T_READ, tag, body.as_slice())
}

/// The request that lets go of `fid`.
pub fn clunk(tag: u16, fid: u32) -> (r: Vec<u8>)
    ensures
        r@ == spec_frame(T_CLUNK, tag, spec_le_bytes(fid as u64, 4)),
{
    let mut body: Vec<u8> = Vec::new();
    put_u32(&mut body, fid);
    frame(T_CLUNK, tag, body.as_slice())
}

/// The tag of the request after the one with tag `tag`.
pub fn next_tag(tag: u16) -> (r: u16)
    ensures
        r == if tag == 0xffff {
            0
        } else {
            (tag + 1) as u16
        },
{
    tag.wrapping_add(1)
}

pub open spec fn spec_header(data: Seq<u8>) -> Header {
    Header {
        length: spec_u32_le(data[0], data[1], data[2], data[3]),
        msg: data[4],
        tag: spec_u16_le(data[5], data[6]),
    }
}

/// Takes the header of a message apart.
pub fn parse_header(data: &[u8]) -> (r: Header)
    requires
        data@.len() >= 7,
    ensures
        r == spec_header(data@),
{
    let tag_bytes: &[u8] = slice_subrange(data, 5, 7);
    Header { length: read_u32_le(data), msg: data[4], tag: read_u16_le(tag_bytes) }
}

/// The verdict on the type of a reply whose body is `body`: the expected
/// type passes, an error reply gives the server's error number, anything else
/// is malformed, as is an error reply too short for its number.
pub open spec fn spec_check(expected: u8, msg: u8, body: Seq<u8>) -> Result<(), ProtocolError> {
    if msg == expected {
        Ok(())
    } else if msg == R_LERROR && body.len() >= 4 {
        Err(ProtocolError::Server(spec_u32_le(body[0], body[1], body[2], body[3])))
    } else {
        Err(ProtocolError::Malformed)
    }
}

pub fn check_reply(expected: u8, msg: u8, body: &[u8]) -> (r: Result<(), ProtocolError>)
    ensures
        r == spec_check(expected, msg, body@),
{
    if msg == expected {
        Ok(())
    } else if msg == R_LERROR && body.len() >= 4 {
        Err(ProtocolError::Server(read_u32_le(body)))
    } else {
        Err(ProtocolError::Malformed)
    }
}

/// The most data to ask for in one read, from the message size that the
/// server granted: that size, at most the size offered, less the overhead of
/// a reply. A size that does not even hold the overhead is malformed.
pub fn recv_version(body: &[u8]) -> (r: Result<u32, ProtocolError>)
    ensures
        r == if body@.len() < 4 || spec_u32_le(body@[0], body@[1], body@[2], body@[3])
            < READ_OVERHEAD {
            Err::<u32, ProtocolError>(ProtocolError::Malformed)
        } else if spec_u32_le(body@[0], body@[1], body@[2], body@[3]) > MAX_MSIZE {
            Ok::<u32, ProtocolError>((MAX_MSIZE - READ_OVERHEAD) as u32)
        } else {
            Ok::<u32, ProtocolError>(
                (spec_u32_le(body@[0], body@[1], body@[2], body@[3]) - READ_OVERHEAD) as u32,
            )
        },
{
    if body.len() < 4 {
        return Err(ProtocolError::Malformed);
    }
    let msize: u32 = read_u32_le(body);
    if msize < READ_OVERHEAD {
        Err(ProtocolError::Malformed)
    } else if msize > MAX_MSIZE {
        Ok(MAX_MSIZE - READ_OVERHEAD)
    } else {
        Ok(msize - READ_OVERHEAD)
    }
}

/// The number of data bytes that follow the first eleven bytes of a read
/// reply: the count it announces, which has to agree with its length.
pub fn recv_read(head: &[u8]) -> (r: Result<u32, ProtocolError>)
    requires
        head@.len() == 11,
    ensures
        r == match spec_check(R_READ, head@[4], head@.subrange(7, 11)) {
            Err(e) => Err::<u32, ProtocolError>(e),
            Ok(()) => if spec_header(head@).length == 11 + spec_u32_le(
                head@[7],
                head@[8],
                head@[9],
                head@[10],
            ) {
                Ok::<u32, ProtocolError>(spec_u32_le(head@[7], head@[8], head@[9], head@[10]))
            } else {
                Err::<u32, ProtocolError>(ProtocolError::Malformed)
            },
        },
{
    let header: Header = parse_header(head);
    let rest: &[u8] = slice_subrange(head, 7, 11);
    match check_reply(R_READ, header.msg, rest) {
        Err(e) => Err(e),
        Ok(()) => {
            let count: u32 = read_u32_le(rest);
            if header.length as u64 == 11 + count as u64 {
                Ok(count)
            } else {
                Err(ProtocolError::Malformed)
            }
        },
    }
}

impl Qid {
    pub open spec fn spec_parse(data: Seq<u8>) -> Qid {
        Qid {
            kind: data[0],
            version: spec_u32_le(data[1], data[2], data[3], data[4]),
            path: spec_u64_le(data.subrange(5, 13)),
        }
    }

    /// The thirteen bytes of a qid: type, version, path.
    pub fn parse(data: &[u8]) -> (r: Qid)
        requires
            data@.len() >= 13,
        ensures
            r == Self::spec_parse(data@),
    {
        Qid {
            kind: data[0],
            version: read_u32_le(slice_subrange(data, 1, 5)),
            path: read_u64_le(slice_subrange(data, 5, 13)),
        }
    }
}

/// Offset of the file size in the body of an attribute reply: behind the
/// mask of valid fields, the qid, mode, owner, group, link count and device.
pub const GETATTR_SIZE_AT: usize = 49;

/// The file's name at the server and its size, from the body of an attribute
/// reply; a body that ends before the size is malformed.
pub fn recv_getattr(body: &[u8]) -> (r: Result<(Qid, u64), ProtocolError>)
    ensures
        r == if body@.len() < 57 {
            Err::<(Qid, u64), ProtocolError>(ProtocolError::Malformed)
        } else {
            Ok::<(Qid, u64), ProtocolError>(
                (Qid::spec_parse(body@.subrange(8, 21)), spec_u64_le(body@.subrange(49, 57))),
            )
        },
{
    if body.len() < GETATTR_SIZE_AT + 8 {
        return Err(ProtocolError::Malformed);
    }
    let qid: Qid = Qid::parse(slice_subrange(body, 8, 21));
    let size: u64 = read_u64_le(slice_subrange(body, GETATTR_SIZE_AT, GETATTR_SIZE_AT + 8));
    Ok((qid, size))
}

/// The number of bytes to ask for next: what is left of the file, at most
/// `max_count`.
pub fn next_read(size: u64, offset: u64, max_count: u32) -> (r: u32)
    ensures
        r == if offset >= size {
            0
        } else if size - offset > max_count {
            max_count as int
        } else {
            size - offset
        },
{
    if offset >= size {
        0
    } else if size - offset > max_count as u64 {
        max_count
    } else {
        (size - offset) as u32
    }
}

} // verus!
