//! Emulation of integer loads and stores whose address is not aligned: the
//! access is made byte by byte, in little-endian order.

use vstd::prelude::*;
use crate::op::{insn_len, spec_insn_len, Fetched, Op, Opcode};
use crate::trap::{Context, TrapInfo, CAUSE_MISALIGNED_LOAD, CAUSE_MISALIGNED_STORE};

verus! {

/// Number of bytes an integer load or store moves; `None` for any other
/// operation.
pub open spec fn spec_access_len(code: Opcode) -> Option<usize> {
    match code {
        Opcode::Lh | Opcode::Lhu | Opcode::Sh => Some(2usize),
        Opcode::Lw | Opcode::Lwu | Opcode::Sw => Some(4usize),
        Opcode::Ld | Opcode::Sd => Some(8usize),
        _ => None,
    }
}

/// Whether the operation is an integer load.
pub open spec fn spec_is_load(code: Opcode) -> bool {
    code == Opcode::Lh || code == Opcode::Lhu || code == Opcode::Lw || code == Opcode::Lwu
        || code == Opcode::Ld
}

/// Whether the operation is an integer store.
pub open spec fn spec_is_store(code: Opcode) -> bool {
    code == Opcode::Sh || code == Opcode::Sw || code == Opcode::Sd
}

/// Whether a load sign-extends what it read.
pub open spec fn spec_is_signed(code: Opcode) -> bool {
    code == Opcode::Lh || code == Opcode::Lw
}

/// Byte `i` of a buffer as a word, zero beyond its end.
pub open spec fn spec_byte_at(bytes: Seq<u8>, i: int) -> u64 {
    if 0 <= i < bytes.len() {
        bytes[i] as u64
    } else {
        0
    }
}

/// The number that up to eight bytes spell in little-endian order.
pub open spec fn spec_le_value(bytes: Seq<u8>) -> u64 {
    spec_byte_at(bytes, 0) | (spec_byte_at(bytes, 1) << 8) | (spec_byte_at(bytes, 2) << 16) | (
    spec_byte_at(bytes, 3) << 24) | (spec_byte_at(bytes, 4) << 32) | (spec_byte_at(bytes, 5) << 40)
        | (spec_byte_at(bytes, 6) << 48) | (spec_byte_at(bytes, 7) << 56)
}

/// A value of `len` bytes widened to a register: sign-extended if `signed`,
/// zero-extended otherwise.
pub open spec fn spec_extend(value: u64, len: usize, signed: bool) -> u64 {
    if len == 2 && signed && value & 0x8000 != 0 {
        value | 0xffff_ffff_ffff_0000
    } else if len == 4 && signed && value & 0x8000_0000 != 0 {
        value | 0xffff_ffff_0000_0000
    } else {
        value
    }
}

/// The register value a load leaves when memory held `bytes`.
pub open spec fn spec_loaded(code: Opcode, bytes: Seq<u8>) -> u64 {
    spec_extend(spec_le_value(bytes), bytes.len() as usize, spec_is_signed(code))
}

/// The `len` low bytes of `value`, lowest first.
pub open spec fn spec_le_bytes(value: u64, len: usize) -> Seq<u8> {
    Seq::new(len as nat, |i: int| ((value >> ((8 * i) as u64)) & 0xff) as u8)
}

/// The low `len` bytes of a value, the rest cleared.
pub open spec fn spec_truncate(value: u64, len: usize) -> u64 {
    if len == 2 {
        value & 0xffff
    } else if len == 4 {
        value & 0xffff_ffff
    } else {
        value
    }
}

fn byte_at(data: &[u8], i: usize) -> (r: u64)
    ensures
        r == spec_byte_at(data@, i as int),
{
    if i < data.len() {
        data[i] as u64
    } else {
        0
    }
}

/// Assembles up to eight bytes in little-endian order.
pub fn le_value(data: &[u8]) -> (r: u64)
    ensures
        r == spec_le_value(data@),
{
    byte_at(data, 0) | (byte_at(data, 1) << 8) | (byte_at(data, 2) << 16) | (byte_at(data, 3)
        << 24) | (byte_at(data, 4) << 32) | (byte_at(data, 5) << 40) | (byte_at(data, 6) << 48) | (
    byte_at(data, 7) << 56)
}

/// Splits a value into its `len` low bytes, lowest first.
pub fn le_bytes(value: u64, len: usize) -> (r: Vec<u8>)
    requires
        len <= 8,
    ensures
        r@ == spec_le_bytes(value, len),
{
    let mut out: Vec<u8> = Vec::new();
    let mut i: usize = 0;
    while i < len
        invariant
            i <= len <= 8,
            out@ == spec_le_bytes(value, i),
        decreases len - i,
    {
        let shift: u64 = 8 * (i as u64);
        let piece: u64 = (value >> shift) & 0xff;
        assert(piece <= 0xff) by (bit_vector)
            requires
                piece == (value >> shift) & 0xff,
        ;
        out.push(piece as u8);
        i = i + 1;
        assert(out@ =~= spec_le_bytes(value, i));
    }
    out
}

/// Begins the emulation of a misaligned load at `addr`: the number of bytes
/// to read there. A fault while the instruction was read is passed on as it
/// is, and an operation that is no integer load raises the misalignment
/// again, both for the supervisor.
pub fn handle_misaligned_read(fetch: &Result<Fetched, TrapInfo>, addr: u64) -> (r: Result<
    usize,
    TrapInfo,
>)
    ensures
        r == match *fetch {
            Err(trap) => Err::<usize, TrapInfo>(trap),
            Ok(f) => if spec_is_load(f.op.code) {
                Ok::<usize, TrapInfo>(spec_access_len(f.op.code).unwrap())
            } else {
                Err::<usize, TrapInfo>(TrapInfo { cause: CAUSE_MISALIGNED_LOAD, tval: addr })
            },
        },
{
    match fetch {
        Err(trap) => Err(*trap),
        Ok(f) => match f.op.code {
            Opcode::Lh | Opcode::Lhu => Ok(2),
            Opcode::Lw | Opcode::Lwu => Ok(4),
            Opcode::Ld => Ok(8),
            _ => Err(TrapInfo { cause: CAUSE_MISALIGNED_LOAD, tval: addr }),
        },
    }
}

/// Completes a misaligned load with the bytes read from memory: the
/// destination register takes their little-endian value, extended as the load
/// says, and the program counter moves past the instruction, whose lowest
/// sixteen bits are `low`.
pub fn complete_misaligned_read(ctx: &mut Context, low: u16, op: &Op, data: &[u8])
    requires
        op.wf(),
        spec_is_load(op.code),
        data@.len() == spec_access_len(op.code).unwrap(),
    ensures
        final(ctx)@ == old(ctx)@.with_reg(op.rd, spec_loaded(op.code, data@)).advanced(
            spec_insn_len(low),
        ),
{
    let raw: u64 = le_value(data);
    let signed: bool = match op.code {
        Opcode::Lh | Opcode::Lw => true,
        _ => false,
    };
    let len: usize = data.len();
    let value: u64 = if len == 2 && signed && raw & 0x8000 != 0 {
        raw | 0xffff_ffff_ffff_0000
    } else if len == 4 && signed && raw & 0x8000_0000 != 0 {
        raw | 0xffff_ffff_0000_0000
    } else {
        raw
    };
    ctx.write_reg(op.rd, value);
    ctx.advance_pc(insn_len(low));
}

/// Begins the emulation of a misaligned store at `addr`: the bytes to write
/// there, lowest address first. A fault while the instruction was read is
/// passed on as it is, and an operation that is no integer store raises the
/// misalignment again, both for the supervisor.
pub fn handle_misaligned_write(ctx: &Context, fetch: &Result<Fetched, TrapInfo>, addr: u64) -> (r:
    Result<Vec<u8>, TrapInfo>)
    requires
        fetch.is_ok() ==> fetch.unwrap().op.wf(),
    ensures
        match *fetch {
            Err(trap) => r == Err::<Vec<u8>, TrapInfo>(trap),
            Ok(f) => if spec_is_store(f.op.code) {
                r.is_ok() && r.unwrap()@ == spec_le_bytes(
                    ctx@.registers[f.op.rs2 as int],
                    spec_access_len(f.op.code).unwrap(),
                )
            } else {
                r == Err::<Vec<u8>, TrapInfo>(TrapInfo { cause: CAUSE_MISALIGNED_STORE, tval: addr })
            },
        },
{
    match fetch {
        Err(trap) => Err(*trap),
        Ok(f) => {
            let len: usize = match f.op.code {
                Opcode::Sh => 2,
                Opcode::Sw => 4,
                Opcode::Sd => 8,
                _ => {
                    return Err(TrapInfo { cause: CAUSE_MISALIGNED_STORE, tval: addr });
                },
            };
            Ok(le_bytes(ctx.read_reg(f.op.rs2), len))
        },
    }
}

/// Completes a misaligned store once its bytes are in memory: the program
/// counter moves past the instruction, whose lowest sixteen bits are `low`.
pub fn complete_misaligned_write(ctx: &mut Context, low: u16)
    ensures
        final(ctx)@ == old(ctx)@.advanced(spec_insn_len(low)),
{
    ctx.advance_pc(insn_len(low));
}

/// Reading back the bytes of a store gives the stored value cut to the width
/// of the access.
pub proof fn lemma_le_round_trip(value: u64, len: usize)
    requires
        len == 2 || len == 4 || len == 8,
    ensures
        spec_le_value(spec_le_bytes(value, len)) == spec_truncate(value, len),
{
    let bytes = spec_le_bytes(value, len);
    let b0 = spec_byte_at(bytes, 0);
    let b1 = spec_byte_at(bytes, 1);
    let b2 = spec_byte_at(bytes, 2);
    let b3 = spec_byte_at(bytes, 3);
    let b4 = spec_byte_at(bytes, 4);
    let b5 = spec_byte_at(bytes, 5);
    let b6 = spec_byte_at(bytes, 6);
    let b7 = spec_byte_at(bytes, 7);
    assert forall|i: int| 0 <= i < len implies #[trigger] spec_byte_at(bytes, i) == (value >> ((8
        * i) as u64)) & 0xff by {
        let y = value >> ((8 * i) as u64);
        assert(((y & 0xff) as u8) as u64 == y & 0xff) by (bit_vector);
    }
    if len == 2 {
        assert(((value >> 0u64) & 0xff) | (((value >> 8u64) & 0xff) << 8) | (0u64 << 16) | (0u64
            << 24) | (0u64 << 32) | (0u64 << 40) | (0u64 << 48) | (0u64 << 56) == value & 0xffff)
            by (bit_vector);
    } else if len == 4 {
        assert(((value >> 0u64) & 0xff) | (((value >> 8u64) & 0xff) << 8) | (((value >> 16u64)
            & 0xff) << 16) | (((value >> 24u64) & 0xff) << 24) | (0u64 << 32) | (0u64 << 40) | (0u64
            << 48) | (0u64 << 56) == value & 0xffff_ffff) by (bit_vector);
    } else {
        assert(((value >> 0u64) & 0xff) | (((value >> 8u64) & 0xff) << 8) | (((value >> 16u64)
            & 0xff) << 16) | (((value >> 24u64) & 0xff) << 24) | (((value >> 32u64) & 0xff) << 32)
            | (((value >> 40u64) & 0xff) << 40) | (((value >> 48u64) & 0xff) << 48) | (((value
            >> 56u64) & 0xff) << 56) == value) by (bit_vector);
    }
}

/// A store followed by a load of the same width at the same address, with no
/// store in between, leaves in the destination register the source register's
/// value cut to that width and extended as the load says. In particular the
/// two agree on the low bytes of the access, and a doubleword comes back
/// whole.
pub proof fn lemma_store_load_round_trip(store: Opcode, load: Opcode, value: u64)
    requires
        spec_is_store(store),
        spec_is_load(load),
        spec_access_len(store) == spec_access_len(load),
    ensures
        spec_loaded(load, spec_le_bytes(value, spec_access_len(store).unwrap())) == spec_extend(
            spec_truncate(value, spec_access_len(store).unwrap()),
            spec_access_len(store).unwrap(),
            spec_is_signed(load),
        ),
        spec_truncate(
            spec_loaded(load, spec_le_bytes(value, spec_access_len(store).unwrap())),
            spec_access_len(store).unwrap(),
        ) == spec_truncate(value, spec_access_len(store).unwrap()),
{
    let len = spec_access_len(store).unwrap();
    lemma_le_round_trip(value, len);
    let t = spec_truncate(value, len);
    assert(((value & 0xffff) | 0xffff_ffff_ffff_0000) & 0xffff == value & 0xffff) by (bit_vector);
    assert(((value & 0xffff_ffff) | 0xffff_ffff_0000_0000) & 0xffff_ffff == value & 0xffff_ffff)
        by (bit_vector);
    assert((value & 0xffff) & 0xffff == value & 0xffff) by (bit_vector);
    assert((value & 0xffff_ffff) & 0xffff_ffff == value & 0xffff_ffff) by (bit_vector);
}

} // verus!
