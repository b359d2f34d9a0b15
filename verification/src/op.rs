//! Decoded instructions, as far as the emulation reads them.

use vstd::prelude::*;

verus! {

/// The control and status registers that the emulation knows.
#[derive(Clone, Copy, Debug, PartialEq, Eq, Structural)]
pub enum Csr {
    Fflags,
    Frm,
    Fcsr,
    Time,
    Other,
}

/// The operation an instruction performs. Everything that is neither an integer
/// load or store, a CSR access nor an F/D operation is `Other`.
#[derive(Clone, Copy, Debug, PartialEq, Eq, Structural)]
pub enum Opcode {
    Lh,
    Lw,
    Ld,
    Lhu,
    Lwu,
    Sh,
    Sw,
    Sd,
    Csrrw,
    Csrrs,
    Csrrc,
    Csrrwi,
    Csrrsi,
    Csrrci,
    Flw,
    Fsw,
    FaddS,
    FsubS,
    FmulS,
    FdivS,
    FsqrtS,
    FsgnjS,
    FsgnjnS,
    FsgnjxS,
    FminS,
    FmaxS,
    FcvtWS,
    FcvtWuS,
    FcvtLS,
    FcvtLuS,
    FmvXW,
    FclassS,
    FeqS,
    FltS,
    FleS,
    FcvtSW,
    FcvtSWu,
    FcvtSL,
    FcvtSLu,
    FmvWX,
    FmaddS,
    FmsubS,
    FnmsubS,
    FnmaddS,
    Fld,
    Fsd,
    FaddD,
    FsubD,
    FmulD,
    FdivD,
    FsqrtD,
    FsgnjD,
    FsgnjnD,
    FsgnjxD,
    FminD,
    FmaxD,
    FcvtSD,
    FcvtDS,
    FcvtWD,
    FcvtWuD,
    FcvtLD,
    FcvtLuD,
    FmvXD,
    FclassD,
    FeqD,
    FltD,
    FleD,
    FcvtDW,
    FcvtDWu,
    FcvtDL,
    FcvtDLu,
    FmvDX,
    FmaddD,
    FmsubD,
    FnmsubD,
    FnmaddD,
    Other,
}

/// A decoded instruction: the operation and its operand fields. Fields that an
/// operation does not have are zero. `rd`, `rs1`, `rs2` and `rs3` index either
/// register file, as the operation says; for the immediate forms of the CSR
/// instructions `rs1` is the five-bit immediate itself, as in the encoding.
/// `imm` is the sign-extended offset of a load or store.
#[derive(Clone, Copy, Debug, PartialEq, Eq, Structural)]
pub struct Op {
    pub code: Opcode,
    pub rd: u8,
    pub rs1: u8,
    pub rs2: u8,
    pub rs3: u8,
    pub rm: u8,
    pub imm: i32,
    pub csr: Csr,
}

impl Op {
    /// Register indices lie in `0..32` and the rounding field in `0..8`, as every
    /// instruction encoding guarantees.
    pub open spec fn wf(&self) -> bool {
        self.rd < 32 && self.rs1 < 32 && self.rs2 < 32 && self.rs3 < 32 && self.rm < 8
    }

    /// Executable form of [`Op::wf`].
    pub fn is_wf(&self) -> (r: bool)
        ensures
            r == self.wf(),
    {
        self.rd < 32 && self.rs1 < 32 && self.rs2 < 32 && self.rs3 < 32 && self.rm < 8
    }
}

/// A trapped instruction as it was read and decoded: the two halves read at
/// the program counter, the second being looked at only for an instruction
/// of four bytes, and what they decode to.
#[derive(Clone, Copy, Debug, PartialEq, Eq, Structural)]
pub struct Fetched {
    pub low: u16,
    pub high: u16,
    pub op: Op,
}

/// Length in bytes of the instruction whose lowest sixteen bits are `low`: two
/// for a compressed encoding, four when the two lowest bits are both set.
pub open spec fn spec_insn_len(low: u16) -> u64 {
    if low & 3 == 3 {
        4
    } else {
        2
    }
}

pub fn insn_len(low: u16) -> (r: u64)
    ensures
        r == spec_insn_len(low),
{
    if low & 3 == 3 {
        4
    } else {
        2
    }
}

/// The instruction bits as the trap value reports them: the low half alone for
/// a compressed instruction, else both halves, low half first.
pub open spec fn spec_insn_bits(low: u16, high: u16) -> u32 {
    if low & 3 == 3 {
        (low as u32) | ((high as u32) << 16)
    } else {
        low as u32
    }
}

pub fn insn_bits(low: u16, high: u16) -> (r: u32)
    ensures
        r == spec_insn_bits(low, high),
        (r & 3 == 3) <==> (low & 3 == 3),
{
    assert(low & 3 != 3 ==> (low as u32) & 3 != 3) by (bit_vector);
    assert(low & 3 == 3 ==> ((low as u32) | ((high as u32) << 16)) & 3 == 3) by (bit_vector);
    if low & 3 == 3 {
        (low as u32) | ((high as u32) << 16)
    } else {
        low as u32
    }
}

} // verus!
