//! The saved state of a trapped hart, and reflecting a trap into supervisor
//! mode.

use vstd::prelude::*;


verus! {

/// Cause code of an illegal-instruction exception.
pub const CAUSE_ILLEGAL_INSN: u64 = 2;

/// Cause code of a misaligned load.
pub const CAUSE_MISALIGNED_LOAD: u64 = 4;

/// Cause code of a misaligned store.
pub const CAUSE_MISALIGNED_STORE: u64 = 6;

/// Cause code of an environment call from supervisor mode.
pub const CAUSE_SUPERVISOR_ECALL: u64 = 9;

/// Cause code of the machine software interrupt.
pub const CAUSE_MACHINE_SOFTWARE: u64 = 0x8000_0000_0000_0003;

/// Cause code of the machine timer interrupt.
pub const CAUSE_MACHINE_TIMER: u64 = 0x8000_0000_0000_0007;

/// The FS field of the machine status word.
pub const MSTATUS_FS: u64 = 0x6000;

/// What a trap is reported with: its cause and the value that goes with it, a
/// faulting address or the bits of an instruction.
#[derive(Clone, Copy, Debug, PartialEq, Eq, Structural)]
pub struct TrapInfo {
    pub cause: u64,
    pub tval: u64,
}

/// Integer registers, program counter and machine status at the point of a
/// trap. Slot zero of `registers` stands for `x0` and is never written through
/// [`Context::write_reg`].
#[derive(Clone, Copy, Debug)]
pub struct Context {
    pub registers: [u64; 32],
    pub pc: u64,
    pub mstatus: u64,
}

/// A context as a mathematical value: the register file as a sequence of 32
/// words, the program counter and the machine status word.
pub struct ContextView {
    pub registers: Seq<u64>,
    pub pc: u64,
    pub mstatus: u64,
}

impl ContextView {
    /// Register `rd` replaced by `value`; unchanged for `x0`.
    pub open spec fn with_reg(self, rd: u8, value: u64) -> ContextView {
        if rd == 0 {
            self
        } else {
            ContextView { registers: self.registers.update(rd as int, value), ..self }
        }
    }

    /// The program counter moved on by `len`, wrapping at the word size.
    pub open spec fn advanced(self, len: u64) -> ContextView {
        ContextView { pc: vstd::wrapping::u64_specs::wrapping_add(self.pc, len), ..self }
    }

    /// The FS field of machine status set to dirty.
    pub open spec fn fs_dirty(self) -> ContextView {
        ContextView { mstatus: self.mstatus | MSTATUS_FS, ..self }
    }

    /// Whether the FS field of machine status is off.
    pub open spec fn fs_off(self) -> bool {
        self.mstatus & MSTATUS_FS == 0
    }
}

impl View for Context {
    type V = ContextView;

    open spec fn view(&self) -> ContextView {
        ContextView { registers: self.registers@, pc: self.pc, mstatus: self.mstatus }
    }
}

impl Context {
    pub fn new(registers: [u64; 32], pc: u64, mstatus: u64) -> (r: Self)
        ensures
            r@ == (ContextView { registers: registers@, pc, mstatus }),
    {
        Context { registers, pc, mstatus }
    }

    pub fn read_reg(&self, rs: u8) -> (r: u64)
        requires
            rs < 32,
        ensures
            r == self@.registers[rs as int],
    {
        self.registers[rs as usize]
    }

    /// Writes a register; a write to `x0` is discarded.
    pub fn write_reg(&mut self, rd: u8, value: u64)
        requires
            rd < 32,
        ensures
            final(self)@ == old(self)@.with_reg(rd, value),
    {
        if rd != 0 {
            self.registers[rd as usize] = value;
            assert(self@.registers =~= old(self)@.registers.update(rd as int, value));
        }
    }

    /// Moves the program counter past an instruction of `len` bytes.
    pub fn advance_pc(&mut self, len: u64)
        ensures
            final(self)@ == old(self)@.advanced(len),
    {
        self.pc = self.pc.wrapping_add(len);
    }

    /// Marks the floating-point state as modified.
    pub fn mark_fs_dirty(&mut self)
        ensures
            final(self)@ == old(self)@.fs_dirty(),
    {
        self.mstatus = self.mstatus | MSTATUS_FS;
    }

    pub fn fs_is_off(&self) -> (r: bool)
        ensures
            r == self@.fs_off(),
    {
        self.mstatus & MSTATUS_FS == 0
    }
}

/// What has to be written to the supervisor's trap registers when a trap is
/// reflected to it.
#[derive(Clone, Copy, Debug, PartialEq, Eq, Structural)]
pub struct Delegation {
    pub scause: u64,
    pub stval: u64,
    pub sepc: u64,
}

/// The previous privilege mode recorded in a machine status word.
pub open spec fn spec_mpp(mstatus: u64) -> u64 {
    (mstatus >> 11) & 3
}

pub fn mpp(mstatus: u64) -> (r: u64)
    ensures
        r == spec_mpp(mstatus),
        r <= 3,
{
    assert((mstatus >> 11) & 3 <= 3) by (bit_vector);
    (mstatus >> 11) & 3
}

/// Machine status after a trap taken from user or supervisor mode has been
/// handed to the supervisor: SPP records the mode trapped from, SPIE takes the
/// old SIE, SIE is cleared, MPP names supervisor mode, every other bit stays.
pub open spec fn spec_delegated_status(mstatus: u64) -> u64 {
    (mstatus & !0x1922u64) | (if spec_mpp(mstatus) != 0 {
        0x100u64
    } else {
        0u64
    }) | (if mstatus & 2 != 0 {
        0x20u64
    } else {
        0u64
    }) | 0x800u64
}

/// After delegation the machine returns into supervisor mode with supervisor
/// interrupts off, and the bits outside SPP, SPIE, SIE and MPP are untouched.
pub proof fn lemma_delegated_status(mstatus: u64)
    ensures
        spec_mpp(spec_delegated_status(mstatus)) == 1,
        spec_delegated_status(mstatus) & 2 == 0,
        (spec_delegated_status(mstatus) & 0x20 != 0) <==> (mstatus & 2 != 0),
        (spec_delegated_status(mstatus) & 0x100 != 0) <==> (spec_mpp(mstatus) != 0),
        spec_delegated_status(mstatus) & !0x1922u64 == mstatus & !0x1922u64,
{
    let m = mstatus;
    let d = spec_delegated_status(m);
    let a: u64 = if (m >> 11) & 3 != 0 { 0x100 } else { 0 };
    let b: u64 = if m & 2 != 0 { 0x20 } else { 0 };
    assert(d == (m & !0x1922u64) | a | b | 0x800u64);
    assert((a == 0 || a == 0x100) && (b == 0 || b == 0x20) ==> {
        let d = (m & !0x1922u64) | a | b | 0x800u64;
        &&& (d >> 11) & 3 == 1
        &&& d & 2 == 0
        &&& ((d & 0x20 != 0) <==> b != 0)
        &&& ((d & 0x100 != 0) <==> a != 0)
        &&& d & !0x1922u64 == m & !0x1922u64
    }) by (bit_vector);
}

/// Reflects a trap into supervisor mode. The caller writes the returned values
/// to `scause`, `stval` and `sepc`; the context resumes at `stvec` with machine
/// status rewritten as hardware delegation would have it.
pub fn delegate_interrupt(ctx: &mut Context, trap: TrapInfo, stvec: u64) -> (r: Delegation)
    requires
        spec_mpp(old(ctx)@.mstatus) <= 1,
    ensures
        r == (Delegation { scause: trap.cause, stval: trap.tval, sepc: old(ctx)@.pc }),
        final(ctx)@ == (ContextView {
            pc: stvec,
            mstatus: spec_delegated_status(old(ctx)@.mstatus),
            ..old(ctx)@
        }),
{
    let old_status: u64 = ctx.mstatus;
    let mut mstatus: u64 = old_status;
    let from: u64 = mpp(mstatus);
    if from != 0 {
        mstatus = mstatus | 0x100;
    } else {
        mstatus = mstatus & !0x100;
    }
    if mstatus & 2 != 0 {
        mstatus = mstatus | 0x20;
    } else {
        mstatus = mstatus & !0x20;
    }
    mstatus = mstatus & !2;
    mstatus = (mstatus & !0x1800) | 0x800;
    proof {
        let m = old_status;
        let a: u64 = if (m >> 11) & 3 != 0 { 0x100 } else { 0 };
        let with_spp: u64 = if (m >> 11) & 3 != 0 { m | 0x100 } else { m & !0x100u64 };
        let with_spie: u64 = if with_spp & 2 != 0 { with_spp | 0x20 } else { with_spp & !0x20u64 };
        let b: u64 = if m & 2 != 0 { 0x20 } else { 0 };
        assert(mstatus == ((with_spie & !2u64) & !0x1800u64) | 0x800u64);
        assert((a == 0x100 ==> with_spp == m | 0x100) && (a == 0 ==> with_spp == m & !0x100u64) && (a == 0
            || a == 0x100) && (with_spp & 2 != 0 ==> with_spie == with_spp | 0x20) && (with_spp & 2 == 0 ==> with_spie == with_spp
            & !0x20u64) && (m & 2 != 0 ==> b == 0x20) && (m & 2 == 0 ==> b == 0) ==> ((with_spie
            & !2u64) & !0x1800u64) | 0x800u64 == (m & !0x1922u64) | a | b | 0x800u64)
            by (bit_vector);
    }
    let r = Delegation { scause: trap.cause, stval: trap.tval, sepc: ctx.pc };
    ctx.pc = stvec;
    ctx.mstatus = mstatus;
    r
}

} // verus!
