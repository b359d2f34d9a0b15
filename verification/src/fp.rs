//! Emulation of the F and D extensions and of the floating-point CSRs on a hart
//! whose hardware lacks them.
//!
//! Register moves, sign injection and classification are carried out here.
//! Memory accesses and rounding arithmetic are handed to the caller as a
//! [`FpWork`]; the caller performs them and reports back through
//! [`complete_load`] or [`complete_arith`].

use vstd::prelude::*;
use crate::op::{Csr, Op, Opcode};
use crate::softfloat::{
    classify_double, classify_single, copy_sign_double, copy_sign_negated_double,
    copy_sign_negated_single, copy_sign_single, copy_sign_xored_double, copy_sign_xored_single,
    negate_double, negate_single, spec_class_double, spec_class_single, SIGN_DOUBLE,
    SIGN_SINGLE,
};
use crate::trap::{
    Context, ContextView, TrapInfo, CAUSE_ILLEGAL_INSN, CAUSE_MISALIGNED_LOAD,
    CAUSE_MISALIGNED_STORE,
};

verus! {

/// Largest rounding mode that is not reserved.
pub const MAX_ROUNDING_MODE: u8 = 4;

/// The five defined exception flags.
pub const FLAGS_MASK: u8 = 0x1f;

/// Rounding field that selects the dynamic rounding mode.
pub const ROUND_DYNAMIC: u8 = 7;

/// Upper half of a register that holds a single-precision value.
pub const NAN_BOX: u64 = 0xffff_ffff_0000_0000;

/// How much floating-point hardware a hart has: none, registers and memory
/// instructions only, or everything.
#[derive(Clone, Copy, Debug, PartialEq, Eq, Structural)]
pub enum FpMode {
    Absent,
    MemOnly,
    Full,
}

impl FpMode {
    /// The mode a probe shows. The probe attempts a floating-point load and then
    /// an addition; `completed` counts the attempts that did not fault.
    pub open spec fn spec_detect(completed: u8) -> FpMode {
        if completed == 0 {
            FpMode::Absent
        } else if completed == 1 {
            FpMode::MemOnly
        } else {
            FpMode::Full
        }
    }

    pub fn detect(completed: u8) -> (r: FpMode)
        ensures
            r == Self::spec_detect(completed),
    {
        if completed == 0 {
            FpMode::Absent
        } else if completed == 1 {
            FpMode::MemOnly
        } else {
            FpMode::Full
        }
    }
}

/// Settles a hart's floating-point mode from its probe. `emulate_all` and
/// `emulate_alu` say which emulations this build carries; a hart that needs one
/// that is missing cannot be brought up.
pub fn init_fp(completed: u8, emulate_all: bool, emulate_alu: bool) -> (r: FpMode)
    requires
        completed == 0 ==> emulate_all,
        completed == 1 ==> emulate_alu,
    ensures
        r == FpMode::spec_detect(completed),
{
    FpMode::detect(completed)
}

/// Floating-point registers, accumulated exception flags and rounding mode of
/// one hart.
#[derive(Clone, Copy, Debug)]
pub struct FpState {
    pub fpr: [u64; 32],
    pub fflags: u8,
    pub frm: u8,
}

/// [`FpState`] as a mathematical value.
pub struct FpStateView {
    pub fpr: Seq<u64>,
    pub fflags: u8,
    pub frm: u8,
}

impl View for FpState {
    type V = FpStateView;

    open spec fn view(&self) -> FpStateView {
        FpStateView { fpr: self.fpr@, fflags: self.fflags, frm: self.frm }
    }
}

impl FpStateView {
    /// The rounding mode is not a reserved one and only defined flags are set.
    pub open spec fn wf(self) -> bool {
        self.fpr.len() == 32 && self.frm <= MAX_ROUNDING_MODE && self.fflags <= FLAGS_MASK
    }

    /// Register `idx` replaced by `value`.
    pub open spec fn with_fpr(self, idx: u8, value: u64) -> FpStateView {
        FpStateView { fpr: self.fpr.update(idx as int, value), ..self }
    }

    /// The flags in `raised` added to the accumulated ones.
    pub open spec fn with_raised(self, raised: u8) -> FpStateView {
        FpStateView { fflags: self.fflags | (raised & FLAGS_MASK), ..self }
    }

    /// Register `idx` read in the given precision: the low half for single.
    pub open spec fn operand(self, idx: u8, single: bool) -> u64 {
        if single {
            self.fpr[idx as int] & 0xffff_ffff
        } else {
            self.fpr[idx as int]
        }
    }
}

impl FpState {
    /// All registers zero, no flag raised, round to nearest even.
    pub fn new() -> (r: Self)
        ensures
            r@.wf(),
            r@.fflags == 0,
            r@.frm == 0,
            forall|i: int| 0 <= i < 32 ==> r@.fpr[i] == 0,
    {
        FpState { fpr: [0u64; 32], fflags: 0, frm: 0 }
    }

    pub fn read_rm(&self) -> (r: u8)
        ensures
            r == self@.frm,
    {
        self.frm
    }

    pub fn read_flags(&self) -> (r: u8)
        ensures
            r == self@.fflags,
    {
        self.fflags
    }

    /// Stores a rounding mode; reserved modes are stored as the largest defined
    /// one.
    pub fn write_rm(&mut self, value: u8)
        ensures
            final(self)@ == (FpStateView { frm: spec_clamp_rm(value), ..old(self)@ }),
            final(self)@.frm <= MAX_ROUNDING_MODE,
    {
        proof {
            lemma_clamp_rm(value);
        }
        self.frm = clamp_rm(value);
    }

    /// Replaces the flags by the defined bits of `value`.
    pub fn write_flags(&mut self, value: u8)
        ensures
            final(self)@ == (FpStateView { fflags: value & FLAGS_MASK, ..old(self)@ }),
            final(self)@.fflags <= FLAGS_MASK,
    {
        assert(value & 0x1f <= 0x1f) by (bit_vector);
        self.fflags = value & FLAGS_MASK;
    }

    /// Adds the flags in `raised` to the accumulated ones.
    pub fn set_flags(&mut self, raised: u8)
        requires
            old(self)@.fflags <= FLAGS_MASK,
        ensures
            final(self)@ == old(self)@.with_raised(raised),
            final(self)@.fflags <= FLAGS_MASK,
            final(self)@.fflags & old(self)@.fflags == old(self)@.fflags,
    {
        let f: u8 = self.fflags;
        assert(f <= 0x1f ==> (f | (raised & 0x1f)) <= 0x1f && (f | (raised & 0x1f)) & f == f)
            by (bit_vector);
        self.fflags = f | (raised & FLAGS_MASK);
    }

    pub fn read_fpr(&self, idx: u8) -> (r: u64)
        requires
            idx < 32,
        ensures
            r == self@.fpr[idx as int],
    {
        self.fpr[idx as usize]
    }

    pub fn write_fpr(&mut self, idx: u8, value: u64)
        requires
            idx < 32,
        ensures
            final(self)@ == old(self)@.with_fpr(idx, value),
    {
        self.fpr[idx as usize] = value;
        assert(self@.fpr =~= old(self)@.fpr.update(idx as int, value));
    }

    /// Reads a register as an operand of the given precision.
    pub fn read_operand(&self, idx: u8, single: bool) -> (r: u64)
        requires
            idx < 32,
        ensures
            r == self@.operand(idx, single),
    {
        if single {
            self.fpr[idx as usize] & 0xffff_ffff
        } else {
            self.fpr[idx as usize]
        }
    }
}

/// The rounding mode stored for a written value: its low three bits, with the
/// reserved modes 5 to 7 replaced by 4.
pub open spec fn spec_clamp_rm(value: u8) -> u8 {
    if value & 7 > MAX_ROUNDING_MODE {
        MAX_ROUNDING_MODE
    } else {
        value & 7
    }
}

pub fn clamp_rm(value: u8) -> (r: u8)
    ensures
        r == spec_clamp_rm(value),
{
    let low: u8 = value & 7;
    if low > MAX_ROUNDING_MODE {
        MAX_ROUNDING_MODE
    } else {
        low
    }
}

/// Every stored rounding mode is one of 0 to 4.
pub proof fn lemma_clamp_rm(value: u8)
    ensures
        spec_clamp_rm(value) <= 4,
        value & 7 <= 4 ==> spec_clamp_rm(value) == value & 7,
{
}

/// Whether `csr` is one of the floating-point CSRs.
pub open spec fn spec_is_fp_csr(csr: Csr) -> bool {
    csr == Csr::Fflags || csr == Csr::Frm || csr == Csr::Fcsr
}

/// The value a floating-point CSR reads as.
pub open spec fn spec_csr_value(s: FpStateView, csr: Csr) -> u64 {
    match csr {
        Csr::Fflags => s.fflags as u64,
        Csr::Frm => s.frm as u64,
        _ => ((s.frm << 5) | s.fflags) as u64,
    }
}

/// The state after `value` has been written to a floating-point CSR.
pub open spec fn spec_csr_written(s: FpStateView, csr: Csr, value: u64) -> FpStateView {
    let low = (value & 0xff) as u8;
    match csr {
        Csr::Fflags => FpStateView { fflags: low & FLAGS_MASK, ..s },
        Csr::Frm => FpStateView { frm: spec_clamp_rm(low), ..s },
        _ => FpStateView { fflags: low & FLAGS_MASK, frm: spec_clamp_rm(low >> 5), ..s },
    }
}

/// Writing `frm` stores one of the modes 0 to 4, and writing `fflags` stores
/// exactly the five low bits of the value; a write to `fcsr` does both.
pub proof fn lemma_csr_clamping(s: FpStateView, csr: Csr, value: u64)
    requires
        s.wf(),
        spec_is_fp_csr(csr),
    ensures
        spec_csr_written(s, csr, value).wf(),
        spec_csr_written(s, csr, value).frm <= 4,
        csr == Csr::Fflags ==> spec_csr_written(s, csr, value).fflags as u64 == value & 0x1f,
        csr == Csr::Frm && value & 7 <= 4 ==> spec_csr_written(s, csr, value).frm as u64 == value
            & 7,
        spec_csr_written(s, csr, value).fpr == s.fpr,
{
    let low = (value & 0xff) as u8;
    assert(low & 0x1f <= 0x1f) by (bit_vector);
    assert(low == (value & 0xff) as u8 ==> (low & 0x1f) as u64 == value & 0x1f && (low & 7) as u64
        == value & 7) by (bit_vector);
}

/// Reads `fflags`, `frm` or `fcsr`. With the FS field off the access is an
/// illegal instruction.
pub fn read_csr(ctx: &Context, state: &FpState, csr: Csr) -> (r: Result<u64, TrapInfo>)
    requires
        spec_is_fp_csr(csr),
    ensures
        ctx@.fs_off() ==> r == Err::<u64, TrapInfo>(
            TrapInfo { cause: CAUSE_ILLEGAL_INSN, tval: 0 },
        ),
        !ctx@.fs_off() ==> r == Ok::<u64, TrapInfo>(spec_csr_value(state@, csr)),
{
    if ctx.fs_is_off() {
        return Err(TrapInfo { cause: CAUSE_ILLEGAL_INSN, tval: 0 });
    }
    Ok(
        match csr {
            Csr::Fflags => state.read_flags() as u64,
            Csr::Frm => state.read_rm() as u64,
            _ => ((state.read_rm() << 5) | state.read_flags()) as u64,
        },
    )
}

/// Writes `fflags`, `frm` or `fcsr`, clamping what is stored, and marks the
/// floating-point state as modified. With the FS field off the access is an
/// illegal instruction and nothing changes.
pub fn write_csr(ctx: &mut Context, state: &mut FpState, csr: Csr, value: u64) -> (r: Result<
    (),
    TrapInfo,
>)
    requires
        spec_is_fp_csr(csr),
    ensures
        old(ctx)@.fs_off() ==> r == Err::<(), TrapInfo>(
            TrapInfo { cause: CAUSE_ILLEGAL_INSN, tval: 0 },
        ) && final(ctx)@ == old(ctx)@ && final(state)@ == old(state)@,
        !old(ctx)@.fs_off() ==> r == Ok::<(), TrapInfo>(()) && final(ctx)@ == old(ctx)@.fs_dirty()
            && final(state)@ == spec_csr_written(old(state)@, csr, value),
{
    if ctx.fs_is_off() {
        return Err(TrapInfo { cause: CAUSE_ILLEGAL_INSN, tval: 0 });
    }
    ctx.mark_fs_dirty();
    let low: u8 = (value & 0xff) as u8;
    match csr {
        Csr::Fflags => {
            state.write_flags(low);
        },
        Csr::Frm => {
            state.write_rm(low);
        },
        _ => {
            state.write_flags(low);
            state.write_rm(low >> 5);
        },
    }
    Ok(())
}

/// The rounding arithmetic that is left to the soft-float library.
#[derive(Clone, Copy, Debug, PartialEq, Eq, Structural)]
pub enum FpArith {
    Add,
    Sub,
    Mul,
    Div,
    Sqrt,
    Min,
    Max,
    MulAdd,
    ToSint32,
    ToUint32,
    ToSint64,
    ToUint64,
    FromSint32,
    FromUint32,
    FromSint64,
    FromUint64,
    Narrow,
    Widen,
    Equal,
    Less,
    LessEqual,
}

/// Where an arithmetic instruction takes its operands from: one, two or three
/// floating-point registers, or the low word or the whole of an integer
/// register.
#[derive(Clone, Copy, Debug, PartialEq, Eq, Structural)]
pub enum FpSource {
    One,
    Two,
    Three,
    Word,
    Long,
}

/// Where an arithmetic instruction puts its result: a floating-point register,
/// or an integer register as a sign-extended word or as a whole.
#[derive(Clone, Copy, Debug, PartialEq, Eq, Structural)]
pub enum FpDest {
    Float,
    Word,
    Long,
}

/// How an arithmetic instruction is carried out: the arithmetic, its operands
/// and destination, whether it rounds, and which operands of a fused
/// multiply-add have their sign flipped first: `neg_c` for `a*b - c`, `neg_a`
/// for `-(a*b) + c`, both for `-(a*b) - c`.
#[derive(Clone, Copy, Debug, PartialEq, Eq, Structural)]
pub struct FpPlan {
    pub arith: FpArith,
    pub source: FpSource,
    pub dest: FpDest,
    pub rounds: bool,
    pub neg_a: bool,
    pub neg_c: bool,
}

/// One arithmetic operation for the soft-float library: operand patterns `a`,
/// `b`, `c` (zero where unused), in double precision if `double`, in single
/// otherwise, to be rounded by mode `rm`.
#[derive(Clone, Copy, Debug, PartialEq, Eq, Structural)]
pub struct FpRequest {
    pub arith: FpArith,
    pub double: bool,
    pub a: u64,
    pub b: u64,
    pub c: u64,
    pub rm: u8,
}

/// What is left to do for an instruction after [`step`].
#[derive(Clone, Copy, Debug, PartialEq, Eq, Structural)]
pub enum FpWork {
    /// Nothing: the instruction is complete.
    Done,
    /// Load four bytes, or eight if `double`, from `addr`, then call
    /// [`complete_load`].
    Load { addr: u64, double: bool },
    /// Store the low four bytes of `value`, or all eight if `double`, at `addr`.
    Store { addr: u64, double: bool, value: u64 },
    /// Compute, then call [`complete_arith`].
    Arith(FpRequest),
}

/// The plan of an arithmetic instruction; `None` for every other operation.
pub open spec fn spec_plan(code: Opcode) -> Option<FpPlan> {
    match code {
        Opcode::FaddS | Opcode::FaddD => Some(
            FpPlan { arith: FpArith::Add, source: FpSource::Two, dest: FpDest::Float, rounds: true, neg_a: false, neg_c: false },
        ),
        Opcode::FsubS | Opcode::FsubD => Some(
            FpPlan { arith: FpArith::Sub, source: FpSource::Two, dest: FpDest::Float, rounds: true, neg_a: false, neg_c: false },
        ),
        Opcode::FmulS | Opcode::FmulD => Some(
            FpPlan { arith: FpArith::Mul, source: FpSource::Two, dest: FpDest::Float, rounds: true, neg_a: false, neg_c: false },
        ),
        Opcode::FdivS | Opcode::FdivD => Some(
            FpPlan { arith: FpArith::Div, source: FpSource::Two, dest: FpDest::Float, rounds: true, neg_a: false, neg_c: false },
        ),
        Opcode::FsqrtS | Opcode::FsqrtD => Some(
            FpPlan { arith: FpArith::Sqrt, source: FpSource::One, dest: FpDest::Float, rounds: true, neg_a: false, neg_c: false },
        ),
        Opcode::FminS | Opcode::FminD => Some(
            FpPlan { arith: FpArith::Min, source: FpSource::Two, dest: FpDest::Float, rounds: false, neg_a: false, neg_c: false },
        ),
        Opcode::FmaxS | Opcode::FmaxD => Some(
            FpPlan { arith: FpArith::Max, source: FpSource::Two, dest: FpDest::Float, rounds: false, neg_a: false, neg_c: false },
        ),
        Opcode::FcvtWS | Opcode::FcvtWD => Some(
            FpPlan { arith: FpArith::ToSint32, source: FpSource::One, dest: FpDest::Word, rounds: true, neg_a: false, neg_c: false },
        ),
        Opcode::FcvtWuS | Opcode::FcvtWuD => Some(
            FpPlan { arith: FpArith::ToUint32, source: FpSource::One, dest: FpDest::Word, rounds: true, neg_a: false, neg_c: false },
        ),
        Opcode::FcvtLS | Opcode::FcvtLD => Some(
            FpPlan { arith: FpArith::ToSint64, source: FpSource::One, dest: FpDest::Long, rounds: true, neg_a: false, neg_c: false },
        ),
        Opcode::FcvtLuS | Opcode::FcvtLuD => Some(
            FpPlan { arith: FpArith::ToUint64, source: FpSource::One, dest: FpDest::Long, rounds: true, neg_a: false, neg_c: false },
        ),
        Opcode::FeqS | Opcode::FeqD => Some(
            FpPlan { arith: FpArith::Equal, source: FpSource::Two, dest: FpDest::Long, rounds: false, neg_a: false, neg_c: false },
        ),
        Opcode::FltS | Opcode::FltD => Some(
            FpPlan { arith: FpArith::Less, source: FpSource::Two, dest: FpDest::Long, rounds: false, neg_a: false, neg_c: false },
        ),
        Opcode::FleS | Opcode::FleD => Some(
            FpPlan { arith: FpArith::LessEqual, source: FpSource::Two, dest: FpDest::Long, rounds: false, neg_a: false, neg_c: false },
        ),
        Opcode::FcvtSW | Opcode::FcvtDW => Some(
            FpPlan { arith: FpArith::FromSint32, source: FpSource::Word, dest: FpDest::Float, rounds: true, neg_a: false, neg_c: false },
        ),
        Opcode::FcvtSWu | Opcode::FcvtDWu => Some(
            FpPlan { arith: FpArith::FromUint32, source: FpSource::Word, dest: FpDest::Float, rounds: true, neg_a: false, neg_c: false },
        ),
        Opcode::FcvtSL | Opcode::FcvtDL => Some(
            FpPlan { arith: FpArith::FromSint64, source: FpSource::Long, dest: FpDest::Float, rounds: true, neg_a: false, neg_c: false },
        ),
        Opcode::FcvtSLu | Opcode::FcvtDLu => Some(
            FpPlan { arith: FpArith::FromUint64, source: FpSource::Long, dest: FpDest::Float, rounds: true, neg_a: false, neg_c: false },
        ),
        Opcode::FmaddS | Opcode::FmaddD => Some(
            FpPlan { arith: FpArith::MulAdd, source: FpSource::Three, dest: FpDest::Float, rounds: true, neg_a: false, neg_c: false },
        ),
        Opcode::FmsubS | Opcode::FmsubD => Some(
            FpPlan { arith: FpArith::MulAdd, source: FpSource::Three, dest: FpDest::Float, rounds: true, neg_a: false, neg_c: true },
        ),
        Opcode::FnmsubS | Opcode::FnmsubD => Some(
            FpPlan { arith: FpArith::MulAdd, source: FpSource::Three, dest: FpDest::Float, rounds: true, neg_a: true, neg_c: false },
        ),
        Opcode::FnmaddS | Opcode::FnmaddD => Some(
            FpPlan { arith: FpArith::MulAdd, source: FpSource::Three, dest: FpDest::Float, rounds: true, neg_a: true, neg_c: true },
        ),
        Opcode::FcvtSD => Some(
            FpPlan { arith: FpArith::Narrow, source: FpSource::One, dest: FpDest::Float, rounds: true, neg_a: false, neg_c: false },
        ),
        Opcode::FcvtDS => Some(
            FpPlan { arith: FpArith::Widen, source: FpSource::One, dest: FpDest::Float, rounds: false, neg_a: false, neg_c: false },
        ),
        _ => None,
    }
}

pub fn plan(code: Opcode) -> (r: Option<FpPlan>)
    ensures
        r == spec_plan(code),
{
    match code {
        Opcode::FaddS | Opcode::FaddD => Some(
            FpPlan { arith: FpArith::Add, source: FpSource::Two, dest: FpDest::Float, rounds: true, neg_a: false, neg_c: false },
        ),
        Opcode::FsubS | Opcode::FsubD => Some(
            FpPlan { arith: FpArith::Sub, source: FpSource::Two, dest: FpDest::Float, rounds: true, neg_a: false, neg_c: false },
        ),
        Opcode::FmulS | Opcode::FmulD => Some(
            FpPlan { arith: FpArith::Mul, source: FpSource::Two, dest: FpDest::Float, rounds: true, neg_a: false, neg_c: false },
        ),
        Opcode::FdivS | Opcode::FdivD => Some(
            FpPlan { arith: FpArith::Div, source: FpSource::Two, dest: FpDest::Float, rounds: true, neg_a: false, neg_c: false },
        ),
        Opcode::FsqrtS | Opcode::FsqrtD => Some(
            FpPlan { arith: FpArith::Sqrt, source: FpSource::One, dest: FpDest::Float, rounds: true, neg_a: false, neg_c: false },
        ),
        Opcode::FminS | Opcode::FminD => Some(
            FpPlan { arith: FpArith::Min, source: FpSource::Two, dest: FpDest::Float, rounds: false, neg_a: false, neg_c: false },
        ),
        Opcode::FmaxS | Opcode::FmaxD => Some(
            FpPlan { arith: FpArith::Max, source: FpSource::Two, dest: FpDest::Float, rounds: false, neg_a: false, neg_c: false },
        ),
        Opcode::FcvtWS | Opcode::FcvtWD => Some(
            FpPlan { arith: FpArith::ToSint32, source: FpSource::One, dest: FpDest::Word, rounds: true, neg_a: false, neg_c: false },
        ),
        Opcode::FcvtWuS | Opcode::FcvtWuD => Some(
            FpPlan { arith: FpArith::ToUint32, source: FpSource::One, dest: FpDest::Word, rounds: true, neg_a: false, neg_c: false },
        ),
        Opcode::FcvtLS | Opcode::FcvtLD => Some(
            FpPlan { arith: FpArith::ToSint64, source: FpSource::One, dest: FpDest::Long, rounds: true, neg_a: false, neg_c: false },
        ),
        Opcode::FcvtLuS | Opcode::FcvtLuD => Some(
            FpPlan { arith: FpArith::ToUint64, source: FpSource::One, dest: FpDest::Long, rounds: true, neg_a: false, neg_c: false },
        ),
        Opcode::FeqS | Opcode::FeqD => Some(
            FpPlan { arith: FpArith::Equal, source: FpSource::Two, dest: FpDest::Long, rounds: false, neg_a: false, neg_c: false },
        ),
        Opcode::FltS | Opcode::FltD => Some(
            FpPlan { arith: FpArith::Less, source: FpSource::Two, dest: FpDest::Long, rounds: false, neg_a: false, neg_c: false },
        ),
        Opcode::FleS | Opcode::FleD => Some(
            FpPlan { arith: FpArith::LessEqual, source: FpSource::Two, dest: FpDest::Long, rounds: false, neg_a: false, neg_c: false },
        ),
        Opcode::FcvtSW | Opcode::FcvtDW => Some(
            FpPlan { arith: FpArith::FromSint32, source: FpSource::Word, dest: FpDest::Float, rounds: true, neg_a: false, neg_c: false },
        ),
        Opcode::FcvtSWu | Opcode::FcvtDWu => Some(
            FpPlan { arith: FpArith::FromUint32, source: FpSource::Word, dest: FpDest::Float, rounds: true, neg_a: false, neg_c: false },
        ),
        Opcode::FcvtSL | Opcode::FcvtDL => Some(
            FpPlan { arith: FpArith::FromSint64, source: FpSource::Long, dest: FpDest::Float, rounds: true, neg_a: false, neg_c: false },
        ),
        Opcode::FcvtSLu | Opcode::FcvtDLu => Some(
            FpPlan { arith: FpArith::FromUint64, source: FpSource::Long, dest: FpDest::Float, rounds: true, neg_a: false, neg_c: false },
        ),
        Opcode::FmaddS | Opcode::FmaddD => Some(
            FpPlan { arith: FpArith::MulAdd, source: FpSource::Three, dest: FpDest::Float, rounds: true, neg_a: false, neg_c: false },
        ),
        Opcode::FmsubS | Opcode::FmsubD => Some(
            FpPlan { arith: FpArith::MulAdd, source: FpSource::Three, dest: FpDest::Float, rounds: true, neg_a: false, neg_c: true },
        ),
        Opcode::FnmsubS | Opcode::FnmsubD => Some(
            FpPlan { arith: FpArith::MulAdd, source: FpSource::Three, dest: FpDest::Float, rounds: true, neg_a: true, neg_c: false },
        ),
        Opcode::FnmaddS | Opcode::FnmaddD => Some(
            FpPlan { arith: FpArith::MulAdd, source: FpSource::Three, dest: FpDest::Float, rounds: true, neg_a: true, neg_c: true },
        ),
        Opcode::FcvtSD => Some(
            FpPlan { arith: FpArith::Narrow, source: FpSource::One, dest: FpDest::Float, rounds: true, neg_a: false, neg_c: false },
        ),
        Opcode::FcvtDS => Some(
            FpPlan { arith: FpArith::Widen, source: FpSource::One, dest: FpDest::Float, rounds: false, neg_a: false, neg_c: false },
        ),
        _ => None,
    }
}

/// Whether the operation belongs to the D extension.
pub open spec fn spec_is_double(code: Opcode) -> bool {
    match code {
        Opcode::Fld
        | Opcode::Fsd
        | Opcode::FaddD
        | Opcode::FsubD
        | Opcode::FmulD
        | Opcode::FdivD
        | Opcode::FsqrtD
        | Opcode::FsgnjD
        | Opcode::FsgnjnD
        | Opcode::FsgnjxD
        | Opcode::FminD
        | Opcode::FmaxD
        | Opcode::FcvtSD
        | Opcode::FcvtDS
        | Opcode::FcvtWD
        | Opcode::FcvtWuD
        | Opcode::FcvtLD
        | Opcode::FcvtLuD
        | Opcode::FmvXD
        | Opcode::FclassD
        | Opcode::FeqD
        | Opcode::FltD
        | Opcode::FleD
        | Opcode::FcvtDW
        | Opcode::FcvtDWu
        | Opcode::FcvtDL
        | Opcode::FcvtDLu
        | Opcode::FmvDX
        | Opcode::FmaddD
        | Opcode::FmsubD
        | Opcode::FnmsubD
        | Opcode::FnmaddD => true,
        _ => false,
    }
}

pub fn is_double(code: Opcode) -> (r: bool)
    ensures
        r == spec_is_double(code),
{
    match code {
        Opcode::Fld
        | Opcode::Fsd
        | Opcode::FaddD
        | Opcode::FsubD
        | Opcode::FmulD
        | Opcode::FdivD
        | Opcode::FsqrtD
        | Opcode::FsgnjD
        | Opcode::FsgnjnD
        | Opcode::FsgnjxD
        | Opcode::FminD
        | Opcode::FmaxD
        | Opcode::FcvtSD
        | Opcode::FcvtDS
        | Opcode::FcvtWD
        | Opcode::FcvtWuD
        | Opcode::FcvtLD
        | Opcode::FcvtLuD
        | Opcode::FmvXD
        | Opcode::FclassD
        | Opcode::FeqD
        | Opcode::FltD
        | Opcode::FleD
        | Opcode::FcvtDW
        | Opcode::FcvtDWu
        | Opcode::FcvtDL
        | Opcode::FcvtDLu
        | Opcode::FmvDX
        | Opcode::FmaddD
        | Opcode::FmsubD
        | Opcode::FnmsubD
        | Opcode::FnmaddD => true,
        _ => false,
    }
}

/// Whether the operation is a move, sign injection or classification, which
/// [`step`] completes by itself.
pub open spec fn spec_is_direct(code: Opcode) -> bool {
    match code {
        Opcode::FsgnjS
        | Opcode::FsgnjnS
        | Opcode::FsgnjxS
        | Opcode::FmvXW
        | Opcode::FclassS
        | Opcode::FmvWX
        | Opcode::FsgnjD
        | Opcode::FsgnjnD
        | Opcode::FsgnjxD
        | Opcode::FmvXD
        | Opcode::FclassD
        | Opcode::FmvDX => true,
        _ => false,
    }
}

pub fn is_direct(code: Opcode) -> (r: bool)
    ensures
        r == spec_is_direct(code),
{
    match code {
        Opcode::FsgnjS
        | Opcode::FsgnjnS
        | Opcode::FsgnjxS
        | Opcode::FmvXW
        | Opcode::FclassS
        | Opcode::FmvWX
        | Opcode::FsgnjD
        | Opcode::FsgnjnD
        | Opcode::FsgnjxD
        | Opcode::FmvXD
        | Opcode::FclassD
        | Opcode::FmvDX => true,
        _ => false,
    }
}

/// Whether the operation is a floating-point load or store.
pub open spec fn spec_is_fp_memory(code: Opcode) -> bool {
    code == Opcode::Flw || code == Opcode::Fsw || code == Opcode::Fld || code == Opcode::Fsd
}

/// Whether the operation belongs to the F or D extension.
pub open spec fn spec_is_fp_code(code: Opcode) -> bool {
    spec_is_fp_memory(code) || spec_is_direct(code) || spec_plan(code).is_some()
}

/// Whether an instruction has to be emulated as a floating-point one: it is of
/// the F or D extension and the hart cannot execute it.
pub fn is_fp(mode: FpMode, op: &Op) -> (r: bool)
    ensures
        r == (mode != FpMode::Full && spec_is_fp_code(op.code)),
{
    if mode == FpMode::Full {
        return false;
    }
    match op.code {
        Opcode::Flw | Opcode::Fsw | Opcode::Fld | Opcode::Fsd => true,
        code => is_direct(code) || plan(code).is_some(),
    }
}

/// The low word of a register.
pub open spec fn spec_low_word(x: u64) -> u32 {
    (x & 0xffff_ffff) as u32
}

pub fn low_word(x: u64) -> (r: u32)
    ensures
        r == spec_low_word(x),
{
    assert(x & 0xffff_ffff <= 0xffff_ffff) by (bit_vector);
    (x & 0xffff_ffff) as u32
}

/// A single-precision pattern as a register holds it: upper half all ones.
pub open spec fn spec_boxed(v: u32) -> u64 {
    (v as u64) | NAN_BOX
}

pub fn boxed(v: u32) -> (r: u64)
    ensures
        r == spec_boxed(v),
{
    (v as u64) | NAN_BOX
}

/// A word sign-extended to register width.
pub open spec fn spec_sext32(v: u32) -> u64 {
    if v & 0x8000_0000 != 0 {
        (v as u64) | 0xffff_ffff_0000_0000
    } else {
        v as u64
    }
}

pub fn sext32(v: u32) -> (r: u64)
    ensures
        r == spec_sext32(v),
{
    if v & 0x8000_0000 != 0 {
        (v as u64) | 0xffff_ffff_0000_0000
    } else {
        v as u64
    }
}

/// The address a load or store refers to: base register plus offset, wrapping.
pub open spec fn spec_effective_addr(c: ContextView, op: Op) -> u64 {
    vstd::wrapping::u64_specs::wrapping_add_signed(c.registers[op.rs1 as int], op.imm as i64)
}

pub fn effective_addr(ctx: &Context, op: &Op) -> (r: u64)
    requires
        op.wf(),
    ensures
        r == spec_effective_addr(ctx@, *op),
{
    ctx.read_reg(op.rs1).wrapping_add_signed(op.imm as i64)
}

/// An operand pattern with its sign flipped, in the given precision.
pub open spec fn spec_negated(v: u64, single: bool) -> u64 {
    if single {
        (spec_low_word(v) ^ SIGN_SINGLE) as u64
    } else {
        v ^ SIGN_DOUBLE
    }
}

fn negated(v: u64, single: bool) -> (r: u64)
    ensures
        r == spec_negated(v, single),
{
    if single {
        negate_single(low_word(v)) as u64
    } else {
        negate_double(v)
    }
}

/// Whether the operation reads its floating-point operands in single
/// precision.
pub open spec fn spec_source_single(code: Opcode) -> bool {
    !spec_is_double(code) || code == Opcode::FcvtDS
}

/// Whether the operation leaves a single-precision result.
pub open spec fn spec_dest_single(code: Opcode) -> bool {
    !spec_is_double(code) || code == Opcode::FcvtSD
}

/// The rounding mode an instruction runs under: its own rounding field, or the
/// hart's mode where the field says dynamic or the operation does not round.
pub open spec fn spec_effective_rm(s: FpStateView, op: Op, p: FpPlan) -> u8 {
    if p.rounds && op.rm != ROUND_DYNAMIC {
        op.rm
    } else {
        s.frm
    }
}

/// Whether a rounding instruction names one of the reserved modes.
pub open spec fn spec_rm_reserved(op: Op, p: FpPlan) -> bool {
    p.rounds && op.rm > MAX_ROUNDING_MODE && op.rm != ROUND_DYNAMIC
}

/// The request an arithmetic instruction makes.
pub open spec fn spec_request(c: ContextView, s: FpStateView, op: Op, p: FpPlan) -> FpRequest {
    let single = spec_source_single(op.code);
    let fa = s.operand(op.rs1, single);
    let fc = s.operand(op.rs3, single);
    FpRequest {
        arith: p.arith,
        double: spec_is_double(op.code),
        a: match p.source {
            FpSource::Word => c.registers[op.rs1 as int] & 0xffff_ffff,
            FpSource::Long => c.registers[op.rs1 as int],
            _ => if p.neg_a {
                spec_negated(fa, single)
            } else {
                fa
            },
        },
        b: match p.source {
            FpSource::Two | FpSource::Three => s.operand(op.rs2, single),
            _ => 0,
        },
        c: match p.source {
            FpSource::Three => if p.neg_c {
                spec_negated(fc, single)
            } else {
                fc
            },
            _ => 0,
        },
        rm: spec_effective_rm(s, op, p),
    }
}

/// Whether a move or classification writes an integer register.
pub open spec fn spec_direct_to_int(code: Opcode) -> bool {
    code == Opcode::FmvXW || code == Opcode::FmvXD || code == Opcode::FclassS || code
        == Opcode::FclassD
}

/// The value a move, sign injection or classification produces.
pub open spec fn spec_direct_value(c: ContextView, s: FpStateView, op: Op) -> u64 {
    let x = c.registers[op.rs1 as int];
    let a = s.fpr[op.rs1 as int];
    let b = s.fpr[op.rs2 as int];
    let a32 = spec_low_word(a);
    let b32 = spec_low_word(b);
    match op.code {
        Opcode::FsgnjS => spec_boxed((a32 & !SIGN_SINGLE) | (b32 & SIGN_SINGLE)),
        Opcode::FsgnjnS => spec_boxed((a32 & !SIGN_SINGLE) | (!b32 & SIGN_SINGLE)),
        Opcode::FsgnjxS => spec_boxed(a32 ^ (b32 & SIGN_SINGLE)),
        Opcode::FmvXW => spec_sext32(a32),
        Opcode::FclassS => 1u64 << (spec_class_single(a32) as u64),
        Opcode::FmvWX => spec_boxed(spec_low_word(x)),
        Opcode::FsgnjD => (a & !SIGN_DOUBLE) | (b & SIGN_DOUBLE),
        Opcode::FsgnjnD => (a & !SIGN_DOUBLE) | (!b & SIGN_DOUBLE),
        Opcode::FsgnjxD => a ^ (b & SIGN_DOUBLE),
        Opcode::FmvXD => a,
        Opcode::FclassD => 1u64 << (spec_class_double(a) as u64),
        _ => x,
    }
}

/// Outcome of [`step`]: its result and the context and state it leaves.
pub struct FpStep {
    pub result: Result<FpWork, TrapInfo>,
    pub ctx: ContextView,
    pub state: FpStateView,
}

/// What [`step`] does with an instruction.
///
/// With FS off, for an operation outside the F and D extensions and for a
/// reserved rounding mode: an illegal-instruction trap. For a load or store:
/// a misaligned trap with the address if it is not a multiple of the access
/// size, else the access as work. For a move, sign injection or
/// classification: the result written, FS dirtied if it went to a
/// floating-point register. For arithmetic: the request as work. Only the
/// third case changes context or state.
pub open spec fn spec_step(c: ContextView, s: FpStateView, op: Op) -> FpStep {
    let illegal = FpStep {
        result: Err(TrapInfo { cause: CAUSE_ILLEGAL_INSN, tval: 0 }),
        ctx: c,
        state: s,
    };
    let addr = spec_effective_addr(c, op);
    let double = spec_is_double(op.code);
    let align: u64 = if double {
        7
    } else {
        3
    };
    if c.fs_off() {
        illegal
    } else if op.code == Opcode::Flw || op.code == Opcode::Fld {
        FpStep {
            result: if addr & align != 0 {
                Err(TrapInfo { cause: CAUSE_MISALIGNED_LOAD, tval: addr })
            } else {
                Ok(FpWork::Load { addr, double })
            },
            ctx: c,
            state: s,
        }
    } else if op.code == Opcode::Fsw || op.code == Opcode::Fsd {
        FpStep {
            result: if addr & align != 0 {
                Err(TrapInfo { cause: CAUSE_MISALIGNED_STORE, tval: addr })
            } else {
                Ok(FpWork::Store { addr, double, value: s.operand(op.rs2, !double) })
            },
            ctx: c,
            state: s,
        }
    } else if spec_is_direct(op.code) {
        let value = spec_direct_value(c, s, op);
        if spec_direct_to_int(op.code) {
            FpStep { result: Ok(FpWork::Done), ctx: c.with_reg(op.rd, value), state: s }
        } else {
            FpStep { result: Ok(FpWork::Done), ctx: c.fs_dirty(), state: s.with_fpr(op.rd, value) }
        }
    } else {
        match spec_plan(op.code) {
            Some(p) => if spec_rm_reserved(op, p) {
                illegal
            } else {
                FpStep { result: Ok(FpWork::Arith(spec_request(c, s, op, p))), ctx: c, state: s }
            },
            None => illegal,
        }
    }
}

fn direct_value(ctx: &Context, state: &FpState, op: &Op) -> (r: u64)
    requires
        op.wf(),
        spec_is_direct(op.code),
    ensures
        r == spec_direct_value(ctx@, state@, *op),
{
    let x: u64 = ctx.read_reg(op.rs1);
    let a: u64 = state.read_fpr(op.rs1);
    let b: u64 = state.read_fpr(op.rs2);
    let a32: u32 = low_word(a);
    let b32: u32 = low_word(b);
    match op.code {
        Opcode::FsgnjS => boxed(copy_sign_single(a32, b32)),
        Opcode::FsgnjnS => boxed(copy_sign_negated_single(a32, b32)),
        Opcode::FsgnjxS => boxed(copy_sign_xored_single(a32, b32)),
        Opcode::FmvXW => sext32(a32),
        Opcode::FclassS => 1u64 << (classify_single(a32) as u64),
        Opcode::FmvWX => boxed(low_word(x)),
        Opcode::FsgnjD => copy_sign_double(a, b),
        Opcode::FsgnjnD => copy_sign_negated_double(a, b),
        Opcode::FsgnjxD => copy_sign_xored_double(a, b),
        Opcode::FmvXD => a,
        Opcode::FclassD => 1u64 << (classify_double(a) as u64),
        _ => x,
    }
}

fn request(ctx: &Context, state: &FpState, op: &Op, p: FpPlan) -> (r: FpRequest)
    requires
        op.wf(),
    ensures
        r == spec_request(ctx@, state@, *op, p),
{
    let double: bool = is_double(op.code);
    let single: bool = !double || op.code == Opcode::FcvtDS;
    let fa: u64 = state.read_operand(op.rs1, single);
    let fc: u64 = state.read_operand(op.rs3, single);
    let a: u64 = match p.source {
        FpSource::Word => ctx.read_reg(op.rs1) & 0xffff_ffff,
        FpSource::Long => ctx.read_reg(op.rs1),
        _ => if p.neg_a {
            negated(fa, single)
        } else {
            fa
        },
    };
    let b: u64 = match p.source {
        FpSource::Two | FpSource::Three => state.read_operand(op.rs2, single),
        _ => 0,
    };
    let c: u64 = match p.source {
        FpSource::Three => if p.neg_c {
            negated(fc, single)
        } else {
            fc
        },
        _ => 0,
    };
    let rm: u8 = if p.rounds && op.rm != ROUND_DYNAMIC {
        op.rm
    } else {
        state.read_rm()
    };
    FpRequest { arith: p.arith, double, a, b, c, rm }
}

/// Emulates one instruction of the F or D extension as far as it can be done
/// without memory and without rounding arithmetic, and says what is left.
pub fn step(ctx: &mut Context, state: &mut FpState, op: &Op) -> (r: Result<FpWork, TrapInfo>)
    requires
        op.wf(),
    ensures
        spec_step(old(ctx)@, old(state)@, *op) == (FpStep {
            result: r,
            ctx: final(ctx)@,
            state: final(state)@,
        }),
{
    let illegal = TrapInfo { cause: CAUSE_ILLEGAL_INSN, tval: 0 };
    if ctx.fs_is_off() {
        return Err(illegal);
    }
    let double: bool = is_double(op.code);
    let align: u64 = if double {
        7
    } else {
        3
    };
    match op.code {
        Opcode::Flw | Opcode::Fld => {
            let addr: u64 = effective_addr(ctx, op);
            if addr & align != 0 {
                Err(TrapInfo { cause: CAUSE_MISALIGNED_LOAD, tval: addr })
            } else {
                Ok(FpWork::Load { addr, double })
            }
        },
        Opcode::Fsw | Opcode::Fsd => {
            let addr: u64 = effective_addr(ctx, op);
            if addr & align != 0 {
                Err(TrapInfo { cause: CAUSE_MISALIGNED_STORE, tval: addr })
            } else {
                Ok(FpWork::Store { addr, double, value: state.read_operand(op.rs2, !double) })
            }
        },
        code => {
            if is_direct(code) {
                let value: u64 = direct_value(ctx, state, op);
                match code {
                    Opcode::FmvXW | Opcode::FmvXD | Opcode::FclassS | Opcode::FclassD => {
                        ctx.write_reg(op.rd, value);
                    },
                    _ => {
                        state.write_fpr(op.rd, value);
                        ctx.mark_fs_dirty();
                    },
                }
                Ok(FpWork::Done)
            } else {
                match plan(code) {
                    Some(p) => {
                        if p.rounds && op.rm > MAX_ROUNDING_MODE && op.rm != ROUND_DYNAMIC {
                            Err(illegal)
                        } else {
                            Ok(FpWork::Arith(request(ctx, state, op, p)))
                        }
                    },
                    None => Err(illegal),
                }
            }
        },
    }
}

/// The register value a floating-point load leaves: the loaded word boxed for
/// a single-precision load, the loaded doubleword otherwise.
pub open spec fn spec_loaded_value(code: Opcode, loaded: u64) -> u64 {
    if code == Opcode::Fld {
        loaded
    } else {
        spec_boxed(spec_low_word(loaded))
    }
}

/// Finishes a floating-point load with the data that memory returned.
pub fn complete_load(ctx: &mut Context, state: &mut FpState, op: &Op, loaded: u64)
    requires
        op.wf(),
        op.code == Opcode::Flw || op.code == Opcode::Fld,
    ensures
        final(ctx)@ == old(ctx)@.fs_dirty(),
        final(state)@ == old(state)@.with_fpr(op.rd, spec_loaded_value(op.code, loaded)),
{
    let value: u64 = if op.code == Opcode::Fld {
        loaded
    } else {
        boxed(low_word(loaded))
    };
    state.write_fpr(op.rd, value);
    ctx.mark_fs_dirty();
}

/// The pattern that arithmetic leaves in a floating-point register: the
/// result, boxed if single.
pub open spec fn spec_result_bits(code: Opcode, value: u64) -> u64 {
    if spec_dest_single(code) {
        spec_boxed(spec_low_word(value))
    } else {
        value
    }
}

/// Context and state after arithmetic has returned `value` and raised `flags`:
/// the flags are added to the accumulated ones, the result goes to its
/// destination, and FS is dirtied if a floating-point register was written or
/// a flag was raised.
pub open spec fn spec_completed(c: ContextView, s: FpStateView, op: Op, value: u64, flags: u8) -> (
    ContextView,
    FpStateView,
) {
    let p = spec_plan(op.code).unwrap();
    let raised = s.with_raised(flags);
    let touched = if flags & FLAGS_MASK != 0 {
        c.fs_dirty()
    } else {
        c
    };
    match p.dest {
        FpDest::Float => (c.fs_dirty(), raised.with_fpr(op.rd, spec_result_bits(op.code, value))),
        FpDest::Word => (touched.with_reg(op.rd, spec_sext32(spec_low_word(value))), raised),
        FpDest::Long => (touched.with_reg(op.rd, value), raised),
    }
}

/// Finishes an arithmetic instruction with the result pattern and the
/// exception flags that the soft-float library produced for the request.
pub fn complete_arith(ctx: &mut Context, state: &mut FpState, op: &Op, value: u64, flags: u8)
    requires
        op.wf(),
        old(state)@.wf(),
        spec_plan(op.code).is_some(),
    ensures
        (final(ctx)@, final(state)@) == spec_completed(old(ctx)@, old(state)@, *op, value, flags),
        final(state)@.wf(),
        final(state)@.fflags & old(state)@.fflags == old(state)@.fflags,
{
    let p: FpPlan = plan(op.code).unwrap();
    state.set_flags(flags);
    let raised: bool = flags & FLAGS_MASK != 0;
    match p.dest {
        FpDest::Float => {
            let single: bool = !is_double(op.code) || op.code == Opcode::FcvtSD;
            let bits: u64 = if single {
                boxed(low_word(value))
            } else {
                value
            };
            state.write_fpr(op.rd, bits);
            ctx.mark_fs_dirty();
        },
        FpDest::Word => {
            if raised {
                ctx.mark_fs_dirty();
            }
            ctx.write_reg(op.rd, sext32(low_word(value)));
        },
        FpDest::Long => {
            if raised {
                ctx.mark_fs_dirty();
            }
            ctx.write_reg(op.rd, value);
        },
    }
}

} // verus!
