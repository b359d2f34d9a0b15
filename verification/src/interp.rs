//! Emulation of an instruction that the hardware refused: CSR accesses here,
//! the F and D extensions through [`crate::fp`].

use vstd::prelude::*;
use crate::fp::{
    is_fp, read_csr as read_fp_csr, spec_csr_value, spec_csr_written, spec_is_fp_code,
    spec_is_fp_csr, spec_step, step as fp_step, write_csr as write_fp_csr, FpMode, FpState,
    FpStateView, FpStep, FpWork,
};
use crate::op::{Csr, Op, Opcode};
use crate::trap::{Context, ContextView, TrapInfo, CAUSE_ILLEGAL_INSN};

verus! {

/// The trap for an instruction that cannot be emulated.
pub open spec fn spec_illegal() -> TrapInfo {
    TrapInfo { cause: CAUSE_ILLEGAL_INSN, tval: 0 }
}

/// Whether the operation is one of the six CSR instructions.
pub open spec fn spec_is_csr_op(code: Opcode) -> bool {
    code == Opcode::Csrrw || code == Opcode::Csrrs || code == Opcode::Csrrc || code
        == Opcode::Csrrwi || code == Opcode::Csrrsi || code == Opcode::Csrrci
}

/// The operand of a CSR instruction: register `rs1`, or for the immediate
/// forms the five-bit immediate, which the `rs1` field holds.
pub open spec fn spec_csr_operand(c: ContextView, op: Op) -> u64 {
    if op.code == Opcode::Csrrw || op.code == Opcode::Csrrs || op.code == Opcode::Csrrc {
        c.registers[op.rs1 as int]
    } else {
        op.rs1 as u64
    }
}

/// What a CSR reads as: the machine timer for `time`, the emulated value for
/// the floating-point CSRs unless FS is off; anything else is illegal.
pub open spec fn spec_csr_read(c: ContextView, s: FpStateView, csr: Csr, time: u64) -> Result<
    u64,
    TrapInfo,
> {
    match csr {
        Csr::Time => Ok(time),
        Csr::Other => Err(spec_illegal()),
        _ => if c.fs_off() {
            Err(spec_illegal())
        } else {
            Ok(spec_csr_value(s, csr))
        },
    }
}

/// The value a CSR instruction writes, given the value read.
pub open spec fn spec_csr_new_value(code: Opcode, read: u64, operand: u64) -> u64 {
    if code == Opcode::Csrrw || code == Opcode::Csrrwi {
        operand
    } else if code == Opcode::Csrrs || code == Opcode::Csrrsi {
        read | operand
    } else {
        read & !operand
    }
}

/// What a CSR instruction does. The swapping forms read only if `rd` is not
/// `x0` and always write; the set and clear forms always read and write only
/// if the `rs1` field is not zero. A failed read or write is an
/// illegal-instruction trap that changes nothing; only the floating-point CSRs
/// can be written.
pub open spec fn spec_csr_step(c: ContextView, s: FpStateView, op: Op, time: u64) -> FpStep {
    let swap = op.code == Opcode::Csrrw || op.code == Opcode::Csrrwi;
    let illegal = FpStep { result: Err(spec_illegal()), ctx: c, state: s };
    let read = if swap && op.rd == 0 {
        Ok(0u64)
    } else {
        spec_csr_read(c, s, op.csr, time)
    };
    match read {
        Err(t) => FpStep { result: Err(t), ctx: c, state: s },
        Ok(v) => {
            let value = spec_csr_new_value(op.code, v, spec_csr_operand(c, op));
            if !swap && op.rs1 == 0 {
                FpStep { result: Ok(FpWork::Done), ctx: c.with_reg(op.rd, v), state: s }
            } else if !spec_is_fp_csr(op.csr) || c.fs_off() {
                illegal
            } else {
                FpStep {
                    result: Ok(FpWork::Done),
                    ctx: c.fs_dirty().with_reg(op.rd, v),
                    state: spec_csr_written(s, op.csr, value),
                }
            }
        },
    }
}

/// What [`step`] does: a CSR instruction is emulated here, an instruction of
/// the F or D extension on a hart that cannot execute it goes to the
/// floating-point emulation, anything else is illegal.
pub open spec fn spec_interp(c: ContextView, s: FpStateView, mode: FpMode, op: Op, time: u64)
    -> FpStep {
    if spec_is_csr_op(op.code) {
        spec_csr_step(c, s, op, time)
    } else if mode != FpMode::Full && spec_is_fp_code(op.code) {
        spec_step(c, s, op)
    } else {
        FpStep { result: Err(spec_illegal()), ctx: c, state: s }
    }
}

/// Reads a CSR for an emulated instruction; `time` is the machine timer.
pub fn read_csr(ctx: &Context, state: &FpState, csr: Csr, time: u64) -> (r: Result<u64, TrapInfo>)
    ensures
        r == spec_csr_read(ctx@, state@, csr, time),
{
    match csr {
        Csr::Time => Ok(time),
        Csr::Fflags | Csr::Frm | Csr::Fcsr => read_fp_csr(ctx, state, csr),
        Csr::Other => Err(TrapInfo { cause: CAUSE_ILLEGAL_INSN, tval: 0 }),
    }
}

/// Writes a CSR for an emulated instruction. Only the floating-point CSRs can
/// be written, and only with FS on.
pub fn write_csr(ctx: &mut Context, state: &mut FpState, csr: Csr, value: u64) -> (r: Result<
    (),
    TrapInfo,
>)
    ensures
        !spec_is_fp_csr(csr) || old(ctx)@.fs_off() ==> r == Err::<(), TrapInfo>(spec_illegal())
            && final(ctx)@ == old(ctx)@ && final(state)@ == old(state)@,
        spec_is_fp_csr(csr) && !old(ctx)@.fs_off() ==> r == Ok::<(), TrapInfo>(()) && final(ctx)@
            == old(ctx)@.fs_dirty() && final(state)@ == spec_csr_written(
            old(state)@,
            csr,
            value,
        ),
{
    match csr {
        Csr::Fflags | Csr::Frm | Csr::Fcsr => write_fp_csr(ctx, state, csr, value),
        _ => Err(TrapInfo { cause: CAUSE_ILLEGAL_INSN, tval: 0 }),
    }
}

/// Emulates one instruction. `Ok(FpWork::Done)` means it is complete; any
/// other work is left to the caller as [`crate::fp::step`] describes.
pub fn step(ctx: &mut Context, state: &mut FpState, mode: FpMode, op: &Op, time: u64) -> (r:
    Result<FpWork, TrapInfo>)
    requires
        op.wf(),
    ensures
        spec_interp(old(ctx)@, old(state)@, mode, *op, time) == (FpStep {
            result: r,
            ctx: final(ctx)@,
            state: final(state)@,
        }),
{
    match op.code {
        Opcode::Csrrw | Opcode::Csrrs | Opcode::Csrrc | Opcode::Csrrwi | Opcode::Csrrsi
        | Opcode::Csrrci => {
            let swap: bool = match op.code {
                Opcode::Csrrw | Opcode::Csrrwi => true,
                _ => false,
            };
            let operand: u64 = match op.code {
                Opcode::Csrrw | Opcode::Csrrs | Opcode::Csrrc => ctx.read_reg(op.rs1),
                _ => op.rs1 as u64,
            };
            let read: u64 = if swap && op.rd == 0 {
                0
            } else {
                match read_csr(ctx, state, op.csr, time) {
                    Ok(v) => v,
                    Err(t) => {
                        return Err(t);
                    },
                }
            };
            if swap || op.rs1 != 0 {
                let value: u64 = match op.code {
                    Opcode::Csrrw | Opcode::Csrrwi => operand,
                    Opcode::Csrrs | Opcode::Csrrsi => read | operand,
                    _ => read & !operand,
                };
                match write_csr(ctx, state, op.csr, value) {
                    Ok(()) => {},
                    Err(t) => {
                        return Err(t);
                    },
                }
            }
            ctx.write_reg(op.rd, read);
            Ok(FpWork::Done)
        },
        _ => {
            if is_fp(mode, op) {
                fp_step(ctx, state, op)
            } else {
                Err(TrapInfo { cause: CAUSE_ILLEGAL_INSN, tval: 0 })
            }
        },
    }
}

} // verus!
