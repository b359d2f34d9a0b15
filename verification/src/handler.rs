//! The machine-mode trap handler: which trap is served how, and what is left
//! of an emulated instruction once it has run or failed.

use vstd::prelude::*;
use crate::fp::{FpMode, FpState, FpStateView, FpWork};
use crate::interp::{spec_interp, step};
use crate::op::{insn_bits, insn_len, spec_insn_bits, spec_insn_len, Fetched, Op};
use crate::sbi::{
    handle_sbi, spec_action, spec_call, spec_handled, SbiAction, MIE_MTIE, MIP_STIP,
};
use crate::trap::{
    delegate_interrupt, spec_delegated_status, spec_mpp, Context, ContextView, Delegation,
    TrapInfo, CAUSE_ILLEGAL_INSN, CAUSE_MACHINE_SOFTWARE, CAUSE_MACHINE_TIMER,
    CAUSE_MISALIGNED_LOAD, CAUSE_MISALIGNED_STORE, CAUSE_SUPERVISOR_ECALL,
};

verus! {

/// Length of the `ecall` instruction.
pub const ECALL_LEN: u64 = 4;

/// What the fast path does with a trap.
#[derive(Clone, Copy, Debug, PartialEq, Eq, Structural)]
pub enum FastAction {
    /// A call from another hart: lower the software interrupt and process the
    /// mailbox.
    ProcessIpi,
    /// The machine timer fired: clear the bits `mask` in `mie`, which masks
    /// it, and set the bits `raise` in `mip`, which raises the supervisor's
    /// timer interrupt.
    ForwardTimer { mask: u64, raise: u64 },
    /// A call from the supervisor was decoded; carry out the action.
    Sbi(SbiAction),
    /// Not a trap for the fast path: save the remaining registers and take the
    /// slow path.
    Slow,
}

/// What the slow path does with a trap.
#[derive(Clone, Copy, Debug, PartialEq, Eq, Structural)]
pub enum SlowAction {
    IllegalInsn,
    MisalignedLoad,
    MisalignedStore,
}

/// How the emulation of an illegal instruction ended.
#[derive(Clone, Copy, Debug, PartialEq, Eq, Structural)]
pub enum Emulated {
    /// The instruction is done and the program counter is past it.
    Resumed,
    /// The instruction needs this work; afterwards [`resume`] or [`reflect`]
    /// ends it.
    Pending(FpWork),
    /// The trap went to the supervisor; write these to its trap registers.
    Delegated(Delegation),
}

/// Serves the traps that need only the caller-saved registers. For a call
/// from the supervisor, `mask_word` is as [`handle_sbi`] takes it, and the
/// program counter moves past the `ecall`.
pub fn handle_interrupt_fast(cause: u64, ctx: &mut Context, mask_word: u64) -> (r: FastAction)
    ensures
        cause == CAUSE_MACHINE_SOFTWARE ==> r == FastAction::ProcessIpi && final(ctx)@ == old(ctx)@,
        cause == CAUSE_MACHINE_TIMER ==> r == (FastAction::ForwardTimer {
            mask: MIE_MTIE,
            raise: MIP_STIP,
        }) && final(ctx)@ == old(ctx)@,
        cause == CAUSE_SUPERVISOR_ECALL ==> r == FastAction::Sbi(
            spec_action(spec_call(old(ctx)@, mask_word)),
        ) && final(ctx)@ == spec_handled(old(ctx)@, mask_word).advanced(ECALL_LEN),
        cause != CAUSE_MACHINE_SOFTWARE && cause != CAUSE_MACHINE_TIMER && cause
            != CAUSE_SUPERVISOR_ECALL ==> r == FastAction::Slow && final(ctx)@ == old(ctx)@,
{
    if cause == CAUSE_MACHINE_SOFTWARE {
        FastAction::ProcessIpi
    } else if cause == CAUSE_MACHINE_TIMER {
        FastAction::ForwardTimer { mask: MIE_MTIE, raise: MIP_STIP }
    } else if cause == CAUSE_SUPERVISOR_ECALL {
        let action: SbiAction = handle_sbi(ctx, mask_word);
        ctx.advance_pc(ECALL_LEN);
        FastAction::Sbi(action)
    } else {
        FastAction::Slow
    }
}

/// Whether the slow path serves a trap: it came from user or supervisor mode
/// and is an illegal instruction or a misaligned load or store. Any other
/// trap that gets here is a fault of the firmware itself.
pub open spec fn spec_served(cause: u64, mstatus: u64) -> bool {
    spec_mpp(mstatus) <= 1 && (cause == CAUSE_ILLEGAL_INSN || cause == CAUSE_MISALIGNED_LOAD
        || cause == CAUSE_MISALIGNED_STORE)
}

pub fn is_served(cause: u64, mstatus: u64) -> (r: bool)
    ensures
        r == spec_served(cause, mstatus),
{
    crate::trap::mpp(mstatus) <= 1 && (cause == CAUSE_ILLEGAL_INSN || cause
        == CAUSE_MISALIGNED_LOAD || cause == CAUSE_MISALIGNED_STORE)
}

/// Picks the emulation for a trap that the slow path serves.
pub fn handle_interrupt(cause: u64, ctx: &Context) -> (r: SlowAction)
    requires
        spec_served(cause, ctx@.mstatus),
    ensures
        cause == CAUSE_ILLEGAL_INSN ==> r == SlowAction::IllegalInsn,
        cause == CAUSE_MISALIGNED_LOAD ==> r == SlowAction::MisalignedLoad,
        cause == CAUSE_MISALIGNED_STORE ==> r == SlowAction::MisalignedStore,
{
    if cause == CAUSE_ILLEGAL_INSN {
        SlowAction::IllegalInsn
    } else if cause == CAUSE_MISALIGNED_LOAD {
        SlowAction::MisalignedLoad
    } else {
        SlowAction::MisalignedStore
    }
}

/// The trap an emulation failure is reported with: an illegal instruction
/// carries the bits of the instruction, any other trap is passed on as it is.
pub open spec fn spec_remapped(trap: TrapInfo, bits: u32) -> TrapInfo {
    if trap.cause == CAUSE_ILLEGAL_INSN {
        TrapInfo { cause: trap.cause, tval: bits as u64 }
    } else {
        trap
    }
}

/// The context after a trap has been reflected to the supervisor, which
/// resumes at `stvec`.
pub open spec fn spec_reflected(c: ContextView, stvec: u64) -> ContextView {
    ContextView { pc: stvec, mstatus: spec_delegated_status(c.mstatus), ..c }
}

/// Ends an emulated instruction that succeeded: the program counter moves on
/// by two for a compressed instruction, whose two lowest bits are not both
/// set, and by four otherwise.
pub fn resume(ctx: &mut Context, low: u16)
    ensures
        final(ctx)@ == old(ctx)@.advanced(spec_insn_len(low)),
        final(ctx)@.pc == vstd::wrapping::u64_specs::wrapping_add(
            old(ctx)@.pc,
            if low & 3 == 3 {
                4u64
            } else {
                2u64
            },
        ),
{
    ctx.advance_pc(insn_len(low));
}

/// Ends an emulated instruction that failed with `trap`: the trap goes to the
/// supervisor, with the instruction's bits as its value if it is an illegal
/// instruction.
pub fn reflect(ctx: &mut Context, trap: TrapInfo, bits: u32, stvec: u64) -> (r: Delegation)
    requires
        spec_mpp(old(ctx)@.mstatus) <= 1,
    ensures
        r == (Delegation {
            scause: spec_remapped(trap, bits).cause,
            stval: spec_remapped(trap, bits).tval,
            sepc: old(ctx)@.pc,
        }),
        final(ctx)@ == spec_reflected(old(ctx)@, stvec),
{
    let trap = if trap.cause == CAUSE_ILLEGAL_INSN {
        TrapInfo { cause: trap.cause, tval: bits as u64 }
    } else {
        trap
    };
    delegate_interrupt(ctx, trap, stvec)
}

/// Whether an instruction has a second half to read: its lowest two bits are
/// both set.
pub fn needs_high_half(low: u16) -> (r: bool)
    ensures
        r == (low & 3 == 3),
        r == (spec_insn_len(low) == 4),
{
    low & 3 == 3
}

/// Emulates the instruction at the trapped program counter.
///
/// `fetch` is the instruction as read and decoded, or the fault of reading
/// it. `time` is the machine timer and `stvec` the supervisor's trap vector.
///
/// A fault of the read goes to the supervisor as it is. An instruction that
/// is emulated at once leaves the program counter past it. One that needs
/// memory or arithmetic leaves the context for the caller to finish. One that
/// cannot be emulated is reflected to the supervisor with its bits.
pub fn handle_illegal_insn(
    ctx: &mut Context,
    state: &mut FpState,
    mode: FpMode,
    fetch: Result<Fetched, TrapInfo>,
    time: u64,
    stvec: u64,
) -> (r: Emulated)
    requires
        fetch.is_ok() ==> fetch.unwrap().op.wf(),
        spec_mpp(old(ctx)@.mstatus) <= 1,
    ensures
        match fetch {
            Err(trap) => r == Emulated::Delegated(
                Delegation { scause: trap.cause, stval: trap.tval, sepc: old(ctx)@.pc },
            ) && final(ctx)@ == spec_reflected(old(ctx)@, stvec) && final(state)@ == old(state)@,
            Ok(f) => {
                let run = spec_interp(old(ctx)@, old(state)@, mode, f.op, time);
                match run.result {
                    Ok(FpWork::Done) => r == Emulated::Resumed && final(ctx)@ == run.ctx.advanced(
                        spec_insn_len(f.low),
                    ) && final(state)@ == run.state,
                    Ok(work) => r == Emulated::Pending(work) && final(ctx)@ == run.ctx && final(state)@ == run.state,
                    Err(trap) => r == Emulated::Delegated(
                        Delegation {
                            scause: spec_remapped(trap, spec_insn_bits(f.low, f.high)).cause,
                            stval: spec_remapped(trap, spec_insn_bits(f.low, f.high)).tval,
                            sepc: old(ctx)@.pc,
                        },
                    ) && final(ctx)@ == spec_reflected(old(ctx)@, stvec) && final(state)@ == old(state)@,
                }
            },
        },
{
    let f: Fetched = match fetch {
        Ok(f) => f,
        Err(trap) => {
            return Emulated::Delegated(delegate_interrupt(ctx, trap, stvec));
        },
    };
    let bits: u32 = insn_bits(f.low, f.high);
    proof {
        lemma_failure_changes_nothing(old(ctx)@, old(state)@, mode, f.op, time);
    }
    match step(ctx, state, mode, &f.op, time) {
        Ok(FpWork::Done) => {
            resume(ctx, f.low);
            Emulated::Resumed
        },
        Ok(work) => Emulated::Pending(work),
        Err(trap) => Emulated::Delegated(reflect(ctx, trap, bits, stvec)),
    }
}

/// An instruction whose emulation fails leaves context and state as they
/// were.
pub proof fn lemma_failure_changes_nothing(
    c: ContextView,
    s: FpStateView,
    mode: FpMode,
    op: Op,
    time: u64,
)
    ensures
        spec_interp(c, s, mode, op, time).result.is_err() ==> spec_interp(c, s, mode, op, time).ctx
            == c && spec_interp(c, s, mode, op, time).state == s,
{
}

} // verus!
