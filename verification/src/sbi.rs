//! The calls that supervisor software makes into the firmware.
//!
//! A call is selected by register `a7`, and for the extensions beyond the
//! legacy range by `a6` as well. [`handle_sbi`] decodes it, writes the
//! registers that carry the result, and names what the firmware has to do.

use vstd::prelude::*;
use crate::hart_mask::{HartMask, ALL_HARTS};
use crate::ipi::IpiFunc;
use crate::trap::{Context, ContextView};

verus! {

pub const EXTENSION_BASE: u64 = 0x10;

pub const EXTENSION_TIMER: u64 = 0x54494D45;

pub const EXTENSION_IPI: u64 = 0x735049;

pub const EXTENSION_RFENCE: u64 = 0x52464E43;

pub const EXTENSION_RESET: u64 = 0x53525354;

/// Largest selector of a legacy call.
pub const LEGACY_LAST: u64 = 0x0F;

/// Size of the range for which a remote fence flushes a single page.
pub const PAGE_SIZE: u64 = 4096;

/// Bit of `mie` that enables the machine timer interrupt.
pub const MIE_MTIE: u64 = 0x80;

/// Bit of `mip` that says a supervisor timer interrupt is pending.
pub const MIP_STIP: u64 = 0x20;

/// Version 0.2 of the interface.
pub const SPEC_VERSION: u64 = 2;

/// The errors a call can return.
#[derive(Clone, Copy, Debug, PartialEq, Eq, Structural)]
pub enum SbiError {
    Failed,
    NotSupported,
    InvalidParam,
    Denied,
    InvalidAddress,
    AlreadyAvailable,
}

impl SbiError {
    /// The error as a register holds it: -1 for `Failed` down to -6 for
    /// `AlreadyAvailable`, in two's complement.
    pub open spec fn spec_code(self) -> u64 {
        match self {
            SbiError::Failed => 0xffff_ffff_ffff_ffff,
            SbiError::NotSupported => 0xffff_ffff_ffff_fffe,
            SbiError::InvalidParam => 0xffff_ffff_ffff_fffd,
            SbiError::Denied => 0xffff_ffff_ffff_fffc,
            SbiError::InvalidAddress => 0xffff_ffff_ffff_fffb,
            SbiError::AlreadyAvailable => 0xffff_ffff_ffff_fffa,
        }
    }

    pub fn code(self) -> (r: u64)
        ensures
            r == self.spec_code(),
    {
        match self {
            SbiError::Failed => 0xffff_ffff_ffff_ffff,
            SbiError::NotSupported => 0xffff_ffff_ffff_fffe,
            SbiError::InvalidParam => 0xffff_ffff_ffff_fffd,
            SbiError::Denied => 0xffff_ffff_ffff_fffc,
            SbiError::InvalidAddress => 0xffff_ffff_ffff_fffb,
            SbiError::AlreadyAvailable => 0xffff_ffff_ffff_fffa,
        }
    }
}

/// What the firmware has to do for a call.
#[derive(Clone, Copy, Debug, PartialEq, Eq, Structural)]
pub enum SbiAction {
    /// Nothing.
    Nothing,
    /// Set the bits `unmask` in `mie`, which unmasks the machine timer
    /// interrupt, clear the bits `clear_pending` in `mip`, which takes the
    /// pending supervisor timer interrupt back, and write `time` to the
    /// calling hart's timer-compare register.
    SetTimer { time: u64, unmask: u64, clear_pending: u64 },
    /// Send `byte` to the console.
    ConsolePutchar { byte: u8 },
    /// Try to read a byte from the console, then call [`complete_getchar`].
    ConsoleGetchar,
    /// Clear the pending supervisor software interrupt of the calling hart.
    ClearIpi,
    /// Run `func` on the harts in `mask`, and if `wait`, return to the
    /// supervisor only when all of them have run it.
    Ipi { mask: HartMask, func: IpiFunc, wait: bool },
    /// Halt every hart. Control does not return to the supervisor.
    SystemReset { reset_type: u64 },
}

/// A decoded call: a result that is known at once, an action after which the
/// call returns success with value zero, a console read, or a reset.
#[derive(Clone, Copy, Debug, PartialEq, Eq)]
pub enum SbiCall {
    Return(Result<u64, SbiError>),
    Perform(SbiAction),
    Getchar,
    Reset { reset_type: u64 },
}

/// The page a remote fence flushes: the one at `start_addr` if the range is
/// exactly one page long, none, meaning everything, otherwise.
pub open spec fn spec_fence_page(start_addr: u64, size: u64) -> Option<u64> {
    if size == PAGE_SIZE {
        Some(start_addr)
    } else {
        None
    }
}

pub fn fence_page(start_addr: u64, size: u64) -> (r: Option<u64>)
    ensures
        r == spec_fence_page(start_addr, size),
{
    if size == PAGE_SIZE {
        Some(start_addr)
    } else {
        None
    }
}

/// The mask word of a legacy call: every hart if the supervisor passed no
/// address, else the word loaded from that address.
pub open spec fn spec_load_mask(addr: u64, loaded: u64) -> u64 {
    if addr == 0 {
        ALL_HARTS
    } else {
        loaded
    }
}

/// The address from which the mask word of a legacy call has to be loaded
/// before [`handle_sbi`] is called, if there is one.
pub fn legacy_mask_addr(ctx: &Context) -> (r: Option<u64>)
    ensures
        r == if 4 <= ctx@.registers[17] <= 7 && ctx@.registers[10] != 0 {
            Some(ctx@.registers[10])
        } else {
            None
        },
{
    let selector: u64 = ctx.read_reg(17);
    let addr: u64 = ctx.read_reg(10);
    if 4 <= selector && selector <= 7 && addr != 0 {
        Some(addr)
    } else {
        None
    }
}

pub fn load_mask(addr: u64, loaded: u64) -> (r: u64)
    ensures
        r == spec_load_mask(addr, loaded),
{
    if addr == 0 {
        ALL_HARTS
    } else {
        loaded
    }
}

pub fn sbi_get_spec_version() -> (r: Result<u64, SbiError>)
    ensures
        r == Ok::<u64, SbiError>(SPEC_VERSION),
{
    Ok(SPEC_VERSION)
}

/// Whether an extension is implemented: 1 for timer, IPI, remote fence and
/// reset, 0 for any other.
pub open spec fn spec_probe_extension(extension_id: u64) -> u64 {
    if extension_id == EXTENSION_TIMER || extension_id == EXTENSION_IPI || extension_id
        == EXTENSION_RFENCE || extension_id == EXTENSION_RESET {
        1
    } else {
        0
    }
}

pub fn sbi_probe_extension(extension_id: u64) -> (r: Result<u64, SbiError>)
    ensures
        r == Ok::<u64, SbiError>(spec_probe_extension(extension_id)),
{
    if extension_id == EXTENSION_TIMER || extension_id == EXTENSION_IPI || extension_id
        == EXTENSION_RFENCE || extension_id == EXTENSION_RESET {
        Ok(1)
    } else {
        Ok(0)
    }
}

pub fn sbi_get_mvendorid() -> (r: Result<u64, SbiError>)
    ensures
        r == Ok::<u64, SbiError>(0),
{
    Ok(0)
}

pub fn sbi_get_marchid() -> (r: Result<u64, SbiError>)
    ensures
        r == Ok::<u64, SbiError>(0),
{
    Ok(0)
}

pub fn sbi_get_mimpid() -> (r: Result<u64, SbiError>)
    ensures
        r == Ok::<u64, SbiError>(0),
{
    Ok(0)
}

/// A reset of type 0 (shutdown), 1 (cold reboot) or 2 (warm reboot) halts the
/// machine; any other type is an invalid parameter.
pub open spec fn spec_system_reset(reset_type: u64) -> SbiCall {
    if reset_type <= 2 {
        SbiCall::Reset { reset_type }
    } else {
        SbiCall::Return(Err(SbiError::InvalidParam))
    }
}

pub fn sbi_system_reset(reset_type: u64, reset_reason: u64) -> (r: SbiCall)
    ensures
        r == spec_system_reset(reset_type),
{
    if reset_type <= 2 {
        SbiCall::Reset { reset_type }
    } else {
        SbiCall::Return(Err(SbiError::InvalidParam))
    }
}

/// The remote fence that function `fid` of the fence extension asks for, with
/// its arguments taken from `a0` to `a4`.
pub open spec fn spec_rfence(c: ContextView, fid: u64) -> SbiCall {
    let mask = HartMask { mask: c.registers[10], mask_base: c.registers[11] };
    let page = spec_fence_page(c.registers[12], c.registers[13]);
    if fid == 0 {
        SbiCall::Perform(SbiAction::Ipi { mask, func: IpiFunc::FenceI, wait: true })
    } else if fid == 1 {
        SbiCall::Perform(SbiAction::Ipi { mask, func: IpiFunc::SfenceVma { page }, wait: true })
    } else if fid == 2 {
        SbiCall::Perform(
            SbiAction::Ipi {
                mask,
                func: IpiFunc::SfenceVmaAsid { page, asid: c.registers[14] },
                wait: true,
            },
        )
    } else {
        SbiCall::Return(Err(SbiError::NotSupported))
    }
}

/// The call that `a7` and `a6` select among the extensions. An extension or
/// function that is not implemented is not supported.
pub open spec fn spec_nonlegacy(c: ContextView) -> SbiCall {
    let eid = c.registers[17];
    let fid = c.registers[16];
    let a0 = c.registers[10];
    let unsupported = SbiCall::Return(Err(SbiError::NotSupported));
    if eid == EXTENSION_BASE {
        if fid == 0 {
            SbiCall::Return(Ok(SPEC_VERSION))
        } else if fid == 3 {
            SbiCall::Return(Ok(spec_probe_extension(a0)))
        } else if fid == 4 || fid == 5 || fid == 6 {
            SbiCall::Return(Ok(0))
        } else {
            unsupported
        }
    } else if eid == EXTENSION_TIMER {
        if fid == 0 {
            SbiCall::Perform(SbiAction::SetTimer { time: a0, unmask: MIE_MTIE, clear_pending: MIP_STIP })
        } else {
            unsupported
        }
    } else if eid == EXTENSION_IPI {
        if fid == 0 {
            SbiCall::Perform(
                SbiAction::Ipi {
                    mask: HartMask { mask: a0, mask_base: c.registers[11] },
                    func: IpiFunc::RaiseSupervisorSoftware,
                    wait: false,
                },
            )
        } else {
            unsupported
        }
    } else if eid == EXTENSION_RFENCE {
        spec_rfence(c, fid)
    } else if eid == EXTENSION_RESET {
        if fid == 0 {
            spec_system_reset(a0)
        } else {
            unsupported
        }
    } else {
        unsupported
    }
}

/// The legacy call that `a7` selects. `mask_word` is the word at the address
/// in `a0`, which the calls that take a hart mask read it from.
pub open spec fn spec_legacy(c: ContextView, mask_word: u64) -> SbiCall {
    let selector = c.registers[17];
    let a0 = c.registers[10];
    let mask = HartMask { mask: spec_load_mask(a0, mask_word), mask_base: 0 };
    let page = spec_fence_page(c.registers[11], c.registers[12]);
    if selector == 0 {
        SbiCall::Perform(SbiAction::SetTimer { time: a0, unmask: MIE_MTIE, clear_pending: MIP_STIP })
    } else if selector == 1 {
        SbiCall::Perform(SbiAction::ConsolePutchar { byte: (a0 & 0xff) as u8 })
    } else if selector == 2 {
        SbiCall::Getchar
    } else if selector == 3 {
        SbiCall::Perform(SbiAction::ClearIpi)
    } else if selector == 4 {
        SbiCall::Perform(
            SbiAction::Ipi { mask, func: IpiFunc::RaiseSupervisorSoftware, wait: false },
        )
    } else if selector == 5 {
        SbiCall::Perform(SbiAction::Ipi { mask, func: IpiFunc::FenceI, wait: true })
    } else if selector == 6 {
        SbiCall::Perform(SbiAction::Ipi { mask, func: IpiFunc::SfenceVma { page }, wait: true })
    } else if selector == 7 {
        SbiCall::Perform(
            SbiAction::Ipi {
                mask,
                func: IpiFunc::SfenceVmaAsid { page, asid: c.registers[13] },
                wait: true,
            },
        )
    } else if selector == 8 {
        SbiCall::Reset { reset_type: 0 }
    } else {
        SbiCall::Return(Err(SbiError::NotSupported))
    }
}

/// The call a context asks for: a legacy one for a selector up to
/// `LEGACY_LAST`, one of an extension otherwise.
pub open spec fn spec_call(c: ContextView, mask_word: u64) -> SbiCall {
    if c.registers[17] <= LEGACY_LAST {
        spec_legacy(c, mask_word)
    } else {
        spec_nonlegacy(c)
    }
}

/// The context after a result has been written to it. A legacy call returns
/// its value or its error in `a0`. A call of an extension returns zero in `a0`
/// and its value in `a1`, or its error in `a0` with `a1` untouched.
pub open spec fn spec_returned(c: ContextView, legacy: bool, result: Result<u64, SbiError>)
    -> ContextView {
    match result {
        Ok(v) => if legacy {
            c.with_reg(10, v)
        } else {
            c.with_reg(10, 0).with_reg(11, v)
        },
        Err(e) => c.with_reg(10, e.spec_code()),
    }
}

/// The context that [`handle_sbi`] leaves: the result written where it is
/// known, nothing changed for a console read and for a reset.
pub open spec fn spec_handled(c: ContextView, mask_word: u64) -> ContextView {
    let legacy = c.registers[17] <= LEGACY_LAST;
    match spec_call(c, mask_word) {
        SbiCall::Return(result) => spec_returned(c, legacy, result),
        SbiCall::Perform(_) => spec_returned(c, legacy, Ok(0)),
        _ => c,
    }
}

/// What [`handle_sbi`] asks the firmware to do.
pub open spec fn spec_action(call: SbiCall) -> SbiAction {
    match call {
        SbiCall::Return(_) => SbiAction::Nothing,
        SbiCall::Perform(action) => action,
        SbiCall::Getchar => SbiAction::ConsoleGetchar,
        SbiCall::Reset { reset_type } => SbiAction::SystemReset { reset_type },
    }
}

fn rfence(ctx: &Context, fid: u64) -> (r: SbiCall)
    ensures
        r == spec_rfence(ctx@, fid),
{
    let mask = HartMask::new(ctx.read_reg(10), ctx.read_reg(11));
    let page: Option<u64> = fence_page(ctx.read_reg(12), ctx.read_reg(13));
    if fid == 0 {
        SbiCall::Perform(SbiAction::Ipi { mask, func: IpiFunc::FenceI, wait: true })
    } else if fid == 1 {
        SbiCall::Perform(SbiAction::Ipi { mask, func: IpiFunc::SfenceVma { page }, wait: true })
    } else if fid == 2 {
        SbiCall::Perform(
            SbiAction::Ipi {
                mask,
                func: IpiFunc::SfenceVmaAsid { page, asid: ctx.read_reg(14) },
                wait: true,
            },
        )
    } else {
        SbiCall::Return(Err(SbiError::NotSupported))
    }
}

/// Decodes a call of one of the extensions.
pub fn handle_sbi_nonlegacy(ctx: &Context) -> (r: SbiCall)
    ensures
        r == spec_nonlegacy(ctx@),
{
    let eid: u64 = ctx.read_reg(17);
    let fid: u64 = ctx.read_reg(16);
    let a0: u64 = ctx.read_reg(10);
    let unsupported = SbiCall::Return(Err(SbiError::NotSupported));
    if eid == EXTENSION_BASE {
        if fid == 0 {
            SbiCall::Return(sbi_get_spec_version())
        } else if fid == 3 {
            SbiCall::Return(sbi_probe_extension(a0))
        } else if fid == 4 {
            SbiCall::Return(sbi_get_mvendorid())
        } else if fid == 5 {
            SbiCall::Return(sbi_get_marchid())
        } else if fid == 6 {
            SbiCall::Return(sbi_get_mimpid())
        } else {
            unsupported
        }
    } else if eid == EXTENSION_TIMER {
        if fid == 0 {
            SbiCall::Perform(SbiAction::SetTimer { time: a0, unmask: MIE_MTIE, clear_pending: MIP_STIP })
        } else {
            unsupported
        }
    } else if eid == EXTENSION_IPI {
        if fid == 0 {
            SbiCall::Perform(
                SbiAction::Ipi {
                    mask: HartMask::new(a0, ctx.read_reg(11)),
                    func: IpiFunc::RaiseSupervisorSoftware,
                    wait: false,
                },
            )
        } else {
            unsupported
        }
    } else if eid == EXTENSION_RFENCE {
        rfence(ctx, fid)
    } else if eid == EXTENSION_RESET {
        if fid == 0 {
            sbi_system_reset(a0, ctx.read_reg(11))
        } else {
            unsupported
        }
    } else {
        unsupported
    }
}

/// Decodes a legacy call.
pub fn handle_sbi_legacy(ctx: &Context, mask_word: u64) -> (r: SbiCall)
    ensures
        r == spec_legacy(ctx@, mask_word),
{
    let selector: u64 = ctx.read_reg(17);
    let a0: u64 = ctx.read_reg(10);
    let mask = HartMask::new(load_mask(a0, mask_word), 0);
    let page: Option<u64> = fence_page(ctx.read_reg(11), ctx.read_reg(12));
    if selector == 0 {
        SbiCall::Perform(SbiAction::SetTimer { time: a0, unmask: MIE_MTIE, clear_pending: MIP_STIP })
    } else if selector == 1 {
        assert(a0 & 0xff <= 0xff) by (bit_vector);
        SbiCall::Perform(SbiAction::ConsolePutchar { byte: (a0 & 0xff) as u8 })
    } else if selector == 2 {
        SbiCall::Getchar
    } else if selector == 3 {
        SbiCall::Perform(SbiAction::ClearIpi)
    } else if selector == 4 {
        SbiCall::Perform(
            SbiAction::Ipi { mask, func: IpiFunc::RaiseSupervisorSoftware, wait: false },
        )
    } else if selector == 5 {
        SbiCall::Perform(SbiAction::Ipi { mask, func: IpiFunc::FenceI, wait: true })
    } else if selector == 6 {
        SbiCall::Perform(SbiAction::Ipi { mask, func: IpiFunc::SfenceVma { page }, wait: true })
    } else if selector == 7 {
        SbiCall::Perform(
            SbiAction::Ipi {
                mask,
                func: IpiFunc::SfenceVmaAsid { page, asid: ctx.read_reg(13) },
                wait: true,
            },
        )
    } else if selector == 8 {
        sbi_system_reset(0, 0)
    } else {
        SbiCall::Return(Err(SbiError::NotSupported))
    }
}

fn write_result(ctx: &mut Context, legacy: bool, result: Result<u64, SbiError>)
    ensures
        final(ctx)@ == spec_returned(old(ctx)@, legacy, result),
{
    match result {
        Ok(v) => {
            if legacy {
                ctx.write_reg(10, v);
            } else {
                ctx.write_reg(10, 0);
                ctx.write_reg(11, v);
            }
        },
        Err(e) => {
            ctx.write_reg(10, e.code());
        },
    }
}

/// Handles a call from the supervisor: decodes it, writes its result to the
/// context where the result does not depend on the console, and returns what
/// the firmware has to do. `mask_word` is the word at the address that
/// [`legacy_mask_addr`] gave, and is not looked at if it gave none.
pub fn handle_sbi(ctx: &mut Context, mask_word: u64) -> (r: SbiAction)
    ensures
        r == spec_action(spec_call(old(ctx)@, mask_word)),
        final(ctx)@ == spec_handled(old(ctx)@, mask_word),
{
    let legacy: bool = ctx.read_reg(17) <= LEGACY_LAST;
    let call: SbiCall = if legacy {
        handle_sbi_legacy(ctx, mask_word)
    } else {
        handle_sbi_nonlegacy(ctx)
    };
    match call {
        SbiCall::Return(result) => {
            write_result(ctx, legacy, result);
            SbiAction::Nothing
        },
        SbiCall::Perform(action) => {
            write_result(ctx, legacy, Ok(0));
            action
        },
        SbiCall::Getchar => SbiAction::ConsoleGetchar,
        SbiCall::Reset { reset_type } => SbiAction::SystemReset { reset_type },
    }
}

/// Finishes a console read: `a0` takes the byte, or the code of `Failed` if
/// none was waiting.
pub fn complete_getchar(ctx: &mut Context, byte: Option<u8>)
    ensures
        final(ctx)@ == old(ctx)@.with_reg(
            10,
            match byte {
                Some(b) => b as u64,
                None => SbiError::Failed.spec_code(),
            },
        ),
{
    match byte {
        Some(b) => ctx.write_reg(10, b as u64),
        None => ctx.write_reg(10, SbiError::Failed.code()),
    }
}

} // verus!
