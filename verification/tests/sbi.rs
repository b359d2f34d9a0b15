use firmware::hart_mask::{HartMask, ALL_HARTS};
use firmware::ipi::IpiFunc;
use firmware::sbi::{
    complete_getchar, fence_page, handle_sbi, handle_sbi_legacy, handle_sbi_nonlegacy,
    legacy_mask_addr, load_mask, sbi_get_marchid, sbi_get_mimpid, sbi_get_mvendorid,
    sbi_get_spec_version, sbi_probe_extension, sbi_system_reset, SbiAction, SbiCall, SbiError,
};
use firmware::trap::Context;

fn call(a7: u64, a6: u64, args: [u64; 5]) -> Context {
    let mut ctx = Context::new([0; 32], 0x1000, 0);
    ctx.registers[17] = a7;
    ctx.registers[16] = a6;
    for (i, v) in args.iter().enumerate() {
        ctx.registers[10 + i] = *v;
    }
    ctx
}

#[test]
fn base_extension() {
    assert_eq!(sbi_get_spec_version(), Ok(2));
    assert_eq!(sbi_get_mvendorid(), Ok(0));
    assert_eq!(sbi_get_marchid(), Ok(0));
    assert_eq!(sbi_get_mimpid(), Ok(0));
    for id in [0x5449_4D45u64, 0x73_5049, 0x5246_4E43, 0x5352_5354] {
        assert_eq!(sbi_probe_extension(id), Ok(1));
    }
    assert_eq!(sbi_probe_extension(0x10), Ok(0));
    assert_eq!(sbi_probe_extension(0x4853_4D), Ok(0));

    let mut ctx = call(0x10, 0, [7, 8, 0, 0, 0]);
    assert_eq!(handle_sbi(&mut ctx, 0), SbiAction::Nothing);
    assert_eq!((ctx.registers[10], ctx.registers[11]), (0, 2));

    let mut probe = call(0x10, 3, [0x73_5049, 8, 0, 0, 0]);
    assert_eq!(handle_sbi(&mut probe, 0), SbiAction::Nothing);
    assert_eq!((probe.registers[10], probe.registers[11]), (0, 1));

    let mut unknown = call(0x10, 1, [7, 8, 0, 0, 0]);
    assert_eq!(handle_sbi(&mut unknown, 0), SbiAction::Nothing);
    assert_eq!((unknown.registers[10], unknown.registers[11]), (-2i64 as u64, 8));
}

#[test]
fn error_codes() {
    assert_eq!(SbiError::Failed.code(), -1i64 as u64);
    assert_eq!(SbiError::NotSupported.code(), -2i64 as u64);
    assert_eq!(SbiError::InvalidParam.code(), -3i64 as u64);
    assert_eq!(SbiError::Denied.code(), -4i64 as u64);
    assert_eq!(SbiError::InvalidAddress.code(), -5i64 as u64);
    assert_eq!(SbiError::AlreadyAvailable.code(), -6i64 as u64);
}

#[test]
fn unknown_extension_is_not_supported() {
    let mut ctx = call(0x1234_5678, 0, [1, 2, 3, 4, 5]);
    assert_eq!(handle_sbi(&mut ctx, 0), SbiAction::Nothing);
    assert_eq!(ctx.registers[10], -2i64 as u64);
    assert_eq!(ctx.registers[11], 2);
    assert_eq!(
        handle_sbi_nonlegacy(&call(0x5449_4D45, 1, [0; 5])),
        SbiCall::Return(Err(SbiError::NotSupported))
    );
    assert_eq!(
        handle_sbi_legacy(&call(9, 0, [0; 5]), 0),
        SbiCall::Return(Err(SbiError::NotSupported))
    );
}

#[test]
fn ipi_and_fences() {
    let mask = HartMask::new(0b101, 1);
    let mut ipi = call(0x73_5049, 0, [0b101, 1, 0, 0, 0]);
    assert_eq!(
        handle_sbi(&mut ipi, 0),
        SbiAction::Ipi { mask, func: IpiFunc::RaiseSupervisorSoftware, wait: false }
    );
    assert_eq!((ipi.registers[10], ipi.registers[11]), (0, 0));

    let mut fence = call(0x5246_4E43, 0, [0b101, 1, 0, 0, 0]);
    assert_eq!(
        handle_sbi(&mut fence, 0),
        SbiAction::Ipi { mask, func: IpiFunc::FenceI, wait: true }
    );

    let mut page = call(0x5246_4E43, 1, [0b101, 1, 0x4000, 4096, 0]);
    assert_eq!(
        handle_sbi(&mut page, 0),
        SbiAction::Ipi { mask, func: IpiFunc::SfenceVma { page: Some(0x4000) }, wait: true }
    );

    let mut all = call(0x5246_4E43, 1, [0b101, 1, 0x4000, 8192, 0]);
    assert_eq!(
        handle_sbi(&mut all, 0),
        SbiAction::Ipi { mask, func: IpiFunc::SfenceVma { page: None }, wait: true }
    );

    let mut asid = call(0x5246_4E43, 2, [0b101, 1, 0x4000, 4096, 9]);
    assert_eq!(
        handle_sbi(&mut asid, 0),
        SbiAction::Ipi {
            mask,
            func: IpiFunc::SfenceVmaAsid { page: Some(0x4000), asid: 9 },
            wait: true
        }
    );

    let mut bad = call(0x5246_4E43, 3, [0b101, 1, 0, 0, 0]);
    assert_eq!(handle_sbi(&mut bad, 0), SbiAction::Nothing);
    assert_eq!(bad.registers[10], -2i64 as u64);

    assert_eq!(fence_page(0x1000, 4096), Some(0x1000));
    assert_eq!(fence_page(0x1000, 4095), None);
    assert_eq!(fence_page(0x1000, 0), None);
}

#[test]
fn system_reset() {
    assert_eq!(sbi_system_reset(0, 0), SbiCall::Reset { reset_type: 0 });
    assert_eq!(sbi_system_reset(2, 5), SbiCall::Reset { reset_type: 2 });
    assert_eq!(sbi_system_reset(3, 0), SbiCall::Return(Err(SbiError::InvalidParam)));

    let mut ctx = call(0x5352_5354, 0, [1, 0, 0, 0, 0]);
    let before = ctx.registers;
    assert_eq!(handle_sbi(&mut ctx, 0), SbiAction::SystemReset { reset_type: 1 });
    assert_eq!(ctx.registers, before);

    let mut invalid = call(0x5352_5354, 0, [7, 0, 0, 0, 0]);
    assert_eq!(handle_sbi(&mut invalid, 0), SbiAction::Nothing);
    assert_eq!(invalid.registers[10], -3i64 as u64);

    let mut legacy = call(8, 0, [0; 5]);
    assert_eq!(handle_sbi(&mut legacy, 0), SbiAction::SystemReset { reset_type: 0 });
}

#[test]
fn legacy_calls() {
    let mut timer = call(0, 0, [0x1234, 9, 0, 0, 0]);
    assert_eq!(handle_sbi(&mut timer, 0), SbiAction::SetTimer { time: 0x1234, unmask: 0x80, clear_pending: 0x20 });
    assert_eq!((timer.registers[10], timer.registers[11]), (0, 9));

    let mut put = call(1, 0, [0x141, 0, 0, 0, 0]);
    assert_eq!(handle_sbi(&mut put, 0), SbiAction::ConsolePutchar { byte: 0x41 });
    assert_eq!(put.registers[10], 0);

    let mut clear = call(3, 0, [5, 0, 0, 0, 0]);
    assert_eq!(handle_sbi(&mut clear, 0), SbiAction::ClearIpi);
    assert_eq!(clear.registers[10], 0);

    let mut get = call(2, 0, [5, 0, 0, 0, 0]);
    assert_eq!(handle_sbi(&mut get, 0), SbiAction::ConsoleGetchar);
    assert_eq!(get.registers[10], 5);
    complete_getchar(&mut get, Some(0x7a));
    assert_eq!(get.registers[10], 0x7a);
    complete_getchar(&mut get, None);
    assert_eq!(get.registers[10], u64::MAX);
}

#[test]
fn legacy_masks_come_from_memory() {
    assert_eq!(load_mask(0, 0b11), ALL_HARTS);
    assert_eq!(load_mask(0x8000, 0b11), 0b11);
    assert_eq!(legacy_mask_addr(&call(4, 0, [0x8000, 0, 0, 0, 0])), Some(0x8000));
    assert_eq!(legacy_mask_addr(&call(7, 0, [0x8000, 0, 0, 0, 0])), Some(0x8000));
    assert_eq!(legacy_mask_addr(&call(4, 0, [0, 0, 0, 0, 0])), None);
    assert_eq!(legacy_mask_addr(&call(3, 0, [0x8000, 0, 0, 0, 0])), None);
    assert_eq!(legacy_mask_addr(&call(0x73_5049, 0, [0x8000, 0, 0, 0, 0])), None);

    let mut ipi = call(4, 0, [0x8000, 0, 0, 0, 0]);
    assert_eq!(
        handle_sbi(&mut ipi, 0b110),
        SbiAction::Ipi {
            mask: HartMask::new(0b110, 0),
            func: IpiFunc::RaiseSupervisorSoftware,
            wait: false
        }
    );
    assert_eq!(ipi.registers[10], 0);

    let mut everyone = call(5, 0, [0, 0, 0, 0, 0]);
    assert_eq!(
        handle_sbi(&mut everyone, 0b110),
        SbiAction::Ipi { mask: HartMask::new(ALL_HARTS, 0), func: IpiFunc::FenceI, wait: true }
    );

    let mut vma = call(6, 0, [0x8000, 0x7000, 4096, 0, 0]);
    assert_eq!(
        handle_sbi(&mut vma, 1),
        SbiAction::Ipi {
            mask: HartMask::new(1, 0),
            func: IpiFunc::SfenceVma { page: Some(0x7000) },
            wait: true
        }
    );

    let mut asid = call(7, 0, [0x8000, 0x7000, 1, 3, 0]);
    assert_eq!(
        handle_sbi(&mut asid, 1),
        SbiAction::Ipi {
            mask: HartMask::new(1, 0),
            func: IpiFunc::SfenceVmaAsid { page: None, asid: 3 },
            wait: true
        }
    );
}
