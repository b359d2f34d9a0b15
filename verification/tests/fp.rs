use firmware::fp::{
    clamp_rm, complete_arith, complete_load, init_fp, is_fp, read_csr, step, write_csr, FpArith,
    FpMode, FpRequest, FpState, FpWork,
};
use firmware::interp;
use firmware::op::{Csr, Op, Opcode};
use firmware::trap::{Context, TrapInfo};
use softfp::{ExceptionFlags, RoundingMode, F32, F64};

const FS_ON: u64 = 0x2000;
const BOX: u64 = 0xffff_ffff_0000_0000;

fn fop(code: Opcode, rd: u8, rs1: u8, rs2: u8, rs3: u8, rm: u8) -> Op {
    Op { code, rd, rs1, rs2, rs3, rm, imm: 0, csr: Csr::Other }
}

fn nearest_even() -> RoundingMode {
    RoundingMode::TiesToEven
}

fn no_flag_expected(flags: ExceptionFlags) {
    panic!("unexpected exception flags {:?}", flags);
}

fn ignore_flags(_flags: ExceptionFlags) {}

fn expect_arith(work: Result<FpWork, TrapInfo>) -> FpRequest {
    match work {
        Ok(FpWork::Arith(request)) => request,
        other => panic!("expected arithmetic, got {:?}", other),
    }
}

#[test]
fn probe_gives_mode() {
    assert_eq!(FpMode::detect(0), FpMode::Absent);
    assert_eq!(FpMode::detect(1), FpMode::MemOnly);
    assert_eq!(FpMode::detect(2), FpMode::Full);
    assert_eq!(init_fp(0, true, true), FpMode::Absent);
    assert_eq!(init_fp(1, false, true), FpMode::MemOnly);
    assert_eq!(init_fp(2, false, false), FpMode::Full);
}

#[test]
fn soft_float_add() {
    softfp::register_get_rounding_mode(nearest_even);
    softfp::register_set_exception_flags(no_flag_expected);
    let mut ctx = Context::new([0; 32], 0, 0x800 | FS_ON);
    let mut state = FpState::new();
    state.write_fpr(2, BOX | 1.5f32.to_bits() as u64);
    state.write_fpr(3, BOX | 2.25f32.to_bits() as u64);
    let op = fop(Opcode::FaddS, 1, 2, 3, 0, 0);
    let request = expect_arith(step(&mut ctx, &mut state, &op));
    assert_eq!(
        request,
        FpRequest {
            arith: FpArith::Add,
            double: false,
            a: 1.5f32.to_bits() as u64,
            b: 2.25f32.to_bits() as u64,
            c: 0,
            rm: 0
        }
    );
    let sum = F32::new(request.a as u32) + F32::new(request.b as u32);
    complete_arith(&mut ctx, &mut state, &op, sum.0 as u64, 0);
    assert_eq!(state.read_fpr(1), BOX | 3.75f32.to_bits() as u64);
    assert_eq!(state.read_flags(), 0);
    assert_eq!(ctx.mstatus & 0x6000, 0x6000);
}

#[test]
fn rounding_mode_is_resolved() {
    let mut ctx = Context::new([0; 32], 0, FS_ON);
    let mut state = FpState::new();
    state.write_rm(3);
    let dynamic = expect_arith(step(&mut ctx, &mut state, &fop(Opcode::FmulD, 1, 2, 3, 0, 7)));
    assert_eq!(dynamic.rm, 3);
    assert!(dynamic.double);
    let fixed = expect_arith(step(&mut ctx, &mut state, &fop(Opcode::FmulD, 1, 2, 3, 0, 1)));
    assert_eq!(fixed.rm, 1);
    let unrounded = expect_arith(step(&mut ctx, &mut state, &fop(Opcode::FminS, 1, 2, 3, 0, 1)));
    assert_eq!(unrounded.rm, 3);
    for reserved in [5u8, 6] {
        assert_eq!(
            step(&mut ctx, &mut state, &fop(Opcode::FaddS, 1, 2, 3, 0, reserved)),
            Err(TrapInfo { cause: 2, tval: 0 })
        );
    }
}

#[test]
fn fs_off_is_illegal() {
    let mut ctx = Context::new([0; 32], 0, 0x800);
    let mut state = FpState::new();
    for code in [Opcode::FaddS, Opcode::Flw, Opcode::FmvXW, Opcode::FsgnjD] {
        assert_eq!(
            step(&mut ctx, &mut state, &fop(code, 1, 2, 3, 0, 0)),
            Err(TrapInfo { cause: 2, tval: 0 })
        );
    }
    assert_eq!(read_csr(&ctx, &state, Csr::Frm), Err(TrapInfo { cause: 2, tval: 0 }));
    assert_eq!(write_csr(&mut ctx, &mut state, Csr::Frm, 1), Err(TrapInfo { cause: 2, tval: 0 }));
    assert_eq!(state.read_rm(), 0);
    assert_eq!(ctx.mstatus, 0x800);
}

#[test]
fn operations_outside_f_and_d_are_illegal() {
    let mut ctx = Context::new([0; 32], 0, FS_ON);
    let mut state = FpState::new();
    for code in [Opcode::Other, Opcode::Lw, Opcode::Csrrw] {
        assert_eq!(
            step(&mut ctx, &mut state, &fop(code, 1, 2, 3, 0, 0)),
            Err(TrapInfo { cause: 2, tval: 0 })
        );
    }
}

#[test]
fn which_instructions_are_emulated() {
    let add = fop(Opcode::FaddD, 1, 2, 3, 0, 0);
    assert!(is_fp(FpMode::Absent, &add));
    assert!(is_fp(FpMode::MemOnly, &add));
    assert!(!is_fp(FpMode::Full, &add));
    for code in [Opcode::Flw, Opcode::Fsd, Opcode::FmvXW, Opcode::FclassD, Opcode::FnmaddS, Opcode::FcvtDS] {
        assert!(is_fp(FpMode::Absent, &fop(code, 0, 0, 0, 0, 0)));
    }
    for code in [Opcode::Lw, Opcode::Sd, Opcode::Csrrs, Opcode::Other] {
        assert!(!is_fp(FpMode::Absent, &fop(code, 0, 0, 0, 0, 0)));
    }
}

#[test]
fn csr_writes_are_clamped() {
    for value in 0u64..8 {
        let mut ctx = Context::new([0; 32], 0, FS_ON);
        let mut state = FpState::new();
        assert_eq!(write_csr(&mut ctx, &mut state, Csr::Frm, value), Ok(()));
        assert_eq!(state.read_rm() as u64, value.min(4));
        assert_eq!(ctx.mstatus & 0x6000, 0x6000);
    }
    for value in [0u64, 1, 0x1f, 0x20, 0xff, 0x1234_5678, u64::MAX] {
        let mut ctx = Context::new([0; 32], 0, FS_ON);
        let mut state = FpState::new();
        assert_eq!(write_csr(&mut ctx, &mut state, Csr::Fflags, value), Ok(()));
        assert_eq!(state.read_flags() as u64, value & 0x1f);
        assert_eq!(state.read_rm(), 0);
    }
    let mut ctx = Context::new([0; 32], 0, FS_ON);
    let mut state = FpState::new();
    assert_eq!(write_csr(&mut ctx, &mut state, Csr::Fcsr, 0xe5), Ok(()));
    assert_eq!((state.read_rm(), state.read_flags()), (4, 5));
    assert_eq!(read_csr(&ctx, &state, Csr::Fcsr), Ok(0x85));
    assert_eq!(read_csr(&ctx, &state, Csr::Frm), Ok(4));
    assert_eq!(read_csr(&ctx, &state, Csr::Fflags), Ok(5));
    assert_eq!(clamp_rm(0xff), 4);
    assert_eq!(clamp_rm(0x0a), 2);
}

#[test]
fn csr_instructions() {
    let mut ctx = Context::new([0; 32], 0, FS_ON);
    let mut state = FpState::new();
    ctx.registers[5] = 0x1e;
    // csrrw x6, fflags, x5
    let swap = Op { code: Opcode::Csrrw, rd: 6, rs1: 5, csr: Csr::Fflags, ..fop(Opcode::Csrrw, 0, 0, 0, 0, 0) };
    assert_eq!(interp::step(&mut ctx, &mut state, FpMode::Absent, &swap, 0), Ok(FpWork::Done));
    assert_eq!((ctx.registers[6], state.read_flags()), (0, 0x1e));
    // csrrsi x7, fflags, 1
    let set = Op { code: Opcode::Csrrsi, rd: 7, rs1: 1, csr: Csr::Fflags, ..swap };
    assert_eq!(interp::step(&mut ctx, &mut state, FpMode::Absent, &set, 0), Ok(FpWork::Done));
    assert_eq!((ctx.registers[7], state.read_flags()), (0x1e, 0x1f));
    // csrrc x8, fflags, x5
    let clear = Op { code: Opcode::Csrrc, rd: 8, rs1: 5, csr: Csr::Fflags, ..swap };
    assert_eq!(interp::step(&mut ctx, &mut state, FpMode::Absent, &clear, 0), Ok(FpWork::Done));
    assert_eq!((ctx.registers[8], state.read_flags()), (0x1f, 0x01));
    // csrrci x9, frm, 0 only reads
    let read = Op { code: Opcode::Csrrci, rd: 9, rs1: 0, csr: Csr::Frm, ..swap };
    state.write_rm(2);
    assert_eq!(interp::step(&mut ctx, &mut state, FpMode::Absent, &read, 0), Ok(FpWork::Done));
    assert_eq!((ctx.registers[9], state.read_rm()), (2, 2));
    // the timer cannot be written, and unknown registers cannot be read
    let write_time = Op { code: Opcode::Csrrwi, rd: 0, rs1: 3, csr: Csr::Time, ..swap };
    assert_eq!(
        interp::step(&mut ctx, &mut state, FpMode::Absent, &write_time, 0),
        Err(TrapInfo { cause: 2, tval: 0 })
    );
    let unknown = Op { code: Opcode::Csrrs, rd: 1, rs1: 0, csr: Csr::Other, ..swap };
    assert_eq!(
        interp::step(&mut ctx, &mut state, FpMode::Absent, &unknown, 0),
        Err(TrapInfo { cause: 2, tval: 0 })
    );
    // on a hart with full hardware a floating-point instruction is not emulated
    assert_eq!(
        interp::step(&mut ctx, &mut state, FpMode::Full, &fop(Opcode::FaddS, 1, 2, 3, 0, 0), 0),
        Err(TrapInfo { cause: 2, tval: 0 })
    );
}

#[test]
fn sign_injection_matches_soft_float() {
    let pairs = [(1.5f32, -2.0f32), (-1.5, 2.0), (-0.0, -7.0), (3.0, 0.0)];
    for (a, b) in pairs {
        let mut ctx = Context::new([0; 32], 0, FS_ON);
        let mut state = FpState::new();
        state.write_fpr(2, BOX | a.to_bits() as u64);
        state.write_fpr(3, BOX | b.to_bits() as u64);
        assert_eq!(step(&mut ctx, &mut state, &fop(Opcode::FsgnjS, 4, 2, 3, 0, 0)), Ok(FpWork::Done));
        assert_eq!(step(&mut ctx, &mut state, &fop(Opcode::FsgnjnS, 5, 2, 3, 0, 0)), Ok(FpWork::Done));
        assert_eq!(step(&mut ctx, &mut state, &fop(Opcode::FsgnjxS, 6, 2, 3, 0, 0)), Ok(FpWork::Done));
        assert_eq!(state.read_fpr(4), BOX | a.copysign(b).to_bits() as u64);
        assert_eq!(state.read_fpr(5), BOX | a.copysign(-b).to_bits() as u64);
        let xored = if b.is_sign_negative() { -a } else { a };
        assert_eq!(state.read_fpr(6), BOX | xored.to_bits() as u64);
        assert_eq!(ctx.mstatus & 0x6000, 0x6000);

        let (da, db) = (a as f64 * 3.0, b as f64 * 5.0);
        state.write_fpr(12, da.to_bits());
        state.write_fpr(13, db.to_bits());
        assert_eq!(step(&mut ctx, &mut state, &fop(Opcode::FsgnjD, 14, 12, 13, 0, 0)), Ok(FpWork::Done));
        assert_eq!(step(&mut ctx, &mut state, &fop(Opcode::FsgnjnD, 15, 12, 13, 0, 0)), Ok(FpWork::Done));
        assert_eq!(step(&mut ctx, &mut state, &fop(Opcode::FsgnjxD, 16, 12, 13, 0, 0)), Ok(FpWork::Done));
        assert_eq!(state.read_fpr(14), da.copysign(db).to_bits());
        assert_eq!(state.read_fpr(15), da.copysign(-db).to_bits());
        let dxored = if db.is_sign_negative() { -da } else { da };
        assert_eq!(state.read_fpr(16), dxored.to_bits());
    }
}

#[test]
fn classification() {
    let singles: [(f32, u64); 8] = [
        (f32::NEG_INFINITY, 1 << 0),
        (-1.0, 1 << 1),
        (-1.0e-40, 1 << 2),
        (-0.0, 1 << 3),
        (0.0, 1 << 4),
        (1.0e-40, 1 << 5),
        (1.0, 1 << 6),
        (f32::INFINITY, 1 << 7),
    ];
    for (value, class) in singles {
        let mut ctx = Context::new([0; 32], 0, FS_ON);
        let mut state = FpState::new();
        state.write_fpr(2, BOX | value.to_bits() as u64);
        assert_eq!(step(&mut ctx, &mut state, &fop(Opcode::FclassS, 10, 2, 0, 0, 0)), Ok(FpWork::Done));
        assert_eq!(ctx.registers[10], class);
        state.write_fpr(3, (value as f64).to_bits());
        assert_eq!(step(&mut ctx, &mut state, &fop(Opcode::FclassD, 11, 3, 0, 0, 0)), Ok(FpWork::Done));
        let double_class = if class == 1 << 2 { 1 << 1 } else if class == 1 << 5 { 1 << 6 } else { class };
        assert_eq!(ctx.registers[11], double_class);
        // Classification leaves the floating-point state untouched.
        assert_eq!(ctx.mstatus & 0x6000, FS_ON);
    }
    let mut ctx = Context::new([0; 32], 0, FS_ON);
    let mut state = FpState::new();
    state.write_fpr(2, BOX | 0x7fa0_0000);
    state.write_fpr(3, BOX | 0x7fc0_0000);
    state.write_fpr(4, 0x7ff4_0000_0000_0000);
    state.write_fpr(5, 0x7ff8_0000_0000_0000);
    state.write_fpr(6, 0x0000_0000_0000_0001);
    for (reg, code, class) in [
        (2u8, Opcode::FclassS, 1u64 << 8),
        (3, Opcode::FclassS, 1 << 9),
        (4, Opcode::FclassD, 1 << 8),
        (5, Opcode::FclassD, 1 << 9),
        (6, Opcode::FclassD, 1 << 5),
    ] {
        assert_eq!(step(&mut ctx, &mut state, &fop(code, 10, reg, 0, 0, 0)), Ok(FpWork::Done));
        assert_eq!(ctx.registers[10], class);
    }
}

#[test]
fn register_moves() {
    let mut ctx = Context::new([0; 32], 0, FS_ON);
    let mut state = FpState::new();
    ctx.registers[5] = 0x1234_5678_c030_0000;
    assert_eq!(step(&mut ctx, &mut state, &fop(Opcode::FmvWX, 1, 5, 0, 0, 0)), Ok(FpWork::Done));
    assert_eq!(state.read_fpr(1), BOX | 0xc030_0000);
    assert_eq!(step(&mut ctx, &mut state, &fop(Opcode::FmvDX, 2, 5, 0, 0, 0)), Ok(FpWork::Done));
    assert_eq!(state.read_fpr(2), 0x1234_5678_c030_0000);
    assert_eq!(step(&mut ctx, &mut state, &fop(Opcode::FmvXW, 6, 1, 0, 0, 0)), Ok(FpWork::Done));
    assert_eq!(ctx.registers[6], 0xffff_ffff_c030_0000);
    assert_eq!(step(&mut ctx, &mut state, &fop(Opcode::FmvXD, 7, 2, 0, 0, 0)), Ok(FpWork::Done));
    assert_eq!(ctx.registers[7], 0x1234_5678_c030_0000);
    assert_eq!(step(&mut ctx, &mut state, &fop(Opcode::FmvXD, 0, 2, 0, 0, 0)), Ok(FpWork::Done));
    assert_eq!(ctx.registers[0], 0);
}

#[test]
fn loads_and_stores() {
    let mut ctx = Context::new([0; 32], 0, FS_ON);
    let mut state = FpState::new();
    ctx.registers[8] = 0x8000_1000;
    let flw = Op { imm: -4, ..fop(Opcode::Flw, 3, 8, 0, 0, 0) };
    assert_eq!(
        step(&mut ctx, &mut state, &flw),
        Ok(FpWork::Load { addr: 0x8000_0ffc, double: false })
    );
    assert_eq!(ctx.mstatus & 0x6000, FS_ON);
    complete_load(&mut ctx, &mut state, &flw, 0xaaaa_bbbb_4040_0000);
    assert_eq!(state.read_fpr(3), BOX | 0x4040_0000);
    assert_eq!(ctx.mstatus & 0x6000, 0x6000);

    let fld = Op { imm: 8, ..fop(Opcode::Fld, 4, 8, 0, 0, 0) };
    assert_eq!(
        step(&mut ctx, &mut state, &fld),
        Ok(FpWork::Load { addr: 0x8000_1008, double: true })
    );
    complete_load(&mut ctx, &mut state, &fld, 0x4008_0000_0000_0000);
    assert_eq!(state.read_fpr(4), 0x4008_0000_0000_0000);

    let fsw = Op { imm: 4, ..fop(Opcode::Fsw, 0, 8, 3, 0, 0) };
    assert_eq!(
        step(&mut ctx, &mut state, &fsw),
        Ok(FpWork::Store { addr: 0x8000_1004, double: false, value: 0x4040_0000 })
    );
    let fsd = Op { imm: 0, ..fop(Opcode::Fsd, 0, 8, 4, 0, 0) };
    assert_eq!(
        step(&mut ctx, &mut state, &fsd),
        Ok(FpWork::Store { addr: 0x8000_1000, double: true, value: 0x4008_0000_0000_0000 })
    );

    let odd = Op { imm: 2, ..flw };
    assert_eq!(step(&mut ctx, &mut state, &odd), Err(TrapInfo { cause: 4, tval: 0x8000_1002 }));
    let half = Op { imm: 4, ..fld };
    assert_eq!(step(&mut ctx, &mut state, &half), Err(TrapInfo { cause: 4, tval: 0x8000_1004 }));
    let odd_store = Op { imm: 1, ..fsw };
    assert_eq!(
        step(&mut ctx, &mut state, &odd_store),
        Err(TrapInfo { cause: 6, tval: 0x8000_1001 })
    );
    let half_store = Op { imm: 4, ..fsd };
    assert_eq!(
        step(&mut ctx, &mut state, &half_store),
        Err(TrapInfo { cause: 6, tval: 0x8000_1004 })
    );
}

#[test]
fn fused_multiply_add_signs() {
    softfp::register_get_rounding_mode(nearest_even);
    softfp::register_set_exception_flags(ignore_flags);
    let (a, b, c) = (2.0f64, 3.0f64, 1.0f64);
    let cases = [
        (Opcode::FmaddD, a * b + c),
        (Opcode::FmsubD, a * b - c),
        (Opcode::FnmsubD, -(a * b) + c),
        (Opcode::FnmaddD, -(a * b) - c),
    ];
    for (code, expected) in cases {
        let mut ctx = Context::new([0; 32], 0, FS_ON);
        let mut state = FpState::new();
        state.write_fpr(1, a.to_bits());
        state.write_fpr(2, b.to_bits());
        state.write_fpr(3, c.to_bits());
        let op = fop(code, 4, 1, 2, 3, 0);
        let request = expect_arith(step(&mut ctx, &mut state, &op));
        assert_eq!(request.arith, FpArith::MulAdd);
        let flipped_a = code == Opcode::FnmsubD || code == Opcode::FnmaddD;
        let flipped_c = code == Opcode::FmsubD || code == Opcode::FnmaddD;
        assert_eq!(request.a, if flipped_a { (-a).to_bits() } else { a.to_bits() });
        assert_eq!(request.b, b.to_bits());
        assert_eq!(request.c, if flipped_c { (-c).to_bits() } else { c.to_bits() });
        let r = F64::fused_multiply_add(F64::new(request.a), F64::new(request.b), F64::new(request.c));
        complete_arith(&mut ctx, &mut state, &op, r.0, 0);
        assert_eq!(state.read_fpr(4), expected.to_bits());
    }
    let (a, b, c) = (2.0f32, 3.0f32, 1.0f32);
    let singles = [
        (Opcode::FmsubS, a * b - c),
        (Opcode::FnmsubS, -(a * b) + c),
        (Opcode::FnmaddS, -(a * b) - c),
    ];
    for (code, expected) in singles {
        let mut ctx = Context::new([0; 32], 0, FS_ON);
        let mut state = FpState::new();
        state.write_fpr(1, BOX | a.to_bits() as u64);
        state.write_fpr(2, BOX | b.to_bits() as u64);
        state.write_fpr(3, BOX | c.to_bits() as u64);
        let op = fop(code, 4, 1, 2, 3, 0);
        let request = expect_arith(step(&mut ctx, &mut state, &op));
        let r = F32::fused_multiply_add(
            F32::new(request.a as u32),
            F32::new(request.b as u32),
            F32::new(request.c as u32),
        );
        complete_arith(&mut ctx, &mut state, &op, r.0 as u64, 0);
        assert_eq!(state.read_fpr(4), BOX | expected.to_bits() as u64);
    }
}

#[test]
fn results_go_where_the_instruction_says() {
    // Conversion to a signed word is sign-extended into the integer register.
    let mut ctx = Context::new([0; 32], 0, FS_ON);
    let mut state = FpState::new();
    let to_word = fop(Opcode::FcvtWS, 10, 1, 0, 0, 1);
    complete_arith(&mut ctx, &mut state, &to_word, 0xffff_fff9, 0);
    assert_eq!(ctx.registers[10], 0xffff_ffff_ffff_fff9);
    assert_eq!(ctx.mstatus & 0x6000, FS_ON);
    // A comparison that raised a flag dirties the state.
    let less = fop(Opcode::FltD, 11, 1, 2, 0, 0);
    complete_arith(&mut ctx, &mut state, &less, 0, 0x10);
    assert_eq!(ctx.registers[11], 0);
    assert_eq!(state.read_flags(), 0x10);
    assert_eq!(ctx.mstatus & 0x6000, 0x6000);
    // Flags accumulate and only the five defined bits count.
    complete_arith(&mut ctx, &mut state, &fop(Opcode::FcvtLuD, 12, 1, 0, 0, 0), 7, 0xe1);
    assert_eq!(ctx.registers[12], 7);
    assert_eq!(state.read_flags(), 0x11);
    // Narrowing leaves a boxed single, widening a double.
    complete_arith(&mut ctx, &mut state, &fop(Opcode::FcvtSD, 3, 1, 0, 0, 0), 0x3fc0_0000, 0);
    assert_eq!(state.read_fpr(3), BOX | 0x3fc0_0000);
    complete_arith(&mut ctx, &mut state, &fop(Opcode::FcvtDS, 4, 1, 0, 0, 0), 0x3ff8_0000_0000_0000, 0);
    assert_eq!(state.read_fpr(4), 0x3ff8_0000_0000_0000);
}

#[test]
fn integer_sources() {
    let mut ctx = Context::new([0; 32], 0, FS_ON);
    let mut state = FpState::new();
    ctx.registers[5] = 0xffff_ffff_8000_0001;
    let word = expect_arith(step(&mut ctx, &mut state, &fop(Opcode::FcvtSW, 1, 5, 0, 0, 0)));
    assert_eq!((word.arith, word.a, word.double), (FpArith::FromSint32, 0x8000_0001, false));
    let long = expect_arith(step(&mut ctx, &mut state, &fop(Opcode::FcvtDLu, 1, 5, 0, 0, 0)));
    assert_eq!((long.arith, long.a, long.double), (FpArith::FromUint64, 0xffff_ffff_8000_0001, true));
    state.write_fpr(7, BOX | 0x4000_0000);
    let widen = expect_arith(step(&mut ctx, &mut state, &fop(Opcode::FcvtDS, 1, 7, 0, 0, 0)));
    assert_eq!((widen.arith, widen.a, widen.double), (FpArith::Widen, 0x4000_0000, true));
    state.write_fpr(8, 0x4000_0000_0000_0001);
    let narrow = expect_arith(step(&mut ctx, &mut state, &fop(Opcode::FcvtSD, 1, 8, 0, 0, 0)));
    assert_eq!((narrow.arith, narrow.a), (FpArith::Narrow, 0x4000_0000_0000_0001));
}

fn toward_positive() -> RoundingMode {
    RoundingMode::TowardPositive
}

#[test]
fn negated_multiply_add_rounds_the_negated_sum() {
    softfp::register_get_rounding_mode(toward_positive);
    softfp::register_set_exception_flags(ignore_flags);
    // 1 * 1 + 2^-60 is inexact; rounded up, -(a*b) - c is -1, not the next number below it.
    let (a, b, c) = (1.0f64, 1.0f64, f64::from_bits(0x3c30_0000_0000_0000));
    let mut ctx = Context::new([0; 32], 0, FS_ON);
    let mut state = FpState::new();
    state.write_fpr(1, a.to_bits());
    state.write_fpr(2, b.to_bits());
    state.write_fpr(3, c.to_bits());
    let op = fop(Opcode::FnmaddD, 4, 1, 2, 3, 3);
    let request = expect_arith(step(&mut ctx, &mut state, &op));
    assert_eq!(request.rm, 3);
    let r = F64::fused_multiply_add(F64::new(request.a), F64::new(request.b), F64::new(request.c));
    complete_arith(&mut ctx, &mut state, &op, r.0, 1);
    assert_eq!(state.read_fpr(4), (-1.0f64).to_bits());
    assert_eq!(state.read_flags(), 1);
}
