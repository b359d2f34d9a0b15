use firmware::misalign::{
    complete_misaligned_read, complete_misaligned_write, handle_misaligned_read,
    handle_misaligned_write, le_bytes, le_value,
};
use firmware::op::{Csr, Fetched, Op, Opcode};
use firmware::trap::{Context, TrapInfo};

fn got(op: Op) -> Result<Fetched, TrapInfo> {
    Ok(Fetched { low: 0x2003, high: 0, op })
}

fn mem_op(code: Opcode, rd: u8, rs1: u8, rs2: u8) -> Op {
    Op { code, rd, rs1, rs2, rs3: 0, rm: 0, imm: 0, csr: Csr::Other }
}

#[test]
fn misaligned_word_store() {
    let mut ctx = Context::new([0; 32], 0x8000_0100, 0);
    ctx.registers[5] = 0xDEAD_BEEF;
    ctx.registers[6] = 0x8000_2003;
    let op = mem_op(Opcode::Sw, 0, 6, 5);
    let bytes = handle_misaligned_write(&ctx, &got(op), 0x8000_2003).unwrap();
    assert_eq!(bytes, vec![0xEF, 0xBE, 0xAD, 0xDE]);
    complete_misaligned_write(&mut ctx, 0x2023);
    assert_eq!(ctx.pc, 0x8000_0104);
}

#[test]
fn store_widths() {
    let mut ctx = Context::new([0; 32], 0, 0);
    ctx.registers[7] = 0x0102_0304_0506_0708;
    assert_eq!(
        handle_misaligned_write(&ctx, &got(mem_op(Opcode::Sh, 0, 1, 7)), 1).unwrap(),
        vec![0x08, 0x07]
    );
    assert_eq!(
        handle_misaligned_write(&ctx, &got(mem_op(Opcode::Sd, 0, 1, 7)), 1).unwrap(),
        vec![0x08, 0x07, 0x06, 0x05, 0x04, 0x03, 0x02, 0x01]
    );
    assert_eq!(
        handle_misaligned_write(&ctx, &got(mem_op(Opcode::Lw, 0, 1, 7)), 0x55),
        Err(TrapInfo { cause: 6, tval: 0x55 })
    );
}

#[test]
fn load_lengths() {
    assert_eq!(handle_misaligned_read(&got(mem_op(Opcode::Lh, 1, 2, 0)), 9), Ok(2));
    assert_eq!(handle_misaligned_read(&got(mem_op(Opcode::Lhu, 1, 2, 0)), 9), Ok(2));
    assert_eq!(handle_misaligned_read(&got(mem_op(Opcode::Lw, 1, 2, 0)), 9), Ok(4));
    assert_eq!(handle_misaligned_read(&got(mem_op(Opcode::Lwu, 1, 2, 0)), 9), Ok(4));
    assert_eq!(handle_misaligned_read(&got(mem_op(Opcode::Ld, 1, 2, 0)), 9), Ok(8));
    assert_eq!(
        handle_misaligned_read(&got(mem_op(Opcode::Sw, 1, 2, 0)), 9),
        Err(TrapInfo { cause: 4, tval: 9 })
    );
    assert_eq!(
        handle_misaligned_read(&got(mem_op(Opcode::FaddS, 1, 2, 0)), 0x77),
        Err(TrapInfo { cause: 4, tval: 0x77 })
    );
}

#[test]
fn loads_extend_as_they_say() {
    let cases: [(Opcode, Vec<u8>, u64); 7] = [
        (Opcode::Lh, vec![0x34, 0x92], 0xffff_ffff_ffff_9234),
        (Opcode::Lh, vec![0x34, 0x12], 0x1234),
        (Opcode::Lhu, vec![0x34, 0x92], 0x9234),
        (Opcode::Lw, vec![0xEF, 0xBE, 0xAD, 0xDE], 0xffff_ffff_DEAD_BEEF),
        (Opcode::Lw, vec![0xEF, 0xBE, 0xAD, 0x5E], 0x5EAD_BEEF),
        (Opcode::Lwu, vec![0xEF, 0xBE, 0xAD, 0xDE], 0xDEAD_BEEF),
        (Opcode::Ld, vec![1, 2, 3, 4, 5, 6, 7, 0x88], 0x8807_0605_0403_0201),
    ];
    for (code, bytes, expected) in cases {
        let mut ctx = Context::new([0; 32], 0x100, 0);
        complete_misaligned_read(&mut ctx, 0x4502, &mem_op(code, 9, 2, 0), &bytes);
        assert_eq!(ctx.registers[9], expected);
        assert_eq!(ctx.pc, 0x102);
    }
}

#[test]
fn load_into_x0_only_advances() {
    let mut ctx = Context::new([0; 32], 0x100, 0);
    complete_misaligned_read(&mut ctx, 0x2003, &mem_op(Opcode::Lw, 0, 2, 0), &[1, 2, 3, 4]);
    assert_eq!(ctx.registers, [0u64; 32]);
    assert_eq!(ctx.pc, 0x104);
}

#[test]
fn store_then_load_round_trip() {
    let values = [0u64, 1, 0x8000, 0xffff, 0xDEAD_BEEF, 0x8000_0000, u64::MAX, 0x0123_4567_89ab_cdef];
    let pairs = [
        (Opcode::Sh, Opcode::Lhu, 0xffffu64),
        (Opcode::Sh, Opcode::Lh, 0xffff),
        (Opcode::Sw, Opcode::Lwu, 0xffff_ffff),
        (Opcode::Sw, Opcode::Lw, 0xffff_ffff),
        (Opcode::Sd, Opcode::Ld, u64::MAX),
    ];
    for value in values {
        for (store, load, mask) in pairs {
            let mut ctx = Context::new([0; 32], 0, 0);
            ctx.registers[5] = value;
            let bytes = handle_misaligned_write(&ctx, &got(mem_op(store, 0, 6, 5)), 3).unwrap();
            complete_misaligned_read(&mut ctx, 0x2003, &mem_op(load, 7, 6, 0), &bytes);
            assert_eq!(ctx.registers[7] & mask, value & mask);
            if load == Opcode::Lhu || load == Opcode::Lwu || load == Opcode::Ld {
                assert_eq!(ctx.registers[7], value & mask);
            }
        }
    }
}

#[test]
fn little_endian_helpers() {
    assert_eq!(le_value(&[]), 0);
    assert_eq!(le_value(&[0x12]), 0x12);
    assert_eq!(le_value(&[0x34, 0x12]), 0x1234);
    assert_eq!(le_bytes(0x1234, 0), Vec::<u8>::new());
    assert_eq!(le_bytes(0xa1b2_c3d4, 3), vec![0xd4, 0xc3, 0xb2]);
}

#[test]
fn fetch_fault_is_passed_on() {
    let fault = TrapInfo { cause: 12, tval: 0x4000 };
    let ctx = Context::new([0; 32], 0x4000, 0);
    assert_eq!(handle_misaligned_read(&Err(fault), 0x55), Err(fault));
    assert_eq!(handle_misaligned_write(&ctx, &Err(fault), 0x55), Err(fault));
}
