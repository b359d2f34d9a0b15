use firmware::bytes::{join, u16_at, u32_at, u64_at};
use firmware::io::{read_exact, read_exact_at, Error};
use firmware::memory::{
    access_flags, load, load_u16_exec, load_u32, load_u64, load_usize, store, store_u32,
    store_u64, Guarded,
};
use firmware::part::{Part, PartError};
use firmware::tcp::{connect_progress, next_port, shutdown_progress, Shutdown, TcpError, TcpState};
use firmware::ipi::msip_write;
use firmware::timer::{sleep, timer_compare_offset, time, time_u64, Timer};
use firmware::trap::TrapInfo;
use firmware::uart::{
    uart_get_mode, uart_init, transmitter_ready, uart_set_mode, uart_try_recv_byte, Config, Console,
    RegWrite,
};
use firmware::video::{achievable, mode_720p_60hz, set_mode, Mode, Polarity, Write};

const CLEAN: Guarded = Guarded { faulted: false, cause: 0, tval: 0 };
const FAULT: Guarded = Guarded { faulted: true, cause: 13, tval: 0x4000 };
const TRAP: TrapInfo = TrapInfo { cause: 13, tval: 0x4000 };

#[test]
fn guarded_loads() {
    assert_eq!(load_u16_exec(CLEAN, 0xffff_ffff_ffff_4502), Ok(0x4502));
    assert_eq!(load_u16_exec(FAULT, 0x4502), Err(TRAP));
    assert_eq!(load_u32(CLEAN, 0xffff_ffff_dead_beef), Ok(0xdead_beef));
    assert_eq!(load_u32(FAULT, 1), Err(TRAP));
    assert_eq!(load_u64(CLEAN, 0x0123_4567_89ab_cdef), Ok(0x0123_4567_89ab_cdef));
    assert_eq!(load_u64(FAULT, 1), Err(TRAP));
    assert_eq!(load_usize(CLEAN, 42), Ok(42));
    assert_eq!(load_usize(FAULT, 42), Err(TRAP));
}

#[test]
fn guarded_buffers() {
    let mut buf = vec![0u8; 4];
    assert_eq!(load(&mut buf, &[1, 2, 3, 4], CLEAN), Ok(()));
    assert_eq!(buf, vec![1, 2, 3, 4]);
    let mut partial = vec![9u8; 4];
    assert_eq!(load(&mut partial, &[1, 2], FAULT), Err(TRAP));
    assert_eq!(partial, vec![1, 2, 9, 9]);
    let mut empty: Vec<u8> = Vec::new();
    assert_eq!(load(&mut empty, &[], FAULT), Ok(()));
    assert_eq!(store(0, FAULT), Ok(()));
    assert_eq!(store(3, FAULT), Err(TRAP));
    assert_eq!(store(3, CLEAN), Ok(()));
    assert_eq!(store_u32(CLEAN), Ok(()));
    assert_eq!(store_u32(FAULT), Err(TRAP));
    assert_eq!(store_u64(CLEAN), Ok(()));
    assert_eq!(store_u64(FAULT), Err(TRAP));
}

#[test]
fn status_bits_around_an_access() {
    assert_eq!(access_flags(false), 1 << 17);
    assert_eq!(access_flags(true), (1 << 17) | (1 << 19));
}

#[test]
fn timer_readings() {
    assert_eq!(time_u64(1, 2, 1), Some(0x1_0000_0002));
    assert_eq!(time_u64(1, 2, 2), None);
    assert_eq!(time(123), 123);
    let timer = Timer::new(1000, 50);
    assert_eq!(timer, Timer(1050));
    assert!(!timer.fired(1000));
    assert!(!timer.fired(1050));
    assert!(timer.fired(1051));
    let never = Timer::new(u64::MAX - 1, 5);
    assert!(!never.fired(u64::MAX));
    assert!(!sleep(100, 10, 110));
    assert!(sleep(100, 10, 111));
    assert!(!sleep(u64::MAX, 1, u64::MAX));
}

#[test]
fn first_partition() {
    let mut mbr = vec![0u8; 512];
    mbr[510] = 0x55;
    mbr[511] = 0xAA;
    mbr[0x1BE + 4] = 0x0C;
    mbr[0x1BE + 8..0x1BE + 12].copy_from_slice(&2048u32.to_le_bytes());
    let part = Part::first_partition(&mbr).unwrap();
    assert_eq!(part, Part::new(2048 * 512));
    assert_eq!(part.translate(512), Some(2049 * 512));
    assert_eq!(part.translate(u64::MAX), None);
    mbr[0x1BE + 4] = 0x83;
    assert_eq!(Part::first_partition(&mbr), Err(PartError::Unsupported));
    mbr[511] = 0;
    assert_eq!(Part::first_partition(&mbr), Err(PartError::NotValid));
    mbr[511] = 0xAA;
    mbr[510] = 0;
    assert_eq!(Part::first_partition(&mbr), Err(PartError::NotValid));
    mbr[510] = 0x55;
    mbr[0x1BE + 4] = 0x0C;
    mbr[0x1BE + 8..0x1BE + 12].copy_from_slice(&u32::MAX.to_le_bytes());
    assert_eq!(Part::first_partition(&mbr), Ok(Part::new(0xffff_ffff * 512)));
}

#[test]
fn uart_mode() {
    let config = Config { divisor: 0x0105, lcr: 0b11 };
    assert_eq!(
        uart_set_mode(config),
        vec![
            RegWrite { reg: 3, value: 0x83 },
            RegWrite { reg: 0, value: 0x05 },
            RegWrite { reg: 1, value: 0x01 },
            RegWrite { reg: 3, value: 0x03 },
        ]
    );
    assert_eq!(uart_get_mode(0x83, 0x05, 0x01), config);
    assert_eq!(uart_get_mode(0xffff_ff03, 0x1234, 0x5678), Config { divisor: 0x7834, lcr: 3 });
}

#[test]
fn little_endian_fields() {
    let data = [0x01, 0x02, 0x03, 0x04, 0x05, 0x06, 0x07, 0x08, 0x09];
    assert_eq!(u16_at(&data, 1), 0x0302);
    assert_eq!(u32_at(&data, 1), 0x0504_0302);
    assert_eq!(u64_at(&data, 1), 0x0908_0706_0504_0302);
    assert_eq!(join(0xaabb_ccdd, 0x1122_3344), 0xaabb_ccdd_1122_3344);
}

#[test]
fn filling_a_buffer() {
    assert_eq!(read_exact(10, 4), Ok(6));
    assert_eq!(read_exact(6, 6), Ok(0));
    assert_eq!(read_exact(6, 0), Err(Error::EarlyEof));
    assert_eq!(read_exact(0, 0), Ok(0));
    assert_eq!(read_exact_at(10, 100, 4), Ok((6, Some(104))));
    assert_eq!(read_exact_at(10, 100, 0), Err(Error::EarlyEof));
    assert_eq!(read_exact_at(10, u64::MAX, 4), Ok((6, None)));
}

#[test]
fn connection_states() {
    assert_eq!(connect_progress(TcpState::SynSent), None);
    assert_eq!(connect_progress(TcpState::Closed), Some(Err(TcpError::Unaddressable)));
    assert_eq!(connect_progress(TcpState::Established), Some(Ok(())));
    assert_eq!(connect_progress(TcpState::SynReceived), Some(Ok(())));
    assert!(shutdown_progress(Shutdown::Write, TcpState::FinWait2));
    assert!(!shutdown_progress(Shutdown::Both, TcpState::FinWait2));
    assert!(shutdown_progress(Shutdown::Both, TcpState::TimeWait));
    assert!(shutdown_progress(Shutdown::Write, TcpState::Closed));
    assert!(!shutdown_progress(Shutdown::Both, TcpState::FinWait1));
    assert!(!shutdown_progress(Shutdown::Write, TcpState::Established));
    assert_eq!(next_port(49152), Some(49153));
    assert_eq!(next_port(49166), Some(49167));
    assert_eq!(next_port(49167), None);
}

#[test]
fn display_mode() {
    let mode = mode_720p_60hz();
    assert!(achievable(&mode));
    assert!(!achievable(&Mode { freq: 148_500_000, ..mode }));
    assert!(achievable(&Mode { freq: 73_260_000, ..mode }));
    assert!(!achievable(&Mode { freq: 73_259_999, ..mode }));
    let writes = set_mode(&Mode { vpol: Polarity::Negative, ..mode });
    assert_eq!(
        writes,
        vec![
            Write { reg: 0x08, value: 2 },
            Write { reg: 0x24, value: 1280 },
            Write { reg: 0x28, value: 1390 },
            Write { reg: 0x2C, value: 1430 },
            Write { reg: 0x20, value: 1650 },
            Write { reg: 0x34, value: 720 },
            Write { reg: 0x38, value: 725 },
            Write { reg: 0x3C, value: 730 },
            Write { reg: 0x30, value: 750 },
        ]
    );
    assert_eq!(set_mode(&Mode { hpol: Polarity::Negative, ..mode })[0].value, 1);
}

#[test]
fn console_and_receiver() {
    assert_eq!(Console.write_str(b"a\nb\n\n"), b"a\r\nb\r\n\r\n".to_vec());
    assert_eq!(Console.write_str(b""), Vec::<u8>::new());
    assert_eq!(Console.write_str(b"\r"), b"\r".to_vec());
    assert_eq!(uart_try_recv_byte(0x61, 0x1234_5641), Some(0x41));
    assert_eq!(uart_try_recv_byte(0x60, 0x41), None);
    assert!(transmitter_ready(0x20));
    assert!(!transmitter_ready(0x1f));
    assert_eq!(uart_init(), (RegWrite { reg: 2, value: 7 }, Config { divisor: 10, lcr: 3 }));
}

#[test]
fn interruptor_registers() {
    assert_eq!(msip_write(0, true), (0, 1));
    assert_eq!(msip_write(3, false), (12, 0));
    assert_eq!(timer_compare_offset(0), 0x4000);
    assert_eq!(timer_compare_offset(3), 0x4018);
}
