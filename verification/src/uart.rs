//! Line settings of the console UART.

use vstd::prelude::*;

verus! {

/// Bit of the line control register that maps the divisor latches in.
pub const LCR_DLAB: u8 = 0x80;

/// Index of the low divisor latch.
pub const UART_DLL: u8 = 0;

/// Index of the high divisor latch.
pub const UART_DLM: u8 = 1;

/// Index of the line control register.
pub const UART_LCR: u8 = 3;

/// Baud rate divisor and line control.
#[derive(Clone, Copy, Debug, PartialEq, Eq, Structural)]
pub struct Config {
    pub divisor: u16,
    pub lcr: u8,
}

/// One register write: the register's index and the value.
#[derive(Clone, Copy, Debug, PartialEq, Eq, Structural)]
pub struct RegWrite {
    pub reg: u8,
    pub value: u32,
}

/// The writes that set a mode, in order: line control with the latches
/// mapped in, low and high half of the divisor, line control as configured.
pub open spec fn spec_mode_writes(config: Config) -> Seq<RegWrite> {
    seq![
        RegWrite { reg: UART_LCR, value: (config.lcr | LCR_DLAB) as u32 },
        RegWrite { reg: UART_DLL, value: (config.divisor & 0xff) as u32 },
        RegWrite { reg: UART_DLM, value: (config.divisor >> 8) as u32 },
        RegWrite { reg: UART_LCR, value: config.lcr as u32 },
    ]
}

pub fn uart_set_mode(config: Config) -> (r: Vec<RegWrite>)
    ensures
        r@ == spec_mode_writes(config),
{
    let mut out: Vec<RegWrite> = Vec::new();
    out.push(RegWrite { reg: UART_LCR, value: (config.lcr | LCR_DLAB) as u32 });
    out.push(RegWrite { reg: UART_DLL, value: (config.divisor & 0xff) as u32 });
    out.push(RegWrite { reg: UART_DLM, value: (config.divisor >> 8) as u32 });
    out.push(RegWrite { reg: UART_LCR, value: config.lcr as u32 });
    assert(out@ =~= spec_mode_writes(config));
    out
}

/// The mode that the registers show: line control without the latch bit, and
/// the divisor from the low bytes of the two latches.
pub open spec fn spec_mode(lcr: u32, dll: u32, dlm: u32) -> Config {
    Config {
        divisor: ((((dlm & 0xff) as u16) << 8) | ((dll & 0xff) as u16)),
        lcr: ((lcr & 0xff) as u8) & !LCR_DLAB,
    }
}

pub fn uart_get_mode(lcr: u32, dll: u32, dlm: u32) -> (r: Config)
    ensures
        r == spec_mode(lcr, dll, dlm),
{
    assert(lcr & 0xff <= 0xff && dll & 0xff <= 0xff && dlm & 0xff <= 0xff) by (bit_vector);
    Config {
        divisor: ((((dlm & 0xff) as u16) << 8) | ((dll & 0xff) as u16)),
        lcr: ((lcr & 0xff) as u8) & !LCR_DLAB,
    }
}

/// Reading back what was set gives the configuration again, as long as the
/// configured line control does not itself map the latches in.
pub proof fn lemma_mode_round_trip(config: Config)
    requires
        config.lcr & LCR_DLAB == 0,
    ensures
        spec_mode(
            spec_mode_writes(config)[3].value,
            spec_mode_writes(config)[1].value,
            spec_mode_writes(config)[2].value,
        ) == config,
{
    let d = config.divisor;
    let l = config.lcr;
    assert((((((d >> 8) as u32) & 0xff) as u16) << 8) | ((((d & 0xff) as u32) & 0xff) as u16) == d)
        by (bit_vector);
    assert(l & 0x80 == 0 ==> (((l as u32) & 0xff) as u8) & !0x80u8 == l) by (bit_vector);
}

/// Index of the FIFO control register.
pub const UART_FCR: u8 = 2;

/// Index of the line status register.
pub const UART_LSR: u8 = 5;

/// Line status bit: a received byte is waiting.
pub const LSR_DATA_READY: u32 = 0x01;

/// Line status bit: the transmitter takes another byte.
pub const LSR_THR_EMPTY: u32 = 0x20;

/// Bringing the UART up: the write that resets both FIFOs, and the mode to
/// set after it.
pub fn uart_init() -> (r: (RegWrite, Config))
    ensures
        r.0 == (RegWrite { reg: UART_FCR, value: 0b111 }),
        r.1 == (Config { divisor: 10, lcr: 0b11 }),
{
    (RegWrite { reg: UART_FCR, value: 0b111 }, Config { divisor: 10, lcr: 0b11 })
}

/// Whether a byte can be handed to the transmitter, from the line status.
pub fn transmitter_ready(lsr: u32) -> (r: bool)
    ensures
        r == (lsr & LSR_THR_EMPTY != 0),
{
    lsr & LSR_THR_EMPTY != 0
}

/// The received byte, if the line status says that one is waiting: the low
/// byte of the receive register.
pub fn uart_try_recv_byte(lsr: u32, rbr: u32) -> (r: Option<u8>)
    ensures
        r == if lsr & LSR_DATA_READY != 0 {
            Some((rbr & 0xff) as u8)
        } else {
            None
        },
{
    if lsr & LSR_DATA_READY != 0 {
        assert(rbr & 0xff <= 0xff) by (bit_vector);
        Some((rbr & 0xff) as u8)
    } else {
        None
    }
}

/// The console, which sends text through the UART.
#[derive(Clone, Copy, Debug, PartialEq, Eq, Structural)]
pub struct Console;

/// The first `n` bytes of a text as the console sends them: a carriage
/// return goes before every line feed.
pub open spec fn spec_console_bytes(text: Seq<u8>, n: int) -> Seq<u8>
    decreases n,
{
    if n <= 0 {
        Seq::empty()
    } else if text[n - 1] == 0x0a {
        spec_console_bytes(text, n - 1) + seq![0x0du8, 0x0au8]
    } else {
        spec_console_bytes(text, n - 1).push(text[n - 1])
    }
}

impl Console {
    /// The bytes to send for a text.
    pub fn write_str(&self, text: &[u8]) -> (r: Vec<u8>)
        ensures
            r@ == spec_console_bytes(text@, text@.len() as int),
    {
        let mut out: Vec<u8> = Vec::new();
        let mut i: usize = 0;
        while i < text.len()
            invariant
                i <= text@.len(),
                out@ == spec_console_bytes(text@, i as int),
            decreases text@.len() - i,
        {
            let byte: u8 = text[i];
            if byte == 0x0a {
                out.push(0x0d);
            }
            out.push(byte);
            i = i + 1;
            assert(out@ =~= spec_console_bytes(text@, i as int));
        }
        out
    }
}

} // verus!
