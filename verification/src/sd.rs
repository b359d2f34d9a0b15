//! The command side of the SD host controller: which registers are written
//! with what for a command or a transfer, and what the controller's answers
//! mean. Reading and writing the registers is the caller's part.

use vstd::prelude::*;

verus! {

pub const BLK_SIZE: u8 = 0x04;

pub const BLK_CNT: u8 = 0x06;

pub const ARGUMENT: u8 = 0x08;

pub const XFER_MODE: u8 = 0x0C;

pub const CMD: u8 = 0x0E;

pub const SW_RESET: u8 = 0x2F;

pub const IRQ_STATUS: u8 = 0x30;

/// Bit of the interrupt status that says an error occurred.
pub const IRQ_ERROR: u32 = 0x8000;

/// Value that clears the error interrupts.
pub const IRQ_CLEAR_ERRORS: u32 = 0x03FF_0000;

/// Size of a block.
pub const BLOCK_SIZE: u32 = 512;

/// Command configuration of a data transfer.
pub const CONFIG_DATA: u8 = 0b0011_1010;

/// Command configuration of a command answered with a short response.
pub const CONFIG_R1: u8 = 0b0001_1010;

/// What is known of the card.
#[derive(Clone, Copy, Debug, PartialEq, Eq, Structural)]
pub struct Inner {
    pub init: bool,
    /// Whether the card is addressed by block rather than by byte.
    pub ccs: bool,
    /// The address the card published.
    pub rca: u16,
}

/// A command for the controller: the value for the argument register and
/// the value for the command register, which starts it.
#[derive(Clone, Copy, Debug, PartialEq, Eq, Structural)]
pub struct Command {
    pub argument: u32,
    pub word: u16,
}

/// A data transfer: the block count to set if more than one block moves, the
/// transfer mode, and the command that starts it.
#[derive(Clone, Copy, Debug, PartialEq, Eq, Structural)]
pub struct Transfer {
    pub block_count: Option<u16>,
    pub xfer_mode: u16,
    pub command: Command,
}

/// The response type of a plain command, as the command register wants it;
/// `None` for a command that the driver does not use.
pub open spec fn spec_config(index: u8) -> Option<u8> {
    if index == 0 {
        Some(0b0000_0000u8)
    } else if index == 8 || index == 3 {
        Some(0b0001_1010u8)
    } else if index == 7 {
        Some(0b0001_1011u8)
    } else if index == 2 {
        Some(0b0000_1001u8)
    } else if index == 5 {
        Some(0b0000_0010u8)
    } else {
        None
    }
}

/// The response type of an application command.
pub open spec fn spec_app_config(index: u8) -> Option<u8> {
    if index == 6 {
        Some(0b0001_1010u8)
    } else if index == 41 {
        Some(0b0000_0010u8)
    } else {
        None
    }
}

/// The command register value: index in the high byte, configuration in the
/// low.
pub open spec fn spec_word(index: u8, config: u8) -> u16 {
    ((index as u16) << 8) | (config as u16)
}

/// The address of a block as the card wants it: the block number for a card
/// addressed by block, the byte offset otherwise.
pub open spec fn spec_block_arg(ccs: bool, block_addr: u32) -> u32 {
    if ccs {
        block_addr
    } else {
        vstd::wrapping::u32_specs::wrapping_mul(block_addr, BLOCK_SIZE)
    }
}

pub fn config(index: u8) -> (r: Option<u8>)
    ensures
        r == spec_config(index),
{
    if index == 0 {
        Some(0b0000_0000)
    } else if index == 8 || index == 3 {
        Some(0b0001_1010)
    } else if index == 7 {
        Some(0b0001_1011)
    } else if index == 2 {
        Some(0b0000_1001)
    } else if index == 5 {
        Some(0b0000_0010)
    } else {
        None
    }
}

pub fn app_config(index: u8) -> (r: Option<u8>)
    ensures
        r == spec_app_config(index),
{
    if index == 6 {
        Some(0b0001_1010)
    } else if index == 41 {
        Some(0b0000_0010)
    } else {
        None
    }
}

/// Number of significant bits of a number.
pub open spec fn spec_bit_length(x: u32) -> nat
    decreases x,
{
    if x == 0 {
        0
    } else {
        1 + spec_bit_length(x / 2)
    }
}

pub proof fn lemma_bit_length_bound(x: u32)
    ensures
        spec_bit_length(x) <= 32,
    decreases x,
{
    vstd::arithmetic::power2::lemma2_to64();
    lemma_bit_length_step(x, 32);
}

proof fn lemma_bit_length_step(x: u32, bits: nat)
    requires
        x < vstd::arithmetic::power2::pow2(bits),
    ensures
        spec_bit_length(x) <= bits,
    decreases x,
{
    if x != 0 {
        vstd::arithmetic::power2::lemma_pow2_pos(0);
        if bits == 0 {
            vstd::arithmetic::power2::lemma2_to64();
        } else {
            vstd::arithmetic::power2::lemma_pow2_unfold(bits);
            lemma_bit_length_step(x / 2, (bits - 1) as nat);
        }
    }
}

pub fn bit_length(x: u32) -> (r: u32)
    ensures
        r == spec_bit_length(x),
        r <= 32,
{
    proof {
        lemma_bit_length_bound(x);
    }
    let mut rest: u32 = x;
    let mut n: u32 = 0;
    while rest != 0
        invariant
            n + spec_bit_length(rest) == spec_bit_length(x),
            spec_bit_length(x) <= 32,
        decreases rest,
    {
        rest = rest / 2;
        n = n + 1;
    }
    n
}

/// The clock divider setting for a card clock of at most 25 MHz, from the
/// capabilities register, whose bits 8 to 13 give the base clock in MHz:
/// zero if the base clock is slow enough, else half the divisor, rounded up.
/// `None` if the controller names no base clock.
pub fn clock_select(cap: u32) -> (r: Option<u16>)
    ensures
        r == if (cap >> 8) & 0x3f == 0 {
            None
        } else if (((cap >> 8) & 0x3f) + 24) / 25 == 1 {
            Some(0u16)
        } else {
            Some((((((cap >> 8) & 0x3f) + 24) / 25 + 1) / 2) as u16)
        },
{
    let base: u32 = (cap >> 8) & 0x3f;
    assert(base <= 0x3f) by (bit_vector)
        requires
            base == (cap >> 8) & 0x3f,
    ;
    if base == 0 {
        return None;
    }
    let divisor: u32 = (base + 24) / 25;
    if divisor == 1 {
        Some(0)
    } else {
        Some(((divisor + 1) / 2) as u16)
    }
}

/// The timeout setting for about half a second, from the capabilities
/// register, whose bits 0 to 5 give the timeout clock, in MHz if bit 7 is
/// set and in kHz otherwise. `None` if the controller names no timeout clock
/// or the clock is too fast for the setting.
pub fn timeout_select(cap: u32) -> (r: Option<u8>)
    ensures
        ({
            let khz = (cap & 0x3f) * (if (cap >> 7) & 1 == 0 {
                1int
            } else {
                1000int
            });
            let bits = if khz == 0 {
                0
            } else {
                spec_bit_length((khz * 1000 - 1) as u32)
            };
            r == if khz == 0 || bits > 27 {
                None
            } else if bits < 13 {
                Some(0u8)
            } else {
                Some((bits - 13) as u8)
            }
        }),
{
    let unit: u32 = cap & 0x3f;
    assert(unit <= 0x3f) by (bit_vector)
        requires
            unit == cap & 0x3f,
    ;
    let khz: u32 = unit * (if (cap >> 7) & 1 == 0 {
        1
    } else {
        1000
    });
    if khz == 0 {
        return None;
    }
    let bits: u32 = bit_length(khz * 1000 - 1);
    if bits > 27 {
        None
    } else if bits < 13 {
        Some(0)
    } else {
        Some((bits - 13) as u8)
    }
}

impl Inner {
    /// A controller that has not been brought up.
    pub fn new() -> (r: Self)
        ensures
            r == (Inner { init: false, ccs: false, rca: 0 }),
    {
        Inner { init: false, ccs: false, rca: 0 }
    }

    /// Powers the card off: the caller writes the returned value to the
    /// reset register.
    pub fn power_off(&mut self) -> (r: u8)
        ensures
            r == 1,
            *final(self) == (Inner { init: false, ..*old(self) }),
    {
        self.init = false;
        1
    }

    /// Looks at the interrupt status after a command: with the error bit set
    /// the errors are its upper half, and the caller clears them.
    pub fn check_err(irq: u32) -> (r: Result<(), u16>)
        ensures
            r == if irq & IRQ_ERROR != 0 {
                Err::<(), u16>((irq >> 16) as u16)
            } else {
                Ok::<(), u16>(())
            },
    {
        if irq & IRQ_ERROR != 0 {
            assert(irq >> 16 <= 0xffff) by (bit_vector);
            Err((irq >> 16) as u16)
        } else {
            Ok(())
        }
    }

    /// The register values for a command with a given configuration.
    pub fn wait_cmd_with_cfg(index: u8, argument: u32, config: u8) -> (r: Command)
        ensures
            r == (Command { argument, word: spec_word(index, config) }),
    {
        Command { argument, word: ((index as u16) << 8) | (config as u16) }
    }

    /// The register values for one of the plain commands that the driver
    /// uses.
    pub fn wait_cmd(index: u8, argument: u32) -> (r: Command)
        requires
            spec_config(index).is_some(),
        ensures
            r == (Command { argument, word: spec_word(index, spec_config(index).unwrap()) }),
    {
        Self::wait_cmd_with_cfg(index, argument, config(index).unwrap())
    }

    /// The two commands of an application command: the announcement to the
    /// card at its address, then the command itself.
    pub fn wait_app_cmd(&self, index: u8, argument: u32) -> (r: (Command, Command))
        requires
            spec_app_config(index).is_some(),
        ensures
            r.0 == (Command { argument: (self.rca as u32) << 16, word: spec_word(55, CONFIG_R1) }),
            r.1 == (Command { argument, word: spec_word(index, spec_app_config(index).unwrap()) }),
    {
        (
            Self::wait_cmd_with_cfg(55, (self.rca as u32) << 16, CONFIG_R1),
            Self::wait_cmd_with_cfg(index, argument, app_config(index).unwrap()),
        )
    }

    /// Whether the card accepted the announcement of an application command.
    pub fn app_cmd_accepted(response: u32) -> (r: bool)
        ensures
            r == (response & 0x20 != 0),
    {
        response & 0x20 != 0
    }

    /// What the answer to the operating-conditions command says once the
    /// card is ready: whether it is addressed by block.
    pub fn record_conditions(&mut self, response: u32)
        ensures
            *final(self) == (Inner { ccs: response & 0x4000_0000 != 0, ..*old(self) }),
    {
        self.ccs = response & 0x4000_0000 != 0;
    }

    /// Records the address that the card published in the upper half of its
    /// response.
    pub fn record_address(&mut self, response: u32)
        ensures
            *final(self) == (Inner { rca: (response >> 16) as u16, ..*old(self) }),
    {
        assert(response >> 16 <= 0xffff) by (bit_vector);
        self.rca = (response >> 16) as u16;
    }

    /// The transfer that reads `block_cnt` blocks from `block_addr` on.
    pub fn read_blocks(&self, block_addr: u32, block_cnt: u16) -> (r: Transfer)
        requires
            block_cnt != 0,
        ensures
            r == if block_cnt != 1 {
                Transfer {
                    block_count: Some(block_cnt),
                    xfer_mode: 0b11_0110,
                    command: Command {
                        argument: spec_block_arg(self.ccs, block_addr),
                        word: spec_word(18, CONFIG_DATA),
                    },
                }
            } else {
                Transfer {
                    block_count: None,
                    xfer_mode: 0b01_0000,
                    command: Command {
                        argument: spec_block_arg(self.ccs, block_addr),
                        word: spec_word(17, CONFIG_DATA),
                    },
                }
            },
    {
        let arg: u32 = if self.ccs {
            block_addr
        } else {
            block_addr.wrapping_mul(BLOCK_SIZE)
        };
        if block_cnt != 1 {
            Transfer {
                block_count: Some(block_cnt),
                xfer_mode: 0b11_0110,
                command: Self::wait_cmd_with_cfg(18, arg, CONFIG_DATA),
            }
        } else {
            Transfer {
                block_count: None,
                xfer_mode: 0b01_0000,
                command: Self::wait_cmd_with_cfg(17, arg, CONFIG_DATA),
            }
        }
    }

    /// The transfer that writes `block_cnt` blocks from `block_addr` on.
    pub fn write_blocks(&self, block_addr: u32, block_cnt: u16) -> (r: Transfer)
        requires
            block_cnt != 0,
        ensures
            r == if block_cnt != 1 {
                Transfer {
                    block_count: Some(block_cnt),
                    xfer_mode: 0b10_0110,
                    command: Command {
                        argument: spec_block_arg(self.ccs, block_addr),
                        word: spec_word(25, CONFIG_DATA),
                    },
                }
            } else {
                Transfer {
                    block_count: None,
                    xfer_mode: 0,
                    command: Command {
                        argument: spec_block_arg(self.ccs, block_addr),
                        word: spec_word(24, CONFIG_DATA),
                    },
                }
            },
    {
        let arg: u32 = if self.ccs {
            block_addr
        } else {
            block_addr.wrapping_mul(BLOCK_SIZE)
        };
        if block_cnt != 1 {
            Transfer {
                block_count: Some(block_cnt),
                xfer_mode: 0b10_0110,
                command: Self::wait_cmd_with_cfg(25, arg, CONFIG_DATA),
            }
        } else {
            Transfer {
                block_count: None,
                xfer_mode: 0,
                command: Self::wait_cmd_with_cfg(24, arg, CONFIG_DATA),
            }
        }
    }
}

/// The first sector and the number of sectors of a read of `len` bytes at
/// byte `offset` of the card; both have to be whole sectors, at most 65535 of
/// them, within the first 2^32 sectors, else there is no such read.
pub fn sector_range(offset: u64, len: usize) -> (r: Option<(u32, u16)>)
    ensures
        r == if offset % 512 == 0 && len % 512 == 0 && 0 < len / 512 <= 0xffff && offset / 512
            <= u32::MAX {
            Some(((offset / 512) as u32, (len / 512) as u16))
        } else {
            None
        },
{
    if offset % 512 == 0 && len % 512 == 0 && 0 < len / 512 && len / 512 <= 0xffff && offset / 512
        <= u32::MAX as u64 {
        Some(((offset / 512) as u32, (len / 512) as u16))
    } else {
        None
    }
}

/// The whole sectors that cover `len` bytes at byte `offset`: the offset of
/// the first, their length in bytes, and where in them the bytes begin.
/// `None` if they reach beyond the range of offsets or lengths.
pub fn covering_sectors(offset: u64, len: usize) -> (r: Option<(u64, usize, usize)>)
    ensures
        ({
            let first = offset / 512 * 512;
            let end = (offset + len + 511) / 512 * 512;
            r == if end <= u64::MAX && end - first <= usize::MAX {
                Some((first as u64, (end - first) as usize, (offset - first) as usize))
            } else {
                None
            }
        }),
{
    let first: u64 = offset / 512 * 512;
    let end: u128 = (offset as u128 + len as u128 + 511) / 512 * 512;
    if end <= u64::MAX as u128 && end - first as u128 <= usize::MAX as u128 {
        Some((first, (end - first as u128) as usize, (offset - first) as usize))
    } else {
        None
    }
}

} // verus!
