//! The descriptor rings and interrupt status of the AXI Ethernet DMA engine:
//! which descriptor is used next, what an interrupt asks for, and what the
//! words of a descriptor mean.

use vstd::prelude::*;

verus! {

pub const DMA_IRQ_IOC: u32 = 0x1000;

pub const DMA_IRQ_DELAY: u32 = 0x2000;

pub const DMA_IRQ_ERROR: u32 = 0x4000;

pub const DMA_IRQ_ALL: u32 = 0x7000;

pub const DMA_CR_RUNSTOP: u32 = 0x1;

/// Status bits of a descriptor that the engine has completed.
pub const DMA_DESC_SR_ALL: u32 = 0xFC00_0000;

pub const DMA_DESC_CR_TXEOF: u32 = 0x0400_0000;

pub const DMA_DESC_CR_TXSOF: u32 = 0x0800_0000;

/// Longest frame.
pub const MAX_FRAME: usize = 1514;

/// What an interrupt of a DMA channel asks for.
#[derive(Clone, Copy, Debug, PartialEq, Eq, Structural)]
pub enum Irq {
    /// No interrupt bit is set: nothing to do.
    Bogus,
    /// Write `clear` back to the status register; if `completed`, frames
    /// have moved.
    Served { clear: u32, completed: bool },
    /// Write `clear` back to the status register; the engine reports an
    /// error.
    Error { clear: u32 },
}

/// The frame could not be taken.
#[derive(Clone, Copy, Debug, PartialEq, Eq, Structural)]
pub enum FrameError {
    /// The engine found the checksum of the frame wrong.
    Checksum,
}

/// The positions in the two descriptor rings.
#[derive(Clone, Copy, Debug, PartialEq, Eq, Structural)]
pub struct XilinxAxiEthernet {
    /// Number of descriptors of the transmit ring.
    pub tx_len: usize,
    /// Number of descriptors of the receive ring.
    pub rx_len: usize,
    /// Next transmit descriptor to hand out.
    pub tx_avail_ptr: usize,
    /// Next transmit descriptor to take back.
    pub tx_used_ptr: usize,
    /// Next receive descriptor to look at.
    pub rx_ptr: usize,
}

/// A received frame waiting in a descriptor of the receive ring.
#[derive(Clone, Copy, Debug, PartialEq, Eq, Structural)]
pub struct RxToken {
    pub index: usize,
}

/// A free descriptor of the transmit ring.
#[derive(Clone, Copy, Debug, PartialEq, Eq, Structural)]
pub struct TxToken {
    pub index: usize,
}

/// What the status of a channel asks for.
pub open spec fn spec_irq(status: u32) -> Irq {
    if status & DMA_IRQ_ALL == 0 {
        Irq::Bogus
    } else if status & DMA_IRQ_ERROR != 0 {
        Irq::Error { clear: status }
    } else {
        Irq::Served { clear: status, completed: status & (DMA_IRQ_IOC | DMA_IRQ_DELAY) != 0 }
    }
}

fn irq(status: u32) -> (r: Irq)
    ensures
        r == spec_irq(status),
{
    if status & DMA_IRQ_ALL == 0 {
        Irq::Bogus
    } else if status & DMA_IRQ_ERROR != 0 {
        Irq::Error { clear: status }
    } else {
        Irq::Served { clear: status, completed: status & (DMA_IRQ_IOC | DMA_IRQ_DELAY) != 0 }
    }
}

/// A ring position brought back into the ring after it ran one lap ahead.
pub open spec fn spec_wrapped(ptr: usize, len: usize) -> usize {
    if ptr >= len {
        (ptr - len) as usize
    } else {
        ptr
    }
}

/// The two words that the six bytes of a station address are written as.
pub fn set_mac_address(mac: &[u8; 6]) -> (r: (u32, u32))
    ensures
        r.0 == (mac@[0] as u32) | ((mac@[1] as u32) << 8) | ((mac@[2] as u32) << 16) | ((
        mac@[3] as u32) << 24),
        r.1 == (mac@[4] as u32) | ((mac@[5] as u32) << 8),
{
    (
        (mac[0] as u32) | ((mac[1] as u32) << 8) | ((mac[2] as u32) << 16) | ((mac[3] as u32)
            << 24),
        (mac[4] as u32) | ((mac[5] as u32) << 8),
    )
}

/// The control word that stops a channel: running and all interrupts off,
/// every other bit as it was.
pub fn stop(ctrl: u32) -> (r: u32)
    ensures
        r == ctrl & !(DMA_CR_RUNSTOP | DMA_IRQ_ALL),
{
    ctrl & !(DMA_CR_RUNSTOP | DMA_IRQ_ALL)
}

impl XilinxAxiEthernet {
    /// The positions lie at most one lap ahead of their ring.
    pub open spec fn wf(&self) -> bool {
        self.tx_len > 0 && self.rx_len > 0 && self.tx_avail_ptr <= self.tx_len && self.rx_ptr
            <= self.rx_len && self.tx_used_ptr < self.tx_len
    }

    pub fn new(tx_len: usize, rx_len: usize) -> (r: Self)
        requires
            tx_len > 0,
            rx_len > 0,
        ensures
            r == (XilinxAxiEthernet { tx_len, rx_len, tx_avail_ptr: 0, tx_used_ptr: 0, rx_ptr: 0 }),
            r.wf(),
    {
        XilinxAxiEthernet { tx_len, rx_len, tx_avail_ptr: 0, tx_used_ptr: 0, rx_ptr: 0 }
    }

    /// The transmit descriptor that is handed out next.
    pub fn next_tx(&mut self) -> (r: usize)
        requires
            old(self).wf(),
        ensures
            r == spec_wrapped(old(self).tx_avail_ptr, old(self).tx_len),
            r < old(self).tx_len,
            *final(self) == (XilinxAxiEthernet { tx_avail_ptr: r, ..*old(self) }),
            final(self).wf(),
    {
        if self.tx_avail_ptr >= self.tx_len {
            self.tx_avail_ptr = self.tx_avail_ptr - self.tx_len;
        }
        self.tx_avail_ptr
    }

    /// The receive descriptor that is looked at next.
    pub fn next_rx(&mut self) -> (r: usize)
        requires
            old(self).wf(),
        ensures
            r == spec_wrapped(old(self).rx_ptr, old(self).rx_len),
            r < old(self).rx_len,
            *final(self) == (XilinxAxiEthernet { rx_ptr: r, ..*old(self) }),
            final(self).wf(),
    {
        if self.rx_ptr >= self.rx_len {
            self.rx_ptr = self.rx_ptr - self.rx_len;
        }
        self.rx_ptr
    }

    /// What can be done now, from the status words of the two descriptors
    /// that [`Self::next_tx`] and [`Self::next_rx`] gave: a frame can be sent
    /// if the engine is through with the transmit descriptor, and one can be
    /// taken if the engine has completed the receive descriptor.
    pub fn tokens(&self, tx_status: u32, rx_status: u32) -> (r: (Option<TxToken>, Option<RxToken>))
        requires
            self.wf(),
            self.tx_avail_ptr < self.tx_len,
            self.rx_ptr < self.rx_len,
        ensures
            r.0 == if tx_status & DMA_DESC_SR_ALL != 0 {
                None
            } else {
                Some(TxToken { index: self.tx_avail_ptr })
            },
            r.1 == if rx_status & DMA_DESC_SR_ALL == 0 {
                None
            } else {
                Some(RxToken { index: self.rx_ptr })
            },
    {
        (
            if tx_status & DMA_DESC_SR_ALL != 0 {
                None
            } else {
                Some(TxToken { index: self.tx_avail_ptr })
            },
            if rx_status & DMA_DESC_SR_ALL == 0 {
                None
            } else {
                Some(RxToken { index: self.rx_ptr })
            },
        )
    }

    /// What an interrupt of the transmit channel asks for.
    pub fn handle_tx_irq(&self, status: u32) -> (r: Irq)
        ensures
            r == spec_irq(status),
    {
        irq(status)
    }

    /// What an interrupt of the receive channel asks for.
    pub fn handle_rx_irq(&self, status: u32) -> (r: Irq)
        ensures
            r == spec_irq(status),
    {
        irq(status)
    }

    /// Takes back the transmit descriptor at the reclaim position if the
    /// engine has completed it: the caller clears its status, and the
    /// position moves on round the ring. Returns whether it did.
    pub fn reclaim(&mut self, status: u32) -> (r: bool)
        requires
            old(self).wf(),
        ensures
            r == (status & DMA_DESC_SR_ALL != 0),
            final(self).wf(),
            *final(self) == (XilinxAxiEthernet {
                tx_used_ptr: if !r {
                    old(self).tx_used_ptr
                } else if old(self).tx_used_ptr == old(self).tx_len - 1 {
                    0
                } else {
                    (old(self).tx_used_ptr + 1) as usize
                },
                ..*old(self)
            }),
    {
        if status & DMA_DESC_SR_ALL == 0 {
            return false;
        }
        self.tx_used_ptr = if self.tx_used_ptr == self.tx_len - 1 {
            0
        } else {
            self.tx_used_ptr + 1
        };
        true
    }

    /// Notes that the frame of `token` was taken; its descriptor goes back to
    /// the engine.
    pub fn received(&mut self, token: RxToken)
        requires
            old(self).wf(),
            old(self).rx_ptr < old(self).rx_len,
        ensures
            *final(self) == (XilinxAxiEthernet {
                rx_ptr: (old(self).rx_ptr + 1) as usize,
                ..*old(self)
            }),
            final(self).wf(),
    {
        self.rx_ptr = self.rx_ptr + 1;
    }

    /// Notes that the descriptor of `token` was filled and handed to the
    /// engine.
    pub fn sent(&mut self, token: TxToken)
        requires
            old(self).wf(),
            old(self).tx_avail_ptr < old(self).tx_len,
        ensures
            *final(self) == (XilinxAxiEthernet {
                tx_avail_ptr: (old(self).tx_avail_ptr + 1) as usize,
                ..*old(self)
            }),
            final(self).wf(),
    {
        self.tx_avail_ptr = self.tx_avail_ptr + 1;
    }
}

impl RxToken {
    /// The length of the received frame, from the third and the fifth
    /// application word of its descriptor: the low half of the fifth, unless
    /// the third says that the checksum is wrong.
    pub fn consume(&self, app2: u32, app4: u32) -> (r: Result<usize, FrameError>)
        ensures
            r == if ((app2 >> 3) & 0b111) & 0b100 != 0 {
                Err::<usize, FrameError>(FrameError::Checksum)
            } else {
                Ok::<usize, FrameError>((app4 & 0xffff) as usize)
            },
    {
        if ((app2 >> 3) & 0b111) & 0b100 != 0 {
            Err(FrameError::Checksum)
        } else {
            assert(app4 & 0xffff <= 0xffff) by (bit_vector);
            Ok((app4 & 0xffff) as usize)
        }
    }
}

impl TxToken {
    /// The control word of a descriptor that holds a whole frame of
    /// `length` bytes.
    pub fn consume(&self, length: usize) -> (r: u32)
        requires
            length <= MAX_FRAME,
        ensures
            r == (length as u32) | DMA_DESC_CR_TXSOF | DMA_DESC_CR_TXEOF,
    {
        (length as u32) | DMA_DESC_CR_TXSOF | DMA_DESC_CR_TXEOF
    }
}

} // verus!
