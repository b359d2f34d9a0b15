//! Timing of the display controller.

use vstd::prelude::*;

verus! {

pub const CR_POLARITY: u32 = 0x08;

pub const CR_H_TOTAL: u32 = 0x20;

pub const CR_H_END_DISP: u32 = 0x24;

pub const CR_H_SRT_SYNC: u32 = 0x28;

pub const CR_H_END_SYNC: u32 = 0x2C;

pub const CR_V_TOTAL: u32 = 0x30;

pub const CR_V_END_DISP: u32 = 0x34;

pub const CR_V_SRT_SYNC: u32 = 0x38;

pub const CR_V_END_SYNC: u32 = 0x3C;

/// Lowest pixel clock that the fixed clock of 74 MHz stands for.
pub const MIN_FREQ: u32 = 73_260_000;

/// Highest pixel clock that the fixed clock of 74 MHz stands for.
pub const MAX_FREQ: u32 = 74_740_000;

#[derive(Clone, Copy, Debug, PartialEq, Eq, Structural)]
pub enum Polarity {
    Positive,
    Negative,
}

/// A display mode: pixel clock, and the end of the visible part, begin and
/// end of the sync pulse and the total, for lines and for frames.
#[derive(Clone, Copy, Debug, PartialEq, Eq, Structural)]
pub struct Mode {
    pub freq: u32,
    pub width: u32,
    pub hsync_start: u32,
    pub hsync_end: u32,
    pub htotal: u32,
    pub height: u32,
    pub vsync_start: u32,
    pub vsync_end: u32,
    pub vtotal: u32,
    pub hpol: Polarity,
    pub vpol: Polarity,
}

/// A write to a register of the controller.
#[derive(Clone, Copy, Debug, PartialEq, Eq, Structural)]
pub struct Write {
    pub reg: u32,
    pub value: u32,
}

pub open spec fn spec_polarity_bit(p: Polarity) -> u32 {
    match p {
        Polarity::Positive => 0,
        Polarity::Negative => 1,
    }
}

/// The writes that set a mode while the display is off.
pub open spec fn spec_mode_writes(mode: Mode) -> Seq<Write> {
    seq![
        Write {
            reg: CR_POLARITY,
            value: spec_polarity_bit(mode.hpol) | (spec_polarity_bit(mode.vpol) << 1),
        },
        Write { reg: CR_H_END_DISP, value: mode.width },
        Write { reg: CR_H_SRT_SYNC, value: mode.hsync_start },
        Write { reg: CR_H_END_SYNC, value: mode.hsync_end },
        Write { reg: CR_H_TOTAL, value: mode.htotal },
        Write { reg: CR_V_END_DISP, value: mode.height },
        Write { reg: CR_V_SRT_SYNC, value: mode.vsync_start },
        Write { reg: CR_V_END_SYNC, value: mode.vsync_end },
        Write { reg: CR_V_TOTAL, value: mode.vtotal },
    ]
}

/// Whether the fixed pixel clock is within one percent of what a mode asks
/// for.
pub fn achievable(mode: &Mode) -> (r: bool)
    ensures
        r == (MIN_FREQ <= mode.freq <= MAX_FREQ),
{
    MIN_FREQ <= mode.freq && mode.freq <= MAX_FREQ
}

fn polarity_bit(p: Polarity) -> (r: u32)
    ensures
        r == spec_polarity_bit(p),
{
    match p {
        Polarity::Positive => 0,
        Polarity::Negative => 1,
    }
}

/// The register writes for a mode that the pixel clock can drive. The caller
/// switches the display off before and on after.
pub fn set_mode(mode: &Mode) -> (r: Vec<Write>)
    requires
        MIN_FREQ <= mode.freq <= MAX_FREQ,
    ensures
        r@ == spec_mode_writes(*mode),
{
    let mut out: Vec<Write> = Vec::new();
    out.push(
        Write { reg: CR_POLARITY, value: polarity_bit(mode.hpol) | (polarity_bit(mode.vpol) << 1) },
    );
    out.push(Write { reg: CR_H_END_DISP, value: mode.width });
    out.push(Write { reg: CR_H_SRT_SYNC, value: mode.hsync_start });
    out.push(Write { reg: CR_H_END_SYNC, value: mode.hsync_end });
    out.push(Write { reg: CR_H_TOTAL, value: mode.htotal });
    out.push(Write { reg: CR_V_END_DISP, value: mode.height });
    out.push(Write { reg: CR_V_SRT_SYNC, value: mode.vsync_start });
    out.push(Write { reg: CR_V_END_SYNC, value: mode.vsync_end });
    out.push(Write { reg: CR_V_TOTAL, value: mode.vtotal });
    assert(out@ =~= spec_mode_writes(*mode));
    out
}

/// 1280 by 720 at 60 Hz.
pub fn mode_720p_60hz() -> (r: Mode)
    ensures
        r == (Mode {
            freq: 74_250_000,
            width: 1280,
            hsync_start: 1390,
            hsync_end: 1430,
            htotal: 1650,
            height: 720,
            vsync_start: 725,
            vsync_end: 730,
            vtotal: 750,
            hpol: Polarity::Positive,
            vpol: Polarity::Positive,
        }),
{
    Mode {
        freq: 74_250_000,
        width: 1280,
        hsync_start: 1390,
        hsync_end: 1430,
        htotal: 1650,
        height: 720,
        vsync_start: 725,
        vsync_end: 730,
        vtotal: 750,
        hpol: Polarity::Positive,
        vpol: Polarity::Positive,
    }
}

} // verus!
