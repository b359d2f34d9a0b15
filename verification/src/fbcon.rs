//! A text console on a framebuffer: where each character goes and how far the
//! picture is scrolled for it. Moving the pixels is the caller's part.

use vstd::prelude::*;

verus! {

/// Character that clears the screen.
pub const CLEAR_SCREEN: u32 = 0x1C;

pub const CARRIAGE_RETURN: u32 = 0x0D;

pub const LINE_FEED: u32 = 0x0A;

/// The geometry of a framebuffer: visible size in pixels, bytes per line
/// and bytes per pixel.
#[derive(Clone, Copy, Debug, PartialEq, Eq, Structural)]
pub struct Framebuffer {
    pub width: u32,
    pub height: u32,
    pub bpl: u32,
    pub bpp: u32,
}

/// A console: the framebuffer, the cursor in pixels and the size of a
/// character cell.
#[derive(Clone, Copy, Debug, PartialEq, Eq, Structural)]
pub struct Fbcon {
    pub framebuffer: Framebuffer,
    pub x: u32,
    pub y: u32,
    pub font_width: u32,
    pub font_height: u32,
}

/// What has to be done to the picture for a character.
#[derive(Clone, Copy, Debug, PartialEq, Eq, Structural)]
pub enum Draw {
    /// Nothing: only the cursor moved.
    Nothing,
    /// Clear the whole framebuffer.
    Clear,
    /// Move the picture up by `scroll` lines, then draw the glyph with its
    /// upper left corner at `x`, `y`.
    Glyph { scroll: u32, x: u32, y: u32 },
}

impl Fbcon {
    /// Whether the character is one that moves the cursor without drawing.
    pub open spec fn is_control(c: u32) -> bool {
        c == CLEAR_SCREEN || c == CARRIAGE_RETURN || c == LINE_FEED
    }

    /// The column at which a glyph is drawn: the cursor's, or the first if
    /// the glyph would not fit on the line.
    pub open spec fn glyph_x(self) -> u32 {
        if self.x + self.font_width > self.framebuffer.width {
            0
        } else {
            self.x
        }
    }

    /// The line at which a glyph is drawn: the cursor's, or the next text line
    /// if the glyph would not fit on the line.
    pub open spec fn glyph_y(self) -> int {
        if self.x + self.font_width > self.framebuffer.width {
            self.y + self.font_height
        } else {
            self.y as int
        }
    }

    /// The number of lines by which the picture moves up for a glyph: those
    /// by which the glyph would reach below the visible part.
    pub open spec fn scroll(self) -> int {
        if self.glyph_y() + self.font_height > self.framebuffer.height {
            self.glyph_y() + self.font_height - self.framebuffer.height
        } else {
            0
        }
    }

    /// The cursor does not leave the range of coordinates with the next
    /// character.
    pub open spec fn in_range(self) -> bool {
        self.x + 2 * self.font_width <= u32::MAX && self.y + 2 * self.font_height <= u32::MAX
    }

    pub fn is_in_range(&self) -> (r: bool)
        ensures
            r == self.in_range(),
    {
        self.x as u64 + 2 * self.font_width as u64 <= u32::MAX as u64 && self.y as u64 + 2
            * self.font_height as u64 <= u32::MAX as u64
    }

    /// A console with the cursor in the upper left corner.
    pub fn new(framebuffer: Framebuffer, font_width: u32, font_height: u32) -> (r: Self)
        ensures
            r == (Fbcon { framebuffer, x: 0, y: 0, font_width, font_height }),
    {
        Fbcon { framebuffer, x: 0, y: 0, font_width, font_height }
    }

    /// Takes a character: a clear-screen character puts the cursor in the
    /// upper left corner, a carriage return at the begin of the line, a line
    /// feed one text line down; any other character is drawn where it fits
    /// and moves the cursor one cell to the right.
    pub fn write_raw_char(&mut self, c: u32) -> (r: Draw)
        requires
            old(self).in_range(),
        ensures
            c == CLEAR_SCREEN ==> r == Draw::Clear && *final(self) == (Fbcon {
                x: 0,
                y: 0,
                ..*old(self)
            }),
            c == CARRIAGE_RETURN ==> r == Draw::Nothing && *final(self) == (Fbcon {
                x: 0,
                ..*old(self)
            }),
            c == LINE_FEED ==> r == Draw::Nothing && *final(self) == (Fbcon {
                y: (old(self).y + old(self).font_height) as u32,
                ..*old(self)
            }),
            !Self::is_control(c) ==> r == (Draw::Glyph {
                scroll: old(self).scroll() as u32,
                x: old(self).glyph_x(),
                y: old(self).glyph_y() as u32,
            }) && *final(self) == (Fbcon {
                x: (old(self).glyph_x() + old(self).font_width) as u32,
                y: old(self).glyph_y() as u32,
                ..*old(self)
            }),
    {
        if c == CLEAR_SCREEN {
            self.x = 0;
            self.y = 0;
            return Draw::Clear;
        }
        if c == CARRIAGE_RETURN {
            self.x = 0;
            return Draw::Nothing;
        }
        if c == LINE_FEED {
            self.y = self.y + self.font_height;
            return Draw::Nothing;
        }
        if self.x as u64 + self.font_width as u64 > self.framebuffer.width as u64 {
            self.x = 0;
            self.y = self.y + self.font_height;
        }
        let scroll: u32 = if self.y as u64 + self.font_height as u64
            > self.framebuffer.height as u64 {
            self.y + self.font_height - self.framebuffer.height
        } else {
            0
        };
        let at = Draw::Glyph { scroll, x: self.x, y: self.y };
        self.x = self.x + self.font_width;
        at
    }
}

/// Bytes that a row of a glyph takes in the font.
pub fn row_bytes(font_width: u32) -> (r: u32)
    ensures
        r == (font_width + 7) / 8,
{
    ((font_width as u64 + 7) / 8) as u32
}

/// Whether pixel `a` of a glyph row is set: bit `7 - a % 8` of byte `a / 8`.
pub fn pixel_on(row: &[u8], a: usize) -> (r: bool)
    requires
        a / 8 < row@.len(),
    ensures
        r == (row@[(a / 8) as int] & (1u8 << ((7 - a % 8) as u8)) != 0),
{
    row[a / 8] & (1u8 << ((7 - a % 8) as u8)) != 0
}

/// Offset in the framebuffer of the pixel at `x`, `y`; `None` if it is
/// beyond what an offset can say.
pub fn pixel_offset(framebuffer: &Framebuffer, x: u32, y: u32) -> (r: Option<u64>)
    ensures
        r == if framebuffer.bpl * y + x * framebuffer.bpp <= u64::MAX {
            Some((framebuffer.bpl * y + x * framebuffer.bpp) as u64)
        } else {
            None
        },
{
    assert(framebuffer.bpl * y <= 0xffff_ffff * 0xffff_ffff && x * framebuffer.bpp <= 0xffff_ffff
        * 0xffff_ffff) by (nonlinear_arith)
        requires
            framebuffer.bpl <= 0xffff_ffff,
            y <= 0xffff_ffff,
            x <= 0xffff_ffff,
            framebuffer.bpp <= 0xffff_ffff,
    ;
    let line: u64 = framebuffer.bpl as u64 * y as u64;
    let column: u64 = x as u64 * framebuffer.bpp as u64;
    line.checked_add(column)
}

} // verus!
