//! The glyph renderer: turns text-page writes into pixels of an RGBA
//! framebuffer, looking glyph rows up in a character ROM.
use vstd::prelude::*;

use crate::memory::Memory;
use crate::rom::ROM;

verus! {

pub const DISPLAY_WIDTH: usize = 320;

pub const DISPLAY_HEIGHT: usize = 200;

pub const DISPLAY_SCALE: u32 = 3;

/// An opaque RGB colour.
pub struct Color {
    r: u8,
    g: u8,
    b: u8,
}

impl Color {
    pub fn new(r: u8, g: u8, b: u8) -> (c: Color)
        ensures
            c@ == (r, g, b),
    {
        Color { r, g, b }
    }

    /// The colour as the framebuffer stores it: red, green, blue, alpha.
    pub fn to_slice(&self) -> (s: [u8; 4])
        ensures
            s@ == seq![self@.0, self@.1, self@.2, 0xFFu8],
    {
        let s = [self.r, self.g, self.b, 0xFF];
        proof {
            assert(s@ =~= seq![self@.0, self@.1, self@.2, 0xFFu8]);
        }
        s
    }
}

impl View for Color {
    type V = (u8, u8, u8);

    closed spec fn view(&self) -> (u8, u8, u8) {
        (self.r, self.g, self.b)
    }
}

/// A pixel position.
pub struct Position {
    pub x: usize,
    pub y: usize,
}

impl Position {
    pub fn new(x: usize, y: usize) -> (p: Position)
        ensures
            p.x == x && p.y == y,
    {
        Position { x, y }
    }

    /// The pixel's index in a row-major framebuffer of width `w`.
    pub fn to_index(&self, w: usize) -> (r: usize)
        requires
            self.y * w + self.x <= usize::MAX,
        ensures
            r == self.y * w + self.x,
    {
        self.y * w + self.x
    }
}

/// Renders glyphs from a character ROM: each glyph is eight bytes, one per
/// row, the low bit leftmost.
pub struct Display {
    rom: ROM,
}

impl View for Display {
    type V = crate::memory::RegionView;

    closed spec fn view(&self) -> crate::memory::RegionView {
        self.rom@
    }
}

/// A framebuffer sized for the display: one RGBA quad per pixel.
pub open spec fn frame_sized(frame: Seq<u8>) -> bool {
    frame.len() == DISPLAY_WIDTH * DISPLAY_HEIGHT * 4
}

/// Whether the framebuffer byte at `p` belongs to the 8x8 glyph cell at
/// cell position `(cx, cy)`.
pub open spec fn cell_covers(cx: int, cy: int, p: int) -> bool {
    let pix = p / 4;
    let px = pix % 320;
    let py = pix / 320;
    8 * cx <= px < 8 * cx + 8 && 8 * cy <= py < 8 * cy + 8
}

/// Whether a write at text-page offset `addr` may touch the framebuffer
/// byte at `p`: the page's interleaved layout maps the offset to a glyph
/// cell, and offsets in the eight unused bytes of each 128-byte group, or
/// beyond the 24 rows, touch nothing.
pub open spec fn text_write_covers(addr: int, p: int) -> bool {
    let group = addr / 0x80;
    let rem = addr % 0x80;
    let col = rem % 0x28;
    let row = (rem / 0x28) * 8 + group;
    rem <= 0x78 && row < 24 && cell_covers(col, row, p)
}

proof fn lemma_pixel_index(x: int, y: int, base: int, p: int)
    requires
        0 <= x < 320,
        0 <= y < 200,
        base == (y * 320 + x) * 4,
        base <= p < base + 4,
    ensures
        p / 4 == y * 320 + x,
        (p / 4) % 320 == x,
        (p / 4) / 320 == y,
{
    vstd::arithmetic::div_mod::lemma_fundamental_div_mod_converse(
        p,
        4,
        y * 320 + x,
        p - base,
    );
    vstd::arithmetic::div_mod::lemma_fundamental_div_mod_converse(y * 320 + x, 320, y, x);
}

impl Display {
    /// A renderer over the given character ROM.
    pub fn new(rom: ROM) -> (d: Display)
        ensures
            d@ == rom@,
    {
        Display { rom }
    }

    /// Paints one pixel: the four bytes of the pixel's RGBA quad take the
    /// colour, everything else stays.
    fn draw_pixel(&self, frame: &mut Vec<u8>, color: &Color, pos: Position)
        requires
            frame_sized(old(frame)@),
            pos.x < DISPLAY_WIDTH,
            pos.y < DISPLAY_HEIGHT,
        ensures
            frame_sized(final(frame)@),
            ({
                let base = (pos.y * DISPLAY_WIDTH + pos.x) * 4;
                forall|j: int|
                    0 <= j < final(frame)@.len() ==> final(frame)@[j] == (if base <= j < base + 4 {
                        seq![color@.0, color@.1, color@.2, 0xFFu8][j - base]
                    } else {
                        old(frame)@[j]
                    })
            }),
    {
        let idx = pos.to_index(DISPLAY_WIDTH);
        let base = idx * 4;
        let quad = color.to_slice();
        frame[base] = quad[0];
        frame[base + 1] = quad[1];
        frame[base + 2] = quad[2];
        frame[base + 3] = quad[3];
    }

    /// Paints one 8x8 glyph cell: pixels of the glyph take `color`, the
    /// rest of the cell is painted black; nothing outside the cell changes.
    /// `pos` is the cell position in glyph units. The glyph rows come from
    /// the character ROM at `8 * code`, the low bit of each row leftmost.
    fn draw_char(&self, frame: &mut Vec<u8>, c: char, pos: Position)
        requires
            frame_sized(old(frame)@),
            pos.x < 40,
            pos.y < 24,
        ensures
            frame_sized(final(frame)@),
            forall|p: int|
                0 <= p < final(frame)@.len() && !cell_covers(pos.x as int, pos.y as int, p)
                    ==> final(frame)@[p] == old(frame)@[p],
    {
        let color = Color::new(250, 250, 250);
        let black = Color::new(0, 0, 0);
        let offset = (c as u32) as usize;
        let mut i: usize = 0;
        while i < 8
            invariant
                frame_sized(frame@),
                pos.x < 40,
                pos.y < 24,
                i <= 8,
                offset <= 0x10FFFF,
                forall|p: int|
                    0 <= p < frame@.len() && !cell_covers(pos.x as int, pos.y as int, p)
                        ==> frame@[p] == old(frame)@[p],
            decreases 8 - i,
        {
            let row = self.rom.read(offset * 8 + i);
            let mut j: usize = 0;
            while j < 8
                invariant
                    frame_sized(frame@),
                    pos.x < 40,
                    pos.y < 24,
                    i < 8,
                    j <= 8,
                    forall|p: int|
                        0 <= p < frame@.len() && !cell_covers(pos.x as int, pos.y as int, p)
                            ==> frame@[p] == old(frame)@[p],
                decreases 8 - j,
            {
                let ghost before = frame@;
                let px = j + pos.x * 8;
                let py = i + pos.y * 8;
                let bit = row >> (j as u32);
                if bit % 2 == 1 {
                    self.draw_pixel(frame, &color, Position::new(px, py));
                } else {
                    self.draw_pixel(frame, &black, Position::new(px, py));
                }
                proof {
                    let base = (py * 320 + px) * 4;
                    assert forall|p: int|
                        0 <= p < frame@.len() && !cell_covers(
                            pos.x as int,
                            pos.y as int,
                            p,
                        ) implies frame@[p] == old(frame)@[p] by {
                        if base <= p < base + 4 {
                            lemma_pixel_index(px as int, py as int, base as int, p);
                        } else {
                            assert(frame@[p] == before[p]);
                        }
                    }
                }
                j = j + 1;
            }
            i = i + 1;
        }
    }

    /// Renders one text-page write into the framebuffer. Only the glyph
    /// cell the offset addresses can change; offsets that address no cell
    /// paint nothing.
    pub fn write_text(&self, frame: &mut Vec<u8>, addr: usize, data: char)
        requires
            frame_sized(old(frame)@),
        ensures
            frame_sized(final(frame)@),
            forall|p: int|
                0 <= p < final(frame)@.len() && !text_write_covers(addr as int, p)
                    ==> final(frame)@[p] == old(frame)@[p],
    {
        let group = addr / 0x80;
        let rem = addr % 0x80;
        if rem > 0x78 {
            return ;
        }
        let col = rem % 0x28;
        let group2 = rem / 0x28;
        let row = group2 * 8 + group;
        if row >= 24 {
            return ;
        }
        self.draw_char(frame, data, Position::new(col, row));
    }
}

} // verus!
