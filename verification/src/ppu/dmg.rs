//! Monochrome scanline rendering: background and window.
//!
//! Tiles are 8 x 8 pixels of 2 bits, two bytes per row. The tile map (32 x 32
//! tile numbers) sits at 0x9800 or 0x9C00; tile data is addressed from 0x8000
//! by unsigned tile number or from 0x9000 by signed tile number (LCDC bit 4).

use super::{with_pixel, Ppu, PpuView, GRAY, LINE_BYTES};
use crate::bits::{lemma_two_bit_colour, lemma_u8_mask_bounds};
use crate::memory::cgb::next_byte;
use crate::memory::{Memory, MemoryView};
use vstd::prelude::*;

verus! {

/// Channel `k` (0..=3) of an opaque pixel.
pub open spec fn channel(rgb: (u8, u8, u8), k: int) -> u8 {
    if k == 0 {
        rgb.0
    } else if k == 1 {
        rgb.1
    } else if k == 2 {
        rgb.2
    } else {
        255
    }
}

/// The buffer with the pixels `from <= x < to` of scanline `line` replaced by
/// `pixel(x)`.
pub open spec fn line_drawn(
    buffer: Seq<u8>,
    line: int,
    from: int,
    to: int,
    pixel: spec_fn(int) -> (u8, u8, u8),
) -> Seq<u8> {
    Seq::new(
        buffer.len(),
        |i: int|
            if line * LINE_BYTES <= i < (line + 1) * LINE_BYTES && from <= (i - line * LINE_BYTES)
                / 4 < to {
                channel(pixel((i - line * LINE_BYTES) / 4), i % 4)
            } else {
                buffer[i]
            },
    )
}

/// The per-pixel info with the entries `from <= x < to` replaced by `info(x)`.
pub open spec fn info_drawn(bg_info: Seq<u8>, from: int, to: int, info: spec_fn(int) -> u8) -> Seq<
    u8,
> {
    Seq::new(
        bg_info.len(),
        |x: int|
            if from <= x < to {
                info(x)
            } else {
                bg_info[x]
            },
    )
}

/// Drawing one more pixel extends the drawn range by one.
pub proof fn lemma_line_step(
    buffer: Seq<u8>,
    line: int,
    from: int,
    x: int,
    pixel: spec_fn(int) -> (u8, u8, u8),
)
    requires
        0 <= line < 144,
        0 <= from <= x < 160,
        buffer.len() == super::BUFFER_BYTES,
    ensures
        with_pixel(
            line_drawn(buffer, line, from, x, pixel),
            line,
            x,
            pixel(x).0,
            pixel(x).1,
            pixel(x).2,
        ) == line_drawn(buffer, line, from, x + 1, pixel),
        line_drawn(buffer, line, from, from, pixel) == buffer,
{
    assert(with_pixel(
        line_drawn(buffer, line, from, x, pixel),
        line,
        x,
        pixel(x).0,
        pixel(x).1,
        pixel(x).2,
    ) =~= line_drawn(buffer, line, from, x + 1, pixel));
    assert(line_drawn(buffer, line, from, from, pixel) =~= buffer);
}

/// A tile number read as signed.
pub open spec fn signed_index(idx: u8) -> int {
    if idx < 128 {
        idx as int
    } else {
        idx - 256
    }
}

/// Address of row `row` of tile `idx`.
pub open spec fn tile_row_addr(lcdc: u8, idx: u8, row: int) -> u16 {
    if lcdc & 0x10 != 0 {
        (0x8000 + idx * 16 + row * 2) as u16
    } else {
        (0x9000 + signed_index(idx) * 16 + row * 2) as u16
    }
}

/// Address in the tile map selected by LCDC bit `mask` of the tile that
/// holds map pixel `(px, py)`.
pub open spec fn map_addr(lcdc: u8, mask: u8, px: int, py: int) -> u16 {
    ((if lcdc & mask != 0 {
        0x9C00int
    } else {
        0x9800int
    }) + (py / 8) * 32 + px / 8) as u16
}

/// The 2-bit colour at bit `bit` of a tile row's two bytes.
pub open spec fn colour_bits(lo: u8, hi: u8, bit: u8) -> u8 {
    (((hi >> bit) & 1) << 1) | ((lo >> bit) & 1)
}

/// Colour of map pixel `(px, py)`.
pub open spec fn map_colour(mem: MemoryView, mask: u8, px: int, py: int) -> u8 {
    let lcdc = mem.io[0x40];
    let idx = mem.read(map_addr(lcdc, mask, px, py));
    let addr = tile_row_addr(lcdc, idx, py % 8);
    colour_bits(mem.read(addr), mem.read((addr + 1) as u16), (7 - px % 8) as u8)
}

/// Gray level of `colour` under a DMG palette register.
pub open spec fn gray_of(palette: u8, colour: u8) -> u8 {
    GRAY[((palette >> ((colour * 2) as u8)) & 0x03) as int]
}

/// A gray pixel: all channels equal.
pub open spec fn gray_pixel(g: u8) -> (u8, u8, u8) {
    (g, g, g)
}

/// 1 for background colour 0, which sprites may cover, else 0.
pub open spec fn colour0_info(colour: u8) -> u8 {
    if colour == 0 {
        1
    } else {
        0
    }
}

/// Background colour of screen pixel `x` of scanline `line`: the map pixel
/// at the scroll position, wrapping at 256.
pub open spec fn bg_colour(mem: MemoryView, line: int, x: int) -> u8 {
    map_colour(mem, 0x08, (x + mem.io[0x43]) % 256, (line + mem.io[0x42]) % 256)
}

/// RGB of the background at each screen column of the line.
pub open spec fn bg_pixel(mem: MemoryView, line: int) -> spec_fn(int) -> (u8, u8, u8) {
    |x: int| gray_pixel(gray_of(mem.io[0x47], bg_colour(mem, line, x)))
}

/// Colour-0 info of the background at each screen column of the line.
pub open spec fn bg_info(mem: MemoryView, line: int) -> spec_fn(int) -> u8 {
    |x: int| colour0_info(bg_colour(mem, line, x))
}

/// The scanline with the background drawn.
pub open spec fn background_rendered(ppu: PpuView, mem: MemoryView, line: int) -> PpuView {
    PpuView {
        buffer: line_drawn(ppu.buffer, line, 0, 160, bg_pixel(mem, line)),
        bg_info: info_drawn(ppu.bg_info, 0, 160, bg_info(mem, line)),
        ..ppu
    }
}

/// Screen column of the window's left edge: WX - 7.
pub open spec fn window_left(mem: MemoryView) -> int {
    mem.io[0x4B] - 7
}

/// Whether the window shows on this scanline: the line has reached WY and the
/// left edge is on the screen.
pub open spec fn window_shows(mem: MemoryView, line: int) -> bool {
    line >= mem.io[0x4A] && window_left(mem) < 160
}

/// First screen column the window covers.
pub open spec fn window_start(mem: MemoryView) -> int {
    if window_left(mem) < 0 {
        0
    } else {
        window_left(mem)
    }
}

/// Colour of the window at screen column `x`, on window line `wline`.
pub open spec fn window_colour(mem: MemoryView, wline: u8, x: int) -> u8 {
    map_colour(mem, 0x40, x - window_left(mem), wline as int)
}

/// RGB of the window at each screen column.
pub open spec fn window_pixel(mem: MemoryView, wline: u8) -> spec_fn(int) -> (u8, u8, u8) {
    |x: int| gray_pixel(gray_of(mem.io[0x47], window_colour(mem, wline, x)))
}

/// Colour-0 info of the window at each screen column.
pub open spec fn window_info(mem: MemoryView, wline: u8) -> spec_fn(int) -> u8 {
    |x: int| colour0_info(window_colour(mem, wline, x))
}

/// The scanline with the window drawn over it from its left edge on, and the
/// window's own line counter advanced; unchanged where the window does not show.
pub open spec fn window_rendered(ppu: PpuView, mem: MemoryView, line: int) -> PpuView {
    if !window_shows(mem, line) {
        ppu
    } else {
        PpuView {
            buffer: line_drawn(
                ppu.buffer,
                line,
                window_start(mem),
                160,
                window_pixel(mem, ppu.window_line_counter),
            ),
            bg_info: info_drawn(
                ppu.bg_info,
                window_start(mem),
                160,
                window_info(mem, ppu.window_line_counter),
            ),
            window_line_counter: next_byte(ppu.window_line_counter),
            ..ppu
        }
    }
}

/// Address of a tile row, computed.
pub fn tile_row_address(lcdc: u8, idx: u8, row: usize) -> (r: u16)
    requires
        row < 8,
    ensures
        r == tile_row_addr(lcdc, idx, row as int),
        0x8000 <= r < 0x9800,
{
    if lcdc & 0x10 != 0 || idx >= 128 {
        0x8000 + idx as u16 * 16 + row as u16 * 2
    } else {
        0x9000 + idx as u16 * 16 + row as u16 * 2
    }
}

/// Address in the tile map, computed.
pub fn map_address(lcdc: u8, mask: u8, px: usize, py: usize) -> (r: u16)
    requires
        px < 256,
        py < 256,
    ensures
        r == map_addr(lcdc, mask, px as int, py as int),
        0x9800 <= r < 0xA000,
{
    let base: u16 = if lcdc & mask != 0 {
        0x9C00
    } else {
        0x9800
    };
    base + ((py / 8) * 32 + px / 8) as u16
}

/// The 2-bit colour at bit `bit`, computed.
pub fn colour_of(lo: u8, hi: u8, bit: u8) -> (r: u8)
    requires
        bit < 8,
    ensures
        r == colour_bits(lo, hi, bit),
        r <= 3,
{
    proof {
        lemma_two_bit_colour();
    }
    (((hi >> bit) & 1) << 1) | ((lo >> bit) & 1)
}

/// Gray level of a colour under a palette register, computed.
pub fn gray(palette: u8, colour: u8) -> (r: u8)
    requires
        colour <= 3,
    ensures
        r == gray_of(palette, colour),
{
    proof {
        lemma_u8_mask_bounds();
    }
    GRAY[((palette >> (colour * 2)) & 0x03) as usize]
}

fn map_colour_of(memory: &Memory, mask: u8, px: usize, py: usize) -> (r: u8)
    requires
        memory.wf(),
        px < 256,
        py < 256,
    ensures
        r == map_colour(memory@, mask, px as int, py as int),
        r <= 3,
{
    let lcdc = memory.read_io_direct(0x40);
    let idx = memory.read(map_address(lcdc, mask, px, py));
    let addr = tile_row_address(lcdc, idx, py % 8);
    let lo = memory.read(addr);
    let hi = memory.read(addr + 1);
    colour_of(lo, hi, (7 - px % 8) as u8)
}

impl Ppu {
    /// Draws the background of scanline `line`.
    pub fn render_background_dmg(&mut self, memory: &Memory, line: usize)
        requires
            old(self).wf(),
            memory.wf(),
            line < 144,
        ensures
            final(self).wf(),
            final(self)@ == background_rendered(old(self)@, memory@, line as int),
    {
        let scy = memory.read_io_direct(0x42) as usize;
        let scx = memory.read_io_direct(0x43) as usize;
        let bgp = memory.read_io_direct(0x47);
        let py = (line + scy) % 256;
        let ghost pixel = bg_pixel(memory@, line as int);
        let ghost info = bg_info(memory@, line as int);
        let mut x: usize = 0;
        proof {
            lemma_line_step(self.buffer@, line as int, 0, 0, pixel);
            assert(self.scanline_bg_info@ =~= info_drawn(old(self)@.bg_info, 0, 0, info));
        }
        while x < 160
            invariant
                x <= 160,
                line < 144,
                memory.wf(),
                self.wf(),
                scx == memory@.io[0x43],
                bgp == memory@.io[0x47],
                py == (line + memory@.io[0x42]) % 256,
                pixel == bg_pixel(memory@, line as int),
                info == bg_info(memory@, line as int),
                self@ == (PpuView {
                    buffer: line_drawn(old(self)@.buffer, line as int, 0, x as int, pixel),
                    bg_info: info_drawn(old(self)@.bg_info, 0, x as int, info),
                    ..old(self)@
                }),
            decreases 160 - x,
        {
            let colour = map_colour_of(memory, 0x08, (x + scx) % 256, py);
            let g = gray(bgp, colour);
            proof {
                lemma_line_step(old(self)@.buffer, line as int, 0, x as int, pixel);
                assert(pixel(x as int) == (g, g, g));
            }
            self.put_pixel(line, x, g, g, g);
            self.scanline_bg_info[x] = if colour == 0 {
                1
            } else {
                0
            };
            assert(self.scanline_bg_info@ =~= info_drawn(
                old(self)@.bg_info,
                0,
                x as int + 1,
                info,
            ));
            x += 1;
        }
    }

    /// Draws the window on scanline `line`, if it shows there.
    pub fn render_window_dmg(&mut self, memory: &Memory, line: usize)
        requires
            old(self).wf(),
            memory.wf(),
            line < 144,
        ensures
            final(self).wf(),
            final(self)@ == window_rendered(old(self)@, memory@, line as int),
    {
        let wy = memory.read_io_direct(0x4A) as usize;
        let wx = memory.read_io_direct(0x4B) as usize;
        let bgp = memory.read_io_direct(0x47);
        if line < wy || wx >= 167 {
            return ;
        }
        let start: usize = if wx < 7 {
            0
        } else {
            wx - 7
        };
        let wline = self.window_line_counter;
        let ghost pixel = window_pixel(memory@, wline);
        let ghost info = window_info(memory@, wline);
        let mut x: usize = start;
        proof {
            lemma_line_step(self.buffer@, line as int, start as int, start as int, pixel);
            assert(self.scanline_bg_info@ =~= info_drawn(
                old(self)@.bg_info,
                start as int,
                start as int,
                info,
            ));
        }
        while x < 160
            invariant
                start <= x <= 160,
                line < 144,
                memory.wf(),
                self.wf(),
                wx == memory@.io[0x4B],
                wx < 167,
                start == window_start(memory@),
                bgp == memory@.io[0x47],
                wline == old(self)@.window_line_counter,
                pixel == window_pixel(memory@, wline),
                info == window_info(memory@, wline),
                self@ == (PpuView {
                    buffer: line_drawn(
                        old(self)@.buffer,
                        line as int,
                        start as int,
                        x as int,
                        pixel,
                    ),
                    bg_info: info_drawn(old(self)@.bg_info, start as int, x as int, info),
                    ..old(self)@
                }),
            decreases 160 - x,
        {
            let colour = map_colour_of(memory, 0x40, x + 7 - wx, wline as usize);
            let g = gray(bgp, colour);
            proof {
                lemma_line_step(old(self)@.buffer, line as int, start as int, x as int, pixel);
                assert(pixel(x as int) == (g, g, g));
            }
            self.put_pixel(line, x, g, g, g);
            self.scanline_bg_info[x] = if colour == 0 {
                1
            } else {
                0
            };
            assert(self.scanline_bg_info@ =~= info_drawn(
                old(self)@.bg_info,
                start as int,
                x as int + 1,
                info,
            ));
            x += 1;
        }
        self.window_line_counter = self.window_line_counter.wrapping_add(1);
    }
}

} // verus!
