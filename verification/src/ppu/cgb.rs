//! Color scanline rendering: background and window.
//!
//! The tile map in VRAM bank 0 gives the tile number, the same address in
//! bank 1 its attributes: bits 0-2 palette, bit 3 VRAM bank of the tile data,
//! bit 5 X flip, bit 6 Y flip, bit 7 priority over sprites.

use super::dmg::{
    colour_bits, colour_of, info_drawn, lemma_line_step, line_drawn, map_addr, map_address,
    tile_row_addr, tile_row_address, window_shows, window_start,
};
use super::{Ppu, PpuView};
use crate::bits::lemma_u8_mask_bounds;
use crate::memory::cgb::next_byte;
use crate::memory::{Memory, MemoryView};
use vstd::prelude::*;

verus! {

/// A 5-bit channel widened to 8 bits by repeating its top bits.
pub open spec fn widen5(c: u8) -> u8 {
    (c << 3) | (c >> 2)
}

/// The RGB888 colour of an RGB555 pair, low byte first.
pub open spec fn rgb555(lo: u8, hi: u8) -> (u8, u8, u8) {
    (widen5(lo & 0x1F), widen5(((lo >> 5) | (hi << 3)) & 0x1F), widen5((hi >> 2) & 0x1F))
}

/// A colour as one number, 0xRRGGBB.
pub open spec fn rgb888(rgb: (u8, u8, u8)) -> u32 {
    ((rgb.0 as u32) << 16) | ((rgb.1 as u32) << 8) | (rgb.2 as u32)
}

/// Tile attributes of the tile that holds map pixel `(px, py)`.
pub open spec fn map_attr(mem: MemoryView, mask: u8, px: int, py: int) -> u8 {
    mem.read_vram_bank(1, map_addr(mem.io[0x40], mask, px, py))
}

/// Colour of map pixel `(px, py)`, with the tile's bank and flips applied.
pub open spec fn map_colour(mem: MemoryView, mask: u8, px: int, py: int) -> u8 {
    let lcdc = mem.io[0x40];
    let idx = mem.read_vram_bank(0, map_addr(lcdc, mask, px, py));
    let attr = map_attr(mem, mask, px, py);
    let bank = ((attr >> 3) & 1) as int;
    let row = if attr & 0x40 != 0 {
        7 - py % 8
    } else {
        py % 8
    };
    let addr = tile_row_addr(lcdc, idx, row);
    let bit = if attr & 0x20 != 0 {
        px % 8
    } else {
        7 - px % 8
    };
    colour_bits(
        mem.read_vram_bank(bank, addr),
        mem.read_vram_bank(bank, (addr + 1) as u16),
        bit as u8,
    )
}

/// RGB of a map pixel: its colour in the BG palette its tile names.
pub open spec fn map_rgb(mem: MemoryView, mask: u8, px: int, py: int) -> (u8, u8, u8) {
    let c = mem.cgb.bg_colour(
        (map_attr(mem, mask, px, py) & 0x07) as int,
        map_colour(mem, mask, px, py) as int,
    );
    rgb555(c.0, c.1)
}

/// Bit 0: the pixel is background colour 0; bit 1: its tile has priority.
pub open spec fn priority_info(colour: u8, attr: u8) -> u8 {
    ((if colour == 0 {
        1int
    } else {
        0int
    }) + (if attr & 0x80 != 0 {
        2int
    } else {
        0int
    })) as u8
}

/// Priority info of map pixel `(px, py)`.
pub open spec fn map_info(mem: MemoryView, mask: u8, px: int, py: int) -> u8 {
    priority_info(map_colour(mem, mask, px, py), map_attr(mem, mask, px, py))
}

/// RGB of the background at each screen column of the line.
pub open spec fn bg_pixel(mem: MemoryView, line: int) -> spec_fn(int) -> (u8, u8, u8) {
    |x: int| map_rgb(mem, 0x08, (x + mem.io[0x43]) % 256, (line + mem.io[0x42]) % 256)
}

/// Priority info of the background at each screen column of the line.
pub open spec fn bg_info(mem: MemoryView, line: int) -> spec_fn(int) -> u8 {
    |x: int| map_info(mem, 0x08, (x + mem.io[0x43]) % 256, (line + mem.io[0x42]) % 256)
}

/// The scanline with the background drawn.
pub open spec fn background_rendered(ppu: PpuView, mem: MemoryView, line: int) -> PpuView {
    PpuView {
        buffer: line_drawn(ppu.buffer, line, 0, 160, bg_pixel(mem, line)),
        bg_info: info_drawn(ppu.bg_info, 0, 160, bg_info(mem, line)),
        ..ppu
    }
}

/// RGB of the window at each screen column, on window line `wline`.
pub open spec fn window_pixel(mem: MemoryView, wline: u8) -> spec_fn(int) -> (u8, u8, u8) {
    |x: int| map_rgb(mem, 0x40, x - window_start(mem), wline as int)
}

/// Priority info of the window at each screen column.
pub open spec fn window_info(mem: MemoryView, wline: u8) -> spec_fn(int) -> u8 {
    |x: int| map_info(mem, 0x40, x - window_start(mem), wline as int)
}

/// The scanline with the window drawn over it from its first visible column
/// on, and the window's own line counter advanced; unchanged where the window
/// does not show.
pub open spec fn window_rendered(ppu: PpuView, mem: MemoryView, line: int) -> PpuView {
    if !window_shows(mem, line) {
        ppu
    } else {
        PpuView {
            buffer: line_drawn(
                ppu.buffer,
                line,
                window_start(mem),
                160,
                window_pixel(mem, ppu.window_line_counter),
            ),
            bg_info: info_drawn(
                ppu.bg_info,
                window_start(mem),
                160,
                window_info(mem, ppu.window_line_counter),
            ),
            window_line_counter: next_byte(ppu.window_line_counter),
            ..ppu
        }
    }
}

/// A map pixel's colour index, RGB and priority info, computed.
fn map_pixel_of(memory: &Memory, mask: u8, px: usize, py: usize) -> (r: (u8, u8, u8, u8))
    requires
        memory.wf(),
        px < 256,
        py < 256,
    ensures
        (r.0, r.1, r.2) == map_rgb(memory@, mask, px as int, py as int),
        r.3 == map_info(memory@, mask, px as int, py as int),
{
    proof {
        lemma_u8_mask_bounds();
    }
    let lcdc = memory.read_io_direct(0x40);
    let addr = map_address(lcdc, mask, px, py);
    let idx = memory.read_vram_bank(0, addr);
    let attr = memory.read_vram_bank(1, addr);
    let palette = (attr & 0x07) as usize;
    let bank = ((attr >> 3) & 1) as usize;
    let row = if attr & 0x40 != 0 {
        7 - py % 8
    } else {
        py % 8
    };
    let data = tile_row_address(lcdc, idx, row);
    let lo = memory.read_vram_bank(bank, data);
    let hi = memory.read_vram_bank(bank, data + 1);
    let bit = if attr & 0x20 != 0 {
        px % 8
    } else {
        7 - px % 8
    };
    let colour = colour_of(lo, hi, bit as u8);
    let (plo, phi) = memory.read_bg_palette(palette, colour as usize);
    let rgba = Ppu::rgb555_to_rgba(plo, phi);
    let c0: u8 = if colour == 0 {
        1
    } else {
        0
    };
    let pr: u8 = if attr & 0x80 != 0 {
        2
    } else {
        0
    };
    (rgba[0], rgba[1], rgba[2], c0 + pr)
}

impl Ppu {
    /// Converts an RGB555 pair (low byte first) to RGBA.
    pub fn rgb555_to_rgba(lo: u8, hi: u8) -> (r: [u8; 4])
        ensures
            (r@[0], r@[1], r@[2]) == rgb555(lo, hi),
            r@[3] == 255,
    {
        let r5 = lo & 0x1F;
        let g5 = ((lo >> 5) | (hi << 3)) & 0x1F;
        let b5 = (hi >> 2) & 0x1F;
        [(r5 << 3) | (r5 >> 2), (g5 << 3) | (g5 >> 2), (b5 << 3) | (b5 >> 2), 255]
    }

    /// Converts an RGB555 pair (low byte first) to 0xRRGGBB.
    pub fn rgb555_to_rgb888(lo: u8, hi: u8) -> (r: u32)
        ensures
            r == rgb888(rgb555(lo, hi)),
    {
        let rgba = Ppu::rgb555_to_rgba(lo, hi);
        ((rgba[0] as u32) << 16) | ((rgba[1] as u32) << 8) | (rgba[2] as u32)
    }

    /// Draws the background of scanline `line` in color.
    pub fn render_background_gbc(&mut self, memory: &Memory, line: usize)
        requires
            old(self).wf(),
            memory.wf(),
            line < 144,
        ensures
            final(self).wf(),
            final(self)@ == background_rendered(old(self)@, memory@, line as int),
    {
        let scy = memory.read_io_direct(0x42) as usize;
        let scx = memory.read_io_direct(0x43) as usize;
        let py = (line + scy) % 256;
        let ghost pixel = bg_pixel(memory@, line as int);
        let ghost info = bg_info(memory@, line as int);
        let mut x: usize = 0;
        proof {
            lemma_line_step(self.buffer@, line as int, 0, 0, pixel);
            assert(self.scanline_bg_info@ =~= info_drawn(old(self)@.bg_info, 0, 0, info));
        }
        while x < 160
            invariant
                x <= 160,
                line < 144,
                memory.wf(),
                self.wf(),
                scx == memory@.io[0x43],
                py == (line + memory@.io[0x42]) % 256,
                pixel == bg_pixel(memory@, line as int),
                info == bg_info(memory@, line as int),
                self@ == (PpuView {
                    buffer: line_drawn(old(self)@.buffer, line as int, 0, x as int, pixel),
                    bg_info: info_drawn(old(self)@.bg_info, 0, x as int, info),
                    ..old(self)@
                }),
            decreases 160 - x,
        {
            let p = map_pixel_of(memory, 0x08, (x + scx) % 256, py);
            proof {
                lemma_line_step(old(self)@.buffer, line as int, 0, x as int, pixel);
                assert(pixel(x as int) == (p.0, p.1, p.2));
            }
            self.put_pixel(line, x, p.0, p.1, p.2);
            self.scanline_bg_info[x] = p.3;
            assert(self.scanline_bg_info@ =~= info_drawn(
                old(self)@.bg_info,
                0,
                x as int + 1,
                info,
            ));
            x += 1;
        }
    }

    /// Draws the window on scanline `line` in color, if it shows there.
    pub fn render_window_gbc(&mut self, memory: &Memory, line: usize)
        requires
            old(self).wf(),
            memory.wf(),
            line < 144,
        ensures
            final(self).wf(),
            final(self)@ == window_rendered(old(self)@, memory@, line as int),
    {
        let wy = memory.read_io_direct(0x4A) as usize;
        let wx = memory.read_io_direct(0x4B) as usize;
        if line < wy || wx >= 167 {
            return ;
        }
        let start: usize = if wx < 7 {
            0
        } else {
            wx - 7
        };
        let wline = self.window_line_counter;
        let ghost pixel = window_pixel(memory@, wline);
        let ghost info = window_info(memory@, wline);
        let mut x: usize = start;
        proof {
            lemma_line_step(self.buffer@, line as int, start as int, start as int, pixel);
            assert(self.scanline_bg_info@ =~= info_drawn(
                old(self)@.bg_info,
                start as int,
                start as int,
                info,
            ));
        }
        while x < 160
            invariant
                start <= x <= 160,
                line < 144,
                memory.wf(),
                self.wf(),
                start == window_start(memory@),
                wline == old(self)@.window_line_counter,
                pixel == window_pixel(memory@, wline),
                info == window_info(memory@, wline),
                self@ == (PpuView {
                    buffer: line_drawn(
                        old(self)@.buffer,
                        line as int,
                        start as int,
                        x as int,
                        pixel,
                    ),
                    bg_info: info_drawn(old(self)@.bg_info, start as int, x as int, info),
                    ..old(self)@
                }),
            decreases 160 - x,
        {
            let p = map_pixel_of(memory, 0x40, x - start, wline as usize);
            proof {
                lemma_line_step(old(self)@.buffer, line as int, start as int, x as int, pixel);
                assert(pixel(x as int) == (p.0, p.1, p.2));
            }
            self.put_pixel(line, x, p.0, p.1, p.2);
            self.scanline_bg_info[x] = p.3;
            assert(self.scanline_bg_info@ =~= info_drawn(
                old(self)@.bg_info,
                start as int,
                x as int + 1,
                info,
            ));
            x += 1;
        }
        self.window_line_counter = self.window_line_counter.wrapping_add(1);
    }
}

} // verus!
