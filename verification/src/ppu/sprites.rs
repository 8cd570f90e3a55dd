//! Sprites of a scanline.
//!
//! OAM holds 40 entries of four bytes: Y + 16, X + 8, tile, flags. The scan
//! admits the first 10 entries that cover the line. In monochrome mode they
//! are ordered by X, ties in OAM order; in color mode they stay in OAM order.
//! They are drawn last to first, so that the first has the last word.
//!
//! Flags: bit 7 behind the background, bit 6 Y flip, bit 5 X flip, bit 4 DMG
//! palette, bit 3 VRAM bank (color), bits 0-2 palette (color).

use super::cgb::rgb555;
use super::dmg::{channel, colour_bits, colour_of, gray, gray_of, gray_pixel};
use super::{Ppu, PpuView, LINE_BYTES};
use crate::bits::lemma_u8_mask_bounds;
use crate::memory::{Memory, MemoryView};
use vstd::prelude::*;

verus! {

/// One OAM entry, as stored.
#[derive(Clone, Copy, Debug, PartialEq, Eq, Structural)]
pub struct Sprite {
    pub y: u8,
    pub x: u8,
    pub tile: u8,
    pub flags: u8,
}

/// OAM entry `i`.
pub open spec fn sprite_at(oam: Seq<u8>, i: int) -> Sprite {
    Sprite { y: oam[4 * i], x: oam[4 * i + 1], tile: oam[4 * i + 2], flags: oam[4 * i + 3] }
}

/// Sprite height by LCDC bit 2.
pub open spec fn sprite_height(lcdc: u8) -> int {
    if lcdc & 0x04 != 0 {
        16
    } else {
        8
    }
}

/// Whether the sprite's rows include scanline `line`.
pub open spec fn covers(s: Sprite, line: int, h: int) -> bool {
    s.y - 16 <= line < s.y - 16 + h
}

/// The sprites admitted among the first `n` OAM entries: those that cover the
/// line, in OAM order, ten at most.
pub open spec fn admitted(oam: Seq<u8>, line: int, h: int, n: nat) -> Seq<Sprite>
    decreases n,
{
    if n == 0 {
        Seq::empty()
    } else {
        let before = admitted(oam, line, h, (n - 1) as nat);
        if before.len() < 10 && covers(sprite_at(oam, n - 1), line, h) {
            before.push(sprite_at(oam, n - 1))
        } else {
            before
        }
    }
}

/// `s` put into a list ordered by X, behind every sprite whose X is not larger.
pub open spec fn inserted(sorted: Seq<Sprite>, s: Sprite) -> Seq<Sprite>
    decreases sorted.len(),
{
    if sorted.len() == 0 {
        seq![s]
    } else if sorted.last().x <= s.x {
        sorted.push(s)
    } else {
        inserted(sorted.drop_last(), s).push(sorted.last())
    }
}

/// The list ordered by X, sprites of equal X in the order they came in.
pub open spec fn sorted_by_x(list: Seq<Sprite>) -> Seq<Sprite>
    decreases list.len(),
{
    if list.len() == 0 {
        Seq::empty()
    } else {
        inserted(sorted_by_x(list.drop_last()), list.last())
    }
}

/// The sprites of the line in priority order, highest first.
pub open spec fn line_sprites(mem: MemoryView, line: int, cgb: bool) -> Seq<Sprite> {
    let all = admitted(mem.oam, line, sprite_height(mem.io[0x40]), 40);
    if cgb {
        all
    } else {
        sorted_by_x(all)
    }
}

/// Row of the sprite shown on the line, with the Y flip applied.
pub open spec fn sprite_row(s: Sprite, line: int, h: int) -> int {
    if s.flags & 0x40 != 0 {
        h - 1 - (line - (s.y - 16))
    } else {
        line - (s.y - 16)
    }
}

/// Address of the tile row shown on the line. A 16-row sprite uses two tiles,
/// the even-numbered one on top.
pub open spec fn sprite_row_addr(s: Sprite, line: int, h: int) -> u16 {
    let row = sprite_row(s, line, h);
    if h == 16 {
        if row >= 8 {
            (0x8000 + (s.tile - s.tile % 2 + 1) * 16 + (row - 8) * 2) as u16
        } else {
            (0x8000 + (s.tile - s.tile % 2) * 16 + row * 2) as u16
        }
    } else {
        (0x8000 + s.tile * 16 + row * 2) as u16
    }
}

/// VRAM bank of the sprite's tile data.
pub open spec fn sprite_bank(s: Sprite, cgb: bool) -> int {
    if cgb {
        ((s.flags >> 3) & 1) as int
    } else {
        0
    }
}

/// Colour of pixel `pixel` (0..=7, left to right on screen) of the sprite.
pub open spec fn sprite_colour(mem: MemoryView, s: Sprite, line: int, pixel: int, cgb: bool) -> u8 {
    let addr = sprite_row_addr(s, line, sprite_height(mem.io[0x40]));
    colour_bits(
        mem.read_vram_bank(sprite_bank(s, cgb), addr),
        mem.read_vram_bank(sprite_bank(s, cgb), (addr + 1) as u16),
        (if s.flags & 0x20 != 0 {
            pixel
        } else {
            7 - pixel
        }) as u8,
    )
}

/// Whether a sprite pixel of a colour other than 0 wins over the background
/// with per-pixel info `info`. Monochrome: always, unless the sprite is behind
/// the background and the background is not colour 0. Color: always with the
/// background switched off in LCDC bit 0; else only over background colour 0
/// where the tile has priority or the sprite is behind the background.
pub open spec fn wins(lcdc: u8, flags: u8, info: u8, cgb: bool) -> bool {
    if cgb {
        if lcdc & 0x01 == 0 {
            true
        } else if info & 0x02 != 0 {
            info & 0x01 != 0
        } else if flags & 0x80 != 0 {
            info & 0x01 != 0
        } else {
            true
        }
    } else {
        !(flags & 0x80 != 0 && info & 0x01 == 0)
    }
}

/// RGB of a sprite colour: through OBP0 or OBP1 in monochrome mode, from the
/// OBJ palette RAM in color mode.
pub open spec fn sprite_rgb(mem: MemoryView, s: Sprite, colour: u8, cgb: bool) -> (u8, u8, u8) {
    if cgb {
        let c = mem.cgb.obj_colour((s.flags & 0x07) as int, colour as int);
        rgb555(c.0, c.1)
    } else {
        gray_pixel(
            gray_of(
                if s.flags & 0x10 != 0 {
                    mem.io[0x49]
                } else {
                    mem.io[0x48]
                },
                colour,
            ),
        )
    }
}

/// Whether pixel `pixel` of the sprite is drawn at screen column `sx`.
pub open spec fn pixel_drawn(
    mem: MemoryView,
    s: Sprite,
    line: int,
    bg_info: Seq<u8>,
    pixel: int,
    cgb: bool,
) -> bool {
    let sx = s.x - 8 + pixel;
    0 <= sx < 160 && sprite_colour(mem, s, line, pixel, cgb) != 0 && wins(
        mem.io[0x40],
        s.flags,
        bg_info[sx],
        cgb,
    )
}

/// The buffer with the first `upto` pixels of the sprite drawn on the line.
pub open spec fn sprite_drawn(
    buffer: Seq<u8>,
    mem: MemoryView,
    s: Sprite,
    line: int,
    bg_info: Seq<u8>,
    upto: int,
    cgb: bool,
) -> Seq<u8> {
    Seq::new(
        buffer.len(),
        |i: int|
            {
                let pixel = (i - line * LINE_BYTES) / 4 - (s.x - 8);
                if line * LINE_BYTES <= i < (line + 1) * LINE_BYTES && 0 <= pixel < upto
                    && pixel_drawn(mem, s, line, bg_info, pixel, cgb) {
                    channel(
                        sprite_rgb(mem, s, sprite_colour(mem, s, line, pixel, cgb), cgb),
                        i % 4,
                    )
                } else {
                    buffer[i]
                }
            },
    )
}

/// The buffer with the sprites drawn, last of the list first.
pub open spec fn sprites_drawn(
    buffer: Seq<u8>,
    mem: MemoryView,
    list: Seq<Sprite>,
    line: int,
    bg_info: Seq<u8>,
    cgb: bool,
) -> Seq<u8>
    decreases list.len(),
{
    if list.len() == 0 {
        buffer
    } else {
        sprites_drawn(
            sprite_drawn(buffer, mem, list.last(), line, bg_info, 8, cgb),
            mem,
            list.drop_last(),
            line,
            bg_info,
            cgb,
        )
    }
}

/// The scanline with its sprites drawn over background and window.
pub open spec fn sprites_rendered(ppu: PpuView, mem: MemoryView, line: int, cgb: bool) -> PpuView {
    PpuView {
        buffer: sprites_drawn(
            ppu.buffer,
            mem,
            line_sprites(mem, line, cgb),
            line,
            ppu.bg_info,
            cgb,
        ),
        ..ppu
    }
}

/// Inserting behind the last sprite whose X is not larger is inserting at the
/// position that splits the list into X not larger and X larger.
pub proof fn lemma_inserted_at(sorted: Seq<Sprite>, s: Sprite, pos: int)
    requires
        0 <= pos <= sorted.len(),
        pos > 0 ==> sorted[pos - 1].x <= s.x,
        forall|k: int| pos <= k < sorted.len() ==> sorted[k].x > s.x,
    ensures
        inserted(sorted, s) == sorted.insert(pos, s),
    decreases sorted.len(),
{
    if sorted.len() == 0 {
        assert(sorted.insert(pos, s) =~= seq![s]);
    } else if pos == sorted.len() {
        assert(sorted.insert(pos, s) =~= sorted.push(s));
    } else {
        lemma_inserted_at(sorted.drop_last(), s, pos);
        assert(sorted.insert(pos, s) =~= sorted.drop_last().insert(pos, s).push(sorted.last()));
    }
}

/// A list ordered by X stays ordered when a sprite is inserted, and keeps its
/// length plus one.
pub proof fn lemma_inserted_ordered(sorted: Seq<Sprite>, s: Sprite)
    requires
        forall|i: int, j: int| 0 <= i <= j < sorted.len() ==> sorted[i].x <= sorted[j].x,
    ensures
        inserted(sorted, s).len() == sorted.len() + 1,
        forall|i: int, j: int|
            0 <= i <= j < inserted(sorted, s).len() ==> inserted(sorted, s)[i].x <= inserted(
                sorted,
                s,
            )[j].x,
        inserted(sorted, s).to_multiset() == sorted.to_multiset().insert(s),
    decreases sorted.len(),
{
    broadcast use vstd::seq_lib::group_to_multiset_ensures;

    if sorted.len() == 0 {
    } else if sorted.last().x <= s.x {
    } else {
        let rest = sorted.drop_last();
        lemma_inserted_ordered(rest, s);
        let r = inserted(rest, s);
        assert(sorted =~= rest.push(sorted.last()));
        assert forall|i: int| 0 <= i < r.len() implies r[i].x <= sorted.last().x by {
            assert(r.to_multiset().count(r[i]) > 0);
            if r[i] != s {
                assert(rest.to_multiset().count(r[i]) > 0);
                assert(rest.contains(r[i]));
                let k = choose|k: int| 0 <= k < rest.len() && rest[k] == r[i];
                assert(sorted[k].x <= sorted[sorted.len() - 1].x);
            }
        }
    }
}

/// Ordering by X gives a list in non-decreasing X that holds the same sprites.
pub proof fn lemma_sorted_by_x(list: Seq<Sprite>)
    ensures
        sorted_by_x(list).len() == list.len(),
        forall|i: int, j: int|
            0 <= i <= j < sorted_by_x(list).len() ==> sorted_by_x(list)[i].x <= sorted_by_x(
                list,
            )[j].x,
        sorted_by_x(list).to_multiset() == list.to_multiset(),
    decreases list.len(),
{
    broadcast use vstd::seq_lib::group_to_multiset_ensures;

    if list.len() == 0 {
    } else {
        lemma_sorted_by_x(list.drop_last());
        lemma_inserted_ordered(sorted_by_x(list.drop_last()), list.last());
        assert(list =~= list.drop_last().push(list.last()));
    }
}

/// The test "has X equal to `v`".
pub open spec fn has_x(v: u8) -> spec_fn(Sprite) -> bool {
    |s: Sprite| s.x == v
}

/// Inserting a sprite puts it behind the sprites of the same X and leaves the
/// order among the others as it was.
pub proof fn lemma_inserted_behind_equals(sorted: Seq<Sprite>, s: Sprite, v: u8)
    ensures
        inserted(sorted, s).filter(has_x(v)) == if s.x == v {
            sorted.filter(has_x(v)).push(s)
        } else {
            sorted.filter(has_x(v))
        },
    decreases sorted.len(),
{
    reveal_with_fuel(Seq::<_>::filter, 2);
    if sorted.len() == 0 {
        assert(seq![s].drop_last() =~= Seq::<Sprite>::empty());
        assert(seq![s].last() == s);
    } else if sorted.last().x <= s.x {
        assert(sorted.push(s).drop_last() =~= sorted);
    } else {
        let rest = sorted.drop_last();
        lemma_inserted_behind_equals(rest, s, v);
        let r = inserted(rest, s).push(sorted.last());
        assert(r.drop_last() =~= inserted(rest, s));
        assert(r.last() == sorted.last());
    }
}

/// Ties keep their order: among the sprites of any one X, ordering by X
/// changes nothing.
pub proof fn lemma_sort_is_stable(list: Seq<Sprite>, v: u8)
    ensures
        sorted_by_x(list).filter(has_x(v)) == list.filter(has_x(v)),
    decreases list.len(),
{
    reveal_with_fuel(Seq::<_>::filter, 2);
    if list.len() > 0 {
        lemma_sort_is_stable(list.drop_last(), v);
        lemma_inserted_behind_equals(sorted_by_x(list.drop_last()), list.last(), v);
    }
}

/// Drawing sprites changes no length.
pub proof fn lemma_sprites_drawn_len(
    buffer: Seq<u8>,
    mem: MemoryView,
    list: Seq<Sprite>,
    line: int,
    bg_info: Seq<u8>,
    cgb: bool,
)
    ensures
        sprites_drawn(buffer, mem, list, line, bg_info, cgb).len() == buffer.len(),
    decreases list.len(),
{
    if list.len() > 0 {
        lemma_sprites_drawn_len(
            sprite_drawn(buffer, mem, list.last(), line, bg_info, 8, cgb),
            mem,
            list.drop_last(),
            line,
            bg_info,
            cgb,
        );
    }
}

/// At most ten sprites are admitted, each covers the line, and they come in
/// OAM order.
pub proof fn lemma_admitted(oam: Seq<u8>, line: int, h: int, n: nat)
    ensures
        admitted(oam, line, h, n).len() <= 10,
        admitted(oam, line, h, n).len() <= n,
        forall|k: int|
            0 <= k < admitted(oam, line, h, n).len() ==> covers(
                #[trigger] admitted(oam, line, h, n)[k],
                line,
                h,
            ),
    decreases n,
{
    if n > 0 {
        lemma_admitted(oam, line, h, (n - 1) as nat);
    }
}

impl Ppu {
    /// The sprites admitted on scanline `line`, in OAM order.
    pub fn scan_oam(memory: &Memory, line: usize) -> (list: Vec<Sprite>)
        requires
            memory.wf(),
            line < 144,
        ensures
            list@ == admitted(memory@.oam, line as int, sprite_height(memory@.io[0x40]), 40),
            list@.len() <= 10,
    {
        let lcdc = memory.read_io_direct(0x40);
        let h: usize = if lcdc & 0x04 != 0 {
            16
        } else {
            8
        };
        let oam = memory.get_oam();
        let mut list: Vec<Sprite> = Vec::new();
        let mut i: usize = 0;
        while i < 40
            invariant
                i <= 40,
                line < 144,
                oam@ == memory@.oam,
                h == sprite_height(memory@.io[0x40]),
                list@ == admitted(memory@.oam, line as int, h as int, i as nat),
                list@.len() <= 10,
            decreases 40 - i,
        {
            let y = oam[4 * i] as usize;
            if list.len() < 10 && y <= line + 16 && line + 16 < y + h {
                list.push(
                    Sprite { y: oam[4 * i], x: oam[4 * i + 1], tile: oam[4 * i + 2], flags: oam[4
                        * i + 3] },
                );
            }
            i += 1;
        }
        list
    }

    /// Orders sprites by X, keeping the order of sprites with equal X.
    pub fn sort_by_x(list: &Vec<Sprite>) -> (sorted: Vec<Sprite>)
        ensures
            sorted@ == sorted_by_x(list@),
    {
        let mut sorted: Vec<Sprite> = Vec::new();
        let mut i: usize = 0;
        while i < list.len()
            invariant
                i <= list@.len(),
                sorted@ == sorted_by_x(list@.subrange(0, i as int)),
                sorted@.len() == i,
            decreases list@.len() - i,
        {
            let s = list[i];
            let mut pos: usize = sorted.len();
            while pos > 0 && sorted[pos - 1].x > s.x
                invariant
                    pos <= sorted@.len(),
                    forall|k: int| pos <= k < sorted@.len() ==> sorted@[k].x > s.x,
                decreases pos,
            {
                pos -= 1;
            }
            proof {
                lemma_inserted_at(sorted@, s, pos as int);
                assert(list@.subrange(0, i as int + 1).drop_last() =~= list@.subrange(
                    0,
                    i as int,
                ));
            }
            sorted.insert(pos, s);
            i += 1;
        }
        assert(list@.subrange(0, list@.len() as int) =~= list@);
        sorted
    }

    /// Draws one sprite on scanline `line`.
    fn draw_sprite(&mut self, memory: &Memory, s: Sprite, line: usize, cgb: bool)
        requires
            old(self).wf(),
            memory.wf(),
            line < 144,
            covers(s, line as int, sprite_height(memory@.io[0x40])),
        ensures
            final(self).wf(),
            final(self)@ == (PpuView {
                buffer: sprite_drawn(
                    old(self)@.buffer,
                    memory@,
                    s,
                    line as int,
                    old(self)@.bg_info,
                    8,
                    cgb,
                ),
                ..old(self)@
            }),
    {
        proof {
            lemma_u8_mask_bounds();
        }
        let lcdc = memory.read_io_direct(0x40);
        let h: usize = if lcdc & 0x04 != 0 {
            16
        } else {
            8
        };
        let mut row: usize = line + 16 - s.y as usize;
        if s.flags & 0x40 != 0 {
            row = h - 1 - row;
        }
        let mut tile = s.tile;
        if h == 16 {
            tile = tile - tile % 2;
            if row >= 8 {
                tile = tile + 1;
                row = row - 8;
            }
        }
        let addr: u16 = 0x8000 + tile as u16 * 16 + row as u16 * 2;
        let bank: usize = if cgb {
            ((s.flags >> 3) & 1) as usize
        } else {
            0
        };
        let lo = memory.read_vram_bank(bank, addr);
        let hi = memory.read_vram_bank(bank, addr + 1);
        let obp = if s.flags & 0x10 != 0 {
            memory.read_io_direct(0x49)
        } else {
            memory.read_io_direct(0x48)
        };
        let mut pixel: usize = 0;
        assert(self.buffer@ =~= sprite_drawn(
            old(self)@.buffer,
            memory@,
            s,
            line as int,
            old(self)@.bg_info,
            0,
            cgb,
        ));
        while pixel < 8
            invariant
                pixel <= 8,
                line < 144,
                memory.wf(),
                self.wf(),
                lcdc == memory@.io[0x40],
                addr == sprite_row_addr(s, line as int, sprite_height(memory@.io[0x40])),
                bank == sprite_bank(s, cgb),
                lo == memory@.read_vram_bank(bank as int, addr),
                hi == memory@.read_vram_bank(bank as int, (addr + 1) as u16),
                obp == if s.flags & 0x10 != 0 {
                    memory@.io[0x49]
                } else {
                    memory@.io[0x48]
                },
                self@ == (PpuView {
                    buffer: sprite_drawn(
                        old(self)@.buffer,
                        memory@,
                        s,
                        line as int,
                        old(self)@.bg_info,
                        pixel as int,
                        cgb,
                    ),
                    ..old(self)@
                }),
            decreases 8 - pixel,
        {
            let ghost before = self.buffer@;
            let ghost target = sprite_drawn(
                old(self)@.buffer,
                memory@,
                s,
                line as int,
                old(self)@.bg_info,
                pixel as int + 1,
                cgb,
            );
            proof {
                lemma_u8_mask_bounds();
            }
            let on_screen = s.x as usize + pixel >= 8 && s.x as usize + pixel < 168;
            let mut drawn = false;
            if on_screen {
                let sx = s.x as usize + pixel - 8;
                let bit: u8 = if s.flags & 0x20 != 0 {
                    pixel as u8
                } else {
                    (7 - pixel) as u8
                };
                let colour = colour_of(lo, hi, bit);
                let info = self.scanline_bg_info[sx];
                let shows = if cgb {
                    if lcdc & 0x01 == 0 {
                        true
                    } else if info & 0x02 != 0 {
                        info & 0x01 != 0
                    } else if s.flags & 0x80 != 0 {
                        info & 0x01 != 0
                    } else {
                        true
                    }
                } else {
                    !(s.flags & 0x80 != 0 && info & 0x01 == 0)
                };
                if colour != 0 && shows {
                    let (r, g, b) = if cgb {
                        let (plo, phi) = memory.read_obj_palette(
                            (s.flags & 0x07) as usize,
                            colour as usize,
                        );
                        let rgba = Ppu::rgb555_to_rgba(plo, phi);
                        (rgba[0], rgba[1], rgba[2])
                    } else {
                        let gr = gray(obp, colour);
                        (gr, gr, gr)
                    };
                    self.put_pixel(line, sx, r, g, b);
                    drawn = true;
                    assert(self.buffer@ =~= target);
                }
            }
            if !drawn {
                assert(self.buffer@ =~= target);
            }
            pixel += 1;
        }
    }

    /// Draws the sprites of `list` on scanline `line`, last first.
    fn draw_sprites(&mut self, memory: &Memory, list: &Vec<Sprite>, line: usize, cgb: bool)
        requires
            old(self).wf(),
            memory.wf(),
            line < 144,
            forall|k: int|
                0 <= k < list@.len() ==> covers(
                    #[trigger] list@[k],
                    line as int,
                    sprite_height(memory@.io[0x40]),
                ),
        ensures
            final(self).wf(),
            final(self)@ == (PpuView {
                buffer: sprites_drawn(
                    old(self)@.buffer,
                    memory@,
                    list@,
                    line as int,
                    old(self)@.bg_info,
                    cgb,
                ),
                ..old(self)@
            }),
    {
        let mut k: usize = list.len();
        assert(list@.subrange(0, k as int) =~= list@);
        while k > 0
            invariant
                k <= list@.len(),
                line < 144,
                memory.wf(),
                self.wf(),
                forall|j: int|
                    0 <= j < list@.len() ==> covers(
                        #[trigger] list@[j],
                        line as int,
                        sprite_height(memory@.io[0x40]),
                    ),
                self@ == (PpuView { buffer: self.buffer@, ..old(self)@ }),
                sprites_drawn(
                    self.buffer@,
                    memory@,
                    list@.subrange(0, k as int),
                    line as int,
                    old(self)@.bg_info,
                    cgb,
                ) == sprites_drawn(
                    old(self)@.buffer,
                    memory@,
                    list@,
                    line as int,
                    old(self)@.bg_info,
                    cgb,
                ),
            decreases k,
        {
            proof {
                assert(list@.subrange(0, k as int).drop_last() =~= list@.subrange(0, k as int - 1));
                assert(list@.subrange(0, k as int).last() == list@[k as int - 1]);
            }
            self.draw_sprite(memory, list[k - 1], line, cgb);
            k -= 1;
        }
    }

    /// Draws the sprites of scanline `line` in monochrome mode.
    pub fn render_sprites_dmg(&mut self, memory: &Memory, line: usize)
        requires
            old(self).wf(),
            memory.wf(),
            line < 144,
        ensures
            final(self).wf(),
            final(self)@ == sprites_rendered(old(self)@, memory@, line as int, false),
    {
        let found = Ppu::scan_oam(memory, line);
        let list = Ppu::sort_by_x(&found);
        proof {
            let h = sprite_height(memory@.io[0x40]);
            lemma_admitted(memory@.oam, line as int, h, 40);
            lemma_sorted_by_x(found@);
            broadcast use vstd::seq_lib::group_to_multiset_ensures;

            assert forall|k: int| 0 <= k < list@.len() implies covers(
                #[trigger] list@[k],
                line as int,
                h,
            ) by {
                assert(list@.to_multiset().count(list@[k]) > 0);
                assert(found@.contains(list@[k]));
                let j = choose|j: int| 0 <= j < found@.len() && found@[j] == list@[k];
                assert(covers(found@[j], line as int, h));
            }
        }
        self.draw_sprites(memory, &list, line, false);
    }

    /// Draws the sprites of scanline `line` in color mode.
    pub fn render_sprites_gbc(&mut self, memory: &Memory, line: usize)
        requires
            old(self).wf(),
            memory.wf(),
            line < 144,
        ensures
            final(self).wf(),
            final(self)@ == sprites_rendered(old(self)@, memory@, line as int, true),
    {
        let list = Ppu::scan_oam(memory, line);
        proof {
            lemma_admitted(memory@.oam, line as int, sprite_height(memory@.io[0x40]), 40);
        }
        self.draw_sprites(memory, &list, line, true);
    }
}

} // verus!
