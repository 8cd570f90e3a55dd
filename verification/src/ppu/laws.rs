//! What holds of the picture unit's timing, and helpers for reasoning about
//! the frame buffer.

use super::{PpuMode, PpuView, FRAME_CYCLES};
use crate::memory::MemoryView;
use vstd::prelude::*;

verus! {

/// Number of non-zero bytes.
pub open spec fn non_zero_count(s: Seq<u8>) -> nat
    decreases s.len(),
{
    if s.len() == 0 {
        0
    } else {
        non_zero_count(s.drop_last()) + if s.last() != 0 {
            1nat
        } else {
            0nat
        }
    }
}

/// Counting one byte further adds 1 for a non-zero byte; the count never
/// exceeds the number of bytes counted.
pub proof fn lemma_non_zero_step(s: Seq<u8>, i: int)
    requires
        0 <= i < s.len(),
    ensures
        non_zero_count(s.subrange(0, i + 1)) == non_zero_count(s.subrange(0, i)) + if s[i] != 0 {
            1nat
        } else {
            0nat
        },
        non_zero_count(s.subrange(0, i)) <= i,
    decreases i,
{
    assert(s.subrange(0, i + 1).drop_last() =~= s.subrange(0, i));
    if i > 0 {
        lemma_non_zero_step(s, i - 1);
    }
}

/// Rendering a scanline changes pixels only: the buffer keeps its size, and
/// mode, line and cycle count stay.
pub proof fn lemma_render_keeps_shape(p: PpuView, mem: MemoryView)
    requires
        p.wf(),
    ensures
        p.render_scanline(mem).wf(),
        p.render_scanline(mem).mode == p.mode,
        p.render_scanline(mem).line == p.line,
        p.render_scanline(mem).cycles == p.cycles,
        p.render_scanline(mem).frame_ready == p.frame_ready,
        p.render_scanline(mem).cgb_mode == p.cgb_mode,
{
    let lcdc = mem.io[0x40];
    let line = p.line as int;
    if line < 144 {
        let p0 = PpuView { bg_info: Seq::new(160, |i: int| 1u8), ..p };
        let p1 = if lcdc & 0x01 != 0 {
            if p.cgb_mode {
                super::cgb::background_rendered(p0, mem, line)
            } else {
                super::dmg::background_rendered(p0, mem, line)
            }
        } else {
            PpuView { buffer: super::white_line(p0.buffer, line), ..p0 }
        };
        let p2 = if lcdc & 0x20 != 0 {
            if p.cgb_mode {
                super::cgb::window_rendered(p1, mem, line)
            } else {
                super::dmg::window_rendered(p1, mem, line)
            }
        } else {
            p1
        };
        super::sprites::lemma_sprites_drawn_len(
            p2.buffer,
            mem,
            super::sprites::line_sprites(mem, line, p.cgb_mode),
            line,
            p2.bg_info,
            p.cgb_mode,
        );
    }
}

/// The time already spent in the current mode is less than the mode lasts.
pub open spec fn settled(p: PpuView) -> bool {
    p.cycles < p.mode.duration()
}

/// Position within the frame, in T-cycles since the start of line 0.
pub open spec fn frame_position(p: PpuView) -> int {
    p.line * 456 + p.cycles + match p.mode {
        PpuMode::OamScan => 0int,
        PpuMode::Drawing => 80int,
        PpuMode::HBlank => 252int,
        PpuMode::VBlank => 0int,
    }
}

/// Whether the LCD is on.
pub open spec fn lcd_on(mem: MemoryView) -> bool {
    mem.io[0x40] & 0x80 != 0
}

/// With the LCD on and ticks of at most 80 cycles (no instruction takes more
/// than 24), the PPU keeps up with time: it stays settled and its position in
/// the frame advances by exactly the cycles given, modulo the 70224 cycles of
/// a frame. LY in memory follows the line.
pub proof fn lemma_tick_advances_position(p: PpuView, mem: MemoryView, cycles: u32)
    requires
        p.wf(),
        settled(p),
        lcd_on(mem),
        cycles <= 80,
    ensures
        p.tick(mem, cycles).0.wf(),
        settled(p.tick(mem, cycles).0),
        frame_position(p.tick(mem, cycles).0) == (frame_position(p) + cycles) % (
        FRAME_CYCLES as int),
        0 <= frame_position(p) < FRAME_CYCLES,
        mem.wf() ==> lcd_on(p.tick(mem, cycles).1),
        mem.wf() && mem.io[0x44] == p.line ==> p.tick(mem, cycles).1.io[0x44] == p.tick(
            mem,
            cycles,
        ).0.line,
{
    lemma_render_keeps_shape(p, mem);
    if mem.wf() {
        lemma_tick_keeps_lcdc(p, mem, cycles);
    }
}

/// A tick never writes LCDC.
pub proof fn lemma_tick_keeps_lcdc(p: PpuView, mem: MemoryView, cycles: u32)
    requires
        p.wf(),
        mem.wf(),
    ensures
        p.tick(mem, cycles).1.io[0x40] == mem.io[0x40],
        p.tick(mem, cycles).1.wf(),
{
}

/// With the LCD off the PPU rests at the start of line 0 in H-blank, LY reads
/// 0, and the frame buffer keeps its contents.
pub proof fn lemma_lcd_off_rests(p: PpuView, mem: MemoryView, cycles: u32)
    requires
        p.wf(),
        mem.wf(),
        !lcd_on(mem),
    ensures
        p.tick(mem, cycles).0.mode == PpuMode::HBlank,
        p.tick(mem, cycles).0.line == 0,
        p.tick(mem, cycles).0.cycles == 0,
        p.tick(mem, cycles).0.buffer == p.buffer,
        p.tick(mem, cycles).1.io[0x44] == 0,
{
}

/// A number of cycles reduced to a position within the frame.
#[verifier::opaque]
pub open spec fn in_frame(cycles: int) -> int {
    cycles % (FRAME_CYCLES as int)
}

/// A settled PPU is at a position within the frame.
pub proof fn lemma_position_range(p: PpuView)
    requires
        p.wf(),
        settled(p),
    ensures
        0 <= frame_position(p) < FRAME_CYCLES,
{
}

/// Adding cycles in two goes is adding them at once, modulo a frame.
pub proof fn lemma_position_adds(a: int, b: int, c: int)
    ensures
        in_frame(in_frame(a + b) + c) == in_frame(a + b + c),
{
    reveal(in_frame);
}

/// A position within the frame is its own reduction; whole frames drop out.
pub proof fn lemma_in_frame(a: int, over: int)
    requires
        0 <= a,
        0 <= over,
        a + over < 70224,
    ensures
        in_frame(a + over) == a + over,
        in_frame(a + 70224 + over) == a + over,
{
    reveal(in_frame);
}

/// The position in the frame determines line and mode of a settled PPU: at
/// positions below 80 it is in OAM scan on line 0.
pub proof fn lemma_position_zero_is_line_start(p: PpuView)
    requires
        p.wf(),
        settled(p),
        frame_position(p) < 80,
    ensures
        p.line == 0,
        p.mode == PpuMode::OamScan,
{
}

/// Entering V-blank raises the frame-ready pulse and requests the V-blank
/// interrupt; it happens exactly when H-blank of line 143 ends.
pub proof fn lemma_vblank_entry(p: PpuView, mem: MemoryView, cycles: u32)
    requires
        p.wf(),
        mem.wf(),
        lcd_on(mem),
        p.cycles + cycles <= u32::MAX,
    ensures
        p.mode != PpuMode::VBlank && p.tick(mem, cycles).0.mode == PpuMode::VBlank ==> p.mode
            == PpuMode::HBlank && p.line == 143 && p.tick(mem, cycles).0.line == 144 && p.tick(
            mem,
            cycles,
        ).0.frame_ready && p.tick(mem, cycles).1.io[0x0F] & 0x01 == 0x01,
{
    if p.mode == PpuMode::HBlank && p.cycles + cycles >= 204 && p.line == 143 {
        let line = 144u8;
        let m1 = super::lyc_checked(mem.with_io(0x44, line), line);
        let f = m1.io[0x0F];
        let m2 = crate::interrupts::requested(m1, 0x01);
        let m3 = super::stat_requested(m2, 0x10);
        let g = m2.io[0x0F];
        assert((f | 0x01) & 0x01 == 0x01 && ((f | 0x01) | 0x02) & 0x01 == 0x01) by (bit_vector);
        assert(m3.io[0x0F] & 0x01 == 0x01);
    }
}

/// PPU and memory after one tick; the same as `PpuView::tick`, kept folded
/// where only its timing matters.
#[verifier::opaque]
pub open spec fn after_tick(p: PpuView, mem: MemoryView, cycles: u32) -> (PpuView, MemoryView) {
    p.tick(mem, cycles)
}

/// PPU and memory after a run of ticks with no CPU activity in between.
pub open spec fn ticked_all(p: PpuView, mem: MemoryView, cycles: Seq<u32>) -> (PpuView, MemoryView)
    decreases cycles.len(),
{
    if cycles.len() == 0 {
        (p, mem)
    } else {
        let before = ticked_all(p, mem, cycles.drop_last());
        after_tick(before.0, before.1, cycles.last())
    }
}

/// What one tick of at most 80 cycles does to a settled PPU with the LCD on.
pub proof fn lemma_after_tick(p: PpuView, mem: MemoryView, cycles: u32)
    requires
        p.wf(),
        settled(p),
        lcd_on(mem),
        cycles <= 80,
    ensures
        after_tick(p, mem, cycles).0.wf(),
        settled(after_tick(p, mem, cycles).0),
        frame_position(after_tick(p, mem, cycles).0) == in_frame(frame_position(p) + cycles),
        0 <= frame_position(p) < FRAME_CYCLES,
        mem.wf() ==> after_tick(p, mem, cycles).1.wf() && lcd_on(after_tick(p, mem, cycles).1),
        mem.wf() && mem.io[0x44] == p.line ==> after_tick(p, mem, cycles).1.io[0x44]
            == after_tick(p, mem, cycles).0.line,
{
    reveal(after_tick);
    reveal(in_frame);
    lemma_tick_advances_position(p, mem, cycles);
    if mem.wf() {
        lemma_tick_keeps_lcdc(p, mem, cycles);
    }
}

/// Sum of the cycles of a run of ticks.
pub open spec fn total_cycles(cycles: Seq<u32>) -> int
    decreases cycles.len(),
{
    if cycles.len() == 0 {
        0
    } else {
        total_cycles(cycles.drop_last()) + cycles.last()
    }
}

/// A settled PPU is where its position in the frame says: equal positions
/// mean equal line, mode and cycle count.
pub proof fn lemma_position_determines_state(p: PpuView, q: PpuView)
    requires
        p.wf(),
        q.wf(),
        settled(p),
        settled(q),
        frame_position(p) == frame_position(q),
    ensures
        p.line == q.line,
        p.mode == q.mode,
        p.cycles == q.cycles,
{
    let pos = frame_position(p);
    let pl = p.line as int;
    let ql = q.line as int;
    let po = pos - pl * 456;
    let qo = pos - ql * 456;
    assert(0 <= po < 456);
    assert(0 <= qo < 456);
    assert(pl == ql) by (nonlinear_arith)
        requires
            0 <= pos - pl * 456 < 456,
            0 <= pos - ql * 456 < 456,
    ;
}

/// While the LCD stays on and no tick is longer than 80 cycles, a run of
/// ticks moves the PPU by exactly the cycles given, modulo a frame, and LY in
/// memory follows the line.
pub proof fn lemma_run_advances_position(p: PpuView, mem: MemoryView, cycles: Seq<u32>)
    requires
        p.wf(),
        mem.wf(),
        settled(p),
        lcd_on(mem),
        mem.io[0x44] == p.line,
        forall|i: int| 0 <= i < cycles.len() ==> cycles[i] <= 80,
    ensures
        ticked_all(p, mem, cycles).0.wf(),
        ticked_all(p, mem, cycles).1.wf(),
        settled(ticked_all(p, mem, cycles).0),
        lcd_on(ticked_all(p, mem, cycles).1),
        ticked_all(p, mem, cycles).1.io[0x44] == ticked_all(p, mem, cycles).0.line,
        frame_position(ticked_all(p, mem, cycles).0) == in_frame(
            frame_position(p) + total_cycles(cycles),
        ),
    decreases cycles.len(),
{
    if cycles.len() == 0 {
        lemma_position_range(p);
        lemma_in_frame(frame_position(p), 0);
    } else {
        let rest = cycles.drop_last();
        lemma_run_advances_position(p, mem, rest);
        let before = ticked_all(p, mem, rest);
        lemma_after_tick(before.0, before.1, cycles.last());
        lemma_position_adds(frame_position(p), total_cycles(rest), cycles.last() as int);
    }
}

/// Frame period: with the LCD on throughout, ticks that add up to a whole
/// number of frames bring the PPU back to the line, mode and cycle count it
/// started from. From the start of OAM scan on line 0, one frame of 70224
/// cycles ends at the start of OAM scan on line 0, with LY reading 0.
pub proof fn lemma_whole_frames_return(p: PpuView, mem: MemoryView, cycles: Seq<u32>)
    requires
        p.wf(),
        mem.wf(),
        settled(p),
        lcd_on(mem),
        mem.io[0x44] == p.line,
        forall|i: int| 0 <= i < cycles.len() ==> cycles[i] <= 80,
        total_cycles(cycles) % (FRAME_CYCLES as int) == 0,
    ensures
        ticked_all(p, mem, cycles).0.line == p.line,
        ticked_all(p, mem, cycles).0.mode == p.mode,
        ticked_all(p, mem, cycles).0.cycles == p.cycles,
        ticked_all(p, mem, cycles).1.io[0x44] == p.line,
{
    lemma_run_advances_position(p, mem, cycles);
    lemma_position_range(p);
    let a = frame_position(p);
    let t = total_cycles(cycles);
    assert(in_frame(a + t) == a) by {
        reveal(in_frame);
    }
    lemma_position_determines_state(p, ticked_all(p, mem, cycles).0);
}

} // verus!
