//! The picture unit: the mode machine that times each scanline and the
//! scanline renderer.
//!
//! A scanline takes 456 T-cycles: 80 of OAM scan, 172 of drawing, 204 of
//! H-blank. Lines 144-153 are V-blank. The frame buffer is 160 x 144 RGBA,
//! row-major, alpha always 255.

pub mod cgb;
pub mod dmg;
pub mod laws;
pub mod sprites;

use crate::interrupts::{requested, Interrupt, InterruptController};
use crate::memory::{Memory, MemoryView};
use vstd::prelude::*;

verus! {

/// Pixels per scanline.
pub const SCREEN_WIDTH: usize = 160;

/// Visible scanlines.
pub const SCREEN_HEIGHT: usize = 144;

/// Bytes of one scanline in the frame buffer.
pub const LINE_BYTES: usize = 640;

/// Bytes of the frame buffer.
pub const BUFFER_BYTES: usize = 92160;

/// Scanlines per frame, V-blank included.
pub const TOTAL_LINES: usize = 154;

/// T-cycles of OAM scan.
pub const OAM_SCAN_CYCLES: u32 = 80;

/// T-cycles of drawing, taken as fixed.
pub const DRAWING_CYCLES: u32 = 172;

/// T-cycles of H-blank.
pub const HBLANK_CYCLES: u32 = 204;

/// T-cycles of a scanline.
pub const SCANLINE_CYCLES: u32 = 456;

/// T-cycles of a whole frame.
pub const FRAME_CYCLES: u32 = 70224;

/// Gray level of each DMG shade.
pub const GRAY: [u8; 4] = [0xFF, 0xAA, 0x55, 0x00];

/// The four modes, numbered as STAT bits 0-1 report them.
#[derive(Debug, Clone, Copy, PartialEq, Eq, Structural)]
pub enum PpuMode {
    HBlank,
    VBlank,
    OamScan,
    Drawing,
}

impl PpuMode {
    /// The mode's number in STAT.
    pub open spec fn number(self) -> u8 {
        match self {
            PpuMode::HBlank => 0,
            PpuMode::VBlank => 1,
            PpuMode::OamScan => 2,
            PpuMode::Drawing => 3,
        }
    }

    /// T-cycles the mode lasts (per scanline, for V-blank).
    pub open spec fn duration(self) -> u32 {
        match self {
            PpuMode::HBlank => HBLANK_CYCLES,
            PpuMode::VBlank => SCANLINE_CYCLES,
            PpuMode::OamScan => OAM_SCAN_CYCLES,
            PpuMode::Drawing => DRAWING_CYCLES,
        }
    }

    /// The mode's number in STAT.
    pub fn as_u8(self) -> (r: u8)
        ensures
            r == self.number(),
            r <= 3,
    {
        match self {
            PpuMode::HBlank => 0,
            PpuMode::VBlank => 1,
            PpuMode::OamScan => 2,
            PpuMode::Drawing => 3,
        }
    }

    /// A short name for debugging.
    pub open spec fn name_spec(self) -> Seq<char> {
        match self {
            PpuMode::HBlank => "HBLANK"@,
            PpuMode::VBlank => "VBLANK"@,
            PpuMode::OamScan => "OAM"@,
            PpuMode::Drawing => "DRAW"@,
        }
    }

    /// A short name for debugging.
    pub fn name(self) -> (r: &'static str)
        ensures
            r@ == self.name_spec(),
    {
        match self {
            PpuMode::HBlank => "HBLANK",
            PpuMode::VBlank => "VBLANK",
            PpuMode::OamScan => "OAM",
            PpuMode::Drawing => "DRAW",
        }
    }
}

/// Mode, line and counters, for debugging.
pub struct PpuDebugState {
    pub mode: u8,
    pub mode_name: &'static str,
    pub line: u8,
    pub cycles: u32,
    pub window_line_counter: u8,
}

/// Mode machine, frame buffer and per-scanline scratch.
pub struct Ppu {
    /// RGBA frame buffer, 160 x 144 x 4 bytes.
    pub buffer: Vec<u8>,
    /// Per pixel of the current scanline: bit 0 = background colour 0,
    /// bit 1 = the tile forces background priority (color mode).
    pub scanline_bg_info: [u8; 160],
    pub mode: PpuMode,
    /// T-cycles spent in the current mode.
    pub cycles: u32,
    /// Current scanline, LY.
    pub line: u8,
    /// Lines of the window drawn so far in this frame.
    pub window_line_counter: u8,
    /// Raised on entering V-blank, until the host takes it.
    pub frame_ready: bool,
    pub cgb_mode: bool,
}

/// The PPU with its buffers as sequences of bytes.
pub struct PpuView {
    pub buffer: Seq<u8>,
    pub bg_info: Seq<u8>,
    pub mode: PpuMode,
    pub cycles: u32,
    pub line: u8,
    pub window_line_counter: u8,
    pub frame_ready: bool,
    pub cgb_mode: bool,
}

impl View for Ppu {
    type V = PpuView;

    open spec fn view(&self) -> PpuView {
        PpuView {
            buffer: self.buffer@,
            bg_info: self.scanline_bg_info@,
            mode: self.mode,
            cycles: self.cycles,
            line: self.line,
            window_line_counter: self.window_line_counter,
            frame_ready: self.frame_ready,
            cgb_mode: self.cgb_mode,
        }
    }
}

/// Memory after LY is compared with LYC: STAT bit 2 says whether they are
/// equal, and equality requests the LCD STAT interrupt when STAT bit 6 allows.
pub open spec fn lyc_checked(mem: MemoryView, line: u8) -> MemoryView {
    let stat = mem.io[0x41];
    if line == mem.io[0x45] {
        (if (stat | 0x04) & 0x40 != 0 {
            requested(mem, 0x02)
        } else {
            mem
        }).with_io(0x41, stat | 0x04)
    } else {
        mem.with_io(0x41, stat & !0x04u8)
    }
}

/// Memory after the LCD STAT interrupt is requested if the STAT bits in
/// `source` are set.
pub open spec fn stat_requested(mem: MemoryView, source: u8) -> MemoryView {
    if mem.io[0x41] & source != 0 {
        requested(mem, 0x02)
    } else {
        mem
    }
}

/// Memory with the mode reported in STAT bits 0-1.
pub open spec fn mode_reported(mem: MemoryView, mode: PpuMode) -> MemoryView {
    mem.with_io(0x41, (mem.io[0x41] & 0xFC) | mode.number())
}

impl PpuView {
    /// Buffer of the right size; lines 0-143 outside V-blank, 144-153 in it.
    pub open spec fn wf(self) -> bool {
        &&& self.buffer.len() == BUFFER_BYTES
        &&& self.bg_info.len() == 160
        &&& if self.mode == PpuMode::VBlank {
            144 <= self.line <= 153
        } else {
            self.line <= 143
        }
    }

    /// The PPU at power-on: start of OAM scan on line 0, black buffer.
    pub open spec fn power_on(cgb_mode: bool) -> PpuView {
        PpuView {
            buffer: Seq::new(BUFFER_BYTES as nat, |i: int| 0u8),
            bg_info: Seq::new(160, |i: int| 0u8),
            mode: PpuMode::OamScan,
            cycles: 0,
            line: 0,
            window_line_counter: 0,
            frame_ready: false,
            cgb_mode,
        }
    }

    /// The scanline `self.line` drawn into the buffer: every pixel starts as
    /// background colour 0; then the background (or white, with LCDC bit 0
    /// clear), the window (LCDC bit 5) and the sprites (LCDC bit 1).
    pub open spec fn render_scanline(self, mem: MemoryView) -> PpuView {
        let lcdc = mem.io[0x40];
        let line = self.line as int;
        if line >= 144 {
            self
        } else {
            let p0 = PpuView { bg_info: Seq::new(160, |i: int| 1u8), ..self };
            let p1 = if lcdc & 0x01 != 0 {
                if self.cgb_mode {
                    cgb::background_rendered(p0, mem, line)
                } else {
                    dmg::background_rendered(p0, mem, line)
                }
            } else {
                PpuView { buffer: white_line(p0.buffer, line), ..p0 }
            };
            let p2 = if lcdc & 0x20 != 0 {
                if self.cgb_mode {
                    cgb::window_rendered(p1, mem, line)
                } else {
                    dmg::window_rendered(p1, mem, line)
                }
            } else {
                p1
            };
            if lcdc & 0x02 != 0 {
                if self.cgb_mode {
                    sprites::sprites_rendered(p2, mem, line, true)
                } else {
                    sprites::sprites_rendered(p2, mem, line, false)
                }
            } else {
                p2
            }
        }
    }

    /// PPU and memory after `cycles` T-cycles. With the LCD off (LCDC bit 7
    /// clear) the PPU rests in H-blank on line 0. Otherwise the time adds up,
    /// and when the current mode has lasted its duration the next one begins:
    /// OAM scan, drawing, H-blank (the line is rendered and an armed HDMA
    /// moves one block), then the next line or V-blank, and after line 153
    /// line 0 again. LY, the LYC comparison, the mode bits of STAT and the
    /// V-blank and LCD STAT requests follow.
    pub open spec fn tick(self, mem: MemoryView, cycles: u32) -> (PpuView, MemoryView) {
        let lcdc = mem.io[0x40];
        let c = (self.cycles + cycles) as u32;
        if lcdc & 0x80 == 0 {
            (PpuView { mode: PpuMode::HBlank, cycles: 0, line: 0, ..self }, mem.with_io(0x44, 0))
        } else if c < self.mode.duration() {
            (PpuView { cycles: c, ..self }, mode_reported(mem, self.mode))
        } else {
            let left = (c - self.mode.duration()) as u32;
            match self.mode {
                PpuMode::OamScan => (
                    PpuView { mode: PpuMode::Drawing, cycles: left, ..self },
                    mode_reported(mem, PpuMode::Drawing),
                ),
                PpuMode::Drawing => (
                    PpuView { mode: PpuMode::HBlank, cycles: left, ..self.render_scanline(mem) },
                    mode_reported(stat_requested(mem.tick_hdma_hblank(), 0x08), PpuMode::HBlank),
                ),
                PpuMode::HBlank => {
                    let line = (self.line + 1) as u8;
                    let m1 = lyc_checked(mem.with_io(0x44, line), line);
                    if line >= 144 {
                        (
                            PpuView {
                                mode: PpuMode::VBlank,
                                cycles: left,
                                line,
                                window_line_counter: 0,
                                frame_ready: true,
                                ..self
                            },
                            mode_reported(
                                stat_requested(requested(m1, 0x01), 0x10),
                                PpuMode::VBlank,
                            ),
                        )
                    } else {
                        (
                            PpuView { mode: PpuMode::OamScan, cycles: left, line, ..self },
                            mode_reported(stat_requested(m1, 0x20), PpuMode::OamScan),
                        )
                    }
                },
                PpuMode::VBlank => {
                    if self.line + 1 >= 154 {
                        (
                            PpuView { mode: PpuMode::OamScan, cycles: left, line: 0, ..self },
                            mode_reported(
                                lyc_checked(stat_requested(mem, 0x20).with_io(0x44, 0), 0),
                                PpuMode::OamScan,
                            ),
                        )
                    } else {
                        (
                            PpuView { cycles: left, line: (self.line + 1) as u8, ..self },
                            mode_reported(
                                lyc_checked(
                                    mem.with_io(0x44, (self.line + 1) as u8),
                                    (self.line + 1) as u8,
                                ),
                                PpuMode::VBlank,
                            ),
                        )
                    }
                },
            }
        }
    }
}

/// The buffer with scanline `line` filled with opaque white.
pub open spec fn white_line(buffer: Seq<u8>, line: int) -> Seq<u8> {
    Seq::new(
        buffer.len(),
        |i: int|
            if line * LINE_BYTES <= i < (line + 1) * LINE_BYTES {
                0xFFu8
            } else {
                buffer[i]
            },
    )
}

/// The buffer with one pixel replaced.
pub open spec fn with_pixel(buffer: Seq<u8>, line: int, x: int, r: u8, g: u8, b: u8) -> Seq<u8> {
    buffer.update((line * 160 + x) * 4, r).update((line * 160 + x) * 4 + 1, g).update(
        (line * 160 + x) * 4 + 2,
        b,
    ).update((line * 160 + x) * 4 + 3, 255)
}

impl Ppu {
    /// The PPU's view is well-formed.
    pub open spec fn wf(&self) -> bool {
        self@.wf()
    }

    /// The PPU at power-on, in monochrome mode.
    pub fn new() -> (r: Ppu)
        ensures
            r.wf(),
            r@ == PpuView::power_on(false),
    {
        let r = Ppu {
            buffer: crate::memory::cartridge::zeroed(BUFFER_BYTES),
            scanline_bg_info: [0;160],
            mode: PpuMode::OamScan,
            cycles: 0,
            line: 0,
            window_line_counter: 0,
            frame_ready: false,
            cgb_mode: false,
        };
        assert(r.scanline_bg_info@ =~= Seq::new(160, |i: int| 0u8));
        r
    }

    /// Back to power-on in the given mode.
    pub fn reset(&mut self, cgb_mode: bool)
        ensures
            final(self).wf(),
            final(self)@ == PpuView::power_on(cgb_mode),
    {
        *self = Ppu::new();
        self.cgb_mode = cgb_mode;
    }

    /// Writes one pixel of the frame buffer.
    pub fn put_pixel(&mut self, line: usize, x: usize, r: u8, g: u8, b: u8)
        requires
            old(self).wf(),
            line < 144,
            x < 160,
        ensures
            final(self).wf(),
            final(self)@ == (PpuView {
                buffer: with_pixel(old(self)@.buffer, line as int, x as int, r, g, b),
                ..old(self)@
            }),
    {
        let offset = (line * SCREEN_WIDTH + x) * 4;
        self.buffer[offset] = r;
        self.buffer[offset + 1] = g;
        self.buffer[offset + 2] = b;
        self.buffer[offset + 3] = 255;
    }

    fn check_lyc_coincidence(&self, memory: &mut Memory, interrupts: &InterruptController)
        requires
            old(memory).wf(),
        ensures
            final(memory).wf(),
            final(memory)@ == lyc_checked(old(memory)@, self.line),
    {
        let lyc = memory.read_io_direct(0x45);
        let mut stat = memory.read_io_direct(0x41);
        if self.line == lyc {
            stat = stat | 0x04;
            if stat & 0x40 != 0 {
                interrupts.request(Interrupt::LcdStat, memory);
            }
        } else {
            stat = stat & !0x04u8;
        }
        memory.write_io_direct(0x41, stat);
    }

    fn request_stat(memory: &mut Memory, interrupts: &InterruptController, source: u8)
        requires
            old(memory).wf(),
        ensures
            final(memory).wf(),
            final(memory)@ == stat_requested(old(memory)@, source),
    {
        let stat = memory.read_io_direct(0x41);
        if stat & source != 0 {
            interrupts.request(Interrupt::LcdStat, memory);
        }
    }

    fn fill_white(&mut self, line: usize)
        requires
            old(self).wf(),
            line < 144,
        ensures
            final(self).wf(),
            final(self)@ == (PpuView {
                buffer: white_line(old(self)@.buffer, line as int),
                ..old(self)@
            }),
    {
        let start = line * LINE_BYTES;
        let mut i: usize = 0;
        while i < LINE_BYTES
            invariant
                i <= LINE_BYTES,
                line < 144,
                start == line * LINE_BYTES,
                self.buffer@.len() == BUFFER_BYTES,
                self@ == (PpuView { buffer: self.buffer@, ..old(self)@ }),
                forall|k: int| start <= k < start + i ==> #[trigger] self.buffer@[k] == 0xFF,
                forall|k: int|
                    0 <= k < BUFFER_BYTES && !(start <= k < start + i)
                        ==> #[trigger] self.buffer@[k] == old(self).buffer@[k],
            decreases LINE_BYTES - i,
        {
            self.buffer[start + i] = 0xFF;
            i += 1;
        }
        assert(self.buffer@ =~= white_line(old(self)@.buffer, line as int));
    }

    /// Draws the current scanline.
    pub fn render_scanline(&mut self, memory: &Memory)
        requires
            old(self).wf(),
            memory.wf(),
        ensures
            final(self).wf(),
            final(self)@ == old(self)@.render_scanline(memory@),
            final(self).mode == old(self).mode,
            final(self).line == old(self).line,
    {
        let lcdc = memory.read_io_direct(0x40);
        let line = self.line as usize;
        if line >= SCREEN_HEIGHT {
            return ;
        }
        self.scanline_bg_info = [1;160];
        assert(self.scanline_bg_info@ =~= Seq::new(160, |i: int| 1u8));
        if lcdc & 0x01 != 0 {
            if self.cgb_mode {
                self.render_background_gbc(memory, line);
            } else {
                self.render_background_dmg(memory, line);
            }
        } else {
            self.fill_white(line);
        }
        if lcdc & 0x20 != 0 {
            if self.cgb_mode {
                self.render_window_gbc(memory, line);
            } else {
                self.render_window_dmg(memory, line);
            }
        }
        if lcdc & 0x02 != 0 {
            if self.cgb_mode {
                self.render_sprites_gbc(memory, line);
            } else {
                self.render_sprites_dmg(memory, line);
            }
        }
    }

    /// Advances the PPU by `cycles` T-cycles.
    pub fn tick(&mut self, cycles: u32, memory: &mut Memory, interrupts: &InterruptController)
        requires
            old(self).wf(),
            old(memory).wf(),
            old(self).cycles + cycles <= u32::MAX,
        ensures
            final(self).wf(),
            final(memory).wf(),
            final(self)@ == old(self)@.tick(old(memory)@, cycles).0,
            final(memory)@ == old(self)@.tick(old(memory)@, cycles).1,
    {
        let lcdc = memory.read_io_direct(0x40);
        if lcdc & 0x80 == 0 {
            self.mode = PpuMode::HBlank;
            self.cycles = 0;
            self.line = 0;
            memory.write_io_direct(0x44, 0);
            return ;
        }
        self.cycles += cycles;
        match self.mode {
            PpuMode::OamScan => {
                if self.cycles >= OAM_SCAN_CYCLES {
                    self.cycles -= OAM_SCAN_CYCLES;
                    self.mode = PpuMode::Drawing;
                }
            },
            PpuMode::Drawing => {
                if self.cycles >= DRAWING_CYCLES {
                    self.cycles -= DRAWING_CYCLES;
                    self.render_scanline(memory);
                    self.mode = PpuMode::HBlank;
                    memory.tick_hdma_hblank();
                    Ppu::request_stat(memory, interrupts, 0x08);
                }
            },
            PpuMode::HBlank => {
                if self.cycles >= HBLANK_CYCLES {
                    self.cycles -= HBLANK_CYCLES;
                    self.line += 1;
                    memory.write_io_direct(0x44, self.line);
                    self.check_lyc_coincidence(memory, interrupts);
                    if self.line >= SCREEN_HEIGHT as u8 {
                        self.mode = PpuMode::VBlank;
                        self.window_line_counter = 0;
                        self.frame_ready = true;
                        interrupts.request(Interrupt::VBlank, memory);
                        Ppu::request_stat(memory, interrupts, 0x10);
                    } else {
                        self.mode = PpuMode::OamScan;
                        Ppu::request_stat(memory, interrupts, 0x20);
                    }
                }
            },
            PpuMode::VBlank => {
                if self.cycles >= SCANLINE_CYCLES {
                    self.cycles -= SCANLINE_CYCLES;
                    self.line += 1;
                    if self.line >= TOTAL_LINES as u8 {
                        self.line = 0;
                        self.mode = PpuMode::OamScan;
                        Ppu::request_stat(memory, interrupts, 0x20);
                    }
                    memory.write_io_direct(0x44, self.line);
                    self.check_lyc_coincidence(memory, interrupts);
                }
            },
        }
        let stat = memory.read_io_direct(0x41);
        memory.write_io_direct(0x41, (stat & 0xFC) | self.mode.as_u8());
    }

    /// Takes the frame-ready pulse: true once after each V-blank entry.
    pub fn frame_ready(&mut self) -> (r: bool)
        ensures
            r == old(self)@.frame_ready,
            final(self)@ == (PpuView { frame_ready: false, ..old(self)@ }),
    {
        let r = self.frame_ready;
        self.frame_ready = false;
        r
    }

    /// The RGBA frame buffer.
    pub fn get_buffer(&self) -> (r: &Vec<u8>)
        ensures
            r@ == self@.buffer,
    {
        &self.buffer
    }

    /// Mode, line and counters for debugging.
    pub fn get_debug_state(&self) -> (r: PpuDebugState)
        ensures
            r.mode == self@.mode.number(),
            r.mode_name@ == self@.mode.name_spec(),
            r.line == self@.line,
            r.cycles == self@.cycles,
            r.window_line_counter == self@.window_line_counter,
    {
        PpuDebugState {
            mode: self.mode.as_u8(),
            mode_name: self.mode.name(),
            line: self.line,
            cycles: self.cycles,
            window_line_counter: self.window_line_counter,
        }
    }

    /// Number of non-zero bytes in the frame buffer.
    pub fn count_non_zero_pixels(&self) -> (r: usize)
        ensures
            r == laws::non_zero_count(self@.buffer),
    {
        let mut count: usize = 0;
        let mut i: usize = 0;
        while i < self.buffer.len()
            invariant
                i <= self.buffer@.len(),
                count <= i,
                count == laws::non_zero_count(self.buffer@.subrange(0, i as int)),
            decreases self.buffer@.len() - i,
        {
            proof {
                laws::lemma_non_zero_step(self.buffer@, i as int);
            }
            if self.buffer[i] != 0 {
                count += 1;
            }
            i += 1;
        }
        assert(self.buffer@.subrange(0, self.buffer@.len() as int) =~= self.buffer@);
        count
    }
}

} // verus!
