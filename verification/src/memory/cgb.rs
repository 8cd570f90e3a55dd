//! Game Boy Color state that sits beside the memory map: palette RAM, bank
//! selection, the speed switch and HDMA bookkeeping.

use vstd::prelude::*;

verus! {

/// Color-mode registers that sit beside the memory map.
pub struct Cgb {
    /// Color mode, fixed when a ROM is loaded.
    pub mode: bool,
    /// BG palette RAM: 8 palettes of 4 colours of 2 bytes (RGB555, low byte first).
    pub bg_palette_ram: [u8; 64],
    /// OBJ palette RAM, same layout.
    pub obj_palette_ram: [u8; 64],
    /// BG palette index register: bit 7 auto-increment, bits 0-5 address.
    pub bcps: u8,
    /// OBJ palette index register, same layout.
    pub ocps: u8,
    /// Selected VRAM bank, 0 or 1.
    pub vram_bank: usize,
    /// Selected switchable WRAM bank, 1 to 7.
    pub wram_bank: usize,
    pub double_speed: bool,
    /// A speed switch was requested and fires on the next STOP.
    pub speed_armed: bool,
    pub hdma_source: u16,
    pub hdma_dest: u16,
    /// Blocks of 16 bytes left in an H-blank transfer, minus one.
    pub hdma_len: u8,
    pub hdma_active: bool,
    pub hdma_hblank: bool,
}

/// The color-mode state with palette RAM as sequences of bytes.
pub struct CgbView {
    pub mode: bool,
    pub bg_palette_ram: Seq<u8>,
    pub obj_palette_ram: Seq<u8>,
    pub bcps: u8,
    pub ocps: u8,
    pub vram_bank: usize,
    pub wram_bank: usize,
    pub double_speed: bool,
    pub speed_armed: bool,
    pub hdma_source: u16,
    pub hdma_dest: u16,
    pub hdma_len: u8,
    pub hdma_active: bool,
    pub hdma_hblank: bool,
}

impl View for Cgb {
    type V = CgbView;

    open spec fn view(&self) -> CgbView {
        CgbView {
            mode: self.mode,
            bg_palette_ram: self.bg_palette_ram@,
            obj_palette_ram: self.obj_palette_ram@,
            bcps: self.bcps,
            ocps: self.ocps,
            vram_bank: self.vram_bank,
            wram_bank: self.wram_bank,
            double_speed: self.double_speed,
            speed_armed: self.speed_armed,
            hdma_source: self.hdma_source,
            hdma_dest: self.hdma_dest,
            hdma_len: self.hdma_len,
            hdma_active: self.hdma_active,
            hdma_hblank: self.hdma_hblank,
        }
    }
}

impl CgbView {
    /// The VRAM bank is 0 or 1 and the switchable WRAM bank 1 to 7.
    pub open spec fn wf(self) -> bool {
        &&& self.bg_palette_ram.len() == 64
        &&& self.obj_palette_ram.len() == 64
        &&& self.vram_bank <= 1
        &&& 1 <= self.wram_bank <= 7
    }

    /// State at power-on in the given mode.
    pub open spec fn power_on(mode: bool) -> CgbView {
        CgbView {
            mode,
            bg_palette_ram: Seq::new(64, |i: int| 0u8),
            obj_palette_ram: Seq::new(64, |i: int| 0u8),
            bcps: 0,
            ocps: 0,
            vram_bank: 0,
            wram_bank: 1,
            double_speed: false,
            speed_armed: false,
            hdma_source: 0,
            hdma_dest: 0,
            hdma_len: 0,
            hdma_active: false,
            hdma_hblank: false,
        }
    }

    /// Low and high byte of colour `color` of BG palette `palette`.
    pub open spec fn bg_colour(self, palette: int, color: int) -> (u8, u8) {
        (
            self.bg_palette_ram[palette * 8 + color * 2],
            self.bg_palette_ram[palette * 8 + color * 2 + 1],
        )
    }

    /// Low and high byte of colour `color` of OBJ palette `palette`.
    pub open spec fn obj_colour(self, palette: int, color: int) -> (u8, u8) {
        (
            self.obj_palette_ram[palette * 8 + color * 2],
            self.obj_palette_ram[palette * 8 + color * 2 + 1],
        )
    }

    /// The state after a speed switch: speed flipped, switch disarmed.
    pub open spec fn toggle_double_speed(self) -> CgbView {
        CgbView { double_speed: !self.double_speed, speed_armed: false, ..self }
    }
}

/// A palette index register after a data write: with bit 7 set the 6-bit
/// address advances by one and wraps at 0x40; bit 7 stays.
pub open spec fn palette_index_advanced(index: u8) -> u8 {
    if index & 0x80 != 0 {
        (index & 0x80) | (next_byte(index) & 0x3F)
    } else {
        index
    }
}

/// The next byte value, 0 after 255.
pub open spec fn next_byte(b: u8) -> u8 {
    if b == 255 {
        0
    } else {
        (b + 1) as u8
    }
}

impl Cgb {
    /// Palette RAM has its size and the banks are in range.
    pub open spec fn wf(&self) -> bool {
        self@.wf()
    }

    /// Power-on state in monochrome mode.
    pub fn new() -> (r: Cgb)
        ensures
            r.wf(),
            r@ == CgbView::power_on(false),
    {
        let r = Cgb {
            mode: false,
            bg_palette_ram: [0;64],
            obj_palette_ram: [0;64],
            bcps: 0,
            ocps: 0,
            vram_bank: 0,
            wram_bank: 1,
            double_speed: false,
            speed_armed: false,
            hdma_source: 0,
            hdma_dest: 0,
            hdma_len: 0,
            hdma_active: false,
            hdma_hblank: false,
        };
        assert(r.bg_palette_ram@ =~= Seq::new(64, |i: int| 0u8));
        assert(r.obj_palette_ram@ =~= Seq::new(64, |i: int| 0u8));
        r
    }

    /// Reads colour `color` (0..=3) of BG palette `palette` (0..=7).
    pub fn read_bg_palette(&self, palette: usize, color: usize) -> (r: (u8, u8))
        requires
            palette < 8,
            color < 4,
        ensures
            r == self@.bg_colour(palette as int, color as int),
    {
        let offset = palette * 8 + color * 2;
        (self.bg_palette_ram[offset], self.bg_palette_ram[offset + 1])
    }

    /// Reads colour `color` (0..=3) of OBJ palette `palette` (0..=7).
    pub fn read_obj_palette(&self, palette: usize, color: usize) -> (r: (u8, u8))
        requires
            palette < 8,
            color < 4,
        ensures
            r == self@.obj_colour(palette as int, color as int),
    {
        let offset = palette * 8 + color * 2;
        (self.obj_palette_ram[offset], self.obj_palette_ram[offset + 1])
    }

    /// Flips the CPU speed and disarms the switch.
    pub fn toggle_double_speed(&mut self)
        ensures
            final(self)@ == old(self)@.toggle_double_speed(),
    {
        self.double_speed = !self.double_speed;
        self.speed_armed = false;
    }
}

} // verus!
