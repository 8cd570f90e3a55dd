//! The 16-bit address space: cartridge, video and work RAM, OAM, I/O and HRAM.
//!
//! | Range         | Contents                               |
//! |---------------|----------------------------------------|
//! | 0x0000-0x7FFF | cartridge ROM and controller registers |
//! | 0x8000-0x9FFF | VRAM (two banks in color mode)         |
//! | 0xA000-0xBFFF | cartridge RAM window                   |
//! | 0xC000-0xDFFF | WRAM (bank 0 fixed, then switchable)   |
//! | 0xE000-0xFDFF | echo of 0xC000-0xDDFF                  |
//! | 0xFE00-0xFE9F | OAM                                    |
//! | 0xFEA0-0xFEFF | unusable, reads 0xFF                   |
//! | 0xFF00-0xFF7F | I/O registers                          |
//! | 0xFF80-0xFFFE | HRAM                                   |
//! | 0xFFFF        | interrupt enable                       |

pub mod camera;
pub mod camera_laws;
pub mod cartridge;
pub mod cgb;
pub mod io;
pub mod laws;
pub mod rtc;

use crate::bits::{lemma_u16_mask_bounds, lemma_u8_mask_bounds};
use crate::error::EmuError;
use camera::{CameraView, SensorSettings};
use cartridge::header::{parse_header, ram_size_of};
use cartridge::{copy_of, made_cartridge, make_cartridge, Cartridge, CartridgeView, MbcType};
use cgb::{palette_index_advanced, Cgb, CgbView};
use vstd::prelude::*;

verus! {

/// Banking state, for debugging.
pub struct MemoryDebugState {
    pub rom_bank: u16,
    pub ram_bank: u8,
    pub ram_enabled: bool,
    pub mbc_type: MbcType,
}

/// A few I/O registers, for debugging.
pub struct IoState {
    pub lcdc: u8,
    pub stat: u8,
    pub ly: u8,
    pub ie: u8,
    pub if_reg: u8,
    pub scy: u8,
    pub scx: u8,
    pub bgp: u8,
}

/// Everything the 16-bit address space reaches but joypad and timer.
pub struct Memory {
    pub cartridge: Cartridge,
    /// Two banks of 8 KB.
    pub vram: [u8; 0x4000],
    /// Eight banks of 4 KB.
    pub wram: [u8; 0x8000],
    pub oam: [u8; 0xA0],
    pub io: [u8; 0x80],
    pub hram: [u8; 0x7F],
    pub ie: u8,
    pub cgb: Cgb,
    /// Bytes sent through the serial port.
    pub serial_output: Vec<u8>,
}

/// Memory as sequences of bytes.
pub struct MemoryView {
    pub cart: CartridgeView,
    pub vram: Seq<u8>,
    pub wram: Seq<u8>,
    pub oam: Seq<u8>,
    pub io: Seq<u8>,
    pub hram: Seq<u8>,
    pub ie: u8,
    pub cgb: CgbView,
    pub serial: Seq<u8>,
}

impl View for Memory {
    type V = MemoryView;

    open spec fn view(&self) -> MemoryView {
        MemoryView {
            cart: self.cartridge@,
            vram: self.vram@,
            wram: self.wram@,
            oam: self.oam@,
            io: self.io@,
            hram: self.hram@,
            ie: self.ie,
            cgb: self.cgb@,
            serial: self.serial_output@,
        }
    }
}

/// Value of I/O register `offset` after power-on.
pub open spec fn io_default(offset: int) -> u8 {
    if offset == 0x00 {
        0xCF
    } else if offset == 0x02 {
        0x7E
    } else if offset == 0x04 {
        0xAB
    } else if offset == 0x07 {
        0xF8
    } else if offset == 0x0F {
        0xE1
    } else if offset == 0x40 {
        0x91
    } else if offset == 0x41 {
        0x85
    } else if offset == 0x47 {
        0xFC
    } else if offset == 0x48 {
        0xFF
    } else if offset == 0x49 {
        0xFF
    } else {
        0x00
    }
}

/// Whether `offset` is one of the color-only registers that a monochrome
/// session leaves on the open bus.
pub open spec fn is_cgb_register(offset: int) -> bool {
    offset == 0x4D || offset == 0x4F || (0x51 <= offset <= 0x55) || offset == 0x68 || offset
        == 0x69 || offset == 0x6A || offset == 0x6B || offset == 0x70
}

/// Source address of HDMA from registers HDMA1 and HDMA2.
pub open spec fn hdma_source_of(hi: u8, lo: u8) -> u16 {
    (((hi as u16) << 8) | (lo as u16)) & 0xFFF0
}

/// Destination address of HDMA from registers HDMA3 and HDMA4, inside VRAM.
pub open spec fn hdma_dest_of(hi: u8, lo: u8) -> u16 {
    0x8000u16 | ((((hi as u16) << 8) | (lo as u16)) & 0x1FF0)
}

impl MemoryView {
    /// Every area has its size, the banks are in range, the cartridge is well-formed.
    pub open spec fn wf(self) -> bool {
        &&& self.cart.wf()
        &&& self.cgb.wf()
        &&& self.vram.len() == 0x4000
        &&& self.wram.len() == 0x8000
        &&& self.oam.len() == 0xA0
        &&& self.io.len() == 0x80
        &&& self.hram.len() == 0x7F
    }

    /// Memory at power-on around the given cartridge: RAM cleared, I/O
    /// registers at their defaults.
    pub open spec fn power_on(cart: CartridgeView, cgb_mode: bool) -> MemoryView {
        MemoryView {
            cart,
            vram: Seq::new(0x4000, |i: int| 0u8),
            wram: Seq::new(0x8000, |i: int| 0u8),
            oam: Seq::new(0xA0, |i: int| 0u8),
            io: Seq::new(0x80, |i: int| io_default(i)),
            hram: Seq::new(0x7F, |i: int| 0u8),
            ie: 0,
            cgb: CgbView::power_on(cgb_mode),
            serial: Seq::empty(),
        }
    }

    /// Memory after a ROM image of at least 0x150 bytes is loaded: the
    /// cartridge its header asks for, everything else as at power-on.
    pub open spec fn loaded(data: Seq<u8>, cgb_mode: bool) -> MemoryView {
        Self::power_on(
            made_cartridge(data, data[0x0147], ram_size_of(data) as usize),
            cgb_mode,
        )
    }

    /// Index into VRAM of address `addr` (0x8000..=0x9FFF) in the bank the
    /// CPU sees: always bank 0 outside color mode.
    pub open spec fn vram_index(self, addr: u16) -> int {
        (if self.cgb.mode {
            self.cgb.vram_bank as int
        } else {
            0
        }) * 0x2000 + (addr - 0x8000)
    }

    /// Index into WRAM of address `addr` in 0xC000..=0xFDFF: bank 0 in the
    /// lower 4 KB, the selected bank (1 outside color mode) in the upper; the
    /// echo area maps like the area it mirrors.
    pub open spec fn wram_index(self, addr: u16) -> int {
        let off = (addr - 0xC000) % 0x2000;
        if off < 0x1000 {
            off
        } else {
            (if self.cgb.mode {
                self.cgb.wram_bank as int
            } else {
                1
            }) * 0x1000 + (off - 0x1000)
        }
    }

    /// KEY1: bit 7 current speed, bit 0 switch armed, other bits 1.
    pub open spec fn key1(self) -> u8 {
        (if self.cgb.double_speed {
            0x80u8
        } else {
            0u8
        }) | 0x7E | (if self.cgb.speed_armed {
            1u8
        } else {
            0u8
        })
    }

    /// What a read of I/O register `offset` returns. Color-only registers read
    /// 0xFF outside color mode; the upper three bits of IF read 1.
    pub open spec fn read_io(self, offset: int) -> u8 {
        if offset == 0x0F {
            self.io[0x0F] | 0xE0
        } else if offset == 0x56 {
            0xFF
        } else if is_cgb_register(offset) && !self.cgb.mode {
            0xFF
        } else if offset == 0x4D {
            self.key1()
        } else if offset == 0x4F {
            (self.cgb.vram_bank as u8) | 0xFE
        } else if offset == 0x68 {
            self.cgb.bcps | 0x40
        } else if offset == 0x69 {
            self.cgb.bg_palette_ram[(self.cgb.bcps & 0x3F) as int]
        } else if offset == 0x6A {
            self.cgb.ocps | 0x40
        } else if offset == 0x6B {
            self.cgb.obj_palette_ram[(self.cgb.ocps & 0x3F) as int]
        } else if offset == 0x70 {
            (self.cgb.wram_bank as u8) | 0xF8
        } else {
            self.io[offset]
        }
    }

    /// What a read of `addr` returns. Joypad and timer registers are served
    /// one level up, by the bus.
    pub open spec fn read(self, addr: u16) -> u8 {
        if addr < 0x8000 {
            self.cart.read_rom(addr)
        } else if addr < 0xA000 {
            self.vram[self.vram_index(addr)]
        } else if addr < 0xC000 {
            self.cart.read_ram(addr)
        } else if addr < 0xFE00 {
            self.wram[self.wram_index(addr)]
        } else if addr < 0xFEA0 {
            self.oam[addr - 0xFE00]
        } else if addr < 0xFF00 {
            0xFF
        } else if addr < 0xFF80 {
            self.read_io(addr - 0xFF00)
        } else if addr < 0xFFFF {
            self.hram[addr - 0xFF80]
        } else {
            self.ie
        }
    }

    /// A byte of either VRAM bank, whatever bank is selected; 0xFF outside VRAM.
    pub open spec fn read_vram_bank(self, bank: int, addr: u16) -> u8 {
        if 0x8000 <= addr < 0xA000 {
            self.vram[(bank % 2) * 0x2000 + (addr - 0x8000)]
        } else {
            0xFF
        }
    }

    /// OAM after a DMA from page `value`: byte `i` is what `value * 0x100 + i` read.
    pub open spec fn dma_oam(self, value: u8) -> Seq<u8> {
        Seq::new(0xA0, |i: int| self.read((value * 0x100 + i) as u16))
    }

    /// VRAM after `n` bytes are copied from `source` on to `dest` on (both
    /// wrapping, the destination inside the selected bank).
    pub open spec fn hdma_vram(self, source: u16, dest: u16, n: int) -> Seq<u8> {
        Seq::new(
            0x4000,
            |k: int|
                {
                    let rel = k - self.cgb.vram_bank * 0x2000;
                    let i = (rel - (dest & 0x1FFF)) % 0x2000;
                    if 0 <= rel < 0x2000 && i < n {
                        self.read(((source + i) % 0x10000) as u16)
                    } else {
                        self.vram[k]
                    }
                },
        )
    }

    /// Memory after a write to HDMA5 in color mode: bit 7 clear copies
    /// `(value & 0x7F) + 1` blocks of 16 bytes at once; bit 7 set arms an
    /// H-blank transfer of as many blocks.
    pub open spec fn start_hdma(self, value: u8) -> MemoryView {
        let source = hdma_source_of(self.io[0x51], self.io[0x52]);
        let dest = hdma_dest_of(self.io[0x53], self.io[0x54]);
        if value & 0x80 == 0 {
            MemoryView {
                vram: self.hdma_vram(source, dest, ((value & 0x7F) + 1) * 16),
                io: self.io.update(0x55, 0xFF),
                cgb: CgbView {
                    hdma_source: source,
                    hdma_dest: dest,
                    hdma_active: false,
                    ..self.cgb
                },
                ..self
            }
        } else {
            MemoryView {
                io: self.io.update(0x55, value & 0x7F),
                cgb: CgbView {
                    hdma_source: source,
                    hdma_dest: dest,
                    hdma_len: value & 0x7F,
                    hdma_active: true,
                    hdma_hblank: true,
                    ..self.cgb
                },
                ..self
            }
        }
    }

    /// Memory after one H-blank with a transfer armed: 16 bytes copied, source
    /// and destination advanced, one block fewer to go or the transfer ended.
    pub open spec fn tick_hdma_hblank(self) -> MemoryView {
        if !self.cgb.hdma_active || !self.cgb.hdma_hblank {
            self
        } else {
            MemoryView {
                vram: self.hdma_vram(self.cgb.hdma_source, self.cgb.hdma_dest, 16),
                io: self.io.update(
                    0x55,
                    if self.cgb.hdma_len == 0 {
                        0xFF
                    } else {
                        (self.cgb.hdma_len - 1) as u8
                    },
                ),
                cgb: CgbView {
                    hdma_source: ((self.cgb.hdma_source + 16) % 0x10000) as u16,
                    hdma_dest: ((self.cgb.hdma_dest + 16) % 0x10000) as u16,
                    hdma_len: if self.cgb.hdma_len == 0 {
                        0
                    } else {
                        (self.cgb.hdma_len - 1) as u8
                    },
                    hdma_active: self.cgb.hdma_len != 0,
                    ..self.cgb
                },
                ..self
            }
        }
    }

    /// Memory after a write to a color-only register in color mode.
    pub open spec fn write_cgb_io(self, offset: int, value: u8) -> MemoryView {
        if offset == 0x4D {
            MemoryView { cgb: CgbView { speed_armed: value & 1 != 0, ..self.cgb }, ..self }
        } else if offset == 0x4F {
            MemoryView { cgb: CgbView { vram_bank: (value & 1) as usize, ..self.cgb }, ..self }
        } else if 0x51 <= offset <= 0x54 {
            MemoryView { io: self.io.update(offset, value), ..self }
        } else if offset == 0x55 {
            self.start_hdma(value)
        } else if offset == 0x68 {
            MemoryView { cgb: CgbView { bcps: value, ..self.cgb }, ..self }
        } else if offset == 0x69 {
            MemoryView {
                cgb: CgbView {
                    bg_palette_ram: self.cgb.bg_palette_ram.update(
                        (self.cgb.bcps & 0x3F) as int,
                        value,
                    ),
                    bcps: palette_index_advanced(self.cgb.bcps),
                    ..self.cgb
                },
                ..self
            }
        } else if offset == 0x6A {
            MemoryView { cgb: CgbView { ocps: value, ..self.cgb }, ..self }
        } else if offset == 0x6B {
            MemoryView {
                cgb: CgbView {
                    obj_palette_ram: self.cgb.obj_palette_ram.update(
                        (self.cgb.ocps & 0x3F) as int,
                        value,
                    ),
                    ocps: palette_index_advanced(self.cgb.ocps),
                    ..self.cgb
                },
                ..self
            }
        } else {
            MemoryView {
                cgb: CgbView {
                    wram_bank: if value & 7 == 0 {
                        1
                    } else {
                        (value & 7) as usize
                    },
                    ..self.cgb
                },
                ..self
            }
        }
    }

    /// Memory after a write to I/O register `offset`: SC with bit 7 set sends
    /// SB to the serial output and clears the bit, DIV clears, LY and RP are
    /// read-only, DMA copies a page into OAM, color-only registers are ignored
    /// outside color mode.
    pub open spec fn write_io(self, offset: int, value: u8) -> MemoryView {
        if offset == 0x02 {
            if value & 0x80 != 0 {
                MemoryView {
                    io: self.io.update(0x02, value & 0x7F),
                    serial: self.serial.push(self.io[0x01]),
                    ..self
                }
            } else {
                MemoryView { io: self.io.update(0x02, value), ..self }
            }
        } else if offset == 0x04 {
            MemoryView { io: self.io.update(0x04, 0), ..self }
        } else if offset == 0x44 || offset == 0x56 {
            self
        } else if offset == 0x46 {
            MemoryView { oam: self.dma_oam(value), ..self }
        } else if is_cgb_register(offset) {
            if self.cgb.mode {
                self.write_cgb_io(offset, value)
            } else {
                self
            }
        } else {
            MemoryView { io: self.io.update(offset, value), ..self }
        }
    }

    /// Memory after a write of `value` to `addr`.
    pub open spec fn write(self, addr: u16, value: u8) -> MemoryView {
        if addr < 0x8000 {
            MemoryView { cart: self.cart.write_rom(addr, value), ..self }
        } else if addr < 0xA000 {
            MemoryView { vram: self.vram.update(self.vram_index(addr), value), ..self }
        } else if addr < 0xC000 {
            MemoryView { cart: self.cart.write_ram(addr, value), ..self }
        } else if addr < 0xFE00 {
            MemoryView { wram: self.wram.update(self.wram_index(addr), value), ..self }
        } else if addr < 0xFEA0 {
            MemoryView { oam: self.oam.update(addr - 0xFE00, value), ..self }
        } else if addr < 0xFF00 {
            self
        } else if addr < 0xFF80 {
            self.write_io(addr - 0xFF00, value)
        } else if addr < 0xFFFF {
            MemoryView { hram: self.hram.update(addr - 0xFF80, value), ..self }
        } else {
            MemoryView { ie: value, ..self }
        }
    }

    /// Memory with I/O register `offset` replaced, with no side effect.
    pub open spec fn with_io(self, offset: int, value: u8) -> MemoryView {
        MemoryView { io: self.io.update(offset, value), ..self }
    }

    /// Memory with the camera replaced, on a Pocket Camera.
    pub open spec fn with_camera(self, camera: CameraView) -> MemoryView {
        MemoryView { cart: self.cart.with_camera(camera), ..self }
    }
}

/// Text of the bytes as `String::from_utf8_lossy` decodes them.
pub uninterp spec fn utf8_lossy(bytes: Seq<u8>) -> Seq<char>;

/// Decodes bytes as UTF-8 with `String::from_utf8_lossy`, which replaces
/// invalid sequences; the result is a function of the bytes alone.
#[verifier::external_body]
fn lossy_string(bytes: &Vec<u8>) -> (r: String)
    ensures
        r@ == utf8_lossy(bytes@),
{
    String::from_utf8_lossy(bytes).to_string()
}

impl Memory {
    /// The memory's view is well-formed.
    pub open spec fn wf(&self) -> bool {
        self@.wf()
    }

    /// Memory at power-on in monochrome mode with an empty ROM-only cartridge.
    pub fn new() -> (r: Memory)
        ensures
            r.wf(),
            r@ == MemoryView::power_on(CartridgeView::RomOnly(Seq::empty()), false),
    {
        let mut mem = Memory {
            cartridge: Cartridge::RomOnly(cartridge::none::NoMbc::new(Vec::new())),
            vram: [0;0x4000],
            wram: [0;0x8000],
            oam: [0;0xA0],
            io: [0;0x80],
            hram: [0;0x7F],
            ie: 0,
            cgb: Cgb::new(),
            serial_output: Vec::new(),
        };
        mem.init_io_defaults();
        proof {
            let v = MemoryView::power_on(CartridgeView::RomOnly(Seq::empty()), false);
            assert(mem@.vram =~= v.vram);
            assert(mem@.wram =~= v.wram);
            assert(mem@.oam =~= v.oam);
            assert(mem@.io =~= v.io);
            assert(mem@.hram =~= v.hram);
        }
        mem
    }

    fn init_io_defaults(&mut self)
        requires
            forall|i: int| 0 <= i < 0x80 ==> old(self).io@[i] == 0,
        ensures
            final(self)@ == (MemoryView {
                io: Seq::new(0x80, |i: int| io_default(i)),
                ..old(self)@
            }),
    {
        self.io[0x00] = 0xCF;
        self.io[0x02] = 0x7E;
        self.io[0x04] = 0xAB;
        self.io[0x07] = 0xF8;
        self.io[0x0F] = 0xE1;
        self.io[0x40] = 0x91;
        self.io[0x41] = 0x85;
        self.io[0x47] = 0xFC;
        self.io[0x48] = 0xFF;
        self.io[0x49] = 0xFF;
        assert(self.io@ =~= Seq::new(0x80, |i: int| io_default(i)));
    }

    /// Power-cycles the machine around a new ROM image. An image shorter than
    /// its header is refused and nothing changes.
    pub fn load_rom(&mut self, data: &[u8], cgb_mode: bool) -> (r: Result<(), EmuError>)
        requires
            old(self).wf(),
        ensures
            final(self).wf(),
            data@.len() < 0x150 ==> r == Err::<(), EmuError>(EmuError::RomTooSmall)
                && final(self)@ == old(self)@,
            data@.len() >= 0x150 ==> r.is_ok() && final(self)@ == MemoryView::loaded(
                data@,
                cgb_mode,
            ),
    {
        let header = match parse_header(data) {
            Some(header) => header,
            None => {
                return Err(EmuError::RomTooSmall);
            },
        };
        self.vram = [0;0x4000];
        self.wram = [0;0x8000];
        self.oam = [0;0xA0];
        self.io = [0;0x80];
        self.hram = [0;0x7F];
        self.ie = 0;
        self.cgb = Cgb::new();
        self.cgb.mode = cgb_mode;
        self.serial_output = Vec::new();
        self.init_io_defaults();
        self.cartridge = make_cartridge(copy_of(data), header.cart_type, header.ram_size);
        proof {
            let v = MemoryView::loaded(data@, cgb_mode);
            assert(self@.vram =~= v.vram);
            assert(self@.wram =~= v.wram);
            assert(self@.oam =~= v.oam);
            assert(self@.hram =~= v.hram);
            assert(self@.cgb == v.cgb);
        }
        Ok(())
    }

    fn wram_offset(&self, addr: u16) -> (r: usize)
        requires
            self.wf(),
            0xC000 <= addr < 0xFE00,
        ensures
            r == self@.wram_index(addr),
            r < 0x8000,
    {
        let off = (addr as usize - 0xC000) % 0x2000;
        if off < 0x1000 {
            off
        } else {
            let bank = if self.cgb.mode {
                self.cgb.wram_bank
            } else {
                1
            };
            bank * 0x1000 + (off - 0x1000)
        }
    }

    fn vram_offset(&self, addr: u16) -> (r: usize)
        requires
            self.wf(),
            0x8000 <= addr < 0xA000,
        ensures
            r == self@.vram_index(addr),
            r < 0x4000,
    {
        let bank = if self.cgb.mode {
            self.cgb.vram_bank
        } else {
            0
        };
        bank * 0x2000 + (addr as usize - 0x8000)
    }

    /// Reads the byte at `addr`.
    pub fn read(&self, addr: u16) -> (r: u8)
        requires
            self.wf(),
        ensures
            r == self@.read(addr),
    {
        if addr < 0x8000 {
            self.cartridge.read_rom(addr)
        } else if addr < 0xA000 {
            self.vram[self.vram_offset(addr)]
        } else if addr < 0xC000 {
            self.cartridge.read_ram(addr)
        } else if addr < 0xFE00 {
            self.wram[self.wram_offset(addr)]
        } else if addr < 0xFEA0 {
            self.oam[(addr - 0xFE00) as usize]
        } else if addr < 0xFF00 {
            0xFF
        } else if addr < 0xFF80 {
            self.read_io(addr)
        } else if addr < 0xFFFF {
            self.hram[(addr - 0xFF80) as usize]
        } else {
            self.ie
        }
    }

    fn read_io(&self, addr: u16) -> (r: u8)
        requires
            self.wf(),
            0xFF00 <= addr < 0xFF80,
        ensures
            r == self@.read_io(addr - 0xFF00),
    {
        proof {
            lemma_u8_mask_bounds();
        }
        let offset = (addr - 0xFF00) as usize;
        let cgb_only = offset == 0x4D || offset == 0x4F || (0x51 <= offset && offset <= 0x55)
            || offset == 0x68 || offset == 0x69 || offset == 0x6A || offset == 0x6B || offset
            == 0x70;
        if offset == 0x0F {
            self.io[0x0F] | 0xE0
        } else if offset == 0x56 {
            0xFF
        } else if cgb_only && !self.cgb.mode {
            0xFF
        } else if offset == 0x4D {
            let speed: u8 = if self.cgb.double_speed {
                0x80
            } else {
                0
            };
            let armed: u8 = if self.cgb.speed_armed {
                1
            } else {
                0
            };
            speed | 0x7E | armed
        } else if offset == 0x4F {
            (self.cgb.vram_bank as u8) | 0xFE
        } else if offset == 0x68 {
            self.cgb.bcps | 0x40
        } else if offset == 0x69 {
            self.cgb.bg_palette_ram[(self.cgb.bcps & 0x3F) as usize]
        } else if offset == 0x6A {
            self.cgb.ocps | 0x40
        } else if offset == 0x6B {
            self.cgb.obj_palette_ram[(self.cgb.ocps & 0x3F) as usize]
        } else if offset == 0x70 {
            (self.cgb.wram_bank as u8) | 0xF8
        } else {
            self.io[offset]
        }
    }

    /// Writes `value` at `addr`, with the side effects of the register or
    /// controller that lives there.
    pub fn write(&mut self, addr: u16, value: u8)
        requires
            old(self).wf(),
        ensures
            final(self).wf(),
            final(self)@ == old(self)@.write(addr, value),
    {
        if addr < 0x8000 {
            self.cartridge.write_rom(addr, value);
        } else if addr < 0xA000 {
            let i = self.vram_offset(addr);
            self.vram[i] = value;
        } else if addr < 0xC000 {
            self.cartridge.write_ram(addr, value);
        } else if addr < 0xFE00 {
            let i = self.wram_offset(addr);
            self.wram[i] = value;
        } else if addr < 0xFEA0 {
            self.oam[(addr - 0xFE00) as usize] = value;
        } else if addr < 0xFF00 {
        } else if addr < 0xFF80 {
            self.write_io(addr, value);
        } else if addr < 0xFFFF {
            self.hram[(addr - 0xFF80) as usize] = value;
        } else {
            self.ie = value;
        }
    }

    fn write_io(&mut self, addr: u16, value: u8)
        requires
            old(self).wf(),
            0xFF00 <= addr < 0xFF80,
        ensures
            final(self).wf(),
            final(self)@ == old(self)@.write_io(addr - 0xFF00, value),
    {
        let offset = (addr - 0xFF00) as usize;
        let cgb_only = offset == 0x4D || offset == 0x4F || (0x51 <= offset && offset <= 0x55)
            || offset == 0x68 || offset == 0x69 || offset == 0x6A || offset == 0x6B || offset
            == 0x70;
        if offset == 0x02 {
            if value & 0x80 != 0 {
                let sb = self.io[0x01];
                self.serial_output.push(sb);
                self.io[0x02] = value & 0x7F;
            } else {
                self.io[0x02] = value;
            }
        } else if offset == 0x04 {
            self.io[0x04] = 0;
        } else if offset == 0x44 || offset == 0x56 {
        } else if offset == 0x46 {
            self.dma_transfer(value);
        } else if cgb_only {
            if self.cgb.mode {
                self.write_cgb_io(offset, value);
            }
        } else {
            self.io[offset] = value;
        }
    }

    fn write_cgb_io(&mut self, offset: usize, value: u8)
        requires
            old(self).wf(),
            is_cgb_register(offset as int),
        ensures
            final(self).wf(),
            final(self)@ == old(self)@.write_cgb_io(offset as int, value),
    {
        proof {
            lemma_u8_mask_bounds();
        }
        if offset == 0x4D {
            self.cgb.speed_armed = value & 1 != 0;
        } else if offset == 0x4F {
            self.cgb.vram_bank = (value & 1) as usize;
        } else if 0x51 <= offset && offset <= 0x54 {
            self.io[offset] = value;
        } else if offset == 0x55 {
            self.start_hdma(value);
        } else if offset == 0x68 {
            self.cgb.bcps = value;
        } else if offset == 0x69 {
            self.cgb.bg_palette_ram[(self.cgb.bcps & 0x3F) as usize] = value;
            if self.cgb.bcps & 0x80 != 0 {
                self.cgb.bcps = (self.cgb.bcps & 0x80) | (self.cgb.bcps.wrapping_add(1) & 0x3F);
            }
        } else if offset == 0x6A {
            self.cgb.ocps = value;
        } else if offset == 0x6B {
            self.cgb.obj_palette_ram[(self.cgb.ocps & 0x3F) as usize] = value;
            if self.cgb.ocps & 0x80 != 0 {
                self.cgb.ocps = (self.cgb.ocps & 0x80) | (self.cgb.ocps.wrapping_add(1) & 0x3F);
            }
        } else {
            self.cgb.wram_bank = if value & 7 == 0 {
                1
            } else {
                (value & 7) as usize
            };
        }
    }

    fn dma_transfer(&mut self, value: u8)
        requires
            old(self).wf(),
        ensures
            final(self).wf(),
            final(self)@ == (MemoryView { oam: old(self)@.dma_oam(value), ..old(self)@ }),
    {
        let source: u16 = value as u16 * 0x100;
        let mut page: [u8; 0xA0] = [0;0xA0];
        let mut i: usize = 0;
        while i < 0xA0
            invariant
                i <= 0xA0,
                self.wf(),
                source == value * 0x100,
                forall|k: int| 0 <= k < i ==> page@[k] == self@.read((value * 0x100 + k) as u16),
            decreases 0xA0 - i,
        {
            page[i] = self.read(source + i as u16);
            i += 1;
        }
        assert(page@ =~= self@.dma_oam(value));
        self.oam = page;
    }

    /// Copies `n` bytes from `source` into the selected VRAM bank at `dest`.
    fn hdma_copy(&mut self, source: u16, dest: u16, n: usize)
        requires
            old(self).wf(),
            n <= 2048,
        ensures
            final(self).wf(),
            final(self)@ == (MemoryView {
                vram: old(self)@.hdma_vram(source, dest, n as int),
                ..old(self)@
            }),
    {
        proof {
            lemma_u16_mask_bounds();
        }
        let mut block: Vec<u8> = Vec::new();
        let mut i: usize = 0;
        while i < n
            invariant
                i <= n,
                n <= 2048,
                self.wf(),
                block@.len() == i,
                forall|k: int|
                    0 <= k < i ==> block@[k] == self@.read(((source + k) % 0x10000) as u16),
            decreases n - i,
        {
            block.push(self.read(source.wrapping_add(i as u16)));
            i += 1;
        }
        let base = self.cgb.vram_bank * 0x2000;
        let start = (dest & 0x1FFF) as usize;
        let ghost before = self@;
        i = 0;
        while i < n
            invariant
                i <= n,
                n <= 2048,
                block@.len() == n,
                base == before.cgb.vram_bank * 0x2000,
                before.cgb.vram_bank <= 1,
                start == dest & 0x1FFF,
                start < 0x2000,
                self@ == (MemoryView { vram: self.vram@, ..before }),
                forall|k: int|
                    0 <= k < 0x4000 ==> #[trigger] self.vram@[k] == if 0 <= k - base < 0x2000 && (k
                        - base - start) % 0x2000 < i {
                        block@[(k - base - start) % 0x2000]
                    } else {
                        before.vram[k]
                    },
            decreases n - i,
        {
            self.vram[base + (start + i) % 0x2000] = block[i];
            i += 1;
        }
        assert(self.vram@ =~= before.hdma_vram(source, dest, n as int));
    }

    fn start_hdma(&mut self, value: u8)
        requires
            old(self).wf(),
        ensures
            final(self).wf(),
            final(self)@ == old(self)@.start_hdma(value),
    {
        proof {
            lemma_u8_mask_bounds();
        }
        let source = (((self.io[0x51] as u16) << 8) | (self.io[0x52] as u16)) & 0xFFF0;
        let dest = 0x8000u16 | ((((self.io[0x53] as u16) << 8) | (self.io[0x54] as u16)) & 0x1FF0);
        if value & 0x80 == 0 {
            let blocks = (value & 0x7F) as usize + 1;
            self.hdma_copy(source, dest, blocks * 16);
            self.cgb.hdma_source = source;
            self.cgb.hdma_dest = dest;
            self.cgb.hdma_active = false;
            self.io[0x55] = 0xFF;
        } else {
            self.cgb.hdma_source = source;
            self.cgb.hdma_dest = dest;
            self.cgb.hdma_len = value & 0x7F;
            self.cgb.hdma_active = true;
            self.cgb.hdma_hblank = true;
            self.io[0x55] = value & 0x7F;
        }
    }

    /// Performs one H-blank step of an armed HDMA transfer.
    pub fn tick_hdma_hblank(&mut self)
        requires
            old(self).wf(),
        ensures
            final(self).wf(),
            final(self)@ == old(self)@.tick_hdma_hblank(),
    {
        if !self.cgb.hdma_active || !self.cgb.hdma_hblank {
            return ;
        }
        let source = self.cgb.hdma_source;
        let dest = self.cgb.hdma_dest;
        self.hdma_copy(source, dest, 16);
        self.cgb.hdma_source = source.wrapping_add(16);
        self.cgb.hdma_dest = dest.wrapping_add(16);
        if self.cgb.hdma_len == 0 {
            self.cgb.hdma_active = false;
            self.io[0x55] = 0xFF;
        } else {
            self.cgb.hdma_len = self.cgb.hdma_len - 1;
            self.io[0x55] = self.cgb.hdma_len;
        }
    }

    /// Reads I/O register `offset` (below 0x80) as stored, with no read mask.
    pub fn read_io_direct(&self, offset: u8) -> (r: u8)
        requires
            offset < 0x80,
        ensures
            r == self@.io[offset as int],
    {
        self.io[offset as usize]
    }

    /// Stores `value` in I/O register `offset` (below 0x80), with no side effect.
    pub fn write_io_direct(&mut self, offset: u8, value: u8)
        requires
            offset < 0x80,
        ensures
            final(self)@ == old(self)@.with_io(offset as int, value),
    {
        self.io[offset as usize] = value;
    }

    /// The interrupt enable register.
    pub fn get_ie(&self) -> (r: u8)
        ensures
            r == self@.ie,
    {
        self.ie
    }

    /// Both banks of video RAM.
    pub fn get_vram(&self) -> (r: &[u8; 0x4000])
        ensures
            r@ == self@.vram,
    {
        &self.vram
    }

    /// The 40 sprite entries.
    pub fn get_oam(&self) -> (r: &[u8; 0xA0])
        ensures
            r@ == self@.oam,
    {
        &self.oam
    }

    /// A snapshot of the save data.
    pub fn get_cartridge_ram(&self) -> (r: Vec<u8>)
        ensures
            r@ == self@.cart.ram(),
    {
        self.cartridge.ram_data()
    }

    /// Restores save data, as far as the cartridge's RAM reaches.
    pub fn load_cartridge_ram(&mut self, data: &[u8])
        requires
            old(self).wf(),
        ensures
            final(self).wf(),
            final(self)@ == (MemoryView { cart: old(self)@.cart.load_ram(data@), ..old(self)@ }),
    {
        self.cartridge.load_ram(data);
    }

    /// The bytes sent through the serial port so far.
    pub fn get_serial_output(&self) -> (r: &Vec<u8>)
        ensures
            r@ == self@.serial,
    {
        &self.serial_output
    }

    /// The serial output as text.
    pub fn get_serial_output_string(&self) -> (r: String)
        ensures
            r@ == utf8_lossy(self@.serial),
    {
        lossy_string(&self.serial_output)
    }

    /// Forgets the bytes sent through the serial port.
    pub fn clear_serial_output(&mut self)
        ensures
            final(self)@ == (MemoryView { serial: Seq::empty(), ..old(self)@ }),
    {
        self.serial_output.clear();
    }

    /// Brings an MBC3 clock up to the current host time. Whatever the host
    /// clock says, the clock afterwards is the clock before advanced to the
    /// time it is then based at; nothing else in the cartridge changes, and
    /// nothing outside it.
    pub fn tick_rtc(&mut self)
        requires
            old(self).wf(),
        ensures
            final(self).wf(),
            final(self).cartridge.is_clock_advance_of(&old(self).cartridge),
            final(self)@ == (MemoryView { cart: final(self)@.cart, ..old(self)@ }),
    {
        self.cartridge.tick_rtc();
    }

    /// The installed cartridge's controller family.
    pub fn get_mbc_type(&self) -> (r: MbcType)
        ensures
            r == self@.cart.mbc_type(),
    {
        self.cartridge.mbc_type()
    }

    /// Number of whole 16 KB banks in the ROM.
    pub fn get_rom_bank_count(&self) -> (r: usize)
        ensures
            r == cartridge::bank_count(self@.cart.rom()),
    {
        self.cartridge.rom_bank_count()
    }

    /// The banking state for debugging.
    pub fn get_debug_state(&self) -> (r: MemoryDebugState)
        ensures
            r.rom_bank == self@.cart.current_rom_bank(),
            r.ram_bank == self@.cart.current_ram_bank(),
            r.ram_enabled == self@.cart.is_ram_enabled(),
            r.mbc_type == self@.cart.mbc_type(),
    {
        MemoryDebugState {
            rom_bank: self.cartridge.current_rom_bank(),
            ram_bank: self.cartridge.current_ram_bank(),
            ram_enabled: self.cartridge.is_ram_enabled(),
            mbc_type: self.cartridge.mbc_type(),
        }
    }

    /// A few I/O registers for debugging, as stored.
    pub fn get_io_state(&self) -> (r: IoState)
        ensures
            r.lcdc == self@.io[0x40],
            r.stat == self@.io[0x41],
            r.ly == self@.io[0x44],
            r.ie == self@.ie,
            r.if_reg == self@.io[0x0F],
            r.scy == self@.io[0x42],
            r.scx == self@.io[0x43],
            r.bgp == self@.io[0x47],
    {
        IoState {
            lcdc: self.io[0x40],
            stat: self.io[0x41],
            ly: self.io[0x44],
            ie: self.ie,
            if_reg: self.io[0x0F],
            scy: self.io[0x42],
            scx: self.io[0x43],
            bgp: self.io[0x47],
        }
    }

    /// Whether LCDC bit 7 is set.
    pub fn is_lcd_enabled(&self) -> (r: bool)
        ensures
            r == (self@.io[0x40] & 0x80 != 0),
    {
        self.io[0x40] & 0x80 != 0
    }

    /// Whether the session runs in color mode.
    pub fn is_cgb_mode(&self) -> (r: bool)
        ensures
            r == self@.cgb.mode,
    {
        self.cgb.mode
    }

    /// Whether the CPU runs at double speed.
    pub fn is_double_speed(&self) -> (r: bool)
        ensures
            r == self@.cgb.double_speed,
    {
        self.cgb.double_speed
    }

    /// Flips the CPU speed and disarms the switch.
    pub fn toggle_double_speed(&mut self)
        ensures
            final(self)@ == (MemoryView {
                cgb: old(self)@.cgb.toggle_double_speed(),
                ..old(self)@
            }),
    {
        self.cgb.toggle_double_speed();
    }

    /// Reads VRAM bank `bank & 1` at `addr`, whatever bank is selected.
    pub fn read_vram_bank(&self, bank: usize, addr: u16) -> (r: u8)
        ensures
            r == self@.read_vram_bank(bank as int, addr),
    {
        if 0x8000 <= addr && addr < 0xA000 {
            self.vram[(bank % 2) * 0x2000 + (addr as usize - 0x8000)]
        } else {
            0xFF
        }
    }

    /// Reads colour `color` (0..=3) of BG palette `palette` (0..=7).
    pub fn read_bg_palette(&self, palette: usize, color: usize) -> (r: (u8, u8))
        requires
            palette < 8,
            color < 4,
        ensures
            r == self@.cgb.bg_colour(palette as int, color as int),
    {
        self.cgb.read_bg_palette(palette, color)
    }

    /// Reads colour `color` (0..=3) of OBJ palette `palette` (0..=7).
    pub fn read_obj_palette(&self, palette: usize, color: usize) -> (r: (u8, u8))
        requires
            palette < 8,
            color < 4,
        ensures
            r == self@.cgb.obj_colour(palette as int, color as int),
    {
        self.cgb.read_obj_palette(palette, color)
    }

    /// Feeds a tilt reading to an MBC7 cartridge; others ignore it.
    pub fn set_accelerometer(&mut self, x: i32, y: i32)
        ensures
            final(self)@ == (MemoryView {
                cart: old(self)@.cart.set_accelerometer(x, y),
                ..old(self)@
            }),
    {
        self.cartridge.set_accelerometer(x, y);
    }

    // -- Pocket Camera ------------------------------------------------------
    /// Takes the next host frame on a Pocket Camera; other cartridges ignore
    /// it. A frame that is not exactly 128 x 112 bytes is refused.
    pub fn set_camera_image(&mut self, data: &[u8]) -> (r: Result<(), EmuError>)
        requires
            old(self).wf(),
        ensures
            final(self).wf(),
            match old(self)@.cart.camera() {
                Some(cam) => if data@.len() == camera::PIXELS {
                    &&& r.is_ok()
                    &&& final(self)@ == old(self)@.with_camera(cam.set_image(data@))
                } else {
                    &&& r == Err::<(), EmuError>(EmuError::InvalidImageSize)
                    &&& final(self)@ == old(self)@
                },
                None => r.is_ok() && final(self)@ == old(self)@,
            },
    {
        match &mut self.cartridge {
            Cartridge::PocketCamera(c) => c.camera.set_image(data),
            _ => Ok(()),
        }
    }

    /// Whether the host has supplied a camera frame.
    pub fn is_camera_image_ready(&self) -> (r: bool)
        ensures
            r == match self@.cart.camera() {
                Some(cam) => cam.image_ready,
                None => false,
            },
    {
        match &self.cartridge {
            Cartridge::PocketCamera(c) => c.camera.is_image_ready(),
            _ => false,
        }
    }

    /// Whether a capture was written since the host last looked.
    pub fn is_camera_capture_dirty(&self) -> (r: bool)
        ensures
            r == match self@.cart.camera() {
                Some(cam) => cam.capture_dirty,
                None => false,
            },
    {
        match &self.cartridge {
            Cartridge::PocketCamera(c) => c.camera.is_capture_dirty(),
            _ => false,
        }
    }

    /// Whether the program has started a capture that the host has yet to complete.
    pub fn is_camera_capture_pending(&self) -> (r: bool)
        ensures
            r == match self@.cart.camera() {
                Some(cam) => cam.capture_pending,
                None => false,
            },
    {
        match &self.cartridge {
            Cartridge::PocketCamera(c) => c.camera.is_capture_pending(),
            _ => false,
        }
    }

    /// Notes that the host has seen the latest capture.
    pub fn clear_camera_capture_dirty(&mut self)
        ensures
            final(self)@ == match old(self)@.cart.camera() {
                Some(cam) => old(self)@.with_camera(CameraView { capture_dirty: false, ..cam }),
                None => old(self)@,
            },
    {
        match &mut self.cartridge {
            Cartridge::PocketCamera(c) => c.camera.clear_capture_dirty(),
            _ => {},
        }
    }

    /// The tile bytes of the active capture; empty without a camera.
    pub fn camera_capture_sram(&self) -> (r: Vec<u8>)
        requires
            self.wf(),
        ensures
            r@ == match self@.cart.camera() {
                Some(cam) => cam.ram.subrange(
                    camera::CAPTURE_OFFSET as int,
                    camera::CAPTURE_OFFSET + camera::PHOTO_BYTES,
                ),
                None => Seq::empty(),
            },
    {
        match &self.cartridge {
            Cartridge::PocketCamera(c) => c.camera.capture_sram(),
            _ => Vec::new(),
        }
    }

    /// The host frame last supplied; empty without a camera.
    pub fn camera_image(&self) -> (r: Vec<u8>)
        ensures
            r@ == match self@.cart.camera() {
                Some(cam) => cam.image,
                None => Seq::empty(),
            },
    {
        match &self.cartridge {
            Cartridge::PocketCamera(c) => copy_of(c.camera.image.as_slice()),
            _ => Vec::new(),
        }
    }

    /// The sensor registers the analog stage works from, on a Pocket Camera.
    pub fn camera_sensor_settings(&self) -> (r: Option<SensorSettings>)
        ensures
            r == match self@.cart.camera() {
                Some(cam) => Some(cam.settings()),
                None => None,
            },
    {
        match &self.cartridge {
            Cartridge::PocketCamera(c) => Some(c.camera.sensor_settings()),
            _ => None,
        }
    }

    /// Completes a pending capture with the analog stage's output.
    pub fn complete_camera_capture(&mut self, processed: &[u8]) -> (r: Result<(), EmuError>)
        requires
            old(self).wf(),
        ensures
            final(self).wf(),
            match old(self)@.cart.camera() {
                Some(cam) => final(self)@ == old(self)@.with_camera(
                    cam.complete_capture(processed@),
                ) && (r.is_err() <==> processed@.len() != camera::PIXELS),
                None => r.is_ok() && final(self)@ == old(self)@,
            },
            r.is_err() ==> r == Err::<(), EmuError>(EmuError::InvalidImageSize),
    {
        match &mut self.cartridge {
            Cartridge::PocketCamera(c) => c.camera.complete_capture(processed),
            _ => Ok(()),
        }
    }

    /// RGBA of a photo slot; empty for an empty slot or without a camera.
    pub fn decode_camera_photo(&self, slot: u8) -> (r: Vec<u8>)
        requires
            self.wf(),
        ensures
            r@ == match self@.cart.camera() {
                Some(cam) => cam.decode_photo(slot),
                None => Seq::empty(),
            },
    {
        match &self.cartridge {
            Cartridge::PocketCamera(c) => c.camera.decode_photo(slot),
            _ => Vec::new(),
        }
    }

    /// Stores an RGBA image in a photo slot; false without a camera or for a
    /// slot or size that cannot be stored.
    pub fn encode_camera_photo(&mut self, slot: u8, rgba: &[u8]) -> (r: bool)
        requires
            old(self).wf(),
        ensures
            final(self).wf(),
            match old(self)@.cart.camera() {
                Some(cam) => {
                    &&& r == CameraView::can_encode(slot, rgba@)
                    &&& final(self)@ == old(self)@.with_camera(cam.encode_photo(slot, rgba@))
                },
                None => !r && final(self)@ == old(self)@,
            },
    {
        match &mut self.cartridge {
            Cartridge::PocketCamera(c) => c.camera.encode_photo(slot, rgba),
            _ => false,
        }
    }

    /// Erases photo slot 1..=30 on a Pocket Camera; other slots and cartridges
    /// are left alone.
    pub fn clear_camera_photo_slot(&mut self, slot: u8)
        requires
            old(self).wf(),
        ensures
            final(self).wf(),
            final(self)@ == match old(self)@.cart.camera() {
                Some(cam) => old(self)@.with_camera(cam.clear_photo_slot(slot)),
                None => old(self)@,
            },
    {
        match &mut self.cartridge {
            Cartridge::PocketCamera(c) => c.camera.clear_photo_slot(slot),
            _ => {},
        }
    }

    /// Contrast level of the dither matrix; -1 if unknown or without a camera.
    pub fn camera_contrast(&self) -> (r: i32)
        ensures
            match self@.cart.camera() {
                Some(cam) => camera::is_contrast(cam.regs, r as int),
                None => r == -1,
            },
    {
        match &self.cartridge {
            Cartridge::PocketCamera(c) => c.camera.contrast(),
            _ => -1,
        }
    }

    /// Number of occupied photo slots; 0 without a camera.
    pub fn camera_photo_count(&self) -> (r: u8)
        requires
            self.wf(),
        ensures
            r == match self@.cart.camera() {
                Some(cam) => cam.photo_count(),
                None => 0,
            },
    {
        match &self.cartridge {
            Cartridge::PocketCamera(c) => c.camera.photo_count(),
            _ => 0,
        }
    }

    /// Camera register `index & 0x7F`; 0xFF without a camera.
    pub fn camera_reg(&self, index: u8) -> (r: u8)
        ensures
            r == match self@.cart.camera() {
                Some(cam) => cam.regs[(index & 0x7F) as int],
                None => 0xFF,
            },
    {
        match &self.cartridge {
            Cartridge::PocketCamera(c) => c.camera.reg(index),
            _ => 0xFF,
        }
    }

    /// Sets or clears the host's exposure on a Pocket Camera.
    pub fn set_camera_exposure_override(&mut self, value: Option<u16>)
        ensures
            final(self)@ == match old(self)@.cart.camera() {
                Some(cam) => old(self)@.with_camera(
                    CameraView { exposure_override: value, ..cam },
                ),
                None => old(self)@,
            },
    {
        match &mut self.cartridge {
            Cartridge::PocketCamera(c) => c.camera.set_exposure_override(value),
            _ => {},
        }
    }
}

} // verus!
