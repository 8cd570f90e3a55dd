//! Pocket Camera cartridge: MBC3-style ROM banking in front of the sensor.
//!
//! RAM banks 0x00-0x0F map the 128 KB of RAM, whether or not RAM was enabled.
//! Banks 0x10 and up map the sensor registers at 0xA000-0xA07F and a read-only
//! mirror of the active capture at 0xA080-0xAE7F.

use super::{
    bank_count, byte_at, load_into, ram_loaded, ram_offset, ram_written, read_banked_ram,
    read_banked_rom, rom_banks, rom_read, write_banked_ram, MbcType,
};
use crate::memory::camera::{Camera, CameraView, CAPTURE_OFFSET, PHOTO_BYTES};
use vstd::prelude::*;

verus! {

/// ROM, bank registers and the camera.
pub struct PocketCamera {
    pub rom: Vec<u8>,
    pub camera: Camera,
    pub rom_bank: u16,
    /// 0x00-0x0F select RAM, 0x10-0x1F the sensor.
    pub ram_bank: u8,
}

/// The controller as sequences of bytes and register values.
pub struct PocketCameraView {
    pub rom: Seq<u8>,
    pub camera: CameraView,
    pub rom_bank: u16,
    pub ram_bank: u8,
}

impl View for PocketCamera {
    type V = PocketCameraView;

    open spec fn view(&self) -> PocketCameraView {
        PocketCameraView {
            rom: self.rom@,
            camera: self.camera@,
            rom_bank: self.rom_bank,
            ram_bank: self.ram_bank,
        }
    }
}

impl PocketCameraView {
    /// The memories inside have their sizes.
    pub open spec fn wf(self) -> bool {
        self.camera.wf()
    }

    /// The bank mapped at 0x4000: the selected one, never bank 0.
    pub open spec fn mapped_bank(self) -> int {
        if self.rom_bank == 0 {
            1
        } else {
            self.rom_bank as int
        }
    }

    /// What a read of 0x0000-0x7FFF returns.
    pub open spec fn read_rom(self, addr: u16) -> u8 {
        rom_read(self.rom, self.mapped_bank(), addr)
    }

    /// Register writes: the RAM-enable range is ignored, the ROM bank has 7
    /// bits (0 selects 1), the RAM bank 5.
    pub open spec fn write_rom(self, addr: u16, value: u8) -> PocketCameraView {
        if addr < 0x2000 {
            self
        } else if addr < 0x4000 {
            let bank = value & 0x7F;
            PocketCameraView {
                rom_bank: if bank == 0 {
                    1
                } else {
                    bank as u16
                },
                ..self
            }
        } else if addr < 0x6000 {
            PocketCameraView { ram_bank: value & 0x1F, ..self }
        } else {
            self
        }
    }

    /// Whether the RAM window shows the sensor rather than RAM.
    pub open spec fn sensor_mapped(self) -> bool {
        self.ram_bank >= 0x10
    }

    /// What a read of the RAM window returns.
    pub open spec fn read_ram(self, addr: u16) -> u8 {
        let reg_addr = addr - 0xA000;
        if self.sensor_mapped() {
            if reg_addr < 0x80 {
                self.camera.regs[reg_addr]
            } else if reg_addr - 0x80 < PHOTO_BYTES {
                self.camera.ram[CAPTURE_OFFSET + reg_addr - 0x80]
            } else {
                0x00
            }
        } else {
            byte_at(self.camera.ram, ram_offset(self.ram_bank as int, addr), 0x00)
        }
    }

    /// With the sensor mapped, registers take the value and the capture mirror
    /// ignores it; a write to register 0 starts a capture when its bit 0 is
    /// set and calls a pending one off when it is clear.
    pub open spec fn write_ram(self, addr: u16, value: u8) -> PocketCameraView {
        let reg_addr = addr - 0xA000;
        if self.sensor_mapped() {
            if reg_addr < 0x80 {
                PocketCameraView {
                    camera: CameraView {
                        regs: self.camera.regs.update(reg_addr, value),
                        capture_pending: if reg_addr == 0 {
                            value & 0x01 != 0
                        } else {
                            self.camera.capture_pending
                        },
                        ..self.camera
                    },
                    ..self
                }
            } else {
                self
            }
        } else {
            PocketCameraView {
                camera: CameraView {
                    ram: ram_written(self.camera.ram, self.ram_bank as int, addr, value),
                    ..self.camera
                },
                ..self
            }
        }
    }

    /// The controller after save data is loaded over the start of its RAM.
    pub open spec fn load_ram(self, data: Seq<u8>) -> PocketCameraView {
        PocketCameraView {
            camera: CameraView { ram: ram_loaded(self.camera.ram, data), ..self.camera },
            ..self
        }
    }
}

impl PocketCamera {
    /// The memories inside have their sizes.
    pub open spec fn wf(&self) -> bool {
        self@.wf()
    }

    /// A fresh cartridge: bank 1 mapped, RAM bank 0, a new camera.
    pub fn new(rom: Vec<u8>) -> (r: PocketCamera)
        ensures
            r.wf(),
            r@.rom == rom@,
            r@.rom_bank == 1,
            r@.ram_bank == 0,
            r@.camera == Camera::new_spec(),
    {
        PocketCamera { rom, camera: Camera::new(), rom_bank: 1, ram_bank: 0 }
    }

    /// Reads 0x0000-0x7FFF.
    pub fn read_rom(&self, addr: u16) -> (r: u8)
        ensures
            r == self@.read_rom(addr),
    {
        let bank = if self.rom_bank == 0 {
            1
        } else {
            self.rom_bank
        };
        read_banked_rom(&self.rom, bank, addr)
    }

    /// Writes a controller register at 0x0000-0x7FFF.
    pub fn write_rom(&mut self, addr: u16, value: u8)
        ensures
            final(self)@ == old(self)@.write_rom(addr, value),
    {
        if addr < 0x2000 {
        } else if addr < 0x4000 {
            let bank = value & 0x7F;
            self.rom_bank = if bank == 0 {
                1
            } else {
                bank as u16
            };
        } else if addr < 0x6000 {
            self.ram_bank = value & 0x1F;
        }
    }

    /// Reads the RAM window at `addr` (0xA000 or above).
    pub fn read_ram(&self, addr: u16) -> (r: u8)
        requires
            self.wf(),
            addr >= 0xA000,
        ensures
            r == self@.read_ram(addr),
    {
        if self.ram_bank >= 0x10 {
            let reg_addr = (addr - 0xA000) as usize;
            if reg_addr < 0x80 {
                return self.camera.regs[reg_addr];
            }
            let tile_offset = reg_addr - 0x80;
            if tile_offset < PHOTO_BYTES {
                return self.camera.ram[CAPTURE_OFFSET + tile_offset];
            }
            return 0x00;
        }
        read_banked_ram(&self.camera.ram, self.ram_bank, addr, 0x00)
    }

    /// Writes through the RAM window at `addr` (0xA000 or above).
    pub fn write_ram(&mut self, addr: u16, value: u8)
        requires
            old(self).wf(),
            addr >= 0xA000,
        ensures
            final(self).wf(),
            final(self)@ == old(self)@.write_ram(addr, value),
    {
        if self.ram_bank >= 0x10 {
            let reg_addr = (addr - 0xA000) as usize;
            if reg_addr < 0x80 {
                self.camera.regs[reg_addr] = value;
                if reg_addr == 0 {
                    self.camera.capture_pending = (value & 0x01) != 0;
                }
            }
            return ;
        }
        write_banked_ram(&mut self.camera.ram, self.ram_bank, addr, value);
    }

    /// The whole cartridge RAM, as saved.
    pub fn ram_data(&self) -> (r: &Vec<u8>)
        ensures
            r@ == self@.camera.ram,
    {
        &self.camera.ram
    }

    /// Loads save data over the start of the RAM; extra bytes are ignored.
    pub fn load_ram(&mut self, data: &[u8])
        requires
            old(self).wf(),
        ensures
            final(self).wf(),
            final(self)@ == old(self)@.load_ram(data@),
    {
        load_into(&mut self.camera.ram, data);
    }

    /// The controller family.
    pub fn mbc_type(&self) -> (r: MbcType)
        ensures
            r == MbcType::PocketCamera,
    {
        MbcType::PocketCamera
    }

    /// Number of whole 16 KB banks in the ROM.
    pub fn rom_bank_count(&self) -> (r: usize)
        ensures
            r == bank_count(self@.rom),
    {
        rom_banks(&self.rom)
    }

    /// The selected ROM bank.
    pub fn current_rom_bank(&self) -> (r: u16)
        ensures
            r == self@.rom_bank,
    {
        self.rom_bank
    }

    /// The selected RAM bank.
    pub fn current_ram_bank(&self) -> (r: u8)
        ensures
            r == self@.ram_bank,
    {
        self.ram_bank
    }
}

/// RAM is reachable in banks 0x00-0x0F without ever writing the RAM-enable
/// register: a byte written through the window reads back.
pub proof fn lemma_camera_ram_always_enabled(c: PocketCameraView, addr: u16, value: u8)
    requires
        c.wf(),
        !c.sensor_mapped(),
        0xA000 <= addr < 0xC000,
    ensures
        c.write_ram(addr, value).read_ram(addr) == value,
        forall|a: u16, v: u8| a < 0x2000 ==> #[trigger] c.write_rom(a, v) == c,
{
    crate::bits::lemma_u8_mask_bounds();
}

} // verus!
