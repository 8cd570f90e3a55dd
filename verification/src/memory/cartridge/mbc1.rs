//! MBC1: 5-bit ROM bank with two upper bits, up to four RAM banks, two modes.

use super::{
    bank_count, byte_at, load_into, ram_loaded, ram_offset, ram_written, read_banked_ram,
    read_banked_rom, rom_banks, rom_read, write_banked_ram, zeroed, MbcType,
};
use vstd::prelude::*;

verus! {

/// ROM, RAM and the registers of an MBC1.
pub struct Mbc1 {
    pub rom: Vec<u8>,
    pub ram: Vec<u8>,
    /// Bits 0-4 from 0x2000-0x3FFF, bits 5-6 from 0x4000-0x5FFF in ROM mode.
    pub rom_bank: u16,
    pub ram_bank: u8,
    pub ram_enabled: bool,
    /// false = ROM banking mode, true = RAM banking mode.
    pub mode: bool,
}

/// The controller as sequences of bytes and register values.
pub struct Mbc1View {
    pub rom: Seq<u8>,
    pub ram: Seq<u8>,
    pub rom_bank: u16,
    pub ram_bank: u8,
    pub ram_enabled: bool,
    pub mode: bool,
}

impl View for Mbc1 {
    type V = Mbc1View;

    open spec fn view(&self) -> Mbc1View {
        Mbc1View {
            rom: self.rom@,
            ram: self.ram@,
            rom_bank: self.rom_bank,
            ram_bank: self.ram_bank,
            ram_enabled: self.ram_enabled,
            mode: self.mode,
        }
    }
}

impl Mbc1View {
    /// The bank mapped at 0x4000: the selected one, never bank 0.
    pub open spec fn mapped_bank(self) -> int {
        if self.rom_bank == 0 {
            1
        } else {
            self.rom_bank as int
        }
    }

    /// What a read of 0x0000-0x7FFF returns.
    pub open spec fn read_rom(self, addr: u16) -> u8 {
        rom_read(self.rom, self.mapped_bank(), addr)
    }

    /// Register writes: RAM enable (low nibble 0xA), low bank bits (0 selects 1),
    /// upper bank bits or RAM bank by mode, and the mode itself.
    pub open spec fn write_rom(self, addr: u16, value: u8) -> Mbc1View {
        if addr < 0x2000 {
            Mbc1View { ram_enabled: value & 0x0F == 0x0A, ..self }
        } else if addr < 0x4000 {
            let bank = value & 0x1F;
            Mbc1View {
                rom_bank: (self.rom_bank & 0x60) | (if bank == 0 {
                    1u8
                } else {
                    bank
                }) as u16,
                ..self
            }
        } else if addr < 0x6000 {
            if self.mode {
                Mbc1View { ram_bank: value & 0x03, ..self }
            } else {
                Mbc1View {
                    rom_bank: (self.rom_bank & 0x1F) | ((value as u16 & 0x03) << 5),
                    ..self
                }
            }
        } else if addr < 0x8000 {
            Mbc1View { mode: value & 0x01 != 0, ..self }
        } else {
            self
        }
    }

    /// What a read of the RAM window returns.
    pub open spec fn read_ram(self, addr: u16) -> u8 {
        if !self.ram_enabled {
            0xFF
        } else {
            byte_at(self.ram, ram_offset(self.ram_bank as int, addr), 0xFF)
        }
    }

    /// The controller after a write through the RAM window.
    pub open spec fn write_ram(self, addr: u16, value: u8) -> Mbc1View {
        if !self.ram_enabled {
            self
        } else {
            Mbc1View { ram: ram_written(self.ram, self.ram_bank as int, addr, value), ..self }
        }
    }

    /// The controller after save data is loaded over the start of its RAM.
    pub open spec fn load_ram(self, data: Seq<u8>) -> Mbc1View {
        Mbc1View { ram: ram_loaded(self.ram, data), ..self }
    }
}

impl Mbc1 {
    /// A fresh controller: bank 1 mapped, RAM zeroed and disabled, ROM mode.
    pub fn new(rom: Vec<u8>, ram_size: usize) -> (r: Mbc1)
        ensures
            r@ == (Mbc1View {
                rom: rom@,
                ram: Seq::new(ram_size as nat, |i: int| 0u8),
                rom_bank: 1,
                ram_bank: 0,
                ram_enabled: false,
                mode: false,
            }),
    {
        Mbc1 {
            rom,
            ram: zeroed(ram_size),
            rom_bank: 1,
            ram_bank: 0,
            ram_enabled: false,
            mode: false,
        }
    }

    /// Reads 0x0000-0x7FFF.
    pub fn read_rom(&self, addr: u16) -> (r: u8)
        ensures
            r == self@.read_rom(addr),
    {
        let bank = if self.rom_bank == 0 {
            1
        } else {
            self.rom_bank
        };
        read_banked_rom(&self.rom, bank, addr)
    }

    /// Writes a controller register at 0x0000-0x7FFF.
    pub fn write_rom(&mut self, addr: u16, value: u8)
        ensures
            final(self)@ == old(self)@.write_rom(addr, value),
    {
        if addr < 0x2000 {
            self.ram_enabled = (value & 0x0F) == 0x0A;
        } else if addr < 0x4000 {
            let bank = value & 0x1F;
            self.rom_bank = (self.rom_bank & 0x60) | (if bank == 0 {
                1u8
            } else {
                bank
            }) as u16;
        } else if addr < 0x6000 {
            if self.mode {
                self.ram_bank = value & 0x03;
            } else {
                self.rom_bank = (self.rom_bank & 0x1F) | ((value as u16 & 0x03) << 5);
            }
        } else if addr < 0x8000 {
            self.mode = (value & 0x01) != 0;
        }
    }

    /// Reads the RAM window at `addr` (0xA000 or above).
    pub fn read_ram(&self, addr: u16) -> (r: u8)
        requires
            addr >= 0xA000,
        ensures
            r == self@.read_ram(addr),
    {
        if !self.ram_enabled {
            return 0xFF;
        }
        read_banked_ram(&self.ram, self.ram_bank, addr, 0xFF)
    }

    /// Writes through the RAM window at `addr` (0xA000 or above).
    pub fn write_ram(&mut self, addr: u16, value: u8)
        requires
            addr >= 0xA000,
        ensures
            final(self)@ == old(self)@.write_ram(addr, value),
    {
        if !self.ram_enabled {
            return ;
        }
        write_banked_ram(&mut self.ram, self.ram_bank, addr, value);
    }

    /// The whole cartridge RAM, as saved.
    pub fn ram_data(&self) -> (r: &Vec<u8>)
        ensures
            r@ == self@.ram,
    {
        &self.ram
    }

    /// Loads save data over the start of the RAM; extra bytes are ignored.
    pub fn load_ram(&mut self, data: &[u8])
        ensures
            final(self)@ == old(self)@.load_ram(data@),
    {
        load_into(&mut self.ram, data);
    }

    /// The controller family.
    pub fn mbc_type(&self) -> (r: MbcType)
        ensures
            r == MbcType::Mbc1,
    {
        MbcType::Mbc1
    }

    /// Number of whole 16 KB banks in the ROM.
    pub fn rom_bank_count(&self) -> (r: usize)
        ensures
            r == bank_count(self@.rom),
    {
        rom_banks(&self.rom)
    }

    /// The selected ROM bank.
    pub fn current_rom_bank(&self) -> (r: u16)
        ensures
            r == self@.rom_bank,
    {
        self.rom_bank
    }

    /// The selected RAM bank.
    pub fn current_ram_bank(&self) -> (r: u8)
        ensures
            r == self@.ram_bank,
    {
        self.ram_bank
    }

    /// Whether the RAM gate is open.
    pub fn is_ram_enabled(&self) -> (r: bool)
        ensures
            r == self@.ram_enabled,
    {
        self.ram_enabled
    }
}

/// Selecting bank 0 in the low bank register maps bank 1 at 0x4000 while the
/// upper bits are clear; any other 5-bit value maps that bank.
pub proof fn lemma_mbc1_bank_select(c: Mbc1View, addr: u16, value: u8)
    requires
        0x2000 <= addr < 0x4000,
        c.rom_bank & 0x60 == 0,
    ensures
        value & 0x1F == 0 ==> c.write_rom(addr, value).mapped_bank() == 1,
        value & 0x1F != 0 ==> c.write_rom(addr, value).mapped_bank() == (value & 0x1F) as int,
        c.write_rom(addr, value).rom == c.rom,
{
    let rb = c.rom_bank;
    let bank = value & 0x1F;
    let sel: u8 = if bank == 0 { 1u8 } else { bank };
    assert(((rb & 0x60) | (sel as u16)) == sel as u16) by (bit_vector)
        requires
            rb & 0x60 == 0,
    ;
}

} // verus!
