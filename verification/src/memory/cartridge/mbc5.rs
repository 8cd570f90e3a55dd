//! MBC5: 9-bit ROM bank, 4-bit RAM bank, no bank 0 remapping.

use super::{
    bank_count, byte_at, load_into, ram_loaded, ram_offset, ram_written, read_banked_ram,
    read_banked_rom, rom_banks, rom_read, write_banked_ram, zeroed, MbcType,
};
use vstd::prelude::*;

verus! {

/// ROM, RAM and the registers of an MBC5.
pub struct Mbc5 {
    pub rom: Vec<u8>,
    pub ram: Vec<u8>,
    /// Low 8 bits from 0x2000-0x2FFF, bit 8 from 0x3000-0x3FFF.
    pub rom_bank: u16,
    pub ram_bank: u8,
    pub ram_enabled: bool,
}

/// The controller as sequences of bytes and register values.
pub struct Mbc5View {
    pub rom: Seq<u8>,
    pub ram: Seq<u8>,
    pub rom_bank: u16,
    pub ram_bank: u8,
    pub ram_enabled: bool,
}

impl View for Mbc5 {
    type V = Mbc5View;

    open spec fn view(&self) -> Mbc5View {
        Mbc5View {
            rom: self.rom@,
            ram: self.ram@,
            rom_bank: self.rom_bank,
            ram_bank: self.ram_bank,
            ram_enabled: self.ram_enabled,
        }
    }
}

impl Mbc5View {
    /// Bank 0 may be mapped at 0x4000 on this controller.
    pub open spec fn read_rom(self, addr: u16) -> u8 {
        rom_read(self.rom, self.rom_bank as int, addr)
    }

    /// The controller after a register write at 0x0000-0x7FFF.
    pub open spec fn write_rom(self, addr: u16, value: u8) -> Mbc5View {
        if addr < 0x2000 {
            Mbc5View { ram_enabled: value & 0x0F == 0x0A, ..self }
        } else if addr < 0x3000 {
            Mbc5View { rom_bank: (self.rom_bank & 0x100) | (value as u16), ..self }
        } else if addr < 0x4000 {
            Mbc5View { rom_bank: (self.rom_bank & 0xFF) | ((value as u16 & 1) << 8), ..self }
        } else if addr < 0x6000 {
            Mbc5View { ram_bank: value & 0x0F, ..self }
        } else {
            self
        }
    }

    /// What a read of the RAM window returns.
    pub open spec fn read_ram(self, addr: u16) -> u8 {
        if !self.ram_enabled {
            0xFF
        } else {
            byte_at(self.ram, ram_offset(self.ram_bank as int, addr), 0xFF)
        }
    }

    /// The controller after a write through the RAM window.
    pub open spec fn write_ram(self, addr: u16, value: u8) -> Mbc5View {
        if !self.ram_enabled {
            self
        } else {
            Mbc5View { ram: ram_written(self.ram, self.ram_bank as int, addr, value), ..self }
        }
    }

    /// The controller after save data is loaded over the start of its RAM.
    pub open spec fn load_ram(self, data: Seq<u8>) -> Mbc5View {
        Mbc5View { ram: ram_loaded(self.ram, data), ..self }
    }
}

impl Mbc5 {
    /// A fresh controller: bank 1 mapped, RAM zeroed and disabled.
    pub fn new(rom: Vec<u8>, ram_size: usize) -> (r: Mbc5)
        ensures
            r@ == (Mbc5View {
                rom: rom@,
                ram: Seq::new(ram_size as nat, |i: int| 0u8),
                rom_bank: 1,
                ram_bank: 0,
                ram_enabled: false,
            }),
    {
        Mbc5 { rom, ram: zeroed(ram_size), rom_bank: 1, ram_bank: 0, ram_enabled: false }
    }

    /// Reads 0x0000-0x7FFF.
    pub fn read_rom(&self, addr: u16) -> (r: u8)
        ensures
            r == self@.read_rom(addr),
    {
        read_banked_rom(&self.rom, self.rom_bank, addr)
    }

    /// Writes a controller register at 0x0000-0x7FFF.
    pub fn write_rom(&mut self, addr: u16, value: u8)
        ensures
            final(self)@ == old(self)@.write_rom(addr, value),
    {
        if addr < 0x2000 {
            self.ram_enabled = (value & 0x0F) == 0x0A;
        } else if addr < 0x3000 {
            self.rom_bank = (self.rom_bank & 0x100) | (value as u16);
        } else if addr < 0x4000 {
            self.rom_bank = (self.rom_bank & 0xFF) | ((value as u16 & 1) << 8);
        } else if addr < 0x6000 {
            self.ram_bank = value & 0x0F;
        }
    }

    /// Reads the RAM window at `addr` (0xA000 or above).
    pub fn read_ram(&self, addr: u16) -> (r: u8)
        requires
            addr >= 0xA000,
        ensures
            r == self@.read_ram(addr),
    {
        if !self.ram_enabled {
            return 0xFF;
        }
        read_banked_ram(&self.ram, self.ram_bank, addr, 0xFF)
    }

    /// Writes through the RAM window at `addr` (0xA000 or above).
    pub fn write_ram(&mut self, addr: u16, value: u8)
        requires
            addr >= 0xA000,
        ensures
            final(self)@ == old(self)@.write_ram(addr, value),
    {
        if !self.ram_enabled {
            return ;
        }
        write_banked_ram(&mut self.ram, self.ram_bank, addr, value);
    }

    /// The whole cartridge RAM, as saved.
    pub fn ram_data(&self) -> (r: &Vec<u8>)
        ensures
            r@ == self@.ram,
    {
        &self.ram
    }

    /// Loads save data over the start of the RAM; extra bytes are ignored.
    pub fn load_ram(&mut self, data: &[u8])
        ensures
            final(self)@ == old(self)@.load_ram(data@),
    {
        load_into(&mut self.ram, data);
    }

    /// The controller family.
    pub fn mbc_type(&self) -> (r: MbcType)
        ensures
            r == MbcType::Mbc5,
    {
        MbcType::Mbc5
    }

    /// Number of whole 16 KB banks in the ROM.
    pub fn rom_bank_count(&self) -> (r: usize)
        ensures
            r == bank_count(self@.rom),
    {
        rom_banks(&self.rom)
    }

    /// The selected ROM bank.
    pub fn current_rom_bank(&self) -> (r: u16)
        ensures
            r == self@.rom_bank,
    {
        self.rom_bank
    }

    /// The selected RAM bank.
    pub fn current_ram_bank(&self) -> (r: u8)
        ensures
            r == self@.ram_bank,
    {
        self.ram_bank
    }

    /// Whether the RAM gate is open.
    pub fn is_ram_enabled(&self) -> (r: bool)
        ensures
            r == self@.ram_enabled,
    {
        self.ram_enabled
    }
}

} // verus!
