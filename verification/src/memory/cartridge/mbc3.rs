//! MBC3: 7-bit ROM bank, RAM banks, and a real-time clock behind bank values
//! 0x08-0x0C.

use super::{
    bank_count, byte_at, load_into, ram_loaded, ram_offset, ram_written, read_banked_ram,
    read_banked_rom, rom_banks, rom_read, write_banked_ram, zeroed, MbcType,
};
use crate::memory::rtc::Rtc;
use vstd::prelude::*;

verus! {

/// ROM, RAM, bank registers and the clock of an MBC3.
pub struct Mbc3 {
    pub rom: Vec<u8>,
    pub ram: Vec<u8>,
    pub rom_bank: u16,
    /// 0x00-0x07 select RAM, 0x08-0x0C select a clock register.
    pub ram_bank: u8,
    pub ram_enabled: bool,
    pub rtc: Rtc,
}

/// The controller without the host time its clock is based at: what the
/// emulated program can observe and change.
pub struct Mbc3View {
    pub rom: Seq<u8>,
    pub ram: Seq<u8>,
    pub rom_bank: u16,
    pub ram_bank: u8,
    pub ram_enabled: bool,
    pub rtc: Rtc,
}

/// A clock with its host-time base set aside.
pub open spec fn unbased(rtc: Rtc) -> Rtc {
    Rtc { base_timestamp: 0, ..rtc }
}

impl View for Mbc3 {
    type V = Mbc3View;

    open spec fn view(&self) -> Mbc3View {
        Mbc3View {
            rom: self.rom@,
            ram: self.ram@,
            rom_bank: self.rom_bank,
            ram_bank: self.ram_bank,
            ram_enabled: self.ram_enabled,
            rtc: unbased(self.rtc),
        }
    }
}

impl Mbc3View {
    /// The bank mapped at 0x4000: the selected one, never bank 0.
    pub open spec fn mapped_bank(self) -> int {
        if self.rom_bank == 0 {
            1
        } else {
            self.rom_bank as int
        }
    }

    /// What a read of 0x0000-0x7FFF returns.
    pub open spec fn read_rom(self, addr: u16) -> u8 {
        rom_read(self.rom, self.mapped_bank(), addr)
    }

    /// Register writes: RAM enable, 7-bit ROM bank (0 selects 1), RAM bank or
    /// clock register select, and the clock latch.
    pub open spec fn write_rom(self, addr: u16, value: u8) -> Mbc3View {
        if addr < 0x2000 {
            Mbc3View { ram_enabled: value & 0x0F == 0x0A, ..self }
        } else if addr < 0x4000 {
            let bank = value & 0x7F;
            Mbc3View {
                rom_bank: if bank == 0 {
                    1
                } else {
                    bank as u16
                },
                ..self
            }
        } else if addr < 0x6000 {
            Mbc3View { ram_bank: value, ..self }
        } else if addr < 0x8000 {
            Mbc3View { rtc: self.rtc.write_latch_spec(value), ..self }
        } else {
            self
        }
    }

    /// Clock registers read their latched value whether or not RAM is enabled.
    pub open spec fn read_ram(self, addr: u16) -> u8 {
        if Rtc::spec_is_rtc_register(self.ram_bank) {
            self.rtc.read_register_spec(self.ram_bank)
        } else if !self.ram_enabled {
            0xFF
        } else {
            byte_at(self.ram, ram_offset(self.ram_bank as int, addr), 0xFF)
        }
    }

    /// The controller after a write through the RAM window.
    pub open spec fn write_ram(self, addr: u16, value: u8) -> Mbc3View {
        if Rtc::spec_is_rtc_register(self.ram_bank) {
            Mbc3View { rtc: self.rtc.write_register_spec(self.ram_bank, value, 0), ..self }
        } else if !self.ram_enabled {
            self
        } else {
            Mbc3View { ram: ram_written(self.ram, self.ram_bank as int, addr, value), ..self }
        }
    }

    /// The controller after save data is loaded over the start of its RAM.
    pub open spec fn load_ram(self, data: Seq<u8>) -> Mbc3View {
        Mbc3View { ram: ram_loaded(self.ram, data), ..self }
    }
}

impl Mbc3 {
    /// A fresh controller: bank 1 mapped, RAM zeroed and disabled, clock at zero.
    pub fn new(rom: Vec<u8>, ram_size: usize) -> (r: Mbc3)
        ensures
            r@ == (Mbc3View {
                rom: rom@,
                ram: Seq::new(ram_size as nat, |i: int| 0u8),
                rom_bank: 1,
                ram_bank: 0,
                ram_enabled: false,
                rtc: Rtc::new_at_spec(0),
            }),
    {
        Mbc3 {
            rom,
            ram: zeroed(ram_size),
            rom_bank: 1,
            ram_bank: 0,
            ram_enabled: false,
            rtc: Rtc::new(),
        }
    }

    /// Reads 0x0000-0x7FFF.
    pub fn read_rom(&self, addr: u16) -> (r: u8)
        ensures
            r == self@.read_rom(addr),
    {
        let bank = if self.rom_bank == 0 {
            1
        } else {
            self.rom_bank
        };
        read_banked_rom(&self.rom, bank, addr)
    }

    /// Writes a controller register at 0x0000-0x7FFF.
    pub fn write_rom(&mut self, addr: u16, value: u8)
        ensures
            final(self)@ == old(self)@.write_rom(addr, value),
    {
        if addr < 0x2000 {
            self.ram_enabled = (value & 0x0F) == 0x0A;
        } else if addr < 0x4000 {
            let bank = value & 0x7F;
            self.rom_bank = if bank == 0 {
                1
            } else {
                bank as u16
            };
        } else if addr < 0x6000 {
            self.ram_bank = value;
        } else if addr < 0x8000 {
            self.rtc.write_latch(value);
        }
    }

    /// Reads the RAM window at `addr` (0xA000 or above).
    pub fn read_ram(&self, addr: u16) -> (r: u8)
        requires
            addr >= 0xA000,
        ensures
            r == self@.read_ram(addr),
    {
        if Rtc::is_rtc_register(self.ram_bank) {
            return self.rtc.read_register(self.ram_bank);
        }
        if !self.ram_enabled {
            return 0xFF;
        }
        read_banked_ram(&self.ram, self.ram_bank, addr, 0xFF)
    }

    /// Writes through the RAM window at `addr` (0xA000 or above).
    pub fn write_ram(&mut self, addr: u16, value: u8)
        requires
            addr >= 0xA000,
        ensures
            final(self)@ == old(self)@.write_ram(addr, value),
    {
        if Rtc::is_rtc_register(self.ram_bank) {
            self.rtc.write_register(self.ram_bank, value);
            return ;
        }
        if !self.ram_enabled {
            return ;
        }
        write_banked_ram(&mut self.ram, self.ram_bank, addr, value);
    }

    /// The whole cartridge RAM, as saved.
    pub fn ram_data(&self) -> (r: &Vec<u8>)
        ensures
            r@ == self@.ram,
    {
        &self.ram
    }

    /// Loads save data over the start of the RAM; extra bytes are ignored.
    pub fn load_ram(&mut self, data: &[u8])
        ensures
            final(self)@ == old(self)@.load_ram(data@),
    {
        load_into(&mut self.ram, data);
    }

    /// The controller family.
    pub fn mbc_type(&self) -> (r: MbcType)
        ensures
            r == MbcType::Mbc3,
    {
        MbcType::Mbc3
    }

    /// Number of whole 16 KB banks in the ROM.
    pub fn rom_bank_count(&self) -> (r: usize)
        ensures
            r == bank_count(self@.rom),
    {
        rom_banks(&self.rom)
    }

    /// The selected ROM bank.
    pub fn current_rom_bank(&self) -> (r: u16)
        ensures
            r == self@.rom_bank,
    {
        self.rom_bank
    }

    /// The selected RAM bank.
    pub fn current_ram_bank(&self) -> (r: u8)
        ensures
            r == self@.ram_bank,
    {
        self.ram_bank
    }

    /// Whether the RAM gate is open.
    pub fn is_ram_enabled(&self) -> (r: bool)
        ensures
            r == self@.ram_enabled,
    {
        self.ram_enabled
    }

    /// Brings the clock up to host time `now`; banks and memories are untouched.
    pub fn tick_rtc_at(&mut self, now: u64)
        ensures
            final(self).rtc == old(self).rtc.advanced_to(now),
            final(self)@ == (Mbc3View { rtc: unbased(final(self).rtc), ..old(self)@ }),
    {
        self.rtc.tick_at(now);
    }

    /// Brings the clock up to the current host time: the clock afterwards is
    /// the clock before advanced to the time it is then based at. Whatever the
    /// host clock says, banks, memories and the latched snapshot are untouched.
    pub fn tick_rtc(&mut self)
        ensures
            final(self).rtc.is_advance_of(old(self).rtc),
            final(self)@ == (Mbc3View { rtc: unbased(final(self).rtc), ..old(self)@ }),
            final(self).rtc.latched() == old(self).rtc.latched(),
            final(self).rtc.latch_ready == old(self).rtc.latch_ready,
    {
        self.rtc.tick();
    }
}

/// Double-latch rule at the cartridge: 0x00 followed by anything but 0x01 in
/// the latch range leaves the snapshot readable through the RAM window as it was.
pub proof fn lemma_mbc3_double_latch(c: Mbc3View, a1: u16, a2: u16, v: u8)
    requires
        0x6000 <= a1 < 0x8000,
        0x6000 <= a2 < 0x8000,
        v != 0x01,
    ensures
        c.write_rom(a1, 0x00).write_rom(a2, v).rtc.latched() == c.rtc.latched(),
        forall|addr: u16| c.write_rom(a1, 0x00).write_rom(a2, v).read_ram(addr) == c.read_ram(addr),
{
}

} // verus!
