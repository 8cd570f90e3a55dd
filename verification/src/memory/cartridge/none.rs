//! ROM-only cartridge: no bank controller, no external RAM.

use super::{bank_count, byte_at, read_byte, rom_banks, MbcType};
use vstd::prelude::*;

verus! {

/// A ROM of up to 32 KB, read as it is.
pub struct NoMbc {
    pub rom: Vec<u8>,
}

impl NoMbc {
    /// A cartridge around a ROM image.
    pub fn new(rom: Vec<u8>) -> (r: NoMbc)
        ensures
            r.rom@ == rom@,
    {
        NoMbc { rom }
    }

    /// The raw ROM byte at `addr`; 0xFF past its end.
    pub fn read_rom(&self, addr: u16) -> (r: u8)
        ensures
            r == byte_at(self.rom@, addr as int, 0xFF),
    {
        read_byte(&self.rom, addr as usize, 0xFF)
    }

    /// There are no controller registers: the write is dropped.
    pub fn write_rom(&mut self, _addr: u16, _value: u8)
        ensures
            final(self).rom@ == old(self).rom@,
    {
    }

    /// There is no external RAM: reads are open bus.
    pub fn read_ram(&self, _addr: u16) -> (r: u8)
        ensures
            r == 0xFF,
    {
        0xFF
    }

    /// There is no external RAM: the write is dropped.
    pub fn write_ram(&mut self, _addr: u16, _value: u8)
        ensures
            final(self).rom@ == old(self).rom@,
    {
    }

    /// The save data: empty.
    pub fn ram_data(&self) -> (r: Vec<u8>)
        ensures
            r@.len() == 0,
    {
        Vec::new()
    }

    /// There is nothing to restore save data into.
    pub fn load_ram(&mut self, _data: &[u8])
        ensures
            final(self).rom@ == old(self).rom@,
    {
    }

    /// The controller family: none.
    pub fn mbc_type(&self) -> (r: MbcType)
        ensures
            r == MbcType::RomOnly,
    {
        MbcType::RomOnly
    }

    /// Number of whole 16 KB banks in the ROM.
    pub fn rom_bank_count(&self) -> (r: usize)
        ensures
            r == bank_count(self.rom@),
    {
        rom_banks(&self.rom)
    }
}

} // verus!
