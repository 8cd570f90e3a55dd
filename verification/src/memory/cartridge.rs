//! Cartridges: ROM, optional RAM and the bank controller between them.
//!
//! Every controller answers the same four bus operations: reads of
//! 0x0000-0x7FFF, register writes to that range, and reads and writes of the
//! external-RAM window 0xA000-0xBFFF.

pub mod camera;
pub mod eeprom_laws;
pub mod header;
pub mod mbc1;
pub mod mbc3;
pub mod mbc5;
pub mod mbc7;
pub mod none;

use crate::memory::camera::{Camera, CameraView};
use crate::memory::rtc::Rtc;
use vstd::prelude::*;

verus! {

/// Size of one switchable ROM bank.
pub const ROM_BANK_SIZE: usize = 0x4000;

/// Size of one switchable RAM bank.
pub const RAM_BANK_SIZE: usize = 0x2000;

/// The byte at `offset`, or `missing` where the data does not reach.
pub open spec fn byte_at(data: Seq<u8>, offset: int, missing: u8) -> u8 {
    if 0 <= offset < data.len() {
        data[offset]
    } else {
        missing
    }
}

/// What the ROM area shows at `addr` with `bank` mapped at 0x4000-0x7FFF:
/// bank 0 below 0x4000, open bus (0xFF) past the end of the ROM.
pub open spec fn rom_read(rom: Seq<u8>, bank: int, addr: u16) -> u8 {
    if addr < 0x4000 {
        byte_at(rom, addr as int, 0xFF)
    } else if addr < 0x8000 {
        byte_at(rom, bank * 0x4000 + (addr - 0x4000), 0xFF)
    } else {
        0xFF
    }
}

/// Offset into cartridge RAM of window address `addr` with `bank` selected.
pub open spec fn ram_offset(bank: int, addr: u16) -> int {
    bank * 0x2000 + (addr - 0xA000)
}

/// RAM after a write through the window; writes past the end are dropped.
pub open spec fn ram_written(ram: Seq<u8>, bank: int, addr: u16, value: u8) -> Seq<u8> {
    if 0 <= ram_offset(bank, addr) < ram.len() {
        ram.update(ram_offset(bank, addr), value)
    } else {
        ram
    }
}

/// RAM after save data is loaded over its start; extra bytes are ignored.
pub open spec fn ram_loaded(ram: Seq<u8>, data: Seq<u8>) -> Seq<u8> {
    Seq::new(
        ram.len(),
        |i: int|
            if i < data.len() {
                data[i]
            } else {
                ram[i]
            },
    )
}

/// Number of whole 16 KB banks in a ROM.
pub open spec fn bank_count(rom: Seq<u8>) -> int {
    rom.len() as int / 0x4000
}

/// Reads the byte at `offset`, or `missing` past the end.
pub fn read_byte(data: &Vec<u8>, offset: usize, missing: u8) -> (r: u8)
    ensures
        r == byte_at(data@, offset as int, missing),
{
    if offset < data.len() {
        data[offset]
    } else {
        missing
    }
}

/// Reads the ROM area with `bank` mapped at 0x4000.
pub fn read_banked_rom(rom: &Vec<u8>, bank: u16, addr: u16) -> (r: u8)
    ensures
        r == rom_read(rom@, bank as int, addr),
{
    if addr < 0x4000 {
        read_byte(rom, addr as usize, 0xFF)
    } else if addr < 0x8000 {
        read_byte(rom, bank as usize * ROM_BANK_SIZE + (addr as usize - 0x4000), 0xFF)
    } else {
        0xFF
    }
}

/// Reads the RAM window with `bank` selected; `missing` past the end.
pub fn read_banked_ram(ram: &Vec<u8>, bank: u8, addr: u16, missing: u8) -> (r: u8)
    requires
        addr >= 0xA000,
    ensures
        r == byte_at(ram@, ram_offset(bank as int, addr), missing),
{
    read_byte(ram, bank as usize * RAM_BANK_SIZE + (addr as usize - 0xA000), missing)
}

/// Writes through the RAM window with `bank` selected.
pub fn write_banked_ram(ram: &mut Vec<u8>, bank: u8, addr: u16, value: u8)
    requires
        addr >= 0xA000,
    ensures
        final(ram)@ == ram_written(old(ram)@, bank as int, addr, value),
{
    let offset = bank as usize * RAM_BANK_SIZE + (addr as usize - 0xA000);
    if offset < ram.len() {
        ram[offset] = value;
    }
}

/// Copies save data over the start of the RAM.
pub fn load_into(ram: &mut Vec<u8>, data: &[u8])
    ensures
        final(ram)@ == ram_loaded(old(ram)@, data@),
{
    let len = if data.len() < ram.len() {
        data.len()
    } else {
        ram.len()
    };
    let mut i: usize = 0;
    while i < len
        invariant
            i <= len,
            len <= data@.len(),
            len == if data@.len() < old(ram)@.len() {
                data@.len()
            } else {
                old(ram)@.len()
            },
            ram@.len() == old(ram)@.len(),
            forall|k: int| 0 <= k < i ==> ram@[k] == data@[k],
            forall|k: int| i <= k < ram@.len() ==> ram@[k] == old(ram)@[k],
        decreases len - i,
    {
        ram[i] = data[i];
        i += 1;
    }
    assert(ram@ =~= ram_loaded(old(ram)@, data@));
}

/// A zero-filled RAM of `size` bytes.
pub fn zeroed(size: usize) -> (r: Vec<u8>)
    ensures
        r@ == Seq::new(size as nat, |i: int| 0u8),
{
    let mut r: Vec<u8> = Vec::new();
    r.resize(size, 0u8);
    assert(r@ =~= Seq::new(size as nat, |i: int| 0u8));
    r
}

/// Number of whole 16 KB banks in a ROM.
pub fn rom_banks(rom: &Vec<u8>) -> (r: usize)
    ensures
        r == bank_count(rom@),
{
    rom.len() / ROM_BANK_SIZE
}

/// Bank controller families.
#[derive(Debug, Clone, Copy, PartialEq, Eq, Structural)]
pub enum MbcType {
    /// No controller: a bare 32 KB ROM.
    RomOnly,
    Mbc1,
    Mbc3,
    Mbc5,
    Mbc7,
    PocketCamera,
}

/// RAM size in bytes for header byte 0x0149.
pub open spec fn spec_ram_size_from_header(byte: u8) -> int {
    if byte == 0x00 {
        0x2000
    } else if byte == 0x01 {
        0x800
    } else if byte == 0x02 {
        0x2000
    } else if byte == 0x03 {
        0x8000
    } else if byte == 0x04 {
        0x20000
    } else if byte == 0x05 {
        0x10000
    } else {
        0x20000
    }
}

/// Controller family for header byte 0x0147; unknown types fall back to MBC5.
pub open spec fn spec_mbc_type_from_header(cart_type: u8) -> MbcType {
    if cart_type == 0x00 {
        MbcType::RomOnly
    } else if 0x01 <= cart_type <= 0x03 {
        MbcType::Mbc1
    } else if 0x0F <= cart_type <= 0x13 {
        MbcType::Mbc3
    } else if 0x19 <= cart_type <= 0x1E {
        MbcType::Mbc5
    } else if cart_type == 0x22 {
        MbcType::Mbc7
    } else if cart_type == 0xFC {
        MbcType::PocketCamera
    } else {
        MbcType::Mbc5
    }
}

/// Determines the RAM size from header byte 0x0149.
pub fn ram_size_from_header(byte: u8) -> (r: usize)
    ensures
        r == spec_ram_size_from_header(byte),
{
    match byte {
        0x00 => 8 * 1024,
        0x01 => 2 * 1024,
        0x02 => 8 * 1024,
        0x03 => 32 * 1024,
        0x04 => 128 * 1024,
        0x05 => 64 * 1024,
        _ => 128 * 1024,
    }
}

/// Determines the controller family from header byte 0x0147.
pub fn mbc_type_from_header(cart_type: u8) -> (r: MbcType)
    ensures
        r == spec_mbc_type_from_header(cart_type),
{
    if cart_type == 0x00 {
        MbcType::RomOnly
    } else if 0x01 <= cart_type && cart_type <= 0x03 {
        MbcType::Mbc1
    } else if 0x0F <= cart_type && cart_type <= 0x13 {
        MbcType::Mbc3
    } else if 0x19 <= cart_type && cart_type <= 0x1E {
        MbcType::Mbc5
    } else if cart_type == 0x22 {
        MbcType::Mbc7
    } else if cart_type == 0xFC {
        MbcType::PocketCamera
    } else {
        MbcType::Mbc5
    }
}

/// An installed cartridge: one of the supported controllers.
pub enum Cartridge {
    RomOnly(none::NoMbc),
    Mbc1(mbc1::Mbc1),
    Mbc3(mbc3::Mbc3),
    Mbc5(mbc5::Mbc5),
    Mbc7(mbc7::Mbc7),
    PocketCamera(camera::PocketCamera),
}

/// A cartridge as sequences of bytes and register values.
pub enum CartridgeView {
    RomOnly(Seq<u8>),
    Mbc1(mbc1::Mbc1View),
    Mbc3(mbc3::Mbc3View),
    Mbc5(mbc5::Mbc5View),
    Mbc7(mbc7::Mbc7View),
    PocketCamera(camera::PocketCameraView),
}

impl View for Cartridge {
    type V = CartridgeView;

    open spec fn view(&self) -> CartridgeView {
        match self {
            Cartridge::RomOnly(c) => CartridgeView::RomOnly(c.rom@),
            Cartridge::Mbc1(c) => CartridgeView::Mbc1(c@),
            Cartridge::Mbc3(c) => CartridgeView::Mbc3(c@),
            Cartridge::Mbc5(c) => CartridgeView::Mbc5(c@),
            Cartridge::Mbc7(c) => CartridgeView::Mbc7(c@),
            Cartridge::PocketCamera(c) => CartridgeView::PocketCamera(c@),
        }
    }
}

impl CartridgeView {
    /// The camera's memories and the EEPROM have their sizes.
    pub open spec fn wf(self) -> bool {
        match self {
            CartridgeView::PocketCamera(c) => c.wf(),
            CartridgeView::Mbc7(c) => c.eeprom.wf(),
            _ => true,
        }
    }

    /// The controller family.
    pub open spec fn mbc_type(self) -> MbcType {
        match self {
            CartridgeView::RomOnly(_) => MbcType::RomOnly,
            CartridgeView::Mbc1(_) => MbcType::Mbc1,
            CartridgeView::Mbc3(_) => MbcType::Mbc3,
            CartridgeView::Mbc5(_) => MbcType::Mbc5,
            CartridgeView::Mbc7(_) => MbcType::Mbc7,
            CartridgeView::PocketCamera(_) => MbcType::PocketCamera,
        }
    }

    /// The ROM image.
    pub open spec fn rom(self) -> Seq<u8> {
        match self {
            CartridgeView::RomOnly(rom) => rom,
            CartridgeView::Mbc1(c) => c.rom,
            CartridgeView::Mbc3(c) => c.rom,
            CartridgeView::Mbc5(c) => c.rom,
            CartridgeView::Mbc7(c) => c.rom,
            CartridgeView::PocketCamera(c) => c.rom,
        }
    }

    /// The save data: cartridge RAM, or the EEPROM on MBC7.
    pub open spec fn ram(self) -> Seq<u8> {
        match self {
            CartridgeView::RomOnly(_) => Seq::empty(),
            CartridgeView::Mbc1(c) => c.ram,
            CartridgeView::Mbc3(c) => c.ram,
            CartridgeView::Mbc5(c) => c.ram,
            CartridgeView::Mbc7(c) => c.eeprom.data,
            CartridgeView::PocketCamera(c) => c.camera.ram,
        }
    }

    /// What a read of 0x0000-0x7FFF returns.
    pub open spec fn read_rom(self, addr: u16) -> u8 {
        match self {
            CartridgeView::RomOnly(rom) => byte_at(rom, addr as int, 0xFF),
            CartridgeView::Mbc1(c) => c.read_rom(addr),
            CartridgeView::Mbc3(c) => c.read_rom(addr),
            CartridgeView::Mbc5(c) => c.read_rom(addr),
            CartridgeView::Mbc7(c) => c.read_rom(addr),
            CartridgeView::PocketCamera(c) => c.read_rom(addr),
        }
    }

    /// The cartridge after a write to 0x0000-0x7FFF: controller registers may
    /// change, the ROM never does.
    pub open spec fn write_rom(self, addr: u16, value: u8) -> CartridgeView {
        match self {
            CartridgeView::RomOnly(rom) => self,
            CartridgeView::Mbc1(c) => CartridgeView::Mbc1(c.write_rom(addr, value)),
            CartridgeView::Mbc3(c) => CartridgeView::Mbc3(c.write_rom(addr, value)),
            CartridgeView::Mbc5(c) => CartridgeView::Mbc5(c.write_rom(addr, value)),
            CartridgeView::Mbc7(c) => CartridgeView::Mbc7(c.write_rom(addr, value)),
            CartridgeView::PocketCamera(c) => CartridgeView::PocketCamera(
                c.write_rom(addr, value),
            ),
        }
    }

    /// What a read of 0xA000-0xBFFF returns.
    pub open spec fn read_ram(self, addr: u16) -> u8 {
        match self {
            CartridgeView::RomOnly(_) => 0xFF,
            CartridgeView::Mbc1(c) => c.read_ram(addr),
            CartridgeView::Mbc3(c) => c.read_ram(addr),
            CartridgeView::Mbc5(c) => c.read_ram(addr),
            CartridgeView::Mbc7(c) => c.read_ram(addr),
            CartridgeView::PocketCamera(c) => c.read_ram(addr),
        }
    }

    /// The cartridge after a write to 0xA000-0xBFFF.
    pub open spec fn write_ram(self, addr: u16, value: u8) -> CartridgeView {
        match self {
            CartridgeView::RomOnly(_) => self,
            CartridgeView::Mbc1(c) => CartridgeView::Mbc1(c.write_ram(addr, value)),
            CartridgeView::Mbc3(c) => CartridgeView::Mbc3(c.write_ram(addr, value)),
            CartridgeView::Mbc5(c) => CartridgeView::Mbc5(c.write_ram(addr, value)),
            CartridgeView::Mbc7(c) => CartridgeView::Mbc7(c.write_ram(addr, value)),
            CartridgeView::PocketCamera(c) => CartridgeView::PocketCamera(
                c.write_ram(addr, value),
            ),
        }
    }

    /// The cartridge after save data is loaded.
    pub open spec fn load_ram(self, data: Seq<u8>) -> CartridgeView {
        match self {
            CartridgeView::RomOnly(_) => self,
            CartridgeView::Mbc1(c) => CartridgeView::Mbc1(c.load_ram(data)),
            CartridgeView::Mbc3(c) => CartridgeView::Mbc3(c.load_ram(data)),
            CartridgeView::Mbc5(c) => CartridgeView::Mbc5(c.load_ram(data)),
            CartridgeView::Mbc7(c) => CartridgeView::Mbc7(c.load_ram(data)),
            CartridgeView::PocketCamera(c) => CartridgeView::PocketCamera(c.load_ram(data)),
        }
    }

    /// The selected ROM bank; 1 without a controller.
    pub open spec fn current_rom_bank(self) -> u16 {
        match self {
            CartridgeView::RomOnly(_) => 1,
            CartridgeView::Mbc1(c) => c.rom_bank,
            CartridgeView::Mbc3(c) => c.rom_bank,
            CartridgeView::Mbc5(c) => c.rom_bank,
            CartridgeView::Mbc7(c) => c.rom_bank,
            CartridgeView::PocketCamera(c) => c.rom_bank,
        }
    }

    /// The selected RAM bank; 0 where there is none.
    pub open spec fn current_ram_bank(self) -> u8 {
        match self {
            CartridgeView::RomOnly(_) => 0,
            CartridgeView::Mbc1(c) => c.ram_bank,
            CartridgeView::Mbc3(c) => c.ram_bank,
            CartridgeView::Mbc5(c) => c.ram_bank,
            CartridgeView::Mbc7(c) => 0,
            CartridgeView::PocketCamera(c) => c.ram_bank,
        }
    }

    /// Whether the RAM gate is open; the camera has none.
    pub open spec fn is_ram_enabled(self) -> bool {
        match self {
            CartridgeView::RomOnly(_) => false,
            CartridgeView::Mbc1(c) => c.ram_enabled,
            CartridgeView::Mbc3(c) => c.ram_enabled,
            CartridgeView::Mbc5(c) => c.ram_enabled,
            CartridgeView::Mbc7(c) => c.ram_open(),
            CartridgeView::PocketCamera(c) => false,
        }
    }

    /// The camera's state, on a Pocket Camera.
    pub open spec fn camera(self) -> Option<CameraView> {
        match self {
            CartridgeView::PocketCamera(c) => Some(c.camera),
            _ => None,
        }
    }

    /// The cartridge with its clock replaced, on an MBC3.
    pub open spec fn with_clock(self, rtc: Rtc) -> CartridgeView {
        match self {
            CartridgeView::Mbc3(c) => CartridgeView::Mbc3(mbc3::Mbc3View { rtc, ..c }),
            _ => self,
        }
    }

    /// The cartridge with its clock, taken as based at host time `base`,
    /// brought up to host time `now`; a cartridge without a clock is unchanged.
    pub open spec fn clock_advanced(self, base: u64, now: u64) -> CartridgeView {
        match self {
            CartridgeView::Mbc3(c) => self.with_clock(
                mbc3::unbased(Rtc { base_timestamp: base, ..c.rtc }.advanced_to(now)),
            ),
            _ => self,
        }
    }

    /// The cartridge with its camera replaced, on a Pocket Camera.
    pub open spec fn with_camera(self, camera: CameraView) -> CartridgeView {
        match self {
            CartridgeView::PocketCamera(c) => CartridgeView::PocketCamera(
                camera::PocketCameraView { camera, ..c },
            ),
            _ => self,
        }
    }

    /// The cartridge after a tilt reading: only an MBC7 takes it.
    pub open spec fn set_accelerometer(self, x: i32, y: i32) -> CartridgeView {
        match self {
            CartridgeView::Mbc7(c) => CartridgeView::Mbc7(c.set_accelerometer(x, y)),
            _ => self,
        }
    }
}

impl Cartridge {
    /// The cartridge's view is well-formed.
    pub open spec fn wf(&self) -> bool {
        self@.wf()
    }

    /// Reads 0x0000-0x7FFF.
    pub fn read_rom(&self, addr: u16) -> (r: u8)
        ensures
            r == self@.read_rom(addr),
    {
        match self {
            Cartridge::RomOnly(c) => c.read_rom(addr),
            Cartridge::Mbc1(c) => c.read_rom(addr),
            Cartridge::Mbc3(c) => c.read_rom(addr),
            Cartridge::Mbc5(c) => c.read_rom(addr),
            Cartridge::Mbc7(c) => c.read_rom(addr),
            Cartridge::PocketCamera(c) => c.read_rom(addr),
        }
    }

    /// Writes a controller register at 0x0000-0x7FFF.
    pub fn write_rom(&mut self, addr: u16, value: u8)
        requires
            old(self).wf(),
        ensures
            final(self).wf(),
            final(self)@ == old(self)@.write_rom(addr, value),
    {
        match self {
            Cartridge::RomOnly(c) => c.write_rom(addr, value),
            Cartridge::Mbc1(c) => c.write_rom(addr, value),
            Cartridge::Mbc3(c) => c.write_rom(addr, value),
            Cartridge::Mbc5(c) => c.write_rom(addr, value),
            Cartridge::Mbc7(c) => c.write_rom(addr, value),
            Cartridge::PocketCamera(c) => c.write_rom(addr, value),
        }
    }

    /// Reads the RAM window at 0xA000-0xBFFF.
    pub fn read_ram(&self, addr: u16) -> (r: u8)
        requires
            self.wf(),
            addr >= 0xA000,
        ensures
            r == self@.read_ram(addr),
    {
        match self {
            Cartridge::RomOnly(c) => c.read_ram(addr),
            Cartridge::Mbc1(c) => c.read_ram(addr),
            Cartridge::Mbc3(c) => c.read_ram(addr),
            Cartridge::Mbc5(c) => c.read_ram(addr),
            Cartridge::Mbc7(c) => c.read_ram(addr),
            Cartridge::PocketCamera(c) => c.read_ram(addr),
        }
    }

    /// Writes through the RAM window at 0xA000-0xBFFF.
    pub fn write_ram(&mut self, addr: u16, value: u8)
        requires
            old(self).wf(),
            addr >= 0xA000,
        ensures
            final(self).wf(),
            final(self)@ == old(self)@.write_ram(addr, value),
    {
        match self {
            Cartridge::RomOnly(c) => c.write_ram(addr, value),
            Cartridge::Mbc1(c) => c.write_ram(addr, value),
            Cartridge::Mbc3(c) => c.write_ram(addr, value),
            Cartridge::Mbc5(c) => c.write_ram(addr, value),
            Cartridge::Mbc7(c) => c.write_ram(addr, value),
            Cartridge::PocketCamera(c) => c.write_ram(addr, value),
        }
    }

    /// A copy of the save data.
    pub fn ram_data(&self) -> (r: Vec<u8>)
        ensures
            r@ == self@.ram(),
    {
        match self {
            Cartridge::RomOnly(c) => c.ram_data(),
            Cartridge::Mbc1(c) => copy_of(c.ram_data().as_slice()),
            Cartridge::Mbc3(c) => copy_of(c.ram_data().as_slice()),
            Cartridge::Mbc5(c) => copy_of(c.ram_data().as_slice()),
            Cartridge::Mbc7(c) => copy_of(c.ram_data().as_slice()),
            Cartridge::PocketCamera(c) => copy_of(c.ram_data().as_slice()),
        }
    }

    /// Loads save data over the start of the cartridge's RAM.
    pub fn load_ram(&mut self, data: &[u8])
        requires
            old(self).wf(),
        ensures
            final(self).wf(),
            final(self)@ == old(self)@.load_ram(data@),
    {
        match self {
            Cartridge::RomOnly(c) => c.load_ram(data),
            Cartridge::Mbc1(c) => c.load_ram(data),
            Cartridge::Mbc3(c) => c.load_ram(data),
            Cartridge::Mbc5(c) => c.load_ram(data),
            Cartridge::Mbc7(c) => c.load_ram(data),
            Cartridge::PocketCamera(c) => c.load_ram(data),
        }
    }

    /// The controller family.
    pub fn mbc_type(&self) -> (r: MbcType)
        ensures
            r == self@.mbc_type(),
    {
        match self {
            Cartridge::RomOnly(c) => c.mbc_type(),
            Cartridge::Mbc1(c) => c.mbc_type(),
            Cartridge::Mbc3(c) => c.mbc_type(),
            Cartridge::Mbc5(c) => c.mbc_type(),
            Cartridge::Mbc7(c) => c.mbc_type(),
            Cartridge::PocketCamera(c) => c.mbc_type(),
        }
    }

    /// Number of whole 16 KB ROM banks.
    pub fn rom_bank_count(&self) -> (r: usize)
        ensures
            r == bank_count(self@.rom()),
    {
        match self {
            Cartridge::RomOnly(c) => c.rom_bank_count(),
            Cartridge::Mbc1(c) => c.rom_bank_count(),
            Cartridge::Mbc3(c) => c.rom_bank_count(),
            Cartridge::Mbc5(c) => c.rom_bank_count(),
            Cartridge::Mbc7(c) => c.rom_bank_count(),
            Cartridge::PocketCamera(c) => c.rom_bank_count(),
        }
    }

    /// The selected ROM bank.
    pub fn current_rom_bank(&self) -> (r: u16)
        ensures
            r == self@.current_rom_bank(),
    {
        match self {
            Cartridge::RomOnly(_) => 1,
            Cartridge::Mbc1(c) => c.current_rom_bank(),
            Cartridge::Mbc3(c) => c.current_rom_bank(),
            Cartridge::Mbc5(c) => c.current_rom_bank(),
            Cartridge::Mbc7(c) => c.current_rom_bank(),
            Cartridge::PocketCamera(c) => c.current_rom_bank(),
        }
    }

    /// The selected RAM bank.
    pub fn current_ram_bank(&self) -> (r: u8)
        ensures
            r == self@.current_ram_bank(),
    {
        match self {
            Cartridge::RomOnly(_) => 0,
            Cartridge::Mbc1(c) => c.current_ram_bank(),
            Cartridge::Mbc3(c) => c.current_ram_bank(),
            Cartridge::Mbc5(c) => c.current_ram_bank(),
            Cartridge::Mbc7(_) => 0,
            Cartridge::PocketCamera(c) => c.current_ram_bank(),
        }
    }

    /// Whether the RAM gate is open.
    pub fn is_ram_enabled(&self) -> (r: bool)
        ensures
            r == self@.is_ram_enabled(),
    {
        match self {
            Cartridge::RomOnly(_) => false,
            Cartridge::Mbc1(c) => c.is_ram_enabled(),
            Cartridge::Mbc3(c) => c.is_ram_enabled(),
            Cartridge::Mbc5(c) => c.is_ram_enabled(),
            Cartridge::Mbc7(c) => c.is_ram_enabled(),
            Cartridge::PocketCamera(_) => false,
        }
    }

    /// The clock of an MBC3 with the host time it is based at; other
    /// cartridges have none.
    pub open spec fn clock(&self) -> Option<Rtc> {
        match self {
            Cartridge::Mbc3(c) => Some(c.rtc),
            _ => None,
        }
    }

    /// Whether this cartridge is `before` with its clock brought up to the
    /// host time that the clock is now based at. A cartridge without a clock
    /// is then `before` unchanged.
    pub open spec fn is_clock_advance_of(&self, before: &Cartridge) -> bool {
        match before.clock() {
            Some(clock) => {
                &&& self.clock() is Some
                &&& self.clock()->0.is_advance_of(clock)
                &&& self@ == before@.with_clock(mbc3::unbased(self.clock()->0))
            },
            None => self@ == before@,
        }
    }

    /// Brings an MBC3 clock up to the current host time; other cartridges have
    /// none and stay as they are. Whatever the host clock says, the clock
    /// afterwards is the clock before advanced to the time it is then based
    /// at, and nothing else changes.
    pub fn tick_rtc(&mut self)
        requires
            old(self).wf(),
        ensures
            final(self).wf(),
            final(self).is_clock_advance_of(old(self)),
    {
        match self {
            Cartridge::Mbc3(c) => c.tick_rtc(),
            _ => {},
        }
    }

    /// The camera, on a Pocket Camera.
    pub fn as_camera(&self) -> (r: Option<&Camera>)
        ensures
            match r {
                Some(c) => self@.camera() == Some(c@),
                None => self@.camera().is_none(),
            },
    {
        match self {
            Cartridge::PocketCamera(c) => Some(&c.camera),
            _ => None,
        }
    }

    /// Feeds a tilt reading to an MBC7; other cartridges ignore it.
    pub fn set_accelerometer(&mut self, x: i32, y: i32)
        ensures
            final(self)@ == old(self)@.set_accelerometer(x, y),
    {
        match self {
            Cartridge::Mbc7(c) => c.set_accelerometer(x, y),
            _ => {},
        }
    }
}

/// A copy of a byte slice.
pub fn copy_of(data: &[u8]) -> (r: Vec<u8>)
    ensures
        r@ == data@,
{
    let mut out: Vec<u8> = Vec::new();
    let mut i: usize = 0;
    while i < data.len()
        invariant
            i <= data@.len(),
            out@.len() == i,
            forall|k: int| 0 <= k < i ==> out@[k] == data@[k],
        decreases data@.len() - i,
    {
        out.push(data[i]);
        i += 1;
    }
    assert(out@ =~= data@);
    out
}

/// The cartridge that a header with type byte `cart_type` gets: always 128 KB
/// of RAM on a Pocket Camera, `ram_size` bytes on MBC1, MBC3 and MBC5.
pub open spec fn made_cartridge(rom: Seq<u8>, cart_type: u8, ram_size: usize) -> CartridgeView {
    match spec_mbc_type_from_header(cart_type) {
        MbcType::RomOnly => CartridgeView::RomOnly(rom),
        MbcType::Mbc1 => CartridgeView::Mbc1(
            mbc1::Mbc1View {
                rom,
                ram: Seq::new(ram_size as nat, |i: int| 0u8),
                rom_bank: 1,
                ram_bank: 0,
                ram_enabled: false,
                mode: false,
            },
        ),
        MbcType::Mbc3 => CartridgeView::Mbc3(
            mbc3::Mbc3View {
                rom,
                ram: Seq::new(ram_size as nat, |i: int| 0u8),
                rom_bank: 1,
                ram_bank: 0,
                ram_enabled: false,
                rtc: crate::memory::rtc::Rtc::new_at_spec(0),
            },
        ),
        MbcType::Mbc5 => CartridgeView::Mbc5(
            mbc5::Mbc5View {
                rom,
                ram: Seq::new(ram_size as nat, |i: int| 0u8),
                rom_bank: 1,
                ram_bank: 0,
                ram_enabled: false,
            },
        ),
        MbcType::Mbc7 => CartridgeView::Mbc7(mbc7::Mbc7::new_spec(rom)),
        MbcType::PocketCamera => CartridgeView::PocketCamera(
            camera::PocketCameraView { rom, camera: Camera::new_spec(), rom_bank: 1, ram_bank: 0 },
        ),
    }
}

/// Builds the cartridge for a ROM image by its header's type byte.
pub fn make_cartridge(rom: Vec<u8>, cart_type: u8, ram_size: usize) -> (r: Cartridge)
    ensures
        r.wf(),
        r@ == made_cartridge(rom@, cart_type, ram_size),
{
    match mbc_type_from_header(cart_type) {
        MbcType::RomOnly => Cartridge::RomOnly(none::NoMbc::new(rom)),
        MbcType::Mbc1 => Cartridge::Mbc1(mbc1::Mbc1::new(rom, ram_size)),
        MbcType::Mbc3 => Cartridge::Mbc3(mbc3::Mbc3::new(rom, ram_size)),
        MbcType::Mbc5 => Cartridge::Mbc5(mbc5::Mbc5::new(rom, ram_size)),
        MbcType::Mbc7 => Cartridge::Mbc7(mbc7::Mbc7::new(rom)),
        MbcType::PocketCamera => Cartridge::PocketCamera(camera::PocketCamera::new(rom)),
    }
}

} // verus!
