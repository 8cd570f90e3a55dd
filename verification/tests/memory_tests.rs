//! Memory map tests.

use gbcam_core::error::EmuError;
use gbcam_core::memory::cartridge::header::{checksum_of, parse_header};
use gbcam_core::memory::cartridge::MbcType;
use gbcam_core::memory::Memory;

/// A minimal 32 KB ROM with the given cartridge type and RAM size bytes.
fn make_rom(cart_type: u8, ram_size_byte: u8) -> Vec<u8> {
    let mut rom = vec![0u8; 0x8000];
    rom[0x0147] = cart_type;
    rom[0x0149] = ram_size_byte;
    rom
}

#[test]
fn memory_test_wram_read_write() {
    let mut mem = Memory::new();
    mem.write(0xC000, 0x42);
    assert_eq!(mem.read(0xC000), 0x42);

    mem.write(0xDFFF, 0xFF);
    assert_eq!(mem.read(0xDFFF), 0xFF);
}

#[test]
fn memory_test_echo_ram() {
    let mut mem = Memory::new();
    mem.write(0xC000, 0x42);
    assert_eq!(mem.read(0xE000), 0x42);

    mem.write(0xE100, 0x55);
    assert_eq!(mem.read(0xC100), 0x55);
}

#[test]
fn memory_test_hram() {
    let mut mem = Memory::new();
    mem.write(0xFF80, 0x12);
    assert_eq!(mem.read(0xFF80), 0x12);

    mem.write(0xFFFE, 0x34);
    assert_eq!(mem.read(0xFFFE), 0x34);
}

#[test]
fn memory_test_ie_register() {
    let mut mem = Memory::new();
    mem.write(0xFFFF, 0x1F);
    assert_eq!(mem.read(0xFFFF), 0x1F);
    assert_eq!(mem.get_ie(), 0x1F);
}

#[test]
fn memory_test_vram() {
    let mut mem = Memory::new();
    mem.write(0x8000, 0xAA);
    assert_eq!(mem.read(0x8000), 0xAA);

    mem.write(0x9FFF, 0xBB);
    assert_eq!(mem.read(0x9FFF), 0xBB);
}

#[test]
fn memory_test_oam() {
    let mut mem = Memory::new();
    mem.write(0xFE00, 0x10);
    assert_eq!(mem.read(0xFE00), 0x10);

    mem.write(0xFE9F, 0x20);
    assert_eq!(mem.read(0xFE9F), 0x20);
}

#[test]
fn memory_test_unusable_region() {
    let mem = Memory::new();
    assert_eq!(mem.read(0xFEA0), 0xFF);
    assert_eq!(mem.read(0xFEFF), 0xFF);
}

#[test]
fn memory_test_rom_bank_switching() {
    let mut mem = Memory::new();

    let mut rom = vec![0u8; 0x8000];
    rom[0x0000] = 0x11;
    rom[0x4000] = 0x22;

    mem.load_rom(&rom, false).unwrap();

    assert_eq!(mem.read(0x0000), 0x11);
    assert_eq!(mem.read(0x4000), 0x22);
}

#[test]
fn memory_test_rom_bank_select() {
    let mut mem = Memory::new();

    let mut rom = vec![0u8; 0x10000];
    rom[0x0147] = 0x01; // MBC1
    rom[0x4000] = 0x11; // Bank 1
    rom[0x8000] = 0x22; // Bank 2
    rom[0xC000] = 0x33; // Bank 3

    mem.load_rom(&rom, false).unwrap();

    mem.write(0x2000, 0x02);
    assert_eq!(mem.read(0x4000), 0x22);

    mem.write(0x2000, 0x03);
    assert_eq!(mem.read(0x4000), 0x33);

    mem.write(0x2000, 0x00); // bank 0 maps to bank 1
    assert_eq!(mem.read(0x4000), 0x11);
}

#[test]
fn memory_test_external_ram_enable() {
    let mut mem = Memory::new();
    // MBC1 + RAM + battery, 8 KB
    mem.load_rom(&make_rom(0x03, 0x02), false).unwrap();

    // RAM disabled by default
    assert_eq!(mem.read(0xA000), 0xFF);

    // Enable RAM
    mem.write(0x0000, 0x0A);
    mem.write(0xA000, 0x42);
    assert_eq!(mem.read(0xA000), 0x42);

    // Disable RAM
    mem.write(0x0000, 0x00);
    assert_eq!(mem.read(0xA000), 0xFF);
}

#[test]
fn memory_test_div_reset() {
    let mut mem = Memory::new();
    mem.write_io_direct(0x04, 0xFF);
    mem.write(0xFF04, 0x42);
    assert_eq!(mem.read(0xFF04), 0x00);
}

#[test]
fn memory_test_ly_readonly() {
    let mut mem = Memory::new();
    mem.write_io_direct(0x44, 0x50);
    mem.write(0xFF44, 0x99);
    assert_eq!(mem.read(0xFF44), 0x50);
}

#[test]
fn memory_test_dma_transfer() {
    let mut mem = Memory::new();
    for i in 0..0xA0 {
        mem.write(0xC000 + i as u16, i as u8);
    }
    mem.write(0xFF46, 0xC0);
    for i in 0..0xA0 {
        assert_eq!(mem.read(0xFE00 + i as u16), i as u8);
    }
}

#[test]
fn memory_test_load_rom_too_small() {
    let mut mem = Memory::new();
    let small_rom = vec![0u8; 0x100];
    assert!(mem.load_rom(&small_rom, false).is_err());
}

#[test]
fn memory_test_cartridge_ram_persistence() {
    let mut mem = Memory::new();
    mem.load_rom(&make_rom(0x03, 0x02), false).unwrap();

    mem.write(0x0000, 0x0A); // Enable RAM
    mem.write(0xA000, 0x42);
    mem.write(0xA001, 0x43);

    let ram = mem.get_cartridge_ram().to_vec();
    assert_eq!(ram[0], 0x42);
    assert_eq!(ram[1], 0x43);

    let mut mem2 = Memory::new();
    mem2.load_rom(&make_rom(0x03, 0x02), false).unwrap();
    mem2.load_cartridge_ram(&ram);
    mem2.write(0x0000, 0x0A);
    assert_eq!(mem2.read(0xA000), 0x42);
    assert_eq!(mem2.read(0xA001), 0x43);
}

#[test]
fn mod_test_wram_read_write() {
    let mut mem = Memory::new();
    mem.write(0xC000, 0x42);
    assert_eq!(mem.read(0xC000), 0x42);

    mem.write(0xDFFF, 0xFF);
    assert_eq!(mem.read(0xDFFF), 0xFF);
}

#[test]
fn mod_test_echo_ram() {
    let mut mem = Memory::new();
    mem.write(0xC000, 0x42);
    assert_eq!(mem.read(0xE000), 0x42);

    mem.write(0xE100, 0x55);
    assert_eq!(mem.read(0xC100), 0x55);
}

#[test]
fn mod_test_hram() {
    let mut mem = Memory::new();
    mem.write(0xFF80, 0x12);
    assert_eq!(mem.read(0xFF80), 0x12);

    mem.write(0xFFFE, 0x34);
    assert_eq!(mem.read(0xFFFE), 0x34);
}

#[test]
fn mod_test_ie_register() {
    let mut mem = Memory::new();
    mem.write(0xFFFF, 0x1F);
    assert_eq!(mem.read(0xFFFF), 0x1F);
    assert_eq!(mem.get_ie(), 0x1F);
}

#[test]
fn mod_test_vram() {
    let mut mem = Memory::new();
    mem.write(0x8000, 0xAA);
    assert_eq!(mem.read(0x8000), 0xAA);

    mem.write(0x9FFF, 0xBB);
    assert_eq!(mem.read(0x9FFF), 0xBB);
}

#[test]
fn mod_test_oam() {
    let mut mem = Memory::new();
    mem.write(0xFE00, 0x10);
    assert_eq!(mem.read(0xFE00), 0x10);

    mem.write(0xFE9F, 0x20);
    assert_eq!(mem.read(0xFE9F), 0x20);
}

#[test]
fn mod_test_unusable_region() {
    let mem = Memory::new();
    assert_eq!(mem.read(0xFEA0), 0xFF);
    assert_eq!(mem.read(0xFEFF), 0xFF);
}

#[test]
fn mod_test_rom_bank_switching() {
    let mut mem = Memory::new();

    let mut rom = vec![0u8; 0x8000];
    rom[0x0000] = 0x11;
    rom[0x4000] = 0x22;

    mem.load_rom(&rom, false).unwrap();

    assert_eq!(mem.read(0x0000), 0x11);
    assert_eq!(mem.read(0x4000), 0x22);
}

#[test]
fn mod_test_rom_bank_select() {
    let mut mem = Memory::new();

    let mut rom = vec![0u8; 0x10000];
    rom[0x0147] = 0x01; // MBC1
    rom[0x4000] = 0x11; // Bank 1
    rom[0x8000] = 0x22; // Bank 2
    rom[0xC000] = 0x33; // Bank 3

    mem.load_rom(&rom, false).unwrap();

    mem.write(0x2000, 0x02);
    assert_eq!(mem.read(0x4000), 0x22);

    mem.write(0x2000, 0x03);
    assert_eq!(mem.read(0x4000), 0x33);

    mem.write(0x2000, 0x00); // bank 0 maps to bank 1
    assert_eq!(mem.read(0x4000), 0x11);
}

#[test]
fn mod_test_external_ram_enable() {
    let mut mem = Memory::new();
    // MBC1 + RAM + battery, 8 KB
    mem.load_rom(&make_rom(0x03, 0x02), false).unwrap();

    // RAM disabled by default
    assert_eq!(mem.read(0xA000), 0xFF);

    // Enable RAM
    mem.write(0x0000, 0x0A);
    mem.write(0xA000, 0x42);
    assert_eq!(mem.read(0xA000), 0x42);

    // Disable RAM
    mem.write(0x0000, 0x00);
    assert_eq!(mem.read(0xA000), 0xFF);
}

#[test]
fn mod_test_div_reset() {
    let mut mem = Memory::new();
    mem.write_io_direct(0x04, 0xFF);
    mem.write(0xFF04, 0x42);
    assert_eq!(mem.read(0xFF04), 0x00);
}

#[test]
fn mod_test_ly_readonly() {
    let mut mem = Memory::new();
    mem.write_io_direct(0x44, 0x50);
    mem.write(0xFF44, 0x99);
    assert_eq!(mem.read(0xFF44), 0x50);
}

#[test]
fn mod_test_dma_transfer() {
    let mut mem = Memory::new();
    for i in 0..0xA0 {
        mem.write(0xC000 + i as u16, i as u8);
    }
    mem.write(0xFF46, 0xC0);
    for i in 0..0xA0 {
        assert_eq!(mem.read(0xFE00 + i as u16), i as u8);
    }
}

#[test]
fn mod_test_load_rom_too_small() {
    let mut mem = Memory::new();
    let small_rom = vec![0u8; 0x100];
    assert!(mem.load_rom(&small_rom, false).is_err());
}

#[test]
fn mod_test_cartridge_ram_persistence() {
    let mut mem = Memory::new();
    mem.load_rom(&make_rom(0x03, 0x02), false).unwrap();

    mem.write(0x0000, 0x0A); // Enable RAM
    mem.write(0xA000, 0x42);
    mem.write(0xA001, 0x43);

    let ram = mem.get_cartridge_ram().to_vec();
    assert_eq!(ram[0], 0x42);
    assert_eq!(ram[1], 0x43);

    let mut mem2 = Memory::new();
    mem2.load_rom(&make_rom(0x03, 0x02), false).unwrap();
    mem2.load_cartridge_ram(&ram);
    mem2.write(0x0000, 0x0A);
    assert_eq!(mem2.read(0xA000), 0x42);
    assert_eq!(mem2.read(0xA001), 0x43);
}

#[test]
fn test_cgb_load_rom_sets_mode() {
    let mut mem = Memory::new();
    let rom = vec![0u8; 0x8000];
    mem.load_rom(&rom, true).unwrap();
    assert!(mem.is_cgb_mode());

    mem.load_rom(&rom, false).unwrap();
    assert!(!mem.is_cgb_mode());
}

#[test]
fn test_cgb_vram_bank_switching() {
    let mut mem = Memory::new();
    mem.load_rom(&vec![0u8; 0x8000], true).unwrap(); // CGB mode

    mem.write(0x8000, 0xAA);
    assert_eq!(mem.read(0x8000), 0xAA);

    // Switch to VRAM bank 1
    mem.write(0xFF4F, 0x01);
    assert_eq!(mem.read(0xFF4F), 0xFF); // bit 0 set, other bits = 1

    mem.write(0x8000, 0xBB);
    assert_eq!(mem.read(0x8000), 0xBB);

    // Switch back to bank 0
    mem.write(0xFF4F, 0x00);
    assert_eq!(mem.read(0x8000), 0xAA);

    assert_eq!(mem.read_vram_bank(0, 0x8000), 0xAA);
    assert_eq!(mem.read_vram_bank(1, 0x8000), 0xBB);
}

#[test]
fn test_cgb_wram_bank_switching() {
    let mut mem = Memory::new();
    mem.load_rom(&vec![0u8; 0x8000], true).unwrap(); // CGB mode

    mem.write(0xC100, 0x11);
    mem.write(0xD000, 0x22); // default switchable bank = 1

    // Switch to bank 3
    mem.write(0xFF70, 0x03);
    assert_eq!(mem.read(0xFF70), 0x03 | 0xF8);

    mem.write(0xD000, 0x33);
    assert_eq!(mem.read(0xD000), 0x33);

    // Back to bank 1
    mem.write(0xFF70, 0x01);
    assert_eq!(mem.read(0xD000), 0x22);

    assert_eq!(mem.read(0xC100), 0x11);
}

#[test]
fn test_cgb_bg_palette_write_read() {
    let mut mem = Memory::new();
    mem.load_rom(&vec![0u8; 0x8000], true).unwrap(); // CGB mode

    mem.write(0xFF68, 0x00);
    mem.write(0xFF69, 0xFF);
    mem.write(0xFF68, 0x01);
    mem.write(0xFF69, 0x7F);

    let (lo, hi) = mem.read_bg_palette(0, 0);
    assert_eq!(lo, 0xFF, "palette lo byte");
    assert_eq!(hi, 0x7F, "palette hi byte");
}

#[test]
fn test_cgb_obj_palette_auto_increment() {
    let mut mem = Memory::new();
    mem.load_rom(&vec![0u8; 0x8000], true).unwrap(); // CGB mode

    mem.write(0xFF6A, 0x80); // OCPS auto-increment at address 0

    let bytes = [0x00u8, 0x00, 0xFF, 0x7F, 0x1F, 0x00, 0xFF, 0x00];
    for b in bytes {
        mem.write(0xFF6B, b);
    }

    let ocps = mem.read(0xFF6A);
    assert_eq!(ocps & 0x3F, 8, "OCPS address after 8 auto-increments");

    let (lo, hi) = mem.read_obj_palette(0, 1);
    assert_eq!(lo, 0xFF);
    assert_eq!(hi, 0x7F);
}

#[test]
fn test_cgb_key1_arm_and_toggle() {
    let mut mem = Memory::new();
    mem.load_rom(&vec![0u8; 0x8000], true).unwrap(); // CGB mode

    assert!(!mem.is_double_speed());
    let key1 = mem.read(0xFF4D);
    assert_eq!(key1 & 0x01, 0, "speed_armed initially clear");
    assert_eq!(key1 & 0x80, 0, "double_speed initially clear");

    mem.write(0xFF4D, 0x01);
    let key1 = mem.read(0xFF4D);
    assert_eq!(key1 & 0x01, 1, "speed_armed set");

    mem.toggle_double_speed();
    assert!(mem.is_double_speed());

    let key1 = mem.read(0xFF4D);
    assert_eq!(key1 & 0x80, 0x80, "bit 7 reflects double_speed");
    assert_eq!(key1 & 0x01, 0, "speed_armed cleared after toggle");

    mem.write(0xFF4D, 0x01);
    mem.toggle_double_speed();
    assert!(!mem.is_double_speed());
}

#[test]
fn test_dmg_ignores_cgb_registers() {
    let mut mem = Memory::new();
    mem.load_rom(&vec![0u8; 0x8000], false).unwrap(); // DMG mode

    // VBK write should be ignored: VRAM stays on bank 0
    mem.write(0x8000, 0xAA);
    mem.write(0xFF4F, 0x01);
    mem.write(0x8000, 0xBB);
    assert_eq!(mem.read(0x8000), 0xBB);
    assert_eq!(mem.read_vram_bank(0, 0x8000), 0xBB);
    assert_eq!(mem.read_vram_bank(1, 0x8000), 0x00);

    assert_eq!(mem.read(0xFF4D), 0xFF); // KEY1
    assert_eq!(mem.read(0xFF4F), 0xFF); // VBK
    assert_eq!(mem.read(0xFF68), 0xFF); // BCPS
    assert_eq!(mem.read(0xFF70), 0xFF); // SVBK
}

// ---------------------------------------------------------------------------
// Further memory tests
// ---------------------------------------------------------------------------

#[test]
fn interrupt_registers_read_back() {
    let mut mem = Memory::new();
    for v in [0x00u8, 0x01, 0x15, 0x1F, 0xFF] {
        mem.write(0xFFFF, v);
        assert_eq!(mem.read(0xFFFF), v);
        mem.write(0xFF0F, v);
        assert_eq!(mem.read(0xFF0F), v | 0xE0);
        assert_eq!(mem.read_io_direct(0x0F), v);
    }
}

#[test]
fn echo_ram_mirrors_both_ways_over_the_whole_range() {
    let mut mem = Memory::new();
    for addr in (0xC000u16..=0xDDFF).step_by(0x1FF) {
        let v = (addr >> 3) as u8;
        mem.write(addr, v);
        assert_eq!(mem.read(addr + 0x2000), v);
        mem.write(addr + 0x2000, !v);
        assert_eq!(mem.read(addr), !v);
    }
}

#[test]
fn dma_from_every_page_copies_what_reads_show() {
    for page in [0x00u8, 0x40, 0x80, 0xA0, 0xC0, 0xD0, 0xE0, 0xFE, 0xFF] {
        let mut mem = Memory::new();
        let mut rom = vec![0u8; 0x8000];
        for (i, b) in rom.iter_mut().enumerate() {
            *b = (i * 7) as u8;
        }
        rom[0x0147] = 0;
        mem.load_rom(&rom, false).unwrap();
        for i in 0..0xA0u16 {
            mem.write(0xC000 + i, i as u8);
            mem.write(0xFE00 + i, (i as u8) ^ 0x5A);
        }
        let before: Vec<u8> =
            (0..0xA0u16).map(|i| mem.read(((page as u16) << 8) + i)).collect();
        mem.write(0xFF46, page);
        for i in 0..0xA0u16 {
            assert_eq!(mem.read(0xFE00 + i), before[i as usize]);
            assert_eq!(mem.read(0xFE00 + i), mem.read(((page as u16) << 8) + i));
        }
    }
}

#[test]
fn writes_to_rom_area_never_change_rom() {
    let mut mem = Memory::new();
    let mut rom = vec![0u8; 0x8000];
    rom[0x1234] = 0x77;
    mem.load_rom(&rom, false).unwrap();
    mem.write(0x1234, 0x00);
    assert_eq!(mem.read(0x1234), 0x77);
    assert_eq!(mem.read(0xA000), 0xFF);
    mem.write(0xA000, 0x12);
    assert_eq!(mem.read(0xA000), 0xFF);
    assert_eq!(mem.get_cartridge_ram().len(), 0);
}

#[test]
fn reads_past_the_end_of_rom_are_open_bus() {
    let mut mem = Memory::new();
    let mut rom = vec![0u8; 0x4000 + 0x150];
    rom[0x0147] = 0x19;
    mem.load_rom(&rom, false).unwrap();
    assert_eq!(mem.read(0x414F), 0x00);
    assert_eq!(mem.read(0x4150), 0xFF);
    assert_eq!(mem.read(0x7FFF), 0xFF);
    assert_eq!(mem.read(0x0000), 0x00);
}

#[test]
fn load_rom_too_small_reports_and_keeps_state() {
    let mut mem = Memory::new();
    mem.write(0xC000, 0x99);
    assert_eq!(mem.load_rom(&vec![0u8; 0x14F], false), Err(EmuError::RomTooSmall));
    assert_eq!(mem.read(0xC000), 0x99);
    assert!(mem.load_rom(&vec![0u8; 0x150], false).is_ok());
    assert_eq!(mem.read(0xC000), 0x00);
}

#[test]
fn header_selects_cartridge_type_and_ram_size() {
    let cases: [(u8, MbcType); 12] = [
        (0x00, MbcType::RomOnly),
        (0x01, MbcType::Mbc1),
        (0x03, MbcType::Mbc1),
        (0x0F, MbcType::Mbc3),
        (0x13, MbcType::Mbc3),
        (0x19, MbcType::Mbc5),
        (0x1E, MbcType::Mbc5),
        (0x22, MbcType::Mbc7),
        (0xFC, MbcType::PocketCamera),
        (0x05, MbcType::Mbc5),
        (0x20, MbcType::Mbc5),
        (0xFF, MbcType::Mbc5),
    ];
    for (byte, kind) in cases {
        let mut mem = Memory::new();
        mem.load_rom(&make_rom(byte, 0x02), false).unwrap();
        assert_eq!(mem.get_mbc_type(), kind);
        assert_eq!(mem.get_rom_bank_count(), 2);
    }
    let sizes: [(u8, usize); 7] = [
        (0, 8 * 1024),
        (1, 2 * 1024),
        (2, 8 * 1024),
        (3, 32 * 1024),
        (4, 128 * 1024),
        (5, 64 * 1024),
        (6, 128 * 1024),
    ];
    for (byte, size) in sizes {
        assert_eq!(gbcam_core::memory::cartridge::ram_size_from_header(byte), size);
        let mut mem = Memory::new();
        mem.load_rom(&make_rom(0x1B, byte), false).unwrap();
        assert_eq!(mem.get_cartridge_ram().len(), size);
    }
    let mut mem = Memory::new();
    mem.load_rom(&make_rom(0xFC, 0x00), false).unwrap();
    assert_eq!(mem.get_cartridge_ram().len(), 128 * 1024);
    mem.load_rom(&make_rom(0x22, 0x00), false).unwrap();
    assert_eq!(mem.get_cartridge_ram().len(), 256);
}

#[test]
fn serial_control_sends_the_data_byte() {
    let mut mem = Memory::new();
    mem.write(0xFF01, b'O');
    mem.write(0xFF02, 0x81);
    mem.write(0xFF01, b'K');
    mem.write(0xFF02, 0x01);
    mem.write(0xFF02, 0x80);
    assert_eq!(mem.read(0xFF02), 0x00);
    assert_eq!(mem.get_serial_output(), &vec![b'O', b'K']);
    assert_eq!(mem.get_serial_output_string(), "OK");
    mem.clear_serial_output();
    assert_eq!(mem.get_serial_output_string(), "");
}

#[test]
fn serial_output_replaces_invalid_utf8() {
    let mut mem = Memory::new();
    mem.write(0xFF01, 0xFF);
    mem.write(0xFF02, 0x80);
    assert_eq!(mem.get_serial_output_string(), "\u{FFFD}");
}

#[test]
fn power_on_io_defaults() {
    let mem = Memory::new();
    let io = mem.get_io_state();
    assert_eq!(io.lcdc, 0x91);
    assert_eq!(io.stat, 0x85);
    assert_eq!(io.ly, 0x00);
    assert_eq!(io.if_reg, 0xE1);
    assert_eq!(io.bgp, 0xFC);
    assert_eq!(mem.read(0xFF48), 0xFF);
    assert_eq!(mem.read(0xFF02), 0x7E);
    assert!(mem.is_lcd_enabled());
    let dbg = mem.get_debug_state();
    assert_eq!(dbg.rom_bank, 1);
    assert_eq!(dbg.ram_bank, 0);
    assert!(!dbg.ram_enabled);
    assert_eq!(dbg.mbc_type, MbcType::RomOnly);
}

#[test]
fn cgb_hdma_general_purpose_copies_at_once() {
    let mut mem = Memory::new();
    mem.load_rom(&vec![0u8; 0x8000], true).unwrap();
    for i in 0..0x40u16 {
        mem.write(0xC000 + i, (i as u8) + 1);
    }
    mem.write(0xFF51, 0xC0);
    mem.write(0xFF52, 0x0F); // low nibble ignored
    mem.write(0xFF53, 0x01);
    mem.write(0xFF54, 0x23); // dest 0x8120
    mem.write(0xFF55, 0x01); // two blocks
    for i in 0..0x20u16 {
        assert_eq!(mem.read(0x8120 + i), (i as u8) + 1);
    }
    assert_eq!(mem.read(0x8140), 0x00);
    assert_eq!(mem.read(0xFF55), 0xFF);
}

#[test]
fn cgb_hdma_hblank_moves_one_block_per_tick() {
    let mut mem = Memory::new();
    mem.load_rom(&vec![0u8; 0x8000], true).unwrap();
    for i in 0..0x30u16 {
        mem.write(0xC000 + i, 0x80 | i as u8);
    }
    mem.write(0xFF51, 0xC0);
    mem.write(0xFF52, 0x00);
    mem.write(0xFF53, 0x00);
    mem.write(0xFF54, 0x00);
    mem.write(0xFF55, 0x81); // H-blank mode, two blocks
    assert_eq!(mem.read(0xFF55), 0x01);
    assert_eq!(mem.read(0x8000), 0x00);
    mem.tick_hdma_hblank();
    assert_eq!(mem.read(0x8000), 0x80);
    assert_eq!(mem.read(0x800F), 0x8F);
    assert_eq!(mem.read(0x8010), 0x00);
    assert_eq!(mem.read(0xFF55), 0x00);
    mem.tick_hdma_hblank();
    assert_eq!(mem.read(0x8010), 0x90);
    assert_eq!(mem.read(0xFF55), 0xFF);
    mem.tick_hdma_hblank();
    assert_eq!(mem.read(0x8020), 0x00);
}

#[test]
fn cgb_palette_index_wraps_at_0x40() {
    let mut mem = Memory::new();
    mem.load_rom(&vec![0u8; 0x8000], true).unwrap();
    mem.write(0xFF68, 0x80 | 0x3F);
    mem.write(0xFF69, 0xAB);
    assert_eq!(mem.read(0xFF68), 0x80 | 0x40);
    mem.write(0xFF69, 0xCD);
    assert_eq!(mem.read(0xFF68) & 0x3F, 1);
    let (lo, _) = mem.read_bg_palette(0, 0);
    assert_eq!(lo, 0xCD);
    let (_, hi) = mem.read_bg_palette(7, 3);
    assert_eq!(hi, 0xAB);
    // without auto-increment the index stays
    mem.write(0xFF68, 0x02);
    mem.write(0xFF69, 0x11);
    mem.write(0xFF69, 0x22);
    assert_eq!(mem.read(0xFF69), 0x22);
    assert_eq!(mem.read(0xFF68), 0x42);
}

#[test]
fn cgb_wram_bank_zero_selects_bank_one() {
    let mut mem = Memory::new();
    mem.load_rom(&vec![0u8; 0x8000], true).unwrap();
    mem.write(0xD000, 0x11);
    mem.write(0xFF70, 0x00);
    assert_eq!(mem.read(0xD000), 0x11);
    assert_eq!(mem.read(0xFF70), 0xF9);
    mem.write(0xFF70, 0x07);
    mem.write(0xD000, 0x77);
    assert_eq!(mem.read(0xF000), 0x77);
}

#[test]
fn dmg_hdma_registers_are_open_bus() {
    let mut mem = Memory::new();
    mem.load_rom(&vec![0u8; 0x8000], false).unwrap();
    for reg in [0xFF51u16, 0xFF52, 0xFF53, 0xFF54, 0xFF55, 0xFF56, 0xFF69, 0xFF6A, 0xFF6B] {
        mem.write(reg, 0x12);
        assert_eq!(mem.read(reg), 0xFF);
    }
}

#[test]
fn header_is_parsed() {
    assert!(parse_header(&vec![0u8; 0x14F]).is_none());
    let mut rom = vec![0u8; 0x150];
    rom[0x134..0x139].copy_from_slice(b"HELLO");
    rom[0x13A] = b'X'; // behind the first NUL: not part of the title
    rom[0x147] = 0x13;
    rom[0x148] = 0x06;
    rom[0x149] = 0x03;
    let header = parse_header(&rom).unwrap();
    assert_eq!(header.title, b"HELLO");
    assert_eq!(header.cart_type, 0x13);
    assert_eq!(header.mbc_type, MbcType::Mbc3);
    assert_eq!(header.rom_size_code, 0x06);
    assert_eq!(header.ram_size, 32 * 1024);
    assert_eq!(header.checksum, 0x00);
    assert!(!header.checksum_valid);
    let expected =
        rom[0x134..=0x14C].iter().fold(0u8, |acc, &b| acc.wrapping_sub(b).wrapping_sub(1));
    assert_eq!(checksum_of(&rom), expected);
    rom[0x14D] = expected;
    assert!(parse_header(&rom).unwrap().checksum_valid);
    // A title that fills its field, and the camera's fixed RAM size.
    rom[0x134..0x144].copy_from_slice(b"SIXTEEN_LETTERS!");
    rom[0x147] = 0xFC;
    rom[0x149] = 0x00;
    let header = parse_header(&rom).unwrap();
    assert_eq!(header.title, b"SIXTEEN_LETTERS!");
    assert_eq!(header.mbc_type, MbcType::PocketCamera);
    assert_eq!(header.ram_size, 128 * 1024);
    // An empty title.
    rom[0x134] = 0;
    assert!(parse_header(&rom).unwrap().title.is_empty());
    // A mismatch is not refused.
    let mut mem = Memory::new();
    rom[0x14D] ^= 0xFF;
    assert!(mem.load_rom(&rom, false).is_ok());
}
