//! Whole-machine tests: frames, buttons, buffers and the host API.

use gbcam_core::error::EmuError;
use gbcam_core::log::{LogCategory, Logger, RateLimiter};
use gbcam_core::ppu::PpuMode;
use gbcam_core::system::{DoubleBuffer, GameBoyCore};

/// A ROM whose program at 0x0100 is `program`, followed by an endless loop.
fn rom_with(program: &[u8], cart_type: u8) -> Vec<u8> {
    let mut rom = vec![0u8; 0x8000];
    rom[0x100..0x100 + program.len()].copy_from_slice(program);
    let end = 0x100 + program.len();
    rom[end] = 0x18; // JR -2
    rom[end + 1] = 0xFE;
    rom[0x0147] = cart_type;
    rom
}

#[test]
fn a_frame_of_nops_runs_70224_cycles_and_returns_to_line_zero() {
    let mut core = GameBoyCore::new();
    core.load_rom(&vec![0u8; 0x8000], false).unwrap();
    // IE is 0 at power-on: no interrupt is ever serviced.
    let instructions = core.step_frame().unwrap();
    assert_eq!(instructions, 70224 / 4);
    assert_eq!(core.total_cycles, 70224);
    assert_eq!(core.instruction_count, 70224 / 4);
    assert_eq!(core.frame_count, 1);
    assert_eq!(core.ppu.line, 0);
    assert_eq!(core.ppu.mode, PpuMode::OamScan);
    assert_eq!(core.ppu.cycles, 0);
    assert_eq!(core.read_memory(0xFF44), 0);
    // The default LCDC draws the background: tile 0 is blank, BGP maps
    // colour 0 to white.
    let front = core.frame_buffer_front();
    assert_eq!(front.len(), 160 * 144 * 4);
    assert!(front.iter().all(|&b| b == 0xFF));
    assert_eq!(front, core.ppu.get_buffer());
}

#[test]
fn ly_and_mode_stay_at_line_start_while_overshoot_is_small() {
    let mut core = GameBoyCore::new();
    // 12-cycle instructions: 70224 = 5852 * 12, no overshoot.
    core.load_rom(&rom_with(&[], 0), false).unwrap();
    for _ in 0..3 {
        assert_eq!(core.step_frame().unwrap(), 5852);
        assert_eq!(core.ppu.line, 0);
        assert_eq!(core.ppu.mode, PpuMode::OamScan);
    }
}

#[test]
fn lcd_off_leaves_the_ppu_in_hblank() {
    let mut core = GameBoyCore::new();
    // LD A,0x11 ; LDH (0x40),A ; loop
    core.load_rom(&rom_with(&[0x3E, 0x11, 0xE0, 0x40], 0), false).unwrap();
    core.step_frame().unwrap();
    assert_eq!(core.ppu.line, 0);
    assert_eq!(core.ppu.mode, PpuMode::HBlank);
    assert_eq!(core.read_memory(0xFF44), 0);
}

#[test]
fn step_single_runs_one_instruction_and_its_peripherals() {
    let mut core = GameBoyCore::new();
    core.load_rom(&rom_with(&[0x00, 0xC3, 0x00, 0x02], 0), false).unwrap();
    assert_eq!(core.step_single(), Ok(4));
    assert_eq!(core.cpu.pc, 0x0101);
    assert_eq!(core.ppu.cycles, 4);
    assert_eq!(core.bus.timer.div_counter, 0xABCC + 4);
    assert_eq!(core.step_single(), Ok(16));
    assert_eq!(core.cpu.pc, 0x0200);
    assert_eq!(core.ppu.cycles, 20);
    assert_eq!(core.total_cycles, 20);
}

#[test]
fn unimplemented_opcode_stops_the_frame() {
    let mut core = GameBoyCore::new();
    core.load_rom(&rom_with(&[0x00, 0x00, 0xDD], 0), false).unwrap();
    let before = core.frame_buffer_front().clone();
    assert_eq!(core.step_frame(), Err(EmuError::UnimplementedOpcode(0xDD)));
    assert_eq!(core.cpu.pc, 0x0102);
    assert_eq!(core.frame_count, 0);
    assert_eq!(core.frame_buffer_front(), &before);
    assert_eq!(core.step_single(), Err(EmuError::UnimplementedOpcode(0xDD)));
    assert_eq!(core.cpu.pc, 0x0102);
}

#[test]
fn vblank_interrupt_is_serviced_once_per_frame() {
    let mut core = GameBoyCore::new();
    // 0x0040: INC B ; RETI. Main: LD A,1 ; LDH (0xFF),A ; loop.
    let mut rom = rom_with(&[0x3E, 0x01, 0xE0, 0xFF], 0);
    rom[0x40] = 0x04;
    rom[0x41] = 0xD9;
    core.load_rom(&rom, false).unwrap();
    core.cpu.b = 0;
    // IF bit 0 is set at power-on, so the handler runs once right away.
    core.step_frame().unwrap();
    assert_eq!(core.cpu.b, 2);
    core.step_frame().unwrap();
    assert_eq!(core.cpu.b, 3);
}

#[test]
fn timer_interrupt_reaches_the_cpu() {
    let mut core = GameBoyCore::new();
    // 0x0050: INC C ; RETI. Main: enable timer at 262144 Hz, IE = Timer, loop.
    let mut rom = rom_with(
        &[0x3E, 0x05, 0xE0, 0x07, 0x3E, 0x04, 0xE0, 0xFF, 0xAF, 0xE0, 0x0F],
        0,
    );
    rom[0x50] = 0x0C;
    rom[0x51] = 0xD9;
    core.load_rom(&rom, false).unwrap();
    core.cpu.c = 0;
    core.step_frame().unwrap();
    // TIMA overflows every 256 * 16 cycles: 17 times in a frame.
    assert_eq!(core.cpu.c, 17);
}

#[test]
fn double_speed_halves_game_boy_time() {
    let mut core = GameBoyCore::new();
    // LD A,1 ; LDH (0x4D),A ; STOP ; loop
    core.load_rom(&rom_with(&[0x3E, 0x01, 0xE0, 0x4D, 0x10, 0x00], 0), true).unwrap();
    let instructions = core.step_frame().unwrap();
    assert!(core.bus.memory.is_double_speed());
    // 8 + 12 cycles at normal speed, STOP and the loop at double speed.
    assert!(instructions > 11000);
    assert_eq!(core.ppu.line, 0);
}

#[test]
fn set_button_presses_and_requests_the_joypad_interrupt() {
    let mut core = GameBoyCore::new();
    core.load_rom(&vec![0u8; 0x8000], false).unwrap();
    core.bus.memory.write_io_direct(0x0F, 0);
    core.set_button(0, true);
    assert!(core.bus.joypad.a);
    assert_eq!(core.bus.memory.read_io_direct(0x0F), 0x10);
    core.bus.memory.write_io_direct(0x0F, 0);
    core.set_button(0, false);
    assert!(!core.bus.joypad.a);
    assert_eq!(core.bus.memory.read_io_direct(0x0F), 0x00);
    core.set_button(8, true);
    assert_eq!(core.bus.memory.read_io_direct(0x0F), 0x00);
    core.set_button(7, true);
    assert!(core.bus.joypad.down);
    core.bus.write(0xFF00, 0x20);
    assert_eq!(core.bus.read(0xFF00) & 0x0F, 0x07);
}

#[test]
fn load_rom_resets_everything_or_nothing() {
    let mut core = GameBoyCore::new();
    core.load_rom(&rom_with(&[0x3E, 0x55, 0xEA, 0x00, 0xC0], 0), false).unwrap();
    core.step_frame().unwrap();
    assert_eq!(core.read_memory(0xC000), 0x55);
    let pc = core.cpu.pc;
    assert_eq!(core.load_rom(&[0u8; 0x100], false), Err(EmuError::RomTooSmall));
    assert_eq!(core.cpu.pc, pc);
    assert_eq!(core.read_memory(0xC000), 0x55);
    core.load_rom(&vec![0u8; 0x8000], true).unwrap();
    assert_eq!(core.cpu.pc, 0x0100);
    assert_eq!(core.cpu.sp, 0xFFFE);
    assert_eq!(core.cpu.af(), 0x01B0);
    assert_eq!(core.cpu.bc(), 0x0013);
    assert_eq!(core.cpu.de(), 0x00D8);
    assert_eq!(core.cpu.hl(), 0x014D);
    assert!(core.cpu.ime);
    assert_eq!(core.read_memory(0xC000), 0x00);
    assert!(core.ppu.cgb_mode);
    assert!(core.bus.memory.is_cgb_mode());
    assert_eq!(core.ppu.line, 0);
    assert_eq!(core.bus.timer.div_counter, 0xABCC);
}

#[test]
fn debug_reads_do_not_disturb() {
    let mut core = GameBoyCore::new();
    let mut rom = vec![0u8; 0x8000];
    rom[0x7FFF] = 0x99;
    core.load_rom(&rom, true).unwrap();
    core.bus.memory.write(0xC000, 1);
    core.bus.memory.write(0xC001, 2);
    core.bus.memory.write(0xFFFF, 3);
    assert_eq!(core.read_range(0xC000, 3), vec![1, 2, 0]);
    assert_eq!(core.read_range(0xFFFF, 2), vec![3, 0]);
    assert_eq!(core.read_range(0x7FFF, 1), vec![0x99]);
    assert!(core.read_range(0x1234, 0).is_empty());
    core.bus.memory.write(0xFF4F, 1);
    core.bus.memory.write(0x9FFF, 0x77);
    assert_eq!(core.read_vram_bank(1, 0x9FFE, 3), vec![0x00, 0x77, 0xFF]);
    assert_eq!(core.read_vram_bank(0, 0x9FFF, 1), vec![0x00]);
    assert_eq!(core.read_vram_bank(3, 0x9FFF, 1), vec![0x77]);
    assert_eq!(core.read_memory(0xFF4F), 0xFF);
}

#[test]
fn camera_live_view_follows_captures() {
    let mut core = GameBoyCore::new();
    core.load_rom(&rom_with(&[], 0xFC), false).unwrap();
    assert!(core.is_camera_cartridge());
    assert!(!core.is_camera_ready());
    assert!(!core.update_camera_live());
    let image: Vec<u8> = (0..128 * 112).map(|i| if i % 128 < 64 { 0 } else { 255 }).collect();
    core.set_camera_image(&image).unwrap();
    assert!(core.is_camera_ready());
    assert_eq!(core.camera_image(), image);
    core.bus.write(0x4000, 0x10);
    core.bus.write(0xA000, 0x01);
    assert!(core.is_camera_capture_pending());
    core.step_frame().unwrap();
    assert!(core.is_camera_capture_pending());
    assert!(!core.update_camera_live());
    core.complete_camera_capture(&image).unwrap();
    assert!(!core.is_camera_capture_pending());
    assert!(core.update_camera_live());
    assert!(!core.update_camera_live());
    let live = core.camera_live_front();
    assert_eq!(live.len(), 128 * 112 * 4);
    assert_eq!(&live[0..4], &[0x00, 0x00, 0x00, 255]);
    assert_eq!(&live[127 * 4..128 * 4], &[0xFF, 0xFF, 0xFF, 255]);
    assert_eq!(live, &core.decode_camera_photo(0));
}

#[test]
fn camera_photo_errors_at_the_host_api() {
    let mut core = GameBoyCore::new();
    core.load_rom(&rom_with(&[], 0xFC), false).unwrap();
    let rgba = vec![0x80u8; 128 * 112 * 4];
    assert_eq!(core.encode_camera_photo(0, &rgba), Err(EmuError::InvalidSlot));
    assert_eq!(core.encode_camera_photo(31, &rgba), Err(EmuError::InvalidSlot));
    assert_eq!(core.encode_camera_photo(1, &rgba[1..]), Err(EmuError::InvalidImageSize));
    assert_eq!(core.clear_camera_photo_slot(0), Err(EmuError::InvalidSlot));
    assert_eq!(core.clear_camera_photo_slot(31), Err(EmuError::InvalidSlot));
    assert_eq!(core.set_camera_image(&[0u8; 3]), Err(EmuError::InvalidImageSize));
    assert_eq!(core.encode_camera_photo(5, &rgba), Ok(true));
    assert_eq!(core.decode_camera_photo(5)[0], 0xAA);
    assert_eq!(core.clear_camera_photo_slot(5), Ok(()));
    assert!(core.decode_camera_photo(5).is_empty());
    let save = core.get_cartridge_ram();
    assert_eq!(save.len(), 128 * 1024);
    let mut other = GameBoyCore::new();
    other.load_rom(&rom_with(&[], 0xFC), false).unwrap();
    other.encode_camera_photo(9, &rgba).unwrap();
    let save = other.get_cartridge_ram();
    core.load_cartridge_ram(&save);
    assert_eq!(core.decode_camera_photo(9)[0], 0xAA);
    let mut plain = GameBoyCore::new();
    plain.load_rom(&rom_with(&[], 0x00), false).unwrap();
    assert_eq!(plain.encode_camera_photo(5, &rgba), Ok(false));
    assert!(!plain.is_camera_cartridge());
    assert_eq!(EmuError::InvalidSlot.message(), "invalid photo slot");
    assert_eq!(EmuError::RomTooSmall.message(), "ROM too small");
    assert_eq!(EmuError::InvalidImageSize.message(), "invalid image size");
    assert_eq!(EmuError::UnimplementedOpcode(0xDD).message(), "unimplemented opcode");
}

#[test]
fn accelerometer_reaches_an_mbc7() {
    let mut core = GameBoyCore::new();
    core.load_rom(&rom_with(&[], 0x22), false).unwrap();
    core.set_accelerometer(-0x1000, 0x2000);
    core.bus.write(0x0000, 0x0A);
    core.bus.write(0x4000, 0x40);
    core.bus.write(0xA000, 0x55);
    core.bus.write(0xA010, 0xAA);
    let x = 0x81D0u16 - 0x70;
    let y = 0x81D0u16 + 0xE0;
    assert_eq!(core.read_memory(0xA020), x as u8);
    assert_eq!(core.read_memory(0xA030), (x >> 8) as u8);
    assert_eq!(core.read_memory(0xA040), y as u8);
    assert_eq!(core.read_memory(0xA050), (y >> 8) as u8);
}

#[test]
fn double_buffer_swaps_front_and_back() {
    let mut buf: DoubleBuffer<8> = DoubleBuffer::new();
    assert_eq!(buf.front(), &vec![0u8; 8]);
    buf.back_mut()[3] = 7;
    assert_eq!(buf.front()[3], 0);
    buf.swap();
    assert_eq!(buf.front()[3], 7);
    buf.back_mut()[0] = 9;
    assert_eq!(buf.front()[0], 0);
    buf.set_back(vec![1u8; 8]);
    buf.swap();
    assert_eq!(buf.front(), &vec![1u8; 8]);
    buf.swap();
    assert_eq!(buf.front()[3], 7);
}

#[test]
fn rate_limiter_lets_the_first_calls_speak() {
    let mut limiter = RateLimiter::new(3);
    let said: Vec<bool> = (0..6).map(|_| limiter.should_log()).collect();
    assert_eq!(said, vec![true, true, true, false, false, false]);
    assert_eq!(limiter.count(), 6);
    let mut limiter = RateLimiter::new(2);
    let said: Vec<bool> = (0..9).map(|_| limiter.should_log_interval(4)).collect();
    assert_eq!(said, vec![true, true, false, false, true, false, false, false, true]);
    let mut limiter = RateLimiter::new(0);
    let said: Vec<bool> = (0..3).map(|_| limiter.should_log_interval(0)).collect();
    assert_eq!(said, vec![true, false, false]);
    let mut limiter = RateLimiter::new(1);
    limiter.counter = u32::MAX;
    assert!(!limiter.should_log());
    assert_eq!(limiter.count(), 0);
}

#[test]
fn log_lines_carry_the_category_tag() {
    assert_eq!(LogCategory::Camera.prefix(), "[Camera]");
    assert_eq!(LogCategory::Memory.prefix(), "[Memory]");
    assert_eq!(LogCategory::Cpu.prefix(), "[CPU]");
    assert_eq!(LogCategory::Ppu.prefix(), "[PPU]");
    assert_eq!(LogCategory::General.prefix(), "[EMU]");
    assert_eq!(Logger::info(LogCategory::Cpu, "halted"), "[CPU] halted");
    assert_eq!(Logger::warn(LogCategory::General, "LCD is disabled"), "[EMU] LCD is disabled");
    assert_eq!(Logger::error(LogCategory::Ppu, ""), "[PPU] ");
    let mut limiter = RateLimiter::new(1);
    assert_eq!(
        Logger::info_limited(LogCategory::Camera, &mut limiter, "capture"),
        Some("[Camera] capture".to_string())
    );
    assert_eq!(Logger::info_limited(LogCategory::Camera, &mut limiter, "capture"), None);
    assert_eq!(
        Logger::info_interval(LogCategory::Camera, &mut limiter, 2, "x"),
        Some("[Camera] x".to_string())
    );
    assert_eq!(Logger::info_interval(LogCategory::Camera, &mut limiter, 2, "x"), None);
}

#[test]
fn palette_colours_as_rgb888() {
    let mut core = GameBoyCore::new();
    core.load_rom(&vec![0u8; 0x8000], true).unwrap();
    core.bus.write(0xFF68, 0x80 | (5 * 8 + 2 * 2));
    core.bus.write(0xFF69, 0x1F | 0x20); // red 31, green low bits 001
    core.bus.write(0xFF69, 0x7C); // blue 31
    assert_eq!(core.get_bg_palette_color(5, 2), 0xFF08FF);
    assert_eq!(core.get_bg_palette_color(0, 0), 0x000000);
    core.bus.write(0xFF6A, 0x80);
    core.bus.write(0xFF6B, 0xFF);
    core.bus.write(0xFF6B, 0x7F);
    assert_eq!(core.get_obj_palette_color(0, 0), 0xFFFFFF);
}
