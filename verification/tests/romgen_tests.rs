//! Test cartridge tests: the image itself, and the image run on the core.

use gbcam_core::memory::cartridge::header::parse_header;
use gbcam_core::memory::cartridge::MbcType;
use gbcam_core::romgen::build_rom;
use gbcam_core::romgen::config::{CameraConfig, DitherPattern};
use gbcam_core::romgen::data::{
    CAPTURE_LOOP_ADDR, DITHER_LOW_LIGHT, NINTENDO_LOGO, PATTERN_STANDARD, SAVE_ROUTINE_ADDR,
};
use gbcam_core::romgen::dither::{generate_dither_matrix, interpolate_threshold};
use gbcam_core::romgen::code::program;
use gbcam_core::system::GameBoyCore;

#[test]
fn test_rom_code_size_within_bounds() {
    let config = CameraConfig::default();
    let rom = build_rom(&config);

    // Find last non-zero byte in code region (0x0150 to 0x05FF)
    let mut last_code_addr = 0x0150;
    for i in 0x0150..0x0600 {
        if rom[i] != 0 {
            last_code_addr = i;
        }
    }

    let code_size = last_code_addr - 0x0150 + 1;
    let space_before_font = 0x0600 - last_code_addr - 1;

    // Code must not overlap font data at 0x0600
    assert!(
        last_code_addr < 0x0600,
        "Code extends past 0x05FF into font data region! Last byte at 0x{:04X}",
        last_code_addr
    );

    // Verify font data at 0x0600 is present
    assert_eq!(rom[0x0600], 0xFF, "Font data at 0x0600 should start with 0xFF");

    // Verify dither data is intact at 0x1000
    assert_ne!(rom[0x1000], 0, "Dither data at 0x1000 should be non-zero");

    println!(
        "Code size: {} bytes (0x0150-0x{:04X}), {} bytes spare before font data",
        code_size, last_code_addr, space_before_font
    );
}

#[test]
fn test_rom_header_valid() {
    let config = CameraConfig::default();
    let rom = build_rom(&config);

    // Check entry point
    assert_eq!(rom[0x100], 0x00, "Expected NOP at entry point");
    assert_eq!(rom[0x101], 0xC3, "Expected JP at entry point");

    // Check Nintendo logo present
    assert_eq!(rom[0x104], 0xCE, "Nintendo logo should start at 0x104");

    // Check cartridge type (Pocket Camera)
    assert_eq!(rom[0x147], 0xFC, "Cartridge type should be 0xFC (Pocket Camera)");

    // Verify header checksum
    let checksum: u8 =
        rom[0x134..=0x14C].iter().fold(0u8, |acc, &b| acc.wrapping_sub(b).wrapping_sub(1));
    assert_eq!(rom[0x14D], checksum, "Header checksum mismatch");
}

// ---------------------------------------------------------------------------
// Further tests
// ---------------------------------------------------------------------------

#[test]
fn image_layout() {
    let config = CameraConfig::default();
    let rom = build_rom(&config);
    assert_eq!(rom.len(), 32768);
    assert_eq!(&rom[0x100..0x104], &[0x00, 0xC3, 0x50, 0x01]);
    assert_eq!(&rom[0x104..0x134], &NINTENDO_LOGO);
    assert_eq!(&rom[0x134..0x13B], b"CAMTEST");
    assert!(rom[0x13B..0x147].iter().all(|&b| b == 0));
    assert_eq!(rom[0x148], 0x00);
    assert_eq!(rom[0x149], 0x04);
    assert_eq!(rom[0x14D], 0xD6);
    let header = parse_header(&rom).unwrap();
    assert_eq!(header.title, b"CAMTEST");
    assert_eq!(header.mbc_type, MbcType::PocketCamera);
    assert!(header.checksum_valid);
    assert!(rom[..0x100].iter().all(|&b| b == 0));
    assert!(rom[0x150 + 469..0x600].iter().all(|&b| b == 0));
    assert!(rom[0x710..0x1000].iter().all(|&b| b == 0));
    assert!(rom[0x1300..].iter().all(|&b| b == 0));
    // Glyphs: inverted masks, each row in both bit planes.
    assert_eq!(&rom[0x600..0x604], &[0xFF, 0xFF, 0x8F, 0x8F]); // g
    assert_eq!(&rom[0x670..0x674], &[0x8F, 0x8F, 0x77, 0x77]); // 0
    assert_eq!(&rom[0x700..0x704], &[0x8F, 0x8F, 0x77, 0x77]); // 9
    assert_eq!(rom[0x70E], 0xFF);
    // One dither matrix per contrast level.
    for level in 0..16u8 {
        let matrix = generate_dither_matrix(&PATTERN_STANDARD, false, level);
        let at = 0x1000 + level as usize * 48;
        assert_eq!(&rom[at..at + 48], &matrix);
    }
}

#[test]
fn program_carries_the_configuration() {
    let config = CameraConfig {
        pattern: DitherPattern::Maze,
        contrast: 3,
        high_light: true,
        exposure: 0xBEEF,
        gain: 2,
        edge_enhance: 5,
        voltage_offset: 0x42,
        invert: true,
        release: false,
    };
    let code = program(&config);
    assert_eq!(code.len(), 469);
    assert_eq!(&code[0..7], &[0x3E, 0x0A, 0xEA, 0x00, 0x00, 0x3E, 0xEF]);
    assert_eq!(code[10], 0xBE);
    assert_eq!(code[14], 0x03);
    // The call goes to the save routine, the closing jump to the capture loop.
    let call = (CAPTURE_LOOP_ADDR - 0x150) as usize + 88;
    assert_eq!(code[call], 0xCD);
    assert_eq!(code[call + 1], (SAVE_ROUTINE_ADDR & 0xFF) as u8);
    assert_eq!(code[call + 2], (SAVE_ROUTINE_ADDR >> 8) as u8);
    let save = (SAVE_ROUTINE_ADDR - 0x150) as usize;
    assert_eq!(&code[save - 3..save], &[0xC3, 0xF4, 0x01]);
    assert_eq!(&code[save..save + 4], &[0xF0, 0x85, 0xB7, 0xC8]);
    assert_eq!(code[468], 0xC9);
    // Sensor registers 1, 4 and 5.
    let capture = call + 3;
    assert_eq!(&code[capture..capture + 7], &[0x3E, 0x10, 0xEA, 0x00, 0x40, 0x3E, 0x20]);
    assert_eq!(code[capture + 20], 0x3E);
    assert_eq!(code[capture + 21], 0x50);
    assert_eq!(code[capture + 26], 0x42);
    let rom = build_rom(&config);
    assert_eq!(&rom[0x150..0x150 + 469], &code[..]);
    let matrix = generate_dither_matrix(&DitherPattern::Maze.data(), true, 15);
    assert_eq!(&rom[0x1000 + 15 * 48..0x1000 + 16 * 48], &matrix);
    assert_eq!(matrix, [0x92; 48]);
}

#[test]
fn thresholds_are_interpolated_by_rank() {
    assert_eq!(interpolate_threshold(0x80, 0x90, 0), 0x80);
    assert_eq!(interpolate_threshold(0x80, 0x90, 15), 0x8F);
    assert_eq!(interpolate_threshold(0x80, 0x94, 3), 0x83); // 20 * 3 / 16 = 3
    assert_eq!(interpolate_threshold(0x90, 0x80, 3), 0x8D); // rounds toward `low`
    assert_eq!(interpolate_threshold(0x90, 0x80, 1), 0x8F);
    assert_eq!(interpolate_threshold(0x10, 0xFF, 255), 0xFF); // held within a byte
    assert_eq!(interpolate_threshold(0xFF, 0x10, 255), 0x00);
    let matrix = generate_dither_matrix(&PATTERN_STANDARD, false, 9);
    let levels = DITHER_LOW_LIGHT[9];
    for pos in 0..16 {
        let rank = PATTERN_STANDARD[pos] as usize;
        for t in 0..3 {
            assert_eq!(
                matrix[pos * 3 + t],
                interpolate_threshold(levels[t], levels[t + 1], rank)
            );
        }
    }
    assert_eq!(&matrix[0..3], &[0x8E, 0x98, 0xA8]); // rank 0
    assert_eq!(&matrix[9..12], &[0x97, 0xA7, 0xCD]); // rank 15
}

#[test]
fn pattern_names_and_default_configuration() {
    let all = [
        (DitherPattern::Standard, "standard"),
        (DitherPattern::Block2x2, "2x2"),
        (DitherPattern::Grid, "grid"),
        (DitherPattern::Maze, "maze"),
        (DitherPattern::Nest, "nest"),
        (DitherPattern::Fuzz, "fuzz"),
        (DitherPattern::Vertical, "vertical"),
        (DitherPattern::Horizontal, "horizontal"),
        (DitherPattern::Diagonal, "diagonal"),
    ];
    for (pattern, name) in all {
        assert_eq!(pattern.name(), name);
        assert!(pattern.data().iter().all(|&rank| rank < 16));
    }
    let config = CameraConfig::default();
    assert_eq!(config.pattern, DitherPattern::Standard);
    assert_eq!(config.contrast, 9);
    assert!(!config.high_light);
    assert_eq!(config.exposure, 0x1000);
    assert_eq!(config.gain, 0);
    assert_eq!(config.edge_enhance, 0);
    assert_eq!(config.voltage_offset, 0x80);
    assert!(!config.invert);
}

/// Runs frames, completing captures as the host would with an analog stage
/// that passes the frame through; returns the number of captures completed.
fn run_frames(core: &mut GameBoyCore, frames: usize) -> usize {
    let mut captures = 0;
    for _ in 0..frames {
        core.step_frame().unwrap();
        if core.is_camera_capture_pending() {
            let image = core.camera_image();
            core.complete_camera_capture(&image).unwrap();
            captures += 1;
        }
    }
    captures
}

#[test]
fn the_cartridge_runs_captures_and_shows_them() {
    let config = CameraConfig::default();
    let rom = build_rom(&config);
    let mut core = GameBoyCore::new();
    core.load_rom(&rom, false).unwrap();
    assert!(core.is_camera_cartridge());
    assert_eq!(core.bus.memory.get_mbc_type(), MbcType::PocketCamera);
    // Left half dark, right half bright.
    let image: Vec<u8> = (0..128 * 112).map(|i| if i % 128 < 64 { 0x10 } else { 0xF0 }).collect();
    core.set_camera_image(&image).unwrap();

    let captures = run_frames(&mut core, 12);
    assert!(captures >= 1, "the program never started a capture");

    // Setup left all slots empty and the sensor configured.
    assert_eq!(core.bus.memory.camera_photo_count(), 0);
    assert_eq!(core.bus.memory.camera_reg(1), 0x02);
    assert_eq!(core.bus.memory.camera_reg(2), 0x00);
    assert_eq!(core.bus.memory.camera_reg(3), 0x10);
    assert_eq!(core.bus.memory.camera_reg(4), 0x00);
    assert_eq!(core.bus.memory.camera_reg(5), 0x80);
    let matrix = generate_dither_matrix(&PATTERN_STANDARD, false, 9);
    for (k, t) in matrix.iter().enumerate() {
        assert_eq!(core.bus.memory.camera_reg(0x06 + k as u8), *t);
    }
    assert_eq!(core.bus.memory.camera_contrast(), 9);
    assert_eq!(core.read_memory(0xFF80), 0x00);
    assert_eq!(core.read_memory(0xFF81), 0x10);
    assert_eq!(core.read_memory(0xFF82), 9);
    assert_eq!(core.read_memory(0xFF85), 30);
    assert_eq!(core.read_memory(0xFF86), 1);

    // Register 1 asks for negative output, which shows dark as dark.
    let photo = core.decode_camera_photo(0);
    assert_eq!(photo.len(), 128 * 112 * 4);
    assert_eq!(photo[0], 0x00);
    assert_eq!(photo[127 * 4], 0xFF);

    // Let the program copy the capture to VRAM, then look at the screen.
    run_frames(&mut core, 6);
    let sram = core.bus.memory.camera_capture_sram();
    assert_eq!(core.read_range(0x8000, 3584), sram);
    assert_eq!(core.read_memory(0x9842), 0);
    assert_eq!(core.read_memory(0x9843), 1);
    assert_eq!(core.read_memory(0x9862), 16);
    assert_eq!(core.read_memory(0x9800), 0xE0);
    assert_eq!(core.read_memory(0x9A27), 0xE1);
    assert_eq!(core.read_memory(0x9A31), 0xEB);
    assert_eq!(core.read_memory(0x9A32), 0xE8);
    assert_eq!(core.read_memory(0xFF40), 0x91);
    let front = core.frame_buffer_front();
    let pixel = |x: usize, y: usize| front[(y * 160 + x) * 4];
    // The picture sits at tile row 2, column 2: 16 pixels in from the corner.
    assert_eq!(pixel(0, 0), 0x00); // border
    assert_eq!(pixel(16, 16), 0x00); // left half of the picture
    assert_eq!(pixel(16 + 127, 16 + 111), 0xFF); // right half
    assert_eq!(pixel(16 + 63, 70), 0x00);
    assert_eq!(pixel(16 + 64, 70), 0xFF);
    assert_eq!(pixel(16 + 128, 70), 0x00); // border again
}

#[test]
fn button_a_saves_the_capture_to_the_next_slot() {
    let rom = build_rom(&CameraConfig::default());
    let mut core = GameBoyCore::new();
    core.load_rom(&rom, false).unwrap();
    let image: Vec<u8> = (0..128 * 112).map(|i| ((i / 128) * 2) as u8).collect();
    core.set_camera_image(&image).unwrap();
    run_frames(&mut core, 14);
    assert_eq!(core.bus.memory.camera_photo_count(), 0);
    assert!(core.decode_camera_photo(1).is_empty());

    core.set_button(0, true);
    run_frames(&mut core, 8);
    core.set_button(0, false);
    run_frames(&mut core, 8);

    assert_eq!(core.bus.memory.camera_photo_count(), 1);
    assert_eq!(core.read_memory(0xFF85), 29);
    assert_eq!(core.read_memory(0xFF86), 2);
    let saved = core.decode_camera_photo(1);
    assert_eq!(saved.len(), 128 * 112 * 4);
    assert_eq!(saved, core.decode_camera_photo(0));
    assert!(core.decode_camera_photo(2).is_empty());
    // The counter on screen went from 30 to 29.
    assert_eq!(core.read_memory(0x9A31), 0xE8 + 2);
    assert_eq!(core.read_memory(0x9A32), 0xE8 + 9);

    // Holding the button saves once; pressing again saves to slot 2.
    core.set_button(0, true);
    run_frames(&mut core, 8);
    core.set_button(0, false);
    run_frames(&mut core, 4);
    assert_eq!(core.bus.memory.camera_photo_count(), 2);
    assert_eq!(core.decode_camera_photo(2), core.decode_camera_photo(0));
}

#[test]
fn dpad_adjusts_exposure_and_contrast() {
    let rom = build_rom(&CameraConfig::default());
    let mut core = GameBoyCore::new();
    core.load_rom(&rom, false).unwrap();
    core.set_camera_image(&vec![0x80u8; 128 * 112]).unwrap();
    run_frames(&mut core, 12);
    assert_eq!(core.read_memory(0xFF82), 9);
    core.set_button(4, true); // Right: contrast up, once per pass of the loop
    run_frames(&mut core, 40);
    core.set_button(4, false);
    assert_eq!(core.read_memory(0xFF82), 15);
    run_frames(&mut core, 6);
    assert_eq!(core.bus.memory.camera_contrast(), 15);
    core.set_button(6, true); // Up: exposure high byte up by 4 per pass
    run_frames(&mut core, 6);
    core.set_button(6, false);
    let high = core.read_memory(0xFF81);
    assert!(high > 0x10 && high % 4 == 0);
}
