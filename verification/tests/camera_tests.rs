//! Pocket Camera tests: capture, photo slots and the state vector.

use gbcam_core::error::EmuError;
use gbcam_core::memory::camera::Camera;
use gbcam_core::memory::cartridge::camera::PocketCamera;
use gbcam_core::memory::Memory;

const PIXELS: usize = 128 * 112;
const RGBA: usize = 128 * 112 * 4;

fn camera_memory() -> Memory {
    let mut rom = vec![0u8; 0x8000];
    rom[0x0147] = 0xFC;
    let mut mem = Memory::new();
    mem.load_rom(&rom, false).unwrap();
    mem
}

fn ramp() -> Vec<u8> {
    let mut img = vec![0u8; PIXELS];
    for y in 0..112 {
        for x in 0..128 {
            img[y * 128 + x] = (x * 2) as u8;
        }
    }
    img
}

/// The sensor's analog stage as the host computes it: exposure scaling,
/// black-level offset, gain around mid-gray, then optional edge enhancement.
fn analog_stage(
    image: &[u8],
    exposure_factor: f32,
    gain_bits: u8,
    edge: u8,
    offset: u8,
) -> Vec<u8> {
    let gain = match gain_bits {
        0 => 2.0f32,
        1 => 1.5,
        2 => 1.0,
        _ => 0.75,
    };
    let offset_adjustment = (offset as f32) / 255.0 * 64.0;
    let mut processed: Vec<u8> = image
        .iter()
        .map(|&p| {
            let centered = (p as f32) * exposure_factor - offset_adjustment - 128.0;
            (centered * gain + 128.0).clamp(0.0, 255.0) as u8
        })
        .collect();
    if edge > 0 {
        let strength = (edge as f32) / 7.0;
        let source = processed.clone();
        for y in 1..111 {
            for x in 1..127 {
                let idx = y * 128 + x;
                let center = source[idx] as i32;
                let mean = (source[idx - 128] as i32
                    + source[idx + 128] as i32
                    + source[idx - 1] as i32
                    + source[idx + 1] as i32)
                    / 4;
                let enhanced = center + (((center - mean) as f32) * strength * 2.0) as i32;
                processed[idx] = enhanced.clamp(0, 255) as u8;
            }
        }
    }
    processed
}

fn write_dither(mem: &mut Memory, t: [u8; 3]) {
    mem.write(0x4000, 0x10); // sensor registers
    for pos in 0..16u16 {
        for (k, v) in t.iter().enumerate() {
            mem.write(0xA006 + pos * 3 + k as u16, *v);
        }
    }
}

#[test]
fn capture_of_a_ramp_with_uniform_thresholds() {
    let mut mem = camera_memory();
    assert!(!mem.is_camera_image_ready());
    mem.set_camera_image(&ramp()).unwrap();
    assert!(mem.is_camera_image_ready());
    write_dither(&mut mem, [0x40, 0x80, 0xC0]);
    mem.write(0xA000, 0x01); // trigger
    assert!(mem.is_camera_capture_pending());
    assert_eq!(mem.read(0xA000) & 0x01, 0x01); // busy until the frame is in
    assert!(!mem.is_camera_capture_dirty());

    // The host runs the analog stage at unity exposure and gain.
    let processed = analog_stage(&mem.camera_image(), 1.0, 2, 0, 0);
    assert_eq!(processed, ramp());
    mem.complete_camera_capture(&processed).unwrap();

    assert!(!mem.is_camera_capture_pending());
    assert_eq!(mem.read(0xA000) & 0x01, 0x00);
    assert!(mem.is_camera_capture_dirty());
    let sram = mem.camera_capture_sram();
    assert_eq!(sram.len(), 3584);
    assert!(sram.iter().any(|&b| b != 0));
    // The capture is mirrored behind the registers and lives in bank 0.
    assert_eq!(mem.read(0xA080), sram[0]);
    assert_eq!(mem.read(0xA080 + 0x123), sram[0x123]);
    mem.write(0x4000, 0x00);
    assert_eq!(mem.read(0xA100), sram[0]);

    let rgba = mem.decode_camera_photo(0);
    assert_eq!(rgba.len(), RGBA);
    for y in [0usize, 55, 111] {
        for x in 0..128usize {
            let expect = match x * 2 {
                0..=0x3F => 0xFF,
                0x40..=0x7F => 0xAA,
                0x80..=0xBF => 0x55,
                _ => 0x00,
            };
            let i = (y * 128 + x) * 4;
            assert_eq!(&rgba[i..i + 4], &[expect, expect, expect, 255]);
        }
    }
    let mut bands: Vec<u8> = rgba.chunks(4).map(|p| p[0]).collect();
    bands.sort();
    bands.dedup();
    assert_eq!(bands, vec![0x00, 0x55, 0xAA, 0xFF]);
}

#[test]
fn capture_at_default_registers_halves_the_exposure() {
    let mut mem = camera_memory();
    mem.set_camera_image(&ramp()).unwrap();
    write_dither(&mut mem, [0x40, 0x80, 0xC0]);
    mem.write(0xA000, 0x01);
    let settings = mem.camera_sensor_settings().unwrap();
    assert_eq!(settings.exposure, 0);
    assert_eq!(settings.gain_bits, 0);
    assert_eq!(settings.edge_mode, 0);
    assert_eq!(settings.voltage_offset, 0);
    // First capture: smoothed factor 0.5 * 1.0 + 0.5 * 0 = 0.5, gain 2.0.
    let processed = analog_stage(&mem.camera_image(), 0.5, settings.gain_bits, 0, 0);
    assert_eq!(processed[0], 0);
    assert_eq!(processed[127], 126);
    mem.complete_camera_capture(&processed).unwrap();
    let rgba = mem.decode_camera_photo(0);
    assert_eq!(rgba[0], 0xFF);
    assert_eq!(rgba[127 * 4], 0xAA);
}

#[test]
fn negative_output_and_invert_flip_colours() {
    let mut mem = camera_memory();
    mem.set_camera_image(&ramp()).unwrap();
    write_dither(&mut mem, [0x40, 0x80, 0xC0]);
    mem.write(0xA000, 0x03); // trigger with the invert bit
    mem.complete_camera_capture(&ramp()).unwrap();
    let rgba = mem.decode_camera_photo(0);
    assert_eq!(rgba[0], 0x00);
    assert_eq!(rgba[127 * 4], 0xFF);
    assert_eq!(mem.camera_reg(0), 0x02);

    let mut mem = camera_memory();
    write_dither(&mut mem, [0x40, 0x80, 0xC0]);
    mem.write(0xA001, 0x02); // output negative
    mem.write(0xA000, 0x01);
    mem.complete_camera_capture(&ramp()).unwrap();
    assert_eq!(mem.decode_camera_photo(0)[0], 0x00);
}

#[test]
fn without_a_dither_matrix_quantisation_is_linear() {
    let mut cam = Camera::new();
    let processed: Vec<u8> = (0..PIXELS).map(|i| (i % 128 * 2) as u8).collect();
    cam.process_capture(&processed, false);
    let rgba = cam.decode_photo(0);
    // colour = min((255 - p) / 64, 3): white input gives colour 0.
    let cases = [(0u8, 0x00u8), (62, 0x00), (64, 0x55), (128, 0xAA), (192, 0xFF), (254, 0xFF)];
    for (p, expect) in cases {
        let x = (p / 2) as usize;
        assert_eq!(rgba[x * 4], expect, "p = {}", p);
    }
}

#[test]
fn dither_thresholds_follow_the_pixel_position() {
    let mut cam = Camera::new();
    // Position (x % 4, y % 4) = (1, 2) is matrix entry 2 * 4 + 1 = 9.
    for pos in 0..16usize {
        cam.regs[0x06 + pos * 3] = 10;
        cam.regs[0x06 + pos * 3 + 1] = 20;
        cam.regs[0x06 + pos * 3 + 2] = 30;
    }
    cam.regs[0x06 + 9 * 3] = 100;
    cam.regs[0x06 + 9 * 3 + 1] = 150;
    cam.regs[0x06 + 9 * 3 + 2] = 200;
    let processed = vec![120u8; PIXELS];
    cam.process_capture(&processed, false);
    let rgba = cam.decode_photo(0);
    assert_eq!(rgba[(2 * 128 + 1) * 4], 0xAA); // 100 <= 120 < 150: colour 1
    assert_eq!(rgba[(2 * 128 + 5) * 4], 0xAA);
    assert_eq!(rgba[(2 * 128 + 2) * 4], 0x00); // 120 >= 30: colour 3
    assert_eq!(rgba[(6 * 128 + 1) * 4], 0xAA);
    assert_eq!(rgba[(3 * 128 + 1) * 4], 0x00);
}

#[test]
fn tiles_are_packed_in_game_boy_format() {
    let mut cam = Camera::new();
    let mut processed = vec![255u8; PIXELS];
    // Row 0 of tile 0: colours 3, 2, 1, 0, 3, 2, 1, 0 (linear quantisation).
    let row = [0u8, 64, 128, 192, 0, 64, 128, 192];
    processed[..8].copy_from_slice(&row);
    // Row 3 of tile 17 (tile row 1, tile column 1): all colour 3.
    for x in 8..16 {
        processed[(8 + 3) * 128 + x] = 0;
    }
    cam.process_capture(&processed, false);
    let sram = cam.capture_sram();
    assert_eq!(sram[0], 0b1010_1010); // low plane
    assert_eq!(sram[1], 0b1100_1100); // high plane
    assert_eq!(sram[2], 0x00);
    assert_eq!(sram[17 * 16 + 3 * 2], 0xFF);
    assert_eq!(sram[17 * 16 + 3 * 2 + 1], 0xFF);
    assert_eq!(sram[17 * 16 + 4 * 2], 0x00);
    assert_eq!(cam.ram[0x0100], 0b1010_1010);
    assert_eq!(cam.ram[0x00FF], 0x00);
    assert_eq!(cam.ram[0x0100 + 3584], 0x00);
}

#[test]
fn wrong_sizes_are_refused_and_change_nothing() {
    let mut mem = camera_memory();
    assert_eq!(mem.set_camera_image(&vec![0u8; PIXELS - 1]), Err(EmuError::InvalidImageSize));
    assert_eq!(mem.set_camera_image(&vec![0u8; RGBA]), Err(EmuError::InvalidImageSize));
    assert!(!mem.is_camera_image_ready());
    mem.write(0x4000, 0x10);
    mem.write(0xA000, 0x01);
    assert_eq!(mem.complete_camera_capture(&vec![0u8; 10]), Err(EmuError::InvalidImageSize));
    assert!(mem.is_camera_capture_pending());
    assert!(!mem.encode_camera_photo(1, &vec![0u8; PIXELS]));
    assert!(!mem.encode_camera_photo(0, &vec![0u8; RGBA]));
    assert!(!mem.encode_camera_photo(31, &vec![0u8; RGBA]));
    assert_eq!(mem.camera_photo_count(), 30); // a zeroed state vector reads as occupied
    assert!(mem.get_cartridge_ram().iter().all(|&b| b == 0));
}

#[test]
fn completing_without_a_pending_capture_does_nothing() {
    let mut mem = camera_memory();
    assert!(mem.complete_camera_capture(&ramp()).is_ok());
    assert!(!mem.is_camera_capture_dirty());
    assert!(mem.camera_capture_sram().iter().all(|&b| b == 0));
    // Writing register 0 with bit 0 clear calls a capture off.
    mem.write(0x4000, 0x10);
    mem.write(0xA000, 0x01);
    mem.write(0xA000, 0x00);
    assert!(!mem.is_camera_capture_pending());
}

fn banded_image(seed: u8) -> Vec<u8> {
    let mut rgba = vec![0u8; RGBA];
    for p in 0..PIXELS {
        let v = (p as u32).wrapping_mul(2654435761).wrapping_add(seed as u32 * 97) >> 11;
        rgba[p * 4] = v as u8;
        rgba[p * 4 + 1] = 1;
        rgba[p * 4 + 2] = 2;
        rgba[p * 4 + 3] = 3;
    }
    rgba[0] = 0xC0;
    rgba[4] = 0xBF;
    rgba[8] = 0x80;
    rgba[12] = 0x7F;
    rgba[16] = 0x40;
    rgba[20] = 0x3F;
    rgba
}

fn band(red: u8) -> u8 {
    match red {
        0xC0..=0xFF => 0xFF,
        0x80..=0xBF => 0xAA,
        0x40..=0x7F => 0x55,
        _ => 0x00,
    }
}

#[test]
fn encode_then_decode_gives_the_band_of_every_pixel() {
    let mut cam = Camera::new();
    for slot in [1u8, 2, 15, 30] {
        let image = banded_image(slot);
        assert!(cam.encode_photo(slot, &image));
        let decoded = cam.decode_photo(slot);
        assert_eq!(decoded.len(), RGBA);
        for p in 0..PIXELS {
            let g = band(image[p * 4]);
            assert_eq!(&decoded[p * 4..p * 4 + 4], &[g, g, g, 255]);
        }
    }
    // Slots do not overlap.
    let first = banded_image(1);
    let decoded = cam.decode_photo(1);
    assert_eq!(decoded[0], band(first[0]));
    assert_eq!(decoded[(PIXELS - 1) * 4], band(first[(PIXELS - 1) * 4]));
}

#[test]
fn slots_sit_two_per_bank_from_bank_one() {
    let mut cam = Camera::new();
    let white = vec![0xFFu8; RGBA];
    let black = vec![0x00u8; RGBA];
    cam.encode_photo(1, &black);
    assert_eq!(cam.ram[0x2000], 0xFF);
    assert_eq!(cam.ram[0x2000 + 3583], 0xFF);
    assert_eq!(cam.ram[0x2000 + 3584], 0x00);
    assert_eq!(cam.ram[0x3000], 0x00);
    cam.encode_photo(2, &black);
    assert_eq!(cam.ram[0x3000], 0xFF);
    cam.encode_photo(30, &black);
    assert_eq!(cam.ram[15 * 0x2000 + 0x1000], 0xFF);
    cam.encode_photo(1, &white);
    assert_eq!(cam.ram[0x2000], 0x00);
    assert_eq!(cam.ram[0x3000], 0xFF);
}

fn state_vector(cam: &Camera) -> Vec<u8> {
    cam.ram[0x11B2..0x11B2 + 30].to_vec()
}

fn check_bookkeeping(cam: &Camera) {
    let sv = state_vector(cam);
    let occupied = sv.iter().filter(|&&b| b != 0xFF).count();
    assert_eq!(cam.photo_count() as usize, occupied);
    let sum = sv.iter().fold(0u8, |a, &b| a.wrapping_add(b));
    let xor = sv.iter().fold(0u8, |a, &b| a ^ b);
    assert_eq!(cam.ram[0x11D5], sum);
    assert_eq!(cam.ram[0x11D6], xor);
}

#[test]
fn state_vector_and_checksum_follow_every_change() {
    let mut cam = Camera::new();
    for s in 1..=30u8 {
        cam.clear_photo_slot(s);
    }
    assert_eq!(cam.photo_count(), 0);
    assert_eq!(state_vector(&cam), vec![0xFF; 30]);
    check_bookkeeping(&cam);
    let image = banded_image(3);
    let mut expect = 0;
    for (step, slot) in [3u8, 7, 3, 30, 1, 7].iter().enumerate() {
        let was_empty = cam.ram[0x11B2 + (*slot as usize) - 1] == 0xFF;
        assert!(cam.encode_photo(*slot, &image));
        if was_empty {
            expect += 1;
        }
        assert_eq!(cam.photo_count(), expect, "step {}", step);
        assert_eq!(cam.ram[0x11B2 + (*slot as usize) - 1], slot - 1);
        check_bookkeeping(&cam);
    }
    assert_eq!(expect, 4);
    for slot in [7u8, 7, 2, 30] {
        let was_occupied = cam.ram[0x11B2 + (slot as usize) - 1] != 0xFF;
        cam.clear_photo_slot(slot);
        if was_occupied {
            expect -= 1;
        }
        assert_eq!(cam.photo_count(), expect);
        assert!(cam.decode_photo(slot).is_empty());
        check_bookkeeping(&cam);
    }
    assert_eq!(expect, 2);
    // Out-of-range slots change nothing.
    let before = cam.ram.clone();
    cam.clear_photo_slot(0);
    cam.clear_photo_slot(31);
    assert!(!cam.encode_photo(0, &image));
    assert!(!cam.encode_photo(31, &image));
    assert_eq!(cam.ram, before);
    assert!(cam.decode_photo(31).is_empty());
    assert_eq!(cam.decode_photo(0).len(), RGBA); // slot 0 is never gated
}

#[test]
fn clearing_a_slot_zeroes_its_tiles() {
    let mut cam = Camera::new();
    cam.encode_photo(4, &vec![0u8; RGBA]);
    let base = 2 * 0x2000 + 0x1000;
    assert!(cam.ram[base..base + 3584].iter().all(|&b| b == 0xFF));
    cam.clear_photo_slot(4);
    assert!(cam.ram[base..base + 3584].iter().all(|&b| b == 0x00));
    assert_eq!(cam.ram[0x11B2 + 3], 0xFF);
}

#[test]
fn contrast_is_read_from_the_dither_matrix() {
    let mut cam = Camera::new();
    assert_eq!(cam.contrast(), -1);
    let set = |cam: &mut Camera, t: [u8; 3]| {
        for pos in 0..16usize {
            for k in 0..3 {
                cam.regs[0x06 + pos * 3 + k] = t[k].saturating_add((pos % 3) as u8);
            }
        }
    };
    set(&mut cam, [0x80, 0x94, 0xDC]);
    assert_eq!(cam.contrast(), 0);
    set(&mut cam, [0x98, 0x98, 0x98]);
    assert_eq!(cam.contrast(), 15);
    set(&mut cam, [0x80, 0x8F, 0xD0]);
    assert_eq!(cam.contrast(), 0);
    set(&mut cam, [0x8B, 0x92, 0xA0]);
    assert_eq!(cam.contrast(), 9);
    set(&mut cam, [0x8B, 0x98, 0xB2]);
    assert_eq!(cam.contrast(), 6);
    set(&mut cam, [0x8B, 0x98, 0xB3]);
    assert_eq!(cam.contrast(), -1);
}

#[test]
fn sensor_settings_and_exposure_override() {
    let mut cam = Camera::new();
    cam.regs[1] = 0x20 | 0x02;
    cam.regs[2] = 0x34;
    cam.regs[3] = 0x12;
    cam.regs[4] = 0x50;
    cam.regs[5] = 0x99;
    let s = cam.sensor_settings();
    assert_eq!(s.exposure, 0x1234);
    assert_eq!(s.gain_bits, 2);
    assert_eq!(s.edge_mode, 5);
    assert_eq!(s.voltage_offset, 0x99);
    cam.set_exposure_override(Some(0x0800));
    assert_eq!(cam.sensor_settings().exposure, 0x0800);
    cam.set_exposure_override(None);
    assert_eq!(cam.sensor_settings().exposure, 0x1234);
    assert_eq!(cam.reg(0x81), cam.regs[1]);
}

#[test]
fn camera_ram_is_reachable_without_ram_enable() {
    let mut c = PocketCamera::new(vec![0u8; 0x8000]);
    c.write_ram(0xA123, 0x45);
    assert_eq!(c.read_ram(0xA123), 0x45);
    c.write_rom(0x0000, 0x00);
    assert_eq!(c.read_ram(0xA123), 0x45);
    c.write_rom(0x4000, 0x0F);
    c.write_ram(0xBFFF, 0x67);
    assert_eq!(c.ram_data()[0x1FFFF], 0x67);
    c.write_rom(0x4000, 0x1F);
    assert_eq!(c.current_ram_bank(), 0x1F);
    c.write_ram(0xA07F, 0x11);
    assert_eq!(c.read_ram(0xA07F), 0x11);
    c.write_ram(0xA080, 0x22); // capture mirror is read-only
    assert_eq!(c.read_ram(0xA080), 0x00);
    assert_eq!(c.read_ram(0xAE7F), 0x00);
    assert_eq!(c.read_ram(0xAE80), 0x00);
    c.write_rom(0x2000, 0x80);
    assert_eq!(c.current_rom_bank(), 1);
}

#[test]
fn non_camera_cartridges_ignore_camera_calls() {
    let mut mem = Memory::new();
    assert!(mem.set_camera_image(&[1, 2, 3]).is_ok());
    assert!(!mem.is_camera_image_ready());
    assert!(!mem.encode_camera_photo(1, &vec![0u8; RGBA]));
    assert!(mem.decode_camera_photo(0).is_empty());
    assert_eq!(mem.camera_contrast(), -1);
    assert_eq!(mem.camera_photo_count(), 0);
    assert_eq!(mem.camera_reg(0), 0xFF);
    assert!(mem.camera_capture_sram().is_empty());
    assert!(mem.camera_sensor_settings().is_none());
}
