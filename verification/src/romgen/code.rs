//! The machine code of the test cartridge, routine by routine. Bytes that
//! depend on the configuration go between the parts of a routine.
//!
//! The program sets the machine up, then loops: it reads the D-pad, saves
//! the last capture if button A went down, loads the sensor registers and
//! the dither matrix of the current contrast, starts a capture, waits for it
//! and copies the tiles to the screen.

use super::config::CameraConfig;
use super::data::{CAPTURE_LOOP_ADDR, FONT_START, PROGRAM_START, SAVE_ROUTINE_ADDR};
use vstd::prelude::*;

verus! {

/// Enables cartridge RAM and stores exposure and contrast in HRAM
/// (0xFF80-0xFF82).
pub const SETUP_A: [u8; 6] = [
    // Enable SRAM
    0x3E, 0x0A,  // ld a, 0x0A
    0xEA, 0x00, 0x00,  // ld [0x0000], a
    // Store default exposure low byte in HRAM
    0x3E,
];

pub const SETUP_B: [u8; 3] = [
    0xE0, 0x80,  // ldh [0xFF80], a
    // Store default exposure high byte in HRAM
    0x3E,
];

pub const SETUP_C: [u8; 3] = [
    0xE0, 0x81,  // ldh [0xFF81], a
    // Store default contrast level in HRAM
    0x3E,
];

pub const SETUP_D: [u8; 2] = [
    0xE0, 0x82,  // ldh [0xFF82], a
];

/// Clears the button state (0xFF84), sets 30 free slots (0xFF85) and next slot
/// 1 (0xFF86).
pub const HRAM_VARS: [u8; 11] = [
    // FF84 = 0 (previous A-button state)
    0xAF,  // xor a
    0xE0, 0x84,  // ldh [0xFF84], a
    // FF85 = 30 (remaining slots)
    0x3E, 0x1E,  // ld a, 30
    0xE0, 0x85,  // ldh [0xFF85], a
    // FF86 = 1 (next save slot)
    0x3E, 0x01,  // ld a, 1
    0xE0, 0x86,  // ldh [0xFF86], a
];

/// Selects RAM bank 0 and marks all 30 slots empty in the state vector at
/// 0xB1B2.
pub const STATE_VECTOR_INIT: [u8; 15] = [
    // Select bank 0
    0xAF,  // xor a
    0xEA, 0x00, 0x40,  // ld [0x4000], a
    // Write 0xFF to 30 bytes at 0xB1B2 (state vector)
    0x21, 0xB2, 0xB1,  // ld hl, 0xB1B2
    0x06, 0x1E,  // ld b, 30
    0x3E, 0xFF,  // ld a, 0xFF
    // state_init_loop:
    0x22,  // ld [hl+], a
    0x05,  // dec b
    0x20, 0xFC,  // jr nz, state_init_loop (-4)
];

/// Sets the identity palette and clears the scroll registers.
pub const LCD_INIT: [u8; 9] = [
    // BGP palette: standard grayscale mapping
    0x3E, 0xE4,  // ld a, 0xE4
    0xE0, 0x47,  // ldh [0xFF47], a
    // Scroll registers: SCY=0, SCX=0
    0xAF,  // xor a
    0xE0, 0x42,  // ldh [0xFF42], a
    0xE0, 0x43,  // ldh [0xFF43], a
];

/// Fills the tile data at 0x8000-0x8FFF with 0xFF: everything starts black.
pub const FILL_TILE_DATA: [u8; 14] = [
    0x21, 0x00, 0x80,  // ld hl, 0x8000
    0x01, 0x00, 0x10,  // ld bc, 0x1000 (4096 bytes = 256 tiles)
    // fill_vram_loop:
    0x3E, 0xFF,  // ld a, 0xFF
    0x22,  // ld [hl+], a
    0x0B,  // dec bc
    0x78,  // ld a, b
    0xB1,  // or c
    0x20, 0xF8,  // jr nz, fill_vram_loop (-8)
];

/// Fills the tile map at 0x9800 with the border tile 0xE0.
pub const FILL_TILE_MAP: [u8; 14] = [
    0x21, 0x00, 0x98,  // ld hl, 0x9800
    0x01, 0x00, 0x04,  // ld bc, 0x0400 (1024 bytes)
    // fill_map_loop:
    0x3E, 0xE0,  // ld a, 0xE0
    0x22,  // ld [hl+], a
    0x0B,  // dec bc
    0x78,  // ld a, b
    0xB1,  // or c
    0x20, 0xF8,  // jr nz, fill_map_loop (-8)
];

/// Copies the 7 letter tiles from ROM 0x0600 to VRAM 0x8E10 (tiles 225-231).
pub const COPY_FONT: [u8; 14] = [
    0x21, 0x00, 0x06,  // ld hl, 0x0600 (ROM source)
    0x11, 0x10, 0x8E,  // ld de, 0x8E10 (VRAM dest, tile 225)
    0x06, 0x70,  // ld b, 112
    // font_copy_loop:
    0x2A,  // ld a, [hl+]
    0x12,  // ld [de], a
    0x13,  // inc de
    0x05,  // dec b
    0x20, 0xFA,  // jr nz, font_copy_loop (-6)
];

/// Copies the 10 digit tiles from ROM 0x0670 to VRAM 0x8E80 (tiles 232-241).
pub const COPY_DIGITS: [u8; 17] = [
    0x21, 0x70, 0x06,  // ld hl, 0x0670 (ROM source)
    0x11, 0x80, 0x8E,  // ld de, 0x8E80 (VRAM dest, tile 232)
    0x01, 0xA0, 0x00,  // ld bc, 0x00A0 (160 bytes)
    // digit_copy_loop:
    0x2A,  // ld a, [hl+]
    0x12,  // ld [de], a
    0x13,  // inc de
    0x0B,  // dec bc
    0x78,  // ld a, b
    0xB1,  // or c
    0x20, 0xF8,  // jr nz, digit_copy_loop (-8)
];

/// Writes tile numbers 0-223 into a 16 x 14 area of the tile map, from row 2,
/// column 2.
pub const MAP_CAMERA_TILES: [u8; 28] = [
    0x21, 0x42, 0x98,  // ld hl, 0x9842
    0xAF,  // xor a (tile index = 0)
    0xE0, 0x83,  // ldh [0xFF83], a
    0x06, 0x0E,  // ld b, 14 (row count)
    // row_loop:
    0xC5,  // push bc
    0x0E, 0x10,  // ld c, 16 (column count)
    // col_loop:
    0xF0, 0x83,  // ldh a, [0xFF83]
    0x22,  // ld [hl+], a
    0x3C,  // inc a
    0xE0, 0x83,  // ldh [0xFF83], a
    0x0D,  // dec c
    0x20, 0xF7,  // jr nz, col_loop (-9)
    // Advance HL by 16 to skip unused columns in 32-wide map
    0x11, 0x10, 0x00,  // ld de, 0x0010
    0x19,  // add hl, de
    0xC1,  // pop bc
    0x05,  // dec b
    0x20, 0xEC,  // jr nz, row_loop (-20)
];

/// Writes the title tiles at row 17, column 7 of the tile map.
pub const WRITE_TITLE: [u8; 12] = [
    0x21, 0x27, 0x9A,  // ld hl, 0x9A27
    0x3E, 0xE1,  // ld a, 0xE1 (first font tile)
    0x06, 0x07,  // ld b, 7
    // text_loop:
    0x22,  // ld [hl+], a
    0x3C,  // inc a
    0x05,  // dec b
    0x20, 0xFB,  // jr nz, text_loop (-5)
];

/// Writes the slot counter "30" at row 17, column 17 of the tile map.
pub const WRITE_COUNTER: [u8; 9] = [
    0x21, 0x31, 0x9A,  // ld hl, 0x9A31
    0x3E, 0xEB,  // ld a, 0xEB ('3')
    0x22,  // ld [hl+], a
    0x3E, 0xE8,  // ld a, 0xE8 ('0')
    0x77,  // ld [hl], a
];

/// Switches the LCD on: background on, tile data at 0x8000, map at 0x9800.
pub const ENABLE_LCD: [u8; 4] = [
    0x3E, 0x91,  // ld a, 0x91
    0xE0, 0x40,  // ldh [0xFF40], a
];

/// Start of the capture loop: reads the D-pad and adjusts exposure and
/// contrast in HRAM.
pub const READ_DPAD: [u8; 88] = [
    // Read joypad: select the direction keys
    0x3E, 0x20,  // ld a, 0x20
    0xE0, 0x00,  // ldh [0xFF00], a
    0xF0, 0x00,  // ldh a, [0xFF00] (settle)
    0xF0, 0x00,  // ldh a, [0xFF00] (read)
    0x2F,  // cpl (invert: 1=pressed)
    0xE6, 0x0F,  // and 0x0F (mask d-pad bits)
    0x47,  // ld b, a
    // --- Check Up (bit 2): increase exposure high byte by 4 ---
    0xCB, 0x50,  // bit 2, b
    0x28, 0x0A,  // jr z, +10 (skip to no_up)
    0xF0, 0x81,  // ldh a, [0xFF81]
    0xFE, 0xFC,  // cp 0xFC
    0x30, 0x04,  // jr nc, +4 (already >= 0xFC, skip)
    0xC6, 0x04,  // add a, 0x04
    0xE0, 0x81,  // ldh [0xFF81], a
    // --- Check Down (bit 3): decrease exposure high byte by 4 ---
    0xCB, 0x58,  // bit 3, b
    0x28, 0x0A,  // jr z, +10 (skip to no_down)
    0xF0, 0x81,  // ldh a, [0xFF81]
    0xFE, 0x04,  // cp 0x04
    0x38, 0x04,  // jr c, +4 (already < 0x04, skip)
    0xD6, 0x04,  // sub 0x04
    0xE0, 0x81,  // ldh [0xFF81], a
    // --- Check Right (bit 0): increase contrast ---
    0xCB, 0x40,  // bit 0, b
    0x28, 0x09,  // jr z, +9 (skip to no_right)
    0xF0, 0x82,  // ldh a, [0xFF82]
    0xFE, 0x0F,  // cp 0x0F
    0x30, 0x03,  // jr nc, +3 (already at max, skip)
    0x3C,  // inc a
    0xE0, 0x82,  // ldh [0xFF82], a
    // --- Check Left (bit 1): decrease contrast ---
    0xCB, 0x48,  // bit 1, b
    0x28, 0x08,  // jr z, +8 (skip to no_left)
    0xF0, 0x82,  // ldh a, [0xFF82]
    0xB7,  // or a
    0x28, 0x03,  // jr z, +3 (already at 0, skip)
    0x3D,  // dec a
    0xE0, 0x82,  // ldh [0xFF82], a
    // === Read A button (select the action keys: write 0x10 to FF00) ===
    0x3E, 0x10,  // ld a, 0x10
    0xE0, 0x00,  // ldh [0xFF00], a
    0xF0, 0x00,  // ldh a, [0xFF00] (settle)
    0xF0, 0x00,  // ldh a, [0xFF00] (read)
    0x2F,  // cpl (invert: 1=pressed)
    0xE6, 0x01,  // and 0x01 (isolate A button, bit 0)
    0x4F,  // ld c, a (C = current A state)
    0xF0, 0x84,  // ldh a, [0xFF84] (prev state)
    0x57,  // ld d, a
    0x79,  // ld a, c
    0xE0, 0x84,  // ldh [0xFF84], a (update prev = current)
    0x7A,  // ld a, d
    0x2F,  // cpl
    0xA1,  // and c (newly pressed = curr & ~prev)
    0x28, 0x03,  // jr z, +3 (skip CALL if not pressed)
];

/// The capture: selects the sensor, loads its registers and the dither matrix
/// of the current contrast, starts the capture, waits for it, copies the
/// tiles to VRAM and jumps back to the start of the loop.
pub const CAPTURE_A: [u8; 6] = [
    // === Select camera register bank (SRAM bank 0x10) ===
    0x3E, 0x10,  // ld a, 0x10
    0xEA, 0x00, 0x40,  // ld [0x4000], a
    // === Write camera registers ===
    // A001: Gain, N, VH
    0x3E,
];

pub const CAPTURE_B: [u8; 14] = [
    0xEA, 0x01, 0xA0,  // ld [0xA001], a
    // A002: Exposure low byte (from HRAM)
    0xF0, 0x80,  // ldh a, [0xFF80]
    0xEA, 0x02, 0xA0,  // ld [0xA002], a
    // A003: Exposure high byte (from HRAM)
    0xF0, 0x81,  // ldh a, [0xFF81]
    0xEA, 0x03, 0xA0,  // ld [0xA003], a
    // A004: Edge enhancement
    0x3E,
];

pub const CAPTURE_C: [u8; 4] = [
    0xEA, 0x04, 0xA0,  // ld [0xA004], a
    // A005: Voltage offset
    0x3E,
];

pub const CAPTURE_D: [u8; 65] = [
    0xEA, 0x05, 0xA0,  // ld [0xA005], a
    // === Compute dither matrix ROM address ===
    // HL = 0x0300 + contrast * 48
    0xF0, 0x82,  // ldh a, [0xFF82]
    0x6F,  // ld l, a
    0x26, 0x00,  // ld h, 0x00
    0x29,  // add hl, hl (x2)
    0x29,  // add hl, hl (x4)
    0x29,  // add hl, hl (x8)
    0x29,  // add hl, hl (x16)
    0x54,  // ld d, h
    0x5D,  // ld e, l (DE = contrast*16)
    0x29,  // add hl, hl (x32)
    0x19,  // add hl, de (x48)
    0x11, 0x00, 0x10,  // ld de, 0x1000
    0x19,  // add hl, de
    // === Copy 48-byte dither matrix to A006-A035 ===
    0x11, 0x06, 0xA0,  // ld de, 0xA006
    0x06, 0x30,  // ld b, 48
    // dither_copy_loop:
    0x2A,  // ld a, [hl+]
    0x12,  // ld [de], a
    0x13,  // inc de
    0x05,  // dec b
    0x20, 0xFA,  // jr nz, dither_copy_loop (-6)
    // === Trigger capture ===
    0x3E, 0x01,  // ld a, 0x01
    0xEA, 0x00, 0xA0,  // ld [0xA000], a
    // === Wait for capture complete ===
    // wait_capture:
    0xFA, 0x00, 0xA0,  // ld a, [0xA000]
    0xE6, 0x01,  // and 0x01
    0x20, 0xF9,  // jr nz, wait_capture (-7)
    // === Switch to SRAM bank 0 (image data) ===
    0xAF,  // xor a
    0xEA, 0x00, 0x40,  // ld [0x4000], a
    // === Copy SRAM image to VRAM for LCD display ===
    0x21, 0x00, 0xA1,  // ld hl, 0xA100 (SRAM source)
    0x11, 0x00, 0x80,  // ld de, 0x8000 (VRAM destination)
    0x01, 0x00, 0x0E,  // ld bc, 0x0E00 (3584 bytes = 224 tiles x 16)
    // vram_copy_loop:
    0x2A,  // ld a, [hl+]
    0x12,  // ld [de], a
    0x13,  // inc de
    0x0B,  // dec bc
    0x78,  // ld a, b
    0xB1,  // or c
    0x20, 0xF8,  // jr nz, vram_copy_loop (-8)
    // === Loop back to CAPTURE_LOOP ===
    0xC3,
];

/// Saves the active capture to the next free slot: copies 0x0E00 bytes from
/// bank 0 to the slot, marks the slot in the state vector and updates the
/// counter on screen.
pub const SAVE_ROUTINE: [u8; 120] = [
    // save_routine:
    // 1. Check remaining > 0
    0xF0, 0x85,  // ldh a, [0xFF85] (remaining)
    0xB7,  // or a
    0xC8,  // ret z (no slots left)
    // 2. Read slot number, push for later
    0xF0, 0x86,  // ldh a, [0xFF86] (next slot, 1-based)
    0xF5,  // push af
    // 3. Calculate dest bank: (slot-1)/2 + 1
    0x3D,  // dec a (slot-1)
    0xCB, 0x3F,  // srl a (divide by 2)
    0x3C,  // inc a (+ 1)
    0xE0, 0x87,  // ldh [0xFF87], a (dest bank)
    // 4. Calculate dest addr high: ((slot-1)&1)*0x10 + 0xA0
    0xF0, 0x86,  // ldh a, [0xFF86]
    0x3D,  // dec a (slot-1)
    0xE6, 0x01,  // and 0x01
    0xCB, 0x37,  // swap a (0->0, 1->0x10)
    0xC6, 0xA0,  // add 0xA0 (-> 0xA0 or 0xB0)
    0xE0, 0x88,  // ldh [0xFF88], a (dest addr high)
    // 5. Select bank 0, copy 3584 bytes from 0xA100 -> WRAM 0xC000
    0xAF,  // xor a
    0xEA, 0x00, 0x40,  // ld [0x4000], a (bank 0)
    0x21, 0x00, 0xA1,  // ld hl, 0xA100 (SRAM source)
    0x11, 0x00, 0xC0,  // ld de, 0xC000 (WRAM dest)
    0x01, 0x00, 0x0E,  // ld bc, 0x0E00 (3584 bytes)
    // copy_to_wram:
    0x2A,  // ld a, [hl+]
    0x12,  // ld [de], a
    0x13,  // inc de
    0x0B,  // dec bc
    0x78,  // ld a, b
    0xB1,  // or c
    0x20, 0xF8,  // jr nz, copy_to_wram (-8)
    // 6. Select dest bank, copy 3584 bytes from WRAM 0xC000 -> dest addr
    0xF0, 0x87,  // ldh a, [0xFF87] (dest bank)
    0xEA, 0x00, 0x40,  // ld [0x4000], a
    0x21, 0x00, 0xC0,  // ld hl, 0xC000 (WRAM source)
    0xF0, 0x88,  // ldh a, [0xFF88] (dest addr high)
    0x57,  // ld d, a
    0x1E, 0x00,  // ld e, 0x00 (dest addr low = 0)
    0x01, 0x00, 0x0E,  // ld bc, 0x0E00 (3584 bytes)
    // copy_to_sram:
    0x2A,  // ld a, [hl+]
    0x12,  // ld [de], a
    0x13,  // inc de
    0x0B,  // dec bc
    0x78,  // ld a, b
    0xB1,  // or c
    0x20, 0xF8,  // jr nz, copy_to_sram (-8)
    // 7. Select bank 0, mark state vector occupied
    0xAF,  // xor a
    0xEA, 0x00, 0x40,  // ld [0x4000], a (bank 0)
    0xF1,  // pop af (slot number)
    0x3D,  // dec a (slot-1 = index into state vector)
    0x5F,  // ld e, a
    0x16, 0x00,  // ld d, 0x00
    0x21, 0xB2, 0xB1,  // ld hl, 0xB1B2
    0x19,  // add hl, de
    0x36, 0x00,  // ld [hl], 0x00 (mark occupied)
    // 8. Increment next slot (FF86)
    0xF0, 0x86,  // ldh a, [0xFF86]
    0x3C,  // inc a
    0xE0, 0x86,  // ldh [0xFF86], a
    // 9. Decrement remaining (FF85), convert to BCD, write tiles
    0xF0, 0x85,  // ldh a, [0xFF85]
    0x3D,  // dec a
    0xE0, 0x85,  // ldh [0xFF85], a
    // Convert A (0-30) to 2-digit BCD
    // tens digit: A / 10
    0x47,  // ld b, a (save value)
    0x0E, 0x00,  // ld c, 0 (tens counter)
    // div10_loop:
    0xFE, 0x0A,  // cp 10
    0x38, 0x05,  // jr c, +5 (done dividing)
    0xD6, 0x0A,  // sub 10
    0x0C,  // inc c
    0x18, 0xF7,  // jr, div10_loop (-9)
    // Now C = tens, A = ones
    // Write tens digit tile at 0x9A31
    0x47,  // ld b, a (save ones)
    0x79,  // ld a, c (tens)
    0xC6, 0xE8,  // add 0xE8 (tile base for '0')
    0xEA, 0x31, 0x9A,  // ld [0x9A31], a
    // Write ones digit tile at 0x9A32
    0x78,  // ld a, b (ones)
    0xC6, 0xE8,  // add 0xE8
    0xEA, 0x32, 0x9A,  // ld [0x9A32], a
    // 10. Return
    0xC9,  // ret
];

/// Low byte of the exposure.
pub open spec fn exposure_low(config: CameraConfig) -> u8 {
    (config.exposure & 0xFF) as u8
}

/// High byte of the exposure.
pub open spec fn exposure_high(config: CameraConfig) -> u8 {
    (config.exposure >> 8) as u8
}

/// Sensor register 1: gain in bits 4-5, bit 1 set unless the picture is to
/// be inverted.
pub open spec fn reg_a001(config: CameraConfig) -> u8 {
    ((config.gain & 0x03) << 4) | (if config.invert {
        0x00u8
    } else {
        0x02u8
    })
}

/// Sensor register 4: edge enhancement in bits 4-6.
pub open spec fn reg_a004(config: CameraConfig) -> u8 {
    (config.edge_enhance & 0x07) << 4
}

/// The code that runs once: from 0x0150 up to the capture loop.
pub open spec fn setup_bytes(config: CameraConfig) -> Seq<u8> {
    let code = Seq::<u8>::empty();
    let code = code + SETUP_A@;
    let code = code.push(exposure_low(config));
    let code = code + SETUP_B@;
    let code = code.push(exposure_high(config));
    let code = code + SETUP_C@;
    let code = code.push(config.contrast);
    let code = code + SETUP_D@;
    let code = code + HRAM_VARS@;
    let code = code + STATE_VECTOR_INIT@;
    let code = code + LCD_INIT@;
    let code = code + FILL_TILE_DATA@;
    let code = code + FILL_TILE_MAP@;
    let code = code + COPY_FONT@;
    let code = code + COPY_DIGITS@;
    let code = code + MAP_CAMERA_TILES@;
    let code = code + WRITE_TITLE@;
    let code = code + WRITE_COUNTER@;
    let code = code + ENABLE_LCD@;
    code
}

/// The body of the capture loop behind the call of the save routine, up to
/// and with the jump back to the start of the loop.
pub open spec fn capture_bytes(config: CameraConfig) -> Seq<u8> {
    let code = Seq::<u8>::empty();
    let code = code + CAPTURE_A@;
    let code = code.push(reg_a001(config));
    let code = code + CAPTURE_B@;
    let code = code.push(reg_a004(config));
    let code = code + CAPTURE_C@;
    let code = code.push(config.voltage_offset);
    let code = code + CAPTURE_D@;
    let code = code.push((CAPTURE_LOOP_ADDR & 0xFF) as u8);
    let code = code.push((CAPTURE_LOOP_ADDR >> 8) as u8);
    code
}

/// CALL to the save routine.
pub open spec fn call_save_bytes() -> Seq<u8> {
    seq![0xCDu8, (SAVE_ROUTINE_ADDR & 0xFF) as u8, (SAVE_ROUTINE_ADDR >> 8) as u8]
}

/// The machine code at 0x0150: setup, the capture loop (D-pad, call of the
/// save routine, capture), and the save routine.
pub open spec fn program_bytes(config: CameraConfig) -> Seq<u8> {
    setup_bytes(config) + READ_DPAD@ + call_save_bytes() + capture_bytes(config) + SAVE_ROUTINE@
}

/// The program is 469 bytes whatever the configuration and ends before the
/// glyphs begin; the capture loop starts where the closing jump goes, and
/// the save routine where the call goes.
pub proof fn lemma_program_layout(config: CameraConfig)
    ensures
        setup_bytes(config).len() == CAPTURE_LOOP_ADDR - PROGRAM_START,
        capture_bytes(config).len() == 94,
        setup_bytes(config).len() + 88 + 3 + capture_bytes(config).len() == SAVE_ROUTINE_ADDR
            - PROGRAM_START,
        program_bytes(config).len() == 469,
        PROGRAM_START + program_bytes(config).len() <= FONT_START,
{
}

/// Assembles the setup code.
fn setup(config: &CameraConfig) -> (code: Vec<u8>)
    ensures
        code@ == setup_bytes(*config),
{
    let mut code: Vec<u8> = Vec::new();
    code.extend_from_slice(&SETUP_A);
    code.push((config.exposure & 0xFF) as u8);
    code.extend_from_slice(&SETUP_B);
    code.push((config.exposure >> 8) as u8);
    code.extend_from_slice(&SETUP_C);
    code.push(config.contrast);
    code.extend_from_slice(&SETUP_D);
    code.extend_from_slice(&HRAM_VARS);
    code.extend_from_slice(&STATE_VECTOR_INIT);
    code.extend_from_slice(&LCD_INIT);
    code.extend_from_slice(&FILL_TILE_DATA);
    code.extend_from_slice(&FILL_TILE_MAP);
    code.extend_from_slice(&COPY_FONT);
    code.extend_from_slice(&COPY_DIGITS);
    code.extend_from_slice(&MAP_CAMERA_TILES);
    code.extend_from_slice(&WRITE_TITLE);
    code.extend_from_slice(&WRITE_COUNTER);
    code.extend_from_slice(&ENABLE_LCD);
    code
}

/// Assembles the capture code.
fn capture(config: &CameraConfig) -> (code: Vec<u8>)
    ensures
        code@ == capture_bytes(*config),
{
    let a001: u8 = ((config.gain & 0x03) << 4) | (if config.invert {
        0x00
    } else {
        0x02
    });
    let a004: u8 = (config.edge_enhance & 0x07) << 4;
    let mut code: Vec<u8> = Vec::new();
    code.extend_from_slice(&CAPTURE_A);
    code.push(a001);
    code.extend_from_slice(&CAPTURE_B);
    code.push(a004);
    code.extend_from_slice(&CAPTURE_C);
    code.push(config.voltage_offset);
    code.extend_from_slice(&CAPTURE_D);
    code.push((CAPTURE_LOOP_ADDR & 0xFF) as u8);
    code.push((CAPTURE_LOOP_ADDR >> 8) as u8);
    code
}

/// Assembles the program for a configuration.
pub fn program(config: &CameraConfig) -> (code: Vec<u8>)
    ensures
        code@ == program_bytes(*config),
        code@.len() == 469,
{
    proof {
        lemma_program_layout(*config);
    }
    let mut code = setup(config);
    code.extend_from_slice(&READ_DPAD);
    code.push(0xCD);
    code.push((SAVE_ROUTINE_ADDR & 0xFF) as u8);
    code.push((SAVE_ROUTINE_ADDR >> 8) as u8);
    let part = capture(config);
    code.extend_from_slice(part.as_slice());
    code.extend_from_slice(&SAVE_ROUTINE);
    assert(code@ =~= program_bytes(*config));
    code
}

} // verus!
