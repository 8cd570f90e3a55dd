//! The fixed data of the test cartridge: header fields, dither patterns,
//! threshold levels and glyphs.

use vstd::prelude::*;

verus! {

/// Bytes of the image: two banks.
pub const ROM_SIZE: usize = 32768;

/// Where the program starts.
pub const PROGRAM_START: usize = 0x0150;

/// Where the letter tiles are kept.
pub const FONT_START: usize = 0x0600;

/// Where the digit tiles are kept.
pub const DIGITS_START: usize = 0x0670;

/// Where the dither matrices are kept, 48 bytes per contrast level.
pub const DITHER_START: usize = 0x1000;

/// Address of the capture loop, the target of the program's closing jump.
pub const CAPTURE_LOOP_ADDR: u16 = 0x01F4;

/// Address of the save routine, the target of the program's one call.
pub const SAVE_ROUTINE_ADDR: u16 = 0x02AD;

/// The logo that the boot program compares, at 0x0104.
pub const NINTENDO_LOGO: [u8; 48] = [
    0xCE, 0xED, 0x66, 0x66, 0xCC, 0x0D, 0x00, 0x0B, 0x03, 0x73, 0x00, 0x83, 0x00, 0x0C, 0x00, 0x0D,
    0x00, 0x08, 0x11, 0x1F, 0x88, 0x89, 0x00, 0x0E, 0xDC, 0xCC, 0x6E, 0xE6, 0xDD, 0xDD, 0xD9, 0x99,
    0xBB, 0xBB, 0x67, 0x63, 0x6E, 0x0E, 0xEC, 0xCC, 0xDD, 0xDC, 0x99, 0x9F, 0xBB, 0xB9, 0x33, 0x3E,
];

/// NOP, then JP 0x0150.
pub const ENTRY_POINT: [u8; 4] = [0x00, 0xC3, 0x50, 0x01];

/// The title "CAMTEST".
pub const TITLE: [u8; 7] = [0x43, 0x41, 0x4D, 0x54, 0x45, 0x53, 0x54];

// Dither patterns: the rank (0..=15) of each position of the 4 x 4 matrix.
/// Ordered dither.
pub const PATTERN_STANDARD: [u8; 16] = [
    0x00, 0x0C, 0x03, 0x0F, 0x08, 0x04, 0x0B, 0x07, 0x02, 0x0E, 0x01, 0x0D, 0x0A, 0x06, 0x09, 0x05,
];

/// Blocks of 2 x 2.
pub const PATTERN_2X2: [u8; 16] = [
    0x01, 0x01, 0x0A, 0x0A, 0x01, 0x01, 0x0A, 0x0A, 0x0D, 0x0D, 0x03, 0x03, 0x0D, 0x0D, 0x03, 0x03,
];

/// A grid.
pub const PATTERN_GRID: [u8; 16] = [
    0x0C, 0x08, 0x07, 0x0C, 0x07, 0x01, 0x02, 0x07, 0x07, 0x07, 0x02, 0x08, 0x0D, 0x08, 0x08, 0x0C,
];

/// A maze.
pub const PATTERN_MAZE: [u8; 16] = [
    0x00, 0x01, 0x03, 0x05, 0x02, 0x0A, 0x0B, 0x0D, 0x04, 0x0C, 0x07, 0x08, 0x06, 0x0E, 0x09, 0x0F,
];

/// Nested squares.
pub const PATTERN_NEST: [u8; 16] = [
    0x00, 0x01, 0x08, 0x0B, 0x02, 0x06, 0x0A, 0x0C, 0x09, 0x0E, 0x03, 0x04, 0x0D, 0x0F, 0x05, 0x07,
];

/// Scattered.
pub const PATTERN_FUZZ: [u8; 16] = [
    0x00, 0x09, 0x0E, 0x07, 0x04, 0x0D, 0x02, 0x0B, 0x08, 0x01, 0x06, 0x0F, 0x0C, 0x05, 0x0A, 0x03,
];

/// Vertical stripes.
pub const PATTERN_VERTICAL: [u8; 16] = [
    0x00, 0x0A, 0x07, 0x0D, 0x01, 0x0B, 0x04, 0x0E, 0x02, 0x08, 0x05, 0x0F, 0x03, 0x09, 0x06, 0x0C,
];

/// Horizontal stripes.
pub const PATTERN_HORIZONTAL: [u8; 16] = [
    0x00, 0x01, 0x02, 0x03, 0x0A, 0x0B, 0x08, 0x09, 0x07, 0x04, 0x05, 0x06, 0x0D, 0x0E, 0x0F, 0x0C,
];

/// Diagonal stripes.
pub const PATTERN_DIAGONAL: [u8; 16] = [
    0x00, 0x08, 0x04, 0x0C, 0x0D, 0x01, 0x09, 0x05, 0x06, 0x0E, 0x02, 0x0A, 0x0B, 0x07, 0x0F, 0x03,
];

/// Threshold levels in bright light: four per contrast level.
pub const DITHER_HIGH_LIGHT: [[u8; 4]; 16] = [
    [0x80, 0x8F, 0xD0, 0xE6],
    [0x82, 0x90, 0xC8, 0xE3],
    [0x84, 0x90, 0xC0, 0xE0],
    [0x85, 0x91, 0xB8, 0xDD],
    [0x86, 0x91, 0xB1, 0xDB],
    [0x87, 0x92, 0xAA, 0xD8],
    [0x88, 0x92, 0xA5, 0xD5],
    [0x89, 0x92, 0xA2, 0xD2],
    [0x8A, 0x92, 0xA1, 0xC8],
    [0x8B, 0x92, 0xA0, 0xBE],
    [0x8C, 0x92, 0x9E, 0xB4],
    [0x8D, 0x92, 0x9C, 0xAC],
    [0x8E, 0x92, 0x9B, 0xA5],
    [0x8F, 0x92, 0x99, 0xA0],
    [0x90, 0x92, 0x97, 0x9A],
    [0x92, 0x92, 0x92, 0x92],
];

/// Threshold levels in low light: four per contrast level.
pub const DITHER_LOW_LIGHT: [[u8; 4]; 16] = [
    [0x80, 0x94, 0xDC, 0xFF],
    [0x82, 0x95, 0xD2, 0xFF],
    [0x84, 0x96, 0xCA, 0xFF],
    [0x86, 0x96, 0xC4, 0xFF],
    [0x88, 0x97, 0xBE, 0xFF],
    [0x8A, 0x97, 0xB8, 0xFF],
    [0x8B, 0x98, 0xB2, 0xF5],
    [0x8C, 0x98, 0xAC, 0xEB],
    [0x8D, 0x98, 0xAA, 0xDD],
    [0x8E, 0x98, 0xA8, 0xD0],
    [0x8F, 0x98, 0xA6, 0xC4],
    [0x90, 0x98, 0xA4, 0xBA],
    [0x92, 0x98, 0xA1, 0xB2],
    [0x94, 0x98, 0x9D, 0xA8],
    [0x96, 0x98, 0x99, 0xA0],
    [0x98, 0x98, 0x98, 0x98],
];

/// The letters g, b, -, f, i, l, m: one bit per pixel, 1 = lit.
pub const FONT_MASKS: [[u8; 8]; 7] = [
    [0x00, 0x70, 0x88, 0x88, 0x78, 0x08, 0x88, 0x70],
    [0x80, 0x80, 0xF0, 0x88, 0x88, 0x88, 0xF0, 0x00],
    [0x00, 0x00, 0x00, 0x00, 0xF8, 0x00, 0x00, 0x00],
    [0x30, 0x40, 0xF0, 0x40, 0x40, 0x40, 0x40, 0x00],
    [0x40, 0x00, 0x40, 0x40, 0x40, 0x40, 0x40, 0x00],
    [0x40, 0x40, 0x40, 0x40, 0x40, 0x40, 0x30, 0x00],
    [0x00, 0x00, 0x6C, 0x92, 0x92, 0x92, 0x92, 0x00],
];

/// The digits 0 to 9: one bit per pixel, 1 = lit.
pub const DIGIT_MASKS: [[u8; 8]; 10] = [
    [0x70, 0x88, 0x98, 0xA8, 0xC8, 0x88, 0x70, 0x00],
    [0x20, 0x60, 0x20, 0x20, 0x20, 0x20, 0x70, 0x00],
    [0x70, 0x88, 0x08, 0x30, 0x40, 0x80, 0xF8, 0x00],
    [0x70, 0x88, 0x08, 0x30, 0x08, 0x88, 0x70, 0x00],
    [0x10, 0x30, 0x50, 0x90, 0xF8, 0x10, 0x10, 0x00],
    [0xF8, 0x80, 0xF0, 0x08, 0x08, 0x88, 0x70, 0x00],
    [0x30, 0x40, 0x80, 0xF0, 0x88, 0x88, 0x70, 0x00],
    [0xF8, 0x08, 0x10, 0x20, 0x40, 0x40, 0x40, 0x00],
    [0x70, 0x88, 0x88, 0x70, 0x88, 0x88, 0x70, 0x00],
    [0x70, 0x88, 0x88, 0x78, 0x08, 0x10, 0x60, 0x00],
];

} // verus!
