//! A test cartridge for the Pocket Camera.
//!
//! The image is 32 KB: a header that marks it as a Pocket Camera cartridge,
//! a program at 0x0150 that captures continuously and shows the capture on
//! screen, letter and digit tiles at 0x0600, and the 16 dither matrices of
//! the chosen pattern at 0x1000, one per contrast level. The D-pad adjusts
//! exposure and contrast; button A saves the capture to the next free slot.

pub mod code;
pub mod config;
pub mod data;
pub mod dither;
pub mod layout;

use crate::memory::cartridge::header::{checksum_of, checksum_valid, header_checksum};
use crate::memory::cartridge::zeroed;
use code::{lemma_program_layout, program, program_bytes};
use config::CameraConfig;
use data::{
    DIGITS_START, DIGIT_MASKS, DITHER_START, ENTRY_POINT, FONT_MASKS, FONT_START, NINTENDO_LOGO,
    PROGRAM_START, ROM_SIZE, TITLE,
};
use dither::{dither_matrix, generate_dither_matrix};
use layout::{glyph_byte, place, place_glyphs};
use vstd::prelude::*;

verus! {

/// A header byte other than the checksum: title, cartridge type 0xFC
/// (Pocket Camera), ROM size 0 (32 KB), RAM size 4 (128 KB).
pub open spec fn header_byte(i: int) -> u8 {
    if 0x134 <= i < 0x13B {
        TITLE[i - 0x134]
    } else if i == 0x147 {
        0xFC
    } else if i == 0x149 {
        0x04
    } else {
        0x00
    }
}

/// The checksummed part of the header.
pub open spec fn checked_header() -> Seq<u8> {
    Seq::new(25, |k: int| header_byte(0x134 + k))
}

/// Byte `i` of the image.
pub open spec fn image_byte(config: CameraConfig, i: int) -> u8 {
    if 0x100 <= i < 0x104 {
        ENTRY_POINT[i - 0x100]
    } else if 0x104 <= i < 0x134 {
        NINTENDO_LOGO[i - 0x104]
    } else if 0x134 <= i < 0x14D {
        header_byte(i)
    } else if i == 0x14D {
        header_checksum(checked_header())
    } else if 0x150 <= i < 0x150 + 469 {
        program_bytes(config)[i - 0x150]
    } else if 0x600 <= i < 0x670 {
        glyph_byte(FONT_MASKS[(i - 0x600) / 16][((i - 0x600) % 16) / 2])
    } else if 0x670 <= i < 0x710 {
        glyph_byte(DIGIT_MASKS[(i - 0x670) / 16][((i - 0x670) % 16) / 2])
    } else if 0x1000 <= i < 0x1300 {
        dither_matrix(
            config.pattern.ranks(),
            config.high_light,
            ((i - 0x1000) / 48) as u8,
        )[(i - 0x1000) % 48]
    } else {
        0x00
    }
}

/// The 32 KB image for a configuration.
pub open spec fn rom_image(config: CameraConfig) -> Seq<u8> {
    Seq::new(ROM_SIZE as nat, |i: int| image_byte(config, i))
}

/// Builds the cartridge image.
pub fn build_rom(config: &CameraConfig) -> (rom: Vec<u8>)
    ensures
        rom@ == rom_image(*config),
{
    let mut rom = zeroed(ROM_SIZE);
    let pattern = config.pattern.data();
    let mut level: u8 = 0;
    while level < 16
        invariant
            level <= 16,
            rom@.len() == ROM_SIZE,
            pattern@ == config.pattern.ranks(),
            forall|i: int|
                0 <= i < ROM_SIZE ==> #[trigger] rom@[i] == if 0x1000 <= i < 0x1000 + 48 * level {
                    image_byte(*config, i)
                } else {
                    0u8
                },
        decreases 16 - level,
    {
        let matrix = generate_dither_matrix(&pattern, config.high_light, level);
        place(&mut rom, DITHER_START + level as usize * 48, &matrix);
        level += 1;
    }
    place_glyphs(&mut rom, FONT_START, &FONT_MASKS);
    place_glyphs(&mut rom, DIGITS_START, &DIGIT_MASKS);
    place(&mut rom, 0x100, &ENTRY_POINT);
    place(&mut rom, 0x104, &NINTENDO_LOGO);
    place(&mut rom, 0x134, &TITLE);
    rom[0x147] = 0xFC;
    rom[0x148] = 0x00;
    rom[0x149] = 0x04;
    assert(rom@.subrange(0x134, 0x14D) =~= checked_header());
    let checksum = checksum_of(rom.as_slice());
    rom[0x14D] = checksum;
    let code = program(config);
    place(&mut rom, PROGRAM_START, code.as_slice());
    assert(rom@ =~= rom_image(*config));
    rom
}

/// The image's header passes the boot program's checksum test, its type byte
/// selects the Pocket Camera, and execution enters the program at 0x0150.
pub proof fn lemma_image_header(config: CameraConfig)
    ensures
        rom_image(config).len() == ROM_SIZE,
        checksum_valid(rom_image(config)),
        rom_image(config)[0x147] == 0xFC,
        rom_image(config)[0x149] == 0x04,
        rom_image(config).subrange(0x100, 0x104) == ENTRY_POINT@,
        rom_image(config).subrange(0x104, 0x134) == NINTENDO_LOGO@,
        rom_image(config).subrange(0x150, 0x325) == program_bytes(config),
{
    lemma_program_layout(config);
    assert(rom_image(config).subrange(0x134, 0x14D) =~= checked_header());
    assert(rom_image(config).subrange(0x100, 0x104) =~= ENTRY_POINT@);
    assert(rom_image(config).subrange(0x104, 0x134) =~= NINTENDO_LOGO@);
    assert(rom_image(config).subrange(0x150, 0x325) =~= program_bytes(config));
}

} // verus!
