//! The cartridge header: title, cartridge type, RAM size and checksum.
//!
//! | Offset        | Contents                                |
//! |---------------|-----------------------------------------|
//! | 0x0134-0x0143 | title, ASCII, ended by the first NUL    |
//! | 0x0147        | cartridge type                          |
//! | 0x0148        | ROM size code                           |
//! | 0x0149        | RAM size code                           |
//! | 0x014D        | checksum of 0x0134..=0x014C             |
//!
//! A wrong checksum is reported, not refused: the boot program rejects such
//! cartridges, the machine itself does not.

use super::{
    mbc_type_from_header, ram_size_from_header, spec_mbc_type_from_header,
    spec_ram_size_from_header, MbcType,
};
use vstd::prelude::*;

verus! {

/// Length of a ROM image's header area.
pub const HEADER_END: usize = 0x150;

/// `a - b - 1`, modulo 256: one step of the header checksum.
pub open spec fn checksum_step(acc: u8, b: u8) -> u8 {
    ((acc - b - 1) % 256) as u8
}

/// The header checksum of the bytes at 0x0134..=0x014C: starting from 0,
/// each byte and 1 are subtracted, modulo 256.
pub open spec fn header_checksum(bytes: Seq<u8>) -> u8
    decreases bytes.len(),
{
    if bytes.len() == 0 {
        0
    } else {
        checksum_step(header_checksum(bytes.drop_last()), bytes.last())
    }
}

/// Number of title bytes among the first `n` of the title field: up to the
/// first NUL.
pub open spec fn title_len(rom: Seq<u8>, n: nat) -> nat
    decreases n,
{
    if n == 0 {
        0
    } else {
        let before = title_len(rom, (n - 1) as nat);
        if before == n - 1 && rom[0x134 + n - 1] != 0 {
            n
        } else {
            before
        }
    }
}

/// The title: the bytes of the 16-byte title field before its first NUL.
pub open spec fn title_of(rom: Seq<u8>) -> Seq<u8> {
    rom.subrange(0x134, 0x134 + title_len(rom, 16) as int)
}

/// RAM in bytes that the header asks for: always 128 KB on a Pocket Camera,
/// else by the RAM size code.
pub open spec fn ram_size_of(rom: Seq<u8>) -> int {
    if rom[0x147] == 0xFC {
        0x20000
    } else {
        spec_ram_size_from_header(rom[0x149])
    }
}

/// Whether the checksum byte agrees with the header.
pub open spec fn checksum_valid(rom: Seq<u8>) -> bool {
    rom[0x14D] == header_checksum(rom.subrange(0x134, 0x14D))
}

/// What the header of a ROM image says.
pub struct CartridgeHeader {
    pub title: Vec<u8>,
    pub cart_type: u8,
    pub mbc_type: MbcType,
    pub rom_size_code: u8,
    pub ram_size: usize,
    pub checksum: u8,
    pub checksum_valid: bool,
}

impl CartridgeHeader {
    /// Whether this is what the header of `rom` says.
    pub open spec fn describes(&self, rom: Seq<u8>) -> bool {
        &&& self.title@ == title_of(rom)
        &&& self.cart_type == rom[0x147]
        &&& self.mbc_type == spec_mbc_type_from_header(rom[0x147])
        &&& self.rom_size_code == rom[0x148]
        &&& self.ram_size == ram_size_of(rom)
        &&& self.checksum == rom[0x14D]
        &&& self.checksum_valid == checksum_valid(rom)
    }
}

/// The title never runs past its field, holds no NUL, and ends at a NUL or
/// at the end of the field.
pub proof fn lemma_title(rom: Seq<u8>, n: nat)
    requires
        rom.len() >= 0x150,
        n <= 16,
    ensures
        title_len(rom, n) <= n,
        forall|i: int| 0x134 <= i < 0x134 + title_len(rom, n) ==> #[trigger] rom[i] != 0,
        title_len(rom, n) < n ==> rom[0x134 + title_len(rom, n) as int] == 0,
    decreases n,
{
    if n > 0 {
        lemma_title(rom, (n - 1) as nat);
    }
}

/// Computes the checksum of the header in `rom`.
pub fn checksum_of(rom: &[u8]) -> (r: u8)
    requires
        rom@.len() >= 0x150,
    ensures
        r == header_checksum(rom@.subrange(0x134, 0x14D)),
{
    let ghost header = rom@.subrange(0x134, 0x14D);
    let mut acc: u8 = 0;
    let mut i: usize = 0x134;
    while i < 0x14D
        invariant
            0x134 <= i <= 0x14D,
            rom@.len() >= 0x150,
            header == rom@.subrange(0x134, 0x14D),
            acc == header_checksum(header.subrange(0, i - 0x134)),
        decreases 0x14D - i,
    {
        proof {
            assert(header.subrange(0, i - 0x134 + 1).drop_last() =~= header.subrange(
                0,
                i - 0x134,
            ));
        }
        acc = acc.wrapping_sub(rom[i]).wrapping_sub(1);
        i += 1;
    }
    assert(header.subrange(0, 25) =~= header);
    acc
}

/// Reads the header of a ROM image; an image shorter than 0x150 bytes has
/// none.
pub fn parse_header(rom: &[u8]) -> (r: Option<CartridgeHeader>)
    ensures
        rom@.len() < 0x150 <==> r.is_none(),
        r.is_some() ==> r.unwrap().describes(rom@),
{
    if rom.len() < HEADER_END {
        return None;
    }
    let mut title: Vec<u8> = Vec::new();
    let mut n: usize = 0;
    while n < 16 && rom[0x134 + n] != 0
        invariant
            n <= 16,
            rom@.len() >= 0x150,
            n == title_len(rom@, n as nat),
            title@ == rom@.subrange(0x134, 0x134 + n),
        decreases 16 - n,
    {
        title.push(rom[0x134 + n]);
        assert(title@ =~= rom@.subrange(0x134, 0x134 + n + 1));
        n += 1;
    }
    proof {
        lemma_title_stops(rom@, n as nat, 16);
    }
    let cart_type = rom[0x147];
    let ram_size = if cart_type == 0xFC {
        0x20000
    } else {
        ram_size_from_header(rom[0x149])
    };
    let computed = checksum_of(rom);
    Some(
        CartridgeHeader {
            title,
            cart_type,
            mbc_type: mbc_type_from_header(cart_type),
            rom_size_code: rom[0x148],
            ram_size,
            checksum: rom[0x14D],
            checksum_valid: rom[0x14D] == computed,
        },
    )
}

/// Once the title has ended, a longer look at the field finds no more of it.
proof fn lemma_title_stops(rom: Seq<u8>, n: nat, m: nat)
    requires
        n <= m,
        title_len(rom, n) == n,
        n == m || rom[0x134 + n as int] == 0,
    ensures
        title_len(rom, m) == n,
    decreases m,
{
    if m > n {
        lemma_title_stops(rom, n, (m - 1) as nat);
    }
}

} // verus!
