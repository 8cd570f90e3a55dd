//! Putting bytes into an image.

use vstd::prelude::*;

verus! {

/// A byte of a glyph area: each row of a glyph is stored inverted, once for
/// each bit plane.
pub open spec fn glyph_byte(mask: u8) -> u8 {
    !mask
}

/// `rom` with `bytes` stored from `at` on.
pub open spec fn placed(rom: Seq<u8>, at: int, bytes: Seq<u8>) -> Seq<u8> {
    Seq::new(
        rom.len(),
        |i: int|
            if at <= i < at + bytes.len() {
                bytes[i - at]
            } else {
                rom[i]
            },
    )
}

/// Stores `bytes` in the image from `at` on.
pub fn place(rom: &mut Vec<u8>, at: usize, bytes: &[u8])
    requires
        at + bytes@.len() <= old(rom).len(),
    ensures
        final(rom)@ == placed(old(rom)@, at as int, bytes@),
{
    let mut k: usize = 0;
    while k < bytes.len()
        invariant
            k <= bytes@.len(),
            at + bytes@.len() <= rom.len(),
            rom@.len() == old(rom)@.len(),
            forall|i: int|
                0 <= i < rom@.len() ==> #[trigger] rom@[i] == if at <= i < at + k {
                    bytes@[i - at]
                } else {
                    old(rom)@[i]
                },
        decreases bytes@.len() - k,
    {
        rom[at + k] = bytes[k];
        k += 1;
    }
    assert(rom@ =~= placed(old(rom)@, at as int, bytes@));
}

/// Stores the tiles of `count` glyphs from `at` on.
pub fn place_glyphs<const N: usize>(rom: &mut Vec<u8>, at: usize, masks: &[[u8; 8]; N])
    requires
        N <= 16,
        at + 16 * N <= old(rom).len(),
    ensures
        final(rom)@.len() == old(rom)@.len(),
        forall|i: int|
            0 <= i < old(rom)@.len() ==> #[trigger] final(rom)@[i] == if at <= i < at + 16 * N {
                glyph_byte(masks@[(i - at) / 16]@[((i - at) % 16) / 2])
            } else {
                old(rom)@[i]
            },
{
    let mut r: usize = 0;
    while r < 8 * N
        invariant
            r <= 8 * N,
            N <= 16,
            at + 16 * N <= rom.len(),
            rom@.len() == old(rom)@.len(),
            forall|i: int|
                0 <= i < rom@.len() ==> #[trigger] rom@[i] == if at <= i < at + 2 * r {
                    glyph_byte(masks@[(i - at) / 16]@[((i - at) % 16) / 2])
                } else {
                    old(rom)@[i]
                },
        decreases 8 * N - r,
    {
        let inv = !masks[r / 8][r % 8];
        rom[at + 2 * r] = inv;
        rom[at + 2 * r + 1] = inv;
        r += 1;
    }
}

} // verus!
