//! Facts about masks and shifts that the rest of the crate leans on.

use vstd::prelude::*;

verus! {

/// Masking bounds a byte by the mask.
pub proof fn lemma_u8_mask_bounds()
    by (bit_vector)
    ensures
        forall|x: u8| #[trigger] (x & 0x01) <= 0x01,
        forall|x: u8| #[trigger] (x & 0x03) <= 0x03,
        forall|x: u8| #[trigger] (x & 0x07) <= 0x07,
        forall|x: u8| #[trigger] (x & 0x0F) <= 0x0F,
        forall|x: u8| #[trigger] (x & 0x1F) <= 0x1F,
        forall|x: u8| #[trigger] (x & 0x3F) <= 0x3F,
        forall|x: u8| #[trigger] (x & 0x7F) <= 0x7F,
        forall|x: u8| #[trigger] (x >> 4) <= 0x0F,
        forall|x: u8| #[trigger] (x >> 3) <= 0x1F,
        forall|x: u8| #[trigger] (x >> 7) <= 0x01,
{
}

/// Masking bounds a 16-bit word by the mask.
pub proof fn lemma_u16_mask_bounds()
    by (bit_vector)
    ensures
        forall|x: u16| #[trigger] (x & 0x000F) <= 0x000F,
        forall|x: u16| #[trigger] (x & 0x00FF) <= 0x00FF,
        forall|x: u16| #[trigger] (x & 0x0FFF) <= 0x0FFF,
        forall|x: u16| #[trigger] (x & 0x1FFF) <= 0x1FFF,
        forall|x: u16| #[trigger] (x & 0x1FF0) <= 0x1FF0,
        forall|x: u16| #[trigger] (x & 0x7F) <= 0x7F,
        forall|x: u16| #[trigger] (x >> 8) <= 0xFF,
{
}

/// Masking bounds a 32-bit word by the mask.
pub proof fn lemma_u32_mask_bounds()
    by (bit_vector)
    ensures
        forall|x: u32| #[trigger] (x & 0x03) <= 0x03,
        forall|x: u32| #[trigger] (x & 0x7F) <= 0x7F,
{
}

/// A colour assembled from one bit of each bit plane is at most 3, and
/// assembling the two bits of a colour gives the colour back.
pub proof fn lemma_two_bit_colour()
    by (bit_vector)
    ensures
        forall|hi: u8, lo: u8, bit: u8|
            bit < 8 ==> #[trigger] ((((hi >> bit) & 1) << 1) | ((lo >> bit) & 1)) <= 3,
        forall|c: u8| c <= 3 ==> #[trigger] ((((c >> 1) & 1) << 1) | ((c >> 0) & 1)) == c,
        forall|p: u8, c: u8| c <= 3 ==> #[trigger] ((p >> ((c * 2) as u8)) & 0x03) <= 3,
{
}

} // verus!
