//! Dither matrices: 16 positions of three thresholds each, spread between
//! the threshold levels of a contrast setting by the rank of the position.

use super::data::{DITHER_HIGH_LIGHT, DITHER_LOW_LIGHT};
use crate::memory::cartridge::mbc7::div_toward_zero;
use vstd::prelude::*;

verus! {

/// The threshold a sixteenth-step `idx` of the way from `low` to `high`,
/// rounded toward `low` and held within a byte.
pub open spec fn interpolated(low: u8, high: u8, idx: int) -> u8 {
    let v = low + div_toward_zero((high - low) * idx, 16);
    if v < 0 {
        0
    } else if v > 255 {
        255
    } else {
        v as u8
    }
}

/// The four threshold levels of a contrast setting.
pub open spec fn levels(high_light: bool, contrast: u8) -> Seq<u8> {
    if high_light {
        DITHER_HIGH_LIGHT[contrast as int]@
    } else {
        DITHER_LOW_LIGHT[contrast as int]@
    }
}

/// The 48 register bytes of a dither matrix: for each of the 16 positions,
/// three thresholds, each interpolated between two neighbouring levels by
/// the position's rank.
pub open spec fn dither_matrix(pattern: Seq<u8>, high_light: bool, contrast: u8) -> Seq<u8> {
    Seq::new(
        48,
        |k: int|
            interpolated(
                levels(high_light, contrast)[k % 3],
                levels(high_light, contrast)[k % 3 + 1],
                pattern[k / 3] as int,
            ),
    )
}

/// Interpolates between two threshold levels; `idx` is a rank, at most 255.
pub fn interpolate_threshold(low: u8, high: u8, idx: usize) -> (r: u8)
    requires
        idx <= 255,
    ensures
        r == interpolated(low, high, idx as int),
{
    let range: i32 = high as i32 - low as i32;
    let rank: i32 = idx as i32;
    assert(-65025 <= range * rank <= 65025) by (nonlinear_arith)
        requires
            -255 <= range <= 255,
            0 <= rank <= 255,
    ;
    let product: i32 = range * rank;
    let offset: i32 = if product >= 0 {
        product / 16
    } else {
        -((-product) / 16)
    };
    let v = low as i32 + offset;
    if v < 0 {
        0
    } else if v > 255 {
        255
    } else {
        v as u8
    }
}

/// Builds the dither matrix of a pattern at contrast level 0..=15.
pub fn generate_dither_matrix(pattern: &[u8; 16], high_light: bool, contrast: u8) -> (r: [u8; 48])
    requires
        contrast < 16,
    ensures
        r@ == dither_matrix(pattern@, high_light, contrast),
{
    let thresholds: [u8; 4] = if high_light {
        DITHER_HIGH_LIGHT[contrast as usize]
    } else {
        DITHER_LOW_LIGHT[contrast as usize]
    };
    let mut matrix: [u8; 48] = [0;48];
    let mut pos: usize = 0;
    while pos < 16
        invariant
            pos <= 16,
            contrast < 16,
            thresholds@ == levels(high_light, contrast),
            forall|k: int|
                0 <= k < 3 * pos ==> #[trigger] matrix@[k] == dither_matrix(
                    pattern@,
                    high_light,
                    contrast,
                )[k],
        decreases 16 - pos,
    {
        let idx = pattern[pos] as usize;
        let t0 = interpolate_threshold(thresholds[0], thresholds[1], idx);
        let t1 = interpolate_threshold(thresholds[1], thresholds[2], idx);
        let t2 = interpolate_threshold(thresholds[2], thresholds[3], idx);
        matrix[pos * 3] = t0;
        matrix[pos * 3 + 1] = t1;
        matrix[pos * 3 + 2] = t2;
        pos += 1;
    }
    assert(matrix@ =~= dither_matrix(pattern@, high_light, contrast));
    matrix
}

} // verus!
