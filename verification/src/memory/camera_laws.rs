//! What holds of photo storage across calls: slot bookkeeping and the
//! encode/decode round trip.

use super::camera::{
    band, banded, checksum_consistent, occupied_count, pack8, pixel_row_offset, plane_byte,
    row_start, slot_base, state_vector, tile_colour, tiles_written, with_checksum,
    with_state_entry, zero_filled, CameraView, CAMERA_RAM_SIZE, GRAY, PHOTO_BYTES, PIXELS,
    RGBA_BYTES, STATE_VECTOR_OFFSET,
};
use vstd::prelude::*;

verus! {

/// 1 for a state byte of an occupied slot, 0 for 0xFF.
pub open spec fn occupied(b: u8) -> nat {
    if b != 0xFF {
        1
    } else {
        0
    }
}

/// Replacing one byte changes the number of occupied bytes by that byte alone.
pub proof fn lemma_count_update(s: Seq<u8>, i: int, v: u8)
    requires
        0 <= i < s.len(),
    ensures
        occupied_count(s.update(i, v)) + occupied(s[i]) == occupied_count(s) + occupied(v),
    decreases s.len(),
{
    if i == s.len() - 1 {
        assert(s.update(i, v).drop_last() =~= s.drop_last());
    } else {
        lemma_count_update(s.drop_last(), i, v);
        assert(s.update(i, v).drop_last() =~= s.drop_last().update(i, v));
    }
}

/// Setting a slot's state byte changes that byte of the state vector only, and
/// leaves the checksum in agreement with it.
pub proof fn lemma_state_entry(ram: Seq<u8>, slot: u8, value: u8)
    requires
        ram.len() == CAMERA_RAM_SIZE,
        1 <= slot <= 30,
    ensures
        state_vector(with_state_entry(ram, slot, value)) == state_vector(ram).update(
            slot - 1,
            value,
        ),
        checksum_consistent(with_state_entry(ram, slot, value)),
        with_state_entry(ram, slot, value).len() == ram.len(),
        forall|i: int|
            0x2000 <= i < ram.len() ==> #[trigger] with_state_entry(ram, slot, value)[i] == ram[i],
{
    let r1 = ram.update(STATE_VECTOR_OFFSET + slot - 1, value);
    let r2 = with_checksum(r1);
    assert(state_vector(r1) =~= state_vector(ram).update(slot - 1, value));
    assert(state_vector(r2) =~= state_vector(r1));
}

/// Writing below bank 1 is the only way to touch the state vector: a photo's
/// tiles in slot 1..=30 leave it alone.
pub proof fn lemma_slot_tiles_above_bank0(ram: Seq<u8>, slot: u8, colours: Seq<u8>)
    requires
        ram.len() == CAMERA_RAM_SIZE,
        1 <= slot <= 30,
    ensures
        slot_base(slot) >= 0x2000,
        slot_base(slot) + PHOTO_BYTES <= CAMERA_RAM_SIZE,
        state_vector(tiles_written(ram, slot_base(slot), colours)) == state_vector(ram),
        state_vector(zero_filled(ram, slot_base(slot), PHOTO_BYTES as int)) == state_vector(ram),
{
    assert(state_vector(tiles_written(ram, slot_base(slot), colours)) =~= state_vector(ram));
    assert(state_vector(zero_filled(ram, slot_base(slot), PHOTO_BYTES as int)) =~= state_vector(
        ram,
    ));
}

/// Storing a photo marks its slot occupied with its 0-based index, keeps every
/// other slot's state, keeps the checksum consistent, and raises the photo
/// count by one exactly when the slot was empty.
pub proof fn lemma_encode_bookkeeping(cam: CameraView, slot: u8, rgba: Seq<u8>)
    requires
        cam.wf(),
        CameraView::can_encode(slot, rgba),
    ensures
        cam.encode_photo(slot, rgba).wf(),
        cam.encode_photo(slot, rgba).slot_occupied(slot),
        state_vector(cam.encode_photo(slot, rgba).ram) == state_vector(cam.ram).update(
            slot - 1,
            (slot - 1) as u8,
        ),
        checksum_consistent(cam.encode_photo(slot, rgba).ram),
        cam.encode_photo(slot, rgba).photo_count() == cam.photo_count() + if cam.slot_occupied(
            slot,
        ) {
            0nat
        } else {
            1nat
        },
{
    let tiles = tiles_written(cam.ram, slot_base(slot), banded(rgba));
    lemma_slot_tiles_above_bank0(cam.ram, slot, banded(rgba));
    lemma_state_entry(tiles, slot, (slot - 1) as u8);
    lemma_count_update(state_vector(cam.ram), slot - 1, (slot - 1) as u8);
    let after = cam.encode_photo(slot, rgba).ram;
    assert(state_vector(after)[slot - 1] == after[STATE_VECTOR_OFFSET + slot - 1]);
    assert(state_vector(cam.ram)[slot - 1] == cam.ram[STATE_VECTOR_OFFSET + slot - 1]);
}

/// Erasing a photo marks its slot empty, keeps every other slot's state, keeps
/// the checksum consistent, and lowers the photo count by one exactly when the
/// slot was occupied.
pub proof fn lemma_clear_bookkeeping(cam: CameraView, slot: u8)
    requires
        cam.wf(),
        1 <= slot <= 30,
    ensures
        cam.clear_photo_slot(slot).wf(),
        !cam.clear_photo_slot(slot).slot_occupied(slot),
        cam.clear_photo_slot(slot).decode_photo(slot).len() == 0,
        state_vector(cam.clear_photo_slot(slot).ram) == state_vector(cam.ram).update(
            slot - 1,
            0xFF,
        ),
        checksum_consistent(cam.clear_photo_slot(slot).ram),
        cam.clear_photo_slot(slot).photo_count() + (if cam.slot_occupied(slot) {
            1nat
        } else {
            0nat
        }) == cam.photo_count(),
{
    let cleared = zero_filled(cam.ram, slot_base(slot), PHOTO_BYTES as int);
    lemma_slot_tiles_above_bank0(cam.ram, slot, Seq::empty());
    lemma_state_entry(cleared, slot, 0xFF);
    lemma_count_update(state_vector(cam.ram), slot - 1, 0xFF);
    let after = cam.clear_photo_slot(slot).ram;
    assert(state_vector(after)[slot - 1] == after[STATE_VECTOR_OFFSET + slot - 1]);
    assert(state_vector(cam.ram)[slot - 1] == cam.ram[STATE_VECTOR_OFFSET + slot - 1]);
}

/// Reading one bit from each plane byte of eight packed colours gives the
/// colour of that position back.
pub proof fn lemma_pack8_unpack(c0: u8, c1: u8, c2: u8, c3: u8, c4: u8, c5: u8, c6: u8, c7: u8)
    by (bit_vector)
    requires
        c0 <= 3,
        c1 <= 3,
        c2 <= 3,
        c3 <= 3,
        c4 <= 3,
        c5 <= 3,
        c6 <= 3,
        c7 <= 3,
    ensures
        (((pack8(c0, c1, c2, c3, c4, c5, c6, c7, 1) >> 7u8) & 1) << 1) | ((pack8(
            c0,
            c1,
            c2,
            c3,
            c4,
            c5,
            c6,
            c7,
            0,
        ) >> 7u8) & 1) == c0,
        (((pack8(c0, c1, c2, c3, c4, c5, c6, c7, 1) >> 6u8) & 1) << 1) | ((pack8(
            c0,
            c1,
            c2,
            c3,
            c4,
            c5,
            c6,
            c7,
            0,
        ) >> 6u8) & 1) == c1,
        (((pack8(c0, c1, c2, c3, c4, c5, c6, c7, 1) >> 5u8) & 1) << 1) | ((pack8(
            c0,
            c1,
            c2,
            c3,
            c4,
            c5,
            c6,
            c7,
            0,
        ) >> 5u8) & 1) == c2,
        (((pack8(c0, c1, c2, c3, c4, c5, c6, c7, 1) >> 4u8) & 1) << 1) | ((pack8(
            c0,
            c1,
            c2,
            c3,
            c4,
            c5,
            c6,
            c7,
            0,
        ) >> 4u8) & 1) == c3,
        (((pack8(c0, c1, c2, c3, c4, c5, c6, c7, 1) >> 3u8) & 1) << 1) | ((pack8(
            c0,
            c1,
            c2,
            c3,
            c4,
            c5,
            c6,
            c7,
            0,
        ) >> 3u8) & 1) == c4,
        (((pack8(c0, c1, c2, c3, c4, c5, c6, c7, 1) >> 2u8) & 1) << 1) | ((pack8(
            c0,
            c1,
            c2,
            c3,
            c4,
            c5,
            c6,
            c7,
            0,
        ) >> 2u8) & 1) == c5,
        (((pack8(c0, c1, c2, c3, c4, c5, c6, c7, 1) >> 1u8) & 1) << 1) | ((pack8(
            c0,
            c1,
            c2,
            c3,
            c4,
            c5,
            c6,
            c7,
            0,
        ) >> 1u8) & 1) == c6,
        (((pack8(c0, c1, c2, c3, c4, c5, c6, c7, 1) >> 0u8) & 1) << 1) | ((pack8(
            c0,
            c1,
            c2,
            c3,
            c4,
            c5,
            c6,
            c7,
            0,
        ) >> 0u8) & 1) == c7,
{
}

/// A pixel read back from packed tiles has the colour that was packed.
pub proof fn lemma_tile_round_trip(ram: Seq<u8>, base: int, colours: Seq<u8>, x: int, y: int)
    requires
        0 <= base,
        base + PHOTO_BYTES <= ram.len(),
        colours.len() == PIXELS,
        forall|i: int| 0 <= i < PIXELS ==> #[trigger] colours[i] <= 3,
        0 <= x < 128,
        0 <= y < 112,
    ensures
        tile_colour(tiles_written(ram, base, colours), base, x, y) == colours[y * 128 + x],
{
    let written = tiles_written(ram, base, colours);
    let off = pixel_row_offset(x, y);
    assert(0 <= off && off + 1 < PHOTO_BYTES);
    assert(off % 2 == 0);
    let r = off / 2;
    assert(r == ((y / 8) * 16 + x / 8) * 8 + y % 8);
    assert(r / 8 == (y / 8) * 16 + x / 8);
    assert(r % 8 == y % 8);
    let idx = row_start(r);
    assert(idx == y * 128 + (x / 8) * 8);
    assert((off + 1) / 2 == r);
    assert(written[base + off] == plane_byte(colours, idx, 0));
    assert(written[base + off + 1] == plane_byte(colours, idx, 1));
    let k = x % 8;
    assert(idx + k == y * 128 + x);
    lemma_pack8_unpack(
        colours[idx],
        colours[idx + 1],
        colours[idx + 2],
        colours[idx + 3],
        colours[idx + 4],
        colours[idx + 5],
        colours[idx + 6],
        colours[idx + 7],
    );
    if k == 0 {
    } else if k == 1 {
    } else if k == 2 {
    } else if k == 3 {
    } else if k == 4 {
    } else if k == 5 {
    } else if k == 6 {
    } else {
        assert(k == 7);
    }
}

/// Round trip: a photo stored in a slot decodes to a full image in which every
/// pixel shows the gray level of the band its red channel fell into, with
/// alpha 255.
pub proof fn lemma_encode_decode_round_trip(cam: CameraView, slot: u8, rgba: Seq<u8>, p: int)
    requires
        cam.wf(),
        CameraView::can_encode(slot, rgba),
        0 <= p < PIXELS,
    ensures
        cam.encode_photo(slot, rgba).decode_photo(slot).len() == RGBA_BYTES,
        cam.encode_photo(slot, rgba).decode_photo(slot)[4 * p] == GRAY[band(rgba[4 * p]) as int],
        cam.encode_photo(slot, rgba).decode_photo(slot)[4 * p + 1] == GRAY[band(
            rgba[4 * p],
        ) as int],
        cam.encode_photo(slot, rgba).decode_photo(slot)[4 * p + 2] == GRAY[band(
            rgba[4 * p],
        ) as int],
        cam.encode_photo(slot, rgba).decode_photo(slot)[4 * p + 3] == 255,
{
    let base = slot_base(slot);
    let colours = banded(rgba);
    let tiles = tiles_written(cam.ram, base, colours);
    let after = cam.encode_photo(slot, rgba);
    lemma_encode_bookkeeping(cam, slot, rgba);
    lemma_slot_tiles_above_bank0(cam.ram, slot, colours);
    lemma_state_entry(tiles, slot, (slot - 1) as u8);
    let x = p % 128;
    let y = p / 128;
    lemma_tile_round_trip(cam.ram, base, colours, x, y);
    let off = pixel_row_offset(x, y);
    assert(0 <= off && off + 1 < PHOTO_BYTES);
    assert(after.ram[base + off] == tiles[base + off]);
    assert(after.ram[base + off + 1] == tiles[base + off + 1]);
    assert(tile_colour(after.ram, base, x, y) == tile_colour(tiles, base, x, y));
    assert(colours[y * 128 + x] == band(rgba[4 * p]));
    assert((4 * p) / 4 == p && (4 * p + 1) / 4 == p && (4 * p + 2) / 4 == p && (4 * p + 3) / 4
        == p);
}

} // verus!
