//! Pocket Camera sensor registers, captured image and photo storage.
//!
//! The cartridge holds 128 KB of RAM. Bank 0 keeps the active capture at
//! 0x0100 (224 tiles of 16 bytes, 2 bits per pixel), the 30-byte slot state
//! vector at 0x11B2 and its checksum at 0x11D5 (byte sum, then XOR). Banks
//! 1-15 hold the 30 saved photos, two per bank.
//!
//! The sensor's analog stage (exposure, gain, edge enhancement) is the host's
//! to compute; this module turns its 8-bit output into 2-bit colours with the
//! dither matrix of registers 0x06-0x35 and packs them into tiles.

use crate::bits::lemma_two_bit_colour;
use crate::error::EmuError;
use vstd::prelude::*;

verus! {

/// Pixels per row of a frame.
pub const WIDTH: usize = 128;

/// Rows of a frame.
pub const HEIGHT: usize = 112;

/// Pixels in a frame: 128 x 112.
pub const PIXELS: usize = 14336;

/// Bytes of one photo as tiles: 224 tiles of 16 bytes.
pub const PHOTO_BYTES: usize = 3584;

/// Bytes of one photo as RGBA.
pub const RGBA_BYTES: usize = 57344;

/// RAM offset of the active capture.
pub const CAPTURE_OFFSET: usize = 0x0100;

/// RAM offset of the slot state vector.
pub const STATE_VECTOR_OFFSET: usize = 0x11B2;

/// Number of save slots.
pub const NUM_PHOTO_SLOTS: usize = 30;

/// RAM offset of the state vector's two checksum bytes.
pub const CHECKSUM_OFFSET: usize = 0x11D5;

/// Bytes of cartridge RAM: 16 banks of 8 KB.
pub const CAMERA_RAM_SIZE: usize = 0x20000;

/// Gray level of each 2-bit colour on screen.
pub const GRAY: [u8; 4] = [0xFF, 0xAA, 0x55, 0x00];

/// Dither thresholds (minimum per level) of the 16 contrast settings in low light.
pub const LOW_LIGHT: [[u8; 3]; 16] = [
    [0x80, 0x94, 0xDC],
    [0x82, 0x95, 0xD2],
    [0x84, 0x96, 0xCA],
    [0x86, 0x96, 0xC4],
    [0x88, 0x97, 0xBE],
    [0x8A, 0x97, 0xB8],
    [0x8B, 0x98, 0xB2],
    [0x8C, 0x98, 0xAC],
    [0x8D, 0x98, 0xAA],
    [0x8E, 0x98, 0xA8],
    [0x8F, 0x98, 0xA6],
    [0x90, 0x98, 0xA4],
    [0x92, 0x98, 0xA1],
    [0x94, 0x98, 0x9D],
    [0x96, 0x98, 0x99],
    [0x98, 0x98, 0x98],
];

/// The same in bright light.
pub const HIGH_LIGHT: [[u8; 3]; 16] = [
    [0x80, 0x8F, 0xD0],
    [0x82, 0x90, 0xC8],
    [0x84, 0x90, 0xC0],
    [0x85, 0x91, 0xB8],
    [0x86, 0x91, 0xB1],
    [0x87, 0x92, 0xAA],
    [0x88, 0x92, 0xA5],
    [0x89, 0x92, 0xA2],
    [0x8A, 0x92, 0xA1],
    [0x8B, 0x92, 0xA0],
    [0x8C, 0x92, 0x9E],
    [0x8D, 0x92, 0x9C],
    [0x8E, 0x92, 0x9B],
    [0x8F, 0x92, 0x99],
    [0x90, 0x92, 0x97],
    [0x92, 0x92, 0x92],
];

// ---------------------------------------------------------------------------
// Tiles
// ---------------------------------------------------------------------------
/// One byte of a tile row: bit `plane` of eight colours, leftmost pixel in bit 7.
pub open spec fn pack8(
    c0: u8,
    c1: u8,
    c2: u8,
    c3: u8,
    c4: u8,
    c5: u8,
    c6: u8,
    c7: u8,
    plane: u8,
) -> u8 {
    (((c0 >> plane) & 1) << 7) | (((c1 >> plane) & 1) << 6) | (((c2 >> plane) & 1) << 5) | (((c3
        >> plane) & 1) << 4) | (((c4 >> plane) & 1) << 3) | (((c5 >> plane) & 1) << 2) | (((c6
        >> plane) & 1) << 1) | ((c7 >> plane) & 1)
}

/// The plane byte of the eight colours starting at `idx`.
pub open spec fn plane_byte(colours: Seq<u8>, idx: int, plane: u8) -> u8 {
    pack8(
        colours[idx],
        colours[idx + 1],
        colours[idx + 2],
        colours[idx + 3],
        colours[idx + 4],
        colours[idx + 5],
        colours[idx + 6],
        colours[idx + 7],
        plane,
    )
}

/// Index into a row-major 128-wide image of the first pixel of tile row `r`
/// (tile `r / 8` in row-major tile order, row `r % 8` of it).
pub open spec fn row_start(r: int) -> int {
    (((r / 8) / 16) * 8 + r % 8) * 128 + ((r / 8) % 16) * 8
}

/// Byte `off` of a photo's 3584 tile bytes for the given pixel colours: each
/// tile row takes two bytes, low plane first.
pub open spec fn tile_byte(colours: Seq<u8>, off: int) -> u8 {
    plane_byte(colours, row_start(off / 2), (off % 2) as u8)
}

/// RAM with a photo's tiles written at `base`.
pub open spec fn tiles_written(ram: Seq<u8>, base: int, colours: Seq<u8>) -> Seq<u8> {
    Seq::new(
        ram.len(),
        |i: int|
            if base <= i < base + PHOTO_BYTES {
                tile_byte(colours, i - base)
            } else {
                ram[i]
            },
    )
}

/// RAM offset, relative to a photo's base, of the low plane byte of pixel row
/// `y` of the tile holding `(x, y)`.
pub open spec fn pixel_row_offset(x: int, y: int) -> int {
    ((y / 8) * 16 + x / 8) * 16 + (y % 8) * 2
}

/// Colour of pixel `(x, y)` of the photo stored as tiles at `base`.
pub open spec fn tile_colour(ram: Seq<u8>, base: int, x: int, y: int) -> u8 {
    let lo = ram[base + pixel_row_offset(x, y)];
    let hi = ram[base + pixel_row_offset(x, y) + 1];
    let bit = (7 - x % 8) as u8;
    (((hi >> bit) & 1) << 1) | ((lo >> bit) & 1)
}

/// The photo at `base` as 128 x 112 RGBA: gray from the palette, alpha 255.
pub open spec fn decoded_rgba(ram: Seq<u8>, base: int) -> Seq<u8> {
    Seq::new(
        RGBA_BYTES as nat,
        |i: int|
            if i % 4 == 3 {
                255u8
            } else {
                GRAY[tile_colour(ram, base, (i / 4) % 128, (i / 4) / 128) as int]
            },
    )
}

/// RAM offset of a slot's tiles: slot 0 is the active capture, slots 1-30 sit
/// two per bank from bank 1 on.
pub open spec fn slot_base(slot: u8) -> int {
    if slot == 0 {
        CAPTURE_OFFSET as int
    } else {
        ((slot - 1) / 2 + 1) * 0x2000 + ((slot - 1) % 2) * 0x1000
    }
}

/// The 2-bit colour a red channel value falls into, brightest first.
pub open spec fn band(red: u8) -> u8 {
    if red >= 0xC0 {
        0
    } else if red >= 0x80 {
        1
    } else if red >= 0x40 {
        2
    } else {
        3
    }
}

/// Colours of an RGBA image, by its red channel.
pub open spec fn banded(rgba: Seq<u8>) -> Seq<u8> {
    Seq::new(PIXELS as nat, |i: int| band(rgba[4 * i]))
}

// ---------------------------------------------------------------------------
// State vector
// ---------------------------------------------------------------------------
/// Sum modulo 256.
pub open spec fn add8(a: u8, b: u8) -> u8 {
    ((a + b) % 256) as u8
}

/// Sum of the bytes, modulo 256.
pub open spec fn byte_sum(s: Seq<u8>) -> u8
    decreases s.len(),
{
    if s.len() == 0 {
        0
    } else {
        add8(byte_sum(s.drop_last()), s.last())
    }
}

/// XOR of the bytes.
pub open spec fn byte_xor(s: Seq<u8>) -> u8
    decreases s.len(),
{
    if s.len() == 0 {
        0
    } else {
        byte_xor(s.drop_last()) ^ s.last()
    }
}

/// Number of bytes other than 0xFF.
pub open spec fn occupied_count(s: Seq<u8>) -> nat
    decreases s.len(),
{
    if s.len() == 0 {
        0
    } else {
        occupied_count(s.drop_last()) + if s.last() != 0xFF {
            1nat
        } else {
            0nat
        }
    }
}

/// The 30 slot bytes: 0xFF for an empty slot, else the image number.
pub open spec fn state_vector(ram: Seq<u8>) -> Seq<u8> {
    ram.subrange(STATE_VECTOR_OFFSET as int, STATE_VECTOR_OFFSET + NUM_PHOTO_SLOTS)
}

/// The two checksum bytes agree with the state vector.
pub open spec fn checksum_consistent(ram: Seq<u8>) -> bool {
    &&& ram[CHECKSUM_OFFSET as int] == byte_sum(state_vector(ram))
    &&& ram[CHECKSUM_OFFSET + 1] == byte_xor(state_vector(ram))
}

/// RAM with the checksum bytes recomputed.
pub open spec fn with_checksum(ram: Seq<u8>) -> Seq<u8> {
    ram.update(CHECKSUM_OFFSET as int, byte_sum(state_vector(ram))).update(
        CHECKSUM_OFFSET + 1,
        byte_xor(state_vector(ram)),
    )
}

/// RAM with the state byte of slot `slot` (1..=30) set and the checksum redone.
pub open spec fn with_state_entry(ram: Seq<u8>, slot: u8, value: u8) -> Seq<u8> {
    with_checksum(ram.update(STATE_VECTOR_OFFSET + slot - 1, value))
}

/// RAM with `len` bytes from `base` cleared.
pub open spec fn zero_filled(ram: Seq<u8>, base: int, len: int) -> Seq<u8> {
    Seq::new(
        ram.len(),
        |i: int|
            if base <= i < base + len {
                0u8
            } else {
                ram[i]
            },
    )
}

// ---------------------------------------------------------------------------
// Quantisation
// ---------------------------------------------------------------------------
/// Whether any dither threshold (registers 0x06..=0x35) is set.
pub open spec fn dither_active(regs: Seq<u8>) -> bool {
    exists|i: int| 0x06 <= i < 0x36 && regs[i] != 0
}

/// Threshold `t` (0..=2) of the dither position of pixel `(x, y)`.
pub open spec fn threshold(regs: Seq<u8>, x: int, y: int, t: int) -> u8 {
    regs[0x06 + ((y % 4) * 4 + x % 4) * 3 + t]
}

/// Colour of a processed pixel value: by the three thresholds of its dither
/// position, or in four equal steps from white when no matrix is loaded.
pub open spec fn quantized(regs: Seq<u8>, p: u8, x: int, y: int) -> u8 {
    if dither_active(regs) {
        if p < threshold(regs, x, y, 0) {
            0
        } else if p < threshold(regs, x, y, 1) {
            1
        } else if p < threshold(regs, x, y, 2) {
            2
        } else {
            3
        }
    } else if (255 - p) / 64 > 3 {
        3
    } else {
        ((255 - p) / 64) as u8
    }
}

/// Whether register 1 asks for negative output.
pub open spec fn output_negative(regs: Seq<u8>) -> bool {
    regs[1] & 0x02 != 0
}

/// Colours of a capture from the analog stage's output.
pub open spec fn capture_colours(regs: Seq<u8>, processed: Seq<u8>, invert: bool) -> Seq<u8> {
    Seq::new(
        PIXELS as nat,
        |i: int|
            {
                let c = quantized(regs, processed[i], i % 128, i / 128);
                if output_negative(regs) || invert {
                    (3 - c) as u8
                } else {
                    c
                }
            },
    )
}

/// Smallest threshold of level `ch` over the first `n` dither positions.
pub open spec fn min_threshold(regs: Seq<u8>, ch: int, n: nat) -> u8
    decreases n,
{
    if n == 0 {
        0xFF
    } else {
        let rest = min_threshold(regs, ch, (n - 1) as nat);
        let val = regs[0x06 + (n - 1) * 3 + ch];
        if val < rest {
            val
        } else {
            rest
        }
    }
}

/// Whether the matrix's minimum thresholds are row `level` of the low-light table.
pub open spec fn low_light_matches(regs: Seq<u8>, level: int) -> bool {
    &&& LOW_LIGHT[level][0] == min_threshold(regs, 0, 16)
    &&& LOW_LIGHT[level][1] == min_threshold(regs, 1, 16)
    &&& LOW_LIGHT[level][2] == min_threshold(regs, 2, 16)
}

/// Whether the matrix's minimum thresholds are row `level` of the high-light table.
pub open spec fn high_light_matches(regs: Seq<u8>, level: int) -> bool {
    &&& HIGH_LIGHT[level][0] == min_threshold(regs, 0, 16)
    &&& HIGH_LIGHT[level][1] == min_threshold(regs, 1, 16)
    &&& HIGH_LIGHT[level][2] == min_threshold(regs, 2, 16)
}

/// `level` is the contrast setting of the dither matrix: the first row of the
/// low-light table that its minimum thresholds match, else the first of the
/// high-light table, else -1.
pub open spec fn is_contrast(regs: Seq<u8>, level: int) -> bool {
    if exists|l: int| 0 <= l < 16 && low_light_matches(regs, l) {
        &&& 0 <= level < 16
        &&& low_light_matches(regs, level)
        &&& forall|l: int| 0 <= l < level ==> !low_light_matches(regs, l)
    } else if exists|l: int| 0 <= l < 16 && high_light_matches(regs, l) {
        &&& 0 <= level < 16
        &&& high_light_matches(regs, level)
        &&& forall|l: int| 0 <= l < level ==> !high_light_matches(regs, l)
    } else {
        level == -1
    }
}

// ---------------------------------------------------------------------------
// Camera
// ---------------------------------------------------------------------------
/// What the analog stage needs from the registers at the moment of capture.
#[derive(Debug, Clone, Copy, PartialEq, Eq, Structural)]
pub struct SensorSettings {
    /// 16-bit exposure time, or the host's override.
    pub exposure: u16,
    /// Gain code, 0 (highest) to 3 (lowest).
    pub gain_bits: u8,
    /// Edge enhancement strength, 0 (off) to 7.
    pub edge_mode: u8,
    /// Black-level shift.
    pub voltage_offset: u8,
}

/// Sensor registers, the host's frame and the cartridge RAM with its photos.
pub struct Camera {
    /// Hardware registers 0xA000-0xA07F.
    pub regs: [u8; 0x80],
    /// Host frame, 128 x 112, 0 = black.
    pub image: Vec<u8>,
    pub image_ready: bool,
    /// A capture was written since the host last looked.
    pub capture_dirty: bool,
    /// The capture bit was set and the capture has not been completed yet.
    pub capture_pending: bool,
    /// When set, replaces the exposure registers.
    pub exposure_override: Option<u16>,
    /// 128 KB of cartridge RAM.
    pub ram: Vec<u8>,
}

/// The camera as sequences of bytes.
pub struct CameraView {
    pub regs: Seq<u8>,
    pub image: Seq<u8>,
    pub image_ready: bool,
    pub capture_dirty: bool,
    pub capture_pending: bool,
    pub exposure_override: Option<u16>,
    pub ram: Seq<u8>,
}

impl View for Camera {
    type V = CameraView;

    open spec fn view(&self) -> CameraView {
        CameraView {
            regs: self.regs@,
            image: self.image@,
            image_ready: self.image_ready,
            capture_dirty: self.capture_dirty,
            capture_pending: self.capture_pending,
            exposure_override: self.exposure_override,
            ram: self.ram@,
        }
    }
}

impl CameraView {
    /// Registers, frame and RAM have their sizes.
    pub open spec fn wf(self) -> bool {
        &&& self.regs.len() == 0x80
        &&& self.image.len() == PIXELS
        &&& self.ram.len() == CAMERA_RAM_SIZE
    }

    /// The camera with a new host frame.
    pub open spec fn set_image(self, data: Seq<u8>) -> CameraView {
        CameraView { image: data, image_ready: true, ..self }
    }

    /// What the analog stage needs from the registers: exposure (or the
    /// override), gain code, edge strength, offset.
    pub open spec fn settings(self) -> SensorSettings {
        SensorSettings {
            exposure: match self.exposure_override {
                Some(e) => e,
                None => ((self.regs[3] as u16) << 8) | (self.regs[2] as u16),
            },
            gain_bits: (self.regs[1] >> 4) & 0x03,
            edge_mode: (self.regs[4] >> 4) & 0x07,
            voltage_offset: self.regs[5],
        }
    }

    /// The active capture replaced by the quantised, packed `processed` frame.
    pub open spec fn process_capture(self, processed: Seq<u8>, invert: bool) -> CameraView {
        CameraView {
            ram: tiles_written(
                self.ram,
                CAPTURE_OFFSET as int,
                capture_colours(self.regs, processed, invert),
            ),
            ..self
        }
    }

    /// A pending capture finished with the analog stage's output: tiles
    /// written, dirty flag raised, capture bit of register 0 cleared.
    pub open spec fn complete_capture(self, processed: Seq<u8>) -> CameraView {
        if !self.capture_pending || processed.len() != PIXELS {
            self
        } else {
            let done = self.process_capture(processed, self.regs[0] & 0x02 != 0);
            CameraView {
                regs: self.regs.update(0, self.regs[0] & 0xFE),
                capture_dirty: true,
                capture_pending: false,
                ..done
            }
        }
    }

    /// Whether slot 1..=30 holds a photo by the state vector.
    pub open spec fn slot_occupied(self, slot: u8) -> bool {
        1 <= slot <= 30 && self.ram[STATE_VECTOR_OFFSET + slot - 1] != 0xFF
    }

    /// RGBA of a slot: slot 0 always, slots 1-30 when occupied, else empty.
    pub open spec fn decode_photo(self, slot: u8) -> Seq<u8> {
        if slot == 0 || self.slot_occupied(slot) {
            decoded_rgba(self.ram, slot_base(slot))
        } else {
            Seq::empty()
        }
    }

    /// Whether a photo of this size can go into this slot.
    pub open spec fn can_encode(slot: u8, rgba: Seq<u8>) -> bool {
        1 <= slot <= 30 && rgba.len() == RGBA_BYTES
    }

    /// The photo stored in `slot` and the slot marked with its 0-based index.
    pub open spec fn encode_photo(self, slot: u8, rgba: Seq<u8>) -> CameraView {
        if !Self::can_encode(slot, rgba) {
            self
        } else {
            CameraView {
                ram: with_state_entry(
                    tiles_written(self.ram, slot_base(slot), banded(rgba)),
                    slot,
                    (slot - 1) as u8,
                ),
                ..self
            }
        }
    }

    /// The slot's tiles zeroed and the slot marked empty.
    pub open spec fn clear_photo_slot(self, slot: u8) -> CameraView {
        if slot == 0 || slot > 30 {
            self
        } else {
            CameraView {
                ram: with_state_entry(
                    zero_filled(self.ram, slot_base(slot), PHOTO_BYTES as int),
                    slot,
                    0xFF,
                ),
                ..self
            }
        }
    }

    /// Number of occupied slots: state vector bytes other than 0xFF.
    pub open spec fn photo_count(self) -> nat {
        occupied_count(state_vector(self.ram))
    }
}

fn plane_of(colours: &Vec<u8>, idx: usize, plane: u8) -> (r: u8)
    requires
        idx + 8 <= colours.len(),
        plane < 8,
    ensures
        r == plane_byte(colours@, idx as int, plane),
{
    (((colours[idx] >> plane) & 1) << 7) | (((colours[idx + 1] >> plane) & 1) << 6) | (((
    colours[idx + 2] >> plane) & 1) << 5) | (((colours[idx + 3] >> plane) & 1) << 4) | (((
    colours[idx + 4] >> plane) & 1) << 3) | (((colours[idx + 5] >> plane) & 1) << 2) | (((
    colours[idx + 6] >> plane) & 1) << 1) | ((colours[idx + 7] >> plane) & 1)
}

/// Packs 128 x 112 colours into 224 tiles at `base`.
fn pack_tiles(ram: &mut Vec<u8>, base: usize, colours: &Vec<u8>)
    requires
        colours@.len() == PIXELS,
        base + PHOTO_BYTES <= old(ram).len(),
    ensures
        final(ram)@ == tiles_written(old(ram)@, base as int, colours@),
{
    let mut r: usize = 0;
    while r < 1792
        invariant
            r <= 1792,
            colours@.len() == PIXELS,
            ram@.len() == old(ram)@.len(),
            base + PHOTO_BYTES <= ram.len(),
            forall|i: int|
                base <= i < base + 2 * r ==> #[trigger] ram@[i] == tile_byte(colours@, i - base),
            forall|i: int|
                0 <= i < ram@.len() && !(base <= i < base + 2 * r) ==> #[trigger] ram@[i] == old(
                    ram,
                )@[i],
        decreases 1792 - r,
    {
        let tile = r / 8;
        let row = r % 8;
        let idx = ((tile / 16) * 8 + row) * 128 + (tile % 16) * 8;
        let lo = plane_of(colours, idx, 0);
        let hi = plane_of(colours, idx, 1);
        ram[base + 2 * r] = lo;
        ram[base + 2 * r + 1] = hi;
        r += 1;
    }
    assert(ram@ =~= tiles_written(old(ram)@, base as int, colours@));
}

fn colour_at(ram: &Vec<u8>, base: usize, x: usize, y: usize) -> (r: u8)
    requires
        x < 128,
        y < 112,
        base + PHOTO_BYTES <= ram.len(),
    ensures
        r == tile_colour(ram@, base as int, x as int, y as int),
        r <= 3,
{
    proof {
        lemma_two_bit_colour();
    }
    let off = base + ((y / 8) * 16 + x / 8) * 16 + (y % 8) * 2;
    let lo = ram[off];
    let hi = ram[off + 1];
    let bit: u8 = (7 - x % 8) as u8;
    (((hi >> bit) & 1) << 1) | ((lo >> bit) & 1)
}

fn decode_tiles(ram: &Vec<u8>, base: usize) -> (rgba: Vec<u8>)
    requires
        base + PHOTO_BYTES <= ram.len(),
    ensures
        rgba@ == decoded_rgba(ram@, base as int),
{
    let mut rgba: Vec<u8> = Vec::new();
    let mut p: usize = 0;
    while p < PIXELS
        invariant
            p <= PIXELS,
            base + PHOTO_BYTES <= ram.len(),
            rgba@.len() == 4 * p,
            forall|i: int|
                0 <= i < 4 * p ==> #[trigger] rgba@[i] == decoded_rgba(ram@, base as int)[i],
        decreases PIXELS - p,
    {
        let c = colour_at(ram, base, p % 128, p / 128);
        let g = GRAY[c as usize];
        rgba.push(g);
        rgba.push(g);
        rgba.push(g);
        rgba.push(255);
        p += 1;
    }
    assert(rgba@ =~= decoded_rgba(ram@, base as int));
    rgba
}

fn slot_offset(slot: u8) -> (r: usize)
    requires
        slot <= 30,
    ensures
        r == slot_base(slot),
        r + PHOTO_BYTES <= CAMERA_RAM_SIZE,
        slot >= 1 ==> r >= 0x2000,
{
    if slot == 0 {
        CAPTURE_OFFSET
    } else {
        let adjusted = (slot - 1) as usize;
        (adjusted / 2 + 1) * 0x2000 + (adjusted % 2) * 0x1000
    }
}

proof fn lemma_sum_step(s: Seq<u8>, i: int)
    requires
        0 <= i < s.len(),
    ensures
        byte_sum(s.subrange(0, i + 1)) == add8(byte_sum(s.subrange(0, i)), s[i]),
        byte_xor(s.subrange(0, i + 1)) == byte_xor(s.subrange(0, i)) ^ s[i],
        occupied_count(s.subrange(0, i + 1)) == occupied_count(s.subrange(0, i)) + if s[i]
            != 0xFF {
            1nat
        } else {
            0nat
        },
{
    assert(s.subrange(0, i + 1).drop_last() =~= s.subrange(0, i));
}

impl Camera {
    /// The camera's view is well-formed.
    pub open spec fn wf(&self) -> bool {
        self@.wf()
    }

    /// A camera with cleared registers, a black frame and zeroed RAM.
    pub open spec fn new_spec() -> CameraView {
        CameraView {
            regs: Seq::new(0x80, |i: int| 0u8),
            image: Seq::new(PIXELS as nat, |i: int| 0u8),
            image_ready: false,
            capture_dirty: false,
            capture_pending: false,
            exposure_override: None,
            ram: Seq::new(CAMERA_RAM_SIZE as nat, |i: int| 0u8),
        }
    }

    /// A camera with cleared registers, a black frame and zeroed RAM.
    pub fn new() -> (r: Camera)
        ensures
            r.wf(),
            r@ == Camera::new_spec(),
    {
        let r = Camera {
            regs: [0;0x80],
            image: crate::memory::cartridge::zeroed(PIXELS),
            image_ready: false,
            capture_dirty: false,
            capture_pending: false,
            exposure_override: None,
            ram: crate::memory::cartridge::zeroed(CAMERA_RAM_SIZE),
        };
        assert(r.regs@ =~= Seq::new(0x80, |i: int| 0u8));
        r
    }

    /// Takes the next host frame: exactly 128 x 112 gray bytes.
    pub fn set_image(&mut self, data: &[u8]) -> (r: Result<(), EmuError>)
        requires
            old(self).wf(),
        ensures
            final(self).wf(),
            data@.len() == PIXELS ==> r.is_ok() && final(self)@ == old(self)@.set_image(data@),
            data@.len() != PIXELS ==> r == Err::<(), EmuError>(EmuError::InvalidImageSize)
                && final(self)@ == old(self)@,
    {
        if data.len() != PIXELS {
            return Err(EmuError::InvalidImageSize);
        }
        let mut i: usize = 0;
        while i < PIXELS
            invariant
                i <= PIXELS,
                data@.len() == PIXELS,
                self.image@.len() == PIXELS,
                self@ == (CameraView { image: self.image@, ..old(self)@ }),
                forall|k: int| 0 <= k < i ==> self.image@[k] == data@[k],
            decreases PIXELS - i,
        {
            self.image[i] = data[i];
            i += 1;
        }
        assert(self.image@ =~= data@);
        self.image_ready = true;
        Ok(())
    }

    /// Reads hardware register `index & 0x7F`.
    pub fn reg(&self, index: u8) -> (r: u8)
        ensures
            r == self@.regs[(index & 0x7F) as int],
    {
        proof {
            crate::bits::lemma_u8_mask_bounds();
        }
        self.regs[(index & 0x7F) as usize]
    }

    /// Sets or clears the host's exposure.
    pub fn set_exposure_override(&mut self, value: Option<u16>)
        ensures
            final(self)@ == (CameraView { exposure_override: value, ..old(self)@ }),
    {
        self.exposure_override = value;
    }

    /// Whether the host has supplied a frame.
    pub fn is_image_ready(&self) -> (r: bool)
        ensures
            r == self@.image_ready,
    {
        self.image_ready
    }

    /// Whether a capture was written since the host last looked.
    pub fn is_capture_dirty(&self) -> (r: bool)
        ensures
            r == self@.capture_dirty,
    {
        self.capture_dirty
    }

    /// Whether a capture was started and waits for the analog stage's output.
    pub fn is_capture_pending(&self) -> (r: bool)
        ensures
            r == self@.capture_pending,
    {
        self.capture_pending
    }

    /// Notes that the host has seen the latest capture.
    pub fn clear_capture_dirty(&mut self)
        ensures
            final(self)@ == (CameraView { capture_dirty: false, ..old(self)@ }),
    {
        self.capture_dirty = false;
    }

    /// The 3584 tile bytes of the active capture.
    pub fn capture_sram(&self) -> (r: Vec<u8>)
        requires
            self.wf(),
        ensures
            r@ == self@.ram.subrange(CAPTURE_OFFSET as int, CAPTURE_OFFSET + PHOTO_BYTES),
    {
        let mut out: Vec<u8> = Vec::new();
        let mut i: usize = 0;
        while i < PHOTO_BYTES
            invariant
                i <= PHOTO_BYTES,
                self.wf(),
                out@.len() == i,
                forall|k: int| 0 <= k < i ==> out@[k] == self.ram@[CAPTURE_OFFSET + k],
            decreases PHOTO_BYTES - i,
        {
            out.push(self.ram[CAPTURE_OFFSET + i]);
            i += 1;
        }
        assert(out@ =~= self@.ram.subrange(CAPTURE_OFFSET as int, CAPTURE_OFFSET + PHOTO_BYTES));
        out
    }

    /// The register values the analog stage works from.
    pub fn sensor_settings(&self) -> (r: SensorSettings)
        ensures
            r == self@.settings(),
    {
        let exposure = match self.exposure_override {
            Some(e) => e,
            None => ((self.regs[3] as u16) << 8) | (self.regs[2] as u16),
        };
        SensorSettings {
            exposure,
            gain_bits: (self.regs[1] >> 4) & 0x03,
            edge_mode: (self.regs[4] >> 4) & 0x07,
            voltage_offset: self.regs[5],
        }
    }

    fn is_dither_active(&self) -> (r: bool)
        ensures
            r == dither_active(self@.regs),
    {
        let mut i: usize = 0x06;
        while i < 0x36
            invariant
                0x06 <= i <= 0x36,
                forall|k: int| 0x06 <= k < i ==> self.regs@[k] == 0,
            decreases 0x36 - i,
        {
            if self.regs[i] != 0 {
                return true;
            }
            i += 1;
        }
        false
    }

    /// Quantises the analog stage's output with the dither matrix, applies the
    /// polarity, and packs the result into the active capture's tiles.
    pub fn process_capture(&mut self, processed: &[u8], invert: bool)
        requires
            old(self).wf(),
            processed@.len() == PIXELS,
        ensures
            final(self).wf(),
            final(self)@ == old(self)@.process_capture(processed@, invert),
    {
        let active = self.is_dither_active();
        let negative = (self.regs[1] & 0x02) != 0 || invert;
        let mut colours: Vec<u8> = Vec::new();
        let mut i: usize = 0;
        while i < PIXELS
            invariant
                i <= PIXELS,
                processed@.len() == PIXELS,
                active == dither_active(self@.regs),
                negative == (output_negative(self@.regs) || invert),
                colours@.len() == i,
                forall|k: int|
                    0 <= k < i ==> #[trigger] colours@[k] == capture_colours(
                        self@.regs,
                        processed@,
                        invert,
                    )[k],
            decreases PIXELS - i,
        {
            let x = i % 128;
            let y = i / 128;
            let pixel = processed[i];
            let colour: u8 = if active {
                let t = 0x06 + ((y % 4) * 4 + x % 4) * 3;
                if pixel < self.regs[t] {
                    0
                } else if pixel < self.regs[t + 1] {
                    1
                } else if pixel < self.regs[t + 2] {
                    2
                } else {
                    3
                }
            } else if (255 - pixel) / 64 > 3 {
                3
            } else {
                (255 - pixel) / 64
            };
            colours.push(
                if negative {
                    3 - colour
                } else {
                    colour
                },
            );
            i += 1;
        }
        assert(colours@ =~= capture_colours(self@.regs, processed@, invert));
        pack_tiles(&mut self.ram, CAPTURE_OFFSET, &colours);
    }

    /// Finishes a pending capture with the analog stage's output. Without a
    /// pending capture nothing happens; a frame of the wrong size is refused.
    pub fn complete_capture(&mut self, processed: &[u8]) -> (r: Result<(), EmuError>)
        requires
            old(self).wf(),
        ensures
            final(self).wf(),
            final(self)@ == old(self)@.complete_capture(processed@),
            r.is_err() <==> processed@.len() != PIXELS,
            r.is_err() ==> r == Err::<(), EmuError>(EmuError::InvalidImageSize),
    {
        if processed.len() != PIXELS {
            return Err(EmuError::InvalidImageSize);
        }
        if !self.capture_pending {
            return Ok(());
        }
        let invert = (self.regs[0] & 0x02) != 0;
        self.process_capture(processed, invert);
        self.capture_dirty = true;
        self.capture_pending = false;
        self.regs[0] = self.regs[0] & 0xFE;
        Ok(())
    }

    /// RGBA of a photo slot, or nothing for an empty or unknown slot.
    pub fn decode_photo(&self, slot: u8) -> (r: Vec<u8>)
        requires
            self.wf(),
        ensures
            r@ == self@.decode_photo(slot),
    {
        if slot > 30 {
            return Vec::new();
        }
        if slot >= 1 && self.ram[STATE_VECTOR_OFFSET + (slot - 1) as usize] == 0xFF {
            return Vec::new();
        }
        decode_tiles(&self.ram, slot_offset(slot))
    }

    fn update_state_vector_checksum(&mut self)
        requires
            old(self).wf(),
        ensures
            final(self).wf(),
            final(self)@ == (CameraView { ram: with_checksum(old(self)@.ram), ..old(self)@ }),
    {
        let mut sum: u8 = 0;
        let mut xor: u8 = 0;
        let mut i: usize = 0;
        let ghost sv = state_vector(self.ram@);
        while i < NUM_PHOTO_SLOTS
            invariant
                i <= NUM_PHOTO_SLOTS,
                self.wf(),
                sv == state_vector(self.ram@),
                sum == byte_sum(sv.subrange(0, i as int)),
                xor == byte_xor(sv.subrange(0, i as int)),
            decreases NUM_PHOTO_SLOTS - i,
        {
            proof {
                lemma_sum_step(sv, i as int);
            }
            let b = self.ram[STATE_VECTOR_OFFSET + i];
            sum = sum.wrapping_add(b);
            xor = xor ^ b;
            i += 1;
        }
        assert(sv.subrange(0, NUM_PHOTO_SLOTS as int) =~= sv);
        self.ram[CHECKSUM_OFFSET] = sum;
        self.ram[CHECKSUM_OFFSET + 1] = xor;
    }

    fn set_state_vector_entry(&mut self, slot: u8, value: u8)
        requires
            old(self).wf(),
            1 <= slot <= 30,
        ensures
            final(self).wf(),
            final(self)@ == (CameraView {
                ram: with_state_entry(old(self)@.ram, slot, value),
                ..old(self)@
            }),
    {
        self.ram[STATE_VECTOR_OFFSET + (slot - 1) as usize] = value;
        self.update_state_vector_checksum();
    }

    /// Stores a 128 x 112 RGBA image in slot 1..=30 and marks the slot occupied.
    /// Returns false, changing nothing, for another slot or image size.
    pub fn encode_photo(&mut self, slot: u8, rgba: &[u8]) -> (r: bool)
        requires
            old(self).wf(),
        ensures
            final(self).wf(),
            r == CameraView::can_encode(slot, rgba@),
            final(self)@ == old(self)@.encode_photo(slot, rgba@),
    {
        if slot == 0 || slot > 30 || rgba.len() != RGBA_BYTES {
            return false;
        }
        let mut colours: Vec<u8> = Vec::new();
        let mut i: usize = 0;
        while i < PIXELS
            invariant
                i <= PIXELS,
                rgba@.len() == RGBA_BYTES,
                colours@.len() == i,
                forall|k: int| 0 <= k < i ==> #[trigger] colours@[k] == banded(rgba@)[k],
            decreases PIXELS - i,
        {
            let red = rgba[4 * i];
            let colour: u8 = if red >= 0xC0 {
                0
            } else if red >= 0x80 {
                1
            } else if red >= 0x40 {
                2
            } else {
                3
            };
            colours.push(colour);
            i += 1;
        }
        assert(colours@ =~= banded(rgba@));
        pack_tiles(&mut self.ram, slot_offset(slot), &colours);
        self.set_state_vector_entry(slot, slot - 1);
        true
    }

    /// Erases slot 1..=30; other slots are left alone.
    pub fn clear_photo_slot(&mut self, slot: u8)
        requires
            old(self).wf(),
        ensures
            final(self).wf(),
            final(self)@ == old(self)@.clear_photo_slot(slot),
    {
        if slot == 0 || slot > 30 {
            return ;
        }
        let base = slot_offset(slot);
        let mut i: usize = 0;
        while i < PHOTO_BYTES
            invariant
                i <= PHOTO_BYTES,
                base + PHOTO_BYTES <= CAMERA_RAM_SIZE,
                self.wf(),
                self@ == (CameraView { ram: self.ram@, ..old(self)@ }),
                forall|k: int| base <= k < base + i ==> #[trigger] self.ram@[k] == 0,
                forall|k: int|
                    0 <= k < CAMERA_RAM_SIZE && !(base <= k < base + i) ==> #[trigger] self.ram@[k]
                        == old(self).ram@[k],
            decreases PHOTO_BYTES - i,
        {
            self.ram[base + i] = 0;
            i += 1;
        }
        assert(self.ram@ =~= zero_filled(old(self)@.ram, base as int, PHOTO_BYTES as int));
        self.set_state_vector_entry(slot, 0xFF);
    }

    fn min_threshold_of(&self, ch: usize) -> (r: u8)
        requires
            ch < 3,
        ensures
            r == min_threshold(self@.regs, ch as int, 16),
    {
        let mut t: u8 = 0xFF;
        let mut pos: usize = 0;
        while pos < 16
            invariant
                pos <= 16,
                ch < 3,
                t == min_threshold(self@.regs, ch as int, pos as nat),
            decreases 16 - pos,
        {
            let val = self.regs[0x06 + pos * 3 + ch];
            if val < t {
                t = val;
            }
            pos += 1;
        }
        t
    }

    /// The contrast level (0..=15) that the dither matrix encodes, or -1.
    pub fn contrast(&self) -> (r: i32)
        ensures
            is_contrast(self@.regs, r as int),
    {
        let t0 = self.min_threshold_of(0);
        let t1 = self.min_threshold_of(1);
        let t2 = self.min_threshold_of(2);
        let mut level: usize = 0;
        while level < 16
            invariant
                level <= 16,
                t0 == min_threshold(self@.regs, 0, 16),
                t1 == min_threshold(self@.regs, 1, 16),
                t2 == min_threshold(self@.regs, 2, 16),
                forall|l: int| 0 <= l < level ==> !low_light_matches(self@.regs, l),
            decreases 16 - level,
        {
            if t0 == LOW_LIGHT[level][0] && t1 == LOW_LIGHT[level][1] && t2 == LOW_LIGHT[level][2] {
                assert(low_light_matches(self@.regs, level as int));
                return level as i32;
            }
            level += 1;
        }
        level = 0;
        while level < 16
            invariant
                level <= 16,
                t0 == min_threshold(self@.regs, 0, 16),
                t1 == min_threshold(self@.regs, 1, 16),
                t2 == min_threshold(self@.regs, 2, 16),
                forall|l: int| 0 <= l < 16 ==> !low_light_matches(self@.regs, l),
                forall|l: int| 0 <= l < level ==> !high_light_matches(self@.regs, l),
            decreases 16 - level,
        {
            if t0 == HIGH_LIGHT[level][0] && t1 == HIGH_LIGHT[level][1] && t2
                == HIGH_LIGHT[level][2] {
                assert(high_light_matches(self@.regs, level as int));
                return level as i32;
            }
            level += 1;
        }
        -1
    }

    /// Number of occupied photo slots.
    pub fn photo_count(&self) -> (r: u8)
        requires
            self.wf(),
        ensures
            r == self@.photo_count(),
            r <= 30,
    {
        let mut count: u8 = 0;
        let mut i: usize = 0;
        let ghost sv = state_vector(self.ram@);
        while i < NUM_PHOTO_SLOTS
            invariant
                i <= NUM_PHOTO_SLOTS,
                self.wf(),
                sv == state_vector(self.ram@),
                count == occupied_count(sv.subrange(0, i as int)),
                count <= i,
            decreases NUM_PHOTO_SLOTS - i,
        {
            proof {
                lemma_sum_step(sv, i as int);
            }
            if self.ram[STATE_VECTOR_OFFSET + i] != 0xFF {
                count += 1;
            }
            i += 1;
        }
        assert(sv.subrange(0, NUM_PHOTO_SLOTS as int) =~= sv);
        count
    }
}

} // verus!
