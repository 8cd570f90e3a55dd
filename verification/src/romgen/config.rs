//! What a test cartridge is built for.

use super::data::{
    PATTERN_2X2, PATTERN_DIAGONAL, PATTERN_FUZZ, PATTERN_GRID, PATTERN_HORIZONTAL, PATTERN_MAZE,
    PATTERN_NEST, PATTERN_STANDARD, PATTERN_VERTICAL,
};
use vstd::prelude::*;

verus! {

/// How the thresholds are spread over the 4 x 4 matrix.
#[derive(Clone, Copy, Debug, PartialEq, Eq, Structural)]
pub enum DitherPattern {
    Standard,
    Block2x2,
    Grid,
    Maze,
    Nest,
    Fuzz,
    Vertical,
    Horizontal,
    Diagonal,
}

impl DitherPattern {
    /// The rank of each of the 16 matrix positions.
    pub open spec fn ranks(self) -> Seq<u8> {
        match self {
            DitherPattern::Standard => PATTERN_STANDARD@,
            DitherPattern::Block2x2 => PATTERN_2X2@,
            DitherPattern::Grid => PATTERN_GRID@,
            DitherPattern::Maze => PATTERN_MAZE@,
            DitherPattern::Nest => PATTERN_NEST@,
            DitherPattern::Fuzz => PATTERN_FUZZ@,
            DitherPattern::Vertical => PATTERN_VERTICAL@,
            DitherPattern::Horizontal => PATTERN_HORIZONTAL@,
            DitherPattern::Diagonal => PATTERN_DIAGONAL@,
        }
    }

    /// The pattern's name on the command line.
    pub open spec fn name_spec(self) -> Seq<char> {
        match self {
            DitherPattern::Standard => "standard"@,
            DitherPattern::Block2x2 => "2x2"@,
            DitherPattern::Grid => "grid"@,
            DitherPattern::Maze => "maze"@,
            DitherPattern::Nest => "nest"@,
            DitherPattern::Fuzz => "fuzz"@,
            DitherPattern::Vertical => "vertical"@,
            DitherPattern::Horizontal => "horizontal"@,
            DitherPattern::Diagonal => "diagonal"@,
        }
    }

    /// The rank of each of the 16 matrix positions.
    pub fn data(&self) -> (r: [u8; 16])
        ensures
            r@ == self.ranks(),
    {
        match self {
            DitherPattern::Standard => PATTERN_STANDARD,
            DitherPattern::Block2x2 => PATTERN_2X2,
            DitherPattern::Grid => PATTERN_GRID,
            DitherPattern::Maze => PATTERN_MAZE,
            DitherPattern::Nest => PATTERN_NEST,
            DitherPattern::Fuzz => PATTERN_FUZZ,
            DitherPattern::Vertical => PATTERN_VERTICAL,
            DitherPattern::Horizontal => PATTERN_HORIZONTAL,
            DitherPattern::Diagonal => PATTERN_DIAGONAL,
        }
    }

    /// The pattern's name on the command line.
    pub fn name(&self) -> (r: &'static str)
        ensures
            r@ == self.name_spec(),
    {
        match self {
            DitherPattern::Standard => "standard",
            DitherPattern::Block2x2 => "2x2",
            DitherPattern::Grid => "grid",
            DitherPattern::Maze => "maze",
            DitherPattern::Nest => "nest",
            DitherPattern::Fuzz => "fuzz",
            DitherPattern::Vertical => "vertical",
            DitherPattern::Horizontal => "horizontal",
            DitherPattern::Diagonal => "diagonal",
        }
    }
}

/// What the test cartridge is built for.
#[derive(Clone, Copy, Debug)]
pub struct CameraConfig {
    pub pattern: DitherPattern,
    /// Contrast level at start, 0 to 15.
    pub contrast: u8,
    /// Thresholds for bright light rather than low light.
    pub high_light: bool,
    pub exposure: u16,
    /// Gain code, 0 (highest) to 3 (lowest).
    pub gain: u8,
    /// Edge enhancement, 0 to 7.
    pub edge_enhance: u8,
    pub voltage_offset: u8,
    pub invert: bool,
    pub release: bool,
}

impl CameraConfig {
    /// Ordered dither in low light at contrast 9, exposure 0x1000, highest
    /// gain, no edge enhancement, offset 0x80.
    pub open spec fn standard() -> CameraConfig {
        CameraConfig {
            pattern: DitherPattern::Standard,
            contrast: 9,
            high_light: false,
            exposure: 0x1000,
            gain: 0,
            edge_enhance: 0,
            voltage_offset: 0x80,
            invert: false,
            release: false,
        }
    }
}

impl Default for CameraConfig {
    fn default() -> (r: CameraConfig)
        ensures
            r == CameraConfig::standard(),
    {
        CameraConfig {
            pattern: DitherPattern::Standard,
            contrast: 9,
            high_light: false,
            exposure: 0x1000,
            gain: 0,
            edge_enhance: 0,
            voltage_offset: 0x80,
            invert: false,
            release: false,
        }
    }
}

} // verus!
