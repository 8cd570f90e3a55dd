//! Errors returned to the host.

use vstd::prelude::*;

verus! {

/// What an operation of the core can fail with.
#[derive(Debug, Clone, Copy, PartialEq, Eq, Structural)]
pub enum EmuError {
    /// The ROM image is shorter than its 0x150-byte header.
    RomTooSmall,
    /// A photo slot outside 1..=30 was named.
    InvalidSlot,
    /// An image buffer does not have the exact size of a camera frame.
    InvalidImageSize,
    /// The CPU fetched an opcode that the instruction set does not define.
    UnimplementedOpcode(u8),
}

impl EmuError {
    /// A short description for the host.
    pub open spec fn message_spec(self) -> Seq<char> {
        match self {
            EmuError::RomTooSmall => "ROM too small"@,
            EmuError::InvalidSlot => "invalid photo slot"@,
            EmuError::InvalidImageSize => "invalid image size"@,
            EmuError::UnimplementedOpcode(_) => "unimplemented opcode"@,
        }
    }

    /// A short description for the host.
    pub fn message(&self) -> (r: &'static str)
        ensures
            r@ == self.message_spec(),
    {
        match self {
            EmuError::RomTooSmall => "ROM too small",
            EmuError::InvalidSlot => "invalid photo slot",
            EmuError::InvalidImageSize => "invalid image size",
            EmuError::UnimplementedOpcode(_) => "unimplemented opcode",
        }
    }
}

} // verus!
