//! I/O register offsets from 0xFF00.

use vstd::prelude::*;

verus! {

pub const JOYP: u8 = 0x00;

pub const SB: u8 = 0x01;

pub const SC: u8 = 0x02;

pub const DIV: u8 = 0x04;

pub const TIMA: u8 = 0x05;

pub const TMA: u8 = 0x06;

pub const TAC: u8 = 0x07;

pub const IF: u8 = 0x0F;

pub const LCDC: u8 = 0x40;

pub const STAT: u8 = 0x41;

pub const SCY: u8 = 0x42;

pub const SCX: u8 = 0x43;

pub const LY: u8 = 0x44;

pub const LYC: u8 = 0x45;

pub const DMA: u8 = 0x46;

pub const BGP: u8 = 0x47;

pub const OBP0: u8 = 0x48;

pub const OBP1: u8 = 0x49;

pub const WY: u8 = 0x4A;

pub const WX: u8 = 0x4B;

/// Speed switch (color mode).
pub const KEY1: u8 = 0x4D;

/// VRAM bank (color mode).
pub const VBK: u8 = 0x4F;

pub const HDMA1: u8 = 0x51;

pub const HDMA2: u8 = 0x52;

pub const HDMA3: u8 = 0x53;

pub const HDMA4: u8 = 0x54;

pub const HDMA5: u8 = 0x55;

/// Infrared port, not emulated.
pub const RP: u8 = 0x56;

pub const BCPS: u8 = 0x68;

pub const BCPD: u8 = 0x69;

pub const OCPS: u8 = 0x6A;

pub const OCPD: u8 = 0x6B;

/// WRAM bank (color mode).
pub const SVBK: u8 = 0x70;

} // verus!
