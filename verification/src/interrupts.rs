//! Interrupt requests: single-bit updates of IF (0xFF0F), made on the stored
//! register so that the CPU sees them at its next step.

use crate::memory::{Memory, MemoryView};
use vstd::prelude::*;

verus! {

/// The five interrupt sources, highest priority first.
#[derive(Debug, Clone, Copy, PartialEq, Eq, Structural)]
pub enum Interrupt {
    VBlank,
    LcdStat,
    Timer,
    Serial,
    Joypad,
}

impl Interrupt {
    /// The source's bit in IF and IE.
    pub open spec fn mask(self) -> u8 {
        match self {
            Interrupt::VBlank => 0x01,
            Interrupt::LcdStat => 0x02,
            Interrupt::Timer => 0x04,
            Interrupt::Serial => 0x08,
            Interrupt::Joypad => 0x10,
        }
    }

    /// Address of the source's handler.
    pub open spec fn vector(self) -> u16 {
        match self {
            Interrupt::VBlank => 0x0040,
            Interrupt::LcdStat => 0x0048,
            Interrupt::Timer => 0x0050,
            Interrupt::Serial => 0x0058,
            Interrupt::Joypad => 0x0060,
        }
    }

    /// The source's bit in IF and IE.
    pub fn bit_mask(self) -> (r: u8)
        ensures
            r == self.mask(),
    {
        match self {
            Interrupt::VBlank => 0x01,
            Interrupt::LcdStat => 0x02,
            Interrupt::Timer => 0x04,
            Interrupt::Serial => 0x08,
            Interrupt::Joypad => 0x10,
        }
    }

    /// Address of the source's handler.
    pub fn handler(self) -> (r: u16)
        ensures
            r == self.vector(),
    {
        match self {
            Interrupt::VBlank => 0x0040,
            Interrupt::LcdStat => 0x0048,
            Interrupt::Timer => 0x0050,
            Interrupt::Serial => 0x0058,
            Interrupt::Joypad => 0x0060,
        }
    }
}

/// The highest-priority source among the pending bits, if any of the five is set.
pub open spec fn highest_priority(pending: u8) -> Option<Interrupt> {
    if pending & 0x01 != 0 {
        Some(Interrupt::VBlank)
    } else if pending & 0x02 != 0 {
        Some(Interrupt::LcdStat)
    } else if pending & 0x04 != 0 {
        Some(Interrupt::Timer)
    } else if pending & 0x08 != 0 {
        Some(Interrupt::Serial)
    } else if pending & 0x10 != 0 {
        Some(Interrupt::Joypad)
    } else {
        None
    }
}

/// The source serviced when `pending` has at least one of the five bits set:
/// V-blank before LCD STAT before Timer before Serial before Joypad.
pub open spec fn priority(pending: u8) -> Interrupt {
    if pending & 0x01 != 0 {
        Interrupt::VBlank
    } else if pending & 0x02 != 0 {
        Interrupt::LcdStat
    } else if pending & 0x04 != 0 {
        Interrupt::Timer
    } else if pending & 0x08 != 0 {
        Interrupt::Serial
    } else {
        Interrupt::Joypad
    }
}

/// Picks the source to service among pending bits.
pub fn pick(pending: u8) -> (r: Interrupt)
    ensures
        r == priority(pending),
{
    if pending & 0x01 != 0 {
        Interrupt::VBlank
    } else if pending & 0x02 != 0 {
        Interrupt::LcdStat
    } else if pending & 0x04 != 0 {
        Interrupt::Timer
    } else if pending & 0x08 != 0 {
        Interrupt::Serial
    } else {
        Interrupt::Joypad
    }
}

/// Among pending bits within the low five, the serviced source is pending and
/// no source of higher priority is.
pub proof fn lemma_priority(pending: u8)
    requires
        pending & 0x1F != 0,
    ensures
        highest_priority(pending) == Some(priority(pending)),
        pending & priority(pending).mask() != 0,
        forall|other: Interrupt|
            other.mask() < priority(pending).mask() ==> pending & #[trigger] other.mask() == 0,
{
    assert(pending & 0x01 != 0 || pending & 0x02 != 0 || pending & 0x04 != 0 || pending & 0x08
        != 0 || pending & 0x10 != 0) by (bit_vector)
        requires
            pending & 0x1F != 0,
    ;
}

/// Memory with the bits of `mask` set in IF.
pub open spec fn requested(m: MemoryView, mask: u8) -> MemoryView {
    m.with_io(0x0F, m.io[0x0F] | mask)
}

/// Memory with the bits of `mask` cleared in IF.
pub open spec fn cleared(m: MemoryView, mask: u8) -> MemoryView {
    m.with_io(0x0F, m.io[0x0F] & !mask)
}

/// The controller holds no state of its own: IF lives in memory.
pub struct InterruptController;

impl InterruptController {
    /// A controller; it needs no state.
    pub fn new() -> (r: InterruptController) {
        InterruptController
    }

    /// Sets the source's bit in IF.
    pub fn request(&self, interrupt: Interrupt, memory: &mut Memory)
        ensures
            final(memory)@ == requested(old(memory)@, interrupt.mask()),
    {
        let if_reg = memory.read_io_direct(0x0F);
        memory.write_io_direct(0x0F, if_reg | interrupt.bit_mask());
    }

    /// Requests the V-blank interrupt.
    pub fn request_vblank(&self, memory: &mut Memory)
        ensures
            final(memory)@ == requested(old(memory)@, 0x01),
    {
        self.request(Interrupt::VBlank, memory);
    }

    /// Requests the LCD STAT interrupt.
    pub fn request_lcd_stat(&self, memory: &mut Memory)
        ensures
            final(memory)@ == requested(old(memory)@, 0x02),
    {
        self.request(Interrupt::LcdStat, memory);
    }

    /// Requests the Timer interrupt.
    pub fn request_timer(&self, memory: &mut Memory)
        ensures
            final(memory)@ == requested(old(memory)@, 0x04),
    {
        self.request(Interrupt::Timer, memory);
    }

    /// Requests the Serial interrupt.
    pub fn request_serial(&self, memory: &mut Memory)
        ensures
            final(memory)@ == requested(old(memory)@, 0x08),
    {
        self.request(Interrupt::Serial, memory);
    }

    /// Requests the Joypad interrupt.
    pub fn request_joypad(&self, memory: &mut Memory)
        ensures
            final(memory)@ == requested(old(memory)@, 0x10),
    {
        self.request(Interrupt::Joypad, memory);
    }

    /// Clears bit `bit` (0..=7) of IF.
    pub fn clear(&self, memory: &mut Memory, bit: u8)
        requires
            bit < 8,
        ensures
            final(memory)@ == cleared(old(memory)@, 1u8 << bit),
    {
        let if_reg = memory.read_io_direct(0x0F);
        memory.write_io_direct(0x0F, if_reg & !(1u8 << bit));
    }

    /// Clears the source's bit in IF.
    pub fn acknowledge(&self, interrupt: Interrupt, memory: &mut Memory)
        ensures
            final(memory)@ == cleared(old(memory)@, interrupt.mask()),
    {
        let if_reg = memory.read_io_direct(0x0F);
        memory.write_io_direct(0x0F, if_reg & !interrupt.bit_mask());
    }
}

/// A request sets the source's bit and no other; clearing it afterwards leaves
/// the other bits as they were; requests are idempotent.
pub proof fn lemma_request_sets_one_bit(m: MemoryView, i: Interrupt)
    requires
        m.wf(),
    ensures
        requested(m, i.mask()).io[0x0F] & i.mask() == i.mask(),
        requested(m, i.mask()).io[0x0F] & !i.mask() == m.io[0x0F] & !i.mask(),
        requested(requested(m, i.mask()), i.mask()) == requested(m, i.mask()),
        cleared(m, i.mask()).io[0x0F] & i.mask() == 0,
        cleared(m, i.mask()).io[0x0F] & !i.mask() == m.io[0x0F] & !i.mask(),
{
    let f = m.io[0x0F];
    let k = i.mask();
    assert((f | k) & k == k && (f | k) & !k == f & !k && ((f | k) | k) == (f | k) && (f & !k) & k
        == 0 && (f & !k) & !k == f & !k) by (bit_vector);
    assert(requested(requested(m, k), k).io =~= requested(m, k).io);
}

} // verus!
