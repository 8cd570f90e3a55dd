//! The bus the CPU sees: memory, with the joypad at 0xFF00 and the timer at
//! 0xFF04-0xFF07 answering in its place.

use crate::joypad::Joypad;
use crate::memory::{Memory, MemoryView};
use crate::timer::Timer;
use vstd::prelude::*;

verus! {

/// Memory, timer and joypad behind one address space.
pub struct MemoryBus {
    pub memory: Memory,
    pub timer: Timer,
    pub joypad: Joypad,
}

/// What the bus holds, as the CPU can observe and change it.
pub struct BusView {
    pub memory: MemoryView,
    pub timer: Timer,
    pub joypad: Joypad,
}

impl View for MemoryBus {
    type V = BusView;

    open spec fn view(&self) -> BusView {
        BusView { memory: self.memory@, timer: self.timer, joypad: self.joypad }
    }
}

impl BusView {
    /// The memory behind the bus is well-formed.
    pub open spec fn wf(self) -> bool {
        self.memory.wf()
    }

    /// What the CPU reads at `addr`.
    pub open spec fn read(self, addr: u16) -> u8 {
        if addr == 0xFF00 {
            self.joypad.read_spec()
        } else if 0xFF04 <= addr <= 0xFF07 {
            self.timer.read_spec(addr)
        } else {
            self.memory.read(addr)
        }
    }

    /// The machine after the CPU writes `value` at `addr`.
    pub open spec fn write(self, addr: u16, value: u8) -> BusView {
        if addr == 0xFF00 {
            BusView { joypad: self.joypad.write_spec(value), ..self }
        } else if 0xFF04 <= addr <= 0xFF07 {
            BusView { timer: self.timer.write_spec(addr, value), ..self }
        } else {
            BusView { memory: self.memory.write(addr, value), ..self }
        }
    }

    /// The 16-bit word at `addr`, low byte first.
    pub open spec fn read_word(self, addr: u16) -> u16 {
        ((self.read(next_addr(addr)) as u16) << 8) | (self.read(addr) as u16)
    }
}

/// The address after `addr`, wrapping at 16 bits.
pub open spec fn next_addr(addr: u16) -> u16 {
    if addr == 0xFFFF {
        0
    } else {
        (addr + 1) as u16
    }
}

/// The address before `addr`, wrapping at 16 bits.
pub open spec fn prev_addr(addr: u16) -> u16 {
    if addr == 0 {
        0xFFFF
    } else {
        (addr - 1) as u16
    }
}

impl MemoryBus {
    /// The memory behind the bus is well-formed.
    pub open spec fn wf(&self) -> bool {
        self@.wf()
    }

    /// Puts the three components behind one bus.
    pub fn new(memory: Memory, timer: Timer, joypad: Joypad) -> (r: MemoryBus)
        ensures
            r@ == (BusView { memory: memory@, timer, joypad }),
    {
        MemoryBus { memory, timer, joypad }
    }

    /// Reads the byte at `addr` as the CPU sees it.
    pub fn read(&self, addr: u16) -> (r: u8)
        requires
            self.wf(),
        ensures
            r == self@.read(addr),
    {
        if addr == 0xFF00 {
            self.joypad.read()
        } else if 0xFF04 <= addr && addr <= 0xFF07 {
            self.timer.read(addr)
        } else {
            self.memory.read(addr)
        }
    }

    /// Writes `value` at `addr` as the CPU does.
    pub fn write(&mut self, addr: u16, value: u8)
        requires
            old(self).wf(),
        ensures
            final(self).wf(),
            final(self)@ == old(self)@.write(addr, value),
    {
        if addr == 0xFF00 {
            self.joypad.write(value);
        } else if 0xFF04 <= addr && addr <= 0xFF07 {
            self.timer.write(addr, value);
        } else {
            self.memory.write(addr, value);
        }
    }

    /// The memory behind the bus, for components that act on it directly.
    pub fn memory_mut(&mut self) -> (r: &mut Memory)
        ensures
            *r == old(self).memory,
            *final(self) == (MemoryBus { memory: *final(r), ..*old(self) }),
    {
        &mut self.memory
    }

    /// The interrupt enable register.
    pub fn get_ie(&self) -> (r: u8)
        ensures
            r == self@.memory.ie,
    {
        self.memory.get_ie()
    }

    /// Reads I/O register `offset` (below 0x80) as stored in memory.
    pub fn read_io_direct(&self, offset: u8) -> (r: u8)
        requires
            offset < 0x80,
        ensures
            r == self@.memory.io[offset as int],
    {
        self.memory.read_io_direct(offset)
    }
}

/// Through the bus too, 0xFFFF reads IE and 0xFF0F reads IF with its upper
/// three bits set.
pub proof fn lemma_bus_interrupt_registers(b: BusView, value: u8)
    requires
        b.wf(),
    ensures
        b.read(0xFFFF) == b.memory.ie,
        b.read(0xFF0F) == b.memory.io[0x0F] | 0xE0,
        b.write(0xFFFF, value).read(0xFFFF) == value,
        b.write(0xFF0F, value).read(0xFF0F) == value | 0xE0,
{
}

/// A write to DIV through the bus clears the timer's whole counter, not just
/// the byte that DIV shows, and leaves memory alone.
pub proof fn lemma_bus_div_write(b: BusView, value: u8)
    ensures
        b.write(0xFF04, value).timer == b.timer.div_written(),
        b.write(0xFF04, value).timer.div_counter == 0,
        b.write(0xFF04, value).memory == b.memory,
{
}

} // verus!
