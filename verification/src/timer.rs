//! DIV, TIMA, TMA and TAC.
//!
//! A 16-bit counter runs at one count per T-cycle and shows its high byte as
//! DIV. TIMA counts falling edges of the counter bit that TAC selects, while
//! TAC bit 2 enables it. When TIMA overflows it reads 0 for four cycles, then
//! reloads from TMA and requests the Timer interrupt.

use crate::interrupts::{requested, Interrupt, InterruptController};
use crate::memory::Memory;
use vstd::prelude::*;

verus! {

/// The 16-bit counter behind DIV, and TIMA, TMA, TAC.
#[derive(Clone, Copy)]
pub struct Timer {
    pub div_counter: u16,
    pub tima: u8,
    pub tma: u8,
    pub tac: u8,
    /// Cycles left until TIMA reloads after an overflow; 0 when none is due.
    pub overflow_cycles: u8,
}

/// Counter bit watched for the clock select in TAC bits 0-1.
pub open spec fn selected_bit(tac: u8) -> u16 {
    if tac & 0x03 == 0 {
        9
    } else if tac & 0x03 == 1 {
        3
    } else if tac & 0x03 == 2 {
        5
    } else {
        7
    }
}

/// The next counter value, wrapping at 16 bits.
pub open spec fn next_count(c: u16) -> u16 {
    if c == 0xFFFF {
        0
    } else {
        (c + 1) as u16
    }
}

/// Whether bit `bit` falls from 1 to 0 as the counter steps on from `c`.
pub open spec fn falling_edge(c: u16, bit: u16) -> bool {
    (c >> bit) & 1 == 1 && (next_count(c) >> bit) & 1 == 0
}

impl Timer {
    /// Whether TAC bit 2 lets TIMA count.
    pub open spec fn enabled(self) -> bool {
        self.tac & 0x04 != 0
    }

    /// Whether this cycle ends the reload delay.
    pub open spec fn reload_due(self) -> bool {
        self.overflow_cycles == 1
    }

    /// The timer one T-cycle later. A due reload comes first; then the counter
    /// steps, and an enabled timer counts a falling edge of its selected bit,
    /// starting the 4-cycle reload delay when TIMA wraps to 0.
    pub open spec fn tick_once_spec(self) -> Timer {
        let tima0 = if self.reload_due() {
            self.tma
        } else {
            self.tima
        };
        let delay0 = if self.overflow_cycles > 0 {
            (self.overflow_cycles - 1) as u8
        } else {
            0u8
        };
        let counts = self.enabled() && falling_edge(self.div_counter, selected_bit(self.tac));
        let tima1 = if counts {
            if tima0 == 0xFF {
                0u8
            } else {
                (tima0 + 1) as u8
            }
        } else {
            tima0
        };
        Timer {
            div_counter: next_count(self.div_counter),
            tima: tima1,
            overflow_cycles: if counts && tima1 == 0 {
                4
            } else {
                delay0
            },
            ..self
        }
    }

    /// The timer `cycles` T-cycles later.
    pub open spec fn ticked(self, cycles: nat) -> Timer
        decreases cycles,
    {
        if cycles == 0 {
            self
        } else {
            self.ticked((cycles - 1) as nat).tick_once_spec()
        }
    }

    /// Whether a reload, and with it a Timer interrupt request, falls within
    /// the next `cycles` T-cycles.
    pub open spec fn reloads_within(self, cycles: nat) -> bool
        decreases cycles,
    {
        if cycles == 0 {
            false
        } else {
            self.reloads_within((cycles - 1) as nat) || self.ticked(
                (cycles - 1) as nat,
            ).reload_due()
        }
    }

    /// What a read of a timer register returns: DIV is the counter's high
    /// byte, the upper five bits of TAC read 1.
    pub open spec fn read_spec(self, addr: u16) -> u8 {
        if addr == 0xFF04 {
            (self.div_counter >> 8) as u8
        } else if addr == 0xFF05 {
            self.tima
        } else if addr == 0xFF06 {
            self.tma
        } else if addr == 0xFF07 {
            self.tac | 0xF8
        } else {
            0xFF
        }
    }

    /// TIMA one count later, wrapping at 256.
    pub open spec fn next_tima(self) -> u8 {
        if self.tima == 0xFF {
            0
        } else {
            (self.tima + 1) as u8
        }
    }

    /// Whether clearing the counter now pulls the selected bit from 1 to 0
    /// with the timer enabled, which TIMA counts like any falling edge.
    pub open spec fn reset_is_edge(self) -> bool {
        self.enabled() && (self.div_counter >> selected_bit(self.tac)) & 1 == 1
    }

    /// The timer after a write to DIV: the whole counter is cleared, and if
    /// that is a falling edge of the selected bit, TIMA counts it.
    pub open spec fn div_written(self) -> Timer {
        if self.reset_is_edge() {
            Timer {
                div_counter: 0,
                tima: self.next_tima(),
                overflow_cycles: if self.next_tima() == 0 {
                    4
                } else {
                    self.overflow_cycles
                },
                ..self
            }
        } else {
            Timer { div_counter: 0, ..self }
        }
    }

    /// The timer after a register write: any write to DIV clears the whole
    /// counter; a write to TIMA cancels a reload in waiting.
    pub open spec fn write_spec(self, addr: u16, value: u8) -> Timer {
        if addr == 0xFF04 {
            self.div_written()
        } else if addr == 0xFF05 {
            Timer { tima: value, overflow_cycles: 0, ..self }
        } else if addr == 0xFF06 {
            Timer { tma: value, ..self }
        } else if addr == 0xFF07 {
            Timer { tac: value, ..self }
        } else {
            self
        }
    }

    /// The timer as the boot program leaves it.
    pub open spec fn power_on() -> Timer {
        Timer { div_counter: 0xABCC, tima: 0, tma: 0, tac: 0xF8, overflow_cycles: 0 }
    }

    /// The timer as the boot program leaves it.
    pub fn new() -> (r: Timer)
        ensures
            r == Timer::power_on(),
    {
        Timer { div_counter: 0xABCC, tima: 0, tma: 0, tac: 0xF8, overflow_cycles: 0 }
    }

    /// Advances one T-cycle; returns whether TIMA reloaded, which requests
    /// the Timer interrupt.
    pub fn tick_once(&mut self) -> (reloaded: bool)
        ensures
            *final(self) == old(self).tick_once_spec(),
            reloaded == old(self).reload_due(),
    {
        let mut reloaded = false;
        if self.overflow_cycles > 0 {
            self.overflow_cycles -= 1;
            if self.overflow_cycles == 0 {
                self.tima = self.tma;
                reloaded = true;
            }
        }
        let old_div = self.div_counter;
        self.div_counter = self.div_counter.wrapping_add(1);
        if self.tac & 0x04 == 0 {
            return reloaded;
        }
        let sel = self.tac & 0x03;
        let bit: u16 = if sel == 0 {
            9
        } else if sel == 1 {
            3
        } else if sel == 2 {
            5
        } else {
            7
        };
        let old_bit = (old_div >> bit) & 1;
        let new_bit = (self.div_counter >> bit) & 1;
        if old_bit == 1 && new_bit == 0 {
            self.tima = self.tima.wrapping_add(1);
            if self.tima == 0 {
                self.overflow_cycles = 4;
            }
        }
        reloaded
    }

    /// Advances `cycles` T-cycles, requesting the Timer interrupt in IF when
    /// TIMA reloads.
    pub fn tick(&mut self, cycles: u32, memory: &mut Memory, interrupts: &InterruptController)
        requires
            old(memory).wf(),
        ensures
            final(memory).wf(),
            *final(self) == old(self).ticked(cycles as nat),
            final(memory)@ == if old(self).reloads_within(cycles as nat) {
                requested(old(memory)@, 0x04)
            } else {
                old(memory)@
            },
    {
        let mut i: u32 = 0;
        while i < cycles
            invariant
                i <= cycles,
                memory.wf(),
                *self == old(self).ticked(i as nat),
                memory@ == if old(self).reloads_within(i as nat) {
                    requested(old(memory)@, 0x04)
                } else {
                    old(memory)@
                },
            decreases cycles - i,
        {
            let reloaded = self.tick_once();
            if reloaded {
                proof {
                    crate::interrupts::lemma_request_sets_one_bit(old(memory)@, Interrupt::Timer);
                }
                interrupts.request(Interrupt::Timer, memory);
            }
            i += 1;
        }
    }

    /// Reads a timer register (0xFF04-0xFF07); other addresses read 0xFF.
    pub fn read(&self, addr: u16) -> (r: u8)
        ensures
            r == self.read_spec(addr),
    {
        match addr {
            0xFF04 => (self.div_counter >> 8) as u8,
            0xFF05 => self.tima,
            0xFF06 => self.tma,
            0xFF07 => self.tac | 0xF8,
            _ => 0xFF,
        }
    }

    /// Writes a timer register (0xFF04-0xFF07); other addresses are ignored.
    pub fn write(&mut self, addr: u16, value: u8)
        ensures
            *final(self) == old(self).write_spec(addr, value),
    {
        match addr {
            0xFF04 => {
                let sel = self.tac & 0x03;
                let bit: u16 = if sel == 0 {
                    9
                } else if sel == 1 {
                    3
                } else if sel == 2 {
                    5
                } else {
                    7
                };
                if self.tac & 0x04 != 0 && (self.div_counter >> bit) & 1 == 1 {
                    self.tima = self.tima.wrapping_add(1);
                    if self.tima == 0 {
                        self.overflow_cycles = 4;
                    }
                }
                self.div_counter = 0;
            },
            0xFF05 => {
                self.overflow_cycles = 0;
                self.tima = value;
            },
            0xFF06 => self.tma = value,
            0xFF07 => self.tac = value,
            _ => {},
        }
    }
}

/// After a falling edge of bit 3, 5, 7 or 9, that bit stays low over the next
/// four counts, so no further edge of it falls in them.
pub proof fn lemma_no_edge_after_edge(c: u16, c1: u16, c2: u16, c3: u16, c4: u16, bit: u16)
    by (bit_vector)
    requires
        bit == 3 || bit == 5 || bit == 7 || bit == 9,
        (c >> bit) & 1 == 1,
        (c1 >> bit) & 1 == 0,
        c1 == if c == 0xFFFF {
            0u16
        } else {
            (c + 1) as u16
        },
        c2 == if c1 == 0xFFFF {
            0u16
        } else {
            (c1 + 1) as u16
        },
        c3 == if c2 == 0xFFFF {
            0u16
        } else {
            (c2 + 1) as u16
        },
        c4 == if c3 == 0xFFFF {
            0u16
        } else {
            (c3 + 1) as u16
        },
    ensures
        (c1 >> bit) & 1 == 0,
        (c2 >> bit) & 1 == 0,
        (c3 >> bit) & 1 == 0,
        (c4 >> bit) & 1 == 0,
{
}

/// Falling edge: with the timer enabled, a T-cycle that takes the selected
/// counter bit from 1 to 0 raises TIMA by one (from TMA, if a reload was due
/// in that cycle), wrapping at 256; any other cycle leaves it alone.
pub proof fn lemma_falling_edge_counts(t: Timer)
    ensures
        t.enabled() && falling_edge(t.div_counter, selected_bit(t.tac)) && !t.reload_due()
            ==> t.tick_once_spec().tima as int == (t.tima + 1) % 256,
        t.enabled() && falling_edge(t.div_counter, selected_bit(t.tac)) && t.reload_due()
            ==> t.tick_once_spec().tima as int == (t.tma + 1) % 256,
        !(t.enabled() && falling_edge(t.div_counter, selected_bit(t.tac))) && !t.reload_due()
            ==> t.tick_once_spec().tima == t.tima,
        !t.enabled() && !t.reload_due() ==> t.tick_once_spec().tima == t.tima,
{
}

/// Delayed reload: if a T-cycle wraps TIMA to 0, then four T-cycles later
/// TIMA equals TMA and the Timer interrupt has been requested, provided no
/// register is written in between.
pub proof fn lemma_overflow_reloads(t: Timer)
    requires
        t.enabled(),
        falling_edge(t.div_counter, selected_bit(t.tac)),
        t.tick_once_spec().tima == 0,
    ensures
        t.tick_once_spec().overflow_cycles == 4,
        t.tick_once_spec().ticked(4).tima == t.tma,
        t.tick_once_spec().reloads_within(4),
        !t.tick_once_spec().reloads_within(3),
{
    let t1 = t.tick_once_spec();
    let bit = selected_bit(t.tac);
    let c = t.div_counter;
    let c1 = next_count(c);
    let c2 = next_count(c1);
    let c3 = next_count(c2);
    let c4 = next_count(c3);
    lemma_no_edge_after_edge(c, c1, c2, c3, c4, bit);
    let t2 = t1.tick_once_spec();
    let t3 = t2.tick_once_spec();
    let t4 = t3.tick_once_spec();
    let t5 = t4.tick_once_spec();
    assert(t1.ticked(0) == t1);
    assert(t1.ticked(1) == t2) by {
        reveal_with_fuel(Timer::ticked, 2);
    }
    assert(t1.ticked(2) == t3) by {
        reveal_with_fuel(Timer::ticked, 3);
    }
    assert(t1.ticked(3) == t4) by {
        reveal_with_fuel(Timer::ticked, 4);
    }
    assert(t1.ticked(4) == t5) by {
        reveal_with_fuel(Timer::ticked, 5);
    }
    assert(t2.overflow_cycles == 3);
    assert(t3.overflow_cycles == 2);
    assert(t4.overflow_cycles == 1);
    assert(t4.reload_due());
    assert(t5.tima == t.tma);
    assert(!t1.reloads_within(3)) by {
        reveal_with_fuel(Timer::reloads_within, 4);
    }
    assert(t1.reloads_within(4)) by {
        reveal_with_fuel(Timer::reloads_within, 5);
    }
}

/// DIV is the counter's high byte, and writing any value to it clears the
/// whole counter. The write raises TIMA by one exactly when the timer is
/// enabled and the selected counter bit was high; otherwise TIMA stays.
pub proof fn lemma_div_reset(t: Timer, value: u8)
    ensures
        t.write_spec(0xFF04, value).div_counter == 0,
        t.write_spec(0xFF04, value).read_spec(0xFF04) == 0,
        t.reset_is_edge() ==> t.write_spec(0xFF04, value).tima as int == (t.tima + 1) % 256,
        !t.reset_is_edge() ==> t.write_spec(0xFF04, value).tima == t.tima,
        t.write_spec(0xFF04, value).tma == t.tma,
        t.write_spec(0xFF04, value).tac == t.tac,
{
    assert((0u16 >> 8) as u8 == 0) by (bit_vector);
}

} // verus!
