//! MBC3 real-time clock.
//!
//! Five live registers (seconds, minutes, hours, day low, day high) advance with
//! wall-clock time; games read a latched snapshot taken by writing 0x00 then 0x01
//! to the latch register. Day high holds day bit 8 (bit 0), halt (bit 6) and the
//! day-counter carry (bit 7).

use vstd::prelude::*;

verus! {

/// Seconds since the Unix epoch, read from `std::time::SystemTime::now`.
/// Nothing is claimed of the value: it is whatever the host clock says
/// (0 if the clock is set before the epoch).
#[verifier::external_body]
pub(crate) fn now_secs() -> u64 {
    std::time::SystemTime::now().duration_since(
        std::time::UNIX_EPOCH,
    ).unwrap_or_default().as_secs()
}

/// Live registers, their latched copies, the latch detector and the host
/// time the live registers are current as of.
#[derive(Clone, Copy)]
pub struct Rtc {
    pub s: u8,
    pub m: u8,
    pub h: u8,
    pub dl: u8,
    pub dh: u8,
    pub latched_s: u8,
    pub latched_m: u8,
    pub latched_h: u8,
    pub latched_dl: u8,
    pub latched_dh: u8,
    /// Set by a write of 0x00 to the latch register; a following 0x01 latches.
    pub latch_ready: bool,
    /// Host time (seconds) at which the live registers were last brought up to date.
    pub base_timestamp: u64,
}

impl Rtc {
    /// The latched snapshot (S, M, H, DL, DH).
    pub open spec fn latched(self) -> (u8, u8, u8, u8, u8) {
        (self.latched_s, self.latched_m, self.latched_h, self.latched_dl, self.latched_dh)
    }

    /// The live registers (S, M, H, DL, DH).
    pub open spec fn live(self) -> (u8, u8, u8, u8, u8) {
        (self.s, self.m, self.h, self.dl, self.dh)
    }

    /// The 9-bit day counter held in DL and bit 0 of DH.
    pub open spec fn day(self) -> int {
        (if self.dh & 0x01 != 0 {
            256int
        } else {
            0int
        }) + self.dl
    }

    /// The live registers as a number of seconds.
    pub open spec fn total_seconds(self) -> int {
        self.day() * 86400 + self.h * 3600 + self.m * 60 + self.s
    }

    /// Whether DH bit 6 stops the clock.
    pub open spec fn is_halted(self) -> bool {
        self.dh & 0x40 != 0
    }

    /// The clock brought up to host time `now`.
    ///
    /// A halted clock only moves its base. Otherwise the seconds elapsed since the
    /// base are added to the live registers; a day count past 511 sets the carry
    /// (DH bit 7), keeps halt and clears the day counter's bits in DL and DH.
    pub open spec fn advanced_to(self, now: u64) -> Rtc {
        if self.is_halted() {
            Rtc { base_timestamp: now, ..self }
        } else if now <= self.base_timestamp {
            self
        } else {
            let total = self.total_seconds() + (now - self.base_timestamp);
            let minutes = total / 60;
            let hours = minutes / 60;
            let days = hours / 24;
            if days > 511 {
                Rtc {
                    s: (total % 60) as u8,
                    m: (minutes % 60) as u8,
                    h: (hours % 24) as u8,
                    dl: 0,
                    dh: (self.dh & 0x40) | 0x80,
                    base_timestamp: now,
                    ..self
                }
            } else {
                Rtc {
                    s: (total % 60) as u8,
                    m: (minutes % 60) as u8,
                    h: (hours % 24) as u8,
                    dl: (days % 256) as u8,
                    dh: (self.dh & 0xC0) | (if days >= 256 {
                        1u8
                    } else {
                        0u8
                    }),
                    base_timestamp: now,
                    ..self
                }
            }
        }
    }

    /// The state after `value` is written to the latch register.
    pub open spec fn write_latch_spec(self, value: u8) -> Rtc {
        if value == 0x00 {
            Rtc { latch_ready: true, ..self }
        } else if value == 0x01 && self.latch_ready {
            Rtc {
                latch_ready: false,
                latched_s: self.s,
                latched_m: self.m,
                latched_h: self.h,
                latched_dl: self.dl,
                latched_dh: self.dh,
                ..self
            }
        } else {
            Rtc { latch_ready: false, ..self }
        }
    }

    /// The latched register selected by bank value `reg` (0x08..=0x0C), else 0xFF.
    pub open spec fn read_register_spec(self, reg: u8) -> u8 {
        if reg == 0x08 {
            self.latched_s
        } else if reg == 0x09 {
            self.latched_m
        } else if reg == 0x0A {
            self.latched_h
        } else if reg == 0x0B {
            self.latched_dl
        } else if reg == 0x0C {
            self.latched_dh
        } else {
            0xFF
        }
    }

    /// The state after a live register is written at host time `now`: seconds and
    /// minutes keep 6 bits, hours 5 bits, and the base restarts at `now`.
    pub open spec fn write_register_spec(self, reg: u8, value: u8, now: u64) -> Rtc {
        let r = if reg == 0x08 {
            Rtc { s: value & 0x3F, ..self }
        } else if reg == 0x09 {
            Rtc { m: value & 0x3F, ..self }
        } else if reg == 0x0A {
            Rtc { h: value & 0x1F, ..self }
        } else if reg == 0x0B {
            Rtc { dl: value, ..self }
        } else if reg == 0x0C {
            Rtc { dh: value, ..self }
        } else {
            self
        };
        Rtc { base_timestamp: now, ..r }
    }

    /// Whether this clock is `before` brought up to the host time that this
    /// clock is based at.
    pub open spec fn is_advance_of(self, before: Rtc) -> bool {
        self == before.advanced_to(self.base_timestamp)
    }

    /// Whether RAM bank value `bank` selects a clock register: 0x08..=0x0C.
    pub open spec fn spec_is_rtc_register(bank: u8) -> bool {
        0x08 <= bank <= 0x0C
    }

    /// A zeroed clock whose base is host time `now`.
    pub open spec fn new_at_spec(now: u64) -> Rtc {
        Rtc {
            s: 0,
            m: 0,
            h: 0,
            dl: 0,
            dh: 0,
            latched_s: 0,
            latched_m: 0,
            latched_h: 0,
            latched_dl: 0,
            latched_dh: 0,
            latch_ready: false,
            base_timestamp: now,
        }
    }

    /// A zeroed clock whose base is host time `now`.
    pub fn new_at(now: u64) -> (r: Rtc)
        ensures
            r == Rtc::new_at_spec(now),
    {
        Rtc {
            s: 0,
            m: 0,
            h: 0,
            dl: 0,
            dh: 0,
            latched_s: 0,
            latched_m: 0,
            latched_h: 0,
            latched_dl: 0,
            latched_dh: 0,
            latch_ready: false,
            base_timestamp: now,
        }
    }

    /// A zeroed clock based at the current host time.
    pub fn new() -> (r: Rtc)
        ensures
            r == Rtc::new_at_spec(r.base_timestamp),
    {
        Rtc::new_at(now_secs())
    }

    /// Brings the live registers up to host time `now`.
    pub fn tick_at(&mut self, now: u64)
        ensures
            *final(self) == old(self).advanced_to(now),
    {
        if self.dh & 0x40 != 0 {
            self.base_timestamp = now;
            return ;
        }
        if now <= self.base_timestamp {
            return ;
        }
        let elapsed: u64 = now - self.base_timestamp;
        self.base_timestamp = now;
        let day: u128 = (if self.dh & 0x01 != 0 {
            256u128
        } else {
            0u128
        }) + self.dl as u128;
        let total: u128 = day * 86400 + self.h as u128 * 3600 + self.m as u128 * 60
            + self.s as u128 + elapsed as u128;
        let minutes: u128 = total / 60;
        let hours: u128 = minutes / 60;
        let days: u128 = hours / 24;
        self.s = (total % 60) as u8;
        self.m = (minutes % 60) as u8;
        self.h = (hours % 24) as u8;
        if days > 511 {
            self.dh = (self.dh & 0x40) | 0x80;
            self.dl = 0;
        } else {
            self.dl = (days % 256) as u8;
            self.dh = (self.dh & 0xC0) | (if days >= 256 {
                1u8
            } else {
                0u8
            });
        }
    }

    /// Brings the live registers up to the current host time: the clock
    /// afterwards is the clock before advanced to the time it is then based at.
    /// Whatever the host clock says, the latched snapshot and the latch detector
    /// are untouched.
    pub fn tick(&mut self)
        ensures
            final(self).is_advance_of(*old(self)),
            final(self).latched() == old(self).latched(),
            final(self).latch_ready == old(self).latch_ready,
    {
        let now = now_secs();
        self.tick_at(now);
    }

    /// Handles a write to the latch register (0x6000-0x7FFF): 0x00 arms, and 0x01
    /// right after it copies the live registers into the snapshot.
    pub fn write_latch(&mut self, value: u8)
        ensures
            *final(self) == old(self).write_latch_spec(value),
    {
        if value == 0x00 {
            self.latch_ready = true;
        } else if value == 0x01 && self.latch_ready {
            self.latch_ready = false;
            self.latched_s = self.s;
            self.latched_m = self.m;
            self.latched_h = self.h;
            self.latched_dl = self.dl;
            self.latched_dh = self.dh;
        } else {
            self.latch_ready = false;
        }
    }

    /// Reads a latched register; `reg` is the selected RAM bank value.
    pub fn read_register(&self, reg: u8) -> (r: u8)
        ensures
            r == self.read_register_spec(reg),
    {
        match reg {
            0x08 => self.latched_s,
            0x09 => self.latched_m,
            0x0A => self.latched_h,
            0x0B => self.latched_dl,
            0x0C => self.latched_dh,
            _ => 0xFF,
        }
    }

    /// Writes a live register at host time `now`.
    pub fn write_register_at(&mut self, reg: u8, value: u8, now: u64)
        ensures
            *final(self) == old(self).write_register_spec(reg, value, now),
    {
        match reg {
            0x08 => self.s = value & 0x3F,
            0x09 => self.m = value & 0x3F,
            0x0A => self.h = value & 0x1F,
            0x0B => self.dl = value,
            0x0C => self.dh = value,
            _ => {},
        }
        self.base_timestamp = now;
    }

    /// Writes a live register and restarts elapsed-time tracking at the current
    /// host time.
    pub fn write_register(&mut self, reg: u8, value: u8)
        ensures
            *final(self) == old(self).write_register_spec(reg, value, final(self).base_timestamp),
    {
        let now = now_secs();
        self.write_register_at(reg, value, now);
    }

    /// Whether RAM bank value `bank` selects a clock register.
    pub fn is_rtc_register(bank: u8) -> (r: bool)
        ensures
            r == Rtc::spec_is_rtc_register(bank),
    {
        0x08 <= bank && bank <= 0x0C
    }
}

/// Double-latch rule: after 0x00, any value other than 0x01 leaves the latched
/// snapshot as it was, and a later 0x01 alone does not latch either.
pub proof fn lemma_latch_needs_exact_sequence(rtc: Rtc, v: u8)
    requires
        v != 0x01,
    ensures
        rtc.write_latch_spec(0x00).write_latch_spec(v).latched() == rtc.latched(),
        v != 0x00 ==> rtc.write_latch_spec(0x00).write_latch_spec(v).write_latch_spec(
            0x01,
        ).latched() == rtc.latched(),
        rtc.write_latch_spec(v).latched() == rtc.latched(),
{
}

/// The exact sequence 0x00, 0x01 copies the live registers into the snapshot and
/// leaves them unchanged.
pub proof fn lemma_latch_sequence_latches(rtc: Rtc)
    ensures
        rtc.write_latch_spec(0x00).write_latch_spec(0x01).latched() == rtc.live(),
        rtc.write_latch_spec(0x00).write_latch_spec(0x01).live() == rtc.live(),
{
}

/// Advancing never touches the latched snapshot, and a halted clock keeps its
/// live registers.
pub proof fn lemma_advance_keeps_snapshot(rtc: Rtc, now: u64)
    ensures
        rtc.advanced_to(now).latched() == rtc.latched(),
        rtc.advanced_to(now).latch_ready == rtc.latch_ready,
        rtc.is_halted() ==> rtc.advanced_to(now).live() == rtc.live(),
{
}

/// While the day counter does not overflow, advancing adds exactly the elapsed
/// seconds to a clock whose registers are in range.
pub proof fn lemma_advance_adds_elapsed(rtc: Rtc, now: u64)
    requires
        !rtc.is_halted(),
        now > rtc.base_timestamp,
        rtc.s < 60,
        rtc.m < 60,
        rtc.h < 24,
        rtc.total_seconds() + (now - rtc.base_timestamp) < 512 * 86400,
    ensures
        rtc.advanced_to(now).total_seconds() == rtc.total_seconds() + (now - rtc.base_timestamp),
        rtc.advanced_to(now).s < 60,
        rtc.advanced_to(now).m < 60,
        rtc.advanced_to(now).h < 24,
{
    let total = rtc.total_seconds() + (now - rtc.base_timestamp);
    let minutes = total / 60;
    let hours = minutes / 60;
    let days = hours / 24;
    let r = rtc.advanced_to(now);
    let dh: u8 = rtc.dh;
    let bit: u8 = if days >= 256 {
        1u8
    } else {
        0u8
    };
    assert((((dh & 0xC0) | bit) & 0x01 != 0) == (bit == 1)) by (bit_vector)
        requires
            bit == 0 || bit == 1,
    ;
    assert(r.day() == days);
}

} // verus!
