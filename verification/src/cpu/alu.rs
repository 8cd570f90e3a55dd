//! Arithmetic, logic, rotate and shift operations and the flags they leave.
//!
//! F holds Z (bit 7), N (bit 6), H (bit 5) and C (bit 4); its low nibble is
//! always zero.

use super::Cpu;
use vstd::prelude::*;

verus! {

/// The flag byte with the four flags as given.
pub open spec fn flags(z: bool, n: bool, h: bool, c: bool) -> u8 {
    (if z {
        0x80u8
    } else {
        0u8
    }) | (if n {
        0x40u8
    } else {
        0u8
    }) | (if h {
        0x20u8
    } else {
        0u8
    }) | (if c {
        0x10u8
    } else {
        0u8
    })
}

/// The zero flag.
pub open spec fn zf(f: u8) -> bool {
    f & 0x80 != 0
}

/// The subtract flag.
pub open spec fn nf(f: u8) -> bool {
    f & 0x40 != 0
}

/// The half-carry flag.
pub open spec fn hf(f: u8) -> bool {
    f & 0x20 != 0
}

/// The carry flag.
pub open spec fn cf(f: u8) -> bool {
    f & 0x10 != 0
}

/// 1 for a set carry, else 0.
pub open spec fn carry_in(f: u8) -> int {
    if cf(f) {
        1
    } else {
        0
    }
}

/// `v` reduced modulo 256.
pub open spec fn wrap8(v: int) -> u8 {
    (v % 256) as u8
}

/// `v` reduced modulo 65536.
pub open spec fn wrap16(v: int) -> u16 {
    (v % 0x10000) as u16
}

/// INC: Z by result, N clear, H when the low nibble was 0xF, C kept.
pub open spec fn inc_spec(v: u8, f: u8) -> (u8, u8) {
    (wrap8(v + 1), flags(wrap8(v + 1) == 0, false, v % 16 == 15, cf(f)))
}

/// DEC: Z by result, N set, H when the low nibble was 0, C kept.
pub open spec fn dec_spec(v: u8, f: u8) -> (u8, u8) {
    (wrap8(v - 1), flags(wrap8(v - 1) == 0, true, v % 16 == 0, cf(f)))
}

/// ADD and ADC, with `c` the carry going in (0 for ADD): H from the low
/// nibbles, C from the whole sum.
pub open spec fn add_spec(a: u8, v: u8, c: int) -> (u8, u8) {
    (
        wrap8(a + v + c),
        flags(wrap8(a + v + c) == 0, false, a % 16 + v % 16 + c > 15, a + v + c > 255),
    )
}

/// SUB, SBC and CP, with `c` the borrow going in: H and C when the low nibble
/// or the whole value has to borrow.
pub open spec fn sub_spec(a: u8, v: u8, c: int) -> (u8, u8) {
    (wrap8(a - v - c), flags(wrap8(a - v - c) == 0, true, a % 16 < v % 16 + c, a < v + c))
}

/// AND: Z by result, H set, N and C clear.
pub open spec fn and_spec(a: u8, v: u8) -> (u8, u8) {
    (a & v, flags(a & v == 0, false, true, false))
}

/// XOR: Z by result, the other flags clear.
pub open spec fn xor_spec(a: u8, v: u8) -> (u8, u8) {
    (a ^ v, flags(a ^ v == 0, false, false, false))
}

/// OR: Z by result, the other flags clear.
pub open spec fn or_spec(a: u8, v: u8) -> (u8, u8) {
    (a | v, flags(a | v == 0, false, false, false))
}

/// ADD HL,rr: Z kept, N clear, H from bit 11, C from bit 15.
pub open spec fn add_hl_spec(hl: u16, v: u16, f: u8) -> (u16, u8) {
    (wrap16(hl + v), flags(zf(f), false, hl % 0x1000 + v % 0x1000 > 0xFFF, hl + v > 0xFFFF))
}

/// ADD SP,e and LD HL,SP+e: the raw byte `e` decides H and C against the low
/// byte of SP; the sum uses `e` sign-extended. Z and N are clear.
pub open spec fn add_sp_spec(sp: u16, e: u8) -> (u16, u8) {
    (
        wrap16(sp + sign_extend(e)),
        flags(false, false, sp % 16 + e % 16 > 15, sp % 256 + e > 255),
    )
}

/// A signed byte as a 16-bit two's complement word.
pub open spec fn sign_extend(e: u8) -> u16 {
    if e < 128 {
        e as u16
    } else {
        (0xFF00 + e) as u16
    }
}

/// The correction DAA applies to A.
pub open spec fn daa_adjust(a: u8, f: u8) -> int {
    if nf(f) {
        (if cf(f) {
            0x60int
        } else {
            0int
        }) + (if hf(f) {
            0x06int
        } else {
            0int
        })
    } else {
        (if cf(f) || a > 0x99 {
            0x60int
        } else {
            0int
        }) + (if hf(f) || a % 16 > 9 {
            0x06int
        } else {
            0int
        })
    }
}

/// DAA: after an addition, add 0x60 if C or A > 0x99 (setting C) and 0x06 if H
/// or the low nibble is above 9; after a subtraction, subtract 0x60 if C and
/// 0x06 if H. Z by result, N kept, H clear.
pub open spec fn daa_spec(a: u8, f: u8) -> (u8, u8) {
    let r = if nf(f) {
        wrap8(a - daa_adjust(a, f))
    } else {
        wrap8(a + daa_adjust(a, f))
    };
    (r, flags(r == 0, nf(f), false, cf(f) || (!nf(f) && a > 0x99)))
}

/// Rotate left; bit 7 goes to bit 0 and to C.
pub open spec fn rlc_spec(v: u8) -> (u8, u8) {
    ((v << 1) | (v >> 7), flags((v << 1) | (v >> 7) == 0, false, false, v & 0x80 != 0))
}

/// Rotate right; bit 0 goes to bit 7 and to C.
pub open spec fn rrc_spec(v: u8) -> (u8, u8) {
    ((v >> 1) | (v << 7), flags((v >> 1) | (v << 7) == 0, false, false, v & 0x01 != 0))
}

/// Rotate left through carry.
pub open spec fn rl_spec(v: u8, f: u8) -> (u8, u8) {
    let r = (v << 1) | (if cf(f) {
        1u8
    } else {
        0u8
    });
    (r, flags(r == 0, false, false, v & 0x80 != 0))
}

/// Rotate right through carry.
pub open spec fn rr_spec(v: u8, f: u8) -> (u8, u8) {
    let r = (v >> 1) | (if cf(f) {
        0x80u8
    } else {
        0u8
    });
    (r, flags(r == 0, false, false, v & 0x01 != 0))
}

/// Shift left; bit 7 goes to C.
pub open spec fn sla_spec(v: u8) -> (u8, u8) {
    (v << 1, flags(v << 1 == 0, false, false, v & 0x80 != 0))
}

/// Shift right keeping bit 7; bit 0 goes to C.
pub open spec fn sra_spec(v: u8) -> (u8, u8) {
    ((v >> 1) | (v & 0x80), flags((v >> 1) | (v & 0x80) == 0, false, false, v & 0x01 != 0))
}

/// Shift right; bit 0 goes to C.
pub open spec fn srl_spec(v: u8) -> (u8, u8) {
    (v >> 1, flags(v >> 1 == 0, false, false, v & 0x01 != 0))
}

/// Exchange the nibbles.
pub open spec fn swap_spec(v: u8) -> (u8, u8) {
    ((v << 4) | (v >> 4), flags((v << 4) | (v >> 4) == 0, false, false, false))
}

/// The eight accumulator operations, by bits 3-5 of the opcode: ADD, ADC,
/// SUB, SBC, AND, XOR, OR, CP. Returns the new A and F.
pub open spec fn alu_spec(op: int, a: u8, v: u8, f: u8) -> (u8, u8) {
    if op == 0 {
        add_spec(a, v, 0)
    } else if op == 1 {
        add_spec(a, v, carry_in(f))
    } else if op == 2 {
        sub_spec(a, v, 0)
    } else if op == 3 {
        sub_spec(a, v, carry_in(f))
    } else if op == 4 {
        and_spec(a, v)
    } else if op == 5 {
        xor_spec(a, v)
    } else if op == 6 {
        or_spec(a, v)
    } else {
        (a, sub_spec(a, v, 0).1)
    }
}

/// The eight rotates and shifts of the CB page, by bits 3-5 of the opcode:
/// RLC, RRC, RL, RR, SLA, SRA, SWAP, SRL.
pub open spec fn rot_spec(op: int, v: u8, f: u8) -> (u8, u8) {
    if op == 0 {
        rlc_spec(v)
    } else if op == 1 {
        rrc_spec(v)
    } else if op == 2 {
        rl_spec(v, f)
    } else if op == 3 {
        rr_spec(v, f)
    } else if op == 4 {
        sla_spec(v)
    } else if op == 5 {
        sra_spec(v)
    } else if op == 6 {
        swap_spec(v)
    } else {
        srl_spec(v)
    }
}

/// Every flag byte built from four flags has a zero low nibble, and each flag
/// reads back as given.
pub proof fn lemma_flags(z: bool, n: bool, h: bool, c: bool)
    ensures
        flags(z, n, h, c) & 0x0F == 0,
        zf(flags(z, n, h, c)) == z,
        nf(flags(z, n, h, c)) == n,
        hf(flags(z, n, h, c)) == h,
        cf(flags(z, n, h, c)) == c,
{
    let bz = if z {
        0x80u8
    } else {
        0u8
    };
    let bn = if n {
        0x40u8
    } else {
        0u8
    };
    let bh = if h {
        0x20u8
    } else {
        0u8
    };
    let bc = if c {
        0x10u8
    } else {
        0u8
    };
    assert((bz | bn | bh | bc) & 0x0F == 0 && (((bz | bn | bh | bc) & 0x80 != 0) == (bz == 0x80))
        && (((bz | bn | bh | bc) & 0x40 != 0) == (bn == 0x40)) && (((bz | bn | bh | bc) & 0x20
        != 0) == (bh == 0x20)) && (((bz | bn | bh | bc) & 0x10 != 0) == (bc == 0x10)))
        by (bit_vector)
        requires
            bz == 0x80 || bz == 0,
            bn == 0x40 || bn == 0,
            bh == 0x20 || bh == 0,
            bc == 0x10 || bc == 0,
    ;
}

/// Builds the flag byte.
pub fn make_flags(z: bool, n: bool, h: bool, c: bool) -> (r: u8)
    ensures
        r == flags(z, n, h, c),
        r & 0x0F == 0,
{
    proof {
        lemma_flags(z, n, h, c);
    }
    let bz: u8 = if z {
        0x80
    } else {
        0
    };
    let bn: u8 = if n {
        0x40
    } else {
        0
    };
    let bh: u8 = if h {
        0x20
    } else {
        0
    };
    let bc: u8 = if c {
        0x10
    } else {
        0
    };
    bz | bn | bh | bc
}

impl Cpu {
    /// INC on a value; only F changes.
    pub fn inc(&mut self, value: u8) -> (r: u8)
        ensures
            r == inc_spec(value, old(self).f).0,
            *final(self) == (Cpu { f: inc_spec(value, old(self).f).1, ..*old(self) }),
            final(self).f & 0x0F == 0,
    {
        let result = value.wrapping_add(1);
        self.f = make_flags(result == 0, false, value % 16 == 15, self.f & 0x10 != 0);
        result
    }

    /// DEC on a value; only F changes.
    pub fn dec(&mut self, value: u8) -> (r: u8)
        ensures
            r == dec_spec(value, old(self).f).0,
            *final(self) == (Cpu { f: dec_spec(value, old(self).f).1, ..*old(self) }),
            final(self).f & 0x0F == 0,
    {
        let result = value.wrapping_sub(1);
        self.f = make_flags(result == 0, true, value % 16 == 0, self.f & 0x10 != 0);
        result
    }

    fn add_with(&mut self, value: u8, carry: u8)
        requires
            carry <= 1,
        ensures
            *final(self) == (Cpu {
                a: add_spec(old(self).a, value, carry as int).0,
                f: add_spec(old(self).a, value, carry as int).1,
                ..*old(self)
            }),
            final(self).f & 0x0F == 0,
    {
        let sum: u16 = self.a as u16 + value as u16 + carry as u16;
        let result = (sum % 256) as u8;
        self.f = make_flags(
            result == 0,
            false,
            self.a % 16 + value % 16 + carry > 15,
            sum > 255,
        );
        self.a = result;
    }

    fn sub_with(&mut self, value: u8, carry: u8, store: bool)
        requires
            carry <= 1,
        ensures
            *final(self) == (Cpu {
                a: if store {
                    sub_spec(old(self).a, value, carry as int).0
                } else {
                    old(self).a
                },
                f: sub_spec(old(self).a, value, carry as int).1,
                ..*old(self)
            }),
            final(self).f & 0x0F == 0,
    {
        let diff: u16 = 512 + self.a as u16 - value as u16 - carry as u16;
        let result = (diff % 256) as u8;
        self.f = make_flags(
            result == 0,
            true,
            self.a % 16 < value % 16 + carry,
            (self.a as u16) < value as u16 + carry as u16,
        );
        if store {
            self.a = result;
        }
    }

    /// ADD A,value.
    pub fn add(&mut self, value: u8)
        ensures
            *final(self) == (Cpu {
                a: add_spec(old(self).a, value, 0).0,
                f: add_spec(old(self).a, value, 0).1,
                ..*old(self)
            }),
            final(self).f & 0x0F == 0,
    {
        self.add_with(value, 0);
    }

    /// ADC A,value.
    pub fn adc(&mut self, value: u8)
        ensures
            *final(self) == (Cpu {
                a: add_spec(old(self).a, value, carry_in(old(self).f)).0,
                f: add_spec(old(self).a, value, carry_in(old(self).f)).1,
                ..*old(self)
            }),
            final(self).f & 0x0F == 0,
    {
        let carry: u8 = if self.f & 0x10 != 0 {
            1
        } else {
            0
        };
        self.add_with(value, carry);
    }

    /// SUB value.
    pub fn sub(&mut self, value: u8)
        ensures
            *final(self) == (Cpu {
                a: sub_spec(old(self).a, value, 0).0,
                f: sub_spec(old(self).a, value, 0).1,
                ..*old(self)
            }),
            final(self).f & 0x0F == 0,
    {
        self.sub_with(value, 0, true);
    }

    /// SBC A,value.
    pub fn sbc(&mut self, value: u8)
        ensures
            *final(self) == (Cpu {
                a: sub_spec(old(self).a, value, carry_in(old(self).f)).0,
                f: sub_spec(old(self).a, value, carry_in(old(self).f)).1,
                ..*old(self)
            }),
            final(self).f & 0x0F == 0,
    {
        let carry: u8 = if self.f & 0x10 != 0 {
            1
        } else {
            0
        };
        self.sub_with(value, carry, true);
    }

    /// AND value.
    pub fn and(&mut self, value: u8)
        ensures
            *final(self) == (Cpu {
                a: and_spec(old(self).a, value).0,
                f: and_spec(old(self).a, value).1,
                ..*old(self)
            }),
            final(self).f & 0x0F == 0,
    {
        self.a = self.a & value;
        self.f = make_flags(self.a == 0, false, true, false);
    }

    /// XOR value.
    pub fn xor(&mut self, value: u8)
        ensures
            *final(self) == (Cpu {
                a: xor_spec(old(self).a, value).0,
                f: xor_spec(old(self).a, value).1,
                ..*old(self)
            }),
            final(self).f & 0x0F == 0,
    {
        self.a = self.a ^ value;
        self.f = make_flags(self.a == 0, false, false, false);
    }

    /// OR value.
    pub fn or(&mut self, value: u8)
        ensures
            *final(self) == (Cpu {
                a: or_spec(old(self).a, value).0,
                f: or_spec(old(self).a, value).1,
                ..*old(self)
            }),
            final(self).f & 0x0F == 0,
    {
        self.a = self.a | value;
        self.f = make_flags(self.a == 0, false, false, false);
    }

    /// CP value: the flags of SUB, with A kept.
    pub fn cp(&mut self, value: u8)
        ensures
            *final(self) == (Cpu { f: sub_spec(old(self).a, value, 0).1, ..*old(self) }),
            final(self).f & 0x0F == 0,
    {
        self.sub_with(value, 0, false);
    }

    /// One of the eight accumulator operations.
    pub fn alu(&mut self, op: u8, value: u8)
        requires
            op < 8,
        ensures
            *final(self) == (Cpu {
                a: alu_spec(op as int, old(self).a, value, old(self).f).0,
                f: alu_spec(op as int, old(self).a, value, old(self).f).1,
                ..*old(self)
            }),
            final(self).f & 0x0F == 0,
    {
        match op {
            0 => self.add(value),
            1 => self.adc(value),
            2 => self.sub(value),
            3 => self.sbc(value),
            4 => self.and(value),
            5 => self.xor(value),
            6 => self.or(value),
            _ => self.cp(value),
        }
    }

    /// ADD HL,value.
    pub fn add_hl(&mut self, value: u16)
        ensures
            *final(self) == old(self).with_hl(
                add_hl_spec(old(self).hl(), value, old(self).f).0,
            ).with_f(add_hl_spec(old(self).hl(), value, old(self).f).1),
            final(self).f & 0x0F == 0,
    {
        let hl = self.hl();
        let sum: u32 = hl as u32 + value as u32;
        let result = (sum % 0x10000) as u16;
        self.f = make_flags(
            self.f & 0x80 != 0,
            false,
            hl % 0x1000 + value % 0x1000 > 0xFFF,
            sum > 0xFFFF,
        );
        self.set_hl(result);
    }

    /// DAA.
    pub fn daa(&mut self)
        ensures
            *final(self) == (Cpu {
                a: daa_spec(old(self).a, old(self).f).0,
                f: daa_spec(old(self).a, old(self).f).1,
                ..*old(self)
            }),
            final(self).f & 0x0F == 0,
    {
        let n = self.f & 0x40 != 0;
        let h = self.f & 0x20 != 0;
        let c = self.f & 0x10 != 0;
        let mut adjust: u16 = 0;
        let mut carry = false;
        let result: u8;
        if n {
            if c {
                adjust += 0x60;
                carry = true;
            }
            if h {
                adjust += 0x06;
            }
            result = ((256 + self.a as u16 - adjust) % 256) as u8;
        } else {
            if c || self.a > 0x99 {
                adjust += 0x60;
                carry = true;
            }
            if h || self.a % 16 > 9 {
                adjust += 0x06;
            }
            result = ((self.a as u16 + adjust) % 256) as u8;
        }
        self.a = result;
        self.f = make_flags(result == 0, n, false, carry);
    }

    /// RLC on a value; only F changes.
    pub fn rlc(&mut self, value: u8) -> (r: u8)
        ensures
            r == rlc_spec(value).0,
            *final(self) == (Cpu { f: rlc_spec(value).1, ..*old(self) }),
            final(self).f & 0x0F == 0,
    {
        let result = (value << 1) | (value >> 7);
        self.f = make_flags(result == 0, false, false, value & 0x80 != 0);
        result
    }

    /// RRC on a value; only F changes.
    pub fn rrc(&mut self, value: u8) -> (r: u8)
        ensures
            r == rrc_spec(value).0,
            *final(self) == (Cpu { f: rrc_spec(value).1, ..*old(self) }),
            final(self).f & 0x0F == 0,
    {
        let result = (value >> 1) | (value << 7);
        self.f = make_flags(result == 0, false, false, value & 0x01 != 0);
        result
    }

    /// RL on a value; only F changes.
    pub fn rl(&mut self, value: u8) -> (r: u8)
        ensures
            r == rl_spec(value, old(self).f).0,
            *final(self) == (Cpu { f: rl_spec(value, old(self).f).1, ..*old(self) }),
            final(self).f & 0x0F == 0,
    {
        let carry: u8 = if self.f & 0x10 != 0 {
            1
        } else {
            0
        };
        let result = (value << 1) | carry;
        self.f = make_flags(result == 0, false, false, value & 0x80 != 0);
        result
    }

    /// RR on a value; only F changes.
    pub fn rr(&mut self, value: u8) -> (r: u8)
        ensures
            r == rr_spec(value, old(self).f).0,
            *final(self) == (Cpu { f: rr_spec(value, old(self).f).1, ..*old(self) }),
            final(self).f & 0x0F == 0,
    {
        let carry: u8 = if self.f & 0x10 != 0 {
            0x80
        } else {
            0
        };
        let result = (value >> 1) | carry;
        self.f = make_flags(result == 0, false, false, value & 0x01 != 0);
        result
    }

    /// SLA on a value; only F changes.
    pub fn sla(&mut self, value: u8) -> (r: u8)
        ensures
            r == sla_spec(value).0,
            *final(self) == (Cpu { f: sla_spec(value).1, ..*old(self) }),
            final(self).f & 0x0F == 0,
    {
        let result = value << 1;
        self.f = make_flags(result == 0, false, false, value & 0x80 != 0);
        result
    }

    /// SRA on a value; only F changes.
    pub fn sra(&mut self, value: u8) -> (r: u8)
        ensures
            r == sra_spec(value).0,
            *final(self) == (Cpu { f: sra_spec(value).1, ..*old(self) }),
            final(self).f & 0x0F == 0,
    {
        let result = (value >> 1) | (value & 0x80);
        self.f = make_flags(result == 0, false, false, value & 0x01 != 0);
        result
    }

    /// SRL on a value; only F changes.
    pub fn srl(&mut self, value: u8) -> (r: u8)
        ensures
            r == srl_spec(value).0,
            *final(self) == (Cpu { f: srl_spec(value).1, ..*old(self) }),
            final(self).f & 0x0F == 0,
    {
        let result = value >> 1;
        self.f = make_flags(result == 0, false, false, value & 0x01 != 0);
        result
    }

    /// SWAP on a value; only F changes.
    pub fn swap(&mut self, value: u8) -> (r: u8)
        ensures
            r == swap_spec(value).0,
            *final(self) == (Cpu { f: swap_spec(value).1, ..*old(self) }),
            final(self).f & 0x0F == 0,
    {
        let result = (value << 4) | (value >> 4);
        self.f = make_flags(result == 0, false, false, false);
        result
    }

    /// One of the eight rotates and shifts of the CB page.
    pub fn rot(&mut self, op: u8, value: u8) -> (r: u8)
        requires
            op < 8,
        ensures
            r == rot_spec(op as int, value, old(self).f).0,
            *final(self) == (Cpu { f: rot_spec(op as int, value, old(self).f).1, ..*old(self) }),
            final(self).f & 0x0F == 0,
    {
        match op {
            0 => self.rlc(value),
            1 => self.rrc(value),
            2 => self.rl(value),
            3 => self.rr(value),
            4 => self.sla(value),
            5 => self.sra(value),
            6 => self.swap(value),
            _ => self.srl(value),
        }
    }
}

} // verus!
