//! The instruction set: the primary page and the CB page.
//!
//! An opcode splits into x (bits 6-7), y (bits 3-5) and z (bits 0-2); y again
//! into p (bits 4-5) and q (bit 3). 8-bit operands are numbered B, C, D, E, H,
//! L, (HL), A; register pairs BC, DE, HL, SP (or AF for PUSH and POP);
//! conditions NZ, Z, NC, C.

use super::alu::{
    add_hl_spec, add_sp_spec, alu_spec, cf, daa_spec, dec_spec, flags, inc_spec, make_flags,
    rl_spec, rlc_spec, rot_spec, rr_spec, rrc_spec, sign_extend, wrap16, zf,
};
use super::{high, low, Cpu, Outcome};
use crate::bus::{next_addr, prev_addr, BusView, MemoryBus};
use crate::memory::MemoryView;
use vstd::prelude::*;

verus! {

/// Whether the instruction set defines `opcode`.
pub open spec fn implemented(opcode: u8) -> bool {
    !(opcode == 0xD3 || opcode == 0xDB || opcode == 0xDD || opcode == 0xE3 || opcode == 0xE4
        || opcode == 0xEB || opcode == 0xEC || opcode == 0xED || opcode == 0xF4 || opcode == 0xFC
        || opcode == 0xFD)
}

/// Whether the instruction set defines `opcode`.
pub fn is_implemented(opcode: u8) -> (r: bool)
    ensures
        r == implemented(opcode),
{
    !(opcode == 0xD3 || opcode == 0xDB || opcode == 0xDD || opcode == 0xE3 || opcode == 0xE4
        || opcode == 0xEB || opcode == 0xEC || opcode == 0xED || opcode == 0xF4 || opcode == 0xFC
        || opcode == 0xFD)
}

/// Target of a relative jump from `pc` by the signed byte `e`.
pub open spec fn jr_target(pc: u16, e: u8) -> u16 {
    wrap16(pc + sign_extend(e))
}

/// Address 0xFF00 + `n` of the high page.
pub open spec fn high_page(n: u8) -> u16 {
    (0xFF00 + n) as u16
}

/// The bus after STOP: in color mode with the speed switch armed the CPU
/// speed flips and the switch disarms; otherwise nothing changes.
pub open spec fn stop_switches(bus: BusView) -> bool {
    bus.memory.cgb.mode && bus.memory.cgb.speed_armed
}

/// The bus after STOP: the speed flipped and the switch disarmed if it was
/// armed in color mode, else unchanged.
pub open spec fn bus_after_stop(bus: BusView) -> BusView {
    if stop_switches(bus) {
        BusView {
            memory: MemoryView { cgb: bus.memory.cgb.toggle_double_speed(), ..bus.memory },
            ..bus
        }
    } else {
        bus
    }
}

// -- x = 0 -------------------------------------------------------------------
/// NOP, LD (nn),SP, STOP, JR e and JR cc,e.
pub open spec fn x0_z0(cpu: Cpu, bus: BusView, y: int) -> Outcome {
    if y == 0 {
        Outcome { cpu, bus, cycles: 4 }
    } else if y == 1 {
        let addr = cpu.imm16(bus);
        Outcome {
            cpu: cpu.skip2(),
            bus: bus.write(addr, low(cpu.sp)).write(next_addr(addr), high(cpu.sp)),
            cycles: 20,
        }
    } else if y == 2 {
        Outcome {
            cpu: Cpu { halted: cpu.halted || !stop_switches(bus), ..cpu.skip1() },
            bus: bus_after_stop(bus),
            cycles: 4,
        }
    } else if y == 3 || cpu.cond(y - 4) {
        Outcome {
            cpu: cpu.with_pc(jr_target(cpu.skip1().pc, cpu.imm8(bus))),
            bus,
            cycles: 12,
        }
    } else {
        Outcome { cpu: cpu.skip1(), bus, cycles: 8 }
    }
}

/// LD rr,nn and ADD HL,rr.
pub open spec fn x0_z1(cpu: Cpu, bus: BusView, p: int, q: int) -> Outcome {
    if q == 0 {
        Outcome { cpu: cpu.skip2().with_rp(p, cpu.imm16(bus)), bus, cycles: 12 }
    } else {
        Outcome {
            cpu: cpu.with_hl(add_hl_spec(cpu.spec_hl(), cpu.rp(p), cpu.f).0).with_f(
                add_hl_spec(cpu.spec_hl(), cpu.rp(p), cpu.f).1,
            ),
            bus,
            cycles: 8,
        }
    }
}

/// Address register of the indirect loads: BC, DE, HL (then incremented), HL
/// (then decremented).
pub open spec fn indirect_addr(cpu: Cpu, p: int) -> u16 {
    if p == 0 {
        cpu.spec_bc()
    } else if p == 1 {
        cpu.spec_de()
    } else {
        cpu.spec_hl()
    }
}

/// The registers after an indirect load: HL moved on for HL+ and back for HL-.
pub open spec fn after_indirect(cpu: Cpu, p: int) -> Cpu {
    if p == 2 {
        cpu.with_hl(next_addr(cpu.spec_hl()))
    } else if p == 3 {
        cpu.with_hl(prev_addr(cpu.spec_hl()))
    } else {
        cpu
    }
}

/// LD (BC),A, LD (DE),A, LD (HL+),A, LD (HL-),A and the loads the other way.
pub open spec fn x0_z2(cpu: Cpu, bus: BusView, p: int, q: int) -> Outcome {
    if q == 0 {
        Outcome {
            cpu: after_indirect(cpu, p),
            bus: bus.write(indirect_addr(cpu, p), cpu.a),
            cycles: 8,
        }
    } else {
        Outcome {
            cpu: after_indirect(Cpu { a: bus.read(indirect_addr(cpu, p)), ..cpu }, p),
            bus,
            cycles: 8,
        }
    }
}

/// INC rr and DEC rr: no flags.
pub open spec fn x0_z3(cpu: Cpu, bus: BusView, p: int, q: int) -> Outcome {
    Outcome {
        cpu: cpu.with_rp(
            p,
            if q == 0 {
                next_addr(cpu.rp(p))
            } else {
                prev_addr(cpu.rp(p))
            },
        ),
        bus,
        cycles: 8,
    }
}

/// INC r and DEC r.
pub open spec fn x0_z45(cpu: Cpu, bus: BusView, y: int, z: int) -> Outcome {
    let out = if z == 4 {
        inc_spec(cpu.reg8(y, bus), cpu.f)
    } else {
        dec_spec(cpu.reg8(y, bus), cpu.f)
    };
    Outcome {
        cpu: cpu.with_f(out.1).with_reg8(y, out.0),
        bus: cpu.bus_after_store(bus, y, out.0),
        cycles: if y == 6 {
            12
        } else {
            4
        },
    }
}

/// LD r,n.
pub open spec fn x0_z6(cpu: Cpu, bus: BusView, y: int) -> Outcome {
    Outcome {
        cpu: cpu.skip1().with_reg8(y, cpu.imm8(bus)),
        bus: cpu.bus_after_store(bus, y, cpu.imm8(bus)),
        cycles: if y == 6 {
            12
        } else {
            8
        },
    }
}

/// RLCA, RRCA, RLA, RRA (which always clear Z), DAA, CPL, SCF, CCF.
pub open spec fn x0_z7(cpu: Cpu, bus: BusView, y: int) -> Outcome {
    let c = if y == 0 {
        Cpu { a: rlc_spec(cpu.a).0, f: flags(false, false, false, cpu.a & 0x80 != 0), ..cpu }
    } else if y == 1 {
        Cpu { a: rrc_spec(cpu.a).0, f: flags(false, false, false, cpu.a & 0x01 != 0), ..cpu }
    } else if y == 2 {
        Cpu {
            a: rl_spec(cpu.a, cpu.f).0,
            f: flags(false, false, false, cpu.a & 0x80 != 0),
            ..cpu
        }
    } else if y == 3 {
        Cpu {
            a: rr_spec(cpu.a, cpu.f).0,
            f: flags(false, false, false, cpu.a & 0x01 != 0),
            ..cpu
        }
    } else if y == 4 {
        Cpu { a: daa_spec(cpu.a, cpu.f).0, f: daa_spec(cpu.a, cpu.f).1, ..cpu }
    } else if y == 5 {
        Cpu { a: !cpu.a, f: flags(zf(cpu.f), true, true, cf(cpu.f)), ..cpu }
    } else if y == 6 {
        Cpu { f: flags(zf(cpu.f), false, false, true), ..cpu }
    } else {
        Cpu { f: flags(zf(cpu.f), false, false, !cf(cpu.f)), ..cpu }
    };
    Outcome { cpu: c, bus, cycles: 4 }
}

/// Opcodes 0x00-0x3F.
pub open spec fn exec_x0(cpu: Cpu, bus: BusView, y: int, z: int) -> Outcome {
    if z == 0 {
        x0_z0(cpu, bus, y)
    } else if z == 1 {
        x0_z1(cpu, bus, y / 2, y % 2)
    } else if z == 2 {
        x0_z2(cpu, bus, y / 2, y % 2)
    } else if z == 3 {
        x0_z3(cpu, bus, y / 2, y % 2)
    } else if z == 4 || z == 5 {
        x0_z45(cpu, bus, y, z)
    } else if z == 6 {
        x0_z6(cpu, bus, y)
    } else {
        x0_z7(cpu, bus, y)
    }
}

// -- x = 1, x = 2 ------------------------------------------------------------
/// LD r,r' and, in the slot of LD (HL),(HL), HALT.
pub open spec fn exec_x1(cpu: Cpu, bus: BusView, y: int, z: int) -> Outcome {
    if y == 6 && z == 6 {
        Outcome { cpu: Cpu { halted: true, ..cpu }, bus, cycles: 4 }
    } else {
        Outcome {
            cpu: cpu.with_reg8(y, cpu.reg8(z, bus)),
            bus: cpu.bus_after_store(bus, y, cpu.reg8(z, bus)),
            cycles: if y == 6 || z == 6 {
                8
            } else {
                4
            },
        }
    }
}

/// The accumulator operation `y` on operand `z`.
pub open spec fn exec_x2(cpu: Cpu, bus: BusView, y: int, z: int) -> Outcome {
    Outcome {
        cpu: Cpu {
            a: alu_spec(y, cpu.a, cpu.reg8(z, bus), cpu.f).0,
            f: alu_spec(y, cpu.a, cpu.reg8(z, bus), cpu.f).1,
            ..cpu
        },
        bus,
        cycles: if z == 6 {
            8
        } else {
            4
        },
    }
}

// -- x = 3 -------------------------------------------------------------------
/// RET cc, LDH (n),A, ADD SP,e, LDH A,(n), LD HL,SP+e.
pub open spec fn x3_z0(cpu: Cpu, bus: BusView, y: int) -> Outcome {
    if y < 4 {
        if cpu.cond(y) {
            Outcome {
                cpu: Cpu { pc: cpu.stack_top(bus), sp: cpu.popped_sp(), ..cpu },
                bus,
                cycles: 20,
            }
        } else {
            Outcome { cpu, bus, cycles: 8 }
        }
    } else if y == 4 {
        Outcome { cpu: cpu.skip1(), bus: bus.write(high_page(cpu.imm8(bus)), cpu.a), cycles: 12 }
    } else if y == 5 {
        Outcome {
            cpu: Cpu {
                sp: add_sp_spec(cpu.sp, cpu.imm8(bus)).0,
                f: add_sp_spec(cpu.sp, cpu.imm8(bus)).1,
                ..cpu.skip1()
            },
            bus,
            cycles: 16,
        }
    } else if y == 6 {
        Outcome {
            cpu: Cpu { a: bus.read(high_page(cpu.imm8(bus))), ..cpu.skip1() },
            bus,
            cycles: 12,
        }
    } else {
        Outcome {
            cpu: cpu.skip1().with_hl(add_sp_spec(cpu.sp, cpu.imm8(bus)).0).with_f(
                add_sp_spec(cpu.sp, cpu.imm8(bus)).1,
            ),
            bus,
            cycles: 12,
        }
    }
}

/// POP rr, RET, RETI, JP HL, LD SP,HL.
pub open spec fn x3_z1(cpu: Cpu, bus: BusView, p: int, q: int) -> Outcome {
    if q == 0 {
        Outcome {
            cpu: Cpu { sp: cpu.popped_sp(), ..cpu }.with_rp2(p, cpu.stack_top(bus)),
            bus,
            cycles: 12,
        }
    } else if p == 0 {
        Outcome {
            cpu: Cpu { pc: cpu.stack_top(bus), sp: cpu.popped_sp(), ..cpu },
            bus,
            cycles: 16,
        }
    } else if p == 1 {
        Outcome {
            cpu: Cpu { pc: cpu.stack_top(bus), sp: cpu.popped_sp(), ime: true, ..cpu },
            bus,
            cycles: 16,
        }
    } else if p == 2 {
        Outcome { cpu: cpu.with_pc(cpu.spec_hl()), bus, cycles: 4 }
    } else {
        Outcome { cpu: Cpu { sp: cpu.spec_hl(), ..cpu }, bus, cycles: 8 }
    }
}

/// JP cc,nn, LD (C),A, LD (nn),A, LD A,(C), LD A,(nn).
pub open spec fn x3_z2(cpu: Cpu, bus: BusView, y: int) -> Outcome {
    if y < 4 {
        if cpu.cond(y) {
            Outcome { cpu: cpu.with_pc(cpu.imm16(bus)), bus, cycles: 16 }
        } else {
            Outcome { cpu: cpu.skip2(), bus, cycles: 12 }
        }
    } else if y == 4 {
        Outcome { cpu, bus: bus.write(high_page(cpu.c), cpu.a), cycles: 8 }
    } else if y == 5 {
        Outcome { cpu: cpu.skip2(), bus: bus.write(cpu.imm16(bus), cpu.a), cycles: 16 }
    } else if y == 6 {
        Outcome { cpu: Cpu { a: bus.read(high_page(cpu.c)), ..cpu }, bus, cycles: 8 }
    } else {
        Outcome { cpu: Cpu { a: bus.read(cpu.imm16(bus)), ..cpu.skip2() }, bus, cycles: 16 }
    }
}

/// JP nn, the CB page, DI, EI (which takes effect one instruction later).
pub open spec fn x3_z3(cpu: Cpu, bus: BusView, y: int) -> Outcome {
    if y == 0 {
        Outcome { cpu: cpu.with_pc(cpu.imm16(bus)), bus, cycles: 16 }
    } else if y == 1 {
        cb_spec(cpu.skip1(), bus, cpu.imm8(bus))
    } else if y == 6 {
        Outcome { cpu: Cpu { ime: false, ..cpu }, bus, cycles: 4 }
    } else {
        Outcome { cpu: Cpu { ime_pending: true, ..cpu }, bus, cycles: 4 }
    }
}

/// The CPU and bus after a call to `target` from the instruction that ends
/// at `cpu.pc`.
pub open spec fn called(cpu: Cpu, bus: BusView, target: u16, cycles: u32) -> Outcome {
    Outcome {
        cpu: Cpu { pc: target, sp: cpu.pushed_sp(), ..cpu },
        bus: cpu.pushed_bus(bus, cpu.pc),
        cycles,
    }
}

/// CALL cc,nn.
pub open spec fn x3_z4(cpu: Cpu, bus: BusView, y: int) -> Outcome {
    if cpu.cond(y) {
        called(cpu.skip2(), bus, cpu.imm16(bus), 24)
    } else {
        Outcome { cpu: cpu.skip2(), bus, cycles: 12 }
    }
}

/// PUSH rr and CALL nn.
pub open spec fn x3_z5(cpu: Cpu, bus: BusView, p: int, q: int) -> Outcome {
    if q == 0 {
        Outcome {
            cpu: Cpu { sp: cpu.pushed_sp(), ..cpu },
            bus: cpu.pushed_bus(bus, cpu.rp2(p)),
            cycles: 16,
        }
    } else {
        called(cpu.skip2(), bus, cpu.imm16(bus), 24)
    }
}

/// The accumulator operation `y` on an immediate byte.
pub open spec fn x3_z6(cpu: Cpu, bus: BusView, y: int) -> Outcome {
    Outcome {
        cpu: Cpu {
            a: alu_spec(y, cpu.a, cpu.imm8(bus), cpu.f).0,
            f: alu_spec(y, cpu.a, cpu.imm8(bus), cpu.f).1,
            ..cpu.skip1()
        },
        bus,
        cycles: 8,
    }
}

/// Opcodes 0xC0-0xFF.
pub open spec fn exec_x3(cpu: Cpu, bus: BusView, y: int, z: int) -> Outcome {
    if z == 0 {
        x3_z0(cpu, bus, y)
    } else if z == 1 {
        x3_z1(cpu, bus, y / 2, y % 2)
    } else if z == 2 {
        x3_z2(cpu, bus, y)
    } else if z == 3 {
        x3_z3(cpu, bus, y)
    } else if z == 4 {
        x3_z4(cpu, bus, y)
    } else if z == 5 {
        x3_z5(cpu, bus, y / 2, y % 2)
    } else if z == 6 {
        x3_z6(cpu, bus, y)
    } else {
        called(cpu, bus, (y * 8) as u16, 16)
    }
}

/// The CB page: rotates and shifts, BIT, RES and SET on operand `opcode % 8`.
pub open spec fn cb_spec(cpu: Cpu, bus: BusView, opcode: u8) -> Outcome {
    let reg = opcode % 8;
    let kind = opcode / 8;
    let v = cpu.reg8(reg as int, bus);
    if kind < 8 {
        Outcome {
            cpu: cpu.with_f(rot_spec(kind as int, v, cpu.f).1).with_reg8(
                reg as int,
                rot_spec(kind as int, v, cpu.f).0,
            ),
            bus: cpu.bus_after_store(bus, reg as int, rot_spec(kind as int, v, cpu.f).0),
            cycles: if reg == 6 {
                16
            } else {
                8
            },
        }
    } else if kind < 16 {
        Outcome {
            cpu: cpu.with_f(flags(v & (1u8 << ((kind - 8) as u8)) == 0, false, true, cf(cpu.f))),
            bus,
            cycles: if reg == 6 {
                12
            } else {
                8
            },
        }
    } else {
        let r = if kind < 24 {
            v & !(1u8 << ((kind - 16) as u8))
        } else {
            v | (1u8 << ((kind - 24) as u8))
        };
        Outcome {
            cpu: cpu.with_reg8(reg as int, r),
            bus: cpu.bus_after_store(bus, reg as int, r),
            cycles: if reg == 6 {
                16
            } else {
                8
            },
        }
    }
}

/// What the instruction `opcode` does to a CPU whose PC is already past the
/// opcode byte.
pub open spec fn execute_spec(cpu: Cpu, bus: BusView, opcode: u8) -> Outcome {
    let x = opcode / 64;
    let y = (opcode / 8) % 8;
    let z = opcode % 8;
    if x == 0 {
        exec_x0(cpu, bus, y as int, z as int)
    } else if x == 1 {
        exec_x1(cpu, bus, y as int, z as int)
    } else if x == 2 {
        exec_x2(cpu, bus, y as int, z as int)
    } else {
        exec_x3(cpu, bus, y as int, z as int)
    }
}

/// Whether the CPU and bus are what `out` says.
pub open spec fn is_outcome(cpu: Cpu, bus: BusView, cycles: u32, out: Outcome) -> bool {
    cpu == out.cpu && bus == out.bus && cycles == out.cycles
}

fn sign_extended(e: u8) -> (r: u16)
    ensures
        r == sign_extend(e),
{
    if e < 128 {
        e as u16
    } else {
        0xFF00 + e as u16
    }
}

impl Cpu {
    fn add_sp(&mut self, e: u8) -> (r: u16)
        ensures
            r == add_sp_spec(old(self).sp, e).0,
            *final(self) == old(self).with_f(add_sp_spec(old(self).sp, e).1),
            final(self).wf(),
    {
        let result = self.sp.wrapping_add(sign_extended(e));
        self.f = make_flags(
            false,
            false,
            self.sp % 16 + (e % 16) as u16 > 15,
            self.sp % 256 + e as u16 > 255,
        );
        result
    }

    fn run_x0_z0(&mut self, bus: &mut MemoryBus, y: u8) -> (cycles: u32)
        requires
            old(bus).wf(),
            y < 8,
        ensures
            final(bus).wf(),
            final(self).f == old(self).f,
            is_outcome(*final(self), final(bus)@, cycles, x0_z0(*old(self), old(bus)@, y as int)),
    {
        if y == 0 {
            4
        } else if y == 1 {
            let addr = self.fetch_word(bus);
            bus.write(addr, #[verifier::truncate] (self.sp as u8));
            bus.write(addr.wrapping_add(1), (self.sp >> 8) as u8);
            20
        } else if y == 2 {
            self.fetch(bus);
            if bus.memory.cgb.mode && bus.memory.cgb.speed_armed {
                bus.memory.toggle_double_speed();
            } else {
                self.halted = true;
            }
            4
        } else {
            let e = self.fetch(bus);
            if y == 3 || self.test_cond(y - 4) {
                self.pc = self.pc.wrapping_add(sign_extended(e));
                12
            } else {
                8
            }
        }
    }

    fn run_x0_z1(&mut self, bus: &mut MemoryBus, p: u8, q: u8) -> (cycles: u32)
        requires
            old(bus).wf(),
            old(self).wf(),
            p < 4,
            q < 2,
        ensures
            final(bus).wf(),
            final(self).wf(),
            is_outcome(
                *final(self),
                final(bus)@,
                cycles,
                x0_z1(*old(self), old(bus)@, p as int, q as int),
            ),
    {
        if q == 0 {
            let v = self.fetch_word(bus);
            self.set_rp(p, v);
            12
        } else {
            let v = self.get_rp(p);
            self.add_hl(v);
            8
        }
    }

    fn run_x0_z2(&mut self, bus: &mut MemoryBus, p: u8, q: u8) -> (cycles: u32)
        requires
            old(bus).wf(),
            p < 4,
            q < 2,
        ensures
            final(bus).wf(),
            final(self).f == old(self).f,
            is_outcome(
                *final(self),
                final(bus)@,
                cycles,
                x0_z2(*old(self), old(bus)@, p as int, q as int),
            ),
    {
        let addr = if p == 0 {
            self.bc()
        } else if p == 1 {
            self.de()
        } else {
            self.hl()
        };
        if q == 0 {
            bus.write(addr, self.a);
        } else {
            self.a = bus.read(addr);
        }
        if p == 2 {
            self.set_hl(addr.wrapping_add(1));
        } else if p == 3 {
            self.set_hl(addr.wrapping_sub(1));
        }
        8
    }

    fn run_x0_z3(&mut self, bus: &MemoryBus, p: u8, q: u8) -> (cycles: u32)
        requires
            p < 4,
            q < 2,
        ensures
            final(self).f == old(self).f,
            is_outcome(*final(self), bus@, cycles, x0_z3(*old(self), bus@, p as int, q as int)),
    {
        let v = self.get_rp(p);
        if q == 0 {
            self.set_rp(p, v.wrapping_add(1));
        } else {
            self.set_rp(p, v.wrapping_sub(1));
        }
        8
    }

    fn run_x0_z45(&mut self, bus: &mut MemoryBus, y: u8, z: u8) -> (cycles: u32)
        requires
            old(bus).wf(),
            y < 8,
            z == 4 || z == 5,
        ensures
            final(bus).wf(),
            final(self).wf(),
            is_outcome(
                *final(self),
                final(bus)@,
                cycles,
                x0_z45(*old(self), old(bus)@, y as int, z as int),
            ),
    {
        let v = self.get_reg(y, bus);
        let r = if z == 4 {
            self.inc(v)
        } else {
            self.dec(v)
        };
        self.set_reg(y, r, bus);
        if y == 6 {
            12
        } else {
            4
        }
    }

    fn run_x0_z6(&mut self, bus: &mut MemoryBus, y: u8) -> (cycles: u32)
        requires
            old(bus).wf(),
            y < 8,
        ensures
            final(bus).wf(),
            final(self).f == old(self).f,
            is_outcome(*final(self), final(bus)@, cycles, x0_z6(*old(self), old(bus)@, y as int)),
    {
        let n = self.fetch(bus);
        self.set_reg(y, n, bus);
        if y == 6 {
            12
        } else {
            8
        }
    }

    fn run_x0_z7(&mut self, bus: &MemoryBus, y: u8) -> (cycles: u32)
        requires
            y < 8,
        ensures
            final(self).wf(),
            is_outcome(*final(self), bus@, cycles, x0_z7(*old(self), bus@, y as int)),
    {
        let a = self.a;
        let z = self.f & 0x80 != 0;
        let c = self.f & 0x10 != 0;
        if y == 0 {
            self.a = self.rlc(a);
            self.f = make_flags(false, false, false, a & 0x80 != 0);
        } else if y == 1 {
            self.a = self.rrc(a);
            self.f = make_flags(false, false, false, a & 0x01 != 0);
        } else if y == 2 {
            self.a = self.rl(a);
            self.f = make_flags(false, false, false, a & 0x80 != 0);
        } else if y == 3 {
            self.a = self.rr(a);
            self.f = make_flags(false, false, false, a & 0x01 != 0);
        } else if y == 4 {
            self.daa();
        } else if y == 5 {
            self.a = !a;
            self.f = make_flags(z, true, true, c);
        } else if y == 6 {
            self.f = make_flags(z, false, false, true);
        } else {
            self.f = make_flags(z, false, false, !c);
        }
        4
    }

    fn run_x0(&mut self, bus: &mut MemoryBus, y: u8, z: u8) -> (cycles: u32)
        requires
            old(bus).wf(),
            old(self).wf(),
            y < 8,
            z < 8,
        ensures
            final(bus).wf(),
            final(self).wf(),
            is_outcome(
                *final(self),
                final(bus)@,
                cycles,
                exec_x0(*old(self), old(bus)@, y as int, z as int),
            ),
    {
        if z == 0 {
            self.run_x0_z0(bus, y)
        } else if z == 1 {
            self.run_x0_z1(bus, y / 2, y % 2)
        } else if z == 2 {
            self.run_x0_z2(bus, y / 2, y % 2)
        } else if z == 3 {
            self.run_x0_z3(bus, y / 2, y % 2)
        } else if z == 4 || z == 5 {
            self.run_x0_z45(bus, y, z)
        } else if z == 6 {
            self.run_x0_z6(bus, y)
        } else {
            self.run_x0_z7(bus, y)
        }
    }

    fn run_x1(&mut self, bus: &mut MemoryBus, y: u8, z: u8) -> (cycles: u32)
        requires
            old(bus).wf(),
            y < 8,
            z < 8,
        ensures
            final(bus).wf(),
            final(self).f == old(self).f,
            is_outcome(
                *final(self),
                final(bus)@,
                cycles,
                exec_x1(*old(self), old(bus)@, y as int, z as int),
            ),
    {
        if y == 6 && z == 6 {
            self.halted = true;
            4
        } else {
            let v = self.get_reg(z, bus);
            self.set_reg(y, v, bus);
            if y == 6 || z == 6 {
                8
            } else {
                4
            }
        }
    }

    fn run_x2(&mut self, bus: &MemoryBus, y: u8, z: u8) -> (cycles: u32)
        requires
            bus.wf(),
            y < 8,
            z < 8,
        ensures
            final(self).wf(),
            is_outcome(*final(self), bus@, cycles, exec_x2(*old(self), bus@, y as int, z as int)),
    {
        let v = self.get_reg(z, bus);
        self.alu(y, v);
        if z == 6 {
            8
        } else {
            4
        }
    }

    fn run_x3_z0(&mut self, bus: &mut MemoryBus, y: u8) -> (cycles: u32)
        requires
            old(bus).wf(),
            old(self).wf(),
            y < 8,
        ensures
            final(bus).wf(),
            final(self).wf(),
            is_outcome(*final(self), final(bus)@, cycles, x3_z0(*old(self), old(bus)@, y as int)),
    {
        if y < 4 {
            if self.test_cond(y) {
                self.pc = self.pop_word(bus);
                20
            } else {
                8
            }
        } else if y == 4 {
            let n = self.fetch(bus);
            bus.write(0xFF00 + n as u16, self.a);
            12
        } else if y == 5 {
            let e = self.fetch(bus);
            self.sp = self.add_sp(e);
            16
        } else if y == 6 {
            let n = self.fetch(bus);
            self.a = bus.read(0xFF00 + n as u16);
            12
        } else {
            let e = self.fetch(bus);
            let r = self.add_sp(e);
            self.set_hl(r);
            12
        }
    }

    fn run_x3_z1(&mut self, bus: &MemoryBus, p: u8, q: u8) -> (cycles: u32)
        requires
            bus.wf(),
            old(self).wf(),
            p < 4,
            q < 2,
        ensures
            final(self).wf(),
            is_outcome(*final(self), bus@, cycles, x3_z1(*old(self), bus@, p as int, q as int)),
    {
        if q == 0 {
            let v = self.pop_word(bus);
            self.set_rp2(p, v);
            12
        } else if p == 0 {
            self.pc = self.pop_word(bus);
            16
        } else if p == 1 {
            self.ime = true;
            self.pc = self.pop_word(bus);
            16
        } else if p == 2 {
            self.pc = self.hl();
            4
        } else {
            self.sp = self.hl();
            8
        }
    }

    fn run_x3_z2(&mut self, bus: &mut MemoryBus, y: u8) -> (cycles: u32)
        requires
            old(bus).wf(),
            y < 8,
        ensures
            final(bus).wf(),
            final(self).f == old(self).f,
            is_outcome(*final(self), final(bus)@, cycles, x3_z2(*old(self), old(bus)@, y as int)),
    {
        if y < 4 {
            let addr = self.fetch_word(bus);
            if self.test_cond(y) {
                self.pc = addr;
                16
            } else {
                12
            }
        } else if y == 4 {
            bus.write(0xFF00 + self.c as u16, self.a);
            8
        } else if y == 5 {
            let addr = self.fetch_word(bus);
            bus.write(addr, self.a);
            16
        } else if y == 6 {
            self.a = bus.read(0xFF00 + self.c as u16);
            8
        } else {
            let addr = self.fetch_word(bus);
            self.a = bus.read(addr);
            16
        }
    }

    fn call(&mut self, bus: &mut MemoryBus, target: u16)
        requires
            old(bus).wf(),
        ensures
            final(bus).wf(),
            final(self).f == old(self).f,
            *final(self) == called(*old(self), old(bus)@, target, 0).cpu,
            final(bus)@ == called(*old(self), old(bus)@, target, 0).bus,
    {
        let ret = self.pc;
        self.push_word(bus, ret);
        self.pc = target;
    }

    fn run_x3_z3(&mut self, bus: &mut MemoryBus, y: u8) -> (cycles: u32)
        requires
            old(bus).wf(),
            old(self).wf(),
            y == 0 || y == 1 || y == 6 || y == 7,
        ensures
            final(bus).wf(),
            final(self).wf(),
            is_outcome(*final(self), final(bus)@, cycles, x3_z3(*old(self), old(bus)@, y as int)),
    {
        if y == 0 {
            self.pc = self.fetch_word(bus);
            16
        } else if y == 1 {
            let op = self.fetch(bus);
            self.execute_cb(op, bus)
        } else if y == 6 {
            self.ime = false;
            4
        } else {
            self.ime_pending = true;
            4
        }
    }

    fn run_x3_z45(&mut self, bus: &mut MemoryBus, y: u8, z: u8) -> (cycles: u32)
        requires
            old(bus).wf(),
            y < 8,
            z == 4 || z == 5,
            z == 4 ==> y < 4,
            z == 5 ==> y % 2 == 0 || y == 1,
        ensures
            final(bus).wf(),
            final(self).f == old(self).f,
            z == 4 ==> is_outcome(
                *final(self),
                final(bus)@,
                cycles,
                x3_z4(*old(self), old(bus)@, y as int),
            ),
            z == 5 ==> is_outcome(
                *final(self),
                final(bus)@,
                cycles,
                x3_z5(*old(self), old(bus)@, y as int / 2, y as int % 2),
            ),
    {
        if z == 5 && y % 2 == 0 {
            let v = self.get_rp2(y / 2);
            self.push_word(bus, v);
            16
        } else {
            let addr = self.fetch_word(bus);
            if z == 5 || self.test_cond(y) {
                self.call(bus, addr);
                24
            } else {
                12
            }
        }
    }

    fn run_x3(&mut self, bus: &mut MemoryBus, opcode: u8, y: u8, z: u8) -> (cycles: u32)
        requires
            old(bus).wf(),
            old(self).wf(),
            opcode >= 192,
            y == (opcode / 8) % 8,
            z == opcode % 8,
            implemented(opcode),
        ensures
            final(bus).wf(),
            final(self).wf(),
            is_outcome(
                *final(self),
                final(bus)@,
                cycles,
                exec_x3(*old(self), old(bus)@, y as int, z as int),
            ),
    {
        if z == 0 {
            self.run_x3_z0(bus, y)
        } else if z == 1 {
            self.run_x3_z1(bus, y / 2, y % 2)
        } else if z == 2 {
            self.run_x3_z2(bus, y)
        } else if z == 3 {
            self.run_x3_z3(bus, y)
        } else if z == 4 || z == 5 {
            self.run_x3_z45(bus, y, z)
        } else if z == 6 {
            let n = self.fetch(bus);
            self.alu(y, n);
            8
        } else {
            self.call(bus, (y * 8) as u16);
            16
        }
    }

    /// Runs one instruction of the CB page on a CPU whose PC is past it.
    pub fn execute_cb(&mut self, opcode: u8, bus: &mut MemoryBus) -> (cycles: u32)
        requires
            old(bus).wf(),
            old(self).wf(),
        ensures
            final(bus).wf(),
            final(self).wf(),
            is_outcome(*final(self), final(bus)@, cycles, cb_spec(*old(self), old(bus)@, opcode)),
    {
        let reg = opcode % 8;
        let kind = opcode / 8;
        let value = self.get_reg(reg, bus);
        let is_hl = reg == 6;
        if kind < 8 {
            let r = self.rot(kind, value);
            self.set_reg(reg, r, bus);
            if is_hl {
                16
            } else {
                8
            }
        } else if kind < 16 {
            self.f = make_flags(
                value & (1u8 << (kind - 8)) == 0,
                false,
                true,
                self.f & 0x10 != 0,
            );
            if is_hl {
                12
            } else {
                8
            }
        } else {
            let r = if kind < 24 {
                value & !(1u8 << (kind - 16))
            } else {
                value | (1u8 << (kind - 24))
            };
            self.set_reg(reg, r, bus);
            if is_hl {
                16
            } else {
                8
            }
        }
    }

    /// Runs the instruction `opcode` on a CPU whose PC is already past the
    /// opcode byte; returns the T-cycles it takes.
    pub fn execute(&mut self, opcode: u8, bus: &mut MemoryBus) -> (cycles: u32)
        requires
            old(bus).wf(),
            old(self).wf(),
            implemented(opcode),
        ensures
            final(bus).wf(),
            final(self).wf(),
            is_outcome(
                *final(self),
                final(bus)@,
                cycles,
                execute_spec(*old(self), old(bus)@, opcode),
            ),
    {
        let x = opcode / 64;
        let y = (opcode / 8) % 8;
        let z = opcode % 8;
        if x == 0 {
            self.run_x0(bus, y, z)
        } else if x == 1 {
            self.run_x1(bus, y, z)
        } else if x == 2 {
            self.run_x2(bus, y, z)
        } else {
            self.run_x3(bus, opcode, y, z)
        }
    }
}

} // verus!
