//! The CPU: registers, flags, the stack, interrupt service and the step that
//! runs one instruction.

pub mod alu;
pub mod laws;
pub mod opcodes;

use crate::bus::{next_addr, prev_addr, BusView, MemoryBus};
use crate::error::EmuError;
use crate::interrupts::{cleared, pick, priority, Interrupt, InterruptController};
use opcodes::{execute_spec, implemented, is_implemented, is_outcome};
use vstd::prelude::*;

verus! {

/// Bit position of the zero flag in F.
pub const FLAG_Z: u8 = 7;

/// Bit position of the subtract flag in F.
pub const FLAG_N: u8 = 6;

/// Bit position of the half-carry flag in F.
pub const FLAG_H: u8 = 5;

/// Bit position of the carry flag in F.
pub const FLAG_C: u8 = 4;

/// Registers and pairs, for debugging.
pub struct CpuDebugState {
    pub pc: u16,
    pub sp: u16,
    pub a: u8,
    pub f: u8,
    pub bc: u16,
    pub de: u16,
    pub hl: u16,
    pub ime: bool,
    pub halted: bool,
}

/// The register file and the interrupt and halt state.
#[derive(Clone, Copy)]
pub struct Cpu {
    pub a: u8,
    /// Flags Z, N, H, C in bits 7-4; bits 3-0 are always zero.
    pub f: u8,
    pub b: u8,
    pub c: u8,
    pub d: u8,
    pub e: u8,
    pub h: u8,
    pub l: u8,
    pub sp: u16,
    pub pc: u16,
    pub halted: bool,
    /// Interrupt master enable.
    pub ime: bool,
    /// Set by EI: IME turns on at the start of the next step.
    pub ime_pending: bool,
    pub instruction_count: u64,
}

/// The 16-bit pair of a high and a low register.
pub open spec fn pair(hi: u8, lo: u8) -> u16 {
    ((hi as u16) << 8) | (lo as u16)
}

/// High byte of a word.
pub open spec fn high(v: u16) -> u8 {
    (v >> 8) as u8
}

/// Low byte of a word.
pub open spec fn low(v: u16) -> u8 {
    v as u8
}

impl Cpu {
    /// The low nibble of F is zero.
    pub open spec fn wf(self) -> bool {
        self.f & 0x0F == 0
    }

    /// Register state after the boot program.
    pub open spec fn power_on() -> Cpu {
        Cpu {
            a: 0x01,
            f: 0xB0,
            b: 0x00,
            c: 0x13,
            d: 0x00,
            e: 0xD8,
            h: 0x01,
            l: 0x4D,
            sp: 0xFFFE,
            pc: 0x0100,
            halted: false,
            ime: true,
            ime_pending: false,
            instruction_count: 0,
        }
    }

    /// The pair AF.
    pub open spec fn spec_af(&self) -> u16 {
        pair(self.a, self.f)
    }

    /// The pair BC.
    pub open spec fn spec_bc(&self) -> u16 {
        pair(self.b, self.c)
    }

    /// The pair DE.
    pub open spec fn spec_de(&self) -> u16 {
        pair(self.d, self.e)
    }

    /// The pair HL.
    pub open spec fn spec_hl(&self) -> u16 {
        pair(self.h, self.l)
    }

    /// AF set from a word: the low nibble of F is dropped.
    pub open spec fn with_af(self, v: u16) -> Cpu {
        Cpu { a: high(v), f: (v & 0xF0) as u8, ..self }
    }

    pub open spec fn with_bc(self, v: u16) -> Cpu {
        Cpu { b: high(v), c: low(v), ..self }
    }

    pub open spec fn with_de(self, v: u16) -> Cpu {
        Cpu { d: high(v), e: low(v), ..self }
    }

    pub open spec fn with_hl(self, v: u16) -> Cpu {
        Cpu { h: high(v), l: low(v), ..self }
    }

    pub open spec fn with_f(self, f: u8) -> Cpu {
        Cpu { f, ..self }
    }

    pub open spec fn with_pc(self, pc: u16) -> Cpu {
        Cpu { pc, ..self }
    }

    /// Whether bit `bit` of F is set.
    pub open spec fn spec_flag(&self, bit: u8) -> bool {
        (self.f >> bit) & 1 == 1
    }

    /// The CPU after the boot program.
    pub fn new() -> (r: Cpu)
        ensures
            r == Cpu::power_on(),
            r.wf(),
    {
        assert(0xB0u8 & 0x0F == 0) by (bit_vector);
        Cpu {
            a: 0x01,
            f: 0xB0,
            b: 0x00,
            c: 0x13,
            d: 0x00,
            e: 0xD8,
            h: 0x01,
            l: 0x4D,
            sp: 0xFFFE,
            pc: 0x0100,
            halted: false,
            ime: true,
            ime_pending: false,
            instruction_count: 0,
        }
    }

    /// The pair AF.
    #[verifier::when_used_as_spec(spec_af)]
    pub fn af(&self) -> (r: u16)
        ensures
            r == self.spec_af(),
    {
        ((self.a as u16) << 8) | (self.f as u16)
    }

    /// The pair BC.
    #[verifier::when_used_as_spec(spec_bc)]
    pub fn bc(&self) -> (r: u16)
        ensures
            r == self.spec_bc(),
    {
        ((self.b as u16) << 8) | (self.c as u16)
    }

    /// The pair DE.
    #[verifier::when_used_as_spec(spec_de)]
    pub fn de(&self) -> (r: u16)
        ensures
            r == self.spec_de(),
    {
        ((self.d as u16) << 8) | (self.e as u16)
    }

    /// The pair HL.
    #[verifier::when_used_as_spec(spec_hl)]
    pub fn hl(&self) -> (r: u16)
        ensures
            r == self.spec_hl(),
    {
        ((self.h as u16) << 8) | (self.l as u16)
    }

    /// Sets AF; the low nibble of F stays zero.
    pub fn set_af(&mut self, v: u16)
        ensures
            *final(self) == old(self).with_af(v),
            final(self).wf(),
    {
        assert(((v & 0xF0) as u8) & 0x0F == 0) by (bit_vector);
        self.a = (v >> 8) as u8;
        self.f = (v & 0xF0) as u8;
    }

    /// Sets BC.
    pub fn set_bc(&mut self, v: u16)
        ensures
            *final(self) == old(self).with_bc(v),
    {
        self.b = (v >> 8) as u8;
        self.c = v as u8;
    }

    /// Sets DE.
    pub fn set_de(&mut self, v: u16)
        ensures
            *final(self) == old(self).with_de(v),
    {
        self.d = (v >> 8) as u8;
        self.e = v as u8;
    }

    /// Sets HL.
    pub fn set_hl(&mut self, v: u16)
        ensures
            *final(self) == old(self).with_hl(v),
    {
        self.h = (v >> 8) as u8;
        self.l = v as u8;
    }

    /// Reads bit `bit` (0..=7) of F.
    #[verifier::when_used_as_spec(spec_flag)]
    pub fn flag(&self, bit: u8) -> (r: bool)
        requires
            bit < 8,
        ensures
            r == self.spec_flag(bit),
    {
        (self.f >> bit) & 1 == 1
    }

    /// Sets or clears bit `bit` (0..=7) of F.
    pub fn set_flag(&mut self, bit: u8, value: bool)
        requires
            bit < 8,
        ensures
            *final(self) == (Cpu {
                f: if value {
                    old(self).f | (1u8 << bit)
                } else {
                    old(self).f & !(1u8 << bit)
                },
                ..*old(self)
            }),
    {
        if value {
            self.f = self.f | (1u8 << bit);
        } else {
            self.f = self.f & !(1u8 << bit);
        }
    }

    /// A snapshot of the registers for debugging.
    pub fn get_debug_state(&self) -> (r: CpuDebugState)
        ensures
            r.pc == self.pc,
            r.sp == self.sp,
            r.a == self.a,
            r.f == self.f,
            r.bc == self.spec_bc(),
            r.de == self.spec_de(),
            r.hl == self.spec_hl(),
            r.ime == self.ime,
            r.halted == self.halted,
    {
        CpuDebugState {
            pc: self.pc,
            sp: self.sp,
            a: self.a,
            f: self.f,
            bc: self.bc(),
            de: self.de(),
            hl: self.hl(),
            ime: self.ime,
            halted: self.halted,
        }
    }
}

/// What running one instruction, or servicing one interrupt, leaves behind.
pub ghost struct Outcome {
    pub cpu: Cpu,
    pub bus: BusView,
    pub cycles: u32,
}

impl Cpu {
    /// The 8-bit operand in slot `idx`: B, C, D, E, H, L, the byte at HL, A.
    pub open spec fn reg8(self, idx: int, bus: BusView) -> u8 {
        if idx == 0 {
            self.b
        } else if idx == 1 {
            self.c
        } else if idx == 2 {
            self.d
        } else if idx == 3 {
            self.e
        } else if idx == 4 {
            self.h
        } else if idx == 5 {
            self.l
        } else if idx == 6 {
            bus.read(self.spec_hl())
        } else {
            self.a
        }
    }

    /// The registers after `v` is stored in slot `idx`; slot 6 is memory and
    /// leaves them unchanged.
    pub open spec fn with_reg8(self, idx: int, v: u8) -> Cpu {
        if idx == 0 {
            Cpu { b: v, ..self }
        } else if idx == 1 {
            Cpu { c: v, ..self }
        } else if idx == 2 {
            Cpu { d: v, ..self }
        } else if idx == 3 {
            Cpu { e: v, ..self }
        } else if idx == 4 {
            Cpu { h: v, ..self }
        } else if idx == 5 {
            Cpu { l: v, ..self }
        } else if idx == 6 {
            self
        } else {
            Cpu { a: v, ..self }
        }
    }

    /// The bus after `v` is stored in slot `idx`: only slot 6 writes, at HL.
    pub open spec fn bus_after_store(self, bus: BusView, idx: int, v: u8) -> BusView {
        if idx == 6 {
            bus.write(self.spec_hl(), v)
        } else {
            bus
        }
    }

    /// Register pair `p`: BC, DE, HL, SP.
    pub open spec fn rp(self, p: int) -> u16 {
        if p == 0 {
            self.spec_bc()
        } else if p == 1 {
            self.spec_de()
        } else if p == 2 {
            self.spec_hl()
        } else {
            self.sp
        }
    }

    /// The registers with pair `p` (BC, DE, HL, SP) set.
    pub open spec fn with_rp(self, p: int, v: u16) -> Cpu {
        if p == 0 {
            self.with_bc(v)
        } else if p == 1 {
            self.with_de(v)
        } else if p == 2 {
            self.with_hl(v)
        } else {
            Cpu { sp: v, ..self }
        }
    }

    /// Register pair `p` for PUSH and POP: BC, DE, HL, AF.
    pub open spec fn rp2(self, p: int) -> u16 {
        if p == 0 {
            self.spec_bc()
        } else if p == 1 {
            self.spec_de()
        } else if p == 2 {
            self.spec_hl()
        } else {
            self.spec_af()
        }
    }

    /// The registers with pair `p` (BC, DE, HL, AF) set.
    pub open spec fn with_rp2(self, p: int, v: u16) -> Cpu {
        if p == 0 {
            self.with_bc(v)
        } else if p == 1 {
            self.with_de(v)
        } else if p == 2 {
            self.with_hl(v)
        } else {
            self.with_af(v)
        }
    }

    /// Condition `y`: NZ, Z, NC, C.
    pub open spec fn cond(self, y: int) -> bool {
        if y == 0 {
            !alu::zf(self.f)
        } else if y == 1 {
            alu::zf(self.f)
        } else if y == 2 {
            !alu::cf(self.f)
        } else {
            alu::cf(self.f)
        }
    }

    /// The byte at PC.
    pub open spec fn imm8(self, bus: BusView) -> u8 {
        bus.read(self.pc)
    }

    /// The word at PC, low byte first.
    pub open spec fn imm16(self, bus: BusView) -> u16 {
        pair(bus.read(next_addr(self.pc)), bus.read(self.pc))
    }

    /// PC moved past one operand byte.
    pub open spec fn skip1(self) -> Cpu {
        Cpu { pc: next_addr(self.pc), ..self }
    }

    /// PC moved past two operand bytes.
    pub open spec fn skip2(self) -> Cpu {
        Cpu { pc: next_addr(next_addr(self.pc)), ..self }
    }

    /// SP after a push.
    pub open spec fn pushed_sp(self) -> u16 {
        prev_addr(prev_addr(self.sp))
    }

    /// The bus after `v` is pushed: high byte at SP-1, low byte at SP-2.
    pub open spec fn pushed_bus(self, bus: BusView, v: u16) -> BusView {
        bus.write(prev_addr(self.sp), high(v)).write(prev_addr(prev_addr(self.sp)), low(v))
    }

    /// The word on top of the stack.
    pub open spec fn stack_top(self, bus: BusView) -> u16 {
        pair(bus.read(next_addr(self.sp)), bus.read(self.sp))
    }

    /// SP after a pop.
    pub open spec fn popped_sp(self) -> u16 {
        next_addr(next_addr(self.sp))
    }

    /// Reads the byte at PC and moves PC past it.
    pub fn fetch(&mut self, bus: &MemoryBus) -> (r: u8)
        requires
            bus.wf(),
        ensures
            r == old(self).imm8(bus@),
            *final(self) == old(self).skip1(),
    {
        let opcode = bus.read(self.pc);
        self.pc = self.pc.wrapping_add(1);
        opcode
    }

    /// Reads the word at PC and moves PC past it.
    pub fn fetch_word(&mut self, bus: &MemoryBus) -> (r: u16)
        requires
            bus.wf(),
        ensures
            r == old(self).imm16(bus@),
            *final(self) == old(self).skip2(),
    {
        let lo = self.fetch(bus) as u16;
        let hi = self.fetch(bus) as u16;
        (hi << 8) | lo
    }

    /// Reads operand slot `idx` (0..=7).
    pub fn get_reg(&self, idx: u8, bus: &MemoryBus) -> (r: u8)
        requires
            bus.wf(),
        ensures
            r == self.reg8(idx as int, bus@),
    {
        match idx {
            0 => self.b,
            1 => self.c,
            2 => self.d,
            3 => self.e,
            4 => self.h,
            5 => self.l,
            6 => bus.read(self.hl()),
            _ => self.a,
        }
    }

    /// Writes operand slot `idx` (0..=7).
    pub fn set_reg(&mut self, idx: u8, value: u8, bus: &mut MemoryBus)
        requires
            old(bus).wf(),
        ensures
            final(bus).wf(),
            *final(self) == old(self).with_reg8(idx as int, value),
            final(bus)@ == old(self).bus_after_store(old(bus)@, idx as int, value),
    {
        match idx {
            0 => self.b = value,
            1 => self.c = value,
            2 => self.d = value,
            3 => self.e = value,
            4 => self.h = value,
            5 => self.l = value,
            6 => bus.write(self.hl(), value),
            _ => self.a = value,
        }
    }

    fn get_rp(&self, p: u8) -> (r: u16)
        ensures
            r == self.rp(p as int),
    {
        match p {
            0 => self.bc(),
            1 => self.de(),
            2 => self.hl(),
            _ => self.sp,
        }
    }

    fn set_rp(&mut self, p: u8, v: u16)
        ensures
            *final(self) == old(self).with_rp(p as int, v),
            final(self).f == old(self).f,
    {
        match p {
            0 => self.set_bc(v),
            1 => self.set_de(v),
            2 => self.set_hl(v),
            _ => self.sp = v,
        }
    }

    fn get_rp2(&self, p: u8) -> (r: u16)
        ensures
            r == self.rp2(p as int),
    {
        match p {
            0 => self.bc(),
            1 => self.de(),
            2 => self.hl(),
            _ => self.af(),
        }
    }

    fn set_rp2(&mut self, p: u8, v: u16)
        requires
            old(self).wf(),
        ensures
            *final(self) == old(self).with_rp2(p as int, v),
            final(self).wf(),
    {
        match p {
            0 => self.set_bc(v),
            1 => self.set_de(v),
            2 => self.set_hl(v),
            _ => self.set_af(v),
        }
    }

    fn test_cond(&self, y: u8) -> (r: bool)
        ensures
            r == self.cond(y as int),
    {
        match y {
            0 => self.f & 0x80 == 0,
            1 => self.f & 0x80 != 0,
            2 => self.f & 0x10 == 0,
            _ => self.f & 0x10 != 0,
        }
    }

    /// Pushes a word: SP drops by two, high byte stored above the low byte.
    pub fn push_word(&mut self, bus: &mut MemoryBus, value: u16)
        requires
            old(bus).wf(),
        ensures
            final(bus).wf(),
            *final(self) == (Cpu { sp: old(self).pushed_sp(), ..*old(self) }),
            final(bus)@ == old(self).pushed_bus(old(bus)@, value),
    {
        self.sp = self.sp.wrapping_sub(1);
        bus.write(self.sp, (value >> 8) as u8);
        self.sp = self.sp.wrapping_sub(1);
        bus.write(self.sp, value as u8);
    }

    /// Pops a word: low byte first, SP rises by two.
    pub fn pop_word(&mut self, bus: &MemoryBus) -> (r: u16)
        requires
            bus.wf(),
        ensures
            r == old(self).stack_top(bus@),
            *final(self) == (Cpu { sp: old(self).popped_sp(), ..*old(self) }),
    {
        let lo = bus.read(self.sp) as u16;
        self.sp = self.sp.wrapping_add(1);
        let hi = bus.read(self.sp) as u16;
        self.sp = self.sp.wrapping_add(1);
        (hi << 8) | lo
    }
}

/// The interrupt sources that are both requested and enabled.
pub open spec fn pending(bus: BusView) -> u8 {
    bus.memory.ie & bus.memory.io[0x0F] & 0x1F
}

/// The instruction counter one instruction later.
pub open spec fn counted(n: u64) -> u64 {
    if n == u64::MAX {
        0
    } else {
        (n + 1) as u64
    }
}

/// The machine after the CPU vectors to the highest-priority pending
/// interrupt: its IF bit cleared, IME off, HALT left, PC pushed and set to the
/// handler, 20 cycles spent.
pub open spec fn serviced(cpu: Cpu, bus: BusView) -> Outcome {
    let irq = priority(pending(bus));
    let bus1 = BusView { memory: cleared(bus.memory, irq.mask()), ..bus };
    Outcome {
        cpu: Cpu {
            halted: false,
            ime: false,
            ime_pending: false,
            sp: cpu.pushed_sp(),
            pc: irq.vector(),
            ..cpu
        },
        bus: cpu.pushed_bus(bus1, cpu.pc),
        cycles: 20,
    }
}

/// The CPU about to run the instruction at PC: IME as pending EI leaves it,
/// HALT left, PC past the opcode byte, one more instruction counted.
pub open spec fn dispatching(cpu: Cpu) -> Cpu {
    Cpu {
        ime: cpu.ime || cpu.ime_pending,
        ime_pending: false,
        halted: false,
        pc: next_addr(cpu.pc),
        instruction_count: counted(cpu.instruction_count),
        ..cpu
    }
}

/// One step of the CPU, in this order: a pending EI takes effect; with IME
/// on, a pending interrupt is serviced; a halted CPU with nothing pending
/// idles for 4 cycles; otherwise the instruction at PC runs. An opcode
/// outside the instruction set is reported and nothing changes.
pub open spec fn step_spec(cpu: Cpu, bus: BusView) -> Result<Outcome, u8> {
    let ime = cpu.ime || cpu.ime_pending;
    if ime && pending(bus) != 0 {
        Ok(serviced(cpu, bus))
    } else if cpu.halted && pending(bus) == 0 {
        Ok(Outcome { cpu: Cpu { ime, ime_pending: false, ..cpu }, bus, cycles: 4 })
    } else if !implemented(bus.read(cpu.pc)) {
        Err(bus.read(cpu.pc))
    } else {
        Ok(execute_spec(dispatching(cpu), bus, bus.read(cpu.pc)))
    }
}

impl Cpu {
    /// Services the highest-priority pending interrupt, if there is one;
    /// returns the cycles spent.
    pub fn handle_interrupt(
        &mut self,
        bus: &mut MemoryBus,
        interrupts: &mut InterruptController,
    ) -> (r: Option<u32>)
        requires
            old(bus).wf(),
        ensures
            final(bus).wf(),
            final(self).f == old(self).f,
            pending(old(bus)@) == 0 ==> r.is_none() && *final(self) == *old(self) && final(bus)@
                == old(bus)@,
            pending(old(bus)@) != 0 ==> r == Some(20u32) && is_outcome(
                *final(self),
                final(bus)@,
                20,
                serviced(Cpu { ime_pending: false, ..*old(self) }, old(bus)@),
            ),
    {
        let ie = bus.get_ie();
        let if_reg = bus.read_io_direct(0x0F);
        let pending = ie & if_reg & 0x1F;
        if pending == 0 {
            return None;
        }
        self.halted = false;
        self.ime = false;
        self.ime_pending = false;
        let interrupt = pick(pending);
        interrupts.acknowledge(interrupt, &mut bus.memory);
        let ret = self.pc;
        self.push_word(bus, ret);
        self.pc = interrupt.handler();
        Some(20)
    }

    /// Runs one step: interrupt service, HALT idling, or one instruction.
    /// Returns the T-cycles consumed, or the opcode that is not implemented.
    pub fn step(&mut self, bus: &mut MemoryBus, interrupts: &mut InterruptController) -> (r:
        Result<u32, EmuError>)
        requires
            old(self).wf(),
            old(bus).wf(),
        ensures
            final(self).wf(),
            final(bus).wf(),
            match step_spec(*old(self), old(bus)@) {
                Ok(out) => r == Ok::<u32, EmuError>(out.cycles) && *final(self) == out.cpu
                    && final(bus)@ == out.bus,
                Err(op) => r == Err::<u32, EmuError>(EmuError::UnimplementedOpcode(op))
                    && *final(self) == *old(self) && final(bus)@ == old(bus)@,
            },
            r.is_ok() ==> laws::whole_machine_cycles(r.unwrap()),
    {
        proof {
            if step_spec(*old(self), old(bus)@).is_ok() {
                laws::lemma_step_cycles(*old(self), old(bus)@);
            }
        }
        let ie = bus.get_ie();
        let if_reg = bus.read_io_direct(0x0F);
        let pending = ie & if_reg & 0x1F;
        let ime = self.ime || self.ime_pending;
        if ime && pending != 0 {
            match self.handle_interrupt(bus, interrupts) {
                Some(cycles) => {
                    return Ok(cycles);
                },
                None => {},
            }
        }
        if self.halted && pending == 0 {
            self.ime = ime;
            self.ime_pending = false;
            return Ok(4);
        }
        let opcode = bus.read(self.pc);
        if !is_implemented(opcode) {
            return Err(EmuError::UnimplementedOpcode(opcode));
        }
        self.ime = ime;
        self.ime_pending = false;
        self.halted = false;
        self.pc = self.pc.wrapping_add(1);
        self.instruction_count = self.instruction_count.wrapping_add(1);
        Ok(self.execute(opcode, bus))
    }
}

} // verus!
