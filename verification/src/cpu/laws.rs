//! What holds of every step of the CPU.

use super::alu::{flags, lemma_flags};
use super::opcodes::{cb_spec, execute_spec, implemented};
use super::{dispatching, pending, serviced, step_spec, Cpu, Outcome};
use crate::bus::{next_addr, BusView};
use crate::interrupts::{lemma_priority, priority};
use vstd::prelude::*;

verus! {

/// Whether `cycles` is a multiple of 4 between 4 and 24.
pub open spec fn whole_machine_cycles(cycles: u32) -> bool {
    cycles % 4 == 0 && 4 <= cycles <= 24
}

/// Every instruction of the CB page takes 8, 12 or 16 T-cycles.
pub proof fn lemma_cb_cycles(cpu: Cpu, bus: BusView, opcode: u8)
    ensures
        cb_spec(cpu, bus, opcode).cycles == 8 || cb_spec(cpu, bus, opcode).cycles == 12
            || cb_spec(cpu, bus, opcode).cycles == 16,
{
}

/// Every instruction takes a whole number of machine cycles, between 1 and 6.
pub proof fn lemma_execute_cycles(cpu: Cpu, bus: BusView, opcode: u8)
    ensures
        whole_machine_cycles(execute_spec(cpu, bus, opcode).cycles),
{
    lemma_cb_cycles(cpu.skip1(), bus, cpu.imm8(bus));
}

/// Every flag byte an instruction builds has a zero low nibble, and so has
/// the low byte of a word masked for AF.
pub proof fn lemma_flag_bytes_are_clean()
    ensures
        forall|z: bool, n: bool, h: bool, c: bool| #[trigger] flags(z, n, h, c) & 0x0F == 0,
        forall|v: u16| #[trigger] ((v & 0xF0) as u8) & 0x0F == 0,
{
    assert forall|z: bool, n: bool, h: bool, c: bool| #[trigger] flags(z, n, h, c) & 0x0F
        == 0 by {
        lemma_flags(z, n, h, c);
    }
    assert forall|v: u16| #[trigger] ((v & 0xF0) as u8) & 0x0F == 0 by {
        assert(((v & 0xF0) as u8) & 0x0F == 0) by (bit_vector);
    }
}

/// No instruction of the CB page leaves a bit set in the low nibble of F.
pub proof fn lemma_cb_keeps_flags_clean(cpu: Cpu, bus: BusView, opcode: u8)
    requires
        cpu.wf(),
    ensures
        cb_spec(cpu, bus, opcode).cpu.wf(),
{
    lemma_flag_bytes_are_clean();
}

/// No instruction leaves a bit set in the low nibble of F.
pub proof fn lemma_execute_keeps_flags_clean(cpu: Cpu, bus: BusView, opcode: u8)
    requires
        cpu.wf(),
    ensures
        execute_spec(cpu, bus, opcode).cpu.wf(),
{
    lemma_flag_bytes_are_clean();
    lemma_cb_keeps_flags_clean(cpu.skip1(), bus, cpu.imm8(bus));
}

/// After every step the unused bits of F are 0: the low nibble of F is zero
/// before the step and stays so.
pub proof fn lemma_step_keeps_flags_clean(cpu: Cpu, bus: BusView)
    requires
        cpu.wf(),
        step_spec(cpu, bus).is_ok(),
    ensures
        step_spec(cpu, bus).unwrap().cpu.wf(),
{
    lemma_execute_keeps_flags_clean(dispatching(cpu), bus, bus.read(cpu.pc));
}

/// Every step takes a whole number of machine cycles, between 1 and 6.
pub proof fn lemma_step_cycles(cpu: Cpu, bus: BusView)
    requires
        step_spec(cpu, bus).is_ok(),
    ensures
        whole_machine_cycles(step_spec(cpu, bus).unwrap().cycles),
{
    lemma_execute_cycles(dispatching(cpu), bus, bus.read(cpu.pc));
}

/// Servicing an interrupt vectors to the handler of the highest-priority
/// pending source and turns IME off, so that the next step runs an
/// instruction of the handler instead of vectoring again.
pub proof fn lemma_one_vectoring_per_step(cpu: Cpu, bus: BusView)
    requires
        cpu.ime || cpu.ime_pending,
        pending(bus) != 0,
    ensures
        step_spec(cpu, bus) == Ok::<Outcome, u8>(serviced(cpu, bus)),
        serviced(cpu, bus).cycles == 20,
        serviced(cpu, bus).cpu.pc == priority(pending(bus)).vector(),
        pending(bus) & priority(pending(bus)).mask() != 0,
        !serviced(cpu, bus).cpu.ime && !serviced(cpu, bus).cpu.ime_pending,
        !serviced(cpu, bus).cpu.halted,
        step_spec(serviced(cpu, bus).cpu, serviced(cpu, bus).bus) != Ok::<Outcome, u8>(
            serviced(serviced(cpu, bus).cpu, serviced(cpu, bus).bus),
        ),
{
    let p = pending(bus);
    let ie = bus.memory.ie;
    let iflag = bus.memory.io[0x0F];
    assert(p & 0x1F != 0) by (bit_vector)
        requires
            p == ie & iflag & 0x1F,
            p != 0,
    ;
    lemma_priority(p);
    let out = serviced(cpu, bus);
    let again = serviced(out.cpu, out.bus);
    assert(again.cycles == 20);
    if out.cpu.halted && pending(out.bus) == 0 {
    } else if implemented(out.bus.read(out.cpu.pc)) {
        lemma_execute_cycles(dispatching(out.cpu), out.bus, out.bus.read(out.cpu.pc));
        let next = execute_spec(dispatching(out.cpu), out.bus, out.bus.read(out.cpu.pc));
        assert(dispatching(out.cpu).pc == next_addr(out.cpu.pc));
        lemma_not_a_service(out.cpu, out.bus);
    }
}

/// Running an instruction is never the same as servicing an interrupt: the
/// instruction counter moves.
proof fn lemma_not_a_service(cpu: Cpu, bus: BusView)
    requires
        implemented(bus.read(cpu.pc)),
    ensures
        execute_spec(dispatching(cpu), bus, bus.read(cpu.pc)).cpu.instruction_count
            == dispatching(cpu).instruction_count,
        serviced(cpu, bus).cpu.instruction_count == cpu.instruction_count,
{
}

/// A halted CPU with no enabled request pending idles: 4 cycles pass and
/// nothing but the pending EI changes.
pub proof fn lemma_halt_idles(cpu: Cpu, bus: BusView)
    requires
        cpu.halted,
        pending(bus) == 0,
    ensures
        step_spec(cpu, bus) == Ok::<Outcome, u8>(
            Outcome {
                cpu: Cpu { ime: cpu.ime || cpu.ime_pending, ime_pending: false, ..cpu },
                bus,
                cycles: 4,
            },
        ),
{
}

/// EI takes effect one instruction late: after EI, IME is still as it was and
/// only the pending flag is set.
pub proof fn lemma_ei_is_delayed(cpu: Cpu, bus: BusView)
    requires
        !cpu.ime,
        !cpu.ime_pending,
        !cpu.halted,
        bus.read(cpu.pc) == 0xFB,
    ensures
        step_spec(cpu, bus).is_ok(),
        !step_spec(cpu, bus).unwrap().cpu.ime,
        step_spec(cpu, bus).unwrap().cpu.ime_pending,
        step_spec(cpu, bus).unwrap().bus == bus,
        step_spec(cpu, bus).unwrap().cpu.pc == next_addr(cpu.pc),
{
}

/// "EI; DI" leaves interrupts disabled, and no interrupt is serviced between
/// the two when none was pending before EI.
pub proof fn lemma_ei_then_di(cpu: Cpu, bus: BusView)
    requires
        !cpu.ime,
        !cpu.ime_pending,
        !cpu.halted,
        pending(bus) == 0,
        bus.read(cpu.pc) == 0xFB,
        bus.read(next_addr(cpu.pc)) == 0xF3,
    ensures
        ({
            let after_ei = step_spec(cpu, bus).unwrap();
            let after_di = step_spec(after_ei.cpu, after_ei.bus);
            after_di.is_ok() && !after_di.unwrap().cpu.ime && !after_di.unwrap().cpu.ime_pending
                && after_di.unwrap().cpu.pc == next_addr(next_addr(cpu.pc))
        }),
{
}

/// After EI, any instruction that does not touch IME runs with IME on at its
/// end; here NOP.
pub proof fn lemma_ei_then_nop(cpu: Cpu, bus: BusView)
    requires
        !cpu.ime,
        !cpu.ime_pending,
        !cpu.halted,
        pending(bus) == 0,
        bus.read(cpu.pc) == 0xFB,
        bus.read(next_addr(cpu.pc)) == 0x00,
    ensures
        ({
            let after_ei = step_spec(cpu, bus).unwrap();
            let after_nop = step_spec(after_ei.cpu, after_ei.bus);
            after_nop.is_ok() && after_nop.unwrap().cpu.ime
        }),
{
}

/// An opcode outside the instruction set stops the step before anything changes.
pub proof fn lemma_unimplemented_is_reported(cpu: Cpu, bus: BusView)
    requires
        !((cpu.ime || cpu.ime_pending) && pending(bus) != 0),
        !(cpu.halted && pending(bus) == 0),
        !implemented(bus.read(cpu.pc)),
    ensures
        step_spec(cpu, bus) == Err::<Outcome, u8>(bus.read(cpu.pc)),
{
}

} // verus!
