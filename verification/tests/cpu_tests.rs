//! CPU instruction tests: each runs a short program placed at the entry point.

use gbcam_core::bus::MemoryBus;
use gbcam_core::cpu::{Cpu, FLAG_C, FLAG_H, FLAG_N, FLAG_Z};
use gbcam_core::error::EmuError;
use gbcam_core::interrupts::InterruptController;
use gbcam_core::joypad::Joypad;
use gbcam_core::memory::Memory;
use gbcam_core::timer::Timer;

struct TestContext {
    cpu: Cpu,
    bus: MemoryBus,
    ic: InterruptController,
}

impl TestContext {
    fn step(&mut self) -> u32 {
        self.cpu.step(&mut self.bus, &mut self.ic).unwrap()
    }
}

fn setup_with_rom(rom_data: &[u8]) -> TestContext {
    let mut mem = Memory::new();
    let mut rom = vec![0u8; 0x8000];
    for (i, &byte) in rom_data.iter().enumerate() {
        if 0x100 + i < rom.len() {
            rom[0x100 + i] = byte;
        }
    }
    mem.load_rom(&rom, false).unwrap();
    TestContext {
        cpu: Cpu::new(),
        bus: MemoryBus::new(mem, Timer::new(), Joypad::new()),
        ic: InterruptController::new(),
    }
}

#[test]
fn cpu_test_initial_state() {
    let cpu = Cpu::new();
    assert_eq!(cpu.pc, 0x0100);
    assert_eq!(cpu.sp, 0xFFFE);
    assert_eq!(cpu.a, 0x01);
    assert!(!cpu.halted);
    assert!(cpu.ime);
}

#[test]
fn cpu_test_nop() {
    let mut ctx = setup_with_rom(&[0x00]); // NOP
    let cycles = ctx.step();
    assert_eq!(cycles, 4);
    assert_eq!(ctx.cpu.pc, 0x0101);
}

#[test]
fn cpu_test_ld_immediate_8bit() {
    let mut ctx = setup_with_rom(&[
        0x3E, 0x42, // LD A, 0x42
        0x06, 0x55, // LD B, 0x55
    ]);
    ctx.step();
    assert_eq!(ctx.cpu.a, 0x42);

    ctx.step();
    assert_eq!(ctx.cpu.b, 0x55);
}

#[test]
fn cpu_test_ld_immediate_16bit() {
    let mut ctx = setup_with_rom(&[
        0x21, 0x34, 0x12, // LD HL, 0x1234
    ]);
    ctx.step();
    assert_eq!(ctx.cpu.hl(), 0x1234);
}

#[test]
fn cpu_test_inc_dec_8bit() {
    let mut ctx = setup_with_rom(&[
        0x3C, // INC A
        0x3D, // DEC A
    ]);
    ctx.cpu.a = 0x0F;

    ctx.step();
    assert_eq!(ctx.cpu.a, 0x10);
    assert!(ctx.cpu.flag(FLAG_H)); // Half carry from 0x0F to 0x10

    ctx.step();
    assert_eq!(ctx.cpu.a, 0x0F);
}

#[test]
fn cpu_test_inc_zero_flag() {
    let mut ctx = setup_with_rom(&[0x3C]); // INC A
    ctx.cpu.a = 0xFF;

    ctx.step();
    assert_eq!(ctx.cpu.a, 0x00);
    assert!(ctx.cpu.flag(FLAG_Z));
}

#[test]
fn cpu_test_add() {
    let mut ctx = setup_with_rom(&[0x80]); // ADD A, B
    ctx.cpu.a = 0x3A;
    ctx.cpu.b = 0xC6;

    ctx.step();
    assert_eq!(ctx.cpu.a, 0x00);
    assert!(ctx.cpu.flag(FLAG_Z));
    assert!(ctx.cpu.flag(FLAG_H));
    assert!(ctx.cpu.flag(FLAG_C));
}

#[test]
fn cpu_test_sub() {
    let mut ctx = setup_with_rom(&[0x90]); // SUB B
    ctx.cpu.a = 0x3E;
    ctx.cpu.b = 0x3E;

    ctx.step();
    assert_eq!(ctx.cpu.a, 0x00);
    assert!(ctx.cpu.flag(FLAG_Z));
    assert!(ctx.cpu.flag(FLAG_N));
}

#[test]
fn cpu_test_and() {
    let mut ctx = setup_with_rom(&[0xA0]); // AND B
    ctx.cpu.a = 0x5A;
    ctx.cpu.b = 0x3F;

    ctx.step();
    assert_eq!(ctx.cpu.a, 0x1A);
    assert!(ctx.cpu.flag(FLAG_H));
    assert!(!ctx.cpu.flag(FLAG_C));
}

#[test]
fn cpu_test_xor() {
    let mut ctx = setup_with_rom(&[0xAF]); // XOR A
    ctx.cpu.a = 0xFF;

    ctx.step();
    assert_eq!(ctx.cpu.a, 0x00);
    assert!(ctx.cpu.flag(FLAG_Z));
}

#[test]
fn cpu_test_jp() {
    let mut ctx = setup_with_rom(&[
        0xC3, 0x00, 0x80, // JP 0x8000
    ]);
    ctx.step();
    assert_eq!(ctx.cpu.pc, 0x8000);
}

#[test]
fn cpu_test_jr() {
    let mut ctx = setup_with_rom(&[
        0x18, 0x05, // JR +5
    ]);
    ctx.step();
    assert_eq!(ctx.cpu.pc, 0x0107); // 0x0102 + 5
}

#[test]
fn cpu_test_call_ret() {
    // Put RET at 0x200 (offset 0x100 in the program)
    let mut rom_data = vec![0u8; 0x200];
    rom_data[0] = 0xCD; // CALL 0x200
    rom_data[1] = 0x00;
    rom_data[2] = 0x02;
    rom_data[0x100] = 0xC9; // RET at 0x200

    let mut ctx = setup_with_rom(&rom_data);
    ctx.cpu.sp = 0xFFFE;

    ctx.step();
    assert_eq!(ctx.cpu.pc, 0x0200);
    assert_eq!(ctx.cpu.sp, 0xFFFC);

    ctx.step();
    assert_eq!(ctx.cpu.pc, 0x0103);
    assert_eq!(ctx.cpu.sp, 0xFFFE);
}

#[test]
fn cpu_test_push_pop() {
    let mut ctx = setup_with_rom(&[
        0xC5, // PUSH BC
        0xC1, // POP BC
    ]);
    ctx.cpu.sp = 0xFFFE;
    ctx.cpu.set_bc(0x1234);

    ctx.step();
    assert_eq!(ctx.cpu.sp, 0xFFFC);

    ctx.cpu.set_bc(0x0000);
    ctx.step();
    assert_eq!(ctx.cpu.bc(), 0x1234);
    assert_eq!(ctx.cpu.sp, 0xFFFE);
}

#[test]
fn cpu_test_rlca() {
    let mut ctx = setup_with_rom(&[0x07]); // RLCA
    ctx.cpu.a = 0x85; // 10000101

    ctx.step();
    assert_eq!(ctx.cpu.a, 0x0B); // 00001011
    assert!(ctx.cpu.flag(FLAG_C));
}

#[test]
fn cpu_test_rrca() {
    let mut ctx = setup_with_rom(&[0x0F]); // RRCA
    ctx.cpu.a = 0x01;

    ctx.step();
    assert_eq!(ctx.cpu.a, 0x80);
    assert!(ctx.cpu.flag(FLAG_C));
}

#[test]
fn cpu_test_cb_swap() {
    let mut ctx = setup_with_rom(&[
        0xCB, 0x37, // SWAP A
    ]);
    ctx.cpu.a = 0xF0;

    ctx.step();
    assert_eq!(ctx.cpu.a, 0x0F);
}

#[test]
fn cpu_test_cb_bit() {
    let mut ctx = setup_with_rom(&[
        0xCB, 0x7F, // BIT 7, A
        0xCB, 0x47, // BIT 0, A
    ]);
    ctx.cpu.a = 0x80;

    ctx.step();
    assert!(!ctx.cpu.flag(FLAG_Z)); // Bit 7 is set

    ctx.step();
    assert!(ctx.cpu.flag(FLAG_Z)); // Bit 0 is not set
}

#[test]
fn cpu_test_halt() {
    let mut ctx = setup_with_rom(&[0x76]); // HALT
    ctx.step();
    assert!(ctx.cpu.halted);
}

#[test]
fn cpu_test_di_ei() {
    let mut ctx = setup_with_rom(&[
        0xF3, // DI
        0xFB, // EI
        0x00, // NOP
    ]);

    ctx.step();
    assert!(!ctx.cpu.ime);

    ctx.step();
    assert!(!ctx.cpu.ime); // Not yet enabled

    ctx.step();
    assert!(ctx.cpu.ime); // Now enabled after one instruction
}

#[test]
fn cpu_test_ld_hl_n() {
    let mut ctx = setup_with_rom(&[
        0x21, 0x00, 0xC0, // LD HL, 0xC000
        0x36, 0x42, // LD (HL), 0x42
    ]);
    ctx.step(); // LD HL
    assert_eq!(ctx.cpu.hl(), 0xC000);

    ctx.step(); // LD (HL), 0x42
    assert_eq!(ctx.bus.read(0xC000), 0x42);
}

#[test]
fn mod_test_initial_state() {
    let cpu = Cpu::new();
    assert_eq!(cpu.pc, 0x0100);
    assert_eq!(cpu.sp, 0xFFFE);
    assert_eq!(cpu.a, 0x01);
    assert!(!cpu.halted);
    assert!(cpu.ime);
}

#[test]
fn mod_test_nop() {
    let mut ctx = setup_with_rom(&[0x00]); // NOP
    let cycles = ctx.step();
    assert_eq!(cycles, 4);
    assert_eq!(ctx.cpu.pc, 0x0101);
}

#[test]
fn mod_test_ld_immediate_8bit() {
    let mut ctx = setup_with_rom(&[
        0x3E, 0x42, // LD A, 0x42
        0x06, 0x55, // LD B, 0x55
    ]);
    ctx.step();
    assert_eq!(ctx.cpu.a, 0x42);

    ctx.step();
    assert_eq!(ctx.cpu.b, 0x55);
}

#[test]
fn mod_test_ld_immediate_16bit() {
    let mut ctx = setup_with_rom(&[
        0x21, 0x34, 0x12, // LD HL, 0x1234
    ]);
    ctx.step();
    assert_eq!(ctx.cpu.hl(), 0x1234);
}

#[test]
fn mod_test_inc_dec_8bit() {
    let mut ctx = setup_with_rom(&[
        0x3C, // INC A
        0x3D, // DEC A
    ]);
    ctx.cpu.a = 0x0F;

    ctx.step();
    assert_eq!(ctx.cpu.a, 0x10);
    assert!(ctx.cpu.flag(FLAG_H)); // Half carry from 0x0F to 0x10

    ctx.step();
    assert_eq!(ctx.cpu.a, 0x0F);
}

#[test]
fn mod_test_inc_zero_flag() {
    let mut ctx = setup_with_rom(&[0x3C]); // INC A
    ctx.cpu.a = 0xFF;

    ctx.step();
    assert_eq!(ctx.cpu.a, 0x00);
    assert!(ctx.cpu.flag(FLAG_Z));
}

#[test]
fn mod_test_add() {
    let mut ctx = setup_with_rom(&[0x80]); // ADD A, B
    ctx.cpu.a = 0x3A;
    ctx.cpu.b = 0xC6;

    ctx.step();
    assert_eq!(ctx.cpu.a, 0x00);
    assert!(ctx.cpu.flag(FLAG_Z));
    assert!(ctx.cpu.flag(FLAG_H));
    assert!(ctx.cpu.flag(FLAG_C));
}

#[test]
fn mod_test_sub() {
    let mut ctx = setup_with_rom(&[0x90]); // SUB B
    ctx.cpu.a = 0x3E;
    ctx.cpu.b = 0x3E;

    ctx.step();
    assert_eq!(ctx.cpu.a, 0x00);
    assert!(ctx.cpu.flag(FLAG_Z));
    assert!(ctx.cpu.flag(FLAG_N));
}

#[test]
fn mod_test_and() {
    let mut ctx = setup_with_rom(&[0xA0]); // AND B
    ctx.cpu.a = 0x5A;
    ctx.cpu.b = 0x3F;

    ctx.step();
    assert_eq!(ctx.cpu.a, 0x1A);
    assert!(ctx.cpu.flag(FLAG_H));
    assert!(!ctx.cpu.flag(FLAG_C));
}

#[test]
fn mod_test_xor() {
    let mut ctx = setup_with_rom(&[0xAF]); // XOR A
    ctx.cpu.a = 0xFF;

    ctx.step();
    assert_eq!(ctx.cpu.a, 0x00);
    assert!(ctx.cpu.flag(FLAG_Z));
}

#[test]
fn mod_test_jp() {
    let mut ctx = setup_with_rom(&[
        0xC3, 0x00, 0x80, // JP 0x8000
    ]);
    ctx.step();
    assert_eq!(ctx.cpu.pc, 0x8000);
}

#[test]
fn mod_test_jr() {
    let mut ctx = setup_with_rom(&[
        0x18, 0x05, // JR +5
    ]);
    ctx.step();
    assert_eq!(ctx.cpu.pc, 0x0107); // 0x0102 + 5
}

#[test]
fn mod_test_call_ret() {
    // Put RET at 0x200 (offset 0x100 in the program)
    let mut rom_data = vec![0u8; 0x200];
    rom_data[0] = 0xCD; // CALL 0x200
    rom_data[1] = 0x00;
    rom_data[2] = 0x02;
    rom_data[0x100] = 0xC9; // RET at 0x200

    let mut ctx = setup_with_rom(&rom_data);
    ctx.cpu.sp = 0xFFFE;

    ctx.step();
    assert_eq!(ctx.cpu.pc, 0x0200);
    assert_eq!(ctx.cpu.sp, 0xFFFC);

    ctx.step();
    assert_eq!(ctx.cpu.pc, 0x0103);
    assert_eq!(ctx.cpu.sp, 0xFFFE);
}

#[test]
fn mod_test_push_pop() {
    let mut ctx = setup_with_rom(&[
        0xC5, // PUSH BC
        0xC1, // POP BC
    ]);
    ctx.cpu.sp = 0xFFFE;
    ctx.cpu.set_bc(0x1234);

    ctx.step();
    assert_eq!(ctx.cpu.sp, 0xFFFC);

    ctx.cpu.set_bc(0x0000);
    ctx.step();
    assert_eq!(ctx.cpu.bc(), 0x1234);
    assert_eq!(ctx.cpu.sp, 0xFFFE);
}

#[test]
fn mod_test_rlca() {
    let mut ctx = setup_with_rom(&[0x07]); // RLCA
    ctx.cpu.a = 0x85; // 10000101

    ctx.step();
    assert_eq!(ctx.cpu.a, 0x0B); // 00001011
    assert!(ctx.cpu.flag(FLAG_C));
}

#[test]
fn mod_test_rrca() {
    let mut ctx = setup_with_rom(&[0x0F]); // RRCA
    ctx.cpu.a = 0x01;

    ctx.step();
    assert_eq!(ctx.cpu.a, 0x80);
    assert!(ctx.cpu.flag(FLAG_C));
}

#[test]
fn mod_test_cb_swap() {
    let mut ctx = setup_with_rom(&[
        0xCB, 0x37, // SWAP A
    ]);
    ctx.cpu.a = 0xF0;

    ctx.step();
    assert_eq!(ctx.cpu.a, 0x0F);
}

#[test]
fn mod_test_cb_bit() {
    let mut ctx = setup_with_rom(&[
        0xCB, 0x7F, // BIT 7, A
        0xCB, 0x47, // BIT 0, A
    ]);
    ctx.cpu.a = 0x80;

    ctx.step();
    assert!(!ctx.cpu.flag(FLAG_Z)); // Bit 7 is set

    ctx.step();
    assert!(ctx.cpu.flag(FLAG_Z)); // Bit 0 is not set
}

#[test]
fn mod_test_halt() {
    let mut ctx = setup_with_rom(&[0x76]); // HALT
    ctx.step();
    assert!(ctx.cpu.halted);
}

#[test]
fn mod_test_di_ei() {
    let mut ctx = setup_with_rom(&[
        0xF3, // DI
        0xFB, // EI
        0x00, // NOP
    ]);

    ctx.step();
    assert!(!ctx.cpu.ime);

    ctx.step();
    assert!(!ctx.cpu.ime); // Not yet enabled

    ctx.step();
    assert!(ctx.cpu.ime); // Now enabled after one instruction
}

#[test]
fn mod_test_ld_hl_n() {
    let mut ctx = setup_with_rom(&[
        0x21, 0x00, 0xC0, // LD HL, 0xC000
        0x36, 0x42, // LD (HL), 0x42
    ]);
    ctx.step(); // LD HL
    assert_eq!(ctx.cpu.hl(), 0xC000);

    ctx.step(); // LD (HL), 0x42
    assert_eq!(ctx.bus.read(0xC000), 0x42);
}

// ---------------------------------------------------------------------------
// Further instruction tests
// ---------------------------------------------------------------------------

#[test]
fn nop_at_entry_takes_four_cycles() {
    let mut ctx = setup_with_rom(&[]);
    assert_eq!(ctx.cpu.pc, 0x0100);
    let cycles = ctx.step();
    assert_eq!(ctx.cpu.pc, 0x0101);
    assert_eq!(cycles, 4);
}

#[test]
fn add_a_b_sets_z_h_c_and_clears_n() {
    let mut ctx = setup_with_rom(&[0x80]);
    ctx.cpu.a = 0x3A;
    ctx.cpu.b = 0xC6;
    ctx.step();
    assert_eq!(ctx.cpu.a, 0x00);
    assert_eq!(ctx.cpu.f, 0xB0);
    assert!(!ctx.cpu.flag(FLAG_N));
}

#[test]
fn conditional_jr_taken_and_not_taken() {
    let mut ctx = setup_with_rom(&[0x28, 0x05]); // JR Z, +5
    ctx.cpu.f = 0x80;
    let cycles = ctx.step();
    assert_eq!(ctx.cpu.pc, 0x0107);
    assert_eq!(cycles, 12);

    let mut ctx = setup_with_rom(&[0x28, 0x05]);
    ctx.cpu.f = 0x00;
    let cycles = ctx.step();
    assert_eq!(ctx.cpu.pc, 0x0102);
    assert_eq!(cycles, 8);
}

#[test]
fn jr_backwards_wraps_the_offset() {
    let mut ctx = setup_with_rom(&[0x18, 0xFE]); // JR -2
    let cycles = ctx.step();
    assert_eq!(ctx.cpu.pc, 0x0100);
    assert_eq!(cycles, 12);
}

#[test]
fn conditional_call_and_ret_cycle_counts() {
    let mut ctx = setup_with_rom(&[0xC4, 0x00, 0x02]); // CALL NZ, 0x0200
    ctx.cpu.f = 0x00;
    assert_eq!(ctx.step(), 24);
    assert_eq!(ctx.cpu.pc, 0x0200);
    assert_eq!(ctx.bus.read(0xFFFC), 0x03);
    assert_eq!(ctx.bus.read(0xFFFD), 0x01);

    let mut ctx = setup_with_rom(&[0xC4, 0x00, 0x02]);
    ctx.cpu.f = 0x80;
    assert_eq!(ctx.step(), 12);
    assert_eq!(ctx.cpu.pc, 0x0103);

    let mut ctx = setup_with_rom(&[0xC0]); // RET NZ
    ctx.cpu.f = 0x80;
    assert_eq!(ctx.step(), 8);
    let mut ctx = setup_with_rom(&[0xC0]);
    ctx.cpu.f = 0x00;
    ctx.cpu.sp = 0xC000;
    ctx.bus.write(0xC000, 0x34);
    ctx.bus.write(0xC001, 0x12);
    assert_eq!(ctx.step(), 20);
    assert_eq!(ctx.cpu.pc, 0x1234);
    assert_eq!(ctx.cpu.sp, 0xC002);
}

#[test]
fn inc_keeps_carry_and_dec_sets_n() {
    let mut ctx = setup_with_rom(&[0x04, 0x05]); // INC B, DEC B
    ctx.cpu.b = 0xFF;
    ctx.cpu.f = 0x10;
    ctx.step();
    assert_eq!(ctx.cpu.b, 0x00);
    assert_eq!(ctx.cpu.f, 0x80 | 0x20 | 0x10);
    ctx.step();
    assert_eq!(ctx.cpu.b, 0xFF);
    assert_eq!(ctx.cpu.f, 0x40 | 0x20 | 0x10);
}

#[test]
fn adc_and_sbc_include_the_carry() {
    let mut ctx = setup_with_rom(&[0x88, 0x98]); // ADC A,B ; SBC A,B
    ctx.cpu.a = 0x0F;
    ctx.cpu.b = 0x00;
    ctx.cpu.f = 0x10;
    ctx.step();
    assert_eq!(ctx.cpu.a, 0x10);
    assert_eq!(ctx.cpu.f, 0x20);
    ctx.cpu.a = 0x00;
    ctx.cpu.b = 0xFF;
    ctx.cpu.f = 0x10;
    ctx.step();
    assert_eq!(ctx.cpu.a, 0x00);
    assert_eq!(ctx.cpu.f, 0x80 | 0x40 | 0x20 | 0x10);
}

#[test]
fn cp_leaves_a_alone() {
    let mut ctx = setup_with_rom(&[0xFE, 0x40]); // CP 0x40
    ctx.cpu.a = 0x3C;
    assert_eq!(ctx.step(), 8);
    assert_eq!(ctx.cpu.a, 0x3C);
    assert_eq!(ctx.cpu.f, 0x40 | 0x10);
}

#[test]
fn daa_after_addition_and_subtraction() {
    let mut ctx = setup_with_rom(&[0x27, 0x27]);
    ctx.cpu.a = 0x9A;
    ctx.cpu.f = 0x00;
    ctx.step();
    assert_eq!(ctx.cpu.a, 0x00);
    assert_eq!(ctx.cpu.f, 0x80 | 0x10);
    ctx.cpu.a = 0x0F;
    ctx.cpu.f = 0x40 | 0x20;
    ctx.step();
    assert_eq!(ctx.cpu.a, 0x09);
    assert_eq!(ctx.cpu.f, 0x40);
}

#[test]
fn add_hl_flags_come_from_bits_11_and_15() {
    let mut ctx = setup_with_rom(&[0x09]); // ADD HL,BC
    ctx.cpu.set_hl(0x8FFF);
    ctx.cpu.set_bc(0x8001);
    ctx.cpu.f = 0x80;
    assert_eq!(ctx.step(), 8);
    assert_eq!(ctx.cpu.hl(), 0x1000);
    assert_eq!(ctx.cpu.f, 0x80 | 0x20 | 0x10);
}

#[test]
fn add_sp_uses_low_byte_for_flags() {
    let mut ctx = setup_with_rom(&[0xE8, 0xFF, 0xF8, 0x01]); // ADD SP,-1 ; LD HL,SP+1
    ctx.cpu.sp = 0x0001;
    assert_eq!(ctx.step(), 16);
    assert_eq!(ctx.cpu.sp, 0x0000);
    assert_eq!(ctx.cpu.f, 0x20 | 0x10);
    ctx.cpu.sp = 0x00FF;
    assert_eq!(ctx.step(), 12);
    assert_eq!(ctx.cpu.hl(), 0x0100);
    assert_eq!(ctx.cpu.sp, 0x00FF);
    assert_eq!(ctx.cpu.f, 0x20 | 0x10);
}

#[test]
fn rotates_on_a_clear_z_but_cb_rotates_set_it() {
    let mut ctx = setup_with_rom(&[0x17, 0xCB, 0x10]); // RLA ; RL B
    ctx.cpu.a = 0x80;
    ctx.cpu.f = 0x00;
    ctx.step();
    assert_eq!(ctx.cpu.a, 0x00);
    assert_eq!(ctx.cpu.f, 0x10);
    ctx.cpu.b = 0x80;
    ctx.cpu.f = 0x00;
    assert_eq!(ctx.step(), 8);
    assert_eq!(ctx.cpu.b, 0x00);
    assert_eq!(ctx.cpu.f, 0x80 | 0x10);
}

#[test]
fn cb_page_on_hl_costs_more() {
    let mut ctx = setup_with_rom(&[0x21, 0x00, 0xC0, 0xCB, 0xC6, 0xCB, 0x46, 0xCB, 0x86]);
    ctx.step();
    assert_eq!(ctx.step(), 16); // SET 0,(HL)
    assert_eq!(ctx.bus.read(0xC000), 0x01);
    assert_eq!(ctx.step(), 12); // BIT 0,(HL)
    assert!(!ctx.cpu.flag(FLAG_Z));
    assert_eq!(ctx.step(), 16); // RES 0,(HL)
    assert_eq!(ctx.bus.read(0xC000), 0x00);
}

#[test]
fn cb_shifts() {
    let mut ctx = setup_with_rom(&[0xCB, 0x27, 0xCB, 0x2F, 0xCB, 0x3F]); // SLA A, SRA A, SRL A
    ctx.cpu.a = 0x81;
    ctx.step();
    assert_eq!(ctx.cpu.a, 0x02);
    assert_eq!(ctx.cpu.f, 0x10);
    ctx.cpu.a = 0x81;
    ctx.step();
    assert_eq!(ctx.cpu.a, 0xC0);
    assert_eq!(ctx.cpu.f, 0x10);
    ctx.cpu.a = 0x81;
    ctx.step();
    assert_eq!(ctx.cpu.a, 0x40);
    assert_eq!(ctx.cpu.f, 0x10);
}

#[test]
fn pop_af_drops_the_low_nibble_of_f() {
    let mut ctx = setup_with_rom(&[0xF1]); // POP AF
    ctx.cpu.sp = 0xC000;
    ctx.bus.write(0xC000, 0xFF);
    ctx.bus.write(0xC001, 0x12);
    assert_eq!(ctx.step(), 12);
    assert_eq!(ctx.cpu.a, 0x12);
    assert_eq!(ctx.cpu.f, 0xF0);
    assert_eq!(ctx.cpu.af(), 0x12F0);
}

#[test]
fn ei_then_di_leaves_interrupts_disabled() {
    let mut ctx = setup_with_rom(&[0xFB, 0xF3, 0x00]);
    ctx.cpu.ime = false;
    ctx.bus.write(0xFFFF, 0x01);
    ctx.bus.write(0xFF0F, 0x00);
    ctx.step();
    assert!(!ctx.cpu.ime);
    assert!(ctx.cpu.ime_pending);
    ctx.step();
    assert!(!ctx.cpu.ime);
    assert!(!ctx.cpu.ime_pending);
    ctx.bus.write(0xFF0F, 0x01); // a request after DI is not serviced
    assert_eq!(ctx.step(), 4);
    assert_eq!(ctx.cpu.pc, 0x0103);
}

#[test]
fn interrupt_service_follows_priority() {
    let mut ctx = setup_with_rom(&[0x00]);
    ctx.bus.write(0xFFFF, 0x1F);
    ctx.bus.write(0xFF0F, 0x14); // Timer and Joypad
    let cycles = ctx.step();
    assert_eq!(cycles, 20);
    assert_eq!(ctx.cpu.pc, 0x0050);
    assert!(!ctx.cpu.ime);
    assert_eq!(ctx.cpu.sp, 0xFFFC);
    assert_eq!(ctx.bus.read(0xFFFC), 0x00);
    assert_eq!(ctx.bus.read(0xFFFD), 0x01);
    assert_eq!(ctx.bus.read(0xFF0F), 0x10 | 0xE0);
}

#[test]
fn halt_idles_until_an_enabled_request() {
    let mut ctx = setup_with_rom(&[0x76, 0x3C]); // HALT ; INC A
    ctx.cpu.ime = false;
    ctx.bus.write(0xFFFF, 0x04);
    ctx.bus.write(0xFF0F, 0x00);
    ctx.step();
    assert!(ctx.cpu.halted);
    assert_eq!(ctx.step(), 4);
    assert_eq!(ctx.cpu.pc, 0x0101);
    ctx.bus.write(0xFF0F, 0x04);
    ctx.step();
    assert!(!ctx.cpu.halted);
    assert_eq!(ctx.cpu.a, 0x02);
}

#[test]
fn unimplemented_opcode_is_reported_and_changes_nothing() {
    for op in [0xD3u8, 0xDB, 0xDD, 0xE3, 0xE4, 0xEB, 0xEC, 0xED, 0xF4, 0xFC, 0xFD] {
        let mut ctx = setup_with_rom(&[op]);
        let r = ctx.cpu.step(&mut ctx.bus, &mut ctx.ic);
        assert_eq!(r, Err(EmuError::UnimplementedOpcode(op)));
        assert_eq!(ctx.cpu.pc, 0x0100);
        assert_eq!(ctx.cpu.instruction_count, 0);
    }
}

#[test]
fn every_implemented_opcode_takes_whole_machine_cycles_and_keeps_f_clean() {
    for op in 0u16..=255 {
        let op = op as u8;
        for cb in 0u16..=255 {
            let mut ctx = setup_with_rom(&[op, cb as u8, 0x00]);
            ctx.cpu.f = 0xF0;
            match ctx.cpu.step(&mut ctx.bus, &mut ctx.ic) {
                Ok(c) => {
                    assert_eq!(c % 4, 0);
                    assert!((4..=24).contains(&c));
                    assert_eq!(ctx.cpu.f & 0x0F, 0);
                }
                Err(e) => assert_eq!(e, EmuError::UnimplementedOpcode(op)),
            }
            if op != 0xCB {
                break;
            }
        }
    }
}

#[test]
fn stop_consumes_its_operand_and_halts_on_dmg() {
    let mut ctx = setup_with_rom(&[0x10, 0x00]);
    assert_eq!(ctx.step(), 4);
    assert_eq!(ctx.cpu.pc, 0x0102);
    assert!(ctx.cpu.halted);
}

#[test]
fn stop_switches_speed_on_cgb_when_armed() {
    let mut mem = Memory::new();
    let mut rom = vec![0u8; 0x8000];
    rom[0x100] = 0x10;
    mem.load_rom(&rom, true).unwrap();
    mem.write(0xFF4D, 0x01);
    let mut ctx = TestContext {
        cpu: Cpu::new(),
        bus: MemoryBus::new(mem, Timer::new(), Joypad::new()),
        ic: InterruptController::new(),
    };
    ctx.step();
    assert!(!ctx.cpu.halted);
    assert!(ctx.bus.memory.is_double_speed());
    assert_eq!(ctx.bus.read(0xFF4D) & 0x81, 0x80);
}

#[test]
fn ldh_and_indirect_loads() {
    let mut ctx = setup_with_rom(&[0xE0, 0x80, 0xF0, 0x80, 0x22, 0x3A, 0x08, 0x00, 0xC1]);
    ctx.cpu.a = 0x77;
    assert_eq!(ctx.step(), 12); // LDH (0x80),A
    assert_eq!(ctx.bus.read(0xFF80), 0x77);
    ctx.cpu.a = 0;
    assert_eq!(ctx.step(), 12); // LDH A,(0x80)
    assert_eq!(ctx.cpu.a, 0x77);
    ctx.cpu.set_hl(0xC000);
    assert_eq!(ctx.step(), 8); // LD (HL+),A
    assert_eq!(ctx.cpu.hl(), 0xC001);
    assert_eq!(ctx.bus.read(0xC000), 0x77);
    assert_eq!(ctx.step(), 8); // LD A,(HL-)
    assert_eq!(ctx.cpu.hl(), 0xC000);
    ctx.cpu.sp = 0xBEEF;
    assert_eq!(ctx.step(), 20); // LD (0xC100),SP
    assert_eq!(ctx.bus.read(0xC100), 0xEF);
    assert_eq!(ctx.bus.read(0xC101), 0xBE);
}

#[test]
fn rst_pushes_and_jumps() {
    let mut ctx = setup_with_rom(&[0xEF]); // RST 0x28
    assert_eq!(ctx.step(), 16);
    assert_eq!(ctx.cpu.pc, 0x0028);
    assert_eq!(ctx.cpu.sp, 0xFFFC);
}

#[test]
fn set_flag_and_flag_agree() {
    let mut cpu = Cpu::new();
    cpu.f = 0;
    cpu.set_flag(FLAG_Z, true);
    cpu.set_flag(FLAG_C, true);
    assert_eq!(cpu.f, 0x90);
    assert!(cpu.flag(FLAG_Z));
    assert!(!cpu.flag(FLAG_N));
    cpu.set_flag(FLAG_Z, false);
    assert_eq!(cpu.f, 0x10);
    let state = cpu.get_debug_state();
    assert_eq!(state.bc, 0x0013);
    assert_eq!(state.de, 0x00D8);
    assert_eq!(state.hl, 0x014D);
    assert_eq!(state.sp, 0xFFFE);
}
