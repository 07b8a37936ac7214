use lib::bus::MemoryBus;
use lib::cpu::{StepError, StepOutcome, CPU};
use lib::instr::{decode, decode_cb, CbInstr, Cond, Instr, Operand};
use lib::registers::{Pair, Reg};

fn cpu_with_program(program: &[u8]) -> CPU {
    let mut image = vec![0u8; 0x8000];
    image[0x100..0x100 + program.len()].copy_from_slice(program);
    let mut bus = MemoryBus::new();
    bus.load_rom(&image);
    CPU::new(bus)
}

#[test]
fn new_cpu_starts_at_the_entry_point() {
    let cpu = CPU::new(MemoryBus::new());
    assert_eq!(cpu.pc, 0x0100);
    assert_eq!(cpu.sp, 0xDFFF);
    assert!(!cpu.ime);
    assert_eq!(cpu.registers.f, 0);
}

#[test]
fn decode_tables() {
    assert_eq!(decode(0x00), Some(Instr::Nop));
    assert_eq!(decode(0x80), Some(Instr::Add(Operand::Reg(Reg::B))));
    assert_eq!(decode(0x86), Some(Instr::Add(Operand::AtHl)));
    assert_eq!(decode(0xC6), Some(Instr::Add(Operand::Imm)));
    assert_eq!(decode(0x41), Some(Instr::Load(Reg::B, Reg::C)));
    assert_eq!(decode(0x76), Some(Instr::Halt));
    assert_eq!(decode(0x20), Some(Instr::JrIf(Cond::NotZero)));
    assert_eq!(decode(0xE1), Some(Instr::Pop(Pair::HL)));
    assert_eq!(decode(0x08), None);
    assert_eq!(decode(0xD3), None);
    assert_eq!(decode_cb(0x37), Some(CbInstr::Swap(Reg::A)));
    assert_eq!(decode_cb(0x7C), Some(CbInstr::Bit7H));
    assert_eq!(decode_cb(0x00), None);
}

#[test]
fn add_sets_all_flags() {
    let mut cpu = cpu_with_program(&[0x80]);
    cpu.registers.a = 0x3A;
    cpu.registers.b = 0xC6;
    let out = cpu.step();
    assert_eq!(out, StepOutcome { instr: Instr::Add(Operand::Reg(Reg::B)), serial: None, branch_not_taken: false });
    assert_eq!(cpu.registers.a, 0x00);
    assert_eq!(cpu.registers.f, 0xB0);
    assert_eq!(cpu.pc, 0x0101);
}

#[test]
fn add_immediate_moves_past_the_operand() {
    let mut cpu = cpu_with_program(&[0xC6, 0x05]);
    cpu.registers.a = 0x0B;
    cpu.step();
    assert_eq!(cpu.registers.a, 0x10);
    assert_eq!(cpu.registers.f, 0x20);
    assert_eq!(cpu.pc, 0x0102);
}

#[test]
fn sub_and_compare() {
    let mut cpu = cpu_with_program(&[0x93, 0xB8, 0x97]);
    cpu.registers.a = 0x3E;
    cpu.registers.e = 0x40;
    cpu.registers.b = 0xFE;
    cpu.step();
    assert_eq!(cpu.registers.a, 0xFE);
    assert_eq!(cpu.registers.f, 0x50);
    cpu.step();
    assert_eq!(cpu.registers.a, 0xFE);
    assert_eq!(cpu.registers.f, 0xC0);
    cpu.step();
    assert_eq!(cpu.registers.a, 0x00);
    assert_eq!(cpu.registers.f, 0xC0);
}

#[test]
fn inc_and_dec_half_carry() {
    let mut cpu = cpu_with_program(&[0x04, 0x05, 0x05]);
    cpu.registers.b = 0x0F;
    cpu.registers.f = 0x10;
    cpu.step();
    assert_eq!(cpu.registers.b, 0x10);
    assert_eq!(cpu.registers.f, 0x30);
    cpu.step();
    assert_eq!(cpu.registers.b, 0x0F);
    assert_eq!(cpu.registers.f, 0x50);
    cpu.step();
    assert_eq!(cpu.registers.b, 0x0E);
    assert_eq!(cpu.registers.f, 0x70);
}

#[test]
fn load_b_immediate_does_not_move_past_its_operand() {
    let mut cpu = cpu_with_program(&[0x06, 0x42]);
    cpu.registers.d = 0x99;
    cpu.step();
    assert_eq!(cpu.registers.b, 0x42);
    assert_eq!(cpu.pc, 0x0101);
    let out = cpu.step();
    assert_eq!(out.instr, Instr::Load(Reg::B, Reg::D));
    assert_eq!(cpu.registers.b, 0x99);
}

#[test]
fn relative_jump_backwards() {
    let mut cpu = cpu_with_program(&[0x18, 0xFE]);
    cpu.step();
    assert_eq!(cpu.pc, 0x0100);
}

#[test]
fn conditional_relative_jump() {
    let mut cpu = cpu_with_program(&[0x20, 0x05, 0x20, 0x05]);
    cpu.step();
    assert_eq!(cpu.pc, 0x0107);
    let mut cpu = cpu_with_program(&[0x20, 0x05]);
    cpu.registers.f = 0x80;
    cpu.step();
    assert_eq!(cpu.pc, 0x0102);
}

#[test]
fn call_then_ret_returns_past_the_call() {
    let mut program = vec![0u8; 0x60];
    program[0] = 0xCD;
    program[1] = 0x50;
    program[2] = 0x01;
    program[0x50] = 0xC9;
    let mut cpu = cpu_with_program(&program);
    cpu.step();
    assert_eq!(cpu.pc, 0x0150);
    assert_eq!(cpu.sp, 0xDFFD);
    assert_eq!(cpu.bus.read_byte(0xDFFE), 0x01);
    assert_eq!(cpu.bus.read_byte(0xDFFD), 0x03);
    cpu.step();
    assert_eq!(cpu.pc, 0x0103);
    assert_eq!(cpu.sp, 0xDFFF);
}

#[test]
fn push_then_pop_moves_a_pair() {
    let mut cpu = cpu_with_program(&[0xC5, 0xD1]);
    cpu.registers.set_bc(0x1234);
    cpu.step();
    assert_eq!(cpu.sp, 0xDFFD);
    cpu.step();
    assert_eq!(cpu.registers.get_de(), 0x1234);
    assert_eq!(cpu.sp, 0xDFFF);
}

#[test]
fn pop_af_clears_the_low_nibble_and_rebuilds_flags() {
    let mut cpu = cpu_with_program(&[0x01, 0xFF, 0x12, 0xC5, 0xF1]);
    cpu.step();
    cpu.step();
    cpu.step();
    assert_eq!(cpu.registers.a, 0x12);
    assert_eq!(cpu.registers.f, 0x30);
}

#[test]
fn push_af_keeps_only_the_flag_bits() {
    let mut cpu = cpu_with_program(&[0xF5, 0xC1]);
    cpu.registers.a = 0x77;
    cpu.registers.f = 0xAF;
    cpu.step();
    cpu.step();
    assert_eq!(cpu.registers.b, 0x77);
    assert_eq!(cpu.registers.c, 0xA0);
}

#[test]
fn xor_a_clears_a_and_sets_only_zero() {
    let mut cpu = cpu_with_program(&[0xAF]);
    cpu.registers.a = 0x5A;
    cpu.registers.f = 0x7F;
    cpu.step();
    assert_eq!(cpu.registers.a, 0);
    assert_eq!(cpu.registers.f, 0x80);
}

#[test]
fn high_page_store_to_serial_control_sends_a_byte() {
    let mut cpu = cpu_with_program(&[0x3E, 0x81, 0xE0, 0x02]);
    assert_eq!(cpu.step().serial, None);
    let out = cpu.step();
    assert_eq!(out.instr, Instr::StoreHigh);
    assert_eq!(out.serial, Some(0x00));
}

#[test]
fn high_page_load_and_store() {
    let mut cpu = cpu_with_program(&[0xE0, 0x80, 0x3E, 0x00, 0xF0, 0x80]);
    cpu.registers.a = 0x66;
    cpu.step();
    assert_eq!(cpu.bus.read_byte(0xFF80), 0x66);
    cpu.step();
    cpu.step();
    assert_eq!(cpu.registers.a, 0x66);
}

#[test]
fn stores_through_hl_move_hl() {
    let mut cpu = cpu_with_program(&[0x22, 0x32, 0x2A]);
    cpu.registers.set_hl(0xC010);
    cpu.registers.a = 0x5C;
    cpu.step();
    assert_eq!(cpu.bus.read_byte(0xC010), 0x5C);
    assert_eq!(cpu.registers.get_hl(), 0xC011);
    cpu.step();
    assert_eq!(cpu.bus.read_byte(0xC011), 0x5C);
    assert_eq!(cpu.registers.get_hl(), 0xC010);
    cpu.registers.a = 0;
    cpu.step();
    assert_eq!(cpu.registers.a, 0x5C);
    assert_eq!(cpu.registers.get_hl(), 0xC011);
}

#[test]
fn absolute_store_skips_an_extra_byte() {
    let mut cpu = cpu_with_program(&[0xEA, 0x00, 0xC1]);
    cpu.registers.a = 0x3C;
    cpu.step();
    assert_eq!(cpu.bus.read_byte(0xC100), 0x3C);
    assert_eq!(cpu.pc, 0x0104);
}

#[test]
fn cb_swap_srl_and_rr() {
    let mut cpu = cpu_with_program(&[0xCB, 0x37, 0xCB, 0x3F, 0xCB, 0x18]);
    cpu.registers.a = 0xF1;
    let out = cpu.step();
    assert_eq!(out.instr, Instr::Prefix);
    assert_eq!(cpu.registers.a, 0x1F);
    assert_eq!(cpu.registers.f, 0x00);
    assert_eq!(cpu.pc, 0x0102);
    cpu.registers.a = 0x03;
    cpu.step();
    assert_eq!(cpu.registers.a, 0x01);
    assert_eq!(cpu.registers.f, 0x10);
    cpu.registers.b = 0x01;
    cpu.step();
    assert_eq!(cpu.registers.b, 0x80);
    assert_eq!(cpu.registers.f, 0x10);
}

#[test]
fn cb_bit_7_of_h() {
    let mut cpu = cpu_with_program(&[0xCB, 0x7C, 0xCB, 0x7C]);
    cpu.registers.h = 0x7F;
    cpu.registers.f = 0x50;
    cpu.step();
    assert_eq!(cpu.registers.f, 0xB0);
    cpu.registers.h = 0x80;
    cpu.step();
    assert_eq!(cpu.registers.f, 0x30);
}

#[test]
fn cb_prefix_by_opcode() {
    let mut cpu = cpu_with_program(&[]);
    cpu.registers.c = 0x12;
    let out = cpu.execute_cb_prefix(0x31);
    assert_eq!(out, None);
    assert_eq!(cpu.registers.c, 0x21);
}

#[test]
fn stop_skips_a_byte() {
    let mut cpu = cpu_with_program(&[0x10, 0x00, 0x00]);
    let out = cpu.step();
    assert_eq!(out.instr, Instr::Stop);
    assert_eq!(cpu.pc, 0x0102);
}

#[test]
fn interrupt_enable_and_disable() {
    let mut cpu = cpu_with_program(&[0xFB, 0xF3]);
    cpu.step();
    assert!(cpu.ime);
    cpu.step();
    assert!(!cpu.ime);
}

#[test]
fn unknown_opcode_is_reported_and_changes_nothing() {
    let mut cpu = cpu_with_program(&[0x08]);
    assert_eq!(cpu.try_step(), Err(StepError::UnknownOpcode(0x08)));
    assert_eq!(cpu.pc, 0x0100);
}

#[test]
fn unknown_prefixed_opcode_is_reported() {
    let mut cpu = cpu_with_program(&[0xCB, 0x00]);
    assert_eq!(cpu.try_step(), Err(StepError::UnknownCbOpcode(0x00)));
    assert_eq!(cpu.pc, 0x0100);
}

#[test]
fn program_counter_overflow_is_reported() {
    let mut cpu = cpu_with_program(&[]);
    cpu.pc = 0xFFFF;
    assert_eq!(cpu.try_step(), Err(StepError::ProgramCounterOverflow));
    let mut cpu = cpu_with_program(&[]);
    cpu.bus.write_byte(0xFFFE, 0xC3);
    cpu.pc = 0xFFFE;
    assert_eq!(cpu.try_step(), Err(StepError::ProgramCounterOverflow));
}

#[test]
fn stack_overflow_is_reported() {
    let mut cpu = cpu_with_program(&[0xC5]);
    cpu.sp = 1;
    assert_eq!(cpu.try_step(), Err(StepError::StackOverflow));
    assert_eq!(cpu.sp, 1);
}

#[test]
fn try_step_runs_a_valid_instruction() {
    let mut cpu = cpu_with_program(&[0x3E, 0x07]);
    let out = cpu.try_step();
    assert_eq!(out, Ok(StepOutcome { instr: Instr::LoadImm(Reg::A), serial: None, branch_not_taken: false }));
    assert_eq!(cpu.registers.a, 0x07);
}

#[test]
fn read_next_word_is_little_endian() {
    let mut cpu = cpu_with_program(&[0x34, 0x12]);
    assert_eq!(cpu.read_next_u16(), 0x1234);
    assert_eq!(cpu.pc, 0x0102);
}

#[test]
fn push_and_pop_words_directly() {
    let mut cpu = cpu_with_program(&[]);
    assert_eq!(cpu.push_u16(0xABCD), None);
    assert_eq!(cpu.sp, 0xDFFD);
    assert_eq!(cpu.pop_u16(), 0xABCD);
    assert_eq!(cpu.sp, 0xDFFF);
}

#[test]
fn rom_is_unchanged_by_a_store_into_it() {
    let mut cpu = cpu_with_program(&[0x77]);
    cpu.registers.set_hl(0x0100);
    cpu.registers.a = 0xEE;
    cpu.step();
    assert_eq!(cpu.bus.read_byte(0x0100), 0x77);
}

#[test]
fn untaken_conditional_branches_are_reported() {
    let mut cpu = cpu_with_program(&[0xC0, 0xCA, 0x00, 0x02, 0xD8, 0xC4, 0x00, 0x02, 0x20, 0x00]);
    cpu.registers.f = 0x80;
    let out = cpu.step();
    assert!(out.branch_not_taken);
    assert_eq!(cpu.sp, 0xDFFF);
    let out = cpu.step();
    assert!(!out.branch_not_taken);
    assert_eq!(cpu.pc, 0x0200);
    let mut cpu = cpu_with_program(&[0xD8, 0xC4, 0x00, 0x02, 0x20, 0x00, 0xCA, 0x00, 0x02]);
    assert!(!cpu.step().branch_not_taken);
    let out = cpu.step();
    assert!(!out.branch_not_taken);
    assert_eq!(cpu.pc, 0x0200);
    let mut cpu = cpu_with_program(&[0x20, 0x00, 0xCA, 0x00, 0x02]);
    assert!(!cpu.step().branch_not_taken);
    assert!(cpu.step().branch_not_taken);
    assert_eq!(cpu.pc, 0x0105);
}
