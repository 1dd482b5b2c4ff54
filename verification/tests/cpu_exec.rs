use retro6502::addressing_mode::AddressingMode;
use retro6502::cpu::{Flag, MOS6502};
use retro6502::instruction::{Instr, Instruction};
use retro6502::memory::{Endian, Memory, MemoryManager, Region};
use retro6502::ram::RAM;

fn fresh() -> (MOS6502, MemoryManager) {
    let mut mm = MemoryManager::new(0xFFFF);
    mm.map(0, Region::Ram(RAM::new(0x10000, Endian::Little)));
    let mut cpu = MOS6502::new();
    cpu.reset(&mm);
    (cpu, mm)
}

/// Loads `bytes` at address 0, runs one instruction, and returns it with
/// its measured cycle count in place of the counted-down budget.
fn exec(cpu: &mut MOS6502, mem: &mut MemoryManager, bytes: &[u8]) -> (Instruction, usize) {
    let start = cpu.cycles;
    for (i, b) in bytes.iter().enumerate() {
        mem.write(i, *b);
    }
    let instr = cpu.step(mem);
    (instr, cpu.cycles - start)
}

#[test]
fn cpu_reset() {
    let mut mm = MemoryManager::new(0xFFFF);
    mm.map(0, Region::Ram(RAM::new(0x10000, Endian::Little)));
    mm.write_word(0xFFFC, 0xABCD);
    let mut cpu = MOS6502::new();
    cpu.reset(&mm);
    assert_eq!(cpu.a, 0);
    assert_eq!(cpu.x, 0);
    assert_eq!(cpu.y, 0);
    assert_eq!(cpu.sp, 0xFD);
    assert_eq!(cpu.pc, 0xABCD);
    assert_eq!(cpu.status, 0x04);
    assert_eq!(cpu.cycles, 0);
    assert_eq!(cpu.steps, 0);
    assert!(cpu.get_flag(Flag::I));
    assert!(cpu.current.is_none());
}

#[test]
fn instr_lda_imm() {
    let (mut cpu, mut mem) = fresh();
    let (i, c) = exec(&mut cpu, &mut mem, &[0xA9, 0xFF]);
    assert_eq!(i.instr, Instr::LDA);
    assert_eq!(i.addrmode, AddressingMode::Immediate(0xFF));
    assert_eq!(c, 2);
    assert_eq!(cpu.a, 0xFF);
    assert!(cpu.get_flag(Flag::N));
    assert!(!cpu.get_flag(Flag::Z));
    assert_eq!(cpu.pc, 0x0002);
}

#[test]
fn instr_lda_abs() {
    let (mut cpu, mut mem) = fresh();
    mem.write(0xBEEF, 0xFA);
    let (i, c) = exec(&mut cpu, &mut mem, &[0xAD, 0xEF, 0xBE]);
    assert_eq!(i.instr, Instr::LDA);
    assert_eq!(i.addrmode, AddressingMode::Absolute(0xBEEF));
    assert_eq!(c, 4);
    assert_eq!(cpu.a, 0xFA);
}

#[test]
fn instr_lda_abs_x() {
    let (mut cpu, mut mem) = fresh();
    mem.write(0xBEEF, 0xFA);
    cpu.x = 0xEF;
    let (i, c) = exec(&mut cpu, &mut mem, &[0xBD, 0x00, 0xBE]);
    assert_eq!(i.addrmode, AddressingMode::AbsoluteX(0xBE00));
    assert_eq!(c, 4);
    assert_eq!(cpu.a, 0xFA);
}

#[test]
fn instr_lda_abs_x_page_boundary() {
    let (mut cpu, mut mem) = fresh();
    mem.write(0xBEEF, 0xFA);
    cpu.x = 0xF0;
    let (i, c) = exec(&mut cpu, &mut mem, &[0xBD, 0xFF, 0xBD]);
    assert_eq!(i.instr, Instr::LDA);
    assert_eq!(i.addrmode, AddressingMode::AbsoluteX(0xBDFF));
    assert_eq!(c, 5);
    assert_eq!(cpu.a, 0xFA);
}

#[test]
fn instr_lda_abs_y() {
    let (mut cpu, mut mem) = fresh();
    mem.write(0xBEEF, 0xFA);
    cpu.y = 0xEF;
    let (i, c) = exec(&mut cpu, &mut mem, &[0xB9, 0x00, 0xBE]);
    assert_eq!(i.addrmode, AddressingMode::AbsoluteY(0xBE00));
    assert_eq!(c, 4);
    assert_eq!(cpu.a, 0xFA);
}

#[test]
fn instr_lda_abs_y_page_boundary() {
    let (mut cpu, mut mem) = fresh();
    mem.write(0xBEEF, 0xFA);
    cpu.y = 0xF0;
    let (i, c) = exec(&mut cpu, &mut mem, &[0xB9, 0xFF, 0xBD]);
    assert_eq!(i.addrmode, AddressingMode::AbsoluteY(0xBDFF));
    assert_eq!(c, 5);
    assert_eq!(cpu.a, 0xFA);
}

#[test]
fn instr_lda_zero() {
    let (mut cpu, mut mem) = fresh();
    mem.write(0xEF, 0xFA);
    let (i, c) = exec(&mut cpu, &mut mem, &[0xA5, 0xEF]);
    assert_eq!(i.addrmode, AddressingMode::ZeroPage(0xEF));
    assert_eq!(c, 3);
    assert_eq!(cpu.a, 0xFA);
}

#[test]
fn instr_lda_zero_x() {
    let (mut cpu, mut mem) = fresh();
    mem.write(0x10, 0xFA);
    cpu.x = 0x11;
    let (i, c) = exec(&mut cpu, &mut mem, &[0xB5, 0xFF]);
    assert_eq!(i.addrmode, AddressingMode::ZeroPageX(0xFF));
    assert_eq!(c, 4);
    assert_eq!(cpu.a, 0xFA);
}

#[test]
fn instr_lda_indirect_x() {
    let (mut cpu, mut mem) = fresh();
    mem.write(0xBEEF, 0xFA);
    mem.write(0x20, 0xEF);
    mem.write(0x21, 0xBE);
    cpu.x = 0x10;
    let (i, c) = exec(&mut cpu, &mut mem, &[0xA1, 0x10]);
    assert_eq!(i.instr, Instr::LDA);
    assert_eq!(i.addrmode, AddressingMode::IndirectX(0x10));
    assert_eq!(c, 6);
    assert_eq!(cpu.a, 0xFA);
}

#[test]
fn instr_lda_indirect_y() {
    let (mut cpu, mut mem) = fresh();
    mem.write(0xBEEF, 0xFA);
    mem.write(0x10, 0xE0);
    mem.write(0x11, 0xBE);
    cpu.y = 0x0F;
    let (i, c) = exec(&mut cpu, &mut mem, &[0xB1, 0x10]);
    assert_eq!(i.addrmode, AddressingMode::IndirectY(0x10));
    assert_eq!(c, 5);
    assert_eq!(cpu.a, 0xFA);
}

#[test]
fn instr_lda_indirect_y_page_boundary() {
    let (mut cpu, mut mem) = fresh();
    mem.write(0xBEEF, 0xFA);
    mem.write(0x10, 0xF0);
    mem.write(0x11, 0xBD);
    cpu.y = 0xFF;
    let (i, c) = exec(&mut cpu, &mut mem, &[0xB1, 0x10]);
    assert_eq!(i.addrmode, AddressingMode::IndirectY(0x10));
    assert_eq!(c, 6);
    assert_eq!(cpu.a, 0xFA);
}

#[test]
fn instr_ldx_imm() {
    let (mut cpu, mut mem) = fresh();
    let (i, c) = exec(&mut cpu, &mut mem, &[0xA2, 0xFF]);
    assert_eq!(i.instr, Instr::LDX);
    assert_eq!(i.addrmode, AddressingMode::Immediate(0xFF));
    assert_eq!(c, 2);
    assert_eq!(cpu.x, 0xFF);
}

#[test]
fn instr_ldx_abs() {
    let (mut cpu, mut mem) = fresh();
    mem.write(0xBEEF, 0xFA);
    let (i, c) = exec(&mut cpu, &mut mem, &[0xAE, 0xEF, 0xBE]);
    assert_eq!(i.instr, Instr::LDX);
    assert_eq!(i.addrmode, AddressingMode::Absolute(0xBEEF));
    assert_eq!(c, 4);
    assert_eq!(cpu.x, 0xFA);
}

#[test]
fn instr_ldx_zero() {
    let (mut cpu, mut mem) = fresh();
    mem.write(0xEF, 0xFA);
    let (i, c) = exec(&mut cpu, &mut mem, &[0xA6, 0xEF]);
    assert_eq!(i.instr, Instr::LDX);
    assert_eq!(i.addrmode, AddressingMode::ZeroPage(0xEF));
    assert_eq!(c, 3);
    assert_eq!(cpu.x, 0xFA);
}

#[test]
fn instr_ldx_zero_y() {
    let (mut cpu, mut mem) = fresh();
    mem.write(0x20, 0xFA);
    cpu.y = 0x10;
    let (i, c) = exec(&mut cpu, &mut mem, &[0xB6, 0x10]);
    assert_eq!(i.instr, Instr::LDX);
    assert_eq!(i.addrmode, AddressingMode::ZeroPageY(0x10));
    assert_eq!(c, 4);
    assert_eq!(cpu.x, 0xFA);
}

#[test]
fn jsr_and_rts_round_trip() {
    let (mut cpu, mut mem) = fresh();
    mem.write(0x0000, 0x20);
    mem.write(0x0001, 0x34);
    mem.write(0x0002, 0x12);
    mem.write(0x1234, 0x60);
    let start = cpu.cycles;
    let i1 = cpu.step(&mut mem);
    assert_eq!(i1.instr, Instr::JSR);
    assert_eq!(cpu.pc, 0x1234);
    let i2 = cpu.step(&mut mem);
    assert_eq!(i2.instr, Instr::RTS);
    assert_eq!(cpu.pc, 0x0003);
    assert_eq!(cpu.sp, 0xFD);
    assert_eq!(cpu.cycles - start, 12);
}

#[test]
fn branch_taken_cross_page_pays_two_extra() {
    let mut mm = MemoryManager::new(0xFFFF);
    mm.map(0, Region::Ram(RAM::new(0x10000, Endian::Little)));
    mm.write(0x00FE, 0xF0);
    mm.write(0x00FF, 0x02);
    mm.write_word(0xFFFC, 0x00FE);
    let mut cpu = MOS6502::new();
    cpu.reset(&mm);
    cpu.set_flag(Flag::Z, true);
    let start = cpu.cycles;
    let i = cpu.step(&mut mm);
    assert_eq!(i.instr, Instr::BEQ);
    assert_eq!(cpu.cycles - start, 4);
    assert_eq!(cpu.pc, 0x0102);
}

#[test]
fn branch_not_taken_costs_base_cycles() {
    let mut mm = MemoryManager::new(0xFFFF);
    mm.map(0, Region::Ram(RAM::new(0x10000, Endian::Little)));
    mm.write(0x00FE, 0xF0);
    mm.write(0x00FF, 0x02);
    mm.write_word(0xFFFC, 0x00FE);
    let mut cpu = MOS6502::new();
    cpu.reset(&mm);
    cpu.set_flag(Flag::Z, false);
    let start = cpu.cycles;
    let i = cpu.step(&mut mm);
    assert_eq!(i.instr, Instr::BEQ);
    assert_eq!(cpu.cycles - start, 2);
    assert_eq!(cpu.pc, 0x0100);
}

#[test]
fn push_pop_identity() {
    let (mut cpu, mut mem) = fresh();
    let sp0 = cpu.sp;
    cpu.push(&mut mem, 0x5A);
    assert_eq!(cpu.sp, sp0.wrapping_sub(1));
    let v = cpu.pop(&mut mem);
    assert_eq!(v, 0x5A);
    assert_eq!(cpu.sp, sp0);
}

#[test]
fn push_word_pop_word_identity() {
    let (mut cpu, mut mem) = fresh();
    let sp0 = cpu.sp;
    cpu.push_word(&mut mem, 0xBEEF);
    let w = cpu.pop_word(&mut mem);
    assert_eq!(w, 0xBEEF);
    assert_eq!(cpu.sp, sp0);
}

#[test]
fn sp_wraps_without_panic() {
    let (mut cpu, mut mem) = fresh();
    cpu.sp = 0x00;
    cpu.push(&mut mem, 0x11);
    assert_eq!(cpu.sp, 0xFF);
    let v = cpu.pop(&mut mem);
    assert_eq!(v, 0x11);
    assert_eq!(cpu.sp, 0x00);
}

#[test]
fn pc_wraps_without_panic() {
    let (mut cpu, mut mem) = fresh();
    cpu.pc = 0xFFFF;
    let _ = cpu.fetch(&mem);
    assert_eq!(cpu.pc, 0x0000);
}

#[test]
fn unknown_opcode_retires_as_unk() {
    let (mut cpu, mut mem) = fresh();
    // 0x02 sits in an undocumented column of the opcode grid
    let (i, c) = exec(&mut cpu, &mut mem, &[0x02]);
    assert_eq!(i.instr, Instr::UNK);
    assert_eq!(i.addrmode, AddressingMode::Implied());
    assert_eq!(i.bytes, vec![0x02u8]);
    // a zero-budget instruction still consumes the tick that retires it
    assert_eq!(c, 1);
    assert_eq!(cpu.pc, 0x0001);
}

#[test]
fn adc_adds_carry_and_sets_overflow() {
    let (mut cpu, mut mem) = fresh();
    cpu.a = 0x50;
    cpu.set_flag(Flag::C, true);
    // ADC #$50: 0x50 + 0x50 + 1
    let (_i, _c) = exec(&mut cpu, &mut mem, &[0x69, 0x50]);
    assert_eq!(cpu.a, 0xA1);
    assert!(cpu.get_flag(Flag::V));
    assert!(!cpu.get_flag(Flag::C));
    assert!(cpu.get_flag(Flag::N));
}

#[test]
fn sbc_subtracts_with_borrow() {
    let (mut cpu, mut mem) = fresh();
    cpu.a = 0x10;
    cpu.set_flag(Flag::C, true);
    // SBC #$01 with carry set: no borrow
    let (_i, _c) = exec(&mut cpu, &mut mem, &[0xE9, 0x01]);
    assert_eq!(cpu.a, 0x0F);
    assert!(cpu.get_flag(Flag::C));
}

#[test]
fn cmp_sets_carry_when_a_not_below_operand() {
    let (mut cpu, mut mem) = fresh();
    cpu.a = 0x40;
    let (_i, _c) = exec(&mut cpu, &mut mem, &[0xC9, 0x40]);
    assert!(cpu.get_flag(Flag::C));
    assert!(cpu.get_flag(Flag::Z));
    let (mut cpu2, mut mem2) = fresh();
    cpu2.a = 0x3F;
    let (_i2, _c2) = exec(&mut cpu2, &mut mem2, &[0xC9, 0x40]);
    assert!(!cpu2.get_flag(Flag::C));
}

#[test]
fn lsr_shifts_low_bit_into_carry() {
    let (mut cpu, mut mem) = fresh();
    cpu.a = 0x03;
    // LSR A
    let (_i, c) = exec(&mut cpu, &mut mem, &[0x4A]);
    assert_eq!(cpu.a, 0x01);
    assert!(cpu.get_flag(Flag::C));
    assert_eq!(c, 2);
}

#[test]
fn bit_reads_flags_from_memory() {
    let (mut cpu, mut mem) = fresh();
    mem.write(0x40, 0xC0);
    cpu.a = 0x00;
    // BIT $40
    let (_i, _c) = exec(&mut cpu, &mut mem, &[0x24, 0x40]);
    assert!(cpu.get_flag(Flag::Z));
    assert!(cpu.get_flag(Flag::N));
    assert!(cpu.get_flag(Flag::V));
}

#[test]
fn inc_memory_with_index() {
    let (mut cpu, mut mem) = fresh();
    cpu.x = 0x05;
    mem.write(0x15, 0xFF);
    // INC $10,X: wraps 0xFF to 0x00 and sets the zero flag
    let (_i, c) = exec(&mut cpu, &mut mem, &[0xF6, 0x10]);
    assert_eq!(mem.read(0x15), 0x00);
    assert!(cpu.get_flag(Flag::Z));
    assert_eq!(c, 6);
}

#[test]
fn brk_takes_the_interrupt_vector() {
    let (mut cpu, mut mem) = fresh();
    mem.write_word(0xFFFE, 0x4321);
    let (i, c) = exec(&mut cpu, &mut mem, &[0x00]);
    assert_eq!(i.instr, Instr::BRK);
    assert_eq!(cpu.pc, 0x4321);
    assert_eq!(c, 7);
    assert_eq!(cpu.sp, 0xFD - 3);
}

#[test]
fn reparse_of_raw_bytes_matches() {
    // decode once, plant the recorded bytes elsewhere, decode again
    let (mut cpu, mut mem) = fresh();
    let (first, _c) = exec(&mut cpu, &mut mem, &[0xA9, 0xFF]);
    assert_eq!(first.bytes, vec![0xA9u8, 0xFFu8]);
    let mut again = MOS6502::new();
    let mut mem2 = MemoryManager::new(0xFFFF);
    mem2.map(0, Region::Ram(RAM::new(0x10000, Endian::Little)));
    again.reset(&mem2);
    for (i, b) in first.bytes.iter().enumerate() {
        mem2.write(0x0200 + i, *b);
    }
    again.pc = 0x0200;
    let second = again.step(&mut mem2);
    assert_eq!(second.instr, first.instr);
    assert_eq!(second.addrmode, first.addrmode);
    assert_eq!(second.bytes, first.bytes);
}

#[test]
fn reparse_of_jsr_bytes_matches() {
    let (mut cpu, mut mem) = fresh();
    let (first, _c) = exec(&mut cpu, &mut mem, &[0x20, 0x34, 0x12]);
    assert_eq!(first.instr, Instr::JSR);
    assert_eq!(first.addrmode, AddressingMode::Implied());
    assert_eq!(first.bytes, vec![0x20u8, 0x34u8, 0x12u8]);
    let (mut cpu2, mut mem2) = fresh();
    let mut planted: Vec<u8> = Vec::new();
    planted.extend_from_slice(&first.bytes);
    let (second, _c2) = exec(&mut cpu2, &mut mem2, &planted);
    assert_eq!(second.instr, first.instr);
    assert_eq!(second.addrmode, first.addrmode);
    assert_eq!(second.bytes, first.bytes);
}

#[test]
fn instruction_cycle_counts_down_and_saturates() {
    let mut i = Instruction::new(0, &vec![0xEAu8], Instr::NOP, AddressingMode::Implied(), 2);
    assert!(!i.cycle());
    assert!(i.cycle());
    assert_eq!(i.cycles, 0);
    assert!(i.cycle());
    assert_eq!(i.cycles, 0);
}

#[test]
fn instruction_equality_ignores_origin_and_bytes() {
    let a = Instruction::new(0, &vec![0xA9u8, 0x01u8], Instr::LDA, AddressingMode::Immediate(1), 2);
    let b = Instruction::new(7, &vec![], Instr::LDA, AddressingMode::Immediate(1), 2);
    let c = Instruction::new(0, &vec![], Instr::LDA, AddressingMode::Immediate(1), 3);
    assert!(a == b);
    assert!(a != c);
}

#[test]
fn status_text_renders_flags() {
    let (mut cpu, _mem) = fresh();
    // after reset only the interrupt-disable flag is set
    assert_eq!(cpu.status_text(), "-----I--");
    cpu.set_flag(Flag::N, true);
    cpu.set_flag(Flag::C, true);
    assert_eq!(cpu.status_text(), "N----I-C");
}

#[test]
fn step_counts_each_retired_instruction() {
    let (mut cpu, mut mem) = fresh();
    mem.write(0, 0xA9);
    mem.write(1, 0x01);
    mem.write(2, 0xA9);
    mem.write(3, 0x02);
    let _ = cpu.step(&mut mem);
    let _ = cpu.step(&mut mem);
    assert_eq!(cpu.steps, 2);
    assert_eq!(cpu.cycles, 4);
}
