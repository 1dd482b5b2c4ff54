use retro6502::addressing_mode::AddressingMode;
use retro6502::instruction::{Instr, Instruction};
use retro6502::text::to_hex_string;

#[test]
fn addressing_mode_print() {
    assert_eq!(AddressingMode::Implied().to_text(), "");
    assert_eq!(AddressingMode::Accumulator().to_text(), "A");
    assert_eq!(AddressingMode::Immediate(0xFF).to_text(), "#$FF");
    assert_eq!(AddressingMode::Absolute(0x1234).to_text(), "$1234");
    assert_eq!(AddressingMode::AbsoluteX(0x1234).to_text(), "$1234,X");
    assert_eq!(AddressingMode::AbsoluteY(0x1234).to_text(), "$1234,Y");
    assert_eq!(AddressingMode::ZeroPage(0xAA).to_text(), "$AA");
    assert_eq!(AddressingMode::ZeroPageX(0xAA).to_text(), "$AA,X");
    assert_eq!(AddressingMode::ZeroPageY(0xAA).to_text(), "$AA,Y");
    assert_eq!(AddressingMode::Indirect(0x1234).to_text(), "($1234)");
    assert_eq!(AddressingMode::IndirectX(0xCC).to_text(), "($CC,X)");
    assert_eq!(AddressingMode::IndirectY(0xEE).to_text(), "($EE),Y");
    assert_eq!(AddressingMode::Relative(2).to_text(), "*+4");
    assert_eq!(AddressingMode::Relative(0xFE).to_text(), "*+0");
    assert_eq!(AddressingMode::Relative(0xF0).to_text(), "*-14");
}

#[test]
fn instruction_print() {
    let x = Instruction::new(
        0xAA,
        &vec![0xA9 as u8, 0xFF as u8],
        Instr::LDA,
        AddressingMode::Immediate(0xFF),
        4,
    );
    assert_eq!(x.to_text(), "00AA: A9 FF        ; LDA #$FF");
}

#[test]
fn hex_string_of_bytes() {
    assert_eq!(to_hex_string(&vec![]), "");
    assert_eq!(to_hex_string(&vec![0x0Au8]), "0A");
    assert_eq!(to_hex_string(&vec![0x20u8, 0x34u8, 0x12u8]), "20 34 12");
}

#[test]
fn mnemonic_text() {
    assert_eq!(Instr::LDA.mnemonic(), "LDA");
    assert_eq!(Instr::UNK.mnemonic(), "UNK");
    assert_eq!(Instr::BRK.mnemonic(), "BRK");
}

#[test]
fn implied_instruction_print() {
    let x = Instruction::new(0x1234, &vec![0x60u8], Instr::RTS, AddressingMode::Implied(), 6);
    assert_eq!(x.to_text(), "1234: 60           ; RTS ");
}

#[test]
fn relative_display_counts_from_opcode() {
    // the displayed distance is the signed offset plus the two instruction bytes
    assert_eq!(AddressingMode::Relative(0).to_text(), "*+2");
    assert_eq!(AddressingMode::Relative(0x80).to_text(), "*-126");
    assert_eq!(AddressingMode::Relative(0x7F).to_text(), "*+129");
}
