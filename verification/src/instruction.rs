//! A decoded instruction: its mnemonic, addressing mode, origin, raw bytes,
//! and the cycle budget that gates its retirement.
use vstd::prelude::*;

use crate::addressing_mode::AddressingMode;

verus! {

/// The officially documented 6502 mnemonics, plus `UNK` for any byte the
/// decoder does not recognise.
#[derive(Clone, Copy, PartialEq, Eq, Structural, Debug)]
pub enum Instr {
    LDA,
    LDX,
    LDY,
    STA,
    STX,
    STY,
    TAX,
    TAY,
    TSX,
    TXA,
    TXS,
    TYA,
    PHA,
    PHP,
    PLA,
    PLP,
    ASL,
    LSR,
    ROL,
    ROR,
    AND,
    BIT,
    EOR,
    ORA,
    ADC,
    CMP,
    CPX,
    CPY,
    SBC,
    DEC,
    DEX,
    DEY,
    INC,
    INX,
    INY,
    BRK,
    JMP,
    JSR,
    RTI,
    RTS,
    BCC,
    BCS,
    BEQ,
    BMI,
    BNE,
    BPL,
    BVC,
    BVS,
    CLC,
    CLD,
    CLI,
    CLV,
    SEC,
    SED,
    SEI,
    NOP,
    UNK,
}

/// The ghost shape of an instruction.
#[verifier::ext_equal]
pub struct InstrView {
    pub cycles: usize,
    pub pc: u16,
    pub bytes: Seq<u8>,
    pub instr: Instr,
    pub addrmode: AddressingMode,
}

/// One decoded instruction. Immutable once built, except for the cycle
/// counter, which counts down to zero as the instruction is amortized over
/// clock ticks.
#[derive(Debug)]
pub struct Instruction {
    pub cycles: usize,
    pub pc: u16,
    pub bytes: Vec<u8>,
    pub instr: Instr,
    pub addrmode: AddressingMode,
}

impl View for Instruction {
    type V = InstrView;

    open spec fn view(&self) -> InstrView {
        InstrView {
            cycles: self.cycles,
            pc: self.pc,
            bytes: self.bytes@,
            instr: self.instr,
            addrmode: self.addrmode,
        }
    }
}

impl Instruction {
    pub fn new(
        pc: u16,
        bytes: &Vec<u8>,
        instr: Instr,
        addrmode: AddressingMode,
        cycles: usize,
    ) -> (r: Instruction)
        ensures
            r@ == (InstrView { cycles, pc, bytes: bytes@, instr, addrmode }),
    {
        let b = bytes.clone();
        proof {
            assert(b@ =~= bytes@);
        }
        Instruction { cycles, pc, bytes: b, instr, addrmode }
    }

    /// Consumes one cycle of the budget (saturating at zero) and reports
    /// whether the instruction has now used its last cycle.
    pub fn cycle(&mut self) -> (r: bool)
        ensures
            final(self)@ == (InstrView { cycles: dec_cycles(old(self)@.cycles), ..old(self)@ }),
            r == (dec_cycles(old(self)@.cycles) == 0),
    {
        self.cycles = self.cycles.saturating_sub(1);
        self.cycles == 0
    }
}

impl PartialEq for Instruction {
    /// Two instructions are the same when they agree on mnemonic,
    /// addressing mode and cycle count; the origin and the raw bytes do not
    /// take part.
    fn eq(&self, other: &Instruction) -> (r: bool) {
        self.instr == other.instr && self.addrmode == other.addrmode && self.cycles
            == other.cycles
    }
}

impl vstd::std_specs::cmp::PartialEqSpecImpl for Instruction {
    open spec fn obeys_eq_spec() -> bool {
        true
    }

    open spec fn eq_spec(&self, other: &Instruction) -> bool {
        self.instr == other.instr && self.addrmode == other.addrmode && self.cycles
            == other.cycles
    }
}

/// One cycle consumed: the budget counts down and stops at zero.
pub open spec fn dec_cycles(c: usize) -> usize {
    if c > 0 {
        (c - 1) as usize
    } else {
        0usize
    }
}

} // verus!
