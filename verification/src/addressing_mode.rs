//! The thirteen ways a 6502 instruction names its operand.
use vstd::prelude::*;

use crate::memory::{word_hi, word_lo};
use crate::ram::{hi_byte, lo_byte};

verus! {

/// How an instruction's operand, or its effective address, is formed.
#[derive(Clone, Copy, PartialEq, Eq, Structural, Debug)]
pub enum AddressingMode {
    Implied(),
    Accumulator(),
    Immediate(u8),
    Absolute(u16),
    AbsoluteX(u16),
    AbsoluteY(u16),
    Indirect(u16),
    ZeroPage(u8),
    ZeroPageX(u8),
    ZeroPageY(u8),
    IndirectX(u8),
    IndirectY(u8),
    Relative(u8),
}

/// The operand bytes a mode contributes to an instruction's encoding:
/// nothing for implied and accumulator forms, the single byte for the 8-bit
/// forms, and the 16-bit address low byte first.
pub open spec fn mode_bytes(m: AddressingMode) -> Seq<u8> {
    match m {
        AddressingMode::Implied() => Seq::empty(),
        AddressingMode::Accumulator() => Seq::empty(),
        AddressingMode::Immediate(d) => seq![d],
        AddressingMode::Absolute(a) => seq![word_lo(a), word_hi(a)],
        AddressingMode::AbsoluteX(a) => seq![word_lo(a), word_hi(a)],
        AddressingMode::AbsoluteY(a) => seq![word_lo(a), word_hi(a)],
        AddressingMode::Indirect(a) => seq![word_lo(a), word_hi(a)],
        AddressingMode::ZeroPage(a) => seq![a],
        AddressingMode::ZeroPageX(a) => seq![a],
        AddressingMode::ZeroPageY(a) => seq![a],
        AddressingMode::IndirectX(a) => seq![a],
        AddressingMode::IndirectY(a) => seq![a],
        AddressingMode::Relative(r) => seq![r],
    }
}

impl AddressingMode {
    /// Appends the mode's operand bytes to an instruction's raw encoding,
    /// low byte first for 16-bit operands.
    pub fn add_to_vec(self, v: &mut Vec<u8>)
        ensures
            final(v)@ == old(v)@ + mode_bytes(self),
    {
        match self {
            AddressingMode::Immediate(d) => v.push(d),
            AddressingMode::Absolute(a) => {
                v.push(lo_byte(a));
                v.push(hi_byte(a));
            },
            AddressingMode::AbsoluteX(a) => {
                v.push(lo_byte(a));
                v.push(hi_byte(a));
            },
            AddressingMode::AbsoluteY(a) => {
                v.push(lo_byte(a));
                v.push(hi_byte(a));
            },
            AddressingMode::Indirect(a) => {
                v.push(lo_byte(a));
                v.push(hi_byte(a));
            },
            AddressingMode::ZeroPage(a) => v.push(a),
            AddressingMode::ZeroPageX(a) => v.push(a),
            AddressingMode::ZeroPageY(a) => v.push(a),
            AddressingMode::IndirectX(a) => v.push(a),
            AddressingMode::IndirectY(a) => v.push(a),
            AddressingMode::Relative(r) => v.push(r),
            AddressingMode::Implied() => {},
            AddressingMode::Accumulator() => {},
        }
        proof {
            assert(v@ =~= old(v)@ + mode_bytes(self));
        }
    }
}

} // verus!
