//! Assembler-style rendering of addressing modes and instructions, built
//! character-exactly against sequence-level specifications.
use vstd::prelude::*;
use vstd::string::StringExecFns;

use crate::addressing_mode::AddressingMode;
use crate::instruction::{Instr, Instruction, InstrView};
use crate::isa::to_signed;

verus! {

/// The hexadecimal digit character for a nibble (uppercase).
pub open spec fn hexc(n: u8) -> Seq<char> {
    if n == 0 {
        "0"@
    } else if n == 1 {
        "1"@
    } else if n == 2 {
        "2"@
    } else if n == 3 {
        "3"@
    } else if n == 4 {
        "4"@
    } else if n == 5 {
        "5"@
    } else if n == 6 {
        "6"@
    } else if n == 7 {
        "7"@
    } else if n == 8 {
        "8"@
    } else if n == 9 {
        "9"@
    } else if n == 10 {
        "A"@
    } else if n == 11 {
        "B"@
    } else if n == 12 {
        "C"@
    } else if n == 13 {
        "D"@
    } else if n == 14 {
        "E"@
    } else {
        "F"@
    }
}

/// A byte as two uppercase hexadecimal digits.
pub open spec fn hex2(b: u8) -> Seq<char> {
    hexc(b / 16) + hexc(b % 16)
}

/// A 16-bit word as four uppercase hexadecimal digits.
pub open spec fn hex4(w: u16) -> Seq<char> {
    hex2((w / 256) as u8) + hex2((w % 256) as u8)
}

/// A non-negative number below 1000 in decimal, without leading zeros.
pub open spec fn dec3(n: int) -> Seq<char> {
    if n < 10 {
        hexc(n as u8)
    } else if n < 100 {
        hexc((n / 10) as u8) + hexc((n % 10) as u8)
    } else {
        hexc((n / 100) as u8) + hexc(((n / 10) % 10) as u8) + hexc((n % 10) as u8)
    }
}

/// A signed number with an explicit sign, as the relative mode displays it.
pub open spec fn signed_text(v: int) -> Seq<char> {
    if v < 0 {
        "-"@ + dec3(-v)
    } else {
        "+"@ + dec3(v)
    }
}

/// The assembler text of an operand: `#$NN` immediate, `$NNNN` absolute
/// (with `,X`/`,Y` when indexed), `($NNNN)` indirect, `$NN` zero page,
/// `($NN,X)` and `($NN),Y` indexed-indirect, and `*±N` relative, where the
/// displayed distance is counted from the branch opcode itself.
pub open spec fn mode_text(m: AddressingMode) -> Seq<char> {
    match m {
        AddressingMode::Implied() => ""@,
        AddressingMode::Accumulator() => "A"@,
        AddressingMode::Immediate(d) => "#$"@ + hex2(d),
        AddressingMode::Absolute(a) => "$"@ + hex4(a),
        AddressingMode::AbsoluteX(a) => "$"@ + hex4(a) + ",X"@,
        AddressingMode::AbsoluteY(a) => "$"@ + hex4(a) + ",Y"@,
        AddressingMode::Indirect(a) => "($"@ + hex4(a) + ")"@,
        AddressingMode::ZeroPage(a) => "$"@ + hex2(a),
        AddressingMode::ZeroPageX(a) => "$"@ + hex2(a) + ",X"@,
        AddressingMode::ZeroPageY(a) => "$"@ + hex2(a) + ",Y"@,
        AddressingMode::IndirectX(a) => "($"@ + hex2(a) + ",X)"@,
        AddressingMode::IndirectY(a) => "($"@ + hex2(a) + "),Y"@,
        AddressingMode::Relative(o) => "*"@ + signed_text(to_signed(o) + 2),
    }
}

/// The three-letter mnemonic of an instruction.
pub open spec fn instr_name(i: Instr) -> Seq<char> {
    match i {
        Instr::LDA => "LDA"@,
        Instr::LDX => "LDX"@,
        Instr::LDY => "LDY"@,
        Instr::STA => "STA"@,
        Instr::STX => "STX"@,
        Instr::STY => "STY"@,
        Instr::TAX => "TAX"@,
        Instr::TAY => "TAY"@,
        Instr::TSX => "TSX"@,
        Instr::TXA => "TXA"@,
        Instr::TXS => "TXS"@,
        Instr::TYA => "TYA"@,
        Instr::PHA => "PHA"@,
        Instr::PHP => "PHP"@,
        Instr::PLA => "PLA"@,
        Instr::PLP => "PLP"@,
        Instr::ASL => "ASL"@,
        Instr::LSR => "LSR"@,
        Instr::ROL => "ROL"@,
        Instr::ROR => "ROR"@,
        Instr::AND => "AND"@,
        Instr::BIT => "BIT"@,
        Instr::EOR => "EOR"@,
        Instr::ORA => "ORA"@,
        Instr::ADC => "ADC"@,
        Instr::CMP => "CMP"@,
        Instr::CPX => "CPX"@,
        Instr::CPY => "CPY"@,
        Instr::SBC => "SBC"@,
        Instr::DEC => "DEC"@,
        Instr::DEX => "DEX"@,
        Instr::DEY => "DEY"@,
        Instr::INC => "INC"@,
        Instr::INX => "INX"@,
        Instr::INY => "INY"@,
        Instr::BRK => "BRK"@,
        Instr::JMP => "JMP"@,
        Instr::JSR => "JSR"@,
        Instr::RTI => "RTI"@,
        Instr::RTS => "RTS"@,
        Instr::BCC => "BCC"@,
        Instr::BCS => "BCS"@,
        Instr::BEQ => "BEQ"@,
        Instr::BMI => "BMI"@,
        Instr::BNE => "BNE"@,
        Instr::BPL => "BPL"@,
        Instr::BVC => "BVC"@,
        Instr::BVS => "BVS"@,
        Instr::CLC => "CLC"@,
        Instr::CLD => "CLD"@,
        Instr::CLI => "CLI"@,
        Instr::CLV => "CLV"@,
        Instr::SEC => "SEC"@,
        Instr::SED => "SED"@,
        Instr::SEI => "SEI"@,
        Instr::NOP => "NOP"@,
        Instr::UNK => "UNK"@,
    }
}

/// The raw bytes as space-separated uppercase hex pairs.
pub open spec fn bytes_text(bs: Seq<u8>) -> Seq<char>
    decreases bs.len(),
{
    if bs.len() == 0 {
        Seq::empty()
    } else if bs.len() == 1 {
        hex2(bs[0])
    } else {
        bytes_text(bs.drop_last()) + " "@ + hex2(bs.last())
    }
}

/// `k` spaces.
pub open spec fn spaces(k: nat) -> Seq<char>
    decreases k,
{
    if k == 0 {
        Seq::empty()
    } else {
        spaces((k - 1) as nat) + " "@
    }
}

/// `s` padded on the right with spaces to at least `n` characters.
pub open spec fn pad_to(s: Seq<char>, n: nat) -> Seq<char> {
    if s.len() >= n {
        s
    } else {
        s + spaces((n - s.len()) as nat)
    }
}

/// One disassembly line: the origin as four hex digits, the raw bytes
/// padded to a twelve-character field, and the mnemonic with its operand.
pub open spec fn instruction_text(iv: InstrView) -> Seq<char> {
    hex4(iv.pc) + ": "@ + pad_to(bytes_text(iv.bytes), 12) + " ; "@ + instr_name(iv.instr) + " "@
        + mode_text(iv.addrmode)
}

/// The hexadecimal digit for a nibble; values 15 and above all render as
/// the highest digit.
pub fn hex_digit_str(n: u8) -> (r: &'static str)
    ensures
        r@ == hexc(n),
{
    if n == 0 {
        "0"
    } else if n == 1 {
        "1"
    } else if n == 2 {
        "2"
    } else if n == 3 {
        "3"
    } else if n == 4 {
        "4"
    } else if n == 5 {
        "5"
    } else if n == 6 {
        "6"
    } else if n == 7 {
        "7"
    } else if n == 8 {
        "8"
    } else if n == 9 {
        "9"
    } else if n == 10 {
        "A"
    } else if n == 11 {
        "B"
    } else if n == 12 {
        "C"
    } else if n == 13 {
        "D"
    } else if n == 14 {
        "E"
    } else {
        "F"
    }
}

/// Appends a byte as two hex digits.
pub fn push_hex2(s: &mut String, b: u8)
    ensures
        final(s)@ == old(s)@ + hex2(b),
{
    s.append(hex_digit_str(b / 16));
    s.append(hex_digit_str(b % 16));
    proof {
        assert(s@ =~= old(s)@ + hex2(b));
    }
}

/// Appends a word as four hex digits.
pub fn push_hex4(s: &mut String, w: u16)
    ensures
        final(s)@ == old(s)@ + hex4(w),
{
    push_hex2(s, (w / 256) as u8);
    push_hex2(s, (w % 256) as u8);
    proof {
        assert(s@ =~= old(s)@ + hex4(w));
    }
}

/// Appends a small signed number with an explicit sign.
pub fn push_signed(s: &mut String, v: i32)
    requires
        -999 <= v <= 999,
    ensures
        final(s)@ == old(s)@ + signed_text(v as int),
{
    let a: i32 = if v < 0 {
        s.append("-");
        -v
    } else {
        s.append("+");
        v
    };
    if a < 10 {
        s.append(hex_digit_str(a as u8));
    } else if a < 100 {
        s.append(hex_digit_str((a / 10) as u8));
        s.append(hex_digit_str((a % 10) as u8));
    } else {
        s.append(hex_digit_str((a / 100) as u8));
        s.append(hex_digit_str(((a / 10) % 10) as u8));
        s.append(hex_digit_str((a % 10) as u8));
    }
    proof {
        assert(s@ =~= old(s)@ + signed_text(v as int));
    }
}

impl AddressingMode {
    /// The operand in assembler style (see `mode_text`).
    pub fn to_text(&self) -> (r: String)
        ensures
            r@ == mode_text(*self),
    {
        let mut s = String::new();
        match *self {
            AddressingMode::Implied() => {},
            AddressingMode::Accumulator() => s.append("A"),
            AddressingMode::Immediate(d) => {
                s.append("#$");
                push_hex2(&mut s, d);
            },
            AddressingMode::Absolute(a) => {
                s.append("$");
                push_hex4(&mut s, a);
            },
            AddressingMode::AbsoluteX(a) => {
                s.append("$");
                push_hex4(&mut s, a);
                s.append(",X");
            },
            AddressingMode::AbsoluteY(a) => {
                s.append("$");
                push_hex4(&mut s, a);
                s.append(",Y");
            },
            AddressingMode::Indirect(a) => {
                s.append("($");
                push_hex4(&mut s, a);
                s.append(")");
            },
            AddressingMode::ZeroPage(a) => {
                s.append("$");
                push_hex2(&mut s, a);
            },
            AddressingMode::ZeroPageX(a) => {
                s.append("$");
                push_hex2(&mut s, a);
                s.append(",X");
            },
            AddressingMode::ZeroPageY(a) => {
                s.append("$");
                push_hex2(&mut s, a);
                s.append(",Y");
            },
            AddressingMode::IndirectX(a) => {
                s.append("($");
                push_hex2(&mut s, a);
                s.append(",X)");
            },
            AddressingMode::IndirectY(a) => {
                s.append("($");
                push_hex2(&mut s, a);
                s.append("),Y");
            },
            AddressingMode::Relative(o) => {
                s.append("*");
                let so: i32 = if o >= 128 {
                    o as i32 - 256
                } else {
                    o as i32
                };
                push_signed(&mut s, so + 2);
            },
        }
        proof {
            reveal_strlit("");
            assert(s@ =~= mode_text(*self));
        }
        s
    }
}

impl Instr {
    /// The three-letter mnemonic.
    pub fn mnemonic(&self) -> (r: &'static str)
        ensures
            r@ == instr_name(*self),
    {
        match *self {
            Instr::LDA => "LDA",
            Instr::LDX => "LDX",
            Instr::LDY => "LDY",
            Instr::STA => "STA",
            Instr::STX => "STX",
            Instr::STY => "STY",
            Instr::TAX => "TAX",
            Instr::TAY => "TAY",
            Instr::TSX => "TSX",
            Instr::TXA => "TXA",
            Instr::TXS => "TXS",
            Instr::TYA => "TYA",
            Instr::PHA => "PHA",
            Instr::PHP => "PHP",
            Instr::PLA => "PLA",
            Instr::PLP => "PLP",
            Instr::ASL => "ASL",
            Instr::LSR => "LSR",
            Instr::ROL => "ROL",
            Instr::ROR => "ROR",
            Instr::AND => "AND",
            Instr::BIT => "BIT",
            Instr::EOR => "EOR",
            Instr::ORA => "ORA",
            Instr::ADC => "ADC",
            Instr::CMP => "CMP",
            Instr::CPX => "CPX",
            Instr::CPY => "CPY",
            Instr::SBC => "SBC",
            Instr::DEC => "DEC",
            Instr::DEX => "DEX",
            Instr::DEY => "DEY",
            Instr::INC => "INC",
            Instr::INX => "INX",
            Instr::INY => "INY",
            Instr::BRK => "BRK",
            Instr::JMP => "JMP",
            Instr::JSR => "JSR",
            Instr::RTI => "RTI",
            Instr::RTS => "RTS",
            Instr::BCC => "BCC",
            Instr::BCS => "BCS",
            Instr::BEQ => "BEQ",
            Instr::BMI => "BMI",
            Instr::BNE => "BNE",
            Instr::BPL => "BPL",
            Instr::BVC => "BVC",
            Instr::BVS => "BVS",
            Instr::CLC => "CLC",
            Instr::CLD => "CLD",
            Instr::CLI => "CLI",
            Instr::CLV => "CLV",
            Instr::SEC => "SEC",
            Instr::SED => "SED",
            Instr::SEI => "SEI",
            Instr::NOP => "NOP",
            Instr::UNK => "UNK",
        }
    }
}

/// How long the raw-byte field is before padding: two digits per byte and
/// one space between bytes.
pub proof fn lemma_bytes_text_len(bs: Seq<u8>)
    ensures
        bs.len() == 0 ==> bytes_text(bs).len() == 0,
        bs.len() > 0 ==> bytes_text(bs).len() == 3 * bs.len() - 1,
    decreases bs.len(),
{
    reveal_strlit_facts();
    if bs.len() > 1 {
        lemma_bytes_text_len(bs.drop_last());
    }
}

/// Pins the lengths of the string literals the renderers build on.
proof fn reveal_strlit_facts()
    ensures
        forall|n: u8| (#[trigger] hexc(n)).len() == 1,
        " "@.len() == 1,
{
    assert forall|n: u8| (#[trigger] hexc(n)).len() == 1 by {
        reveal_strlit("0");
        reveal_strlit("1");
        reveal_strlit("2");
        reveal_strlit("3");
        reveal_strlit("4");
        reveal_strlit("5");
        reveal_strlit("6");
        reveal_strlit("7");
        reveal_strlit("8");
        reveal_strlit("9");
        reveal_strlit("A");
        reveal_strlit("B");
        reveal_strlit("C");
        reveal_strlit("D");
        reveal_strlit("E");
        reveal_strlit("F");
    }
    reveal_strlit(" ");
}

/// Renders the raw bytes as space-separated uppercase hex pairs.
pub fn to_hex_string(bytes: &Vec<u8>) -> (r: String)
    ensures
        r@ == bytes_text(bytes@),
{
    let n = bytes.len();
    let mut s = String::new();
    let mut i: usize = 0;
    while i < n
        invariant
            n == bytes@.len(),
            0 <= i <= n,
            s@ == bytes_text(bytes@.take(i as int)),
        decreases n - i,
    {
        if i > 0 {
            s.append(" ");
        }
        push_hex2(&mut s, bytes[i]);
        proof {
            assert(bytes@.take(i + 1).drop_last() =~= bytes@.take(i as int));
            assert(bytes@.take(i + 1).last() == bytes@[i as int]);
            assert(s@ =~= bytes_text(bytes@.take(i + 1)));
        }
        i = i + 1;
    }
    proof {
        assert(bytes@.take(n as int) =~= bytes@);
    }
    s
}

impl Instruction {
    /// One stable disassembly line: `PPPP: BB BB BB    ; MNE OPERAND`.
    pub fn to_text(&self) -> (r: String)
        ensures
            r@ == instruction_text(self@),
    {
        let mut s = String::new();
        push_hex4(&mut s, self.pc);
        s.append(": ");
        let bt = to_hex_string(&self.bytes);
        s.append(bt.as_str());
        let n = self.bytes.len();
        let written: usize = if n == 0 {
            0
        } else if n <= 4 {
            3 * n - 1
        } else {
            12
        };
        proof {
            lemma_bytes_text_len(self.bytes@);
            assert(s@ =~= hex4(self@.pc) + ": "@ + bytes_text(self@.bytes) + spaces(0));
        }
        let mut k: usize = written;
        while k < 12
            invariant
                written <= k <= 12,
                bytes_text(self@.bytes).len() >= written,
                bytes_text(self@.bytes).len() < 12 ==> written == bytes_text(self@.bytes).len(),
                bytes_text(self@.bytes).len() >= 12 ==> written == 12,
                s@ == hex4(self@.pc) + ": "@ + bytes_text(self@.bytes) + spaces(
                    (k - written) as nat,
                ),
            decreases 12 - k,
        {
            s.append(" ");
            proof {
                assert(s@ =~= hex4(self@.pc) + ": "@ + bytes_text(self@.bytes) + spaces(
                    (k + 1 - written) as nat,
                ));
            }
            k = k + 1;
        }
        proof {
            assert(s@ =~= hex4(self@.pc) + ": "@ + pad_to(bytes_text(self@.bytes), 12));
        }
        s.append(" ; ");
        s.append(self.instr.mnemonic());
        s.append(" ");
        let mt = self.addrmode.to_text();
        s.append(mt.as_str());
        proof {
            assert(s@ =~= instruction_text(self@));
        }
        s
    }
}

} // verus!
