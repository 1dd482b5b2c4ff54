//! The instruction-set architecture as mathematics: what one decoded
//! instruction does to the processor and the memory fabric, and what the
//! decoder makes of an opcode byte. The executable engine in `cpu` is
//! verified against these definitions.
use vstd::prelude::*;

use crate::addressing_mode::{mode_bytes, AddressingMode};
use crate::instruction::{Instr, InstrView};
use crate::memory::{mgr_read, mgr_read_word, mgr_read_word_zero, mgr_write, word_from, word_hi,
    word_lo, wrap16, wrap8, Endian, MgrView};

verus! {

/// Flag bit positions within the status register `P`.
pub const MASK_N: u8 = 0x80;

pub const MASK_V: u8 = 0x40;

pub const MASK_UNUSED: u8 = 0x20;

pub const MASK_B: u8 = 0x10;

pub const MASK_D: u8 = 0x08;

pub const MASK_I: u8 = 0x04;

pub const MASK_Z: u8 = 0x02;

pub const MASK_C: u8 = 0x01;

/// The ghost shape of the processor.
#[verifier::ext_equal]
pub struct CpuView {
    pub a: u8,
    pub x: u8,
    pub y: u8,
    pub sp: u8,
    pub pc: u16,
    pub status: u8,
    pub cycles: usize,
    pub steps: usize,
    pub current: Option<InstrView>,
}

/// What one decoded instruction leaves behind.
#[verifier::ext_equal]
pub struct Effect {
    pub cpu: CpuView,
    pub mem: MgrView,
    pub cycles: usize,
}

/// The result of decoding and executing one instruction.
#[verifier::ext_equal]
pub struct StepView {
    pub cpu: CpuView,
    pub mem: MgrView,
    pub instr: InstrView,
}

pub open spec fn flag_set(st: u8, mask: u8) -> bool {
    st & mask != 0
}

pub open spec fn with_flag(st: u8, mask: u8, v: bool) -> u8 {
    if v {
        st | mask
    } else {
        st & !mask
    }
}

/// The status register after the zero and negative flags are refreshed
/// from `val`.
pub open spec fn with_zn(st: u8, val: u8) -> u8 {
    with_flag(with_flag(st, MASK_Z, val == 0), MASK_N, val & 0x80 != 0)
}

/// A byte reinterpreted as a signed offset.
pub open spec fn to_signed(b: u8) -> int {
    if b >= 128 {
        b - 256
    } else {
        b as int
    }
}

/// The 256-byte page an address falls in.
pub open spec fn page(a: u16) -> u16 {
    a / 256
}

/// One byte pushed: it lands in the stack page at the current pointer, and
/// the pointer moves down with wrap.
pub open spec fn push_spec(cpu: CpuView, m: MgrView, data: u8) -> (CpuView, MgrView) {
    (
        CpuView { sp: wrap8(cpu.sp - 1), ..cpu },
        mgr_write(m, 0x100 + cpu.sp as int, data),
    )
}

/// One byte popped: the pointer moves up with wrap and the byte at the new
/// position is read.
pub open spec fn pop_spec(cpu: CpuView, m: MgrView) -> (CpuView, u8) {
    let sp2 = wrap8(cpu.sp + 1);
    (CpuView { sp: sp2, ..cpu }, mgr_read(m, 0x100 + sp2 as int))
}

/// A word pushed: high byte first, then low byte.
pub open spec fn push_word_spec(cpu: CpuView, m: MgrView, w: u16) -> (CpuView, MgrView) {
    let (c1, m1) = push_spec(cpu, m, word_hi(w));
    push_spec(c1, m1, word_lo(w))
}

/// A word popped: low byte first, then high byte.
pub open spec fn pop_word_spec(cpu: CpuView, m: MgrView) -> (CpuView, u16) {
    let (c1, lo) = pop_spec(cpu, m);
    let (c2, hi) = pop_spec(c1, m);
    (c2, (hi * 256 + lo) as u16)
}

/// What the decoder makes of an opcode byte and the (up to) two bytes after
/// it: the mnemonic and the operand as formed. `e` is the byte order the
/// memory fabric uses for 16-bit operand fetches.
#[verifier::ext_equal]
pub struct Decoded {
    pub instr: Instr,
    pub mode: AddressingMode,
}

/// The 16-bit operand assembled from the two bytes after the opcode.
pub open spec fn operand_word(b1: u8, b2: u8, e: Endian) -> u16 {
    word_from(b1, b2, e)
}

pub open spec fn decode_bytes(b0: u8, b1: u8, b2: u8, e: Endian) -> Decoded {
    let w = operand_word(b1, b2, e);
    if b0 & 0x03 == 0x01 {
        // aaab_bb01: the arithmetic/logical family on A
        let xs = (b0 >> 5) & 0x07;
        let ys = (b0 >> 2) & 0x07;
        let i = if xs == 0 {
            Instr::ORA
        } else if xs == 1 {
            Instr::AND
        } else if xs == 2 {
            Instr::EOR
        } else if xs == 3 {
            Instr::ADC
        } else if xs == 4 {
            Instr::STA
        } else if xs == 5 {
            Instr::LDA
        } else if xs == 6 {
            Instr::CMP
        } else {
            Instr::SBC
        };
        let mode = if ys == 0 {
            AddressingMode::IndirectX(b1)
        } else if ys == 1 {
            AddressingMode::ZeroPage(b1)
        } else if ys == 2 {
            AddressingMode::Immediate(b1)
        } else if ys == 3 {
            AddressingMode::Absolute(w)
        } else if ys == 4 {
            AddressingMode::IndirectY(b1)
        } else if ys == 5 {
            AddressingMode::ZeroPageX(b1)
        } else if ys == 6 {
            AddressingMode::AbsoluteY(w)
        } else {
            AddressingMode::AbsoluteX(w)
        };
        Decoded { instr: i, mode }
    } else if b0 & 0x83 == 0x02 {
        // 0xxy_yy10: shifts and rotates
        let xs = (b0 >> 5) & 0x03;
        let ys = (b0 >> 2) & 0x07;
        let i = if xs == 0 {
            Instr::ASL
        } else if xs == 1 {
            Instr::ROL
        } else if xs == 2 {
            Instr::LSR
        } else {
            Instr::ROR
        };
        if ys == 1 {
            Decoded { instr: i, mode: AddressingMode::ZeroPage(b1) }
        } else if ys == 2 {
            Decoded { instr: i, mode: AddressingMode::Accumulator() }
        } else if ys == 3 {
            Decoded { instr: i, mode: AddressingMode::Absolute(w) }
        } else if ys == 5 {
            Decoded { instr: i, mode: AddressingMode::ZeroPageX(b1) }
        } else if ys == 7 {
            Decoded { instr: i, mode: AddressingMode::AbsoluteX(w) }
        } else {
            Decoded { instr: Instr::UNK, mode: AddressingMode::Implied() }
        }
    } else if b0 & 0xC7 == 0xC6 {
        // 11xy_y110: increment and decrement of memory
        let xs = (b0 >> 5) & 0x01;
        let ys = (b0 >> 3) & 0x03;
        let i = if xs == 0 {
            Instr::DEC
        } else {
            Instr::INC
        };
        let mode = if ys == 0 {
            AddressingMode::ZeroPage(b1)
        } else if ys == 1 {
            AddressingMode::Absolute(w)
        } else if ys == 2 {
            AddressingMode::ZeroPageX(b1)
        } else {
            AddressingMode::AbsoluteX(w)
        };
        Decoded { instr: i, mode }
    } else if b0 & 0xC5 == 0x84 {
        // 10xy_y1x0: stores and loads of X and Y
        let xs = ((b0 >> 4) & 0x02) | ((b0 >> 1) & 0x01);
        let ys = (b0 >> 3) & 0x03;
        if ys == 3 {
            Decoded { instr: Instr::UNK, mode: AddressingMode::Implied() }
        } else {
            let i = if xs == 0 {
                Instr::STY
            } else if xs == 1 {
                Instr::STX
            } else if xs == 2 {
                Instr::LDY
            } else {
                Instr::LDX
            };
            let mode = if ys == 0 {
                AddressingMode::ZeroPage(b1)
            } else if ys == 1 {
                AddressingMode::Absolute(w)
            } else if xs == 1 || xs == 3 {
                AddressingMode::ZeroPageY(b1)
            } else {
                AddressingMode::ZeroPageX(b1)
            };
            Decoded { instr: i, mode }
        }
    } else if b0 & 0x1F == 0x18 {
        // xxy1_1000: flag operations and TYA
        let xs = (b0 >> 6) & 0x03;
        let ys = (b0 >> 5) & 0x01;
        let i = if xs == 0 {
            if ys == 1 {
                Instr::SEC
            } else {
                Instr::CLC
            }
        } else if xs == 1 {
            if ys == 1 {
                Instr::SEI
            } else {
                Instr::CLI
            }
        } else if xs == 2 {
            if ys == 1 {
                Instr::TYA
            } else {
                Instr::CLV
            }
        } else {
            if ys == 1 {
                Instr::SED
            } else {
                Instr::CLD
            }
        };
        Decoded { instr: i, mode: AddressingMode::Implied() }
    } else if b0 & 0x9F == 0x08 {
        // 0xx0_1000: the status/accumulator stack operations
        let xs = (b0 >> 5) & 0x03;
        let i = if xs == 0 {
            Instr::PHP
        } else if xs == 1 {
            Instr::PLP
        } else if xs == 2 {
            Instr::PHA
        } else {
            Instr::PLA
        };
        Decoded { instr: i, mode: AddressingMode::Implied() }
    } else if b0 & 0x9F == 0x88 {
        // 1xx0_1000: DEY/TAY/INY/INX
        let xs = (b0 >> 5) & 0x03;
        let i = if xs == 0 {
            Instr::DEY
        } else if xs == 1 {
            Instr::TAY
        } else if xs == 2 {
            Instr::INY
        } else {
            Instr::INX
        };
        Decoded { instr: i, mode: AddressingMode::Implied() }
    } else if b0 & 0xCF == 0x8A {
        // 10xx_1010: transfers through X
        let xs = (b0 >> 4) & 0x03;
        let i = if xs == 0 {
            Instr::TXA
        } else if xs == 1 {
            Instr::TXS
        } else if xs == 2 {
            Instr::TAX
        } else {
            Instr::TSX
        };
        Decoded { instr: i, mode: AddressingMode::Implied() }
    } else if b0 & 0xD7 == 0xC4 {
        // 11x0_y100: CPY/CPX against memory
        let xs = (b0 >> 5) & 0x01;
        let ys = (b0 >> 3) & 0x01;
        let i = if xs == 0 {
            Instr::CPY
        } else {
            Instr::CPX
        };
        let mode = if ys == 0 {
            AddressingMode::ZeroPage(b1)
        } else {
            AddressingMode::Absolute(w)
        };
        Decoded { instr: i, mode }
    } else if b0 & 0xDF == 0x4C {
        // 01x0_1100: JMP absolute and indirect
        let xs = (b0 >> 5) & 0x01;
        let mode = if xs == 0 {
            AddressingMode::Absolute(w)
        } else {
            AddressingMode::Indirect(w)
        };
        Decoded { instr: Instr::JMP, mode }
    } else if b0 & 0xF7 == 0x24 {
        // 0010_x100: BIT
        let xs = (b0 >> 3) & 0x01;
        let mode = if xs == 0 {
            AddressingMode::ZeroPage(b1)
        } else {
            AddressingMode::Absolute(w)
        };
        Decoded { instr: Instr::BIT, mode }
    } else if b0 & 0xFD == 0xA0 {
        // 1010_00x0: LDY/LDX immediate
        let xs = (b0 >> 1) & 0x01;
        let i = if xs == 0 {
            Instr::LDY
        } else {
            Instr::LDX
        };
        Decoded { instr: i, mode: AddressingMode::Immediate(b1) }
    } else if b0 & 0x1F == 0x10 {
        // xxx1_0000: conditional branches
        let xs = (b0 >> 5) & 0x07;
        let i = if xs == 0 {
            Instr::BPL
        } else if xs == 1 {
            Instr::BMI
        } else if xs == 2 {
            Instr::BVC
        } else if xs == 3 {
            Instr::BVS
        } else if xs == 4 {
            Instr::BCC
        } else if xs == 5 {
            Instr::BCS
        } else if xs == 6 {
            Instr::BNE
        } else {
            Instr::BEQ
        };
        Decoded { instr: i, mode: AddressingMode::Relative(b1) }
    } else if b0 == 0x20 {
        Decoded { instr: Instr::JSR, mode: AddressingMode::Absolute(w) }
    } else if b0 == 0x60 {
        Decoded { instr: Instr::RTS, mode: AddressingMode::Implied() }
    } else if b0 == 0x40 {
        Decoded { instr: Instr::RTI, mode: AddressingMode::Implied() }
    } else if b0 == 0x00 {
        Decoded { instr: Instr::BRK, mode: AddressingMode::Implied() }
    } else if b0 & 0xDF == 0xC0 {
        // 11x0_0000: CPY/CPX immediate
        let xs = (b0 >> 5) & 0x01;
        let i = if xs == 0 {
            Instr::CPY
        } else {
            Instr::CPX
        };
        Decoded { instr: i, mode: AddressingMode::Immediate(b1) }
    } else {
        Decoded { instr: Instr::UNK, mode: AddressingMode::Implied() }
    }
}

/// The addressing mode an instruction records for display: a jump to a
/// subroutine keeps its target only in its raw bytes.
pub open spec fn recorded_mode(i: Instr, mode: AddressingMode) -> AddressingMode {
    if i is JSR {
        AddressingMode::Implied()
    } else {
        mode
    }
}

/// Where the data for the accumulator family comes from, and the cycles the
/// access costs; indexed absolute and indirect-indexed forms pay one more
/// cycle when the effective address crosses a page.
pub open spec fn operand_value(cpu: CpuView, m: MgrView, mode: AddressingMode) -> (u8, usize) {
    match mode {
        AddressingMode::Immediate(d) => (d, 2),
        AddressingMode::ZeroPage(a) => (mgr_read(m, a as int), 3),
        AddressingMode::ZeroPageX(a) => (mgr_read(m, wrap8(a + cpu.x) as int), 4),
        AddressingMode::Absolute(a) => (mgr_read(m, a as int), 4),
        AddressingMode::AbsoluteX(a) => {
            let ea = wrap16(a + cpu.x);
            (mgr_read(m, ea as int), if page(ea) != page(a) {
                5
            } else {
                4
            })
        },
        AddressingMode::AbsoluteY(a) => {
            let ea = wrap16(a + cpu.y);
            (mgr_read(m, ea as int), if page(ea) != page(a) {
                5
            } else {
                4
            })
        },
        AddressingMode::IndirectX(a) => {
            let p = wrap8(a + cpu.x);
            let ptr = mgr_read_word_zero(m, p);
            (mgr_read(m, ptr as int), 6)
        },
        AddressingMode::IndirectY(a) => {
            let base = mgr_read_word_zero(m, a);
            let ea = wrap16(base + cpu.y);
            (mgr_read(m, ea as int), if page(ea) != page(base) {
                6
            } else {
                5
            })
        },
        _ => (0u8, 0),
    }
}

/// Where a store through the accumulator family lands, and its fixed cost
/// (stores always pay the indexed cycle).
pub open spec fn sta_spec(cpu: CpuView, m: MgrView, mode: AddressingMode) -> (MgrView, usize) {
    match mode {
        AddressingMode::ZeroPage(a) => (mgr_write(m, a as int, cpu.a), 3),
        AddressingMode::ZeroPageX(a) => (mgr_write(m, wrap8(a + cpu.x) as int, cpu.a), 4),
        AddressingMode::Absolute(a) => (mgr_write(m, a as int, cpu.a), 4),
        AddressingMode::AbsoluteX(a) => (mgr_write(m, wrap16(a + cpu.x) as int, cpu.a), 5),
        AddressingMode::AbsoluteY(a) => (mgr_write(m, wrap16(a + cpu.y) as int, cpu.a), 5),
        AddressingMode::IndirectX(a) => (
            mgr_write(m, mgr_read_word_zero(m, wrap8(a + cpu.x)) as int, cpu.a),
            6,
        ),
        AddressingMode::IndirectY(a) => (
            mgr_write(m, wrap16(mgr_read_word_zero(m, a) + cpu.y) as int, cpu.a),
            6,
        ),
        _ => (m, 0),
    }
}

/// The register and flag updates of the accumulator family applied to the
/// fetched operand. Addition takes the carry in; its overflow flag comes
/// from the signed sum of the two operands alone. Subtraction is
/// `A - M - (1 - C)` with borrow-out clearing the carry. Comparison sets
/// carry when the register is at least the operand, unsigned. Decimal mode
/// is not implemented: the D flag is tracked but addition and subtraction
/// always work in binary.
pub open spec fn apply_arith(cpu: CpuView, i: Instr, data: u8) -> CpuView {
    match i {
        Instr::ORA => {
            let v = cpu.a | data;
            CpuView { a: v, status: with_zn(cpu.status, v), ..cpu }
        },
        Instr::AND => {
            let v = cpu.a & data;
            CpuView { a: v, status: with_zn(cpu.status, v), ..cpu }
        },
        Instr::EOR => {
            let v = cpu.a ^ data;
            CpuView { a: v, status: with_zn(cpu.status, v), ..cpu }
        },
        Instr::ADC => {
            let cin: int = if flag_set(cpu.status, MASK_C) {
                1
            } else {
                0
            };
            let v = wrap8(cpu.a + data + cin);
            let carry = cpu.a + data + cin > 255;
            let sv = to_signed(cpu.a) + to_signed(data);
            let overflow = sv > 127 || sv < -128;
            CpuView {
                a: v,
                status: with_zn(with_flag(with_flag(cpu.status, MASK_C, carry), MASK_V, overflow), v),
                ..cpu
            }
        },
        Instr::LDA => CpuView { a: data, status: with_zn(cpu.status, data), ..cpu },
        Instr::CMP => {
            let r = wrap8(cpu.a - data);
            CpuView { status: with_flag(with_zn(cpu.status, r), MASK_C, cpu.a >= data), ..cpu }
        },
        Instr::SBC => {
            let borrow: int = if flag_set(cpu.status, MASK_C) {
                0
            } else {
                1
            };
            let v = wrap8(cpu.a - data - borrow);
            let carry = cpu.a >= data + borrow;
            let sv = to_signed(cpu.a) - to_signed(data) - borrow;
            let overflow = sv > 127 || sv < -128;
            CpuView {
                a: v,
                status: with_zn(with_flag(with_flag(cpu.status, MASK_C, carry), MASK_V, overflow), v),
                ..cpu
            }
        },
        _ => cpu,
    }
}

/// A shift or rotate applied to one byte: the result and the bit that falls
/// out into the carry (the vacated end).
pub open spec fn shift_vals(i: Instr, v: u8, cin: bool) -> (u8, bool) {
    match i {
        Instr::ASL => (wrap8(2 * v), v >= 128),
        Instr::ROL => (
            wrap8(
                2 * v + if cin {
                    1int
                } else {
                    0int
                },
            ),
            v >= 128,
        ),
        Instr::LSR => ((v / 2) as u8, v % 2 == 1),
        Instr::ROR => (
            ((v / 2) + if cin {
                128int
            } else {
                0int
            }) as u8,
            v % 2 == 1,
        ),
        _ => (v, false),
    }
}

/// The effective address and cycle cost of a read-modify-write form.
pub open spec fn rmw_addr(cpu: CpuView, mode: AddressingMode) -> (int, usize) {
    match mode {
        AddressingMode::ZeroPage(a) => (a as int, 5),
        AddressingMode::Absolute(a) => (a as int, 6),
        AddressingMode::ZeroPageX(a) => (wrap8(a + cpu.x) as int, 6),
        AddressingMode::AbsoluteX(a) => (wrap16(a + cpu.x) as int, 7),
        _ => (0, 0),
    }
}

/// The effective address of the X/Y store-and-load family, with its cost.
pub open spec fn xy_addr(cpu: CpuView, mode: AddressingMode) -> (int, usize) {
    match mode {
        AddressingMode::ZeroPage(a) => (a as int, 3),
        AddressingMode::Absolute(a) => (a as int, 4),
        AddressingMode::ZeroPageX(a) => (wrap8(a + cpu.x) as int, 4),
        AddressingMode::ZeroPageY(a) => (wrap8(a + cpu.y) as int, 4),
        _ => (0, 0),
    }
}

/// Whether a conditional branch is taken in the given status.
pub open spec fn branch_taken(i: Instr, st: u8) -> bool {
    match i {
        Instr::BPL => !flag_set(st, MASK_N),
        Instr::BMI => flag_set(st, MASK_N),
        Instr::BVC => !flag_set(st, MASK_V),
        Instr::BVS => flag_set(st, MASK_V),
        Instr::BCC => !flag_set(st, MASK_C),
        Instr::BCS => flag_set(st, MASK_C),
        Instr::BNE => !flag_set(st, MASK_Z),
        Instr::BEQ => flag_set(st, MASK_Z),
        _ => false,
    }
}

/// What one instruction does, given the processor with its program counter
/// already past the operand bytes. `opaddr` is the address the operand byte
/// was fetched from; a taken branch pays one extra cycle, and one more when
/// its target leaves that byte's page.
pub open spec fn spec_effect(
    cpu: CpuView,
    m: MgrView,
    i: Instr,
    mode: AddressingMode,
    opaddr: u16,
) -> Effect {
    match i {
        Instr::ORA | Instr::AND | Instr::EOR | Instr::ADC | Instr::LDA | Instr::CMP
            | Instr::SBC => {
            let (data, c) = operand_value(cpu, m, mode);
            Effect { cpu: apply_arith(cpu, i, data), mem: m, cycles: c }
        },
        Instr::STA => {
            let (m2, c) = sta_spec(cpu, m, mode);
            Effect { cpu, mem: m2, cycles: c }
        },
        Instr::ASL | Instr::ROL | Instr::LSR | Instr::ROR => {
            if mode is Accumulator {
                let (v, cout) = shift_vals(i, cpu.a, flag_set(cpu.status, MASK_C));
                Effect {
                    cpu: CpuView {
                        a: v,
                        status: with_zn(with_flag(cpu.status, MASK_C, cout), v),
                        ..cpu
                    },
                    mem: m,
                    cycles: 2,
                }
            } else {
                let (addr, c) = rmw_addr(cpu, mode);
                let data = mgr_read(m, addr);
                let (v, cout) = shift_vals(i, data, flag_set(cpu.status, MASK_C));
                Effect {
                    cpu: CpuView {
                        status: with_zn(with_flag(cpu.status, MASK_C, cout), v),
                        ..cpu
                    },
                    mem: mgr_write(m, addr, v),
                    cycles: c,
                }
            }
        },
        Instr::DEC | Instr::INC => {
            let (addr, c) = rmw_addr(cpu, mode);
            let data = mgr_read(m, addr);
            let v = if i is DEC {
                wrap8(data - 1)
            } else {
                wrap8(data + 1)
            };
            Effect {
                cpu: CpuView { status: with_zn(cpu.status, v), ..cpu },
                mem: mgr_write(m, addr, v),
                cycles: c,
            }
        },
        Instr::STY | Instr::STX => {
            let (addr, c) = xy_addr(cpu, mode);
            let data = if i is STY {
                cpu.y
            } else {
                cpu.x
            };
            Effect { cpu, mem: mgr_write(m, addr, data), cycles: c }
        },
        Instr::LDY | Instr::LDX => {
            let (v, c): (u8, usize) = if mode is Immediate {
                (mode->Immediate_0, 2)
            } else {
                let (addr, c0) = xy_addr(cpu, mode);
                (mgr_read(m, addr), c0)
            };
            let cpu2 = if i is LDY {
                CpuView { y: v, status: with_zn(cpu.status, v), ..cpu }
            } else {
                CpuView { x: v, status: with_zn(cpu.status, v), ..cpu }
            };
            Effect { cpu: cpu2, mem: m, cycles: c }
        },
        Instr::CLC | Instr::SEC => Effect {
            cpu: CpuView { status: with_flag(cpu.status, MASK_C, i is SEC), ..cpu },
            mem: m,
            cycles: 2,
        },
        Instr::CLI | Instr::SEI => Effect {
            cpu: CpuView { status: with_flag(cpu.status, MASK_I, i is SEI), ..cpu },
            mem: m,
            cycles: 2,
        },
        Instr::CLV => Effect {
            cpu: CpuView { status: with_flag(cpu.status, MASK_V, false), ..cpu },
            mem: m,
            cycles: 2,
        },
        Instr::CLD | Instr::SED => Effect {
            cpu: CpuView { status: with_flag(cpu.status, MASK_D, i is SED), ..cpu },
            mem: m,
            cycles: 2,
        },
        Instr::TYA => Effect {
            cpu: CpuView { a: cpu.y, status: with_zn(cpu.status, cpu.y), ..cpu },
            mem: m,
            cycles: 2,
        },
        Instr::PHP => {
            let (c2, m2) = push_spec(cpu, m, cpu.status);
            Effect { cpu: c2, mem: m2, cycles: 3 }
        },
        Instr::PLP => {
            let (c2, st) = pop_spec(cpu, m);
            Effect { cpu: CpuView { status: st, ..c2 }, mem: m, cycles: 4 }
        },
        Instr::PHA => {
            let (c2, m2) = push_spec(cpu, m, cpu.a);
            Effect { cpu: c2, mem: m2, cycles: 3 }
        },
        Instr::PLA => {
            let (c2, v) = pop_spec(cpu, m);
            Effect {
                cpu: CpuView { a: v, status: with_zn(cpu.status, v), ..c2 },
                mem: m,
                cycles: 4,
            }
        },
        Instr::DEY => {
            let v = wrap8(cpu.y - 1);
            Effect {
                cpu: CpuView { y: v, status: with_zn(cpu.status, v), ..cpu },
                mem: m,
                cycles: 2,
            }
        },
        Instr::TAY => Effect {
            cpu: CpuView { y: cpu.a, status: with_zn(cpu.status, cpu.a), ..cpu },
            mem: m,
            cycles: 2,
        },
        Instr::INY => {
            let v = wrap8(cpu.y + 1);
            Effect {
                cpu: CpuView { y: v, status: with_zn(cpu.status, v), ..cpu },
                mem: m,
                cycles: 2,
            }
        },
        Instr::INX => {
            let v = wrap8(cpu.x + 1);
            Effect {
                cpu: CpuView { x: v, status: with_zn(cpu.status, v), ..cpu },
                mem: m,
                cycles: 2,
            }
        },
        Instr::TXA => Effect {
            cpu: CpuView { a: cpu.x, status: with_zn(cpu.status, cpu.x), ..cpu },
            mem: m,
            cycles: 2,
        },
        Instr::TXS => Effect { cpu: CpuView { sp: cpu.x, ..cpu }, mem: m, cycles: 2 },
        Instr::TAX => Effect {
            cpu: CpuView { x: cpu.a, status: with_zn(cpu.status, cpu.a), ..cpu },
            mem: m,
            cycles: 2,
        },
        Instr::TSX => Effect {
            cpu: CpuView { x: cpu.sp, status: with_zn(cpu.status, cpu.sp), ..cpu },
            mem: m,
            cycles: 2,
        },
        Instr::CPY | Instr::CPX => {
            let (data, c): (u8, usize) = match mode {
                AddressingMode::Immediate(d) => (d, 2),
                AddressingMode::ZeroPage(a) => (mgr_read(m, a as int), 3),
                AddressingMode::Absolute(a) => (mgr_read(m, a as int), 4),
                _ => (0u8, 0),
            };
            let reg = if i is CPY {
                cpu.y
            } else {
                cpu.x
            };
            let r = wrap8(reg - data);
            Effect {
                cpu: CpuView {
                    status: with_flag(with_zn(cpu.status, r), MASK_C, reg >= data),
                    ..cpu
                },
                mem: m,
                cycles: c,
            }
        },
        Instr::JMP => {
            // The indirect form reads its target word straightforwardly;
            // it does not reproduce the hardware quirk where the pointer's
            // high byte refuses to cross a page boundary.
            match mode {
                AddressingMode::Absolute(a) => Effect {
                    cpu: CpuView { pc: a, ..cpu },
                    mem: m,
                    cycles: 3,
                },
                AddressingMode::Indirect(a) => Effect {
                    cpu: CpuView { pc: mgr_read_word(m, a as int), ..cpu },
                    mem: m,
                    cycles: 5,
                },
                _ => Effect { cpu, mem: m, cycles: 0 },
            }
        },
        Instr::BIT => {
            let (data, c): (u8, usize) = match mode {
                AddressingMode::ZeroPage(a) => (mgr_read(m, a as int), 3),
                AddressingMode::Absolute(a) => (mgr_read(m, a as int), 4),
                _ => (0u8, 0),
            };
            let st = with_flag(
                with_flag(
                    with_flag(cpu.status, MASK_Z, cpu.a & data == 0),
                    MASK_V,
                    data & 0x40 != 0,
                ),
                MASK_N,
                data & 0x80 != 0,
            );
            Effect { cpu: CpuView { status: st, ..cpu }, mem: m, cycles: c }
        },
        Instr::BPL | Instr::BMI | Instr::BVC | Instr::BVS | Instr::BCC | Instr::BCS | Instr::BNE
            | Instr::BEQ => {
            let off = mode->Relative_0;
            let taken = branch_taken(i, cpu.status);
            let target = wrap16(cpu.pc + to_signed(off));
            let c: usize = if taken {
                if page(target) != page(opaddr) {
                    4
                } else {
                    3
                }
            } else {
                2
            };
            Effect {
                cpu: CpuView {
                    pc: if taken {
                        target
                    } else {
                        cpu.pc
                    },
                    ..cpu
                },
                mem: m,
                cycles: c,
            }
        },
        Instr::JSR => {
            let (c2, m2) = push_word_spec(cpu, m, wrap16(cpu.pc - 1));
            Effect { cpu: CpuView { pc: mode->Absolute_0, ..c2 }, mem: m2, cycles: 6 }
        },
        Instr::RTS => {
            let (c2, w) = pop_word_spec(cpu, m);
            Effect { cpu: CpuView { pc: wrap16(w + 1), ..c2 }, mem: m, cycles: 6 }
        },
        Instr::RTI => {
            let (c2, st) = pop_spec(cpu, m);
            let (c3, w) = pop_word_spec(c2, m);
            Effect { cpu: CpuView { status: st, pc: w, ..c3 }, mem: m, cycles: 6 }
        },
        Instr::BRK => {
            let (c2, m2) = push_word_spec(cpu, m, wrap16(cpu.pc + 1));
            let (c3, m3) = push_spec(c2, m2, cpu.status);
            Effect {
                cpu: CpuView { pc: mgr_read_word(m3, 0xFFFE), ..c3 },
                mem: m3,
                cycles: 7,
            }
        },
        _ => Effect { cpu, mem: m, cycles: 0 },
    }
}

/// The program counter after the opcode and the mode's operand bytes are
/// consumed (each fetch wraps modulo the 16-bit space).
pub open spec fn pc_after(pc0: u16, mode: AddressingMode) -> u16 {
    let n = mode_bytes(mode).len();
    if n == 0 {
        wrap16(pc0 + 1)
    } else if n == 1 {
        wrap16(wrap16(pc0 + 1) + 1)
    } else {
        wrap16(wrap16(pc0 + 1) + 2)
    }
}

/// One full decode-and-execute: the decoder fetches the opcode and operand,
/// applies the instruction's whole architectural effect at once, and hands
/// back the decoded instruction with its cycle budget. The cycle and step
/// counters are untouched here; `spec_cycle` and `spec_step` account for
/// them.
pub open spec fn spec_execute(cpu: CpuView, m: MgrView) -> StepView {
    let pc0 = cpu.pc;
    let b0 = mgr_read(m, pc0 as int);
    let pc1 = wrap16(pc0 + 1);
    let b1 = mgr_read(m, pc1 as int);
    let b2 = mgr_read(m, pc1 as int + 1);
    let d = decode_bytes(b0, b1, b2, m.endian);
    let cpu1 = CpuView { pc: pc_after(pc0, d.mode), ..cpu };
    let e = spec_effect(cpu1, m, d.instr, d.mode, pc1);
    StepView {
        cpu: e.cpu,
        mem: e.mem,
        instr: InstrView {
            cycles: e.cycles,
            pc: pc0,
            bytes: seq![b0] + mode_bytes(d.mode),
            instr: d.instr,
            addrmode: recorded_mode(d.instr, d.mode),
        },
    }
}

/// A counter advanced by one, holding at its ceiling rather than wrapping:
/// the cycle and step counts never move backwards and never fail.
pub open spec fn sat_inc(c: usize) -> usize {
    if c < usize::MAX {
        (c + 1) as usize
    } else {
        c
    }
}

/// A counter advanced by `k`, holding at its ceiling.
pub open spec fn sat_add(c: usize, k: int) -> usize {
    if c + k <= usize::MAX {
        (c + k) as usize
    } else {
        usize::MAX
    }
}

/// One emulated clock tick: decode a fresh instruction when none is in
/// flight, count the tick, consume one cycle of the in-flight instruction,
/// and retire it when its budget is spent.
pub open spec fn spec_cycle(cpu: CpuView, m: MgrView) -> (CpuView, MgrView, Option<InstrView>) {
    let (cpu1, m1, cur): (CpuView, MgrView, InstrView) = if cpu.current is None {
        let s = spec_execute(cpu, m);
        (s.cpu, s.mem, s.instr)
    } else {
        (cpu, m, cpu.current->Some_0)
    };
    let cpu2 = CpuView { cycles: sat_inc(cpu1.cycles), ..cpu1 };
    let k = crate::instruction::dec_cycles(cur.cycles);
    if k == 0 {
        (
            CpuView { current: None, ..cpu2 },
            m1,
            Some(InstrView { cycles: 0, ..cur }),
        )
    } else {
        (CpuView { current: Some(InstrView { cycles: k, ..cur }), ..cpu2 }, m1, None)
    }
}

/// The state a step starts from once an instruction is in flight.
pub open spec fn step_pre(cpu: CpuView, m: MgrView) -> (CpuView, MgrView, InstrView) {
    if cpu.current is None {
        let s = spec_execute(cpu, m);
        (s.cpu, s.mem, s.instr)
    } else {
        (cpu, m, cpu.current->Some_0)
    }
}

/// Law: the cycle and step counters never move backwards, whatever one
/// tick or one whole step does.
#[verifier::rlimit(100)]
pub proof fn lemma_counters_monotonic(cpu: CpuView, m: MgrView)
    ensures
        ({
            let (c, m2, r) = spec_cycle(cpu, m);
            c.cycles >= cpu.cycles && c.steps >= cpu.steps
        }),
        spec_step(cpu, m).cpu.cycles >= cpu.cycles,
        spec_step(cpu, m).cpu.steps >= cpu.steps,
{
    assert(spec_execute(cpu, m).cpu.cycles == cpu.cycles && spec_execute(cpu, m).cpu.steps
        == cpu.steps);
}

/// Law: a decoded 16-bit operand splits back into the two bytes it was
/// assembled from.
pub proof fn lemma_word_split(lo: u8, hi: u8)
    ensures
        word_lo(word_from(lo, hi, Endian::Little)) == lo,
        word_hi(word_from(lo, hi, Endian::Little)) == hi,
{
    let w = (hi as int) * 256 + (lo as int);
    vstd::arithmetic::div_mod::lemma_fundamental_div_mod_converse(w, 256, hi as int, lo as int);
}

/// Law: decoding consumes exactly the bytes an instruction records. The
/// recorded raw bytes are the prefix of the instruction stream, so placing
/// them back in memory and decoding again (whatever bytes follow them)
/// yields the same mnemonic and the same addressing mode, whatever the
/// cycle budget was.
#[verifier::rlimit(100)]
pub proof fn lemma_raw_bytes_reparse(b0: u8, b1: u8, b2: u8, c1: u8, c2: u8)
    ensures
        ({
            let d = decode_bytes(b0, b1, b2, Endian::Little);
            let raw = seq![b0] + mode_bytes(d.mode);
            &&& 1 <= raw.len() <= 3
            &&& raw[0] == b0
            &&& (raw.len() >= 2 ==> raw[1] == b1)
            &&& (raw.len() == 3 ==> raw[2] == b2)
            &&& ({
                let d2 = decode_bytes(
                    b0,
                    if raw.len() >= 2 {
                        raw[1]
                    } else {
                        c1
                    },
                    if raw.len() == 3 {
                        raw[2]
                    } else {
                        c2
                    },
                    Endian::Little,
                );
                d2.instr == d.instr && recorded_mode(d2.instr, d2.mode) == recorded_mode(
                    d.instr,
                    d.mode,
                )
            })
        }),
{
    lemma_word_split(b1, b2);
}

/// Law: a full step starting at an instruction boundary advances the cycle
/// counter by exactly the decoded instruction's cycle budget (for every
/// recognised instruction, whose budget is at least 1, as long as the
/// counter has room to count it).
pub proof fn lemma_step_consumes_budget(cpu: CpuView, m: MgrView)
    requires
        cpu.current is None,
        spec_execute(cpu, m).instr.cycles >= 1,
        cpu.cycles + spec_execute(cpu, m).instr.cycles <= usize::MAX,
    ensures
        spec_step(cpu, m).cpu.cycles - cpu.cycles == spec_execute(cpu, m).instr.cycles,
{
}

/// Law: pushing a byte and popping it back returns the same byte and
/// restores the stack pointer, whenever the stack cell resolves to RAM.
pub proof fn lemma_push_pop_identity(cpu: CpuView, m: MgrView, d: u8)
    requires
        crate::memory::backed_by_ram(m, 0x100 + cpu.sp as int),
    ensures
        ({
            let (c1, m1) = push_spec(cpu, m, d);
            let (c2, v) = pop_spec(c1, m1);
            v == d && c2 == cpu
        }),
{
    crate::memory::lemma_ram_read_back(m, 0x100 + cpu.sp as int, d);
    let (c1, m1) = push_spec(cpu, m, d);
    let (c2, v) = pop_spec(c1, m1);
    assert(wrap8(wrap8(cpu.sp - 1) + 1) == cpu.sp);
    assert(c2 =~= cpu);
}

/// One full instruction: clock ticks accumulate until the in-flight
/// instruction retires. A budget of `k >= 1` consumes exactly `k` ticks; an
/// unknown instruction with budget 0 still consumes the tick that retires
/// it.
pub open spec fn spec_step(cpu: CpuView, m: MgrView) -> StepView {
    let (cpu1, m1, ins) = step_pre(cpu, m);
    let k: int = if ins.cycles > 0 {
        ins.cycles as int
    } else {
        1
    };
    StepView {
        cpu: CpuView {
            cycles: sat_add(cpu1.cycles, k),
            steps: sat_inc(cpu1.steps),
            current: None,
            ..cpu1
        },
        mem: m1,
        instr: InstrView { cycles: 0, ..ins },
    }
}

} // verus!
