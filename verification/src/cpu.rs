//! The MOS 6502 execution engine: registers, flags, fetch, stack, the
//! decoder, and per-instruction cycle amortization. Every transition is
//! verified against the architecture spelled out in `isa`.
use vstd::prelude::*;
use vstd::string::StringExecFns;

use crate::addressing_mode::AddressingMode;
use crate::instruction::{Instr, Instruction, InstrView};
use crate::isa::{flag_set, pop_spec, pop_word_spec, push_spec, push_word_spec, sat_add, sat_inc,
    spec_cycle, spec_effect, spec_execute, spec_step, step_pre, with_flag, with_zn, CpuView,
    MASK_B, MASK_C, MASK_D, MASK_I, MASK_N, MASK_UNUSED, MASK_V, MASK_Z};
use crate::memory::{mgr_read, mgr_read_word, wrap16, Memory, MemoryManager, MgrView};

verus! {

/// Status flags of the processor.
#[derive(Clone, Copy, PartialEq, Eq, Structural, Debug)]
pub enum Flag {
    /// Negative (bit 7)
    N,
    /// Overflow (bit 6)
    V,
    /// Unused (bit 5)
    U,
    /// Break (bit 4)
    B,
    /// Decimal mode (bit 3)
    D,
    /// Interrupt disable (bit 2)
    I,
    /// Zero (bit 1)
    Z,
    /// Carry (bit 0)
    C,
}

/// The trace rendering of the status register: `NV-BDIZC`, each position
/// showing its letter when the flag is set and a dash when clear.
pub open spec fn flags_text(st: u8) -> Seq<char> {
    (if flag_set(st, MASK_N) {
        "N"@
    } else {
        "-"@
    }) + (if flag_set(st, MASK_V) {
        "V"@
    } else {
        "-"@
    }) + "-"@ + (if flag_set(st, MASK_B) {
        "B"@
    } else {
        "-"@
    }) + (if flag_set(st, MASK_D) {
        "D"@
    } else {
        "-"@
    }) + (if flag_set(st, MASK_I) {
        "I"@
    } else {
        "-"@
    }) + (if flag_set(st, MASK_Z) {
        "Z"@
    } else {
        "-"@
    }) + (if flag_set(st, MASK_C) {
        "C"@
    } else {
        "-"@
    })
}

/// The bit a flag occupies in the status register.
pub open spec fn spec_mask(f: Flag) -> u8 {
    match f {
        Flag::N => MASK_N,
        Flag::V => MASK_V,
        Flag::U => MASK_UNUSED,
        Flag::B => MASK_B,
        Flag::D => MASK_D,
        Flag::I => MASK_I,
        Flag::Z => MASK_Z,
        Flag::C => MASK_C,
    }
}

impl Flag {
    pub fn mask(self) -> (r: u8)
        ensures
            r == spec_mask(self),
    {
        match self {
            Flag::N => 0x80,
            Flag::V => 0x40,
            Flag::U => 0x20,
            Flag::B => 0x10,
            Flag::D => 0x08,
            Flag::I => 0x04,
            Flag::Z => 0x02,
            Flag::C => 0x01,
        }
    }
}

/// The processor: three data registers, the stack pointer (whose real
/// address is `0x100 + sp`), the program counter, the packed status byte,
/// the monotonic cycle and step counters, and the instruction currently
/// being amortized, if any.
pub struct MOS6502 {
    pub a: u8,
    pub x: u8,
    pub y: u8,
    pub sp: u8,
    pub pc: u16,
    pub status: u8,
    pub cycles: usize,
    pub steps: usize,
    pub current: Option<Instruction>,
}

impl View for MOS6502 {
    type V = CpuView;

    open spec fn view(&self) -> CpuView {
        CpuView {
            a: self.a,
            x: self.x,
            y: self.y,
            sp: self.sp,
            pc: self.pc,
            status: self.status,
            cycles: self.cycles,
            steps: self.steps,
            current: match self.current {
                Some(i) => Some(i@),
                None => None,
            },
        }
    }
}

impl MOS6502 {
    /// A processor with every register cleared and no instruction in flight.
    pub fn new() -> (r: MOS6502)
        ensures
            r@ == (CpuView {
                a: 0u8,
                x: 0u8,
                y: 0u8,
                sp: 0u8,
                pc: 0u16,
                status: 0u8,
                cycles: 0usize,
                steps: 0usize,
                current: None::<InstrView>,
            }),
    {
        MOS6502 { a: 0, x: 0, y: 0, sp: 0, pc: 0, status: 0, cycles: 0, steps: 0, current: None }
    }

    /// Brings the processor to its power-on state: registers cleared, stack
    /// pointer at 0xFD, interrupts disabled, and the program counter loaded
    /// from the reset vector at 0xFFFC.
    pub fn reset(&mut self, mem: &MemoryManager)
        ensures
            final(self)@ == (CpuView {
                a: 0u8,
                x: 0u8,
                y: 0u8,
                sp: 0xFDu8,
                pc: mgr_read_word(mem@, 0xFFFC),
                status: 0x04u8,
                cycles: 0usize,
                steps: 0usize,
                current: None::<InstrView>,
            }),
    {
        self.a = 0;
        self.x = 0;
        self.y = 0;
        self.sp = 0xFD;
        self.pc = mem.read_word(0xFFFC);
        self.status = 0x04;  // interrupt-disable set
        self.cycles = 0;
        self.steps = 0;
        self.current = None;
    }

    pub fn get_pc(&self) -> (r: u16)
        ensures
            r == self@.pc,
    {
        self.pc
    }

    /// The absolute address the stack pointer names within the stack page.
    pub fn get_sp(&self) -> (r: u16)
        ensures
            r == 0x100 + self@.sp,
    {
        0x100 + (self.sp as u16)
    }

    /// Sets or clears one status flag.
    pub fn set_flag(&mut self, flag: Flag, value: bool)
        ensures
            final(self)@ == (CpuView {
                status: with_flag(old(self)@.status, spec_mask(flag), value),
                ..old(self)@
            }),
    {
        if value {
            self.status = self.status | flag.mask();
        } else {
            self.status = self.status & !flag.mask();
        }
    }

    /// Refreshes the zero and negative flags from a result byte.
    fn update_zn(&mut self, val: u8)
        ensures
            final(self)@ == (CpuView {
                status: with_zn(old(self)@.status, val),
                ..old(self)@
            }),
    {
        self.set_flag(Flag::Z, val == 0);
        self.set_flag(Flag::N, val & 0x80 != 0);
    }

    /// The status register as the trace renders it: one letter per set
    /// flag in the order `NV-BDIZC`, a dash for each clear flag, and a
    /// literal dash for the unused bit.
    pub fn status_text(&self) -> (r: String)
        ensures
            r@ == flags_text(self@.status),
    {
        let mut s = String::new();
        s.append(if self.get_flag(Flag::N) {
            "N"
        } else {
            "-"
        });
        s.append(if self.get_flag(Flag::V) {
            "V"
        } else {
            "-"
        });
        s.append("-");
        s.append(if self.get_flag(Flag::B) {
            "B"
        } else {
            "-"
        });
        s.append(if self.get_flag(Flag::D) {
            "D"
        } else {
            "-"
        });
        s.append(if self.get_flag(Flag::I) {
            "I"
        } else {
            "-"
        });
        s.append(if self.get_flag(Flag::Z) {
            "Z"
        } else {
            "-"
        });
        s.append(if self.get_flag(Flag::C) {
            "C"
        } else {
            "-"
        });
        proof {
            assert(s@ =~= flags_text(self@.status));
        }
        s
    }

    /// Reads one status flag.
    pub fn get_flag(&self, flag: Flag) -> (r: bool)
        ensures
            r == flag_set(self@.status, spec_mask(flag)),
    {
        self.status & flag.mask() != 0
    }

    /// Reads the byte at the program counter and advances it, wrapping
    /// modulo the 16-bit space.
    pub fn fetch(&mut self, mem: &MemoryManager) -> (r: u8)
        ensures
            r == mgr_read(mem@, old(self)@.pc as int),
            final(self)@ == (CpuView { pc: wrap16(old(self)@.pc + 1), ..old(self)@ }),
    {
        let byte = mem.read(self.pc as usize);
        self.pc = self.pc.wrapping_add(1);
        byte
    }

    /// Reads the word at the program counter and advances it by two.
    pub fn fetch_word(&mut self, mem: &MemoryManager) -> (r: u16)
        ensures
            r == mgr_read_word(mem@, old(self)@.pc as int),
            final(self)@ == (CpuView { pc: wrap16(old(self)@.pc + 2), ..old(self)@ }),
    {
        let word = mem.read_word(self.pc as usize);
        self.pc = self.pc.wrapping_add(2);
        word
    }

    /// Stores a byte at the stack pointer's address and moves the pointer
    /// down, wrapping within the stack page.
    pub fn push(&mut self, mem: &mut MemoryManager, data: u8)
        ensures
            ({
                let (c, m) = push_spec(old(self)@, old(mem)@, data);
                final(self)@ == c && final(mem)@ == m
            }),
    {
        mem.write(0x100 + self.sp as usize, data);
        self.sp = self.sp.wrapping_sub(1);
    }

    /// Moves the stack pointer up (wrapping) and reads the byte there.
    pub fn pop(&mut self, mem: &mut MemoryManager) -> (r: u8)
        ensures
            ({
                let (c, v) = pop_spec(old(self)@, old(mem)@);
                final(self)@ == c && r == v && final(mem)@ == old(mem)@
            }),
    {
        self.sp = self.sp.wrapping_add(1);
        let data = mem.read(0x100 + self.sp as usize);
        data
    }

    /// Pushes a 16-bit word, high byte first.
    pub fn push_word(&mut self, mem: &mut MemoryManager, data: u16)
        ensures
            ({
                let (c, m) = push_word_spec(old(self)@, old(mem)@, data);
                final(self)@ == c && final(mem)@ == m
            }),
    {
        let high = crate::ram::hi_byte(data);
        let low = crate::ram::lo_byte(data);
        self.push(mem, high);
        self.push(mem, low);
    }

    /// Pops a 16-bit word, low byte first.
    pub fn pop_word(&mut self, mem: &mut MemoryManager) -> (r: u16)
        ensures
            ({
                let (c, v) = pop_word_spec(old(self)@, old(mem)@);
                final(self)@ == c && r == v && final(mem)@ == old(mem)@
            }),
    {
        let data_l = self.pop(mem);
        let data_h = self.pop(mem);
        (data_h as u16) * 256 + (data_l as u16)
    }

    /// The accumulator family: fetches the operand per the addressing mode
    /// (a store skips the fetch) and applies the operation.
    #[verifier::rlimit(100)]
    #[verifier::spinoff_prover]
    fn instr_arithmetic(
        &mut self,
        mem: &mut MemoryManager,
        i: &Instr,
        am: &AddressingMode,
        Ghost(opaddr): Ghost<u16>,
    ) -> (c: usize)
        requires
            (*i is ORA || *i is AND || *i is EOR || *i is ADC || *i is STA || *i is LDA
                || *i is CMP || *i is SBC),
        ensures
            ({
                let e = spec_effect(old(self)@, old(mem)@, *i, *am, opaddr);
                final(self)@ == e.cpu && final(mem)@ == e.mem && c == e.cycles
            }),
    {
        let is_sta = match i {
            Instr::STA => true,
            _ => false,
        };
        let (data, c0): (u8, usize) = if is_sta {
            (self.a, 0)
        } else {
            match am {
                AddressingMode::Immediate(d) => (*d, 2),
                AddressingMode::ZeroPage(a) => (mem.read(*a as usize), 3),
                AddressingMode::ZeroPageX(a) => (mem.read(a.wrapping_add(self.x) as usize), 4),
                AddressingMode::Absolute(a) => (mem.read(*a as usize), 4),
                AddressingMode::AbsoluteX(a) => {
                    let addr = a.wrapping_add(self.x as u16);
                    (mem.read(addr as usize), if addr / 256 != *a / 256 {
                        5
                    } else {
                        4
                    })
                },
                AddressingMode::AbsoluteY(a) => {
                    let addr = a.wrapping_add(self.y as u16);
                    (mem.read(addr as usize), if addr / 256 != *a / 256 {
                        5
                    } else {
                        4
                    })
                },
                AddressingMode::IndirectX(a) => {
                    let p = mem.read_word_zero(a.wrapping_add(self.x));
                    (mem.read(p as usize), 6)
                },
                AddressingMode::IndirectY(a) => {
                    let addr1 = mem.read_word_zero(*a);
                    let addr2 = addr1.wrapping_add(self.y as u16);
                    (mem.read(addr2 as usize), if addr2 / 256 != addr1 / 256 {
                        6
                    } else {
                        5
                    })
                },
                _ => (0u8, 0),
            }
        };
        match i {
            Instr::ORA => {
                self.a = self.a | data;
                let v = self.a;
                self.update_zn(v);
                c0
            },
            Instr::AND => {
                self.a = self.a & data;
                let v = self.a;
                self.update_zn(v);
                c0
            },
            Instr::EOR => {
                self.a = self.a ^ data;
                let v = self.a;
                self.update_zn(v);
                c0
            },
            Instr::ADC => {
                let cin: u16 = if self.get_flag(Flag::C) {
                    1
                } else {
                    0
                };
                let sum: u16 = self.a as u16 + data as u16 + cin;
                let v: u8 = if sum > 255 {
                    (sum - 256) as u8
                } else {
                    sum as u8
                };
                let sa: i32 = if self.a >= 128 {
                    self.a as i32 - 256
                } else {
                    self.a as i32
                };
                let sd: i32 = if data >= 128 {
                    data as i32 - 256
                } else {
                    data as i32
                };
                let sv: i32 = sa + sd;
                self.set_flag(Flag::C, sum > 255);
                self.set_flag(Flag::V, sv > 127 || sv < -128);
                self.a = v;
                self.update_zn(v);
                c0
            },
            Instr::STA => {
                match am {
                    AddressingMode::Immediate(_) => c0,
                    AddressingMode::ZeroPage(a) => {
                        mem.write(*a as usize, data);
                        3
                    },
                    AddressingMode::ZeroPageX(a) => {
                        mem.write(a.wrapping_add(self.x) as usize, data);
                        4
                    },
                    AddressingMode::Absolute(a) => {
                        mem.write(*a as usize, data);
                        4
                    },
                    AddressingMode::AbsoluteX(a) => {
                        mem.write(a.wrapping_add(self.x as u16) as usize, data);
                        5
                    },
                    AddressingMode::AbsoluteY(a) => {
                        mem.write(a.wrapping_add(self.y as u16) as usize, data);
                        5
                    },
                    AddressingMode::IndirectX(a) => {
                        let p = mem.read_word_zero(a.wrapping_add(self.x));
                        mem.write(p as usize, data);
                        6
                    },
                    AddressingMode::IndirectY(a) => {
                        let p = mem.read_word_zero(*a);
                        mem.write(p.wrapping_add(self.y as u16) as usize, data);
                        6
                    },
                    _ => c0,
                }
            },
            Instr::LDA => {
                self.a = data;
                self.update_zn(data);
                c0
            },
            Instr::CMP => {
                let result = self.a.wrapping_sub(data);
                self.update_zn(result);
                let ge = self.a >= data;
                self.set_flag(Flag::C, ge);
                c0
            },
            _ => {
                // SBC
                let borrow: u16 = if self.get_flag(Flag::C) {
                    0
                } else {
                    1
                };
                let rhs: u16 = data as u16 + borrow;
                let av: u16 = self.a as u16;
                let v: u8 = if av >= rhs {
                    (av - rhs) as u8
                } else {
                    (av + 256 - rhs) as u8
                };
                let sa: i32 = if self.a >= 128 {
                    self.a as i32 - 256
                } else {
                    self.a as i32
                };
                let sd: i32 = if data >= 128 {
                    data as i32 - 256
                } else {
                    data as i32
                };
                let sv: i32 = sa - sd - borrow as i32;
                self.set_flag(Flag::C, av >= rhs);
                self.set_flag(Flag::V, sv > 127 || sv < -128);
                self.a = v;
                self.update_zn(v);
                c0
            },
        }
    }

    /// The shift and rotate family, on the accumulator or read-modify-write
    /// through memory.
    #[verifier::rlimit(100)]
    #[verifier::spinoff_prover]
    fn instr_shift(
        &mut self,
        mem: &mut MemoryManager,
        i: &Instr,
        am: &AddressingMode,
        Ghost(opaddr): Ghost<u16>,
    ) -> (c: usize)
        requires
            (*i is ASL || *i is ROL || *i is LSR || *i is ROR),
            (*am is Accumulator || *am is ZeroPage || *am is Absolute || *am is ZeroPageX
                || *am is AbsoluteX),
        ensures
            ({
                let e = spec_effect(old(self)@, old(mem)@, *i, *am, opaddr);
                final(self)@ == e.cpu && final(mem)@ == e.mem && c == e.cycles
            }),
    {
        let acc = match am {
            AddressingMode::Accumulator() => true,
            _ => false,
        };
        if acc {
            let v0 = self.a;
            let cin = self.get_flag(Flag::C);
            let (v, cout): (u8, bool) = match i {
                Instr::ASL => (v0.wrapping_add(v0), v0 >= 128),
                Instr::ROL => {
                    let t = v0.wrapping_add(v0);
                    (
                        if cin {
                            t + 1
                        } else {
                            t
                        },
                        v0 >= 128,
                    )
                },
                Instr::LSR => (v0 / 2, v0 % 2 == 1),
                _ => (
                    v0 / 2 + if cin {
                        128
                    } else {
                        0
                    },
                    v0 % 2 == 1,
                ),
            };
            self.set_flag(Flag::C, cout);
            self.a = v;
            self.update_zn(v);
            2
        } else {
            let (addr, c): (usize, usize) = match am {
                AddressingMode::ZeroPage(a) => (*a as usize, 5),
                AddressingMode::Absolute(a) => (*a as usize, 6),
                AddressingMode::ZeroPageX(a) => (a.wrapping_add(self.x) as usize, 6),
                AddressingMode::AbsoluteX(a) => (a.wrapping_add(self.x as u16) as usize, 7),
                _ => (0, 0),
            };
            let data = mem.read(addr);
            let cin = self.get_flag(Flag::C);
            let (v, cout): (u8, bool) = match i {
                Instr::ASL => (data.wrapping_add(data), data >= 128),
                Instr::ROL => {
                    let t = data.wrapping_add(data);
                    (
                        if cin {
                            t + 1
                        } else {
                            t
                        },
                        data >= 128,
                    )
                },
                Instr::LSR => (data / 2, data % 2 == 1),
                _ => (
                    data / 2 + if cin {
                        128
                    } else {
                        0
                    },
                    data % 2 == 1,
                ),
            };
            self.set_flag(Flag::C, cout);
            self.update_zn(v);
            mem.write(addr, v);
            c
        }
    }

    #[verifier::rlimit(100)]
    #[verifier::spinoff_prover]
    fn fam_arith(
        &mut self,
        mem: &mut MemoryManager,
        pc: u16,
        opcode: u8,
        bytes: Vec<u8>,
        Ghost(cpu0): Ghost<CpuView>,
        Ghost(m0): Ghost<MgrView>,
    ) -> (r: Instruction)
        requires
            opcode & 0x03 == 0x01,
            pc == cpu0.pc,
            opcode == mgr_read(m0, cpu0.pc as int),
            old(self)@ == (CpuView { pc: wrap16(cpu0.pc + 1), ..cpu0 }),
            old(mem)@ == m0,
            bytes@ == seq![opcode],
        ensures
            ({
                let s = spec_execute(cpu0, m0);
                final(self)@ == s.cpu && final(mem)@ == s.mem && r@ == s.instr
            }),
    {
        let ghost opaddr = self@.pc;
        let mut bytes = bytes;

        let xs = (opcode >> 5) & 0x07;
        let ys = (opcode >> 2) & 0x07;
        let i = if xs == 0 {
            Instr::ORA
        } else if xs == 1 {
            Instr::AND
        } else if xs == 2 {
            Instr::EOR
        } else if xs == 3 {
            Instr::ADC
        } else if xs == 4 {
            Instr::STA
        } else if xs == 5 {
            Instr::LDA
        } else if xs == 6 {
            Instr::CMP
        } else {
            Instr::SBC
        };
        let am = if ys == 0 {
            AddressingMode::IndirectX(self.fetch(&*mem))
        } else if ys == 1 {
            AddressingMode::ZeroPage(self.fetch(&*mem))
        } else if ys == 2 {
            AddressingMode::Immediate(self.fetch(&*mem))
        } else if ys == 3 {
            AddressingMode::Absolute(self.fetch_word(&*mem))
        } else if ys == 4 {
            AddressingMode::IndirectY(self.fetch(&*mem))
        } else if ys == 5 {
            AddressingMode::ZeroPageX(self.fetch(&*mem))
        } else if ys == 6 {
            AddressingMode::AbsoluteY(self.fetch_word(&*mem))
        } else {
            AddressingMode::AbsoluteX(self.fetch_word(&*mem))
        };
        am.add_to_vec(&mut bytes);
        let c = self.instr_arithmetic(mem, &i, &am, Ghost(opaddr));
        let instr = Instruction::new(pc, &bytes, i, am, c);
        proof {
            assert(instr@ =~= spec_execute(cpu0, m0).instr);
        }
        instr
    }

    #[verifier::rlimit(100)]
    #[verifier::spinoff_prover]
    fn fam_shift(
        &mut self,
        mem: &mut MemoryManager,
        pc: u16,
        opcode: u8,
        bytes: Vec<u8>,
        Ghost(cpu0): Ghost<CpuView>,
        Ghost(m0): Ghost<MgrView>,
    ) -> (r: Instruction)
        requires
            opcode & 0x03 != 0x01 && opcode & 0x83 == 0x02,
            pc == cpu0.pc,
            opcode == mgr_read(m0, cpu0.pc as int),
            old(self)@ == (CpuView { pc: wrap16(cpu0.pc + 1), ..cpu0 }),
            old(mem)@ == m0,
            bytes@ == seq![opcode],
        ensures
            ({
                let s = spec_execute(cpu0, m0);
                final(self)@ == s.cpu && final(mem)@ == s.mem && r@ == s.instr
            }),
    {
        let ghost opaddr = self@.pc;
        let mut bytes = bytes;

        let xs = (opcode >> 5) & 0x03;
        let ys = (opcode >> 2) & 0x07;
        let i = if xs == 0 {
            Instr::ASL
        } else if xs == 1 {
            Instr::ROL
        } else if xs == 2 {
            Instr::LSR
        } else {
            Instr::ROR
        };
        if ys == 1 || ys == 2 || ys == 3 || ys == 5 || ys == 7 {
            let am = if ys == 1 {
                AddressingMode::ZeroPage(self.fetch(&*mem))
            } else if ys == 2 {
                AddressingMode::Accumulator()
            } else if ys == 3 {
                AddressingMode::Absolute(self.fetch_word(&*mem))
            } else if ys == 5 {
                AddressingMode::ZeroPageX(self.fetch(&*mem))
            } else {
                AddressingMode::AbsoluteX(self.fetch_word(&*mem))
            };
            am.add_to_vec(&mut bytes);
            let c = self.instr_shift(mem, &i, &am, Ghost(opaddr));
            let instr = Instruction::new(pc, &bytes, i, am, c);
            proof {
                assert(instr@ =~= spec_execute(cpu0, m0).instr);
            }
            instr
        } else {
            // an undocumented shift form: retire as unknown
            let instr = Instruction::new(pc, &bytes, Instr::UNK, AddressingMode::Implied(), 0);
            proof {
                assert(instr@ =~= spec_execute(cpu0, m0).instr);
            }
            instr
        }
    }

    #[verifier::rlimit(100)]
    #[verifier::spinoff_prover]
    fn fam_incdec(
        &mut self,
        mem: &mut MemoryManager,
        pc: u16,
        opcode: u8,
        bytes: Vec<u8>,
        Ghost(cpu0): Ghost<CpuView>,
        Ghost(m0): Ghost<MgrView>,
    ) -> (r: Instruction)
        requires
            opcode & 0x03 != 0x01 && opcode & 0x83 != 0x02 && opcode & 0xC7 == 0xC6,
            pc == cpu0.pc,
            opcode == mgr_read(m0, cpu0.pc as int),
            old(self)@ == (CpuView { pc: wrap16(cpu0.pc + 1), ..cpu0 }),
            old(mem)@ == m0,
            bytes@ == seq![opcode],
        ensures
            ({
                let s = spec_execute(cpu0, m0);
                final(self)@ == s.cpu && final(mem)@ == s.mem && r@ == s.instr
            }),
    {
        let ghost opaddr = self@.pc;
        let mut bytes = bytes;

        let xs = (opcode >> 5) & 0x01;
        let ys = (opcode >> 3) & 0x03;
        let (am, addr, c): (AddressingMode, usize, usize) = if ys == 0 {
            let v = self.fetch(&*mem);
            (AddressingMode::ZeroPage(v), v as usize, 5)
        } else if ys == 1 {
            let v = self.fetch_word(&*mem);
            (AddressingMode::Absolute(v), v as usize, 6)
        } else if ys == 2 {
            let v = self.fetch(&*mem);
            (AddressingMode::ZeroPageX(v), v.wrapping_add(self.x) as usize, 6)
        } else {
            let v = self.fetch_word(&*mem);
            (AddressingMode::AbsoluteX(v), v.wrapping_add(self.x as u16) as usize, 7)
        };
        let data = mem.read(addr);
        let (i, result): (Instr, u8) = if xs == 0 {
            (Instr::DEC, data.wrapping_sub(1))
        } else {
            (Instr::INC, data.wrapping_add(1))
        };
        mem.write(addr, result);
        self.update_zn(result);
        am.add_to_vec(&mut bytes);
        let instr = Instruction::new(pc, &bytes, i, am, c);
        proof {
            assert(instr@ =~= spec_execute(cpu0, m0).instr);
        }
        instr
    }

    #[verifier::rlimit(100)]
    #[verifier::spinoff_prover]
    fn fam_xy(
        &mut self,
        mem: &mut MemoryManager,
        pc: u16,
        opcode: u8,
        bytes: Vec<u8>,
        Ghost(cpu0): Ghost<CpuView>,
        Ghost(m0): Ghost<MgrView>,
    ) -> (r: Instruction)
        requires
            opcode & 0x03 != 0x01 && opcode & 0x83 != 0x02 && opcode & 0xC7 != 0xC6 && opcode & 0xC5 == 0x84,
            pc == cpu0.pc,
            opcode == mgr_read(m0, cpu0.pc as int),
            old(self)@ == (CpuView { pc: wrap16(cpu0.pc + 1), ..cpu0 }),
            old(mem)@ == m0,
            bytes@ == seq![opcode],
        ensures
            ({
                let s = spec_execute(cpu0, m0);
                final(self)@ == s.cpu && final(mem)@ == s.mem && r@ == s.instr
            }),
    {
        let ghost opaddr = self@.pc;
        let mut bytes = bytes;

        let xs = ((opcode >> 4) & 0x02) | ((opcode >> 1) & 0x01);
        let ys = (opcode >> 3) & 0x03;
        if ys == 3 {
            let instr = Instruction::new(pc, &bytes, Instr::UNK, AddressingMode::Implied(), 0);
            proof {
                assert(instr@ =~= spec_execute(cpu0, m0).instr);
            }
            return instr;
        }
        let (am, addr, c): (AddressingMode, usize, usize) = if ys == 0 {
            let v = self.fetch(&*mem);
            (AddressingMode::ZeroPage(v), v as usize, 3)
        } else if ys == 1 {
            let v = self.fetch_word(&*mem);
            (AddressingMode::Absolute(v), v as usize, 4)
        } else {
            let v = self.fetch(&*mem);
            if xs == 1 || xs == 3 {
                (AddressingMode::ZeroPageY(v), v.wrapping_add(self.y) as usize, 4)
            } else {
                (AddressingMode::ZeroPageX(v), v.wrapping_add(self.x) as usize, 4)
            }
        };
        let i = if xs == 0 {
            mem.write(addr, self.y);
            Instr::STY
        } else if xs == 1 {
            mem.write(addr, self.x);
            Instr::STX
        } else if xs == 2 {
            let v = mem.read(addr);
            self.y = v;
            self.update_zn(v);
            Instr::LDY
        } else {
            let v = mem.read(addr);
            self.x = v;
            self.update_zn(v);
            Instr::LDX
        };
        am.add_to_vec(&mut bytes);
        let instr = Instruction::new(pc, &bytes, i, am, c);
        proof {
            assert(instr@ =~= spec_execute(cpu0, m0).instr);
        }
        instr
    }

    #[verifier::rlimit(100)]
    #[verifier::spinoff_prover]
    fn fam_flag_ops(
        &mut self,
        mem: &mut MemoryManager,
        pc: u16,
        opcode: u8,
        bytes: Vec<u8>,
        Ghost(cpu0): Ghost<CpuView>,
        Ghost(m0): Ghost<MgrView>,
    ) -> (r: Instruction)
        requires
            opcode & 0x03 != 0x01 && opcode & 0x83 != 0x02 && opcode & 0xC7 != 0xC6 && opcode & 0xC5 != 0x84 && opcode & 0x1F == 0x18,
            pc == cpu0.pc,
            opcode == mgr_read(m0, cpu0.pc as int),
            old(self)@ == (CpuView { pc: wrap16(cpu0.pc + 1), ..cpu0 }),
            old(mem)@ == m0,
            bytes@ == seq![opcode],
        ensures
            ({
                let s = spec_execute(cpu0, m0);
                final(self)@ == s.cpu && final(mem)@ == s.mem && r@ == s.instr
            }),
    {
        let ghost opaddr = self@.pc;
        let mut bytes = bytes;

        let xs = (opcode >> 6) & 0x03;
        let ys = (opcode >> 5) & 0x01;
        let is_y = ys == 1;
        let i = if xs == 0 {
            self.set_flag(Flag::C, is_y);
            if is_y {
                Instr::SEC
            } else {
                Instr::CLC
            }
        } else if xs == 1 {
            self.set_flag(Flag::I, is_y);
            if is_y {
                Instr::SEI
            } else {
                Instr::CLI
            }
        } else if xs == 2 {
            if is_y {
                self.a = self.y;
                let v = self.a;
                self.update_zn(v);
                Instr::TYA
            } else {
                self.set_flag(Flag::V, false);
                Instr::CLV
            }
        } else {
            self.set_flag(Flag::D, is_y);
            if is_y {
                Instr::SED
            } else {
                Instr::CLD
            }
        };
        let instr = Instruction::new(pc, &bytes, i, AddressingMode::Implied(), 2);
        proof {
            assert(instr@ =~= spec_execute(cpu0, m0).instr);
        }
        instr
    }

    #[verifier::rlimit(100)]
    #[verifier::spinoff_prover]
    fn fam_stack_ops(
        &mut self,
        mem: &mut MemoryManager,
        pc: u16,
        opcode: u8,
        bytes: Vec<u8>,
        Ghost(cpu0): Ghost<CpuView>,
        Ghost(m0): Ghost<MgrView>,
    ) -> (r: Instruction)
        requires
            opcode & 0x03 != 0x01 && opcode & 0x83 != 0x02 && opcode & 0xC7 != 0xC6 && opcode & 0xC5 != 0x84 && opcode & 0x1F != 0x18 && opcode & 0x9F == 0x08,
            pc == cpu0.pc,
            opcode == mgr_read(m0, cpu0.pc as int),
            old(self)@ == (CpuView { pc: wrap16(cpu0.pc + 1), ..cpu0 }),
            old(mem)@ == m0,
            bytes@ == seq![opcode],
        ensures
            ({
                let s = spec_execute(cpu0, m0);
                final(self)@ == s.cpu && final(mem)@ == s.mem && r@ == s.instr
            }),
    {
        let ghost opaddr = self@.pc;
        let mut bytes = bytes;

        let xs = (opcode >> 5) & 0x03;
        let (i, c): (Instr, usize) = if xs == 0 {
            let st = self.status;
            self.push(mem, st);
            (Instr::PHP, 3)
        } else if xs == 1 {
            let st = self.pop(mem);
            self.status = st;
            (Instr::PLP, 4)
        } else if xs == 2 {
            let a = self.a;
            self.push(mem, a);
            (Instr::PHA, 3)
        } else {
            let v = self.pop(mem);
            self.a = v;
            self.update_zn(v);
            (Instr::PLA, 4)
        };
        let instr = Instruction::new(pc, &bytes, i, AddressingMode::Implied(), c);
        proof {
            assert(instr@ =~= spec_execute(cpu0, m0).instr);
        }
        instr
    }

    #[verifier::rlimit(100)]
    #[verifier::spinoff_prover]
    fn fam_index_ops(
        &mut self,
        mem: &mut MemoryManager,
        pc: u16,
        opcode: u8,
        bytes: Vec<u8>,
        Ghost(cpu0): Ghost<CpuView>,
        Ghost(m0): Ghost<MgrView>,
    ) -> (r: Instruction)
        requires
            opcode & 0x03 != 0x01 && opcode & 0x83 != 0x02 && opcode & 0xC7 != 0xC6 && opcode & 0xC5 != 0x84 && opcode & 0x1F != 0x18 && opcode & 0x9F != 0x08 && opcode & 0x9F == 0x88,
            pc == cpu0.pc,
            opcode == mgr_read(m0, cpu0.pc as int),
            old(self)@ == (CpuView { pc: wrap16(cpu0.pc + 1), ..cpu0 }),
            old(mem)@ == m0,
            bytes@ == seq![opcode],
        ensures
            ({
                let s = spec_execute(cpu0, m0);
                final(self)@ == s.cpu && final(mem)@ == s.mem && r@ == s.instr
            }),
    {
        let ghost opaddr = self@.pc;
        let mut bytes = bytes;

        let xs = (opcode >> 5) & 0x03;
        let i = if xs == 0 {
            self.y = self.y.wrapping_sub(1);
            let v = self.y;
            self.update_zn(v);
            Instr::DEY
        } else if xs == 1 {
            self.y = self.a;
            let v = self.y;
            self.update_zn(v);
            Instr::TAY
        } else if xs == 2 {
            self.y = self.y.wrapping_add(1);
            let v = self.y;
            self.update_zn(v);
            Instr::INY
        } else {
            self.x = self.x.wrapping_add(1);
            let v = self.x;
            self.update_zn(v);
            Instr::INX
        };
        let instr = Instruction::new(pc, &bytes, i, AddressingMode::Implied(), 2);
        proof {
            assert(instr@ =~= spec_execute(cpu0, m0).instr);
        }
        instr
    }

    #[verifier::rlimit(100)]
    #[verifier::spinoff_prover]
    fn fam_transfers(
        &mut self,
        mem: &mut MemoryManager,
        pc: u16,
        opcode: u8,
        bytes: Vec<u8>,
        Ghost(cpu0): Ghost<CpuView>,
        Ghost(m0): Ghost<MgrView>,
    ) -> (r: Instruction)
        requires
            opcode & 0x03 != 0x01 && opcode & 0x83 != 0x02 && opcode & 0xC7 != 0xC6 && opcode & 0xC5 != 0x84 && opcode & 0x1F != 0x18 && opcode & 0x9F != 0x08 && opcode & 0x9F != 0x88 && opcode & 0xCF == 0x8A,
            pc == cpu0.pc,
            opcode == mgr_read(m0, cpu0.pc as int),
            old(self)@ == (CpuView { pc: wrap16(cpu0.pc + 1), ..cpu0 }),
            old(mem)@ == m0,
            bytes@ == seq![opcode],
        ensures
            ({
                let s = spec_execute(cpu0, m0);
                final(self)@ == s.cpu && final(mem)@ == s.mem && r@ == s.instr
            }),
    {
        let ghost opaddr = self@.pc;
        let mut bytes = bytes;

        let xs = (opcode >> 4) & 0x03;
        let i = if xs == 0 {
            self.a = self.x;
            let v = self.a;
            self.update_zn(v);
            Instr::TXA
        } else if xs == 1 {
            self.sp = self.x;
            Instr::TXS
        } else if xs == 2 {
            self.x = self.a;
            let v = self.x;
            self.update_zn(v);
            Instr::TAX
        } else {
            self.x = self.sp;
            let v = self.x;
            self.update_zn(v);
            Instr::TSX
        };
        let instr = Instruction::new(pc, &bytes, i, AddressingMode::Implied(), 2);
        proof {
            assert(instr@ =~= spec_execute(cpu0, m0).instr);
        }
        instr
    }

    #[verifier::rlimit(100)]
    #[verifier::spinoff_prover]
    fn fam_compare_mem(
        &mut self,
        mem: &mut MemoryManager,
        pc: u16,
        opcode: u8,
        bytes: Vec<u8>,
        Ghost(cpu0): Ghost<CpuView>,
        Ghost(m0): Ghost<MgrView>,
    ) -> (r: Instruction)
        requires
            opcode & 0x03 != 0x01 && opcode & 0x83 != 0x02 && opcode & 0xC7 != 0xC6 && opcode & 0xC5 != 0x84 && opcode & 0x1F != 0x18 && opcode & 0x9F != 0x08 && opcode & 0x9F != 0x88 && opcode & 0xCF != 0x8A && opcode & 0xD7 == 0xC4,
            pc == cpu0.pc,
            opcode == mgr_read(m0, cpu0.pc as int),
            old(self)@ == (CpuView { pc: wrap16(cpu0.pc + 1), ..cpu0 }),
            old(mem)@ == m0,
            bytes@ == seq![opcode],
        ensures
            ({
                let s = spec_execute(cpu0, m0);
                final(self)@ == s.cpu && final(mem)@ == s.mem && r@ == s.instr
            }),
    {
        let ghost opaddr = self@.pc;
        let mut bytes = bytes;

        let xs = (opcode >> 5) & 0x01;
        let ys = (opcode >> 3) & 0x01;
        let (data, c, am): (u8, usize, AddressingMode) = if ys == 0 {
            let a = self.fetch(&*mem);
            (mem.read(a as usize), 3, AddressingMode::ZeroPage(a))
        } else {
            let a = self.fetch_word(&*mem);
            (mem.read(a as usize), 4, AddressingMode::Absolute(a))
        };
        let (i, reg): (Instr, u8) = if xs == 0 {
            (Instr::CPY, self.y)
        } else {
            (Instr::CPX, self.x)
        };
        let result = reg.wrapping_sub(data);
        self.update_zn(result);
        self.set_flag(Flag::C, reg >= data);
        am.add_to_vec(&mut bytes);
        let instr = Instruction::new(pc, &bytes, i, am, c);
        proof {
            assert(instr@ =~= spec_execute(cpu0, m0).instr);
        }
        instr
    }

    #[verifier::rlimit(100)]
    #[verifier::spinoff_prover]
    fn fam_jmp(
        &mut self,
        mem: &mut MemoryManager,
        pc: u16,
        opcode: u8,
        bytes: Vec<u8>,
        Ghost(cpu0): Ghost<CpuView>,
        Ghost(m0): Ghost<MgrView>,
    ) -> (r: Instruction)
        requires
            opcode & 0x03 != 0x01 && opcode & 0x83 != 0x02 && opcode & 0xC7 != 0xC6 && opcode & 0xC5 != 0x84 && opcode & 0x1F != 0x18 && opcode & 0x9F != 0x08 && opcode & 0x9F != 0x88 && opcode & 0xCF != 0x8A && opcode & 0xD7 != 0xC4 && opcode & 0xDF == 0x4C,
            pc == cpu0.pc,
            opcode == mgr_read(m0, cpu0.pc as int),
            old(self)@ == (CpuView { pc: wrap16(cpu0.pc + 1), ..cpu0 }),
            old(mem)@ == m0,
            bytes@ == seq![opcode],
        ensures
            ({
                let s = spec_execute(cpu0, m0);
                final(self)@ == s.cpu && final(mem)@ == s.mem && r@ == s.instr
            }),
    {
        let ghost opaddr = self@.pc;
        let mut bytes = bytes;

        let xs = (opcode >> 5) & 0x01;
        let a = self.fetch_word(&*mem);
        let (am, c): (AddressingMode, usize) = if xs == 0 {
            self.pc = a;
            (AddressingMode::Absolute(a), 3)
        } else {
            self.pc = mem.read_word(a as usize);
            (AddressingMode::Indirect(a), 5)
        };
        am.add_to_vec(&mut bytes);
        let instr = Instruction::new(pc, &bytes, Instr::JMP, am, c);
        proof {
            assert(instr@ =~= spec_execute(cpu0, m0).instr);
        }
        instr
    }

    #[verifier::rlimit(100)]
    #[verifier::spinoff_prover]
    fn fam_bit(
        &mut self,
        mem: &mut MemoryManager,
        pc: u16,
        opcode: u8,
        bytes: Vec<u8>,
        Ghost(cpu0): Ghost<CpuView>,
        Ghost(m0): Ghost<MgrView>,
    ) -> (r: Instruction)
        requires
            opcode & 0x03 != 0x01 && opcode & 0x83 != 0x02 && opcode & 0xC7 != 0xC6 && opcode & 0xC5 != 0x84 && opcode & 0x1F != 0x18 && opcode & 0x9F != 0x08 && opcode & 0x9F != 0x88 && opcode & 0xCF != 0x8A && opcode & 0xD7 != 0xC4 && opcode & 0xDF != 0x4C && opcode & 0xF7 == 0x24,
            pc == cpu0.pc,
            opcode == mgr_read(m0, cpu0.pc as int),
            old(self)@ == (CpuView { pc: wrap16(cpu0.pc + 1), ..cpu0 }),
            old(mem)@ == m0,
            bytes@ == seq![opcode],
        ensures
            ({
                let s = spec_execute(cpu0, m0);
                final(self)@ == s.cpu && final(mem)@ == s.mem && r@ == s.instr
            }),
    {
        let ghost opaddr = self@.pc;
        let mut bytes = bytes;

        let xs = (opcode >> 3) & 0x01;
        let (data, am, c): (u8, AddressingMode, usize) = if xs == 0 {
            let a = self.fetch(&*mem);
            (mem.read(a as usize), AddressingMode::ZeroPage(a), 3)
        } else {
            let a = self.fetch_word(&*mem);
            (mem.read(a as usize), AddressingMode::Absolute(a), 4)
        };
        let and = self.a & data;
        self.set_flag(Flag::Z, and == 0);
        self.set_flag(Flag::V, data & 0x40 != 0);
        self.set_flag(Flag::N, data & 0x80 != 0);
        am.add_to_vec(&mut bytes);
        let instr = Instruction::new(pc, &bytes, Instr::BIT, am, c);
        proof {
            assert(instr@ =~= spec_execute(cpu0, m0).instr);
        }
        instr
    }

    #[verifier::rlimit(100)]
    #[verifier::spinoff_prover]
    fn fam_load_imm(
        &mut self,
        mem: &mut MemoryManager,
        pc: u16,
        opcode: u8,
        bytes: Vec<u8>,
        Ghost(cpu0): Ghost<CpuView>,
        Ghost(m0): Ghost<MgrView>,
    ) -> (r: Instruction)
        requires
            opcode & 0x03 != 0x01 && opcode & 0x83 != 0x02 && opcode & 0xC7 != 0xC6 && opcode & 0xC5 != 0x84 && opcode & 0x1F != 0x18 && opcode & 0x9F != 0x08 && opcode & 0x9F != 0x88 && opcode & 0xCF != 0x8A && opcode & 0xD7 != 0xC4 && opcode & 0xDF != 0x4C && opcode & 0xF7 != 0x24 && opcode & 0xFD == 0xA0,
            pc == cpu0.pc,
            opcode == mgr_read(m0, cpu0.pc as int),
            old(self)@ == (CpuView { pc: wrap16(cpu0.pc + 1), ..cpu0 }),
            old(mem)@ == m0,
            bytes@ == seq![opcode],
        ensures
            ({
                let s = spec_execute(cpu0, m0);
                final(self)@ == s.cpu && final(mem)@ == s.mem && r@ == s.instr
            }),
    {
        let ghost opaddr = self@.pc;
        let mut bytes = bytes;

        let xs = (opcode >> 1) & 0x01;
        let data = self.fetch(&*mem);
        let am = AddressingMode::Immediate(data);
        let i = if xs == 0 {
            self.y = data;
            self.update_zn(data);
            Instr::LDY
        } else {
            self.x = data;
            self.update_zn(data);
            Instr::LDX
        };
        am.add_to_vec(&mut bytes);
        let instr = Instruction::new(pc, &bytes, i, am, 2);
        proof {
            assert(instr@ =~= spec_execute(cpu0, m0).instr);
        }
        instr
    }

    #[verifier::rlimit(100)]
    #[verifier::spinoff_prover]
    fn fam_branch(
        &mut self,
        mem: &mut MemoryManager,
        pc: u16,
        opcode: u8,
        bytes: Vec<u8>,
        Ghost(cpu0): Ghost<CpuView>,
        Ghost(m0): Ghost<MgrView>,
    ) -> (r: Instruction)
        requires
            opcode & 0x03 != 0x01 && opcode & 0x83 != 0x02 && opcode & 0xC7 != 0xC6 && opcode & 0xC5 != 0x84 && opcode & 0x1F != 0x18 && opcode & 0x9F != 0x08 && opcode & 0x9F != 0x88 && opcode & 0xCF != 0x8A && opcode & 0xD7 != 0xC4 && opcode & 0xDF != 0x4C && opcode & 0xF7 != 0x24 && opcode & 0xFD != 0xA0 && opcode & 0x1F == 0x10,
            pc == cpu0.pc,
            opcode == mgr_read(m0, cpu0.pc as int),
            old(self)@ == (CpuView { pc: wrap16(cpu0.pc + 1), ..cpu0 }),
            old(mem)@ == m0,
            bytes@ == seq![opcode],
        ensures
            ({
                let s = spec_execute(cpu0, m0);
                final(self)@ == s.cpu && final(mem)@ == s.mem && r@ == s.instr
            }),
    {
        let ghost opaddr = self@.pc;
        let mut bytes = bytes;

        let xs = (opcode >> 5) & 0x07;
        let offset = self.fetch(&*mem);
        let am = AddressingMode::Relative(offset);
        let (branch, i): (bool, Instr) = if xs == 0 {
            (!self.get_flag(Flag::N), Instr::BPL)
        } else if xs == 1 {
            (self.get_flag(Flag::N), Instr::BMI)
        } else if xs == 2 {
            (!self.get_flag(Flag::V), Instr::BVC)
        } else if xs == 3 {
            (self.get_flag(Flag::V), Instr::BVS)
        } else if xs == 4 {
            (!self.get_flag(Flag::C), Instr::BCC)
        } else if xs == 5 {
            (self.get_flag(Flag::C), Instr::BCS)
        } else if xs == 6 {
            (!self.get_flag(Flag::Z), Instr::BNE)
        } else {
            (self.get_flag(Flag::Z), Instr::BEQ)
        };
        let soff: i32 = if offset >= 128 {
            offset as i32 - 256
        } else {
            offset as i32
        };
        let t: i32 = self.pc as i32 + soff;
        let target: u16 = if t < 0 {
            (t + 0x10000) as u16
        } else if t > 0xFFFF {
            (t - 0x10000) as u16
        } else {
            t as u16
        };
        let mut c: usize = 2;
        if branch {
            c = if target / 256 != pc.wrapping_add(1) / 256 {
                4
            } else {
                3
            };
            self.pc = target;
        }
        am.add_to_vec(&mut bytes);
        let instr = Instruction::new(pc, &bytes, i, am, c);
        proof {
            assert(instr@ =~= spec_execute(cpu0, m0).instr);
        }
        instr
    }

    #[verifier::rlimit(100)]
    #[verifier::spinoff_prover]
    fn fam_control(
        &mut self,
        mem: &mut MemoryManager,
        pc: u16,
        opcode: u8,
        bytes: Vec<u8>,
        Ghost(cpu0): Ghost<CpuView>,
        Ghost(m0): Ghost<MgrView>,
    ) -> (r: Instruction)
        requires
            opcode & 0x03 != 0x01 && opcode & 0x83 != 0x02 && opcode & 0xC7 != 0xC6 && opcode & 0xC5 != 0x84 && opcode & 0x1F != 0x18 && opcode & 0x9F != 0x08 && opcode & 0x9F != 0x88 && opcode & 0xCF != 0x8A && opcode & 0xD7 != 0xC4 && opcode & 0xDF != 0x4C && opcode & 0xF7 != 0x24 && opcode & 0xFD != 0xA0 && opcode & 0x1F != 0x10 && (opcode == 0x20 || opcode == 0x60 || opcode == 0x40 || opcode == 0x00),
            pc == cpu0.pc,
            opcode == mgr_read(m0, cpu0.pc as int),
            old(self)@ == (CpuView { pc: wrap16(cpu0.pc + 1), ..cpu0 }),
            old(mem)@ == m0,
            bytes@ == seq![opcode],
        ensures
            ({
                let s = spec_execute(cpu0, m0);
                final(self)@ == s.cpu && final(mem)@ == s.mem && r@ == s.instr
            }),
    {
        let ghost opaddr = self@.pc;
        let mut bytes = bytes;

        if opcode == 0x20 {
            // JSR: push the address of the operand's last byte, then jump
            let addr = self.fetch_word(&*mem);
            let am = AddressingMode::Absolute(addr);
            let ret = self.pc.wrapping_sub(1);
            self.push_word(mem, ret);
            self.pc = addr;
            am.add_to_vec(&mut bytes);
            let instr = Instruction::new(pc, &bytes, Instr::JSR, AddressingMode::Implied(), 6);
            proof {
                assert(instr@ =~= spec_execute(cpu0, m0).instr);
            }
            instr
        } else if opcode == 0x60 {
            // RTS: return to the pushed address plus one
            let w = self.pop_word(mem);
            self.pc = w.wrapping_add(1);
            let instr = Instruction::new(pc, &bytes, Instr::RTS, AddressingMode::Implied(), 6);
            proof {
                assert(instr@ =~= spec_execute(cpu0, m0).instr);
            }
            instr
        } else if opcode == 0x40 {
            // RTI: restore the status register, then the program counter
            let st = self.pop(mem);
            self.status = st;
            let w = self.pop_word(mem);
            self.pc = w;
            let instr = Instruction::new(pc, &bytes, Instr::RTI, AddressingMode::Implied(), 6);
            proof {
                assert(instr@ =~= spec_execute(cpu0, m0).instr);
            }
            instr
        } else {
            // BRK: push the return address and status, then take the
            // interrupt vector at 0xFFFE
            let ret = self.pc.wrapping_add(1);
            self.push_word(mem, ret);
            let st = self.status;
            self.push(mem, st);
            self.pc = mem.read_word(0xFFFE);
            let instr = Instruction::new(pc, &bytes, Instr::BRK, AddressingMode::Implied(), 7);
            proof {
                assert(instr@ =~= spec_execute(cpu0, m0).instr);
            }
            instr
        }
    }

    #[verifier::rlimit(100)]
    #[verifier::spinoff_prover]
    fn fam_compare_imm(
        &mut self,
        mem: &mut MemoryManager,
        pc: u16,
        opcode: u8,
        bytes: Vec<u8>,
        Ghost(cpu0): Ghost<CpuView>,
        Ghost(m0): Ghost<MgrView>,
    ) -> (r: Instruction)
        requires
            opcode & 0x03 != 0x01 && opcode & 0x83 != 0x02 && opcode & 0xC7 != 0xC6 && opcode & 0xC5 != 0x84 && opcode & 0x1F != 0x18 && opcode & 0x9F != 0x08 && opcode & 0x9F != 0x88 && opcode & 0xCF != 0x8A && opcode & 0xD7 != 0xC4 && opcode & 0xDF != 0x4C && opcode & 0xF7 != 0x24 && opcode & 0xFD != 0xA0 && opcode & 0x1F != 0x10 && opcode != 0x20 && opcode != 0x60 && opcode != 0x40 && opcode != 0x00 && opcode & 0xDF == 0xC0,
            pc == cpu0.pc,
            opcode == mgr_read(m0, cpu0.pc as int),
            old(self)@ == (CpuView { pc: wrap16(cpu0.pc + 1), ..cpu0 }),
            old(mem)@ == m0,
            bytes@ == seq![opcode],
        ensures
            ({
                let s = spec_execute(cpu0, m0);
                final(self)@ == s.cpu && final(mem)@ == s.mem && r@ == s.instr
            }),
    {
        let ghost opaddr = self@.pc;
        let mut bytes = bytes;

        let xs = (opcode >> 5) & 0x01;
        let (i, reg): (Instr, u8) = if xs == 0 {
            (Instr::CPY, self.y)
        } else {
            (Instr::CPX, self.x)
        };
        let data = self.fetch(&*mem);
        let result = reg.wrapping_sub(data);
        self.update_zn(result);
        self.set_flag(Flag::C, reg >= data);
        let am = AddressingMode::Immediate(data);
        am.add_to_vec(&mut bytes);
        let instr = Instruction::new(pc, &bytes, i, am, 2);
        proof {
            assert(instr@ =~= spec_execute(cpu0, m0).instr);
        }
        instr
    }

    /// Decodes the opcode at the program counter, applies the instruction's
    /// whole architectural effect, and returns it with its cycle budget.
    /// An unrecognised opcode retires as `UNK` with a budget of 0; nothing
    /// here can fail on a misbehaving guest program.
    #[verifier::rlimit(100)]
    #[verifier::spinoff_prover]
    fn execute(&mut self, mem: &mut MemoryManager) -> (r: Instruction)
        ensures
            ({
                let s = spec_execute(old(self)@, old(mem)@);
                final(self)@ == s.cpu && final(mem)@ == s.mem && r@ == s.instr
            }),
    {
        let ghost cpu0 = self@;
        let ghost m0 = mem@;
        let pc = self.pc;
        let opcode = self.fetch(&*mem);
        let mut bytes: Vec<u8> = Vec::new();
        bytes.push(opcode);
        proof {
            assert(bytes@ =~= seq![opcode]);
        }
        if opcode & 0x03 == 0x01 {
            self.fam_arith(mem, pc, opcode, bytes, Ghost(cpu0), Ghost(m0))
        } else if opcode & 0x83 == 0x02 {
            self.fam_shift(mem, pc, opcode, bytes, Ghost(cpu0), Ghost(m0))
        } else if opcode & 0xC7 == 0xC6 {
            self.fam_incdec(mem, pc, opcode, bytes, Ghost(cpu0), Ghost(m0))
        } else if opcode & 0xC5 == 0x84 {
            self.fam_xy(mem, pc, opcode, bytes, Ghost(cpu0), Ghost(m0))
        } else if opcode & 0x1F == 0x18 {
            self.fam_flag_ops(mem, pc, opcode, bytes, Ghost(cpu0), Ghost(m0))
        } else if opcode & 0x9F == 0x08 {
            self.fam_stack_ops(mem, pc, opcode, bytes, Ghost(cpu0), Ghost(m0))
        } else if opcode & 0x9F == 0x88 {
            self.fam_index_ops(mem, pc, opcode, bytes, Ghost(cpu0), Ghost(m0))
        } else if opcode & 0xCF == 0x8A {
            self.fam_transfers(mem, pc, opcode, bytes, Ghost(cpu0), Ghost(m0))
        } else if opcode & 0xD7 == 0xC4 {
            self.fam_compare_mem(mem, pc, opcode, bytes, Ghost(cpu0), Ghost(m0))
        } else if opcode & 0xDF == 0x4C {
            self.fam_jmp(mem, pc, opcode, bytes, Ghost(cpu0), Ghost(m0))
        } else if opcode & 0xF7 == 0x24 {
            self.fam_bit(mem, pc, opcode, bytes, Ghost(cpu0), Ghost(m0))
        } else if opcode & 0xFD == 0xA0 {
            self.fam_load_imm(mem, pc, opcode, bytes, Ghost(cpu0), Ghost(m0))
        } else if opcode & 0x1F == 0x10 {
            self.fam_branch(mem, pc, opcode, bytes, Ghost(cpu0), Ghost(m0))
        } else if opcode == 0x20 || opcode == 0x60 || opcode == 0x40 || opcode == 0x00 {
            self.fam_control(mem, pc, opcode, bytes, Ghost(cpu0), Ghost(m0))
        } else if opcode & 0xDF == 0xC0 {
            self.fam_compare_imm(mem, pc, opcode, bytes, Ghost(cpu0), Ghost(m0))
        } else {
            // an opcode outside the documented set
            let instr = Instruction::new(pc, &bytes, Instr::UNK, AddressingMode::Implied(), 0);
            proof {
                assert(instr@ =~= spec_execute(cpu0, m0).instr);
            }
            instr
        }
    }

    /// One emulated clock tick. When no instruction is in flight the decoder
    /// runs (applying the instruction's whole effect at once) and its cycle
    /// budget starts counting; the tick is counted and the in-flight
    /// instruction retires, and is returned, when its budget is spent.
    pub fn cycle(&mut self, mem: &mut MemoryManager) -> (r: Option<Instruction>)
        ensures
            ({
                let (c, m2, ri) = spec_cycle(old(self)@, old(mem)@);
                &&& final(self)@ == c
                &&& final(mem)@ == m2
                &&& (match r {
                    Some(i) => ri is Some && i@ == ri->Some_0,
                    None => ri is None,
                })
            }),
    {
        if self.current.is_none() {
            let i = self.execute(mem);
            self.current = Some(i);
        }
        self.cycles = if self.cycles < usize::MAX {
            self.cycles + 1
        } else {
            self.cycles
        };
        let mut done = false;
        match &mut self.current {
            Some(cur) => {
                done = cur.cycle();
            },
            None => {},
        }
        if done {
            self.current.take()
        } else {
            None
        }
    }

    /// Runs clock ticks until an instruction retires, and returns it. An
    /// instruction whose budget is `k >= 1` takes exactly `k` ticks, so the
    /// cycle counter grows by the retired instruction's budget.
    #[verifier::rlimit(100)]
    #[verifier::spinoff_prover]
    pub fn step(&mut self, mem: &mut MemoryManager) -> (r: Instruction)
        ensures
            ({
                let s = spec_step(old(self)@, old(mem)@);
                final(self)@ == s.cpu && final(mem)@ == s.mem && r@ == s.instr
            }),
    {
        let ghost (tcpu, tmem, tins) = step_pre(old(self)@, old(mem)@);
        let ghost mut j: int = 0;
        loop
            invariant
                step_pre(old(self)@, old(mem)@) == (tcpu, tmem, tins),
                j >= 0,
                j == 0 ==> self@ == old(self)@ && mem@ == old(mem)@,
                j > 0 ==> mem@ == tmem && j < tins.cycles && self@ == (CpuView {
                    cycles: sat_add(tcpu.cycles, j),
                    current: Some(InstrView { cycles: (tins.cycles - j) as usize, ..tins }),
                    ..tcpu
                }),
            decreases (if j == 0 {
                tins.cycles as int + 1
            } else {
                tins.cycles - j
            }),
        {
            let ghost pre_cpu = self@;
            let ghost pre_mem = mem@;
            let r = self.cycle(mem);
            proof {
                if j == 0 {
                    assert(pre_cpu == old(self)@ && pre_mem == old(mem)@);
                } else {
                    // the in-flight instruction still has ticks left
                    assert(pre_cpu.current == Some(
                        InstrView { cycles: (tins.cycles - j) as usize, ..tins },
                    ));
                }
            }
            match r {
                Some(i) => {
                    self.steps = if self.steps < usize::MAX {
                        self.steps + 1
                    } else {
                        self.steps
                    };
                    proof {
                        let s = spec_step(old(self)@, old(mem)@);
                        if j == 0 {
                            assert(tins.cycles <= 1);
                        } else {
                            assert(tins.cycles - j == 1);
                            assert(sat_inc(sat_add(tcpu.cycles, j)) == sat_add(
                                tcpu.cycles,
                                j + 1,
                            ));
                        }
                        assert(self@ =~= s.cpu);
                        assert(i@ =~= s.instr);
                    }
                    return i;
                },
                None => {
                    proof {
                        j = j + 1;
                        if j == 1 {
                            assert(sat_inc(tcpu.cycles) == sat_add(tcpu.cycles, 1));
                        } else {
                            assert(sat_inc(sat_add(tcpu.cycles, j - 1)) == sat_add(
                                tcpu.cycles,
                                j,
                            ));
                        }
                        assert(self@ =~= (CpuView {
                            cycles: sat_add(tcpu.cycles, j),
                            current: Some(
                                InstrView { cycles: (tins.cycles - j) as usize, ..tins },
                            ),
                            ..tcpu
                        }));
                    }
                },
            }
        }
    }
}

} // verus!
