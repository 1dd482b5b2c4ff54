//! A whole machine: a processor wired to a memory fabric with a concrete
//! region layout, exposing reset, clock ticks, whole steps, and raw memory
//! access.
use vstd::prelude::*;

use crate::cpu::MOS6502;
use crate::instruction::InstrView;
use crate::isa::{spec_cycle, spec_step, CpuView};
use crate::memory::{clear_first_vram, first_vram_events, mgr_read, mgr_read_word, mgr_write,
    Endian, EntryView, Memory, MemoryManager, MgrView, Region, RegionView};
use crate::ram::RAM;
use crate::rom::ROM;
use crate::vram::VRAM;

verus! {

/// What every machine variant offers: a power-on reset, a single clock
/// tick, a whole instruction step, and raw byte access to its bus.
pub trait Machine {
    fn reset(&mut self);

    fn cycle(&mut self);

    fn step(&mut self);

    fn read(&self, addr: usize) -> u8;

    fn write(&mut self, addr: usize, data: u8);
}

/// The ghost shape of a machine: its processor and its memory fabric.
#[verifier::ext_equal]
pub struct MachineView {
    pub cpu: CpuView,
    pub mem: MgrView,
}

/// An 8-bit microcomputer: a 6502 over a 64 KiB bus with video memory
/// shadowing the text page and four ROM windows shadowing the RAM beneath
/// them.
pub struct AppleIIe {
    cpu: MOS6502,
    memory: MemoryManager,
}

impl View for AppleIIe {
    type V = MachineView;

    closed spec fn view(&self) -> MachineView {
        MachineView { cpu: self.cpu@, mem: self.memory@ }
    }
}

/// The machine's memory map, newest mapping first: ROM images at 0xE000,
/// 0xC800, 0xC100 and 0xF800, video memory over the text page at 0x0400,
/// and 64 KiB of RAM underneath everything.
pub open spec fn apple_layout(f8: Seq<u8>, c1: Seq<u8>, c8: Seq<u8>, e0: Seq<u8>) -> MgrView {
    MgrView {
        entries: seq![
            EntryView {
                base: 0xE000,
                id: 0,
                region: RegionView::Rom { bytes: e0, endian: Endian::Little },
            },
            EntryView {
                base: 0xC800,
                id: 0,
                region: RegionView::Rom { bytes: c8, endian: Endian::Little },
            },
            EntryView {
                base: 0xC100,
                id: 0,
                region: RegionView::Rom { bytes: c1, endian: Endian::Little },
            },
            EntryView {
                base: 0xF800,
                id: 0,
                region: RegionView::Rom { bytes: f8, endian: Endian::Little },
            },
            EntryView {
                base: 0x0400,
                id: 0,
                region: RegionView::Vram {
                    size: 0x400,
                    endian: Endian::Little,
                    events: Seq::empty(),
                },
            },
            EntryView {
                base: 0,
                id: 0,
                region: RegionView::Ram {
                    bytes: Seq::new(0x10000, |i: int| 0u8),
                    endian: Endian::Little,
                },
            },
        ],
        endian: Endian::Little,
        max_addr: 0xFFFF,
    }
}

/// The processor exactly as `reset` leaves it over the memory `m`.
pub open spec fn reset_cpu(m: MgrView) -> CpuView {
    CpuView {
        a: 0u8,
        x: 0u8,
        y: 0u8,
        sp: 0xFDu8,
        pc: mgr_read_word(m, 0xFFFC),
        status: 0x04u8,
        cycles: 0usize,
        steps: 0usize,
        current: None::<InstrView>,
    }
}

impl AppleIIe {
    /// Builds the machine around the four ROM images (monitor, the two
    /// 80-column card windows, and BASIC) and resets it. Each image covers
    /// as many addresses as it has bytes.
    pub fn new(rom_f8: Vec<u8>, rom_c1: Vec<u8>, rom_c8: Vec<u8>, rom_e0: Vec<u8>) -> (r: AppleIIe)
        ensures
            ({
                let layout = apple_layout(rom_f8@, rom_c1@, rom_c8@, rom_e0@);
                r@.mem == layout && r@.cpu == reset_cpu(layout)
            }),
    {
        let ghost layout = apple_layout(rom_f8@, rom_c1@, rom_c8@, rom_e0@);
        let mut mm = MemoryManager::new(0xFFFF);
        mm.map(0, Region::Ram(RAM::new(0x10000, Endian::Little)));
        // Text page: writes go to the display
        mm.map(0x0400, Region::Vram(VRAM::new(0x400, Endian::Little)));
        // Monitor ROM
        mm.map(0xF800, Region::Rom(ROM::new(0x800, Endian::Little, rom_f8)));
        // 80-column card
        mm.map(0xC100, Region::Rom(ROM::new(0x300, Endian::Little, rom_c1)));
        mm.map(0xC800, Region::Rom(ROM::new(0x800, Endian::Little, rom_c8)));
        // Integer BASIC
        mm.map(0xE000, Region::Rom(ROM::new(0x1800, Endian::Little, rom_e0)));
        proof {
            assert(mm@ =~= layout);
        }
        let mut cpu = MOS6502::new();
        cpu.reset(&mm);
        AppleIIe { cpu, memory: mm }
    }

    /// Direct access to the machine's memory fabric.
    pub fn get_memory(&mut self) -> (r: &mut MemoryManager)
        ensures
            r@ == old(self)@.mem,
            final(self)@ == (MachineView { cpu: old(self)@.cpu, mem: final(r)@ }),
    {
        &mut self.memory
    }

    /// Hands out the display events pending in the video region, oldest
    /// first, leaving none behind.
    pub fn take_display_events(&mut self) -> (r: Vec<(usize, u8)>)
        ensures
            r@ == first_vram_events(old(self)@.mem.entries),
            final(self)@ == (MachineView {
                cpu: old(self)@.cpu,
                mem: MgrView {
                    entries: clear_first_vram(old(self)@.mem.entries),
                    ..old(self)@.mem
                },
            }),
    {
        self.memory.take_display_events()
    }
}

impl Machine for AppleIIe {
    /// Returns the processor to its power-on state; memory is untouched.
    fn reset(&mut self)
        ensures
            final(self)@ == (MachineView {
                cpu: reset_cpu(old(self)@.mem),
                mem: old(self)@.mem,
            }),
    {
        self.cpu.reset(&self.memory);
    }

    /// One emulated clock tick of the processor.
    fn cycle(&mut self)
        ensures
            ({
                let (c, m2, r) = spec_cycle(old(self)@.cpu, old(self)@.mem);
                final(self)@ == (MachineView { cpu: c, mem: m2 })
            }),
    {
        let _retired = self.cpu.cycle(&mut self.memory);
    }

    /// Runs the processor until one whole instruction retires.
    fn step(&mut self)
        ensures
            ({
                let s = spec_step(old(self)@.cpu, old(self)@.mem);
                final(self)@ == (MachineView { cpu: s.cpu, mem: s.mem })
            }),
    {
        let _retired = self.cpu.step(&mut self.memory);
    }

    /// Reads one byte off the bus (through the mapped regions).
    fn read(&self, addr: usize) -> (r: u8)
        ensures
            r == mgr_read(self@.mem, addr as int),
    {
        self.memory.read(addr)
    }

    /// Writes one byte onto the bus (through the mapped regions).
    fn write(&mut self, addr: usize, data: u8)
        ensures
            final(self)@ == (MachineView {
                cpu: old(self)@.cpu,
                mem: mgr_write(old(self)@.mem, addr as int, data),
            }),
    {
        self.memory.write(addr, data);
    }
}

} // verus!
