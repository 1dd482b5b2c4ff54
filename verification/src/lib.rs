//! A cycle-driven MOS 6502 execution engine with a banked memory fabric.
//!
//! The crate models the processor (registers, flags, decoder, per-instruction
//! cycle accounting) and a memory manager that routes byte and word accesses
//! across mapped regions of writable RAM, read-only ROM images, and
//! display-backed video memory. Every state transition is specified against a
//! mathematical model of the machine and verified.
use vstd::prelude::*;

pub mod addressing_mode;
pub mod apple_string;
pub mod cpu;
pub mod display;
pub mod instruction;
pub mod isa;
pub mod machine;
pub mod memory;
pub mod ram;
pub mod rom;
pub mod text;
pub mod vram;

verus! {

/// A message for the display subsystem.
pub enum DisplayCommand {
    /// A video-memory cell changed.
    Write(usize, u8),
    /// Present the frame.
    Redraw,
    /// Shut down with the given code.
    Exit(u8),
}

/// A command for the emulator loop.
pub enum EmulatorCommand {
    Cycle,
    Step,
    Run,
    Stop,
    Reset,
}

} // verus!
