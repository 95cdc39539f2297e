//! The processor and cartridge core of a NES emulator.
//!
//! The crate holds the processor of the console, a member of the 6502
//! family, with all its documented and undocumented instructions, its
//! three interrupts and its cycle counts, and the cartridge boards that sit
//! behind its address bus. The picture unit is a value of the crate
//! `tudelft_nes_ppu`, which also opens the window and drives the clock.
//!
//! Every function is verified against a contract. The contracts speak of
//! the machine as a mathematical value: [`cpu::state::CpuState`] for the
//! processor and [`memory::MemoryView`] for what is behind its bus. What
//! the picture unit answers is not known here; where an instruction reads
//! from it, the contracts say what holds whatever it answers.
//!
//! - [`cpu::instructions`] and [`cpu::opcodes`]: the instruction set, the
//!   opcode table and the cycle table.
//! - [`cpu::alu`] and [`cpu::execute`]: what the instructions compute and do.
//! - [`cpu::driver`]: the cycle driver with reset and interrupts.
//! - [`cpu::laws`]: what holds of the instruction set as a whole.
//! - [`memory`]: the address bus, the controller port and the cartridge.

pub mod bits;
pub mod cpu;
pub mod error;
pub mod memory;
pub mod text;
