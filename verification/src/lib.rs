//! Instruction-level emulation of the ARM7TDMI processor core of the
//! Game Boy Advance, together with the console's memory bus.
//!
//! The crate models the CPU's dual instruction decoders (32-bit ARM and
//! 16-bit THUMB), its banked register file and mode machinery, the barrel
//! shifter and ALU with exact carry/overflow semantics, the exception
//! entry sequence, and a bus that routes byte, halfword and word accesses
//! to the GBA's memory regions.

pub mod error;
pub mod psr;
pub mod armcondition;
pub mod exception;
pub mod armdpop;
pub mod bitutil;
pub mod armbsop;
pub mod alu;
pub mod arminstruction;
pub mod thumbinstruction;
pub mod memory;
pub mod ioregs;
pub mod gamepak;
pub mod bus;
pub mod arm7tdmi;
pub mod execarm;
pub mod execldm;
pub mod execthumb;
pub mod gba;
pub mod disasm;
pub mod diff;
