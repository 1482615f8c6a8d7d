//! The closed set of failure kinds raised by the emulator core.

use vstd::prelude::*;

verus! {

/// An error caused during GBA hardware emulation.
///
/// All of these bubble out of the CPU's step function unchanged; the
/// core neither retries nor logs. Recoverable architectural events
/// (undefined instructions, software interrupts, aborts) are not errors:
/// they are delivered through the exception mechanism instead.
#[derive(Debug, PartialEq, Eq, Structural, Clone, Copy)]
pub enum GbaError {
    /// An invalid ARM instruction has been decoded.
    InvalidArmInstruction(u32),
    /// An invalid THUMB instruction has been decoded.
    InvalidThumbInstruction(u16),
    /// An instruction using the reserved `NV` condition has been executed.
    ReservedArmConditionNV,
    /// Tried accessing an invalid physical address.
    InvalidPhysicalAddress(u32),
    /// Tried writing to a ROM.
    InvalidRomAccess(u32),
    /// Tried accessing `.1` bits of data at the memory location `.0`.
    InvalidMemoryBusWidth(u32, u8),
    /// An instruction illegally writes to or reads from PC.
    InvalidUseOfR15,
    /// Registers that should be distinct are the same.
    InvalidRegisterReuse(usize, usize, usize, usize),
    /// Writing an offset back to a base register where the instruction shouldn't.
    InvalidOffsetWriteBack,
    /// Tried executing a privileged instruction in user mode.
    PrivilegedUserCode,
    /// The CPSR mode field holds a pattern outside the mode table.
    InvalidPsrMode,
}

} // verus!
