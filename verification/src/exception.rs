//! The exceptions the ARM7TDMI can take, with their priorities, entry
//! modes, and vector addresses.

use vstd::prelude::*;

use crate::psr::Mode;

verus! {

/// CPU exceptions.
#[derive(Debug, PartialEq, Eq, Structural, Clone, Copy)]
pub enum Exception {
    /// Exception due to resetting the CPU.
    Reset,
    /// Exception due to executing undefined instructions.
    UndefinedInstruction,
    /// Exception due to executing SWI.
    SoftwareInterrupt,
    /// Instruction prefetching aborted.
    PrefetchAbort,
    /// Data prefetching aborted.
    DataAbort,
    /// Exception due to resolving large addresses.
    AddressExceeds26Bit,
    /// Exception due to a normal hardware interrupt.
    NormalInterrupt,
    /// Exception due to a fast hardware interrupt.
    FastInterrupt,
}

/// The index of an exception, which determines its vector address.
pub open spec fn exception_index(e: Exception) -> u32 {
    match e {
        Exception::Reset => 0,
        Exception::UndefinedInstruction => 1,
        Exception::SoftwareInterrupt => 2,
        Exception::PrefetchAbort => 3,
        Exception::DataAbort => 4,
        Exception::AddressExceeds26Bit => 5,
        Exception::NormalInterrupt => 6,
        Exception::FastInterrupt => 7,
    }
}

/// The priority of an exception: 1 is highest, 7 lowest.
pub open spec fn exception_priority(e: Exception) -> u8 {
    match e {
        Exception::Reset => 1,
        Exception::UndefinedInstruction => 7,
        Exception::SoftwareInterrupt => 6,
        Exception::PrefetchAbort => 5,
        Exception::DataAbort => 2,
        Exception::AddressExceeds26Bit => 3,
        Exception::NormalInterrupt => 4,
        Exception::FastInterrupt => 3,
    }
}

/// The mode an exception switches the CPU into.
pub open spec fn exception_mode(e: Exception) -> Mode {
    match e {
        Exception::Reset => Mode::Supervisor,
        Exception::UndefinedInstruction => Mode::Undefined,
        Exception::SoftwareInterrupt => Mode::Supervisor,
        Exception::PrefetchAbort => Mode::Abort,
        Exception::DataAbort => Mode::Abort,
        Exception::AddressExceeds26Bit => Mode::Supervisor,
        Exception::NormalInterrupt => Mode::IRQ,
        Exception::FastInterrupt => Mode::FIQ,
    }
}

impl Exception {
    /// Get the exception's priority. 1 = highest, 7 = lowest.
    pub fn priority(self) -> (r: u8)
        ensures
            r == exception_priority(self),
    {
        match self {
            Exception::Reset => 1,
            Exception::UndefinedInstruction => 7,
            Exception::SoftwareInterrupt => 6,
            Exception::PrefetchAbort => 5,
            Exception::DataAbort => 2,
            Exception::AddressExceeds26Bit => 3,
            Exception::NormalInterrupt => 4,
            Exception::FastInterrupt => 3,
        }
    }

    /// Get the exception's CPU mode on entry.
    pub fn mode_on_entry(self) -> (r: Mode)
        ensures
            r == exception_mode(self),
    {
        match self {
            Exception::Reset => Mode::Supervisor,
            Exception::UndefinedInstruction => Mode::Undefined,
            Exception::SoftwareInterrupt => Mode::Supervisor,
            Exception::PrefetchAbort => Mode::Abort,
            Exception::DataAbort => Mode::Abort,
            Exception::AddressExceeds26Bit => Mode::Supervisor,
            Exception::NormalInterrupt => Mode::IRQ,
            Exception::FastInterrupt => Mode::FIQ,
        }
    }

    /// Check whether fast interrupts should be disabled on entry.
    /// Only Reset and FastInterrupt set the F bit; every exception
    /// sets the I bit.
    pub fn disable_fiq_on_entry(self) -> (r: bool)
        ensures
            r == (self is Reset || self is FastInterrupt),
    {
        match self {
            Exception::Reset => true,
            Exception::FastInterrupt => true,
            _ => false,
        }
    }

    /// The exception's index in the vector table.
    pub fn index(self) -> (r: u32)
        ensures
            r == exception_index(self),
    {
        match self {
            Exception::Reset => 0,
            Exception::UndefinedInstruction => 1,
            Exception::SoftwareInterrupt => 2,
            Exception::PrefetchAbort => 3,
            Exception::DataAbort => 4,
            Exception::AddressExceeds26Bit => 5,
            Exception::NormalInterrupt => 6,
            Exception::FastInterrupt => 7,
        }
    }

    /// Get the exception vector address: four bytes per table entry.
    pub fn vector_address(self) -> (r: u32)
        ensures
            r == 4 * exception_index(self),
    {
        self.index() * 4
    }
}

} // verus!
