//! The sixteen data-processing opcodes shared by the ARM and THUMB
//! executors.

use vstd::prelude::*;

verus! {

/// A data processing opcode.
#[derive(Debug, PartialEq, Eq, Structural, Clone, Copy)]
pub enum ArmDPOP {
    /// Bitwise AND.
    AND,
    /// Bitwise XOR.
    EOR,
    /// Subtraction.
    SUB,
    /// Reverse subtraction.
    RSB,
    /// Addition.
    ADD,
    /// Add with carry.
    ADC,
    /// Subtract with borrow.
    SBC,
    /// Reverse subtract with borrow.
    RSC,
    /// Test bits.
    TST,
    /// Test bitwise equality.
    TEQ,
    /// Compare.
    CMP,
    /// Compare negative.
    CMN,
    /// Bitwise OR.
    ORR,
    /// Move value.
    MOV,
    /// Bit clear.
    BIC,
    /// Move bitwise negated value.
    MVN,
}

/// The 4-bit encoding of a data processing opcode.
pub open spec fn dpop_code(op: ArmDPOP) -> u32 {
    match op {
        ArmDPOP::AND => 0,
        ArmDPOP::EOR => 1,
        ArmDPOP::SUB => 2,
        ArmDPOP::RSB => 3,
        ArmDPOP::ADD => 4,
        ArmDPOP::ADC => 5,
        ArmDPOP::SBC => 6,
        ArmDPOP::RSC => 7,
        ArmDPOP::TST => 8,
        ArmDPOP::TEQ => 9,
        ArmDPOP::CMP => 10,
        ArmDPOP::CMN => 11,
        ArmDPOP::ORR => 12,
        ArmDPOP::MOV => 13,
        ArmDPOP::BIC => 14,
        ArmDPOP::MVN => 15,
    }
}

/// The data processing opcode encoded by a 4-bit code.
pub open spec fn dpop_of_code(c: u32) -> ArmDPOP {
    if c == 0 {
        ArmDPOP::AND
    } else if c == 1 {
        ArmDPOP::EOR
    } else if c == 2 {
        ArmDPOP::SUB
    } else if c == 3 {
        ArmDPOP::RSB
    } else if c == 4 {
        ArmDPOP::ADD
    } else if c == 5 {
        ArmDPOP::ADC
    } else if c == 6 {
        ArmDPOP::SBC
    } else if c == 7 {
        ArmDPOP::RSC
    } else if c == 8 {
        ArmDPOP::TST
    } else if c == 9 {
        ArmDPOP::TEQ
    } else if c == 10 {
        ArmDPOP::CMP
    } else if c == 11 {
        ArmDPOP::CMN
    } else if c == 12 {
        ArmDPOP::ORR
    } else if c == 13 {
        ArmDPOP::MOV
    } else if c == 14 {
        ArmDPOP::BIC
    } else {
        ArmDPOP::MVN
    }
}

/// Whether an opcode is one of the four test opcodes, which update the
/// flags but write no destination register.
pub open spec fn dpop_is_test(op: ArmDPOP) -> bool {
    op is TST || op is TEQ || op is CMP || op is CMN
}

/// Whether an opcode is one of the two move opcodes, which ignore the
/// first operand.
pub open spec fn dpop_is_move(op: ArmDPOP) -> bool {
    op is MOV || op is MVN
}

/// Whether an opcode is a logical operation, for which the C flag comes
/// from the barrel shifter and V is preserved. The others are the
/// arithmetic operations, for which C and V come from the adder.
pub open spec fn dpop_is_logical(op: ArmDPOP) -> bool {
    op is AND || op is EOR || op is TST || op is TEQ || op is ORR || op is MOV || op is BIC
        || op is MVN
}

/// Builds a data processing opcode from a 4-bit code.
pub fn dpop_from_code(c: u32) -> (r: ArmDPOP)
    requires
        c < 16,
    ensures
        r == dpop_of_code(c),
        dpop_code(r) == c,
{
    if c == 0 {
        ArmDPOP::AND
    } else if c == 1 {
        ArmDPOP::EOR
    } else if c == 2 {
        ArmDPOP::SUB
    } else if c == 3 {
        ArmDPOP::RSB
    } else if c == 4 {
        ArmDPOP::ADD
    } else if c == 5 {
        ArmDPOP::ADC
    } else if c == 6 {
        ArmDPOP::SBC
    } else if c == 7 {
        ArmDPOP::RSC
    } else if c == 8 {
        ArmDPOP::TST
    } else if c == 9 {
        ArmDPOP::TEQ
    } else if c == 10 {
        ArmDPOP::CMP
    } else if c == 11 {
        ArmDPOP::CMN
    } else if c == 12 {
        ArmDPOP::ORR
    } else if c == 13 {
        ArmDPOP::MOV
    } else if c == 14 {
        ArmDPOP::BIC
    } else {
        ArmDPOP::MVN
    }
}

impl ArmDPOP {
    /// Checks whether this instruction does not write any results to a
    /// destination register.
    pub fn is_test(self) -> (r: bool)
        ensures
            r == dpop_is_test(self),
    {
        match self {
            ArmDPOP::TST | ArmDPOP::TEQ | ArmDPOP::CMP | ArmDPOP::CMN => true,
            _ => false,
        }
    }

    /// Checks whether this instruction is a move instruction.
    pub fn is_move(self) -> (r: bool)
        ensures
            r == dpop_is_move(self),
    {
        match self {
            ArmDPOP::MOV | ArmDPOP::MVN => true,
            _ => false,
        }
    }

    /// Checks whether this instruction is a logical operation, as
    /// opposed to an arithmetic one.
    pub fn is_logical(self) -> (r: bool)
        ensures
            r == dpop_is_logical(self),
    {
        match self {
            ArmDPOP::AND | ArmDPOP::EOR | ArmDPOP::TST | ArmDPOP::TEQ | ArmDPOP::ORR
            | ArmDPOP::MOV | ArmDPOP::BIC | ArmDPOP::MVN => true,
            _ => false,
        }
    }
}

} // verus!
