//! The 4-bit condition field of an ARM/THUMB instruction.

use vstd::prelude::*;

use crate::error::GbaError;
use crate::psr::{c_flag, n_flag, v_flag, z_flag, CPSR};

verus! {

/// The condition field of an ARM instruction.
#[derive(Debug, PartialEq, Eq, Structural, Clone, Copy)]
pub enum ArmCondition {
    /// Z set. EQual.
    EQ,
    /// Z clear. Not Equal.
    NE,
    /// C set. Unsigned Higher or Same.
    HS,
    /// C clear. Unsigned LOwer.
    LO,
    /// N set. MInus, i.e. negative.
    MI,
    /// N clear. PLus, i.e. positive or zero.
    PL,
    /// V Set. Overflow.
    VS,
    /// V Clear. No Overflow.
    VC,
    /// C set and Z clear. Unsigned HIgher.
    HI,
    /// C clear or Z set. Unsigned Lower or Same.
    LS,
    /// N equals V. Greater than or Equal to.
    GE,
    /// N distinct from V. Less Than.
    LT,
    /// Z clear and N equals V. Greater Than.
    GT,
    /// Z set or N distinct from V. Less than or Equal to.
    LE,
    /// ALways execute this instruction, i.e. no condition.
    AL,
    /// Reserved.
    NV,
}

/// The standard ARM condition table over the four PSR flags. `None`
/// stands for the reserved condition `NV`, which the evaluator reports
/// as an error.
pub open spec fn condition_table(c: ArmCondition, psr: u32) -> Option<bool> {
    match c {
        ArmCondition::EQ => Some(z_flag(psr)),
        ArmCondition::NE => Some(!z_flag(psr)),
        ArmCondition::HS => Some(c_flag(psr)),
        ArmCondition::LO => Some(!c_flag(psr)),
        ArmCondition::MI => Some(n_flag(psr)),
        ArmCondition::PL => Some(!n_flag(psr)),
        ArmCondition::VS => Some(v_flag(psr)),
        ArmCondition::VC => Some(!v_flag(psr)),
        ArmCondition::HI => Some(c_flag(psr) && !z_flag(psr)),
        ArmCondition::LS => Some(!c_flag(psr) || z_flag(psr)),
        ArmCondition::GE => Some(n_flag(psr) == v_flag(psr)),
        ArmCondition::LT => Some(n_flag(psr) != v_flag(psr)),
        ArmCondition::GT => Some(!z_flag(psr) && (n_flag(psr) == v_flag(psr))),
        ArmCondition::LE => Some(z_flag(psr) || (n_flag(psr) != v_flag(psr))),
        ArmCondition::AL => Some(true),
        ArmCondition::NV => None,
    }
}

/// The condition check as a `Result`: the table entry for the 15
/// defined codes, `ReservedArmConditionNV` for `NV`.
pub open spec fn condition_check(c: ArmCondition, psr: u32) -> Result<bool, GbaError> {
    match condition_table(c, psr) {
        Some(b) => Ok(b),
        None => Err(GbaError::ReservedArmConditionNV),
    }
}

/// The 4-bit encoding of a condition.
pub open spec fn condition_code(c: ArmCondition) -> u32 {
    match c {
        ArmCondition::EQ => 0,
        ArmCondition::NE => 1,
        ArmCondition::HS => 2,
        ArmCondition::LO => 3,
        ArmCondition::MI => 4,
        ArmCondition::PL => 5,
        ArmCondition::VS => 6,
        ArmCondition::VC => 7,
        ArmCondition::HI => 8,
        ArmCondition::LS => 9,
        ArmCondition::GE => 10,
        ArmCondition::LT => 11,
        ArmCondition::GT => 12,
        ArmCondition::LE => 13,
        ArmCondition::AL => 14,
        ArmCondition::NV => 15,
    }
}

/// The condition encoded by the low four bits of a word.
pub open spec fn condition_of_code(c: u32) -> ArmCondition {
    if c == 0 {
        ArmCondition::EQ
    } else if c == 1 {
        ArmCondition::NE
    } else if c == 2 {
        ArmCondition::HS
    } else if c == 3 {
        ArmCondition::LO
    } else if c == 4 {
        ArmCondition::MI
    } else if c == 5 {
        ArmCondition::PL
    } else if c == 6 {
        ArmCondition::VS
    } else if c == 7 {
        ArmCondition::VC
    } else if c == 8 {
        ArmCondition::HI
    } else if c == 9 {
        ArmCondition::LS
    } else if c == 10 {
        ArmCondition::GE
    } else if c == 11 {
        ArmCondition::LT
    } else if c == 12 {
        ArmCondition::GT
    } else if c == 13 {
        ArmCondition::LE
    } else if c == 14 {
        ArmCondition::AL
    } else {
        ArmCondition::NV
    }
}

/// Builds a condition from a 4-bit code.
pub fn condition_from_code(c: u32) -> (r: ArmCondition)
    requires
        c < 16,
    ensures
        r == condition_of_code(c),
        condition_code(r) == c,
{
    if c == 0 {
        ArmCondition::EQ
    } else if c == 1 {
        ArmCondition::NE
    } else if c == 2 {
        ArmCondition::HS
    } else if c == 3 {
        ArmCondition::LO
    } else if c == 4 {
        ArmCondition::MI
    } else if c == 5 {
        ArmCondition::PL
    } else if c == 6 {
        ArmCondition::VS
    } else if c == 7 {
        ArmCondition::VC
    } else if c == 8 {
        ArmCondition::HI
    } else if c == 9 {
        ArmCondition::LS
    } else if c == 10 {
        ArmCondition::GE
    } else if c == 11 {
        ArmCondition::LT
    } else if c == 12 {
        ArmCondition::GT
    } else if c == 13 {
        ArmCondition::LE
    } else if c == 14 {
        ArmCondition::AL
    } else {
        ArmCondition::NV
    }
}

impl ArmCondition {
    /// Evaluates the condition field depending on the CPSR's state.
    ///
    /// Returns `Ok(true)` if the corresponding instruction should be
    /// executed, `Ok(false)` if it should be skipped, and an error for
    /// the reserved condition `NV`, which ARMv4T reserves so that upper
    /// layers can notice malformed code.
    pub fn check(self, cpsr: &CPSR) -> (r: Result<bool, GbaError>)
        ensures
            r == condition_check(self, cpsr.0),
    {
        match self {
            ArmCondition::EQ => Ok(cpsr.Z()),
            ArmCondition::NE => Ok(!cpsr.Z()),
            ArmCondition::HS => Ok(cpsr.C()),
            ArmCondition::LO => Ok(!cpsr.C()),
            ArmCondition::MI => Ok(cpsr.N()),
            ArmCondition::PL => Ok(!cpsr.N()),
            ArmCondition::VS => Ok(cpsr.V()),
            ArmCondition::VC => Ok(!cpsr.V()),
            ArmCondition::HI => Ok(cpsr.C() && !cpsr.Z()),
            ArmCondition::LS => Ok(!cpsr.C() || cpsr.Z()),
            ArmCondition::GE => Ok(cpsr.N() == cpsr.V()),
            ArmCondition::LT => Ok(cpsr.N() != cpsr.V()),
            ArmCondition::GT => Ok(!cpsr.Z() && (cpsr.N() == cpsr.V())),
            ArmCondition::LE => Ok(cpsr.Z() || (cpsr.N() != cpsr.V())),
            ArmCondition::AL => Ok(true),
            ArmCondition::NV => Err(GbaError::ReservedArmConditionNV),
        }
    }
}

} // verus!
