//! Decoding of 32-bit ARM state instructions.
//!
//! A raw word is classified into one of eighteen opcode families by
//! matching fixed-position bit patterns in a specific order: several
//! families (MRS, MSR, SWP, the multiplies) are strict subsets of the
//! data-processing pattern and must be tested before it. The decoded
//! instruction keeps the raw word and exposes field accessors for
//! registers, immediates, offsets and the shift field.

use vstd::prelude::*;

use crate::armbsop::{
    bsop_shift_carry, bsop_vc, bsop_wf, decode_immediate_spec, decode_register_spec, u32_bit,
    ArmBSOP,
};
use crate::armcondition::{condition_from_code, condition_of_code, ArmCondition};
use crate::armdpop::{dpop_from_code, dpop_of_code, ArmDPOP};
use crate::bitutil::{lemma_mask_bounds, ror32, u32_ror};
use crate::error::GbaError;

verus! {

/// A special opcode for halfword and signed data transfers.
#[derive(Debug, PartialEq, Eq, Structural, Clone, Copy)]
#[allow(non_camel_case_types)]
pub enum ArmLdrhStrhOP {
    /// Decoded LDRH/STRH instead of SWP.
    InvalidSWP,
    /// Unsigned halfword load/store.
    UH,
    /// Signed byte load/store.
    SB,
    /// Signed halfword load/store.
    SH,
}

/// A decoded ARM opcode family.
#[derive(Debug, PartialEq, Eq, Structural, Clone, Copy)]
#[allow(non_camel_case_types)]
pub enum ArmOpcode {
    /// Branch and change ARM/THUMB state.
    BX,
    /// Branch (with Link).
    B_BL,
    /// Multiply (and accumulate).
    MUL_MLA,
    /// 64-bit multiply (and accumulate).
    MULL_MLAL,
    /// A data-processing operation; see `ArmDPOP`.
    DataProcessing,
    /// Move CPSR/SPSR into a register.
    MRS,
    /// Move a register into a PSR.
    MSR_Reg,
    /// Move an operand into the PSR flags.
    MSR_Flags,
    /// Load/store register to/from memory.
    LDR_STR,
    /// Load/store halfwords, register offset.
    LDRH_STRH_Reg,
    /// Load/store halfwords, immediate offset.
    LDRH_STRH_Imm,
    /// Load/store multiple registers.
    LDM_STM,
    /// Swap register with memory.
    SWP,
    /// Software interrupt with comment.
    SWI,
    /// Co-processor data processing.
    CDP,
    /// Move register to/from co-processor.
    MRC_MCR,
    /// Load/store co-processor from/to memory.
    LDC_STC,
    /// Unknown instruction.
    Unknown,
}

/// The ordered classification of a raw word into an opcode family.
/// Earlier patterns are more specific than later ones; the
/// data-processing pattern comes last and catches the residue.
/// Every word whose bits 27..26 are zero falls into some family, so in
/// fact every 32-bit word classifies; `None` is kept so that the
/// decoder's error path has a meaning.
pub open spec fn arm_classify(raw: u32) -> Option<ArmOpcode> {
    if (raw & 0x0FFF_FFF0u32) == 0x012F_FF10u32 {
        Some(ArmOpcode::BX)
    } else if (raw & 0x0E00_0000u32) == 0x0A00_0000u32 {
        Some(ArmOpcode::B_BL)
    } else if (raw & 0x0E00_0010u32) == 0x0600_0010u32 {
        Some(ArmOpcode::Unknown)
    } else if (raw & 0x0FB0_0FF0u32) == 0x0100_0090u32 {
        Some(ArmOpcode::SWP)
    } else if (raw & 0x0FC0_00F0u32) == 0x0000_0090u32 {
        Some(ArmOpcode::MUL_MLA)
    } else if (raw & 0x0F80_00F0u32) == 0x0080_0090u32 {
        Some(ArmOpcode::MULL_MLAL)
    } else if (raw & 0x0FBF_0FFFu32) == 0x010F_0000u32 {
        Some(ArmOpcode::MRS)
    } else if (raw & 0x0FBF_FFF0u32) == 0x0129_F000u32 {
        Some(ArmOpcode::MSR_Reg)
    } else if (raw & 0x0DBF_F000u32) == 0x0128_F000u32 {
        Some(ArmOpcode::MSR_Flags)
    } else if (raw & 0x0C00_0000u32) == 0x0400_0000u32 {
        Some(ArmOpcode::LDR_STR)
    } else if (raw & 0x0E40_0F90u32) == 0x0000_0090u32 {
        Some(ArmOpcode::LDRH_STRH_Reg)
    } else if (raw & 0x0E40_0090u32) == 0x0040_0090u32 {
        Some(ArmOpcode::LDRH_STRH_Imm)
    } else if (raw & 0x0E00_0000u32) == 0x0800_0000u32 {
        Some(ArmOpcode::LDM_STM)
    } else if (raw & 0x0F00_0000u32) == 0x0F00_0000u32 {
        Some(ArmOpcode::SWI)
    } else if (raw & 0x0F00_0010u32) == 0x0E00_0000u32 {
        Some(ArmOpcode::CDP)
    } else if (raw & 0x0F00_0010u32) == 0x0E00_0010u32 {
        Some(ArmOpcode::MRC_MCR)
    } else if (raw & 0x0E00_0000u32) == 0x0C00_0000u32 {
        Some(ArmOpcode::LDC_STC)
    } else if (raw & 0x0C00_0000u32) == 0x0000_0000u32 {
        Some(ArmOpcode::DataProcessing)
    } else {
        None
    }
}

/// The index of register `Rn` in a raw word.
pub open spec fn arm_rn(raw: u32) -> u32 {
    (raw >> 16u32) & 0xFu32
}

/// The index of register `Rd` in a raw word.
pub open spec fn arm_rd(raw: u32) -> u32 {
    (raw >> 12u32) & 0xFu32
}

/// The index of register `Rs` in a raw word.
pub open spec fn arm_rs(raw: u32) -> u32 {
    (raw >> 8u32) & 0xFu32
}

/// The index of register `Rm` in a raw word.
pub open spec fn arm_rm(raw: u32) -> u32 {
    raw & 0xFu32
}

/// The rotated 8-bit immediate of a data-processing operand.
pub open spec fn rotated_imm_spec(raw: u32) -> u32 {
    u32_ror(raw & 0xFFu32, (2 * ((raw >> 8u32) & 0xFu32)) as u32)
}

/// The shifter opcode encoded in the shift field, bits 11..4.
pub open spec fn shift_bsop_spec(raw: u32) -> ArmBSOP {
    if raw & 0x10u32 == 0 {
        decode_immediate_spec((raw >> 5u32) & 0x3u32, (raw >> 7u32) & 0x1Fu32)
    } else {
        decode_register_spec((raw >> 5u32) & 0x3u32, (arm_rs(raw)) as usize)
    }
}

/// The `(value, carry)` produced by a shifted-register operand: the
/// shifter opcode of the shift field applied to `Rm`, with `Rs` as the
/// amount for register-shift forms.
pub open spec fn shift_field_vc(raw: u32, regs: Seq<u32>, c: bool) -> (u32, bool)
    recommends
        regs.len() == 16,
{
    bsop_vc(shift_bsop_spec(raw), regs[arm_rm(raw) as int], c, regs[arm_rs(raw) as int])
}

/// The `(value, carry)` of a full data-processing operand-2 field:
/// a rotated immediate when bit 25 is set (carry untouched for a zero
/// rotation, else bit 31 of the rotated value), otherwise a shifted
/// register.
pub open spec fn shft_operand_vc(raw: u32, regs: Seq<u32>, c: bool) -> (u32, bool)
    recommends
        regs.len() == 16,
{
    if raw & 0x0200_0000u32 == 0 {
        shift_field_vc(raw, regs, c)
    } else {
        let v = rotated_imm_spec(raw);
        if (raw >> 8u32) & 0xFu32 == 0 {
            (v, c)
        } else {
            (v, u32_bit(v, 31))
        }
    }
}

/// The sign-extended 26-bit branch offset of a B/BL word: the 24-bit
/// field shifted left by two and sign-extended.
pub open spec fn branch_offset_spec(raw: u32) -> int {
    if raw & 0x80_0000u32 != 0 {
        4 * (raw & 0xFF_FFFFu32) - 0x400_0000
    } else {
        4 * (raw & 0xFF_FFFFu32)
    }
}

/// The split 8-bit offset of the halfword-transfer forms: the two
/// nibbles at bits 11..8 and 3..0.
pub open spec fn split_offset8_mag(raw: u32) -> u32 {
    (((raw >> 4u32) & 0xF0u32) | (raw & 0x0Fu32)) as u32
}

/// The validity ruling for a decoded instruction: `None` when the
/// instruction may execute, or the error that bars it. PC may not be
/// used where the architecture forbids it, the multiplies may not
/// reuse their destination as an operand, and certain write-back
/// combinations are rejected.
pub open spec fn arm_validity(raw: u32, op: ArmOpcode) -> Option<GbaError> {
    let rn = arm_rn(raw);
    let rd = arm_rd(raw);
    let rs = arm_rs(raw);
    let rm = arm_rm(raw);
    let auto = raw & 0x20_0000u32 != 0;
    let pre = raw & 0x100_0000u32 != 0;
    let load = raw & 0x10_0000u32 != 0;
    let user_force = raw & 0x40_0000u32 != 0;
    let has15 = raw & 0x8000u32 != 0;
    if rn == 15 && auto && (op is LDC_STC || op is LDR_STR || op is LDRH_STRH_Reg
        || op is LDRH_STRH_Imm) {
        Some(GbaError::InvalidUseOfR15)
    } else if rn == 15 && !auto && (op is SWP || op is MUL_MLA || op is MULL_MLAL
        || op is LDM_STM) {
        Some(GbaError::InvalidUseOfR15)
    } else if rd == 15 && (op is MRS || op is SWP || op is MUL_MLA || op is MULL_MLAL) {
        Some(GbaError::InvalidUseOfR15)
    } else if rs == 15 && (op is SWP || op is MUL_MLA || op is MULL_MLAL) {
        Some(GbaError::InvalidUseOfR15)
    } else if rm == 15 && (op is MSR_Reg || op is MUL_MLA || op is MULL_MLAL || op is LDR_STR
        || op is LDRH_STRH_Reg || op is LDRH_STRH_Imm) {
        Some(GbaError::InvalidUseOfR15)
    } else if rd == rm && (op is MUL_MLA || (op is MULL_MLAL && (rn == rm || rn == rd))) {
        Some(
            GbaError::InvalidRegisterReuse(rn as usize, rd as usize, rs as usize, rm as usize),
        )
    } else if (op is LDRH_STRH_Reg || op is LDRH_STRH_Imm) && auto && !pre {
        Some(GbaError::InvalidOffsetWriteBack)
    } else if op is LDM_STM && !(load && has15) && user_force && auto {
        Some(GbaError::InvalidOffsetWriteBack)
    } else {
        None
    }
}

/// A decoded ARM instruction: the raw word together with its opcode
/// family, which the decoder established from the word's bit patterns.
#[derive(Debug, PartialEq, Eq, Structural, Clone, Copy)]
pub struct ArmInstruction {
    /// The raw 32-bit instruction word; re-encoding a decoded
    /// instruction is reading this word back.
    pub raw: u32,
    /// The opcode family the word classified into.
    pub op: ArmOpcode,
}

/// A well-formed decoded instruction: its family is the one its raw
/// word classifies into.
pub open spec fn arm_inst_wf(i: ArmInstruction) -> bool {
    arm_classify(i.raw) == Some(i.op)
}

impl ArmInstruction {
    /// A raw 32-bit pseudo NOP instruction: `moveq R0, R0`, which has
    /// no effect even when it executes.
    pub const NOP_RAW: u32 = 0x01A0_0000u32;

    /// Creates a pseudo NOP instruction.
    pub fn nop() -> (r: ArmInstruction)
        ensures
            r.raw == 0x01A0_0000u32,
            r.op == ArmOpcode::DataProcessing,
            arm_inst_wf(r),
    {
        proof {
            lemma_nop_is_data_processing();
        }
        ArmInstruction { raw: 0x01A0_0000u32, op: ArmOpcode::DataProcessing }
    }

    /// Decodes a raw 32-bit word as an ARM instruction.
    ///
    /// Unknown instructions decode successfully into the `Unknown`
    /// family, as they raise a specific exception when executed; only
    /// a word outside every pattern is an `InvalidArmInstruction`
    /// (there is no such word, but the error path is kept so that the
    /// classification stays honest).
    pub fn decode(raw: u32) -> (r: Result<ArmInstruction, GbaError>)
        ensures
            r == (match arm_classify(raw) {
                Some(op) => Ok(ArmInstruction { raw, op }),
                None => Err::<ArmInstruction, GbaError>(GbaError::InvalidArmInstruction(raw)),
            }),
            r is Ok ==> arm_inst_wf(r.unwrap()) && r.unwrap().raw == raw,
    {
        let op: ArmOpcode = if (raw & 0x0FFF_FFF0u32) == 0x012F_FF10u32 {
            ArmOpcode::BX
        } else if (raw & 0x0E00_0000u32) == 0x0A00_0000u32 {
            ArmOpcode::B_BL
        } else if (raw & 0x0E00_0010u32) == 0x0600_0010u32 {
            ArmOpcode::Unknown
        } else if (raw & 0x0FB0_0FF0u32) == 0x0100_0090u32 {
            ArmOpcode::SWP
        } else if (raw & 0x0FC0_00F0u32) == 0x0000_0090u32 {
            ArmOpcode::MUL_MLA
        } else if (raw & 0x0F80_00F0u32) == 0x0080_0090u32 {
            ArmOpcode::MULL_MLAL
        } else if (raw & 0x0FBF_0FFFu32) == 0x010F_0000u32 {
            ArmOpcode::MRS
        } else if (raw & 0x0FBF_FFF0u32) == 0x0129_F000u32 {
            ArmOpcode::MSR_Reg
        } else if (raw & 0x0DBF_F000u32) == 0x0128_F000u32 {
            ArmOpcode::MSR_Flags
        } else if (raw & 0x0C00_0000u32) == 0x0400_0000u32 {
            ArmOpcode::LDR_STR
        } else if (raw & 0x0E40_0F90u32) == 0x0000_0090u32 {
            ArmOpcode::LDRH_STRH_Reg
        } else if (raw & 0x0E40_0090u32) == 0x0040_0090u32 {
            ArmOpcode::LDRH_STRH_Imm
        } else if (raw & 0x0E00_0000u32) == 0x0800_0000u32 {
            ArmOpcode::LDM_STM
        } else if (raw & 0x0F00_0000u32) == 0x0F00_0000u32 {
            ArmOpcode::SWI
        } else if (raw & 0x0F00_0010u32) == 0x0E00_0000u32 {
            ArmOpcode::CDP
        } else if (raw & 0x0F00_0010u32) == 0x0E00_0010u32 {
            ArmOpcode::MRC_MCR
        } else if (raw & 0x0E00_0000u32) == 0x0C00_0000u32 {
            ArmOpcode::LDC_STC
        } else if (raw & 0x0C00_0000u32) == 0x0000_0000u32 {
            ArmOpcode::DataProcessing
        } else {
            return Err(GbaError::InvalidArmInstruction(raw));
        };
        Ok(ArmInstruction { raw, op })
    }

    /// Checks an instruction's validity against the PC-usage and
    /// register-reuse constraints. A valid instruction may still have
    /// unpredictable side effects; an invalid one must not execute.
    pub fn check_is_valid(&self) -> (r: Result<(), GbaError>)
        ensures
            r == (match arm_validity(self.raw, self.op) {
                Some(e) => Err::<(), GbaError>(e),
                None => Ok::<(), GbaError>(()),
            }),
    {
        proof {
            lemma_mask_bounds(self.raw);
        }
        let rn = self.Rn();
        let rd = self.Rd();
        let rs = self.Rs();
        let rm = self.Rm();
        let auto = self.is_auto_incrementing();
        let pre = self.is_pre_indexed();

        if rn == 15 {
            if auto {
                match self.op {
                    ArmOpcode::LDC_STC
                    | ArmOpcode::LDR_STR
                    | ArmOpcode::LDRH_STRH_Reg
                    | ArmOpcode::LDRH_STRH_Imm => {
                        return Err(GbaError::InvalidUseOfR15);
                    },
                    _ => {},
                }
            } else {
                match self.op {
                    ArmOpcode::SWP | ArmOpcode::MUL_MLA | ArmOpcode::MULL_MLAL
                    | ArmOpcode::LDM_STM => {
                        return Err(GbaError::InvalidUseOfR15);
                    },
                    _ => {},
                }
            }
        }
        if rd == 15 {
            match self.op {
                ArmOpcode::MRS | ArmOpcode::SWP | ArmOpcode::MUL_MLA | ArmOpcode::MULL_MLAL => {
                    return Err(GbaError::InvalidUseOfR15);
                },
                _ => {},
            }
        }
        if rs == 15 {
            match self.op {
                ArmOpcode::SWP | ArmOpcode::MUL_MLA | ArmOpcode::MULL_MLAL => {
                    return Err(GbaError::InvalidUseOfR15);
                },
                _ => {},
            }
        }
        if rm == 15 {
            match self.op {
                ArmOpcode::MSR_Reg | ArmOpcode::MUL_MLA | ArmOpcode::MULL_MLAL
                | ArmOpcode::LDR_STR | ArmOpcode::LDRH_STRH_Reg | ArmOpcode::LDRH_STRH_Imm => {
                    return Err(GbaError::InvalidUseOfR15);
                },
                _ => {},
            }
        }

        if rd == rm && (matches!(self.op, ArmOpcode::MUL_MLA) || (matches!(
            self.op,
            ArmOpcode::MULL_MLAL,
        ) && ((rn == rm) || (rn == rd)))) {
            return Err(GbaError::InvalidRegisterReuse(rn, rd, rs, rm));
        }

        match self.op {
            ArmOpcode::LDRH_STRH_Reg | ArmOpcode::LDRH_STRH_Imm => {
                if auto && !pre {
                    Err(GbaError::InvalidOffsetWriteBack)
                } else {
                    Ok(())
                }
            },
            ArmOpcode::LDM_STM => {
                let has15 = 0 != (self.raw & 0x8000u32);
                if !(self.is_load() && has15) && self.is_enforcing_user_mode() && auto {
                    Err(GbaError::InvalidOffsetWriteBack)
                } else {
                    Ok(())
                }
            },
            _ => Ok(()),
        }
    }

    /// Get the condition field of the ARM instruction.
    pub fn condition(&self) -> (r: ArmCondition)
        ensures
            r == condition_of_code(self.raw >> 28u32),
    {
        proof {
            lemma_mask_bounds(self.raw);
        }
        condition_from_code(self.raw >> 28u32)
    }

    /// Get the decoded opcode family of the ARM instruction.
    pub fn opcode(&self) -> (r: ArmOpcode)
        ensures
            r == self.op,
    {
        self.op
    }

    /// Get the data processing opcode field of the ARM instruction.
    pub fn dpop(&self) -> (r: ArmDPOP)
        ensures
            r == dpop_of_code((self.raw >> 21u32) & 0xFu32),
    {
        proof {
            lemma_mask_bounds(self.raw);
        }
        dpop_from_code((self.raw >> 21) & 0xFu32)
    }

    /// Get the LDRH/STRH opcode field of the ARM instruction.
    pub fn ldrh_strh_op(&self) -> (r: ArmLdrhStrhOP)
        ensures
            r == ldrh_strh_of_code((self.raw >> 5u32) & 0x3u32),
    {
        let c = (self.raw >> 5) & 0x3u32;
        if c == 0 {
            ArmLdrhStrhOP::InvalidSWP
        } else if c == 1 {
            ArmLdrhStrhOP::UH
        } else if c == 2 {
            ArmLdrhStrhOP::SB
        } else {
            ArmLdrhStrhOP::SH
        }
    }

    /// Get the index of register `Rn`.
    #[allow(non_snake_case)]
    pub fn Rn(&self) -> (r: usize)
        ensures
            r == arm_rn(self.raw),
            r < 16,
    {
        proof {
            lemma_mask_bounds(self.raw);
        }
        ((self.raw >> 16) & 0xFu32) as usize
    }

    /// Get the index of register `Rd`.
    #[allow(non_snake_case)]
    pub fn Rd(&self) -> (r: usize)
        ensures
            r == arm_rd(self.raw),
            r < 16,
    {
        proof {
            lemma_mask_bounds(self.raw);
        }
        ((self.raw >> 12) & 0xFu32) as usize
    }

    /// Get the index of register `Rs`.
    #[allow(non_snake_case)]
    pub fn Rs(&self) -> (r: usize)
        ensures
            r == arm_rs(self.raw),
            r < 16,
    {
        proof {
            lemma_mask_bounds(self.raw);
        }
        ((self.raw >> 8) & 0xFu32) as usize
    }

    /// Get the index of register `Rm`.
    #[allow(non_snake_case)]
    pub fn Rm(&self) -> (r: usize)
        ensures
            r == arm_rm(self.raw),
            r < 16,
    {
        proof {
            lemma_mask_bounds(self.raw);
        }
        (self.raw & 0xFu32) as usize
    }

    /// Get the target co-processor's ID.
    pub fn cp_id(&self) -> (r: usize)
        ensures
            r == arm_rs(self.raw),
            r < 16,
    {
        self.Rs()
    }

    /// Get a 4-bit opcode for the target co-processor.
    pub fn cp_opcode4(&self) -> (r: u8)
        ensures
            r == (self.raw >> 20u32) & 0xFu32,
    {
        proof {
            lemma_mask_bounds(self.raw);
        }
        ((self.raw >> 20) & 0xFu32) as u8
    }

    /// Get a 3-bit opcode for the target co-processor.
    pub fn cp_opcode3(&self) -> (r: u8)
        ensures
            r == (self.raw >> 21u32) & 0x7u32,
    {
        proof {
            lemma_mask_bounds(self.raw);
        }
        ((self.raw >> 21) & 0x7u32) as u8
    }

    /// Get a 3-bit info number for the target co-processor.
    pub fn cp_info(&self) -> (r: u8)
        ensures
            r == (self.raw >> 5u32) & 0x7u32,
    {
        proof {
            lemma_mask_bounds(self.raw);
        }
        ((self.raw >> 5) & 0x7u32) as u8
    }

    /// Gets the shift amount for a register shifted by an immediate.
    pub fn register_shift_immediate(&self) -> (r: u32)
        ensures
            r == (self.raw >> 7u32) & 0x1Fu32,
            r < 32,
    {
        proof {
            lemma_mask_bounds(self.raw);
        }
        (self.raw >> 7) & 0x1Fu32
    }

    /// Decodes the shift field, bits 11..4, into a shifter opcode.
    pub fn shift_bsop(&self) -> (r: ArmBSOP)
        ensures
            r == shift_bsop_spec(self.raw),
            bsop_wf(r),
    {
        proof {
            lemma_mask_bounds(self.raw);
        }
        if self.raw & 0x10u32 == 0 {
            ArmBSOP::decode_immediate((self.raw >> 5) & 0x3u32, (self.raw >> 7) & 0x1Fu32)
        } else {
            ArmBSOP::decode_register((self.raw >> 5) & 0x3u32, self.Rs())
        }
    }

    /// Decodes a rotated immediate value: the low byte rotated right
    /// by twice the rotation nibble.
    pub fn rotated_immediate(&self) -> (r: u32)
        ensures
            r == rotated_imm_spec(self.raw),
    {
        proof {
            lemma_mask_bounds(self.raw);
        }
        let bits: u32 = 2 * ((self.raw >> 8) & 0xFu32);
        ror32(self.raw & 0xFFu32, bits)
    }

    /// Calculates a shifted operand without carry.
    pub fn shifted_operand(&self, regs: &[u32; 16], carry: bool) -> (r: u32)
        ensures
            r == shft_operand_vc(self.raw, regs@, carry).0,
    {
        let (v, _) = self.shifted_operand_with_carry(regs, carry);
        v
    }

    /// Calculates a shifted operand together with the shifter's
    /// carry-out. A rotated immediate leaves the carry untouched when
    /// its rotation is zero, and exposes bit 31 of the rotated value
    /// otherwise.
    pub fn shifted_operand_with_carry(&self, regs: &[u32; 16], carry: bool) -> (r: (u32, bool))
        ensures
            r == shft_operand_vc(self.raw, regs@, carry),
    {
        if self.is_shift_field_register() {
            self.calculate_shifted_register_with_carry(regs, carry)
        } else {
            proof {
                lemma_mask_bounds(self.raw);
            }
            let v = self.rotated_immediate();
            if (self.raw >> 8) & 0xFu32 == 0 {
                (v, carry)
            } else {
                (v, (v >> 31) & 1u32 == 1u32)
            }
        }
    }

    /// Calculates the operand of a data-processing operation: a
    /// shifted register or a rotated immediate.
    pub fn calculate_shft_field(&self, regs: &[u32; 16], carry: bool) -> (r: u32)
        ensures
            r == shft_operand_vc(self.raw, regs@, carry).0,
    {
        self.shifted_operand(regs, carry)
    }

    /// Calculates the operand of a data-processing operation together
    /// with the shifter's carry-out.
    pub fn calculate_shft_field_with_carry(&self, regs: &[u32; 16], carry: bool) -> (r: (
        u32,
        bool,
    ))
        ensures
            r == shft_operand_vc(self.raw, regs@, carry),
    {
        self.shifted_operand_with_carry(regs, carry)
    }

    /// Calculates the operand of a PSR transfer: a plain register or a
    /// rotated immediate, with no shift applied.
    pub fn calculate_shsr_field(&self, regs: &[u32; 16]) -> (r: u32)
        ensures
            r == (if self.raw & 0x0200_0000u32 == 0 {
                regs@[arm_rm(self.raw) as int]
            } else {
                rotated_imm_spec(self.raw)
            }),
    {
        if self.is_shift_field_register() {
            regs[self.Rm()]
        } else {
            self.rotated_immediate()
        }
    }

    /// Calculates a shifted register operand without carry.
    pub fn calculate_shifted_register(&self, regs: &[u32; 16], carry: bool) -> (r: u32)
        ensures
            r == shift_field_vc(self.raw, regs@, carry).0,
    {
        let (v, _) = self.calculate_shifted_register_with_carry(regs, carry);
        v
    }

    /// Calculates a shifted register operand and the resulting carry,
    /// with the full ARM edge table for immediate amounts of zero and
    /// register amounts of 32 and more.
    pub fn calculate_shifted_register_with_carry(&self, regs: &[u32; 16], carry: bool) -> (r: (
        u32,
        bool,
    ))
        ensures
            r == shift_field_vc(self.raw, regs@, carry),
    {
        let op = self.shift_bsop();
        let x = regs[self.Rm()];
        let rs = regs[self.Rs()];
        bsop_shift_carry(op, x, carry, rs)
    }

    /// Calculates a shifted offset for a base address: a 12-bit
    /// immediate or a shifted register, negated modulo 2^32 when the
    /// subtract flag is set. Adding the result to a base address with
    /// wrapping arithmetic applies the offset in the right direction.
    pub fn shifted_offset(&self, regs: &[u32; 16], carry: bool) -> (r: u32)
        ensures
            r == (if self.is_offset_added_spec() {
                ldr_str_offset_mag(self.raw, regs@, carry)
            } else {
                crate::bitutil::wrap32(-(ldr_str_offset_mag(self.raw, regs@, carry) as int))
            }),
    {
        let mag = self.shifted_offset_magnitude(regs, carry);
        if self.is_offset_added() {
            mag
        } else {
            crate::bitutil::wsub(0, mag)
        }
    }

    /// The magnitude of a single-data-transfer offset: the 12-bit
    /// immediate, or the shifted register value reduced to 31 bits of
    /// magnitude is not taken: the raw 32-bit shifter output.
    pub fn shifted_offset_magnitude(&self, regs: &[u32; 16], carry: bool) -> (r: u32)
        ensures
            r == ldr_str_offset_mag(self.raw, regs@, carry),
    {
        proof {
            lemma_mask_bounds(self.raw);
        }
        if self.is_offset_field_immediate() {
            self.raw & 0xFFFu32
        } else {
            self.calculate_shifted_register(regs, carry)
        }
    }

    /// Gets a zero-extended 12-bit immediate to be used with LDR/STR,
    /// negated when the subtract flag is set.
    pub fn offset12(&self) -> (r: i32)
        ensures
            r == (if self.is_offset_added_spec() {
                (self.raw & 0xFFFu32) as int
            } else {
                -((self.raw & 0xFFFu32) as int)
            }),
    {
        proof {
            lemma_mask_bounds(self.raw);
        }
        let off = (self.raw & 0xFFFu32) as i32;
        if self.is_offset_added() {
            off
        } else {
            -off
        }
    }

    /// Gets a zero-extended 8-bit immediate to be used with LDC/STC,
    /// negated when the subtract flag is set.
    pub fn offset8(&self) -> (r: i32)
        ensures
            r == (if self.is_offset_added_spec() {
                (self.raw & 0xFFu32) as int
            } else {
                -((self.raw & 0xFFu32) as int)
            }),
    {
        proof {
            lemma_mask_bounds(self.raw);
        }
        let off = (self.raw & 0xFFu32) as i32;
        if self.is_offset_added() {
            off
        } else {
            -off
        }
    }

    /// Gets the split 8-bit offset of the halfword transfer forms,
    /// negated when the subtract flag is set.
    pub fn split_offset8(&self) -> (r: i32)
        ensures
            r == (if self.is_offset_added_spec() {
                split_offset8_mag(self.raw) as int
            } else {
                -(split_offset8_mag(self.raw) as int)
            }),
    {
        let mag = self.split_offset8_magnitude();
        if self.is_offset_added() {
            mag as i32
        } else {
            -(mag as i32)
        }
    }

    /// The magnitude of the split 8-bit offset.
    pub fn split_offset8_magnitude(&self) -> (r: u32)
        ensures
            r == split_offset8_mag(self.raw),
            r < 0x100,
    {
        proof {
            lemma_mask_bounds(self.raw);
            lemma_split_nibbles(self.raw);
        }
        ((self.raw >> 4) & 0xF0u32) | (self.raw & 0x0Fu32)
    }

    /// Get the 26-bit sign-extended branch offset: the 24-bit field
    /// shifted left by two. It is a multiple of four in
    /// [-2^25, 2^25).
    pub fn branch_offset(&self) -> (r: i32)
        ensures
            r == branch_offset_spec(self.raw),
            -0x200_0000 <= r < 0x200_0000,
            r % 4 == 0,
    {
        proof {
            lemma_mask_bounds(self.raw);
        }
        let low = self.raw & 0xFF_FFFFu32;
        if self.raw & 0x80_0000u32 != 0 {
            -(((0x100_0000u32 - low) * 4) as i32)
        } else {
            (low * 4) as i32
        }
    }

    /// Get the 24-bit comment field of an `SWI` instruction.
    pub fn comment(&self) -> (r: u32)
        ensures
            r == self.raw & 0xFF_FFFFu32,
    {
        self.raw & 0xFF_FFFFu32
    }

    /// Get a 16-bit bitmap, where bit N corresponds to GPR N.
    pub fn register_map(&self) -> (r: u16)
        ensures
            r == self.raw & 0xFFFFu32,
    {
        proof {
            lemma_mask_bounds(self.raw);
        }
        (self.raw & 0xFFFFu32) as u16
    }

    /// Whether the operand field holds a shifted register rather than
    /// a rotated immediate.
    pub fn is_shift_field_register(&self) -> (r: bool)
        ensures
            r == (self.raw & 0x0200_0000u32 == 0),
    {
        (self.raw & 0x0200_0000u32) == 0
    }

    /// Whether the offset field of a single data transfer is an
    /// immediate rather than a shifted register.
    pub fn is_offset_field_immediate(&self) -> (r: bool)
        ensures
            r == (self.raw & 0x0200_0000u32 == 0),
    {
        self.is_shift_field_register()
    }

    /// Whether this is a `BL` rather than a `B`.
    pub fn is_branch_with_link(&self) -> (r: bool)
        ensures
            r == (self.raw & 0x0100_0000u32 != 0),
    {
        (self.raw & 0x0100_0000u32) != 0
    }

    /// Whether an offset is applied before the transfer (pre-indexed)
    /// rather than after it.
    pub fn is_pre_indexed(&self) -> (r: bool)
        ensures
            r == (self.raw & 0x0100_0000u32 != 0),
    {
        (self.raw & 0x0100_0000u32) != 0
    }

    /// Whether the offset is added to the base rather than subtracted.
    pub fn is_offset_added(&self) -> (r: bool)
        ensures
            r == self.is_offset_added_spec(),
    {
        (self.raw & 0x0080_0000u32) != 0
    }

    /// The add/subtract flag of the offset forms.
    pub open spec fn is_offset_added_spec(&self) -> bool {
        self.raw & 0x0080_0000u32 != 0
    }

    /// Whether the instruction accesses the current SPSR rather than
    /// CPSR.
    pub fn is_accessing_spsr(&self) -> (r: bool)
        ensures
            r == (self.raw & 0x0040_0000u32 != 0),
    {
        (self.raw & 0x0040_0000u32) != 0
    }

    /// Whether a long multiply is signed.
    pub fn is_signed(&self) -> (r: bool)
        ensures
            r == (self.raw & 0x0040_0000u32 != 0),
    {
        (self.raw & 0x0040_0000u32) != 0
    }

    /// Whether a data transfer moves bytes rather than words.
    pub fn is_transfering_bytes(&self) -> (r: bool)
        ensures
            r == (self.raw & 0x0040_0000u32 != 0),
    {
        (self.raw & 0x0040_0000u32) != 0
    }

    /// Whether a block transfer uses the User-mode register bank.
    pub fn is_enforcing_user_mode(&self) -> (r: bool)
        ensures
            r == (self.raw & 0x0040_0000u32 != 0),
    {
        (self.raw & 0x0040_0000u32) != 0
    }

    /// Whether a co-processor transfer moves a block of registers
    /// rather than a single one.
    pub fn is_register_block_transfer(&self) -> (r: bool)
        ensures
            r == (self.raw & 0x0040_0000u32 != 0),
    {
        (self.raw & 0x0040_0000u32) != 0
    }

    /// Whether a multiply accumulates.
    pub fn is_accumulating(&self) -> (r: bool)
        ensures
            r == (self.raw & 0x0020_0000u32 != 0),
    {
        (self.raw & 0x0020_0000u32) != 0
    }

    /// Whether the instruction writes a calculated address back to the
    /// base register.
    pub fn is_auto_incrementing(&self) -> (r: bool)
        ensures
            r == (self.raw & 0x0020_0000u32 != 0),
    {
        (self.raw & 0x0020_0000u32) != 0
    }

    /// Whether the instruction updates the CPSR condition flags.
    pub fn is_setting_flags(&self) -> (r: bool)
        ensures
            r == (self.raw & 0x0010_0000u32 != 0),
    {
        (self.raw & 0x0010_0000u32) != 0
    }

    /// Whether the instruction loads rather than stores.
    pub fn is_load(&self) -> (r: bool)
        ensures
            r == (self.raw & 0x0010_0000u32 != 0),
    {
        (self.raw & 0x0010_0000u32) != 0
    }

    /// Whether the register shift field holds an immediate amount
    /// rather than a shift register.
    pub fn is_register_shift_immediate(&self) -> (r: bool)
        ensures
            r == (self.raw & 0x10u32 == 0),
    {
        (self.raw & 0x10u32) == 0
    }
}

/// The magnitude of a single-data-transfer offset: a 12-bit immediate
/// or the shifted register value.
pub open spec fn ldr_str_offset_mag(raw: u32, regs: Seq<u32>, c: bool) -> u32
    recommends
        regs.len() == 16,
{
    if raw & 0x0200_0000u32 == 0 {
        raw & 0xFFFu32
    } else {
        shift_field_vc(raw, regs, c).0
    }
}

/// The halfword-transfer opcode encoded by bits 6..5.
pub open spec fn ldrh_strh_of_code(c: u32) -> ArmLdrhStrhOP {
    if c == 0 {
        ArmLdrhStrhOP::InvalidSWP
    } else if c == 1 {
        ArmLdrhStrhOP::UH
    } else if c == 2 {
        ArmLdrhStrhOP::SB
    } else {
        ArmLdrhStrhOP::SH
    }
}

/// The pseudo NOP word classifies as a data-processing instruction:
/// none of the more specific patterns matches it.
proof fn lemma_nop_is_data_processing()
    ensures
        arm_classify(0x01A0_0000u32) == Some(ArmOpcode::DataProcessing),
{
    assert((0x01A0_0000u32 & 0x0FFF_FFF0u32) != 0x012F_FF10u32 && (0x01A0_0000u32
        & 0x0E00_0000u32) != 0x0A00_0000u32 && (0x01A0_0000u32 & 0x0E00_0010u32) != 0x0600_0010u32
        && (0x01A0_0000u32 & 0x0FB0_0FF0u32) != 0x0100_0090u32 && (0x01A0_0000u32
        & 0x0FC0_00F0u32) != 0x0000_0090u32 && (0x01A0_0000u32 & 0x0F80_00F0u32) != 0x0080_0090u32
        && (0x01A0_0000u32 & 0x0FBF_0FFFu32) != 0x010F_0000u32 && (0x01A0_0000u32
        & 0x0FBF_FFF0u32) != 0x0129_F000u32 && (0x01A0_0000u32 & 0x0DBF_F000u32) != 0x0128_F000u32
        && (0x01A0_0000u32 & 0x0C00_0000u32) != 0x0400_0000u32 && (0x01A0_0000u32
        & 0x0E40_0F90u32) != 0x0000_0090u32 && (0x01A0_0000u32 & 0x0E40_0090u32) != 0x0040_0090u32
        && (0x01A0_0000u32 & 0x0E00_0000u32) != 0x0800_0000u32 && (0x01A0_0000u32
        & 0x0F00_0000u32) != 0x0F00_0000u32 && (0x01A0_0000u32 & 0x0F00_0010u32) != 0x0E00_0000u32
        && (0x01A0_0000u32 & 0x0F00_0010u32) != 0x0E00_0010u32 && (0x01A0_0000u32
        & 0x0E00_0000u32) != 0x0C00_0000u32 && (0x01A0_0000u32 & 0x0C00_0000u32)
        == 0x0000_0000u32) by (bit_vector);
}

/// Recombining the two offset nibbles stays below 2^8.
proof fn lemma_split_nibbles(x: u32)
    ensures
        ((x >> 4u32) & 0xF0u32) | (x & 0x0Fu32) < 0x100,
        (((x >> 4u32) & 0xF0u32) | (x & 0x0Fu32)) & 0x80u32 != 0 ==> ((x >> 4u32) & 0xF0u32) | (x
            & 0x0Fu32) >= 0x80,
{
    assert((((x >> 4u32) & 0xF0u32) | (x & 0x0Fu32)) < 0x100 && ((((x >> 4u32) & 0xF0u32) | (x
        & 0x0Fu32)) & 0x80u32 != 0 ==> ((x >> 4u32) & 0xF0u32) | (x & 0x0Fu32) >= 0x80))
        by (bit_vector);
}

impl Default for ArmInstruction {
    /// Creates a NOP instruction.
    fn default() -> (r: ArmInstruction)
        ensures
            r.raw == 0x01A0_0000u32,
            r.op == ArmOpcode::DataProcessing,
    {
        ArmInstruction::nop()
    }
}

/// Decoding keeps the raw word, so re-encoding a decoded instruction
/// gives back exactly the word that was decoded: for every word that
/// classifies into a family, the decode / encode round trip is the
/// identity.
pub proof fn lemma_encode_decode_round_trip(raw: u32)
    requires
        arm_classify(raw) is Some,
    ensures
        ({
            let i = ArmInstruction { raw, op: arm_classify(raw).unwrap() };
            arm_inst_wf(i) && i.raw == raw
        }),
{
}

} // verus!
