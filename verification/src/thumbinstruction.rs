//! Decoding of 16-bit THUMB state instructions.
//!
//! A raw halfword is classified into one of nineteen opcode families
//! by bit-mask tests in a specific order (earlier patterns are more
//! specific). THUMB encodings are architecturally shorthands for ARM
//! data-processing and shift forms, so the field accessors map each
//! family onto the shared `ArmDPOP` and `ArmBSOP` opcodes.

use vstd::prelude::*;

use crate::armbsop::{decode_immediate_spec, ArmBSOP};
use crate::armcondition::{condition_from_code, condition_of_code, ArmCondition};
use crate::armdpop::ArmDPOP;
use crate::bitutil::lemma_mask_bounds;
use crate::error::GbaError;

verus! {

/// A decoded THUMB high register operation.
#[derive(Debug, PartialEq, Eq, Structural, Clone, Copy)]
pub enum HiRegisterOp {
    /// ADD without modifying CPSR flags.
    AddNoFlags,
    /// CMP which always updates CPSR flags.
    CmpFlags,
    /// MOV without modifying CPSR flags.
    MovNoFlags,
    /// BX by register Rs/Hs.
    BxRsHs,
}

/// A decoded THUMB halfword and signed data transfer operation.
#[derive(Debug, PartialEq, Eq, Structural, Clone, Copy)]
pub enum LdrhStrhOp {
    /// Store halfword.
    STRH,
    /// Load unsigned halfword.
    LDRH,
    /// Load signed byte.
    LDSB,
    /// Load signed halfword.
    LDSH,
}

/// A decoded THUMB opcode family.
#[derive(Debug, PartialEq, Eq, Structural, Clone, Copy)]
pub enum ThumbOpcode {
    /// ADD/SUB with an immediate value or register.
    AddSub,
    /// Shifted register transfer.
    MoveShiftedReg,
    /// ALU operations updating CPSR flags.
    DataProcessingFlags,
    /// MUL with updating CPSR flags.
    AluMul,
    /// ALU Operations.
    AluOperation,
    /// ALU operations with high registers or BX.
    HiRegOpBx,
    /// LDR relative to PC.
    LdrPcImm,
    /// LDR/STR with register offset.
    LdrStrReg,
    /// LDRH/STRH with register offset.
    LdrhStrhReg,
    /// LDR/STR with immediate offset.
    LdrStrImm,
    /// LDRH/STRH with immediate offset.
    LdrhStrhImm,
    /// LDR/STR relative to SP.
    LdrStrSpImm,
    /// Calculate an address relative to PC/SP.
    CalcAddrImm,
    /// Add an offset to SP.
    AddSpOffs,
    /// Push/pop registers onto/from the stack.
    PushPopRegs,
    /// LDM/STM instruction.
    LdmStmRegs,
    /// Causes a software interrupt.
    SoftwareInterrupt,
    /// Conditional branch relative to PC.
    BranchConditionOffs,
    /// Unconditional branch relative to PC.
    BranchOffs,
    /// Unconditional branch using a 23-bit offset.
    BranchLongOffs,
}

/// The ordered classification of a raw halfword into an opcode
/// family. `None` covers the undefined `BAL` pattern and the hole at
/// `0xE800..0xF000`.
pub open spec fn thumb_classify(raw: u16) -> Option<ThumbOpcode> {
    if (raw & 0xF800u16) == 0x1800u16 {
        Some(ThumbOpcode::AddSub)
    } else if (raw & 0xE000u16) == 0x0000u16 {
        Some(ThumbOpcode::MoveShiftedReg)
    } else if (raw & 0xE000u16) == 0x2000u16 {
        Some(ThumbOpcode::DataProcessingFlags)
    } else if (raw & 0xFFC0u16) == 0x4340u16 {
        Some(ThumbOpcode::AluMul)
    } else if (raw & 0xFC00u16) == 0x4000u16 {
        Some(ThumbOpcode::AluOperation)
    } else if (raw & 0xFC00u16) == 0x4400u16 {
        Some(ThumbOpcode::HiRegOpBx)
    } else if (raw & 0xF800u16) == 0x4800u16 {
        Some(ThumbOpcode::LdrPcImm)
    } else if (raw & 0xF200u16) == 0x5000u16 {
        Some(ThumbOpcode::LdrStrReg)
    } else if (raw & 0xF200u16) == 0x5200u16 {
        Some(ThumbOpcode::LdrhStrhReg)
    } else if (raw & 0xE000u16) == 0x6000u16 {
        Some(ThumbOpcode::LdrStrImm)
    } else if (raw & 0xF000u16) == 0x8000u16 {
        Some(ThumbOpcode::LdrhStrhImm)
    } else if (raw & 0xF000u16) == 0x9000u16 {
        Some(ThumbOpcode::LdrStrSpImm)
    } else if (raw & 0xF000u16) == 0xA000u16 {
        Some(ThumbOpcode::CalcAddrImm)
    } else if (raw & 0xFF00u16) == 0xB000u16 {
        Some(ThumbOpcode::AddSpOffs)
    } else if (raw & 0xF600u16) == 0xB400u16 {
        Some(ThumbOpcode::PushPopRegs)
    } else if (raw & 0xF000u16) == 0xC000u16 {
        Some(ThumbOpcode::LdmStmRegs)
    } else if (raw & 0xFF00u16) == 0xDF00u16 {
        Some(ThumbOpcode::SoftwareInterrupt)
    } else if (raw & 0xFF00u16) == 0xDE00u16 {
        None
    } else if (raw & 0xF000u16) == 0xD000u16 {
        Some(ThumbOpcode::BranchConditionOffs)
    } else if (raw & 0xF800u16) == 0xE000u16 {
        Some(ThumbOpcode::BranchOffs)
    } else if (raw & 0xF000u16) == 0xF000u16 {
        Some(ThumbOpcode::BranchLongOffs)
    } else {
        None
    }
}

/// A decoded THUMB instruction: the raw halfword together with its
/// opcode family.
#[derive(Debug, PartialEq, Eq, Structural, Clone, Copy)]
pub struct ThumbInstruction {
    /// The raw 16-bit instruction halfword.
    pub raw: u16,
    /// The opcode family the halfword classified into.
    pub op: ThumbOpcode,
}

/// A well-formed decoded THUMB instruction: its family is the one its
/// raw halfword classifies into.
pub open spec fn thumb_inst_wf(i: ThumbInstruction) -> bool {
    thumb_classify(i.raw) == Some(i.op)
}

impl ThumbInstruction {
    /// A 16-bit pseudo NOP instruction: `MOV R8, R8` without any CPSR
    /// update.
    pub const NOP_RAW: u16 = 0x46C0u16;

    /// Creates a pseudo NOP instruction.
    pub fn nop() -> (r: ThumbInstruction)
        ensures
            r.raw == 0x46C0u16,
            r.op == ThumbOpcode::HiRegOpBx,
            thumb_inst_wf(r),
    {
        proof {
            lemma_nop_is_hi_reg_op();
        }
        ThumbInstruction { raw: 0x46C0u16, op: ThumbOpcode::HiRegOpBx }
    }

    /// Decodes a raw 16-bit halfword as a THUMB instruction. The
    /// undefined `BAL` pattern and the unassigned encodings are
    /// rejected as `InvalidThumbInstruction`.
    pub fn decode(raw: u16) -> (r: Result<ThumbInstruction, GbaError>)
        ensures
            r == (match thumb_classify(raw) {
                Some(op) => Ok(ThumbInstruction { raw, op }),
                None => Err::<ThumbInstruction, GbaError>(GbaError::InvalidThumbInstruction(raw)),
            }),
            r is Ok ==> thumb_inst_wf(r.unwrap()) && r.unwrap().raw == raw,
    {
        let op: ThumbOpcode = if (raw & 0xF800u16) == 0x1800u16 {
            ThumbOpcode::AddSub
        } else if (raw & 0xE000u16) == 0x0000u16 {
            ThumbOpcode::MoveShiftedReg
        } else if (raw & 0xE000u16) == 0x2000u16 {
            ThumbOpcode::DataProcessingFlags
        } else if (raw & 0xFFC0u16) == 0x4340u16 {
            ThumbOpcode::AluMul
        } else if (raw & 0xFC00u16) == 0x4000u16 {
            ThumbOpcode::AluOperation
        } else if (raw & 0xFC00u16) == 0x4400u16 {
            ThumbOpcode::HiRegOpBx
        } else if (raw & 0xF800u16) == 0x4800u16 {
            ThumbOpcode::LdrPcImm
        } else if (raw & 0xF200u16) == 0x5000u16 {
            ThumbOpcode::LdrStrReg
        } else if (raw & 0xF200u16) == 0x5200u16 {
            ThumbOpcode::LdrhStrhReg
        } else if (raw & 0xE000u16) == 0x6000u16 {
            ThumbOpcode::LdrStrImm
        } else if (raw & 0xF000u16) == 0x8000u16 {
            ThumbOpcode::LdrhStrhImm
        } else if (raw & 0xF000u16) == 0x9000u16 {
            ThumbOpcode::LdrStrSpImm
        } else if (raw & 0xF000u16) == 0xA000u16 {
            ThumbOpcode::CalcAddrImm
        } else if (raw & 0xFF00u16) == 0xB000u16 {
            ThumbOpcode::AddSpOffs
        } else if (raw & 0xF600u16) == 0xB400u16 {
            ThumbOpcode::PushPopRegs
        } else if (raw & 0xF000u16) == 0xC000u16 {
            ThumbOpcode::LdmStmRegs
        } else if (raw & 0xFF00u16) == 0xDF00u16 {
            ThumbOpcode::SoftwareInterrupt
        } else if (raw & 0xFF00u16) == 0xDE00u16 {
            // BAL is undefined.
            return Err(GbaError::InvalidThumbInstruction(raw));
        } else if (raw & 0xF000u16) == 0xD000u16 {
            ThumbOpcode::BranchConditionOffs
        } else if (raw & 0xF800u16) == 0xE000u16 {
            ThumbOpcode::BranchOffs
        } else if (raw & 0xF000u16) == 0xF000u16 {
            ThumbOpcode::BranchLongOffs
        } else {
            return Err(GbaError::InvalidThumbInstruction(raw));
        };
        Ok(ThumbInstruction { raw, op })
    }

    /// Get the decoded opcode family of the THUMB instruction.
    pub fn opcode(&self) -> (r: ThumbOpcode)
        ensures
            r == self.op,
    {
        self.op
    }

    /// Decodes the register operand index `Rd`, bits 2..0.
    #[allow(non_snake_case)]
    pub fn Rd(&self) -> (r: usize)
        ensures
            r == (self.raw as u32) & 0x7u32,
            r < 8,
    {
        proof {
            lemma_mask_bounds(self.raw as u32);
        }
        ((self.raw as u32) & 0x7u32) as usize
    }

    /// Decodes the register operand index `Rs`, bits 5..3.
    #[allow(non_snake_case)]
    pub fn Rs(&self) -> (r: usize)
        ensures
            r == ((self.raw as u32) >> 3u32) & 0x7u32,
            r < 8,
    {
        proof {
            lemma_mask_bounds(self.raw as u32);
        }
        (((self.raw as u32) >> 3) & 0x7u32) as usize
    }

    /// Decodes the register operand index `Rn`, bits 8..6.
    #[allow(non_snake_case)]
    pub fn Rn(&self) -> (r: usize)
        ensures
            r == ((self.raw as u32) >> 6u32) & 0x7u32,
            r < 8,
    {
        proof {
            lemma_mask_bounds(self.raw as u32);
        }
        (((self.raw as u32) >> 6) & 0x7u32) as usize
    }

    /// Decodes the register operand index `Rm`, bits 10..8.
    #[allow(non_snake_case)]
    pub fn Rm(&self) -> (r: usize)
        ensures
            r == ((self.raw as u32) >> 8u32) & 0x7u32,
            r < 8,
    {
        proof {
            lemma_mask_bounds(self.raw as u32);
        }
        (((self.raw as u32) >> 8) & 0x7u32) as usize
    }

    /// Decodes the 4-bit register operand index `Hd`: `Rd` extended
    /// with the operand's high bit.
    #[allow(non_snake_case)]
    pub fn Hd(&self) -> (r: usize)
        ensures
            r == ((self.raw as u32) & 0x7u32) | (((self.raw as u32) >> 4u32) & 0x8u32),
            r < 16,
    {
        proof {
            lemma_hi_reg_bounds(self.raw as u32);
        }
        (((self.raw as u32) & 0x7u32) | (((self.raw as u32) >> 4) & 0x8u32)) as usize
    }

    /// Decodes the 4-bit register operand index `Hs`: `Rs` extended
    /// with the operand's high bit.
    #[allow(non_snake_case)]
    pub fn Hs(&self) -> (r: usize)
        ensures
            r == (((self.raw as u32) >> 3u32) & 0x7u32) | (((self.raw as u32) >> 3u32) & 0x8u32),
            r < 16,
    {
        proof {
            lemma_hi_reg_bounds(self.raw as u32);
        }
        ((((self.raw as u32) >> 3) & 0x7u32) | (((self.raw as u32) >> 3) & 0x8u32)) as usize
    }

    /// Determines by how many bits a register value should be shifted.
    pub fn shift_operand(&self) -> (r: u32)
        ensures
            r == ((self.raw as u32) >> 6u32) & 0x1Fu32,
            r < 32,
    {
        proof {
            lemma_mask_bounds(self.raw as u32);
        }
        ((self.raw as u32) >> 6) & 0x1Fu32
    }

    /// Extracts a 5-bit positive immediate value, bits 10..6.
    pub fn imm5(&self) -> (r: i32)
        ensures
            r == ((self.raw as u32) >> 6u32) & 0x1Fu32,
            0 <= r < 32,
    {
        proof {
            lemma_mask_bounds(self.raw as u32);
        }
        (((self.raw as u32) >> 6) & 0x1Fu32) as i32
    }

    /// Extracts a 6-bit positive immediate value: the 5-bit field
    /// doubled.
    pub fn imm6(&self) -> (r: i32)
        ensures
            r == 2 * (((self.raw as u32) >> 6u32) & 0x1Fu32),
            0 <= r < 64,
    {
        proof {
            lemma_mask_bounds(self.raw as u32);
        }
        (2 * (((self.raw as u32) >> 6) & 0x1Fu32)) as i32
    }

    /// Extracts a 7-bit positive immediate value: the 5-bit field
    /// quadrupled.
    pub fn imm7(&self) -> (r: i32)
        ensures
            r == 4 * (((self.raw as u32) >> 6u32) & 0x1Fu32),
            0 <= r < 128,
    {
        proof {
            lemma_mask_bounds(self.raw as u32);
        }
        (4 * (((self.raw as u32) >> 6) & 0x1Fu32)) as i32
    }

    /// Extracts an 8-bit positive immediate value, bits 7..0.
    pub fn imm8(&self) -> (r: i32)
        ensures
            r == (self.raw as u32) & 0xFFu32,
            0 <= r < 0x100,
    {
        proof {
            lemma_mask_bounds(self.raw as u32);
        }
        ((self.raw as u32) & 0xFFu32) as i32
    }

    /// Extracts a 10-bit positive immediate value: the 8-bit field
    /// padded with two zero low bits.
    pub fn imm10(&self) -> (r: i32)
        ensures
            r == 4 * ((self.raw as u32) & 0xFFu32),
            0 <= r < 0x400,
    {
        proof {
            lemma_mask_bounds(self.raw as u32);
        }
        (4 * ((self.raw as u32) & 0xFFu32)) as i32
    }

    /// Extracts the 9-bit signed branch offset of a conditional
    /// branch: the 8-bit field doubled and sign-extended.
    pub fn offs9(&self) -> (r: i32)
        ensures
            r == thumb_offs9_spec(self.raw),
            -0x200 <= r < 0x200,
            r % 2 == 0,
    {
        proof {
            lemma_mask_bounds(self.raw as u32);
        }
        let low: u32 = (self.raw as u32) & 0xFFu32;
        if (self.raw as u32) & 0x80u32 != 0 {
            -(((0x100u32 - low) * 2) as i32)
        } else {
            (low * 2) as i32
        }
    }

    /// Extracts the 12-bit signed branch offset of an unconditional
    /// branch: the 11-bit field doubled and sign-extended.
    pub fn offs12(&self) -> (r: i32)
        ensures
            r == thumb_offs12_spec(self.raw),
            -0x800 <= r < 0x800,
            r % 2 == 0,
    {
        proof {
            lemma_mask_bounds(self.raw as u32);
        }
        let low: u32 = (self.raw as u32) & 0x7FFu32;
        if (self.raw as u32) & 0x400u32 != 0 {
            -(((0x800u32 - low) * 2) as i32)
        } else {
            (low * 2) as i32
        }
    }

    /// Extracts the raw 11-bit half of a long 23-bit branch offset.
    pub fn long_offs_part(&self) -> (r: i32)
        ensures
            r == (self.raw as u32) & 0x7FFu32,
            0 <= r < 0x800,
    {
        proof {
            lemma_mask_bounds(self.raw as u32);
        }
        ((self.raw as u32) & 0x7FFu32) as i32
    }

    /// Extracts the comment field of a SWI instruction.
    pub fn comment(&self) -> (r: u8)
        ensures
            r == (self.raw as u32) & 0xFFu32,
    {
        proof {
            lemma_mask_bounds(self.raw as u32);
        }
        ((self.raw as u32) & 0xFFu32) as u8
    }

    /// Extracts the register list of an LDM/STM instruction.
    pub fn register_list(&self) -> (r: u8)
        ensures
            r == (self.raw as u32) & 0xFFu32,
    {
        self.comment()
    }

    /// Extracts the data processing opcode of the `AddSub` family.
    #[allow(non_snake_case)]
    pub fn dpop_AddSub(&self) -> (r: ArmDPOP)
        ensures
            r == (if (self.raw as u32) & 0x200u32 == 0 {
                ArmDPOP::ADD
            } else {
                ArmDPOP::SUB
            }),
    {
        if (self.raw as u32) & 0x200u32 == 0 {
            ArmDPOP::ADD
        } else {
            ArmDPOP::SUB
        }
    }

    /// Extracts the barrel shifter opcode of the `MoveShiftedReg`
    /// family.
    #[allow(non_snake_case)]
    pub fn bsop_MoveShiftedReg(&self) -> (r: ArmBSOP)
        ensures
            r == decode_immediate_spec(
                (self.raw as u32) >> 11u32,
                ((self.raw as u32) >> 6u32) & 0x1Fu32,
            ),
            crate::armbsop::bsop_wf(r),
    {
        proof {
            lemma_mask_bounds(self.raw as u32);
        }
        ArmBSOP::decode_immediate((self.raw as u32) >> 11, ((self.raw as u32) >> 6) & 0x1Fu32)
    }

    /// Extracts the data processing opcode of the
    /// `DataProcessingFlags` family.
    #[allow(non_snake_case)]
    pub fn dpop_DataProcessingFlags(&self) -> (r: ArmDPOP)
        ensures
            r == thumb_dpflags_op((self.raw as u32 >> 11u32) & 0x3u32),
    {
        let k = ((self.raw as u32) >> 11) & 0x3u32;
        if k == 0 {
            ArmDPOP::MOV
        } else if k == 1 {
            ArmDPOP::CMP
        } else if k == 2 {
            ArmDPOP::ADD
        } else {
            ArmDPOP::SUB
        }
    }

    /// Extracts the data processing and barrel shifter opcodes of the
    /// `AluOperation` family. The code 13 encodes `AluMul`, which the
    /// decoder recognises as its own family, so a well-formed
    /// `AluOperation` instruction never carries it.
    #[allow(non_snake_case)]
    pub fn dpop_bsop_AluOperation(&self) -> (r: (ArmDPOP, ArmBSOP))
        requires
            thumb_inst_wf(*self),
            self.op is AluOperation,
        ensures
            r == thumb_alu_op_spec(self.raw),
            crate::armbsop::bsop_wf(r.1),
    {
        proof {
            lemma_mask_bounds(self.raw as u32);
            lemma_alu_mul_is_separate(self.raw);
        }
        let k = ((self.raw as u32) >> 6) & 0xFu32;
        if k == 0 {
            (ArmDPOP::AND, ArmBSOP::NOP)
        } else if k == 1 {
            (ArmDPOP::EOR, ArmBSOP::NOP)
        } else if k == 2 {
            (ArmDPOP::MOV, ArmBSOP::LSL_Reg(self.Rs()))
        } else if k == 3 {
            (ArmDPOP::MOV, ArmBSOP::LSR_Reg(self.Rs()))
        } else if k == 4 {
            (ArmDPOP::MOV, ArmBSOP::ASR_Reg(self.Rs()))
        } else if k == 5 {
            (ArmDPOP::ADC, ArmBSOP::NOP)
        } else if k == 6 {
            (ArmDPOP::SBC, ArmBSOP::NOP)
        } else if k == 7 {
            (ArmDPOP::MOV, ArmBSOP::ROR_Reg(self.Rs()))
        } else if k == 8 {
            (ArmDPOP::TST, ArmBSOP::NOP)
        } else if k == 9 {
            (ArmDPOP::RSB, ArmBSOP::NOP)
        } else if k == 10 {
            (ArmDPOP::CMP, ArmBSOP::NOP)
        } else if k == 11 {
            (ArmDPOP::CMN, ArmBSOP::NOP)
        } else if k == 12 {
            (ArmDPOP::ORR, ArmBSOP::NOP)
        } else if k == 14 {
            (ArmDPOP::BIC, ArmBSOP::NOP)
        } else {
            (ArmDPOP::MVN, ArmBSOP::NOP)
        }
    }

    /// Extracts the high register operation of the `HiRegOpBx` family.
    #[allow(non_snake_case)]
    pub fn op_HiRegOpBx(&self) -> (r: HiRegisterOp)
        ensures
            r == thumb_hi_reg_op((self.raw as u32 >> 8u32) & 0x3u32),
    {
        let k = ((self.raw as u32) >> 8) & 0x3u32;
        if k == 0 {
            HiRegisterOp::AddNoFlags
        } else if k == 1 {
            HiRegisterOp::CmpFlags
        } else if k == 2 {
            HiRegisterOp::MovNoFlags
        } else {
            HiRegisterOp::BxRsHs
        }
    }

    /// Extracts the transfer operation of the `LdrhStrhReg` family.
    #[allow(non_snake_case)]
    pub fn op_LdrhStrhReg(&self) -> (r: LdrhStrhOp)
        ensures
            r == thumb_ldrh_strh_op((self.raw as u32 >> 10u32) & 0x3u32),
    {
        let k = ((self.raw as u32) >> 10) & 0x3u32;
        if k == 0 {
            LdrhStrhOp::STRH
        } else if k == 1 {
            LdrhStrhOp::LDRH
        } else if k == 2 {
            LdrhStrhOp::LDSB
        } else {
            LdrhStrhOp::LDSH
        }
    }

    /// Extracts the condition code of a conditional branch.
    pub fn condition(&self) -> (r: ArmCondition)
        ensures
            r == condition_of_code((self.raw as u32 >> 8u32) & 0xFu32),
    {
        proof {
            lemma_mask_bounds(self.raw as u32);
        }
        condition_from_code(((self.raw as u32) >> 8) & 0xFu32)
    }

    /// Whether the `AddSub` operand `Rn` is an immediate rather than a
    /// register.
    #[allow(non_snake_case)]
    pub fn is_Rn_immediate(&self) -> (r: bool)
        ensures
            r == ((self.raw as u32) & 0x400u32 != 0),
    {
        (self.raw as u32) & 0x400u32 != 0
    }

    /// Whether the instruction loads rather than stores.
    pub fn is_load(&self) -> (r: bool)
        ensures
            r == ((self.raw as u32) & 0x800u32 != 0),
    {
        (self.raw as u32) & 0x800u32 != 0
    }

    /// Whether the load/store transfers a single byte.
    pub fn is_transfering_bytes(&self) -> (r: bool)
        ensures
            r == ((self.raw as u32) & 0x400u32 != 0),
    {
        (self.raw as u32) & 0x400u32 != 0
    }

    /// Whether the load/store transfers signed data.
    pub fn is_signed(&self) -> (r: bool)
        ensures
            r == ((self.raw as u32) & 0x400u32 != 0),
    {
        self.is_transfering_bytes()
    }

    /// Whether an address calculation uses SP rather than PC.
    #[allow(non_snake_case)]
    pub fn is_base_SP(&self) -> (r: bool)
        ensures
            r == ((self.raw as u32) & 0x800u32 != 0),
    {
        self.is_load()
    }

    /// Whether a PUSH stores LR, or a POP loads PC.
    #[allow(non_snake_case)]
    pub fn is_storing_LR_loading_PC(&self) -> (r: bool)
        ensures
            r == ((self.raw as u32) & 0x100u32 != 0),
    {
        (self.raw as u32) & 0x100u32 != 0
    }

    /// Whether a long-branch halfword is the low half, which completes
    /// the branch.
    pub fn is_low_offset_and_branch(&self) -> (r: bool)
        ensures
            r == ((self.raw as u32) & 0x800u32 != 0),
    {
        self.is_load()
    }
}

/// The 9-bit signed conditional-branch offset of a halfword.
pub open spec fn thumb_offs9_spec(raw: u16) -> int {
    if (raw as u32) & 0x80u32 != 0 {
        2 * ((raw as u32) & 0xFFu32) - 0x200
    } else {
        2 * ((raw as u32) & 0xFFu32)
    }
}

/// The 12-bit signed unconditional-branch offset of a halfword.
pub open spec fn thumb_offs12_spec(raw: u16) -> int {
    if (raw as u32) & 0x400u32 != 0 {
        2 * ((raw as u32) & 0x7FFu32) - 0x1000
    } else {
        2 * ((raw as u32) & 0x7FFu32)
    }
}

/// The data-processing opcode of the `DataProcessingFlags` family.
pub open spec fn thumb_dpflags_op(k: u32) -> ArmDPOP {
    if k == 0 {
        ArmDPOP::MOV
    } else if k == 1 {
        ArmDPOP::CMP
    } else if k == 2 {
        ArmDPOP::ADD
    } else {
        ArmDPOP::SUB
    }
}

/// The high-register operation encoded by bits 9..8.
pub open spec fn thumb_hi_reg_op(k: u32) -> HiRegisterOp {
    if k == 0 {
        HiRegisterOp::AddNoFlags
    } else if k == 1 {
        HiRegisterOp::CmpFlags
    } else if k == 2 {
        HiRegisterOp::MovNoFlags
    } else {
        HiRegisterOp::BxRsHs
    }
}

/// The halfword/signed transfer operation encoded by bits 11..10.
pub open spec fn thumb_ldrh_strh_op(k: u32) -> LdrhStrhOp {
    if k == 0 {
        LdrhStrhOp::STRH
    } else if k == 1 {
        LdrhStrhOp::LDRH
    } else if k == 2 {
        LdrhStrhOp::LDSB
    } else {
        LdrhStrhOp::LDSH
    }
}

/// The ALU operation table of the `AluOperation` family, mapping each
/// 4-bit code onto the shared ARM data-processing and barrel-shifter
/// opcodes. Code 13 belongs to the separate `AluMul` family.
pub open spec fn thumb_alu_op_spec(raw: u16) -> (ArmDPOP, ArmBSOP) {
    let k = ((raw as u32) >> 6u32) & 0xFu32;
    let rs = (((raw as u32) >> 3u32) & 0x7u32) as usize;
    if k == 0 {
        (ArmDPOP::AND, ArmBSOP::NOP)
    } else if k == 1 {
        (ArmDPOP::EOR, ArmBSOP::NOP)
    } else if k == 2 {
        (ArmDPOP::MOV, ArmBSOP::LSL_Reg(rs))
    } else if k == 3 {
        (ArmDPOP::MOV, ArmBSOP::LSR_Reg(rs))
    } else if k == 4 {
        (ArmDPOP::MOV, ArmBSOP::ASR_Reg(rs))
    } else if k == 5 {
        (ArmDPOP::ADC, ArmBSOP::NOP)
    } else if k == 6 {
        (ArmDPOP::SBC, ArmBSOP::NOP)
    } else if k == 7 {
        (ArmDPOP::MOV, ArmBSOP::ROR_Reg(rs))
    } else if k == 8 {
        (ArmDPOP::TST, ArmBSOP::NOP)
    } else if k == 9 {
        (ArmDPOP::RSB, ArmBSOP::NOP)
    } else if k == 10 {
        (ArmDPOP::CMP, ArmBSOP::NOP)
    } else if k == 11 {
        (ArmDPOP::CMN, ArmBSOP::NOP)
    } else if k == 12 {
        (ArmDPOP::ORR, ArmBSOP::NOP)
    } else if k == 14 {
        (ArmDPOP::BIC, ArmBSOP::NOP)
    } else {
        (ArmDPOP::MVN, ArmBSOP::NOP)
    }
}

/// The two 4-bit high register indices stay below 16.
proof fn lemma_hi_reg_bounds(x: u32)
    ensures
        (x & 0x7u32) | ((x >> 4u32) & 0x8u32) < 16,
        ((x >> 3u32) & 0x7u32) | ((x >> 3u32) & 0x8u32) < 16,
{
    assert((x & 0x7u32) | ((x >> 4u32) & 0x8u32) < 16 && ((x >> 3u32) & 0x7u32) | ((x >> 3u32)
        & 0x8u32) < 16) by (bit_vector);
}

/// A halfword that classifies as `AluOperation` does not carry the
/// ALU code 13: that pattern is the separate `AluMul` family.
proof fn lemma_alu_mul_is_separate(raw: u16)
    requires
        (raw & 0xFC00u16) == 0x4000u16,
        (raw & 0xFFC0u16) != 0x4340u16,
    ensures
        ((raw as u32) >> 6u32) & 0xFu32 != 13,
{
    assert(((raw & 0xFC00u16) == 0x4000u16 && (raw & 0xFFC0u16) != 0x4340u16) ==> ((raw as u32)
        >> 6u32) & 0xFu32 != 13) by (bit_vector);
}

/// The pseudo NOP halfword classifies as a high-register operation.
proof fn lemma_nop_is_hi_reg_op()
    ensures
        thumb_classify(0x46C0u16) == Some(ThumbOpcode::HiRegOpBx),
{
    assert((0x46C0u16 & 0xF800u16) != 0x1800u16 && (0x46C0u16 & 0xE000u16) != 0x0000u16 && (
    0x46C0u16 & 0xE000u16) != 0x2000u16 && (0x46C0u16 & 0xFFC0u16) != 0x4340u16 && (0x46C0u16
        & 0xFC00u16) != 0x4000u16 && (0x46C0u16 & 0xFC00u16) == 0x4400u16) by (bit_vector);
}

} // verus!
