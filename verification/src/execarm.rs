//! Execution of decoded ARM state instructions.
//!
//! The executor first evaluates the condition field; a failing
//! condition makes the instruction a no-op that still advances PC.
//! Each opcode family then has one handler, and each handler's effect
//! on the CPU and the bus is pinned down by a spec-level interpreter.

use vstd::prelude::*;

use crate::alu::{
    alu_data_processing, alu_data_processing_flags, dp_carry, dp_overflow, dp_result,
    lemma_wrap_fold,
};
use crate::arm7tdmi::{change_mode_spec, exception_spec, Arm7Tdmi, CpuAction, CpuView};
use crate::armcondition::{condition_of_code, condition_table};
use crate::armdpop::{dpop_is_test, dpop_of_code};
use crate::arminstruction::{
    arm_rd, arm_rm, arm_rn, arm_rs, ldr_str_offset_mag, ldrh_strh_of_code, shft_operand_vc,
    split_offset8_mag, ArmInstruction, ArmLdrhStrhOP, ArmOpcode,
};
use crate::bitutil::{
    lemma_mask_bounds, lemma_wrap_fold64, sign_extend_16, sign_extend_32_64, sign_extend_8,
    sx16, sx32to64, sx8, wadd, wadd64, wmul, wmul64, wrap32, wrap64, wsub,
};
use crate::bus::{
    bus_wf, load16_spec, load32_spec, load8_spec, store16_spec, store32_spec, store8_spec, Bus,
    BusView,
};
use crate::error::GbaError;
use crate::exception::Exception;
use crate::psr::{
    c_flag, mode_index, mode_of, override_masked_spec, psr_with_nzcv, set_flag_spec, Mode, State,
    CPSR,
};

verus! {

/// A CPSR word with its T bit set to a given state.
pub open spec fn psr_with_state(x: u32, s: State) -> u32 {
    (x & !0x20u32) | (if s is THUMB {
        0x20u32
    } else {
        0u32
    })
}

/// The branch offset of a B/BL word, as the 32-bit value that is
/// added to PC modulo 2^32.
pub open spec fn branch_offset_int(raw: u32) -> int {
    if raw & 0x80_0000u32 != 0 {
        4 * (raw & 0xFF_FFFFu32) - 0x400_0000
    } else {
        4 * (raw & 0xFF_FFFFu32)
    }
}

/// The effect of BX: the low bit of Rm selects the state, and PC
/// jumps to the address with that bit cleared.
pub open spec fn bx_spec(c: CpuView, b: BusView, raw: u32) -> (CpuView, BusView, Result<
    CpuAction,
    GbaError,
>) {
    let addr = c.gpr[arm_rm(raw) as int];
    let s = if addr & 1u32 == 0 {
        State::ARM
    } else {
        State::THUMB
    };
    (
        CpuView {
            gpr: c.gpr.update(15, addr & 0xFFFF_FFFEu32),
            cpsr: psr_with_state(c.cpsr, s),
            state: s,
            ..c
        },
        b,
        Ok(CpuAction::FlushPipeline),
    )
}

/// The effect of B/BL: BL records `PC - 4` in the link register, and
/// PC moves by the sign-extended 26-bit offset.
pub open spec fn b_bl_spec(c: CpuView, b: BusView, raw: u32) -> (CpuView, BusView, Result<
    CpuAction,
    GbaError,
>) {
    let gpr1 = if raw & 0x0100_0000u32 != 0 {
        c.gpr.update(14, wrap32(c.gpr[15] - 4))
    } else {
        c.gpr
    };
    let gpr2 = gpr1.update(15, wrap32(c.gpr[15] + branch_offset_int(raw)));
    (CpuView { gpr: gpr2, ..c }, b, Ok(CpuAction::FlushPipeline))
}

/// The effect of MUL/MLA: `Rn := Rm * Rs (+ Rd)` modulo 2^32; the S
/// bit sets N and Z from the result and clears C.
pub open spec fn mul_mla_spec(c: CpuView, b: BusView, raw: u32) -> (CpuView, BusView, Result<
    CpuAction,
    GbaError,
>) {
    let prod = c.gpr[arm_rs(raw) as int] * c.gpr[arm_rm(raw) as int];
    let base = if raw & 0x0020_0000u32 != 0 {
        prod + c.gpr[arm_rd(raw) as int]
    } else {
        prod
    };
    let val = wrap32(base);
    let cpsr1 = if raw & 0x0010_0000u32 != 0 {
        set_flag_spec(
            set_flag_spec(set_flag_spec(c.cpsr, 0x8000_0000u32, val >= 0x8000_0000u32), 0x4000_0000u32, val == 0), 0x2000_0000u32, false)
    } else {
        c.cpsr
    };
    (
        CpuView { gpr: c.gpr.update(arm_rn(raw) as int, val), cpsr: cpsr1, ..c },
        b,
        Ok(CpuAction::Advance),
    )
}

/// The effect of the long multiplies: a 64-bit product (signed or
/// unsigned), optionally accumulating the previous `RdHi:RdLo`, placed
/// as high word in `Rn` and low word in `Rd`. The S bit sets N from
/// bit 63 and Z from the whole result, and writes 0 into C and V,
/// whose architectural value is unpredictable.
pub open spec fn mull_mlal_spec(c: CpuView, b: BusView, raw: u32) -> (CpuView, BusView, Result<
    CpuAction,
    GbaError,
>) {
    let rsv = c.gpr[arm_rs(raw) as int];
    let rmv = c.gpr[arm_rm(raw) as int];
    let prod: int = if raw & 0x0040_0000u32 != 0 {
        sign_extend_32_64(rsv) * sign_extend_32_64(rmv)
    } else {
        rsv * rmv
    };
    let acc: int = if raw & 0x0020_0000u32 != 0 {
        c.gpr[arm_rn(raw) as int] * 0x1_0000_0000 + c.gpr[arm_rd(raw) as int]
    } else {
        0
    };
    let res = wrap64(prod + acc);
    let hi = (res / 0x1_0000_0000) as u32;
    let lo = (res % 0x1_0000_0000) as u32;
    let cpsr1 = if raw & 0x0010_0000u32 != 0 {
        psr_with_nzcv(c.cpsr, res >= 0x8000_0000_0000_0000u64, res == 0, false, false)
    } else {
        c.cpsr
    };
    (
        CpuView {
            gpr: c.gpr.update(arm_rn(raw) as int, hi).update(arm_rd(raw) as int, lo),
            cpsr: cpsr1,
            ..c
        },
        b,
        Ok(CpuAction::Advance),
    )
}

/// The effect of a data-processing operation. Without the S bit the
/// result is written to Rd (a test opcode here is malformed and
/// reported as an invalid instruction). With the S bit the four flags
/// are updated; writing Rd = PC additionally restores CPSR from the
/// current SPSR, which User mode may not do.
pub open spec fn data_processing_spec(c: CpuView, b: BusView, raw: u32) -> (
    CpuView,
    BusView,
    Result<CpuAction, GbaError>,
) {
    let op = dpop_of_code((raw >> 21u32) & 0xFu32);
    let rd = arm_rd(raw) as int;
    let op1 = c.gpr[arm_rn(raw) as int];
    let pair = shft_operand_vc(raw, c.gpr, c_flag(c.cpsr));
    let op2 = pair.0;
    let cshft = pair.1;
    let val = dp_result(op, op1, op2, c_flag(c.cpsr));
    if raw & 0x0010_0000u32 == 0 {
        if dpop_is_test(op) {
            (c, b, Err(GbaError::InvalidArmInstruction(raw)))
        } else {
            (
                CpuView { gpr: c.gpr.update(rd, val), ..c },
                b,
                Ok(
                    if rd == 15 {
                        CpuAction::FlushPipeline
                    } else {
                        CpuAction::Advance
                    },
                ),
            )
        }
    } else {
        let cpsr1 = psr_with_nzcv(
            c.cpsr,
            val >= 0x8000_0000u32,
            val == 0,
            dp_carry(op, op1, op2, c_flag(c.cpsr), cshft),
            dp_overflow(op, op1, op2, c_flag(c.cpsr), v_flag_of(c.cpsr)),
        );
        let gpr1 = if dpop_is_test(op) {
            c.gpr
        } else {
            c.gpr.update(rd, val)
        };
        if rd == 15 {
            if c.mode is User {
                (CpuView { gpr: gpr1, cpsr: cpsr1, ..c }, b, Err(GbaError::PrivilegedUserCode))
            } else {
                (
                    CpuView { gpr: gpr1, cpsr: c.spsr[mode_index(c.mode)], ..c },
                    b,
                    Ok(CpuAction::FlushPipeline),
                )
            }
        } else {
            (CpuView { gpr: gpr1, cpsr: cpsr1, ..c }, b, Ok(CpuAction::Advance))
        }
    }
}

/// The V flag of a raw PSR word (an alias kept for readability here).
pub open spec fn v_flag_of(x: u32) -> bool {
    crate::psr::v_flag(x)
}

/// The effect of MRS: CPSR, or the current mode's SPSR, copied into
/// Rd. User mode has no SPSR.
pub open spec fn mrs_spec(c: CpuView, b: BusView, raw: u32) -> (CpuView, BusView, Result<
    CpuAction,
    GbaError,
>) {
    if raw & 0x0040_0000u32 != 0 {
        if c.mode is User {
            (c, b, Err(GbaError::PrivilegedUserCode))
        } else {
            (
                CpuView { gpr: c.gpr.update(arm_rd(raw) as int, c.spsr[mode_index(c.mode)]), ..c },
                b,
                Ok(CpuAction::Advance),
            )
        }
    } else {
        (
            CpuView { gpr: c.gpr.update(arm_rd(raw) as int, c.cpsr), ..c },
            b,
            Ok(CpuAction::Advance),
        )
    }
}

/// The effect of MSR by register: the whole non-reserved part of the
/// target PSR is overwritten. User mode may only write the CPSR flag
/// bits; a mode-field change switches the register banks, and an
/// illegal mode pattern is reported with the CPSR already written.
pub open spec fn msr_reg_spec(c: CpuView, b: BusView, raw: u32) -> (CpuView, BusView, Result<
    CpuAction,
    GbaError,
>) {
    let val = c.gpr[arm_rm(raw) as int];
    if c.mode is User {
        if raw & 0x0040_0000u32 != 0 {
            (c, b, Err(GbaError::PrivilegedUserCode))
        } else {
            (
                CpuView { cpsr: override_masked_spec(c.cpsr, val, 0xF000_0000u32), ..c },
                b,
                Ok(CpuAction::Advance),
            )
        }
    } else if raw & 0x0040_0000u32 != 0 {
        (
            CpuView {
                spsr: c.spsr.update(
                    mode_index(c.mode),
                    override_masked_spec(c.spsr[mode_index(c.mode)], val, 0xF000_00FFu32),
                ),
                ..c
            },
            b,
            Ok(CpuAction::Advance),
        )
    } else {
        let cpsr1 = override_masked_spec(c.cpsr, val, 0xF000_00FFu32);
        let c1 = CpuView { cpsr: cpsr1, ..c };
        match mode_of(cpsr1) {
            Option::None => (c1, b, Err(GbaError::InvalidPsrMode)),
            Option::Some(m) => (change_mode_spec(c1, m), b, Ok(CpuAction::Advance)),
        }
    }
}

/// The operand of an MSR-into-flags: a plain register or a rotated
/// immediate.
pub open spec fn shsr_operand(c: CpuView, raw: u32) -> u32 {
    if raw & 0x0200_0000u32 == 0 {
        c.gpr[arm_rm(raw) as int]
    } else {
        crate::arminstruction::rotated_imm_spec(raw)
    }
}

/// The effect of MSR into the flag bits only.
pub open spec fn msr_flags_spec(c: CpuView, b: BusView, raw: u32) -> (CpuView, BusView, Result<
    CpuAction,
    GbaError,
>) {
    let val = shsr_operand(c, raw);
    if raw & 0x0040_0000u32 != 0 {
        if c.mode is User {
            (c, b, Err(GbaError::PrivilegedUserCode))
        } else {
            (
                CpuView {
                    spsr: c.spsr.update(
                        mode_index(c.mode),
                        override_masked_spec(c.spsr[mode_index(c.mode)], val, 0xF000_0000u32),
                    ),
                    ..c
                },
                b,
                Ok(CpuAction::Advance),
            )
        }
    } else {
        (
            CpuView { cpsr: override_masked_spec(c.cpsr, val, 0xF000_0000u32), ..c },
            b,
            Ok(CpuAction::Advance),
        )
    }
}

/// The effect of SWP: an atomic exchange of a byte or word between
/// memory at `[Rn]` and `Rm`, with the old memory value landing in
/// Rd. The read happens before the write; an error on either leaves
/// everything unchanged.
pub open spec fn swp_spec(c: CpuView, b: BusView, raw: u32) -> (CpuView, BusView, Result<
    CpuAction,
    GbaError,
>) {
    let addr = c.gpr[arm_rn(raw) as int];
    let src = c.gpr[arm_rm(raw) as int];
    if raw & 0x0040_0000u32 != 0 {
        match load8_spec(b, addr) {
            Err(e) => (c, b, Err(e)),
            Ok(t) => match store8_spec(b, addr, src) {
                Err(e) => (c, b, Err(e)),
                Ok(b2) => (
                    CpuView { gpr: c.gpr.update(arm_rd(raw) as int, t), ..c },
                    b2,
                    Ok(CpuAction::Advance),
                ),
            },
        }
    } else {
        match load32_spec(b, addr) {
            Err(e) => (c, b, Err(e)),
            Ok(t) => match store32_spec(b, addr, src) {
                Err(e) => (c, b, Err(e)),
                Ok(b2) => (
                    CpuView { gpr: c.gpr.update(arm_rd(raw) as int, t), ..c },
                    b2,
                    Ok(CpuAction::Advance),
                ),
            },
        }
    }
}

/// The signed offset of a single data transfer, already negated for
/// the subtract direction.
pub open spec fn ldr_str_offset_int(c: CpuView, raw: u32) -> int {
    let mag = ldr_str_offset_mag(raw, c.gpr, c_flag(c.cpsr));
    if raw & 0x0080_0000u32 != 0 {
        mag as int
    } else {
        -(mag as int)
    }
}

/// A register file after the base write-back of a load/store: the
/// post-indexed form always writes `address + offset` back to Rn, the
/// pre-indexed form writes the access address only when the W bit is
/// set.
pub open spec fn writeback_gpr(gpr: Seq<u32>, raw: u32, addr: u32, soff: int) -> Seq<u32> {
    if raw & 0x0100_0000u32 == 0 {
        gpr.update(arm_rn(raw) as int, wrap32(addr + soff))
    } else if raw & 0x0020_0000u32 != 0 {
        gpr.update(arm_rn(raw) as int, addr)
    } else {
        gpr
    }
}

/// The effect of LDR/STR: a byte or word transfer between Rd and the
/// pre- or post-indexed address, with the word rotation of the bus on
/// mis-aligned loads, and the base write-back applied after the
/// access.
pub open spec fn ldr_str_spec(c: CpuView, b: BusView, raw: u32) -> (CpuView, BusView, Result<
    CpuAction,
    GbaError,
>) {
    let base = c.gpr[arm_rn(raw) as int];
    let soff = ldr_str_offset_int(c, raw);
    let addr = if raw & 0x0100_0000u32 != 0 {
        wrap32(base + soff)
    } else {
        base
    };
    if raw & 0x0010_0000u32 != 0 {
        let loaded = if raw & 0x0040_0000u32 != 0 {
            load8_spec(b, addr)
        } else {
            load32_spec(b, addr)
        };
        match loaded {
            Err(e) => (c, b, Err(e)),
            Ok(v) => (
                CpuView {
                    gpr: writeback_gpr(c.gpr.update(arm_rd(raw) as int, v), raw, addr, soff),
                    ..c
                },
                b,
                Ok(CpuAction::Advance),
            ),
        }
    } else {
        let stored = if raw & 0x0040_0000u32 != 0 {
            store8_spec(b, addr, c.gpr[arm_rd(raw) as int])
        } else {
            store32_spec(b, addr, c.gpr[arm_rd(raw) as int])
        };
        match stored {
            Err(e) => (c, b, Err(e)),
            Ok(b2) => (
                CpuView { gpr: writeback_gpr(c.gpr, raw, addr, soff), ..c },
                b2,
                Ok(CpuAction::Advance),
            ),
        }
    }
}

/// The signed offset of a halfword transfer: the split immediate or
/// the plain Rm value, negated for the subtract direction.
pub open spec fn ldrh_offset_int(c: CpuView, raw: u32, imm: bool) -> int {
    let mag = if imm {
        split_offset8_mag(raw)
    } else {
        c.gpr[arm_rm(raw) as int]
    };
    if raw & 0x0080_0000u32 != 0 {
        mag as int
    } else {
        -(mag as int)
    }
}

/// The effect of the halfword and signed transfers. Loads zero- or
/// sign-extend what the bus returns; the signed store forms execute
/// as their unsigned counterparts. The `InvalidSWP` pattern cannot be
/// executed and is reported as an invalid instruction.
pub open spec fn ldrh_strh_spec(c: CpuView, b: BusView, raw: u32, imm: bool) -> (
    CpuView,
    BusView,
    Result<CpuAction, GbaError>,
) {
    let base = c.gpr[arm_rn(raw) as int];
    let soff = ldrh_offset_int(c, raw, imm);
    let addr = if raw & 0x0100_0000u32 != 0 {
        wrap32(base + soff)
    } else {
        base
    };
    let op = ldrh_strh_of_code((raw >> 5u32) & 0x3u32);
    if op is InvalidSWP {
        (c, b, Err(GbaError::InvalidArmInstruction(raw)))
    } else if raw & 0x0010_0000u32 != 0 {
        let loaded = match op {
            ArmLdrhStrhOP::UH => load16_spec(b, addr),
            ArmLdrhStrhOP::SB => match load8_spec(b, addr) {
                Ok(v) => Ok(sign_extend_8(v)),
                Err(e) => Err(e),
            },
            _ => match load16_spec(b, addr) {
                Ok(v) => Ok(sign_extend_16(v)),
                Err(e) => Err(e),
            },
        };
        match loaded {
            Err(e) => (c, b, Err(e)),
            Ok(v) => (
                CpuView {
                    gpr: writeback_gpr(c.gpr.update(arm_rd(raw) as int, v), raw, addr, soff),
                    ..c
                },
                b,
                Ok(CpuAction::Advance),
            ),
        }
    } else {
        let stored = match op {
            ArmLdrhStrhOP::SB => store8_spec(b, addr, c.gpr[arm_rd(raw) as int]),
            _ => store16_spec(b, addr, c.gpr[arm_rd(raw) as int]),
        };
        match stored {
            Err(e) => (c, b, Err(e)),
            Ok(b2) => (
                CpuView { gpr: writeback_gpr(c.gpr, raw, addr, soff), ..c },
                b2,
                Ok(CpuAction::Advance),
            ),
        }
    }
}

/// The dispatch table of the executor, before condition evaluation:
/// the effect each family has on the CPU and the bus. The co-processor
/// families and the reserved space raise the Undefined-Instruction
/// exception; SWI raises the Software-Interrupt exception.
pub open spec fn arm_exec_spec(c: CpuView, b: BusView, inst: ArmInstruction) -> (
    CpuView,
    BusView,
    Result<CpuAction, GbaError>,
) {
    match inst.op {
        ArmOpcode::BX => bx_spec(c, b, inst.raw),
        ArmOpcode::B_BL => b_bl_spec(c, b, inst.raw),
        ArmOpcode::MUL_MLA => mul_mla_spec(c, b, inst.raw),
        ArmOpcode::MULL_MLAL => mull_mlal_spec(c, b, inst.raw),
        ArmOpcode::DataProcessing => data_processing_spec(c, b, inst.raw),
        ArmOpcode::MRS => mrs_spec(c, b, inst.raw),
        ArmOpcode::MSR_Reg => msr_reg_spec(c, b, inst.raw),
        ArmOpcode::MSR_Flags => msr_flags_spec(c, b, inst.raw),
        ArmOpcode::LDR_STR => ldr_str_spec(c, b, inst.raw),
        ArmOpcode::LDRH_STRH_Reg => ldrh_strh_spec(c, b, inst.raw, false),
        ArmOpcode::LDRH_STRH_Imm => ldrh_strh_spec(c, b, inst.raw, true),
        ArmOpcode::LDM_STM => crate::execldm::ldm_stm_spec(c, b, inst.raw),
        ArmOpcode::SWP => swp_spec(c, b, inst.raw),
        ArmOpcode::SWI => (
            exception_spec(c, Exception::SoftwareInterrupt),
            b,
            Ok(CpuAction::FlushPipeline),
        ),
        ArmOpcode::CDP => (
            exception_spec(c, Exception::UndefinedInstruction),
            b,
            Ok(CpuAction::FlushPipeline),
        ),
        ArmOpcode::MRC_MCR => (
            exception_spec(c, Exception::UndefinedInstruction),
            b,
            Ok(CpuAction::FlushPipeline),
        ),
        ArmOpcode::LDC_STC => (
            exception_spec(c, Exception::UndefinedInstruction),
            b,
            Ok(CpuAction::FlushPipeline),
        ),
        ArmOpcode::Unknown => (
            exception_spec(c, Exception::UndefinedInstruction),
            b,
            Ok(CpuAction::FlushPipeline),
        ),
    }
}

/// One executed ARM instruction: the reserved condition NV is an
/// error, a failing condition is a plain PC advance, and a passing
/// condition applies the family's effect.
pub open spec fn arm_step_spec(c: CpuView, b: BusView, inst: ArmInstruction) -> (
    CpuView,
    BusView,
    Result<CpuAction, GbaError>,
) {
    match condition_table(condition_of_code(inst.raw >> 28u32), c.cpsr) {
        Option::None => (c, b, Err(GbaError::ReservedArmConditionNV)),
        Option::Some(false) => (c, b, Ok(CpuAction::Advance)),
        Option::Some(true) => arm_exec_spec(c, b, inst),
    }
}

impl Arm7Tdmi {
    /// Immediately executes a single ARM state instruction against
    /// the given bus. The condition field decides whether anything
    /// happens at all; each family's exact effect on the registers,
    /// the status words and the bus is the one `arm_step_spec` gives.
    pub fn execute_arm_state(&mut self, bus: &mut Bus, inst: ArmInstruction) -> (r: Result<
        CpuAction,
        GbaError,
    >)
        requires
            bus_wf(old(bus)),
        ensures
            bus_wf(final(bus)),
            ({
                let step = arm_step_spec(old(self)@, old(bus)@, inst);
                final(self)@ == step.0 && final(bus)@ == step.1 && r == step.2
            }),
    {
        let do_exec = match inst.condition().check(&self.cpsr) {
            Ok(v) => v,
            Err(e) => {
                return Err(e);
            },
        };
        if !do_exec {
            return Ok(CpuAction::Advance);
        }
        match inst.opcode() {
            ArmOpcode::BX => self.execute_bx(bus, inst),
            ArmOpcode::B_BL => self.execute_b_bl(bus, inst),
            ArmOpcode::MUL_MLA => self.execute_mul_mla(bus, inst),
            ArmOpcode::MULL_MLAL => self.execute_mull_mlal(bus, inst),
            ArmOpcode::DataProcessing => self.execute_data_processing(bus, inst),
            ArmOpcode::MRS => self.execute_mrs(bus, inst),
            ArmOpcode::MSR_Reg => self.execute_msr_reg(bus, inst),
            ArmOpcode::MSR_Flags => self.execute_msr_flags(bus, inst),
            ArmOpcode::LDR_STR => self.execute_ldr_str(bus, inst),
            ArmOpcode::LDRH_STRH_Reg => self.execute_ldrh_strh(bus, inst, false),
            ArmOpcode::LDRH_STRH_Imm => self.execute_ldrh_strh(bus, inst, true),
            ArmOpcode::LDM_STM => self.execute_ldm_stm(bus, inst),
            ArmOpcode::SWP => self.execute_swp(bus, inst),
            ArmOpcode::SWI => {
                self.exception(Exception::SoftwareInterrupt);
                Ok(CpuAction::FlushPipeline)
            },
            ArmOpcode::CDP => self.execute_undefined(bus, inst),
            ArmOpcode::MRC_MCR => self.execute_undefined(bus, inst),
            ArmOpcode::LDC_STC => self.execute_undefined(bus, inst),
            ArmOpcode::Unknown => self.execute_undefined(bus, inst),
        }
    }

    /// The GBA has no co-processors: the co-processor families and the
    /// reserved instruction space raise the Undefined-Instruction
    /// exception.
    fn execute_undefined(&mut self, bus: &mut Bus, inst: ArmInstruction) -> (r: Result<
        CpuAction,
        GbaError,
    >)
        requires
            bus_wf(old(bus)),
        ensures
            bus_wf(final(bus)),
            final(self)@ == exception_spec(old(self)@, Exception::UndefinedInstruction),
            final(bus)@ == old(bus)@,
            r == Ok::<CpuAction, GbaError>(CpuAction::FlushPipeline),
    {
        self.exception(Exception::UndefinedInstruction);
        Ok(CpuAction::FlushPipeline)
    }

    fn execute_bx(&mut self, bus: &mut Bus, inst: ArmInstruction) -> (r: Result<
        CpuAction,
        GbaError,
    >)
        requires
            bus_wf(old(bus)),
        ensures
            bus_wf(final(bus)),
            ({
                let step = bx_spec(old(self)@, old(bus)@, inst.raw);
                final(self)@ == step.0 && final(bus)@ == step.1 && r == step.2
            }),
    {
        let rm = inst.Rm();
        let addr = self.gpr[rm];
        let s = if addr & 1u32 == 0 {
            State::ARM
        } else {
            State::THUMB
        };
        self.state = s;
        self.cpsr.set_state(s);
        self.gpr[15] = addr & 0xFFFF_FFFEu32;
        Ok(CpuAction::FlushPipeline)
    }

    fn execute_b_bl(&mut self, bus: &mut Bus, inst: ArmInstruction) -> (r: Result<
        CpuAction,
        GbaError,
    >)
        requires
            bus_wf(old(bus)),
        ensures
            bus_wf(final(bus)),
            ({
                let step = b_bl_spec(old(self)@, old(bus)@, inst.raw);
                final(self)@ == step.0 && final(bus)@ == step.1 && r == step.2
            }),
    {
        proof {
            lemma_mask_bounds(inst.raw);
        }
        let pc = self.gpr[15];
        if inst.is_branch_with_link() {
            self.gpr[14] = wsub(pc, 4);
        }
        let low = inst.raw & 0xFF_FFFFu32;
        if inst.raw & 0x80_0000u32 != 0 {
            self.gpr[15] = wsub(pc, (0x100_0000u32 - low) * 4);
        } else {
            self.gpr[15] = wadd(pc, low * 4);
        }
        Ok(CpuAction::FlushPipeline)
    }

    fn execute_mul_mla(&mut self, bus: &mut Bus, inst: ArmInstruction) -> (r: Result<
        CpuAction,
        GbaError,
    >)
        requires
            bus_wf(old(bus)),
        ensures
            bus_wf(final(bus)),
            ({
                let step = mul_mla_spec(old(self)@, old(bus)@, inst.raw);
                final(self)@ == step.0 && final(bus)@ == step.1 && r == step.2
            }),
    {
        let rsv = self.gpr[inst.Rs()];
        let rmv = self.gpr[inst.Rm()];
        let mut res = wmul(rsv, rmv);
        if inst.is_accumulating() {
            proof {
                lemma_wrap_fold(self.gpr@[arm_rd(inst.raw) as int] as int, rsv * rmv);
            }
            res = wadd(res, self.gpr[inst.Rd()]);
        }
        self.gpr[inst.Rn()] = res;
        if inst.is_setting_flags() {
            self.cpsr.set_N(res >= 0x8000_0000u32);
            self.cpsr.set_Z(res == 0);
            self.cpsr.set_C(false);
        }
        Ok(CpuAction::Advance)
    }

    fn execute_mull_mlal(&mut self, bus: &mut Bus, inst: ArmInstruction) -> (r: Result<
        CpuAction,
        GbaError,
    >)
        requires
            bus_wf(old(bus)),
        ensures
            bus_wf(final(bus)),
            ({
                let step = mull_mlal_spec(old(self)@, old(bus)@, inst.raw);
                final(self)@ == step.0 && final(bus)@ == step.1 && r == step.2
            }),
    {
        let rsv = self.gpr[inst.Rs()];
        let rmv = self.gpr[inst.Rm()];
        let prod: u64 = if inst.is_signed() {
            wmul64(sx32to64(rsv), sx32to64(rmv))
        } else {
            proof {
                vstd::arithmetic::mul::lemma_mul_upper_bound(
                    rsv as int,
                    0xFFFF_FFFF,
                    rmv as int,
                    0xFFFF_FFFF,
                );
                vstd::arithmetic::div_mod::lemma_small_mod(
                    (rsv * rmv) as nat,
                    0x1_0000_0000_0000_0000nat,
                );
            }
            (rsv as u64) * (rmv as u64)
        };
        let ghost prod_int: int = if inst.raw & 0x0040_0000u32 != 0 {
            sign_extend_32_64(rsv) * sign_extend_32_64(rmv)
        } else {
            (rsv * rmv) as int
        };
        let mut res: u64 = prod;
        if inst.is_accumulating() {
            let acc: u64 = (self.gpr[inst.Rn()] as u64) * 0x1_0000_0000u64 + (self.gpr[inst.Rd()]
                as u64);
            proof {
                lemma_wrap_fold64(acc as int, prod_int);
            }
            res = wadd64(res, acc);
        } else {
            proof {
                vstd::arithmetic::div_mod::lemma_mod_twice(prod_int, 0x1_0000_0000_0000_0000);
            }
        }
        let hi: u32 = (res / 0x1_0000_0000u64) as u32;
        let lo: u32 = (res % 0x1_0000_0000u64) as u32;
        self.gpr[inst.Rn()] = hi;
        self.gpr[inst.Rd()] = lo;
        if inst.is_setting_flags() {
            self.cpsr.set_N(res >= 0x8000_0000_0000_0000u64);
            self.cpsr.set_Z(res == 0);
            self.cpsr.set_C(false);
            self.cpsr.set_V(false);
        }
        Ok(CpuAction::Advance)
    }

    fn execute_data_processing(&mut self, bus: &mut Bus, inst: ArmInstruction) -> (r: Result<
        CpuAction,
        GbaError,
    >)
        requires
            bus_wf(old(bus)),
        ensures
            bus_wf(final(bus)),
            ({
                let step = data_processing_spec(old(self)@, old(bus)@, inst.raw);
                final(self)@ == step.0 && final(bus)@ == step.1 && r == step.2
            }),
    {
        let op = inst.dpop();
        let rd = inst.Rd();
        let op1 = self.gpr[inst.Rn()];
        if !inst.is_setting_flags() {
            if op.is_test() {
                return Err(GbaError::InvalidArmInstruction(inst.raw));
            }
            let op2 = inst.calculate_shft_field(&self.gpr, self.cpsr.C());
            let val = alu_data_processing(op, op1, op2, self.cpsr.C());
            self.gpr[rd] = val;
            Ok(
                if rd == 15 {
                    CpuAction::FlushPipeline
                } else {
                    CpuAction::Advance
                },
            )
        } else {
            let (op2, cshft) = inst.calculate_shft_field_with_carry(&self.gpr, self.cpsr.C());
            let mut c = self.cpsr;
            let res = alu_data_processing_flags(op, op1, op2, cshft, &mut c);
            self.cpsr = c;
            match res {
                Some(x) => {
                    self.gpr[rd] = x;
                },
                Option::None => {},
            }
            if rd == 15 {
                if self.mode == Mode::User {
                    return Err(GbaError::PrivilegedUserCode);
                }
                self.cpsr = CPSR(self.spsr[self.mode.index()]);
                Ok(CpuAction::FlushPipeline)
            } else {
                Ok(CpuAction::Advance)
            }
        }
    }

    fn execute_mrs(&mut self, bus: &mut Bus, inst: ArmInstruction) -> (r: Result<
        CpuAction,
        GbaError,
    >)
        requires
            bus_wf(old(bus)),
        ensures
            bus_wf(final(bus)),
            ({
                let step = mrs_spec(old(self)@, old(bus)@, inst.raw);
                final(self)@ == step.0 && final(bus)@ == step.1 && r == step.2
            }),
    {
        let rd = inst.Rd();
        if inst.is_accessing_spsr() {
            if self.mode == Mode::User {
                return Err(GbaError::PrivilegedUserCode);
            }
            self.gpr[rd] = self.spsr[self.mode.index()];
        } else {
            self.gpr[rd] = self.cpsr.0;
        }
        Ok(CpuAction::Advance)
    }

    fn execute_msr_reg(&mut self, bus: &mut Bus, inst: ArmInstruction) -> (r: Result<
        CpuAction,
        GbaError,
    >)
        requires
            bus_wf(old(bus)),
        ensures
            bus_wf(final(bus)),
            ({
                let step = msr_reg_spec(old(self)@, old(bus)@, inst.raw);
                final(self)@ == step.0 && final(bus)@ == step.1 && r == step.2
            }),
    {
        let val = self.gpr[inst.Rm()];
        if self.mode == Mode::User {
            if inst.is_accessing_spsr() {
                return Err(GbaError::PrivilegedUserCode);
            }
            self.cpsr.override_flags(val);
            Ok(CpuAction::Advance)
        } else if inst.is_accessing_spsr() {
            let i = self.mode.index();
            self.spsr[i] = (val & 0xF000_00FFu32) | (self.spsr[i] & !0xF000_00FFu32);
            Ok(CpuAction::Advance)
        } else {
            self.cpsr.override_non_reserved(val);
            match self.cpsr.mode() {
                Err(e) => Err(e),
                Ok(m) => {
                    self.change_mode(m);
                    Ok(CpuAction::Advance)
                },
            }
        }
    }

    fn execute_msr_flags(&mut self, bus: &mut Bus, inst: ArmInstruction) -> (r: Result<
        CpuAction,
        GbaError,
    >)
        requires
            bus_wf(old(bus)),
        ensures
            bus_wf(final(bus)),
            ({
                let step = msr_flags_spec(old(self)@, old(bus)@, inst.raw);
                final(self)@ == step.0 && final(bus)@ == step.1 && r == step.2
            }),
    {
        let val = inst.calculate_shsr_field(&self.gpr);
        if inst.is_accessing_spsr() {
            if self.mode == Mode::User {
                return Err(GbaError::PrivilegedUserCode);
            }
            let i = self.mode.index();
            self.spsr[i] = (val & 0xF000_0000u32) | (self.spsr[i] & !0xF000_0000u32);
            Ok(CpuAction::Advance)
        } else {
            self.cpsr.override_flags(val);
            Ok(CpuAction::Advance)
        }
    }

    fn execute_swp(&mut self, bus: &mut Bus, inst: ArmInstruction) -> (r: Result<
        CpuAction,
        GbaError,
    >)
        requires
            bus_wf(old(bus)),
        ensures
            bus_wf(final(bus)),
            ({
                let step = swp_spec(old(self)@, old(bus)@, inst.raw);
                final(self)@ == step.0 && final(bus)@ == step.1 && r == step.2
            }),
    {
        let addr = self.gpr[inst.Rn()];
        let src = self.gpr[inst.Rm()];
        if inst.is_transfering_bytes() {
            let t = match bus.load_byte(addr) {
                Ok(v) => v,
                Err(e) => {
                    return Err(e);
                },
            };
            match bus.store_byte(addr, src) {
                Ok(_) => {},
                Err(e) => {
                    return Err(e);
                },
            }
            self.gpr[inst.Rd()] = t;
        } else {
            let t = match bus.load_word(addr) {
                Ok(v) => v,
                Err(e) => {
                    return Err(e);
                },
            };
            match bus.store_word(addr, src) {
                Ok(_) => {},
                Err(e) => {
                    return Err(e);
                },
            }
            self.gpr[inst.Rd()] = t;
        }
        Ok(CpuAction::Advance)
    }

    fn execute_ldr_str(&mut self, bus: &mut Bus, inst: ArmInstruction) -> (r: Result<
        CpuAction,
        GbaError,
    >)
        requires
            bus_wf(old(bus)),
        ensures
            bus_wf(final(bus)),
            ({
                let step = ldr_str_spec(old(self)@, old(bus)@, inst.raw);
                final(self)@ == step.0 && final(bus)@ == step.1 && r == step.2
            }),
    {
        let ghost soff = ldr_str_offset_int(old(self)@, inst.raw);
        let base = self.gpr[inst.Rn()];
        let offs = inst.shifted_offset(&self.gpr, self.cpsr.C());
        proof {
            lemma_wrap_fold(base as int, -(ldr_str_offset_mag(inst.raw, self.gpr@, c_flag(self.cpsr.0)) as int));
            lemma_wrap_fold(wrap32(base + soff) as int, -(ldr_str_offset_mag(inst.raw, self.gpr@, c_flag(self.cpsr.0)) as int));
        }
        let addr = if inst.is_pre_indexed() {
            wadd(base, offs)
        } else {
            base
        };
        if inst.is_load() {
            let loaded = if inst.is_transfering_bytes() {
                bus.load_byte(addr)
            } else {
                bus.load_word(addr)
            };
            match loaded {
                Err(e) => Err(e),
                Ok(v) => {
                    self.gpr[inst.Rd()] = v;
                    self.apply_writeback(inst, addr, offs);
                    proof {
                        lemma_wrap_fold(addr as int, soff);
                    }
                    Ok(CpuAction::Advance)
                },
            }
        } else {
            let stored = if inst.is_transfering_bytes() {
                bus.store_byte(addr, self.gpr[inst.Rd()])
            } else {
                bus.store_word(addr, self.gpr[inst.Rd()])
            };
            match stored {
                Err(e) => Err(e),
                Ok(_) => {
                    self.apply_writeback(inst, addr, offs);
                    proof {
                        lemma_wrap_fold(addr as int, soff);
                    }
                    Ok(CpuAction::Advance)
                },
            }
        }
    }

    /// Applies the base write-back of a load/store: post-indexed forms
    /// always write `address + offset` back to Rn, pre-indexed ones
    /// write the access address when the W bit is set.
    fn apply_writeback(&mut self, inst: ArmInstruction, addr: u32, offs: u32)
        ensures
            final(self)@ == (CpuView {
                gpr: (if inst.raw & 0x0100_0000u32 == 0 {
                    old(self)@.gpr.update(arm_rn(inst.raw) as int, wrap32(addr + offs))
                } else if inst.raw & 0x0020_0000u32 != 0 {
                    old(self)@.gpr.update(arm_rn(inst.raw) as int, addr)
                } else {
                    old(self)@.gpr
                }),
                ..old(self)@
            }),
    {
        if !inst.is_pre_indexed() {
            self.gpr[inst.Rn()] = wadd(addr, offs);
        } else if inst.is_auto_incrementing() {
            self.gpr[inst.Rn()] = addr;
        }
    }

    fn execute_ldrh_strh(&mut self, bus: &mut Bus, inst: ArmInstruction, imm: bool) -> (r: Result<
        CpuAction,
        GbaError,
    >)
        requires
            bus_wf(old(bus)),
        ensures
            bus_wf(final(bus)),
            ({
                let step = ldrh_strh_spec(old(self)@, old(bus)@, inst.raw, imm);
                final(self)@ == step.0 && final(bus)@ == step.1 && r == step.2
            }),
    {
        let ghost soff = ldrh_offset_int(old(self)@, inst.raw, imm);
        let base = self.gpr[inst.Rn()];
        let mag: u32 = if imm {
            inst.split_offset8_magnitude()
        } else {
            self.gpr[inst.Rm()]
        };
        let offs: u32 = if inst.is_offset_added() {
            mag
        } else {
            wsub(0, mag)
        };
        proof {
            lemma_wrap_fold(base as int, -(mag as int));
            lemma_wrap_fold(wrap32(base + soff) as int, -(mag as int));
        }
        let addr = if inst.is_pre_indexed() {
            wadd(base, offs)
        } else {
            base
        };
        let op = inst.ldrh_strh_op();
        if matches!(op, ArmLdrhStrhOP::InvalidSWP) {
            return Err(GbaError::InvalidArmInstruction(inst.raw));
        }
        if inst.is_load() {
            let loaded = match op {
                ArmLdrhStrhOP::UH => bus.load_halfword(addr),
                ArmLdrhStrhOP::SB => match bus.load_byte(addr) {
                    Ok(v) => Ok(sx8(v)),
                    Err(e) => Err(e),
                },
                _ => match bus.load_halfword(addr) {
                    Ok(v) => Ok(sx16(v)),
                    Err(e) => Err(e),
                },
            };
            match loaded {
                Err(e) => Err(e),
                Ok(v) => {
                    self.gpr[inst.Rd()] = v;
                    self.apply_writeback(inst, addr, offs);
                    proof {
                        lemma_wrap_fold(addr as int, soff);
                    }
                    Ok(CpuAction::Advance)
                },
            }
        } else {
            let stored = match op {
                ArmLdrhStrhOP::SB => bus.store_byte(addr, self.gpr[inst.Rd()]),
                _ => bus.store_halfword(addr, self.gpr[inst.Rd()]),
            };
            match stored {
                Err(e) => Err(e),
                Ok(_) => {
                    self.apply_writeback(inst, addr, offs);
                    proof {
                        lemma_wrap_fold(addr as int, soff);
                    }
                    Ok(CpuAction::Advance)
                },
            }
        }
    }
}

} // verus!

verus! {

/// The effect of one pipeline step: fetch the word or halfword at
/// PC, decode the previously fetched one and (in ARM state) hold it
/// against the PC-usage constraints, execute the previously decoded
/// instruction, then latch the new fetch/decode pair and either
/// advance PC or flush the pipeline. Errors surface without the
/// latches advancing.
pub open spec fn pipeline_step_spec(c: CpuView, b: BusView) -> (CpuView, BusView, Result<
    (),
    GbaError,
>) {
    if c.delay_cycles > 0 {
        (CpuView { delay_cycles: (c.delay_cycles - 1) as u8, ..c }, b, Ok(()))
    } else if !(c.state is ARM) {
        thumb_pipeline_step_spec(c, b)
    } else {
        match load32_spec(b, c.gpr[15]) {
            Err(e) => (c, b, Err(e)),
            Ok(w) => match crate::arminstruction::arm_classify(c.fetched_arm) {
                Option::None => (c, b, Err(GbaError::InvalidArmInstruction(c.fetched_arm))),
                Some(op) => {
                    let newdec = ArmInstruction { raw: c.fetched_arm, op };
                    match crate::arminstruction::arm_validity(c.fetched_arm, op) {
                        Some(e) => (c, b, Err(e)),
                        Option::None => {
                            let step = arm_step_spec(c, b, c.decoded_arm);
                            match step.2 {
                                Err(e) => (step.0, step.1, Err(e)),
                                Ok(action) => {
                                    let c3 = CpuView {
                                        fetched_arm: w,
                                        decoded_arm: newdec,
                                        ..step.0
                                    };
                                    match action {
                                        CpuAction::Advance => (
                                            CpuView {
                                                gpr: c3.gpr.update(
                                                    15,
                                                    wrap32(
                                                        c3.gpr[15] + (if c3.state is ARM {
                                                            4int
                                                        } else {
                                                            2int
                                                        }),
                                                    ),
                                                ),
                                                ..c3
                                            },
                                            step.1,
                                            Ok(()),
                                        ),
                                        CpuAction::FlushPipeline => (
                                            CpuView {
                                                fetched_arm: 0x01A0_0000u32,
                                                decoded_arm: ArmInstruction {
                                                    raw: 0x01A0_0000u32,
                                                    op: ArmOpcode::DataProcessing,
                                                },
                                                fetched_thumb: 0x46C0u16,
                                                decoded_thumb:
                                                    crate::thumbinstruction::ThumbInstruction {
                                                    raw: 0x46C0u16,
                                                    op:
                                                        crate::thumbinstruction::ThumbOpcode::HiRegOpBx,
                                                },
                                                ..c3
                                            },
                                            step.1,
                                            Ok(()),
                                        ),
                                    }
                                },
                            }
                        },
                    }
                },
            },
        }
    }
}

/// The THUMB half of a pipeline step: the same three stages with
/// halfwords, a PC advance of two, and no extra validity pass, as
/// every decodable halfword may execute.
pub open spec fn thumb_pipeline_step_spec(c: CpuView, b: BusView) -> (CpuView, BusView, Result<
    (),
    GbaError,
>) {
    match load16_spec(b, c.gpr[15]) {
        Err(e) => (c, b, Err(e)),
        Ok(h) => match crate::thumbinstruction::thumb_classify(c.fetched_thumb) {
            Option::None => (c, b, Err(GbaError::InvalidThumbInstruction(c.fetched_thumb))),
            Some(op) => {
                let newdec = crate::thumbinstruction::ThumbInstruction {
                    raw: c.fetched_thumb,
                    op,
                };
                let step = crate::execthumb::thumb_exec_spec(c, b, c.decoded_thumb);
                match step.2 {
                    Err(e) => (step.0, step.1, Err(e)),
                    Ok(action) => {
                        let c3 = CpuView {
                            fetched_thumb: h as u16,
                            decoded_thumb: newdec,
                            ..step.0
                        };
                        match action {
                            CpuAction::Advance => (
                                CpuView {
                                    gpr: c3.gpr.update(
                                        15,
                                        wrap32(
                                            c3.gpr[15] + (if c3.state is ARM {
                                                4int
                                            } else {
                                                2int
                                            }),
                                        ),
                                    ),
                                    ..c3
                                },
                                step.1,
                                Ok(()),
                            ),
                            CpuAction::FlushPipeline => (
                                CpuView {
                                    fetched_arm: 0x01A0_0000u32,
                                    decoded_arm: ArmInstruction {
                                        raw: 0x01A0_0000u32,
                                        op: ArmOpcode::DataProcessing,
                                    },
                                    fetched_thumb: 0x46C0u16,
                                    decoded_thumb:
                                        crate::thumbinstruction::ThumbInstruction {
                                        raw: 0x46C0u16,
                                        op:
                                            crate::thumbinstruction::ThumbOpcode::HiRegOpBx,
                                    },
                                    ..c3
                                },
                                step.1,
                                Ok(()),
                            ),
                        }
                    },
                }
            },
        },
    }
}

impl Arm7Tdmi {
    /// Executes a single pipeline step.
    ///
    /// The three stages run together: the word (or halfword, in THUMB
    /// state) at PC is fetched, the previously fetched one is decoded
    /// and, in ARM state, validated, and the previously decoded
    /// instruction is executed. The latches then advance and PC moves
    /// on by one instruction width, unless the executed instruction
    /// flushed the pipeline. A decode, validation or execution error
    /// surfaces unchanged, with the latches left alone.
    pub fn pipeline_step(&mut self, bus: &mut Bus) -> (r: Result<(), GbaError>)
        requires
            bus_wf(old(bus)),
        ensures
            bus_wf(final(bus)),
            ({
                let step = pipeline_step_spec(old(self)@, old(bus)@);
                final(self)@ == step.0 && final(bus)@ == step.1 && r == step.2
            }),
    {
        if self.delay_cycles > 0 {
            self.delay_cycles = self.delay_cycles - 1;
            return Ok(());
        }
        if self.state != State::ARM {
            return self.thumb_pipeline_step(bus);
        }
        // Fetch.
        let new_fetched_arm = match bus.load_word(self.gpr[15]) {
            Ok(w) => w,
            Err(e) => {
                return Err(e);
            },
        };
        // Decode.
        let new_decoded_arm = match ArmInstruction::decode(self.fetched_arm) {
            Ok(i) => i,
            Err(e) => {
                return Err(e);
            },
        };
        match new_decoded_arm.check_is_valid() {
            Ok(_) => {},
            Err(e) => {
                return Err(e);
            },
        }
        // Execute.
        let old_decoded_arm = self.decoded_arm;
        let action = match self.execute_arm_state(bus, old_decoded_arm) {
            Ok(a) => a,
            Err(e) => {
                return Err(e);
            },
        };
        // Latch the new fetch/decode pair.
        self.fetched_arm = new_fetched_arm;
        self.decoded_arm = new_decoded_arm;
        match action {
            CpuAction::Advance => self.increment_pc(),
            CpuAction::FlushPipeline => self.flush_pipeline(),
        }
        Ok(())
    }

    /// The THUMB half of a pipeline step.
    fn thumb_pipeline_step(&mut self, bus: &mut Bus) -> (r: Result<(), GbaError>)
        requires
            bus_wf(old(bus)),
            !(old(self)@.state is ARM),
            old(self)@.delay_cycles == 0,
        ensures
            bus_wf(final(bus)),
            ({
                let step = thumb_pipeline_step_spec(old(self)@, old(bus)@);
                final(self)@ == step.0 && final(bus)@ == step.1 && r == step.2
            }),
    {
        // Fetch.
        let fetched = match bus.load_halfword(self.gpr[15]) {
            Ok(h) => h,
            Err(e) => {
                return Err(e);
            },
        };
        let new_fetched_thumb = (fetched & 0xFFFFu32) as u16;
        proof {
            lemma_mask_bounds(fetched);
            assert(new_fetched_thumb == fetched) by {
                crate::memory::lemma_le_roundtrip(fetched);
                assert(fetched < 0x1_0000 ==> fetched & 0xFFFFu32 == fetched) by (bit_vector);
            }
        }
        // Decode.
        let new_decoded_thumb = match crate::thumbinstruction::ThumbInstruction::decode(
            self.fetched_thumb,
        ) {
            Ok(i) => i,
            Err(e) => {
                return Err(e);
            },
        };
        // Execute.
        let old_decoded_thumb = self.decoded_thumb;
        let action = match self.execute_thumb_state(bus, old_decoded_thumb) {
            Ok(a) => a,
            Err(e) => {
                return Err(e);
            },
        };
        // Latch the new fetch/decode pair.
        self.fetched_thumb = new_fetched_thumb;
        self.decoded_thumb = new_decoded_thumb;
        match action {
            CpuAction::Advance => self.increment_pc(),
            CpuAction::FlushPipeline => self.flush_pipeline(),
        }
        Ok(())
    }
}

} // verus!
