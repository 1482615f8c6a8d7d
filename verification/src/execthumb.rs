//! Execution of decoded THUMB state instructions.
//!
//! Every THUMB family lowers to the same ALU, barrel shifter and bus
//! primitives the ARM executor uses, so the flag semantics live in one
//! place. Each handler's effect is pinned down by a spec-level
//! interpreter, like the ARM one.

use vstd::prelude::*;

use crate::alu::{
    alu_data_processing_flags, dp_carry, dp_overflow, dp_result,
};
use crate::arm7tdmi::{exception_spec, Arm7Tdmi, CpuAction, CpuView};
use crate::armbsop::{bsop_shift_carry, bsop_vc, ArmBSOP};
use crate::armcondition::{condition_of_code, condition_table};
use crate::armdpop::{dpop_is_test, ArmDPOP};
use crate::bitutil::{sign_extend_16, sign_extend_8, sx16, sx8, wadd, wrap32, wsub};
use crate::bus::{
    bus_wf, load16_spec, load32_spec, load8_spec, store16_spec, store32_spec, store8_spec, Bus,
    BusView,
};
use crate::error::GbaError;
use crate::exception::Exception;
use crate::execldm::ldm_xfer;
use crate::psr::{c_flag, psr_with_nzcv, v_flag, State};
use crate::thumbinstruction::{
    thumb_alu_op_spec, thumb_dpflags_op, thumb_hi_reg_op, thumb_ldrh_strh_op, thumb_offs12_spec,
    thumb_offs9_spec, HiRegisterOp, LdrhStrhOp, ThumbInstruction, ThumbOpcode,
};

verus! {

/// A CPU with one register changed and the four condition flags set.
pub open spec fn thumb_flag_write(c: CpuView, rd: int, op: ArmDPOP, op1: u32, op2: u32, cy: bool) -> CpuView {
    let val = dp_result(op, op1, op2, c_flag(c.cpsr));
    let cpsr1 = psr_with_nzcv(
        c.cpsr,
        val >= 0x8000_0000u32,
        val == 0,
        dp_carry(op, op1, op2, c_flag(c.cpsr), cy),
        dp_overflow(op, op1, op2, c_flag(c.cpsr), v_flag(c.cpsr)),
    );
    let gpr1 = if dpop_is_test(op) {
        c.gpr
    } else {
        c.gpr.update(rd, val)
    };
    CpuView { gpr: gpr1, cpsr: cpsr1, ..c }
}

/// The effect of AddSub: `Rd := Rs + Rn` or `Rd := Rs - Rn`, with `Rn`
/// a register or a 3-bit immediate, always setting the flags.
pub open spec fn t_add_sub_spec(c: CpuView, b: BusView, raw: u16) -> (CpuView, BusView, Result<
    CpuAction,
    GbaError,
>) {
    let x = raw as u32;
    let op = if x & 0x200u32 == 0 {
        ArmDPOP::ADD
    } else {
        ArmDPOP::SUB
    };
    let op2 = if x & 0x400u32 != 0 {
        (x >> 6u32) & 0x7u32
    } else {
        c.gpr[((x >> 6u32) & 0x7u32) as int]
    };
    let op1 = c.gpr[((x >> 3u32) & 0x7u32) as int];
    (
        thumb_flag_write(c, (x & 0x7u32) as int, op, op1, op2, c_flag(c.cpsr)),
        b,
        Ok(CpuAction::Advance),
    )
}

/// The effect of MoveShiftedReg: `Rd := Rs SHIFT #imm5` with flag
/// update; the shifter's carry-out feeds the C flag.
pub open spec fn t_move_shifted_spec(c: CpuView, b: BusView, raw: u16) -> (CpuView, BusView, Result<
    CpuAction,
    GbaError,
>) {
    let x = raw as u32;
    let bsop = crate::armbsop::decode_immediate_spec(x >> 11u32, (x >> 6u32) & 0x1Fu32);
    let pair = bsop_vc(bsop, c.gpr[((x >> 3u32) & 0x7u32) as int], c_flag(c.cpsr), 0);
    (
        thumb_flag_write(c, (x & 0x7u32) as int, ArmDPOP::MOV, 0, pair.0, pair.1),
        b,
        Ok(CpuAction::Advance),
    )
}

/// The effect of DataProcessingFlags: MOV/CMP/ADD/SUB of an 8-bit
/// immediate against the register in bits 10..8, always setting the
/// flags.
pub open spec fn t_dp_flags_spec(c: CpuView, b: BusView, raw: u16) -> (CpuView, BusView, Result<
    CpuAction,
    GbaError,
>) {
    let x = raw as u32;
    let op = thumb_dpflags_op((x >> 11u32) & 0x3u32);
    let rd = ((x >> 8u32) & 0x7u32) as int;
    (
        thumb_flag_write(c, rd, op, c.gpr[rd], x & 0xFFu32, c_flag(c.cpsr)),
        b,
        Ok(CpuAction::Advance),
    )
}

/// The effect of AluMul: `Rd := Rd * Rs`, setting N and Z and clearing
/// C.
pub open spec fn t_mul_spec(c: CpuView, b: BusView, raw: u16) -> (CpuView, BusView, Result<
    CpuAction,
    GbaError,
>) {
    let x = raw as u32;
    let rd = (x & 0x7u32) as int;
    let rs = ((x >> 3u32) & 0x7u32) as int;
    let val = wrap32(c.gpr[rd] * c.gpr[rs]);
    let cpsr1 = crate::psr::set_flag_spec(
        crate::psr::set_flag_spec(
            crate::psr::set_flag_spec(c.cpsr, 0x8000_0000u32, val >= 0x8000_0000u32),
            0x4000_0000u32,
            val == 0,
        ),
        0x2000_0000u32,
        false,
    );
    (CpuView { gpr: c.gpr.update(rd, val), cpsr: cpsr1, ..c }, b, Ok(CpuAction::Advance))
}

/// The effect of AluOperation: the table of two-register ALU
/// operations, including the shift-by-register forms and NEG, always
/// setting the flags.
pub open spec fn t_alu_op_spec(c: CpuView, b: BusView, raw: u16) -> (CpuView, BusView, Result<
    CpuAction,
    GbaError,
>) {
    let x = raw as u32;
    let rd = (x & 0x7u32) as int;
    let rs = ((x >> 3u32) & 0x7u32) as int;
    let ops = thumb_alu_op_spec(raw);
    let op = ops.0;
    let bsop = ops.1;
    if !(bsop is NOP) {
        // A shift by register: MOV Rd, Rd SHIFT Rs.
        let pair = bsop_vc(bsop, c.gpr[rd], c_flag(c.cpsr), c.gpr[rs]);
        (thumb_flag_write(c, rd, ArmDPOP::MOV, 0, pair.0, pair.1), b, Ok(CpuAction::Advance))
    } else if op is RSB {
        // NEG Rd, Rs: reverse-subtract the register from zero.
        (thumb_flag_write(c, rd, ArmDPOP::RSB, c.gpr[rs], 0, c_flag(c.cpsr)), b, Ok(
            CpuAction::Advance,
        ))
    } else {
        (thumb_flag_write(c, rd, op, c.gpr[rd], c.gpr[rs], c_flag(c.cpsr)), b, Ok(
            CpuAction::Advance,
        ))
    }
}

/// The effect of HiRegOpBx: ADD and MOV on the 4-bit register forms
/// without flag updates, CMP with them, and BX as in ARM state.
/// Writing PC flushes the pipeline.
pub open spec fn t_hi_reg_spec(c: CpuView, b: BusView, raw: u16) -> (CpuView, BusView, Result<
    CpuAction,
    GbaError,
>) {
    let x = raw as u32;
    let hd = ((x & 0x7u32) | ((x >> 4u32) & 0x8u32)) as int;
    let hs = (((x >> 3u32) & 0x7u32) | ((x >> 3u32) & 0x8u32)) as int;
    match thumb_hi_reg_op((x >> 8u32) & 0x3u32) {
        HiRegisterOp::AddNoFlags => (
            CpuView { gpr: c.gpr.update(hd, wrap32(c.gpr[hd] + c.gpr[hs])), ..c },
            b,
            Ok(
                if hd == 15 {
                    CpuAction::FlushPipeline
                } else {
                    CpuAction::Advance
                },
            ),
        ),
        HiRegisterOp::CmpFlags => (
            thumb_flag_write(c, hd, ArmDPOP::CMP, c.gpr[hd], c.gpr[hs], c_flag(c.cpsr)),
            b,
            Ok(CpuAction::Advance),
        ),
        HiRegisterOp::MovNoFlags => (
            CpuView { gpr: c.gpr.update(hd, c.gpr[hs]), ..c },
            b,
            Ok(
                if hd == 15 {
                    CpuAction::FlushPipeline
                } else {
                    CpuAction::Advance
                },
            ),
        ),
        HiRegisterOp::BxRsHs => {
            let addr = c.gpr[hs];
            let s = if addr & 1u32 == 0 {
                State::ARM
            } else {
                State::THUMB
            };
            (
                CpuView {
                    gpr: c.gpr.update(15, addr & 0xFFFF_FFFEu32),
                    cpsr: crate::execarm::psr_with_state(c.cpsr, s),
                    state: s,
                    ..c
                },
                b,
                Ok(CpuAction::FlushPipeline),
            )
        },
    }
}

/// A load of a word, a halfword or a byte into a register, with the
/// chosen extension; the CPU is unchanged when the bus faults.
pub open spec fn t_load(c: CpuView, b: BusView, rd: int, loaded: Result<u32, GbaError>) -> (
    CpuView,
    BusView,
    Result<CpuAction, GbaError>,
) {
    match loaded {
        Err(e) => (c, b, Err(e)),
        Ok(v) => (CpuView { gpr: c.gpr.update(rd, v), ..c }, b, Ok(CpuAction::Advance)),
    }
}

/// A store's outcome folded back into the machine.
pub open spec fn t_store(c: CpuView, b: BusView, stored: Result<BusView, GbaError>) -> (
    CpuView,
    BusView,
    Result<CpuAction, GbaError>,
) {
    match stored {
        Err(e) => (c, b, Err(e)),
        Ok(b2) => (c, b2, Ok(CpuAction::Advance)),
    }
}

/// The effect of LdrPcImm: a word load relative to PC with bit 1
/// forced to zero, with a 10-bit scaled offset.
pub open spec fn t_ldr_pc_spec(c: CpuView, b: BusView, raw: u16) -> (CpuView, BusView, Result<
    CpuAction,
    GbaError,
>) {
    let x = raw as u32;
    let addr = wrap32((c.gpr[15] & !2u32) + 4 * (x & 0xFFu32));
    t_load(c, b, ((x >> 8u32) & 0x7u32) as int, load32_spec(b, addr))
}

/// The effect of LdrStrReg and LdrhStrhReg: a transfer at
/// `Rs + Rn`, choosing width and extension by the family's opcode
/// bits.
pub open spec fn t_ldr_str_reg_spec(c: CpuView, b: BusView, raw: u16, half: bool) -> (
    CpuView,
    BusView,
    Result<CpuAction, GbaError>,
) {
    let x = raw as u32;
    let rd = (x & 0x7u32) as int;
    let addr = wrap32(
        c.gpr[((x >> 3u32) & 0x7u32) as int] + c.gpr[((x >> 6u32) & 0x7u32) as int],
    );
    if half {
        match thumb_ldrh_strh_op((x >> 10u32) & 0x3u32) {
            LdrhStrhOp::STRH => t_store(c, b, store16_spec(b, addr, c.gpr[rd])),
            LdrhStrhOp::LDRH => t_load(c, b, rd, load16_spec(b, addr)),
            LdrhStrhOp::LDSB => t_load(
                c,
                b,
                rd,
                match load8_spec(b, addr) {
                    Ok(v) => Ok(sign_extend_8(v)),
                    Err(e) => Err(e),
                },
            ),
            LdrhStrhOp::LDSH => t_load(
                c,
                b,
                rd,
                match load16_spec(b, addr) {
                    Ok(v) => Ok(sign_extend_16(v)),
                    Err(e) => Err(e),
                },
            ),
        }
    } else {
        let byte = x & 0x400u32 != 0;
        let load = x & 0x800u32 != 0;
        if load {
            t_load(
                c,
                b,
                rd,
                if byte {
                    load8_spec(b, addr)
                } else {
                    load32_spec(b, addr)
                },
            )
        } else {
            t_store(
                c,
                b,
                if byte {
                    store8_spec(b, addr, c.gpr[rd])
                } else {
                    store32_spec(b, addr, c.gpr[rd])
                },
            )
        }
    }
}

/// The effect of LdrStrImm and LdrhStrhImm: a transfer at `Rs` plus a
/// scaled 5-bit immediate.
pub open spec fn t_ldr_str_imm_spec(c: CpuView, b: BusView, raw: u16, half: bool) -> (
    CpuView,
    BusView,
    Result<CpuAction, GbaError>,
) {
    let x = raw as u32;
    let rd = (x & 0x7u32) as int;
    let imm5 = (x >> 6u32) & 0x1Fu32;
    let base = c.gpr[((x >> 3u32) & 0x7u32) as int];
    if half {
        let addr = wrap32(base + 2 * imm5);
        if x & 0x800u32 != 0 {
            t_load(c, b, rd, load16_spec(b, addr))
        } else {
            t_store(c, b, store16_spec(b, addr, c.gpr[rd]))
        }
    } else {
        let byte = x & 0x1000u32 != 0;
        let load = x & 0x800u32 != 0;
        let addr = if byte {
            wrap32(base + imm5)
        } else {
            wrap32(base + 4 * imm5)
        };
        if load {
            t_load(
                c,
                b,
                rd,
                if byte {
                    load8_spec(b, addr)
                } else {
                    load32_spec(b, addr)
                },
            )
        } else {
            t_store(
                c,
                b,
                if byte {
                    store8_spec(b, addr, c.gpr[rd])
                } else {
                    store32_spec(b, addr, c.gpr[rd])
                },
            )
        }
    }
}

/// The effect of LdrStrSpImm: a word transfer at SP plus a 10-bit
/// scaled offset, for the register in bits 10..8.
pub open spec fn t_ldr_str_sp_spec(c: CpuView, b: BusView, raw: u16) -> (CpuView, BusView, Result<
    CpuAction,
    GbaError,
>) {
    let x = raw as u32;
    let rd = ((x >> 8u32) & 0x7u32) as int;
    let addr = wrap32(c.gpr[13] + 4 * (x & 0xFFu32));
    if x & 0x800u32 != 0 {
        t_load(c, b, rd, load32_spec(b, addr))
    } else {
        t_store(c, b, store32_spec(b, addr, c.gpr[rd]))
    }
}

/// The effect of CalcAddrImm: an address computed from SP, or from PC
/// with bit 1 forced to zero, plus a 10-bit scaled offset.
pub open spec fn t_calc_addr_spec(c: CpuView, b: BusView, raw: u16) -> (CpuView, BusView, Result<
    CpuAction,
    GbaError,
>) {
    let x = raw as u32;
    let rd = ((x >> 8u32) & 0x7u32) as int;
    let base = if x & 0x800u32 != 0 {
        c.gpr[13]
    } else {
        c.gpr[15] & !2u32
    };
    (
        CpuView { gpr: c.gpr.update(rd, wrap32(base + 4 * (x & 0xFFu32))), ..c },
        b,
        Ok(CpuAction::Advance),
    )
}

/// The effect of AddSpOffs: a signed 9-bit offset added to SP.
pub open spec fn t_add_sp_spec(c: CpuView, b: BusView, raw: u16) -> (CpuView, BusView, Result<
    CpuAction,
    GbaError,
>) {
    let x = raw as u32;
    let sp2 = if x & 0x80u32 != 0 {
        wrap32(c.gpr[13] - 4 * (x & 0x7Fu32))
    } else {
        wrap32(c.gpr[13] + 4 * (x & 0x7Fu32))
    };
    (CpuView { gpr: c.gpr.update(13, sp2), ..c }, b, Ok(CpuAction::Advance))
}

/// The register bitmap of a push or pop: the 8-bit list, plus LR for
/// a push with the R bit and PC for a pop with it.
pub open spec fn t_push_pop_map(raw: u16) -> u32 {
    let x = raw as u32;
    let base = x & 0xFFu32;
    if x & 0x100u32 == 0 {
        base
    } else if x & 0x800u32 != 0 {
        base | 0x8000u32
    } else {
        base | 0x4000u32
    }
}

/// The effect of PushPopRegs: a full-descending stack transfer through
/// SP with write-back, optionally storing LR or loading PC. Loading PC
/// flushes the pipeline.
pub open spec fn t_push_pop_spec(c: CpuView, b: BusView, raw: u16) -> (CpuView, BusView, Result<
    CpuAction,
    GbaError,
>) {
    let x = raw as u32;
    let load = x & 0x800u32 != 0;
    let rmap = t_push_pop_map(raw);
    let bytes = 4 * crate::execldm::count_bits_from(rmap, 0);
    let base = c.gpr[13];
    let addr0 = if load {
        base
    } else {
        wrap32(base - bytes)
    };
    let gpr0 = c.gpr.update(
        13,
        if load {
            wrap32(base + bytes)
        } else {
            wrap32(base - bytes)
        },
    );
    let p = ldm_xfer(gpr0, b, rmap, 0, addr0, 0, 4, load);
    let c1 = CpuView { gpr: p.gpr, ..c };
    match p.err {
        Some(e) => (c1, p.bus, Err(e)),
        Option::None => (
            c1,
            p.bus,
            Ok(
                if load && x & 0x100u32 != 0 {
                    CpuAction::FlushPipeline
                } else {
                    CpuAction::Advance
                },
            ),
        ),
    }
}

/// The effect of LdmStmRegs: an ascending block transfer through the
/// register in bits 10..8 with write-back.
pub open spec fn t_ldm_stm_spec(c: CpuView, b: BusView, raw: u16) -> (CpuView, BusView, Result<
    CpuAction,
    GbaError,
>) {
    let x = raw as u32;
    let load = x & 0x800u32 != 0;
    let rn = ((x >> 8u32) & 0x7u32) as int;
    let rmap = x & 0xFFu32;
    let bytes = 4 * crate::execldm::count_bits_from(rmap, 0);
    let base = c.gpr[rn];
    let gpr0 = c.gpr.update(rn, wrap32(base + bytes));
    let p = ldm_xfer(gpr0, b, rmap, 0, base, 0, 4, load);
    let c1 = CpuView { gpr: p.gpr, ..c };
    match p.err {
        Some(e) => (c1, p.bus, Err(e)),
        Option::None => (c1, p.bus, Ok(CpuAction::Advance)),
    }
}

/// The effect of a conditional branch: the signed 9-bit offset moves
/// PC when the condition holds. The reserved condition cannot be
/// encoded here, as its pattern decodes into the SWI family.
pub open spec fn t_branch_cond_spec(c: CpuView, b: BusView, raw: u16) -> (CpuView, BusView, Result<
    CpuAction,
    GbaError,
>) {
    let x = raw as u32;
    match condition_table(condition_of_code((x >> 8u32) & 0xFu32), c.cpsr) {
        Option::None => (c, b, Err(GbaError::ReservedArmConditionNV)),
        Option::Some(false) => (c, b, Ok(CpuAction::Advance)),
        Option::Some(true) => (
            CpuView { gpr: c.gpr.update(15, wrap32(c.gpr[15] + thumb_offs9_spec(raw))), ..c },
            b,
            Ok(CpuAction::FlushPipeline),
        ),
    }
}

/// The effect of an unconditional branch by the signed 12-bit offset.
pub open spec fn t_branch_spec(c: CpuView, b: BusView, raw: u16) -> (CpuView, BusView, Result<
    CpuAction,
    GbaError,
>) {
    (
        CpuView { gpr: c.gpr.update(15, wrap32(c.gpr[15] + thumb_offs12_spec(raw))), ..c },
        b,
        Ok(CpuAction::FlushPipeline),
    )
}

/// The effect of the two-halfword long branch: the high half parks
/// `PC + (offset << 12)` in LR; the low half branches to
/// `LR + (offset << 1)` and leaves the return address, with its low
/// bit set, in LR.
pub open spec fn t_branch_long_spec(c: CpuView, b: BusView, raw: u16) -> (CpuView, BusView, Result<
    CpuAction,
    GbaError,
>) {
    let x = raw as u32;
    let part = x & 0x7FFu32;
    if x & 0x800u32 == 0 {
        // The high half: sign-extend the 11-bit part shifted by 12.
        let off: int = if x & 0x400u32 != 0 {
            0x1000 * part - 0x80_0000
        } else {
            0x1000 * part
        };
        (
            CpuView { gpr: c.gpr.update(14, wrap32(c.gpr[15] + off)), ..c },
            b,
            Ok(CpuAction::Advance),
        )
    } else {
        let target = wrap32(c.gpr[14] + 2 * part);
        (
            CpuView { gpr: c.gpr.update(15, target).update(14, c.gpr[15] | 1u32), ..c },
            b,
            Ok(CpuAction::FlushPipeline),
        )
    }
}

/// The dispatch table of the THUMB executor: the effect each family
/// has on the CPU and the bus.
pub open spec fn thumb_exec_spec(c: CpuView, b: BusView, inst: ThumbInstruction) -> (
    CpuView,
    BusView,
    Result<CpuAction, GbaError>,
) {
    match inst.op {
        ThumbOpcode::AddSub => t_add_sub_spec(c, b, inst.raw),
        ThumbOpcode::MoveShiftedReg => t_move_shifted_spec(c, b, inst.raw),
        ThumbOpcode::DataProcessingFlags => t_dp_flags_spec(c, b, inst.raw),
        ThumbOpcode::AluMul => t_mul_spec(c, b, inst.raw),
        ThumbOpcode::AluOperation => t_alu_op_spec(c, b, inst.raw),
        ThumbOpcode::HiRegOpBx => t_hi_reg_spec(c, b, inst.raw),
        ThumbOpcode::LdrPcImm => t_ldr_pc_spec(c, b, inst.raw),
        ThumbOpcode::LdrStrReg => t_ldr_str_reg_spec(c, b, inst.raw, false),
        ThumbOpcode::LdrhStrhReg => t_ldr_str_reg_spec(c, b, inst.raw, true),
        ThumbOpcode::LdrStrImm => t_ldr_str_imm_spec(c, b, inst.raw, false),
        ThumbOpcode::LdrhStrhImm => t_ldr_str_imm_spec(c, b, inst.raw, true),
        ThumbOpcode::LdrStrSpImm => t_ldr_str_sp_spec(c, b, inst.raw),
        ThumbOpcode::CalcAddrImm => t_calc_addr_spec(c, b, inst.raw),
        ThumbOpcode::AddSpOffs => t_add_sp_spec(c, b, inst.raw),
        ThumbOpcode::PushPopRegs => t_push_pop_spec(c, b, inst.raw),
        ThumbOpcode::LdmStmRegs => t_ldm_stm_spec(c, b, inst.raw),
        ThumbOpcode::SoftwareInterrupt => (
            exception_spec(c, Exception::SoftwareInterrupt),
            b,
            Ok(CpuAction::FlushPipeline),
        ),
        ThumbOpcode::BranchConditionOffs => t_branch_cond_spec(c, b, inst.raw),
        ThumbOpcode::BranchOffs => t_branch_spec(c, b, inst.raw),
        ThumbOpcode::BranchLongOffs => t_branch_long_spec(c, b, inst.raw),
    }
}

impl Arm7Tdmi {
    /// Computes a two-operand ALU operation with flags and writes the
    /// destination register unless the opcode is a test.
    fn thumb_alu_flags(&mut self, rd: usize, op: ArmDPOP, op1: u32, op2: u32, cy: bool)
        requires
            rd < 16,
        ensures
            final(self)@ == thumb_flag_write(old(self)@, rd as int, op, op1, op2, cy),
    {
        let mut c = self.cpsr;
        let res = alu_data_processing_flags(op, op1, op2, cy, &mut c);
        self.cpsr = c;
        match res {
            Some(x) => {
                self.gpr[rd] = x;
            },
            Option::None => {},
        }
    }

    /// Immediately executes a single THUMB state instruction against
    /// the given bus; the exact effect is the one `thumb_exec_spec`
    /// gives.
    pub fn execute_thumb_state(&mut self, bus: &mut Bus, inst: ThumbInstruction) -> (r: Result<
        CpuAction,
        GbaError,
    >)
        requires
            bus_wf(old(bus)),
        ensures
            bus_wf(final(bus)),
            ({
                let step = thumb_exec_spec(old(self)@, old(bus)@, inst);
                final(self)@ == step.0 && final(bus)@ == step.1 && r == step.2
            }),
    {
        match inst.opcode() {
            ThumbOpcode::AddSub => self.t_exec_add_sub(bus, inst),
            ThumbOpcode::MoveShiftedReg => self.t_exec_move_shifted(bus, inst),
            ThumbOpcode::DataProcessingFlags => self.t_exec_dp_flags(bus, inst),
            ThumbOpcode::AluMul => self.t_exec_mul(bus, inst),
            ThumbOpcode::AluOperation => self.t_exec_alu_op(bus, inst),
            ThumbOpcode::HiRegOpBx => self.t_exec_hi_reg(bus, inst),
            ThumbOpcode::LdrPcImm => self.t_exec_ldr_pc(bus, inst),
            ThumbOpcode::LdrStrReg => self.t_exec_ldr_str_reg(bus, inst, false),
            ThumbOpcode::LdrhStrhReg => self.t_exec_ldr_str_reg(bus, inst, true),
            ThumbOpcode::LdrStrImm => self.t_exec_ldr_str_imm(bus, inst, false),
            ThumbOpcode::LdrhStrhImm => self.t_exec_ldr_str_imm(bus, inst, true),
            ThumbOpcode::LdrStrSpImm => self.t_exec_ldr_str_sp(bus, inst),
            ThumbOpcode::CalcAddrImm => self.t_exec_calc_addr(bus, inst),
            ThumbOpcode::AddSpOffs => self.t_exec_add_sp(bus, inst),
            ThumbOpcode::PushPopRegs => self.t_exec_push_pop(bus, inst),
            ThumbOpcode::LdmStmRegs => self.t_exec_ldm_stm(bus, inst),
            ThumbOpcode::SoftwareInterrupt => {
                self.exception(Exception::SoftwareInterrupt);
                Ok(CpuAction::FlushPipeline)
            },
            ThumbOpcode::BranchConditionOffs => self.t_exec_branch_cond(bus, inst),
            ThumbOpcode::BranchOffs => self.t_exec_branch(bus, inst),
            ThumbOpcode::BranchLongOffs => self.t_exec_branch_long(bus, inst),
        }
    }

    fn t_exec_add_sub(&mut self, bus: &mut Bus, inst: ThumbInstruction) -> (r: Result<
        CpuAction,
        GbaError,
    >)
        requires
            bus_wf(old(bus)),
        ensures
            bus_wf(final(bus)),
            ({
                let step = t_add_sub_spec(old(self)@, old(bus)@, inst.raw);
                final(self)@ == step.0 && final(bus)@ == step.1 && r == step.2
            }),
    {
        proof {
            crate::bitutil::lemma_mask_bounds(inst.raw as u32);
        }
        let x: u32 = inst.raw as u32;
        let op = inst.dpop_AddSub();
        let op2 = if inst.is_Rn_immediate() {
            (x >> 6) & 0x7u32
        } else {
            self.gpr[inst.Rn()]
        };
        let op1 = self.gpr[inst.Rs()];
        let cy = self.cpsr.C();
        self.thumb_alu_flags(inst.Rd(), op, op1, op2, cy);
        Ok(CpuAction::Advance)
    }

    fn t_exec_move_shifted(&mut self, bus: &mut Bus, inst: ThumbInstruction) -> (r: Result<
        CpuAction,
        GbaError,
    >)
        requires
            bus_wf(old(bus)),
        ensures
            bus_wf(final(bus)),
            ({
                let step = t_move_shifted_spec(old(self)@, old(bus)@, inst.raw);
                final(self)@ == step.0 && final(bus)@ == step.1 && r == step.2
            }),
    {
        let bsop = inst.bsop_MoveShiftedReg();
        let (v, cy) = bsop_shift_carry(bsop, self.gpr[inst.Rs()], self.cpsr.C(), 0);
        self.thumb_alu_flags(inst.Rd(), ArmDPOP::MOV, 0, v, cy);
        Ok(CpuAction::Advance)
    }

    fn t_exec_dp_flags(&mut self, bus: &mut Bus, inst: ThumbInstruction) -> (r: Result<
        CpuAction,
        GbaError,
    >)
        requires
            bus_wf(old(bus)),
        ensures
            bus_wf(final(bus)),
            ({
                let step = t_dp_flags_spec(old(self)@, old(bus)@, inst.raw);
                final(self)@ == step.0 && final(bus)@ == step.1 && r == step.2
            }),
    {
        proof {
            crate::bitutil::lemma_mask_bounds(inst.raw as u32);
        }
        let x: u32 = inst.raw as u32;
        let op = inst.dpop_DataProcessingFlags();
        let rd = inst.Rm();
        let op1 = self.gpr[rd];
        let cy = self.cpsr.C();
        self.thumb_alu_flags(rd, op, op1, x & 0xFFu32, cy);
        Ok(CpuAction::Advance)
    }

    fn t_exec_mul(&mut self, bus: &mut Bus, inst: ThumbInstruction) -> (r: Result<
        CpuAction,
        GbaError,
    >)
        requires
            bus_wf(old(bus)),
        ensures
            bus_wf(final(bus)),
            ({
                let step = t_mul_spec(old(self)@, old(bus)@, inst.raw);
                final(self)@ == step.0 && final(bus)@ == step.1 && r == step.2
            }),
    {
        let rd = inst.Rd();
        let val = crate::bitutil::wmul(self.gpr[rd], self.gpr[inst.Rs()]);
        self.gpr[rd] = val;
        self.cpsr.set_N(val >= 0x8000_0000u32);
        self.cpsr.set_Z(val == 0);
        self.cpsr.set_C(false);
        Ok(CpuAction::Advance)
    }

    fn t_exec_alu_op(&mut self, bus: &mut Bus, inst: ThumbInstruction) -> (r: Result<
        CpuAction,
        GbaError,
    >)
        requires
            bus_wf(old(bus)),
        ensures
            bus_wf(final(bus)),
            ({
                let step = t_alu_op_spec(old(self)@, old(bus)@, inst.raw);
                final(self)@ == step.0 && final(bus)@ == step.1 && r == step.2
            }),
    {
        let (op, bsop) = thumb_alu_ops(inst.raw);
        let rd = inst.Rd();
        let rs = inst.Rs();
        match bsop {
            ArmBSOP::NOP => {
                if matches!(op, ArmDPOP::RSB) {
                    let op1 = self.gpr[rs];
                    let cy = self.cpsr.C();
                    self.thumb_alu_flags(rd, ArmDPOP::RSB, op1, 0, cy);
                } else {
                    let op1 = self.gpr[rd];
                    let op2 = self.gpr[rs];
                    let cy = self.cpsr.C();
                    self.thumb_alu_flags(rd, op, op1, op2, cy);
                }
            },
            _ => {
                let (v, cy) = bsop_shift_carry(
                    bsop,
                    self.gpr[rd],
                    self.cpsr.C(),
                    self.gpr[rs],
                );
                self.thumb_alu_flags(rd, ArmDPOP::MOV, 0, v, cy);
            },
        }
        Ok(CpuAction::Advance)
    }

    fn t_exec_hi_reg(&mut self, bus: &mut Bus, inst: ThumbInstruction) -> (r: Result<
        CpuAction,
        GbaError,
    >)
        requires
            bus_wf(old(bus)),
        ensures
            bus_wf(final(bus)),
            ({
                let step = t_hi_reg_spec(old(self)@, old(bus)@, inst.raw);
                final(self)@ == step.0 && final(bus)@ == step.1 && r == step.2
            }),
    {
        let hd = inst.Hd();
        let hs = inst.Hs();
        match inst.op_HiRegOpBx() {
            HiRegisterOp::AddNoFlags => {
                self.gpr[hd] = wadd(self.gpr[hd], self.gpr[hs]);
                Ok(
                    if hd == 15 {
                        CpuAction::FlushPipeline
                    } else {
                        CpuAction::Advance
                    },
                )
            },
            HiRegisterOp::CmpFlags => {
                let op1 = self.gpr[hd];
                let op2 = self.gpr[hs];
                let cy = self.cpsr.C();
                self.thumb_alu_flags(hd, ArmDPOP::CMP, op1, op2, cy);
                Ok(CpuAction::Advance)
            },
            HiRegisterOp::MovNoFlags => {
                self.gpr[hd] = self.gpr[hs];
                Ok(
                    if hd == 15 {
                        CpuAction::FlushPipeline
                    } else {
                        CpuAction::Advance
                    },
                )
            },
            HiRegisterOp::BxRsHs => {
                let addr = self.gpr[hs];
                let s = if addr & 1u32 == 0 {
                    State::ARM
                } else {
                    State::THUMB
                };
                self.state = s;
                self.cpsr.set_state(s);
                self.gpr[15] = addr & 0xFFFF_FFFEu32;
                Ok(CpuAction::FlushPipeline)
            },
        }
    }

    fn t_exec_ldr_pc(&mut self, bus: &mut Bus, inst: ThumbInstruction) -> (r: Result<
        CpuAction,
        GbaError,
    >)
        requires
            bus_wf(old(bus)),
        ensures
            bus_wf(final(bus)),
            ({
                let step = t_ldr_pc_spec(old(self)@, old(bus)@, inst.raw);
                final(self)@ == step.0 && final(bus)@ == step.1 && r == step.2
            }),
    {
        proof {
            crate::bitutil::lemma_mask_bounds(inst.raw as u32);
        }
        let x: u32 = inst.raw as u32;
        let addr = wadd(self.gpr[15] & !2u32, 4 * (x & 0xFFu32));
        match bus.load_word(addr) {
            Err(e) => Err(e),
            Ok(v) => {
                self.gpr[inst.Rm()] = v;
                Ok(CpuAction::Advance)
            },
        }
    }

    fn t_exec_ldr_str_reg(&mut self, bus: &mut Bus, inst: ThumbInstruction, half: bool) -> (r: Result<
        CpuAction,
        GbaError,
    >)
        requires
            bus_wf(old(bus)),
        ensures
            bus_wf(final(bus)),
            ({
                let step = t_ldr_str_reg_spec(old(self)@, old(bus)@, inst.raw, half);
                final(self)@ == step.0 && final(bus)@ == step.1 && r == step.2
            }),
    {
        if half {
            let addr = wadd(self.gpr[inst.Rs()], self.gpr[inst.Rn()]);
            let rd = inst.Rd();
            match inst.op_LdrhStrhReg() {
                LdrhStrhOp::STRH => match bus.store_halfword(addr, self.gpr[rd]) {
                    Err(e) => Err(e),
                    Ok(_) => Ok(CpuAction::Advance),
                },
                LdrhStrhOp::LDRH => match bus.load_halfword(addr) {
                    Err(e) => Err(e),
                    Ok(v) => {
                        self.gpr[rd] = v;
                        Ok(CpuAction::Advance)
                    },
                },
                LdrhStrhOp::LDSB => match bus.load_byte(addr) {
                    Err(e) => Err(e),
                    Ok(v) => {
                        self.gpr[rd] = sx8(v);
                        Ok(CpuAction::Advance)
                    },
                },
                LdrhStrhOp::LDSH => match bus.load_halfword(addr) {
                    Err(e) => Err(e),
                    Ok(v) => {
                        self.gpr[rd] = sx16(v);
                        Ok(CpuAction::Advance)
                    },
                },
            }
        } else {
            let addr = wadd(self.gpr[inst.Rs()], self.gpr[inst.Rn()]);
            let rd = inst.Rd();
            if inst.is_load() {
                let loaded = if inst.is_transfering_bytes() {
                    bus.load_byte(addr)
                } else {
                    bus.load_word(addr)
                };
                match loaded {
                    Err(e) => Err(e),
                    Ok(v) => {
                        self.gpr[rd] = v;
                        Ok(CpuAction::Advance)
                    },
                }
            } else {
                let stored = if inst.is_transfering_bytes() {
                    bus.store_byte(addr, self.gpr[rd])
                } else {
                    bus.store_word(addr, self.gpr[rd])
                };
                match stored {
                    Err(e) => Err(e),
                    Ok(_) => Ok(CpuAction::Advance),
                }
            }
        }
    }

    fn t_exec_ldr_str_imm(&mut self, bus: &mut Bus, inst: ThumbInstruction, half: bool) -> (r: Result<
        CpuAction,
        GbaError,
    >)
        requires
            bus_wf(old(bus)),
        ensures
            bus_wf(final(bus)),
            ({
                let step = t_ldr_str_imm_spec(old(self)@, old(bus)@, inst.raw, half);
                final(self)@ == step.0 && final(bus)@ == step.1 && r == step.2
            }),
    {
        proof {
            crate::bitutil::lemma_mask_bounds(inst.raw as u32);
        }
        let x: u32 = inst.raw as u32;
        if half {
            let imm5 = (x >> 6) & 0x1Fu32;
            let addr = wadd(self.gpr[inst.Rs()], 2 * imm5);
            let rd = inst.Rd();
            if x & 0x800u32 != 0 {
                match bus.load_halfword(addr) {
                    Err(e) => Err(e),
                    Ok(v) => {
                        self.gpr[rd] = v;
                        Ok(CpuAction::Advance)
                    },
                }
            } else {
                match bus.store_halfword(addr, self.gpr[rd]) {
                    Err(e) => Err(e),
                    Ok(_) => Ok(CpuAction::Advance),
                }
            }
        } else {
            let imm5 = (x >> 6) & 0x1Fu32;
            let byte = x & 0x1000u32 != 0;
            let base = self.gpr[inst.Rs()];
            let addr = if byte {
                wadd(base, imm5)
            } else {
                wadd(base, 4 * imm5)
            };
            let rd = inst.Rd();
            if x & 0x800u32 != 0 {
                let loaded = if byte {
                    bus.load_byte(addr)
                } else {
                    bus.load_word(addr)
                };
                match loaded {
                    Err(e) => Err(e),
                    Ok(v) => {
                        self.gpr[rd] = v;
                        Ok(CpuAction::Advance)
                    },
                }
            } else {
                let stored = if byte {
                    bus.store_byte(addr, self.gpr[rd])
                } else {
                    bus.store_word(addr, self.gpr[rd])
                };
                match stored {
                    Err(e) => Err(e),
                    Ok(_) => Ok(CpuAction::Advance),
                }
            }
        }
    }

    fn t_exec_ldr_str_sp(&mut self, bus: &mut Bus, inst: ThumbInstruction) -> (r: Result<
        CpuAction,
        GbaError,
    >)
        requires
            bus_wf(old(bus)),
        ensures
            bus_wf(final(bus)),
            ({
                let step = t_ldr_str_sp_spec(old(self)@, old(bus)@, inst.raw);
                final(self)@ == step.0 && final(bus)@ == step.1 && r == step.2
            }),
    {
        proof {
            crate::bitutil::lemma_mask_bounds(inst.raw as u32);
        }
        let x: u32 = inst.raw as u32;
        let addr = wadd(self.gpr[13], 4 * (x & 0xFFu32));
        let rd = inst.Rm();
        if x & 0x800u32 != 0 {
            match bus.load_word(addr) {
                Err(e) => Err(e),
                Ok(v) => {
                    self.gpr[rd] = v;
                    Ok(CpuAction::Advance)
                },
            }
        } else {
            match bus.store_word(addr, self.gpr[rd]) {
                Err(e) => Err(e),
                Ok(_) => Ok(CpuAction::Advance),
            }
        }
    }

    fn t_exec_calc_addr(&mut self, bus: &mut Bus, inst: ThumbInstruction) -> (r: Result<
        CpuAction,
        GbaError,
    >)
        requires
            bus_wf(old(bus)),
        ensures
            bus_wf(final(bus)),
            ({
                let step = t_calc_addr_spec(old(self)@, old(bus)@, inst.raw);
                final(self)@ == step.0 && final(bus)@ == step.1 && r == step.2
            }),
    {
        proof {
            crate::bitutil::lemma_mask_bounds(inst.raw as u32);
        }
        let x: u32 = inst.raw as u32;
        let base = if inst.is_base_SP() {
            self.gpr[13]
        } else {
            self.gpr[15] & !2u32
        };
        self.gpr[inst.Rm()] = wadd(base, 4 * (x & 0xFFu32));
        Ok(CpuAction::Advance)
    }

    fn t_exec_add_sp(&mut self, bus: &mut Bus, inst: ThumbInstruction) -> (r: Result<
        CpuAction,
        GbaError,
    >)
        requires
            bus_wf(old(bus)),
        ensures
            bus_wf(final(bus)),
            ({
                let step = t_add_sp_spec(old(self)@, old(bus)@, inst.raw);
                final(self)@ == step.0 && final(bus)@ == step.1 && r == step.2
            }),
    {
        proof {
            crate::bitutil::lemma_mask_bounds(inst.raw as u32);
        }
        let x: u32 = inst.raw as u32;
        let mag = 4 * (x & 0x7Fu32);
        let sp = self.gpr[13];
        self.gpr[13] = if x & 0x80u32 != 0 {
            wsub(sp, mag)
        } else {
            wadd(sp, mag)
        };
        Ok(CpuAction::Advance)
    }

    fn t_exec_push_pop(&mut self, bus: &mut Bus, inst: ThumbInstruction) -> (r: Result<
        CpuAction,
        GbaError,
    >)
        requires
            bus_wf(old(bus)),
        ensures
            bus_wf(final(bus)),
            ({
                let step = t_push_pop_spec(old(self)@, old(bus)@, inst.raw);
                final(self)@ == step.0 && final(bus)@ == step.1 && r == step.2
            }),
    {
        proof {
            crate::bitutil::lemma_mask_bounds(inst.raw as u32);
        }
        let x: u32 = inst.raw as u32;
        let load = x & 0x800u32 != 0;
        let rmap: u32 = if x & 0x100u32 == 0 {
            x & 0xFFu32
        } else if load {
            (x & 0xFFu32) | 0x8000u32
        } else {
            (x & 0xFFu32) | 0x4000u32
        };
        let bytes = 4 * count_bits(rmap);
        let base = self.gpr[13];
        let addr0 = if load {
            base
        } else {
            wsub(base, bytes)
        };
        self.gpr[13] = if load {
            wadd(base, bytes)
        } else {
            wsub(base, bytes)
        };
        match self.ldm_block(bus, rmap, addr0, 0, 4, load) {
            Err(e) => Err(e),
            Ok(_) => Ok(
                if load && x & 0x100u32 != 0 {
                    CpuAction::FlushPipeline
                } else {
                    CpuAction::Advance
                },
            ),
        }
    }

    fn t_exec_ldm_stm(&mut self, bus: &mut Bus, inst: ThumbInstruction) -> (r: Result<
        CpuAction,
        GbaError,
    >)
        requires
            bus_wf(old(bus)),
        ensures
            bus_wf(final(bus)),
            ({
                let step = t_ldm_stm_spec(old(self)@, old(bus)@, inst.raw);
                final(self)@ == step.0 && final(bus)@ == step.1 && r == step.2
            }),
    {
        proof {
            crate::bitutil::lemma_mask_bounds(inst.raw as u32);
        }
        let x: u32 = inst.raw as u32;
        let load = x & 0x800u32 != 0;
        let rn = inst.Rm();
        let rmap: u32 = x & 0xFFu32;
        let bytes = 4 * count_bits(rmap);
        let base = self.gpr[rn];
        self.gpr[rn] = wadd(base, bytes);
        match self.ldm_block(bus, rmap, base, 0, 4, load) {
            Err(e) => Err(e),
            Ok(_) => Ok(CpuAction::Advance),
        }
    }

    fn t_exec_branch_cond(&mut self, bus: &mut Bus, inst: ThumbInstruction) -> (r: Result<
        CpuAction,
        GbaError,
    >)
        requires
            bus_wf(old(bus)),
        ensures
            bus_wf(final(bus)),
            ({
                let step = t_branch_cond_spec(old(self)@, old(bus)@, inst.raw);
                final(self)@ == step.0 && final(bus)@ == step.1 && r == step.2
            }),
    {
        proof {
            crate::bitutil::lemma_mask_bounds(inst.raw as u32);
        }
        let x: u32 = inst.raw as u32;
        let go = match inst.condition().check(&self.cpsr) {
            Ok(v) => v,
            Err(e) => {
                return Err(e);
            },
        };
        if go {
            let pc = self.gpr[15];
            if x & 0x80u32 != 0 {
                self.gpr[15] = wsub(pc, (0x100u32 - (x & 0xFFu32)) * 2);
            } else {
                self.gpr[15] = wadd(pc, (x & 0xFFu32) * 2);
            }
            Ok(CpuAction::FlushPipeline)
        } else {
            Ok(CpuAction::Advance)
        }
    }

    fn t_exec_branch(&mut self, bus: &mut Bus, inst: ThumbInstruction) -> (r: Result<
        CpuAction,
        GbaError,
    >)
        requires
            bus_wf(old(bus)),
        ensures
            bus_wf(final(bus)),
            ({
                let step = t_branch_spec(old(self)@, old(bus)@, inst.raw);
                final(self)@ == step.0 && final(bus)@ == step.1 && r == step.2
            }),
    {
        proof {
            crate::bitutil::lemma_mask_bounds(inst.raw as u32);
        }
        let x: u32 = inst.raw as u32;
        let pc = self.gpr[15];
        if x & 0x400u32 != 0 {
            self.gpr[15] = wsub(pc, (0x800u32 - (x & 0x7FFu32)) * 2);
        } else {
            self.gpr[15] = wadd(pc, (x & 0x7FFu32) * 2);
        }
        Ok(CpuAction::FlushPipeline)
    }

    fn t_exec_branch_long(&mut self, bus: &mut Bus, inst: ThumbInstruction) -> (r: Result<
        CpuAction,
        GbaError,
    >)
        requires
            bus_wf(old(bus)),
        ensures
            bus_wf(final(bus)),
            ({
                let step = t_branch_long_spec(old(self)@, old(bus)@, inst.raw);
                final(self)@ == step.0 && final(bus)@ == step.1 && r == step.2
            }),
    {
        proof {
            crate::bitutil::lemma_mask_bounds(inst.raw as u32);
        }
        let x: u32 = inst.raw as u32;
        let part = x & 0x7FFu32;
        if x & 0x800u32 == 0 {
            let pc = self.gpr[15];
            if x & 0x400u32 != 0 {
                self.gpr[14] = wsub(pc, (0x800u32 - part) * 0x1000);
            } else {
                self.gpr[14] = wadd(pc, part * 0x1000);
            }
            Ok(CpuAction::Advance)
        } else {
            let target = wadd(self.gpr[14], 2 * part);
            let ret = self.gpr[15] | 1u32;
            self.gpr[15] = target;
            self.gpr[14] = ret;
            Ok(CpuAction::FlushPipeline)
        }
    }


}

/// The ALU-operation table of the `AluOperation` family, total over
/// every halfword: the separate multiply code also maps to an entry
/// here, matching the specification table.
fn thumb_alu_ops(raw: u16) -> (r: (ArmDPOP, ArmBSOP))
    ensures
        r == thumb_alu_op_spec(raw),
        crate::armbsop::bsop_wf(r.1),
{
    proof {
        crate::bitutil::lemma_mask_bounds(raw as u32);
    }
    let k = ((raw as u32) >> 6) & 0xFu32;
    let rs = (((raw as u32) >> 3) & 0x7u32) as usize;
    if k == 0 {
        (ArmDPOP::AND, ArmBSOP::NOP)
    } else if k == 1 {
        (ArmDPOP::EOR, ArmBSOP::NOP)
    } else if k == 2 {
        (ArmDPOP::MOV, ArmBSOP::LSL_Reg(rs))
    } else if k == 3 {
        (ArmDPOP::MOV, ArmBSOP::LSR_Reg(rs))
    } else if k == 4 {
        (ArmDPOP::MOV, ArmBSOP::ASR_Reg(rs))
    } else if k == 5 {
        (ArmDPOP::ADC, ArmBSOP::NOP)
    } else if k == 6 {
        (ArmDPOP::SBC, ArmBSOP::NOP)
    } else if k == 7 {
        (ArmDPOP::MOV, ArmBSOP::ROR_Reg(rs))
    } else if k == 8 {
        (ArmDPOP::TST, ArmBSOP::NOP)
    } else if k == 9 {
        (ArmDPOP::RSB, ArmBSOP::NOP)
    } else if k == 10 {
        (ArmDPOP::CMP, ArmBSOP::NOP)
    } else if k == 11 {
        (ArmDPOP::CMN, ArmBSOP::NOP)
    } else if k == 12 {
        (ArmDPOP::ORR, ArmBSOP::NOP)
    } else if k == 14 {
        (ArmDPOP::BIC, ArmBSOP::NOP)
    } else {
        (ArmDPOP::MVN, ArmBSOP::NOP)
    }
}

/// Counts the set bits among the low sixteen of a word.
fn count_bits(x: u32) -> (r: u32)
    ensures
        r == crate::execldm::count_bits_from(x, 0),
        r <= 16,
{
    let mut cnt: u32 = 0;
    let mut ci: u32 = 0;
    while ci < 16
        invariant
            ci <= 16,
            cnt <= ci,
            cnt + crate::execldm::count_bits_from(x, ci) == crate::execldm::count_bits_from(x, 0),
        decreases 16 - ci,
    {
        if (x >> ci) & 1u32 == 1u32 {
            cnt = cnt + 1;
        }
        ci = ci + 1;
    }
    cnt
}

} // verus!
