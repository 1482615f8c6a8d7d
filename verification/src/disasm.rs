//! Assembly text for decoded ARM instructions.
//!
//! The disassembly is a human-readable derivative of the decoded
//! form, used by debugging front-ends; the emulation itself never
//! reads it back.

use vstd::prelude::*;
use vstd::string::StringExecFns;

use crate::arm7tdmi::Arm7Tdmi;
use crate::arminstruction::{ArmInstruction, ArmOpcode};
use crate::armcondition::ArmCondition;
use crate::armdpop::ArmDPOP;

verus! {

/// Appends one decimal digit.
fn push_digit(s: &mut String, d: u32)
    requires
        d < 10,
{
    if d == 0 {
        s.append("0");
    } else if d == 1 {
        s.append("1");
    } else if d == 2 {
        s.append("2");
    } else if d == 3 {
        s.append("3");
    } else if d == 4 {
        s.append("4");
    } else if d == 5 {
        s.append("5");
    } else if d == 6 {
        s.append("6");
    } else if d == 7 {
        s.append("7");
    } else if d == 8 {
        s.append("8");
    } else {
        s.append("9");
    }
}

/// Appends one upper-case hexadecimal digit.
fn push_hex_digit(s: &mut String, d: u32)
    requires
        d < 16,
{
    if d < 10 {
        push_digit(s, d);
    } else if d == 10 {
        s.append("A");
    } else if d == 11 {
        s.append("B");
    } else if d == 12 {
        s.append("C");
    } else if d == 13 {
        s.append("D");
    } else if d == 14 {
        s.append("E");
    } else {
        s.append("F");
    }
}

/// Appends an unsigned decimal number.
fn push_dec(s: &mut String, x: u32) {
    // Collect the digits least significant first, then emit them in
    // reverse.
    let mut digits: Vec<u32> = Vec::new();
    let mut v: u32 = x;
    if v == 0 {
        push_digit(s, 0);
        return ;
    }
    while v > 0
        invariant
            forall|k: int| 0 <= k < digits@.len() ==> digits@[k] < 10,
        decreases v,
    {
        digits.push(v % 10);
        v = v / 10;
    }
    let mut i: usize = digits.len();
    while i > 0
        invariant
            i <= digits@.len(),
            forall|k: int| 0 <= k < digits@.len() ==> digits@[k] < 10,
        decreases i,
    {
        i = i - 1;
        push_digit(s, digits[i]);
    }
}

/// Appends a signed decimal number with an explicit sign.
fn push_dec_forced_sign(s: &mut String, negative: bool, magnitude: u32) {
    if negative {
        s.append("-");
    } else {
        s.append("+");
    }
    push_dec(s, magnitude);
}

/// Appends a fixed number of upper-case hexadecimal digits, most
/// significant first, prefixed by `0x`.
fn push_hex(s: &mut String, x: u32, digits: u32)
    requires
        1 <= digits <= 8,
{
    s.append("0x");
    let mut i: u32 = digits;
    while i > 0
        invariant
            i <= 8,
        decreases i,
    {
        i = i - 1;
        proof {
            crate::bitutil::lemma_mask_bounds(x >> (4 * i));
        }
        push_hex_digit(s, (x >> (4 * i)) & 0xFu32);
    }
}

impl Arm7Tdmi {
    /// The conventional assembly name of a register: numbered for
    /// R0..R12, then the stack pointer, link register and program
    /// counter.
    pub fn register_name(i: usize) -> (r: &'static str)
        requires
            i < 16,
    {
        if i == 0 {
            "R0"
        } else if i == 1 {
            "R1"
        } else if i == 2 {
            "R2"
        } else if i == 3 {
            "R3"
        } else if i == 4 {
            "R4"
        } else if i == 5 {
            "R5"
        } else if i == 6 {
            "R6"
        } else if i == 7 {
            "R7"
        } else if i == 8 {
            "R8"
        } else if i == 9 {
            "R9"
        } else if i == 10 {
            "R10"
        } else if i == 11 {
            "R11"
        } else if i == 12 {
            "R12"
        } else if i == 13 {
            "SP"
        } else if i == 14 {
            "LR"
        } else {
            "PC"
        }
    }
}

/// The assembly suffix of a condition; the always-condition has none.
fn condition_name(c: ArmCondition) -> (r: &'static str) {
    match c {
        ArmCondition::EQ => "eq",
        ArmCondition::NE => "ne",
        ArmCondition::HS => "hs",
        ArmCondition::LO => "lo",
        ArmCondition::MI => "mi",
        ArmCondition::PL => "pl",
        ArmCondition::VS => "vs",
        ArmCondition::VC => "vc",
        ArmCondition::HI => "hi",
        ArmCondition::LS => "ls",
        ArmCondition::GE => "ge",
        ArmCondition::LT => "lt",
        ArmCondition::GT => "gt",
        ArmCondition::LE => "le",
        ArmCondition::AL => "",
        ArmCondition::NV => "nv",
    }
}

/// The assembly mnemonic of a data-processing opcode.
fn dpop_name(op: ArmDPOP) -> (r: &'static str) {
    match op {
        ArmDPOP::AND => "and",
        ArmDPOP::EOR => "eor",
        ArmDPOP::SUB => "sub",
        ArmDPOP::RSB => "rsb",
        ArmDPOP::ADD => "add",
        ArmDPOP::ADC => "adc",
        ArmDPOP::SBC => "sbc",
        ArmDPOP::RSC => "rsc",
        ArmDPOP::TST => "tst",
        ArmDPOP::TEQ => "teq",
        ArmDPOP::CMP => "cmp",
        ArmDPOP::CMN => "cmn",
        ArmDPOP::ORR => "orr",
        ArmDPOP::MOV => "mov",
        ArmDPOP::BIC => "bic",
        ArmDPOP::MVN => "mvn",
    }
}

impl ArmInstruction {
    /// Appends the shifted-register part of an operand: the register,
    /// then the shift operation where one is encoded.
    fn push_shifted_rm(&self, s: &mut String) {
        s.append(Arm7Tdmi::register_name(self.Rm()));
        if self.raw & 0x0FF0u32 == 0 {
            return ;
        }
        if self.raw & 0x0FF0u32 == 0x60u32 {
            s.append(", rrx");
            return ;
        }
        let k = (self.raw >> 5) & 0x3u32;
        if k == 0 {
            s.append(", lsl ");
        } else if k == 1 {
            s.append(", lsr ");
        } else if k == 2 {
            s.append(", asr ");
        } else {
            s.append(", ror ");
        }
        if self.is_register_shift_immediate() {
            s.append("#");
            push_dec(s, self.register_shift_immediate());
        } else {
            s.append(Arm7Tdmi::register_name(self.Rs()));
        }
    }

    /// Appends a base-plus-offset operand with pre/post indexing
    /// brackets and the write-back mark.
    fn push_rn_offset(&self, s: &mut String, offs: String) {
        s.append("[");
        s.append(Arm7Tdmi::register_name(self.Rn()));
        if self.is_pre_indexed() {
            s.append(", ");
            s.append(offs.as_str());
            s.append("]");
            if self.is_auto_incrementing() {
                s.append("!");
            }
        } else {
            s.append("], ");
            s.append(offs.as_str());
        }
    }

    /// The disassembly of this instruction: the raw word in hex, a
    /// tab, and the assembly text.
    pub fn assembly(&self) -> (r: String) {
        let mut s = String::new();
        push_hex(&mut s, self.raw, 8);
        s.append("\t");
        let cond = condition_name(self.condition());
        match self.op {
            ArmOpcode::Unknown => {
                s.append("<unknown>");
            },
            ArmOpcode::SWI => {
                s.append("swi");
                s.append(cond);
                s.append("\t#");
                push_hex(&mut s, self.comment(), 6);
            },
            ArmOpcode::BX => {
                s.append("bx");
                s.append(cond);
                s.append("\t");
                s.append(Arm7Tdmi::register_name(self.Rm()));
            },
            ArmOpcode::B_BL => {
                if self.is_branch_with_link() {
                    s.append("bl");
                } else {
                    s.append("b");
                }
                s.append(cond);
                s.append("\t#");
                // The pipeline bias makes the target 8 bytes past the
                // branch itself.
                let off = self.branch_offset();
                if off + 8 < 0 {
                    s.append("-");
                    push_dec(&mut s, (-(off + 8)) as u32);
                } else {
                    push_dec(&mut s, (off + 8) as u32);
                }
            },
            ArmOpcode::MRS => {
                s.append("mrs");
                s.append(cond);
                s.append("\t");
                s.append(Arm7Tdmi::register_name(self.Rd()));
                if self.is_accessing_spsr() {
                    s.append(", SPSR");
                } else {
                    s.append(", CPSR");
                }
            },
            ArmOpcode::MSR_Reg => {
                s.append("msr");
                s.append(cond);
                if self.is_accessing_spsr() {
                    s.append("\tSPSR, ");
                } else {
                    s.append("\tCPSR, ");
                }
                s.append(Arm7Tdmi::register_name(self.Rm()));
            },
            ArmOpcode::MSR_Flags => {
                s.append("msr");
                s.append(cond);
                if self.is_accessing_spsr() {
                    s.append("\tSPSR_flg, ");
                } else {
                    s.append("\tCPSR_flg, ");
                }
                if self.is_shift_field_register() {
                    s.append(Arm7Tdmi::register_name(self.Rm()));
                } else {
                    s.append("#");
                    push_hex(&mut s, self.rotated_immediate(), 8);
                }
            },
            ArmOpcode::DataProcessing => {
                let op = self.dpop();
                s.append(dpop_name(op));
                s.append(cond);
                if self.is_setting_flags() && !op.is_test() {
                    s.append("s");
                }
                s.append("\t");
                if !op.is_test() {
                    s.append(Arm7Tdmi::register_name(self.Rd()));
                    s.append(", ");
                }
                if !op.is_move() {
                    s.append(Arm7Tdmi::register_name(self.Rn()));
                    s.append(", ");
                }
                if self.is_shift_field_register() {
                    self.push_shifted_rm(&mut s);
                } else {
                    s.append("#");
                    push_dec(&mut s, self.rotated_immediate());
                }
            },
            ArmOpcode::MUL_MLA => {
                if self.is_accumulating() {
                    s.append("mla");
                } else {
                    s.append("mul");
                }
                if self.is_setting_flags() {
                    s.append("s");
                }
                s.append(cond);
                s.append("\t");
                s.append(Arm7Tdmi::register_name(self.Rn()));
                s.append(", ");
                s.append(Arm7Tdmi::register_name(self.Rm()));
                s.append(", ");
                s.append(Arm7Tdmi::register_name(self.Rs()));
                if self.is_accumulating() {
                    s.append(", ");
                    s.append(Arm7Tdmi::register_name(self.Rd()));
                }
            },
            ArmOpcode::MULL_MLAL => {
                if self.is_signed() {
                    s.append("s");
                } else {
                    s.append("u");
                }
                if self.is_accumulating() {
                    s.append("mlal");
                } else {
                    s.append("mull");
                }
                if self.is_setting_flags() {
                    s.append("s");
                }
                s.append(cond);
                s.append("\t");
                s.append(Arm7Tdmi::register_name(self.Rd()));
                s.append(", ");
                s.append(Arm7Tdmi::register_name(self.Rn()));
                s.append(", ");
                s.append(Arm7Tdmi::register_name(self.Rm()));
                s.append(", ");
                s.append(Arm7Tdmi::register_name(self.Rs()));
            },
            ArmOpcode::LDR_STR => {
                if self.is_load() {
                    s.append("ldr");
                } else {
                    s.append("str");
                }
                if self.is_transfering_bytes() {
                    s.append("b");
                }
                if !self.is_pre_indexed() && self.is_auto_incrementing() {
                    s.append("t");
                }
                s.append(cond);
                s.append("\t");
                s.append(Arm7Tdmi::register_name(self.Rd()));
                s.append(", ");
                let mut offs = String::new();
                if self.is_offset_field_immediate() {
                    offs.append("#");
                    proof {
                        crate::bitutil::lemma_mask_bounds(self.raw);
                    }
                    push_dec_forced_sign(&mut offs, !self.is_offset_added(), self.raw & 0xFFFu32);
                } else {
                    if self.is_offset_added() {
                        offs.append("+");
                    } else {
                        offs.append("-");
                    }
                    self.push_shifted_rm(&mut offs);
                }
                self.push_rn_offset(&mut s, offs);
            },
            ArmOpcode::LDRH_STRH_Reg => {
                self.push_ldrh_strh_head(&mut s, cond);
                let mut offs = String::new();
                if self.is_offset_added() {
                    offs.append("+");
                } else {
                    offs.append("-");
                }
                offs.append(Arm7Tdmi::register_name(self.Rm()));
                self.push_rn_offset(&mut s, offs);
            },
            ArmOpcode::LDRH_STRH_Imm => {
                self.push_ldrh_strh_head(&mut s, cond);
                let mut offs = String::new();
                offs.append("#");
                push_dec_forced_sign(
                    &mut offs,
                    !self.is_offset_added(),
                    self.split_offset8_magnitude(),
                );
                self.push_rn_offset(&mut s, offs);
            },
            ArmOpcode::LDM_STM => {
                if self.is_load() {
                    s.append("ldm");
                } else {
                    s.append("stm");
                }
                if self.is_offset_added() {
                    s.append("i");
                } else {
                    s.append("d");
                }
                if self.is_pre_indexed() {
                    s.append("b");
                } else {
                    s.append("a");
                }
                s.append(cond);
                s.append("\t");
                s.append(Arm7Tdmi::register_name(self.Rn()));
                if self.is_auto_incrementing() {
                    s.append("!");
                }
                s.append(", {");
                let mut first = true;
                let mut i: usize = 0;
                while i < 16
                    invariant
                        i <= 16,
                    decreases 16 - i,
                {
                    if (self.raw >> (i as u32)) & 1u32 == 1u32 {
                        if !first {
                            s.append(", ");
                        }
                        s.append(Arm7Tdmi::register_name(i));
                        first = false;
                    }
                    i = i + 1;
                }
                s.append("}");
                if self.is_enforcing_user_mode() {
                    s.append("^");
                }
            },
            ArmOpcode::SWP => {
                s.append("swp");
                if self.is_transfering_bytes() {
                    s.append("b");
                }
                s.append(cond);
                s.append("\t");
                s.append(Arm7Tdmi::register_name(self.Rd()));
                s.append(", ");
                s.append(Arm7Tdmi::register_name(self.Rm()));
                s.append(", [");
                s.append(Arm7Tdmi::register_name(self.Rn()));
                s.append("]");
            },
            ArmOpcode::CDP => {
                s.append("cdp");
                s.append(cond);
                s.append("\tP");
                push_dec(&mut s, self.cp_id() as u32);
                s.append(", ");
                push_dec(&mut s, self.cp_opcode4() as u32);
                s.append(", CR");
                push_dec(&mut s, self.Rd() as u32);
                s.append(", CR");
                push_dec(&mut s, self.Rn() as u32);
                s.append(", CR");
                push_dec(&mut s, self.Rm() as u32);
                s.append(", ");
                push_dec(&mut s, self.cp_info() as u32);
            },
            ArmOpcode::MRC_MCR => {
                if self.is_load() {
                    s.append("mrc");
                } else {
                    s.append("mcr");
                }
                s.append(cond);
                s.append("\tP");
                push_dec(&mut s, self.cp_id() as u32);
                s.append(", ");
                push_dec(&mut s, self.cp_opcode3() as u32);
                s.append(", ");
                s.append(Arm7Tdmi::register_name(self.Rd()));
                s.append(", CR");
                push_dec(&mut s, self.Rn() as u32);
                s.append(", CR");
                push_dec(&mut s, self.Rm() as u32);
                s.append(", ");
                push_dec(&mut s, self.cp_info() as u32);
            },
            ArmOpcode::LDC_STC => {
                if self.is_load() {
                    s.append("ldc");
                } else {
                    s.append("stc");
                }
                if self.is_register_block_transfer() {
                    s.append("l");
                }
                s.append(cond);
                s.append("\tP");
                push_dec(&mut s, self.cp_id() as u32);
                s.append(", CR");
                push_dec(&mut s, self.Rd() as u32);
                s.append(", ");
                let mut offs = String::new();
                offs.append("#");
                proof {
                    crate::bitutil::lemma_mask_bounds(self.raw);
                }
                push_dec_forced_sign(&mut offs, !self.is_offset_added(), self.raw & 0xFFu32);
                self.push_rn_offset(&mut s, offs);
            },
        }
        s
    }

    /// Appends the mnemonic head shared by the halfword and signed
    /// transfer forms.
    fn push_ldrh_strh_head(&self, s: &mut String, cond: &'static str) {
        if self.is_load() {
            s.append("ldr");
        } else {
            s.append("str");
        }
        let k = (self.raw >> 5) & 0x3u32;
        if k == 1 {
            s.append("h");
        } else if k == 2 {
            s.append("sb");
        } else if k == 3 {
            s.append("sh");
        } else {
            s.append("<?>");
        }
        s.append(cond);
        s.append("\t");
        s.append(Arm7Tdmi::register_name(self.Rd()));
        s.append(", ");
    }
}

} // verus!
