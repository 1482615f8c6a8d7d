//! Barrel shifter opcodes and their evaluation, shared by the ARM and
//! THUMB executors.
//!
//! The shifter computes `(value, carry_out)` for LSL/LSR/ASR/ROR by an
//! immediate or by a register amount, with the ARM edge table: a shift
//! by an immediate 0 encodes a special form (identity, shift by 32, or
//! rotate-right-extended), and register amounts of 32 and more have
//! their own table of results.

use vstd::prelude::*;

use crate::bitutil::{asr32, asr_all, asr_broadcast, ror32, u32_asr, u32_ror};

verus! {

/// One bit of a word, as a boolean.
pub open spec fn u32_bit(x: u32, i: u32) -> bool
    recommends
        i < 32,
{
    (x >> i) & 1u32 == 1u32
}

/// Shifting right by zero positions changes nothing.
pub proof fn lemma_shr_zero(x: u32)
    ensures
        x >> 0u32 == x,
{
    assert(x >> 0u32 == x) by (bit_vector);
}

/// A barrel shifter opcode.
#[derive(Debug, PartialEq, Eq, Structural, Clone, Copy)]
#[allow(non_camel_case_types)]
pub enum ArmBSOP {
    /// Logical Shift Left by an immediate value.
    LSL_Imm(u32),
    /// Logical Shift Right by an immediate value.
    LSR_Imm(u32),
    /// Arithmetic Shift Right by an immediate value.
    ASR_Imm(u32),
    /// Rotate Right by an immediate value.
    ROR_Imm(u32),
    /// No shift (LSL #0).
    NOP,
    /// Logical Shift Right by 32 bits.
    LSR_32,
    /// Arithmetic Shift Right by 32 bits.
    ASR_32,
    /// Rotate Right Extended.
    RRX,
    /// Logical Shift Left by a register value.
    LSL_Reg(usize),
    /// Logical Shift Right by a register value.
    LSR_Reg(usize),
    /// Arithmetic Shift Right by a register value.
    ASR_Reg(usize),
    /// Rotate Right by a register value.
    ROR_Reg(usize),
}

/// A well-formed shifter opcode: immediate amounts lie in 1..32 (an
/// encoded 0 becomes one of the special forms) and register indices
/// name one of the sixteen registers.
pub open spec fn bsop_wf(op: ArmBSOP) -> bool {
    match op {
        ArmBSOP::LSL_Imm(n) => 1 <= n < 32,
        ArmBSOP::LSR_Imm(n) => 1 <= n < 32,
        ArmBSOP::ASR_Imm(n) => 1 <= n < 32,
        ArmBSOP::ROR_Imm(n) => 1 <= n < 32,
        ArmBSOP::LSL_Reg(r) => r < 16,
        ArmBSOP::LSR_Reg(r) => r < 16,
        ArmBSOP::ASR_Reg(r) => r < 16,
        ArmBSOP::ROR_Reg(r) => r < 16,
        _ => true,
    }
}

/// Logical shift left by a register amount, with carry: the full ARM
/// table including amounts of 32 and more.
pub open spec fn lsl_reg_vc(x: u32, r: u32, c: bool) -> (u32, bool) {
    if r == 0 {
        (x, c)
    } else if r < 32 {
        (x << r, u32_bit(x, (32 - r) as u32))
    } else if r == 32 {
        (0u32, u32_bit(x, 0))
    } else {
        (0u32, false)
    }
}

/// Logical shift right by a register amount, with carry.
pub open spec fn lsr_reg_vc(x: u32, r: u32, c: bool) -> (u32, bool) {
    if r == 0 {
        (x, c)
    } else if r < 32 {
        (x >> r, u32_bit(x, (r - 1) as u32))
    } else if r == 32 {
        (0u32, u32_bit(x, 31))
    } else {
        (0u32, false)
    }
}

/// Arithmetic shift right by a register amount, with carry.
pub open spec fn asr_reg_vc(x: u32, r: u32, c: bool) -> (u32, bool) {
    if r == 0 {
        (x, c)
    } else if r < 32 {
        (u32_asr(x, r), u32_bit(x, (r - 1) as u32))
    } else {
        (asr_broadcast(x), u32_bit(x, 31))
    }
}

/// Rotate right by a register amount, with carry: the amount reduces
/// modulo 32, and a multiple of 32 returns the value unchanged with
/// bit 31 as carry.
pub open spec fn ror_reg_vc(x: u32, r: u32, c: bool) -> (u32, bool) {
    if r == 0 {
        (x, c)
    } else if r % 32 == 0 {
        (x, u32_bit(x, 31))
    } else {
        (u32_ror(x, r % 32), u32_bit(x, ((r % 32) - 1) as u32))
    }
}

/// The `(value, carry_out)` a well-formed shifter opcode produces on a
/// value `x`, given the current carry `c` and the value `rs` of the
/// shift-amount register for the register forms (only its low byte
/// counts).
pub open spec fn bsop_vc(op: ArmBSOP, x: u32, c: bool, rs: u32) -> (u32, bool)
    recommends
        bsop_wf(op),
{
    match op {
        ArmBSOP::NOP => (x, c),
        ArmBSOP::LSL_Imm(n) => (x << n, u32_bit(x, (32 - n) as u32)),
        ArmBSOP::LSR_Imm(n) => (x >> n, u32_bit(x, (n - 1) as u32)),
        ArmBSOP::ASR_Imm(n) => (u32_asr(x, n), u32_bit(x, (n - 1) as u32)),
        ArmBSOP::ROR_Imm(n) => (u32_ror(x, n), u32_bit(x, (n - 1) as u32)),
        ArmBSOP::LSR_32 => (0u32, u32_bit(x, 31)),
        ArmBSOP::ASR_32 => (asr_broadcast(x), u32_bit(x, 31)),
        ArmBSOP::RRX => (
            (x >> 1u32) | (if c {
                0x8000_0000u32
            } else {
                0u32
            }),
            u32_bit(x, 0),
        ),
        ArmBSOP::LSL_Reg(_) => lsl_reg_vc(x, rs & 0xFFu32, c),
        ArmBSOP::LSR_Reg(_) => lsr_reg_vc(x, rs & 0xFFu32, c),
        ArmBSOP::ASR_Reg(_) => asr_reg_vc(x, rs & 0xFFu32, c),
        ArmBSOP::ROR_Reg(_) => ror_reg_vc(x, rs & 0xFFu32, c),
    }
}

/// The value component alone of a shifter opcode's result.
pub open spec fn bsop_value_spec(op: ArmBSOP, x: u32, c: bool, rs: u32) -> u32 {
    bsop_vc(op, x, c, rs).0
}

impl ArmBSOP {
    /// Decodes a shift opcode from a 2-bit kind and an immediate shift
    /// amount, turning the encoded amount 0 into the special forms
    /// LSL #0 = identity, LSR #0 = LSR #32, ASR #0 = ASR #32, and
    /// ROR #0 = RRX.
    pub fn decode_immediate(op: u32, imm: u32) -> (r: ArmBSOP)
        requires
            imm < 32,
        ensures
            r == decode_immediate_spec(op, imm),
            bsop_wf(r),
    {
        match op & 0b11u32 {
            0u32 => if imm == 0 {
                ArmBSOP::NOP
            } else {
                ArmBSOP::LSL_Imm(imm)
            },
            1u32 => if imm == 0 {
                ArmBSOP::LSR_32
            } else {
                ArmBSOP::LSR_Imm(imm)
            },
            2u32 => if imm == 0 {
                ArmBSOP::ASR_32
            } else {
                ArmBSOP::ASR_Imm(imm)
            },
            _ => if imm == 0 {
                ArmBSOP::RRX
            } else {
                ArmBSOP::ROR_Imm(imm)
            },
        }
    }

    /// Decodes a shift opcode from a 2-bit kind and the index of the
    /// register that holds the shift amount.
    pub fn decode_register(op: u32, reg: usize) -> (r: ArmBSOP)
        requires
            reg < 16,
        ensures
            r == decode_register_spec(op, reg),
            bsop_wf(r),
    {
        match op & 0b11u32 {
            0u32 => ArmBSOP::LSL_Reg(reg),
            1u32 => ArmBSOP::LSR_Reg(reg),
            2u32 => ArmBSOP::ASR_Reg(reg),
            _ => ArmBSOP::ROR_Reg(reg),
        }
    }

    /// Gets the assembly name of the barrel shifter operation.
    pub fn name(&self) -> (r: &'static str) {
        match *self {
            ArmBSOP::LSR_Imm(_) | ArmBSOP::LSR_Reg(_) | ArmBSOP::LSR_32 => "lsr",
            ArmBSOP::ASR_Imm(_) | ArmBSOP::ASR_Reg(_) | ArmBSOP::ASR_32 => "asr",
            ArmBSOP::LSL_Imm(_) | ArmBSOP::LSL_Reg(_) => "lsl",
            ArmBSOP::ROR_Imm(_) | ArmBSOP::ROR_Reg(_) => "ror",
            ArmBSOP::RRX => "rrx",
            ArmBSOP::NOP => "",
        }
    }
}

/// The decode table for immediate shift amounts.
pub open spec fn decode_immediate_spec(op: u32, imm: u32) -> ArmBSOP {
    let k = op & 0b11u32;
    if k == 0 {
        if imm == 0 {
            ArmBSOP::NOP
        } else {
            ArmBSOP::LSL_Imm(imm)
        }
    } else if k == 1 {
        if imm == 0 {
            ArmBSOP::LSR_32
        } else {
            ArmBSOP::LSR_Imm(imm)
        }
    } else if k == 2 {
        if imm == 0 {
            ArmBSOP::ASR_32
        } else {
            ArmBSOP::ASR_Imm(imm)
        }
    } else {
        if imm == 0 {
            ArmBSOP::RRX
        } else {
            ArmBSOP::ROR_Imm(imm)
        }
    }
}

/// The decode table for register shift amounts.
pub open spec fn decode_register_spec(op: u32, reg: usize) -> ArmBSOP {
    let k = op & 0b11u32;
    if k == 0 {
        ArmBSOP::LSL_Reg(reg)
    } else if k == 1 {
        ArmBSOP::LSR_Reg(reg)
    } else if k == 2 {
        ArmBSOP::ASR_Reg(reg)
    } else {
        ArmBSOP::ROR_Reg(reg)
    }
}

/// Evaluates a shifter opcode: the shifted value and the carry it
/// shifts out. `rs` is the value of the shift-amount register for the
/// register forms; the other forms ignore it.
pub fn bsop_shift_carry(op: ArmBSOP, x: u32, c: bool, rs: u32) -> (r: (u32, bool))
    requires
        bsop_wf(op),
    ensures
        r == bsop_vc(op, x, c, rs),
{
    match op {
        ArmBSOP::NOP => (x, c),
        ArmBSOP::LSL_Imm(n) => (x << n, (x >> (32 - n)) & 1u32 == 1u32),
        ArmBSOP::LSR_Imm(n) => (x >> n, (x >> (n - 1)) & 1u32 == 1u32),
        ArmBSOP::ASR_Imm(n) => (asr32(x, n), (x >> (n - 1)) & 1u32 == 1u32),
        ArmBSOP::ROR_Imm(n) => (ror32(x, n), (x >> (n - 1)) & 1u32 == 1u32),
        ArmBSOP::LSR_32 => (0u32, (x >> 31u32) & 1u32 == 1u32),
        ArmBSOP::ASR_32 => (asr_all(x), (x >> 31u32) & 1u32 == 1u32),
        ArmBSOP::RRX => {
            let hi: u32 = if c {
                0x8000_0000u32
            } else {
                0u32
            };
            proof {
                lemma_shr_zero(x);
            }
            ((x >> 1u32) | hi, x & 1u32 == 1u32)
        },
        ArmBSOP::LSL_Reg(_) => lsl_shift_carry(x, rs & 0xFFu32, c),
        ArmBSOP::LSR_Reg(_) => lsr_shift_carry(x, rs & 0xFFu32, c),
        ArmBSOP::ASR_Reg(_) => asr_shift_carry(x, rs & 0xFFu32, c),
        ArmBSOP::ROR_Reg(_) => ror_shift_carry(x, rs & 0xFFu32, c),
    }
}

/// Evaluates a shifter opcode for its value alone.
pub fn bsop_shift_value(op: ArmBSOP, x: u32, c: bool, rs: u32) -> (r: u32)
    requires
        bsop_wf(op),
    ensures
        r == bsop_value_spec(op, x, c, rs),
{
    let (v, _) = bsop_shift_carry(op, x, c, rs);
    v
}

/// Logical shift left by a register amount, with the ARM edge table.
pub fn lsl_shift_carry(x: u32, r: u32, c: bool) -> (res: (u32, bool))
    ensures
        res == lsl_reg_vc(x, r, c),
{
    if r == 0 {
        (x, c)
    } else if r < 32 {
        (x << r, (x >> (32 - r)) & 1u32 == 1u32)
    } else if r == 32 {
        proof {
            lemma_shr_zero(x);
        }
        (0u32, x & 1u32 == 1u32)
    } else {
        (0u32, false)
    }
}

/// Logical shift right by a register amount, with the ARM edge table.
pub fn lsr_shift_carry(x: u32, r: u32, c: bool) -> (res: (u32, bool))
    ensures
        res == lsr_reg_vc(x, r, c),
{
    if r == 0 {
        (x, c)
    } else if r < 32 {
        (x >> r, (x >> (r - 1)) & 1u32 == 1u32)
    } else if r == 32 {
        (0u32, (x >> 31u32) & 1u32 == 1u32)
    } else {
        (0u32, false)
    }
}

/// Arithmetic shift right by a register amount, with the ARM edge table.
pub fn asr_shift_carry(x: u32, r: u32, c: bool) -> (res: (u32, bool))
    ensures
        res == asr_reg_vc(x, r, c),
{
    if r == 0 {
        (x, c)
    } else if r < 32 {
        (asr32(x, r), (x >> (r - 1)) & 1u32 == 1u32)
    } else {
        (asr_all(x), (x >> 31u32) & 1u32 == 1u32)
    }
}

/// Rotate right by a register amount, with the ARM edge table.
pub fn ror_shift_carry(x: u32, r: u32, c: bool) -> (res: (u32, bool))
    ensures
        res == ror_reg_vc(x, r, c),
{
    if r == 0 {
        (x, c)
    } else if r % 32 == 0 {
        (x, (x >> 31u32) & 1u32 == 1u32)
    } else {
        (ror32(x, r % 32), (x >> (r % 32 - 1)) & 1u32 == 1u32)
    }
}

/// For every input value and carry, LSL #0 (the NOP form) is the
/// identity on the value and preserves the carry, and ROR #0 decodes
/// to RRX, whose value and carry agree with rotating the 33-bit
/// quantity carry:value right by one.
pub proof fn lemma_shifter_identities(x: u32, c: bool, rs: u32)
    ensures
        bsop_vc(decode_immediate_spec(0, 0), x, c, rs) == (x, c),
        decode_immediate_spec(3, 0) == ArmBSOP::RRX,
        bsop_vc(ArmBSOP::RRX, x, c, rs).0 == (x >> 1u32) | (if c {
            0x8000_0000u32
        } else {
            0u32
        }),
        bsop_vc(ArmBSOP::RRX, x, c, rs).1 == u32_bit(x, 0),
{
    assert(0u32 & 0b11u32 == 0u32 && 3u32 & 0b11u32 == 3u32) by (bit_vector);
}

/// Shifting by 32 zeroes the value for LSL and LSR and exposes the
/// expected end bit as carry: bit 0 for LSL, bit 31 for LSR.
pub proof fn lemma_shift_by_32(x: u32, c: bool)
    ensures
        lsl_reg_vc(x, 32, c) == (0u32, u32_bit(x, 0)),
        lsr_reg_vc(x, 32, c) == (0u32, u32_bit(x, 31)),
        bsop_vc(ArmBSOP::LSR_32, x, c, 0) == (0u32, u32_bit(x, 31)),
{
}

} // verus!
