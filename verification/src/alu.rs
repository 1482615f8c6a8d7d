//! The data-processing ALU shared by the ARM and THUMB executors:
//! the sixteen operations with precise N/Z/C/V flag semantics.

use vstd::prelude::*;
use vstd::arithmetic::div_mod::{lemma_add_mod_noop_right, lemma_sub_mod_noop_right};

use crate::armdpop::{dpop_is_test, ArmDPOP};
use crate::bitutil::{add_with_cv, as_signed, sub_with_cv, wadd, wrap32, wsub};
use crate::psr::{c_flag, f_flag, i_flag, mode_of, n_flag, state_of, v_flag, z_flag, CPSR};

verus! {

/// The carry flag as an integer summand.
pub open spec fn carry_int(c: bool) -> int {
    if c {
        1
    } else {
        0
    }
}

/// The carry-out of a 32-bit addition: bit 32 of the exact sum.
pub open spec fn add_carry(a: u32, b: u32) -> bool {
    a + b >= 0x1_0000_0000
}

/// The signed-overflow bit of a 32-bit addition: the exact signed sum
/// does not fit in the result word.
pub open spec fn add_overflow(a: u32, b: u32) -> bool {
    as_signed(a) + as_signed(b) != as_signed(wrap32(a + b))
}

/// The carry-out of a 32-bit subtraction `a - b`: 1 exactly when no
/// borrow occurs.
pub open spec fn sub_carry(a: u32, b: u32) -> bool {
    a >= b
}

/// The signed-overflow bit of a 32-bit subtraction.
pub open spec fn sub_overflow(a: u32, b: u32) -> bool {
    as_signed(a) - as_signed(b) != as_signed(wrap32(a - b))
}

/// The 32-bit result of a data-processing operation, for every opcode
/// including the four tests (whose result only feeds the flags).
/// Arithmetic is two's-complement modulo 2^32; ADC adds the current
/// carry and SBC/RSC subtract `1 - carry`.
pub open spec fn dp_result(op: ArmDPOP, a: u32, b: u32, c: bool) -> u32 {
    match op {
        ArmDPOP::AND => a & b,
        ArmDPOP::EOR => a ^ b,
        ArmDPOP::SUB => wrap32(a - b),
        ArmDPOP::RSB => wrap32(b - a),
        ArmDPOP::ADD => wrap32(a + b),
        ArmDPOP::ADC => wrap32(a + b + carry_int(c)),
        ArmDPOP::SBC => wrap32(a - b - 1 + carry_int(c)),
        ArmDPOP::RSC => wrap32(b - a - 1 + carry_int(c)),
        ArmDPOP::TST => a & b,
        ArmDPOP::TEQ => a ^ b,
        ArmDPOP::CMP => wrap32(a - b),
        ArmDPOP::CMN => wrap32(a + b),
        ArmDPOP::ORR => a | b,
        ArmDPOP::MOV => b,
        ArmDPOP::BIC => a & !b,
        ArmDPOP::MVN => !b,
    }
}

/// The carry flag a flag-setting data-processing operation leaves:
/// the shifter's carry-out for logical opcodes, the adder's carry for
/// arithmetic ones. The carry feeds into the second operand first, so
/// that the carry is computed from the final comparison.
pub open spec fn dp_carry(op: ArmDPOP, a: u32, b: u32, c: bool, shift_carry: bool) -> bool {
    match op {
        ArmDPOP::SUB => sub_carry(a, b),
        ArmDPOP::CMP => sub_carry(a, b),
        ArmDPOP::RSB => sub_carry(b, a),
        ArmDPOP::ADD => add_carry(a, b),
        ArmDPOP::CMN => add_carry(a, b),
        ArmDPOP::ADC => add_carry(a, wrap32(b + carry_int(c))),
        ArmDPOP::SBC => sub_carry(a, wrap32(b + 1 - carry_int(c))),
        ArmDPOP::RSC => sub_carry(b, wrap32(a + 1 - carry_int(c))),
        _ => shift_carry,
    }
}

/// The overflow flag a flag-setting data-processing operation leaves:
/// preserved for logical opcodes, the adder's signed overflow for
/// arithmetic ones.
pub open spec fn dp_overflow(op: ArmDPOP, a: u32, b: u32, c: bool, v_old: bool) -> bool {
    match op {
        ArmDPOP::SUB => sub_overflow(a, b),
        ArmDPOP::CMP => sub_overflow(a, b),
        ArmDPOP::RSB => sub_overflow(b, a),
        ArmDPOP::ADD => add_overflow(a, b),
        ArmDPOP::CMN => add_overflow(a, b),
        ArmDPOP::ADC => add_overflow(a, wrap32(b + carry_int(c))),
        ArmDPOP::SBC => sub_overflow(a, wrap32(b + 1 - carry_int(c))),
        ArmDPOP::RSC => sub_overflow(b, wrap32(a + 1 - carry_int(c))),
        _ => v_old,
    }
}

/// Folding one addend modulo 2^32 before an addition or subtraction
/// does not change the wrapped result.
pub proof fn lemma_wrap_fold(x: int, y: int)
    ensures
        wrap32(x + wrap32(y)) == wrap32(x + y),
        wrap32(x - wrap32(y)) == wrap32(x - y),
{
    lemma_add_mod_noop_right(x, y, 0x1_0000_0000);
    lemma_sub_mod_noop_right(x, y, 0x1_0000_0000);
}

/// Computes the result of a data-processing operation without setting
/// any flags. The four test opcodes have no result to write back, so
/// they are not accepted here.
pub fn alu_data_processing(dpop: ArmDPOP, op1: u32, op2: u32, carry: bool) -> (r: u32)
    requires
        !dpop_is_test(dpop),
    ensures
        r == dp_result(dpop, op1, op2, carry),
{
    let cb: u32 = if carry {
        1
    } else {
        0
    };
    match dpop {
        ArmDPOP::AND => op1 & op2,
        ArmDPOP::EOR => op1 ^ op2,
        ArmDPOP::SUB => wsub(op1, op2),
        ArmDPOP::RSB => wsub(op2, op1),
        ArmDPOP::ADD => wadd(op1, op2),
        ArmDPOP::ADC => {
            let s = wadd(op1, op2);
            proof {
                lemma_wrap_fold(cb as int, op1 + op2);
            }
            wadd(s, cb)
        },
        ArmDPOP::SBC => {
            let s = wsub(op1, op2);
            proof {
                lemma_wrap_fold((cb - 1) as int, op1 - op2);
            }
            wsub(s, 1 - cb)
        },
        ArmDPOP::RSC => {
            let s = wsub(op2, op1);
            proof {
                lemma_wrap_fold((cb - 1) as int, op2 - op1);
            }
            wsub(s, 1 - cb)
        },
        // The tests are barred by the precondition; the arms only
        // keep the match total.
        ArmDPOP::TST => 0,
        ArmDPOP::TEQ => 0,
        ArmDPOP::CMP => 0,
        ArmDPOP::CMN => 0,
        ArmDPOP::ORR => op1 | op2,
        ArmDPOP::MOV => op2,
        ArmDPOP::BIC => op1 & !op2,
        ArmDPOP::MVN => !op2,
    }
}

/// Computes a data-processing operation and updates the four condition
/// flags in the PSR: N and Z from the result, C and V from the adder
/// for arithmetic opcodes, C from the shifter's carry-out and V
/// preserved for logical ones. Returns the result, or `None` for the
/// four test opcodes, which write no register.
pub fn alu_data_processing_flags(
    dpop: ArmDPOP,
    op1: u32,
    op2: u32,
    shift_carry: bool,
    cpsr: &mut CPSR,
) -> (r: Option<u32>)
    ensures
        ({
            let c0 = c_flag(old(cpsr).0);
            let v0 = v_flag(old(cpsr).0);
            let res = dp_result(dpop, op1, op2, c0);
            &&& r == (if dpop_is_test(dpop) {
                None::<u32>
            } else {
                Some(res)
            })
            &&& n_flag(final(cpsr).0) == (res >= 0x8000_0000u32)
            &&& z_flag(final(cpsr).0) == (res == 0)
            &&& c_flag(final(cpsr).0) == dp_carry(dpop, op1, op2, c0, shift_carry)
            &&& v_flag(final(cpsr).0) == dp_overflow(dpop, op1, op2, c0, v0)
            &&& final(cpsr).0 == crate::psr::psr_with_nzcv(
                old(cpsr).0,
                res >= 0x8000_0000u32,
                res == 0,
                dp_carry(dpop, op1, op2, c0, shift_carry),
                dp_overflow(dpop, op1, op2, c0, v0),
            )
            &&& i_flag(final(cpsr).0) == i_flag(old(cpsr).0)
            &&& f_flag(final(cpsr).0) == f_flag(old(cpsr).0)
            &&& state_of(final(cpsr).0) == state_of(old(cpsr).0)
            &&& mode_of(final(cpsr).0) == mode_of(old(cpsr).0)
        }),
{
    let c_in: bool = cpsr.C();
    let cb: u32 = if c_in {
        1
    } else {
        0
    };
    let mut cf: bool = shift_carry;
    let mut vf: bool = cpsr.V();

    let res: u32 = match dpop {
        ArmDPOP::AND | ArmDPOP::TST => op1 & op2,
        ArmDPOP::EOR | ArmDPOP::TEQ => op1 ^ op2,
        ArmDPOP::SUB | ArmDPOP::CMP => {
            let (x, c, v) = sub_with_cv(op1, op2);
            cf = c;
            vf = v;
            x
        },
        ArmDPOP::RSB => {
            let (x, c, v) = sub_with_cv(op2, op1);
            cf = c;
            vf = v;
            x
        },
        ArmDPOP::ADD | ArmDPOP::CMN => {
            let (x, c, v) = add_with_cv(op1, op2);
            cf = c;
            vf = v;
            x
        },
        ArmDPOP::ADC => {
            let b2 = wadd(op2, cb);
            let (x, c, v) = add_with_cv(op1, b2);
            proof {
                lemma_wrap_fold(op1 as int, op2 + cb);
            }
            cf = c;
            vf = v;
            x
        },
        ArmDPOP::SBC => {
            let b2 = wadd(op2, 1 - cb);
            let (x, c, v) = sub_with_cv(op1, b2);
            proof {
                lemma_wrap_fold(op1 as int, op2 + 1 - cb);
            }
            cf = c;
            vf = v;
            x
        },
        ArmDPOP::RSC => {
            let a2 = wadd(op1, 1 - cb);
            let (x, c, v) = sub_with_cv(op2, a2);
            proof {
                lemma_wrap_fold(op2 as int, op1 + 1 - cb);
            }
            cf = c;
            vf = v;
            x
        },
        ArmDPOP::ORR => op1 | op2,
        ArmDPOP::MOV => op2,
        ArmDPOP::BIC => op1 & !op2,
        ArmDPOP::MVN => !op2,
    };

    cpsr.set_N(res >= 0x8000_0000u32);
    cpsr.set_Z(res == 0);
    cpsr.set_C(cf);
    cpsr.set_V(vf);

    if dpop.is_test() {
        None
    } else {
        Some(res)
    }
}

} // verus!
