//! Word-level arithmetic for the 32-bit datapath: wrapping arithmetic,
//! rotations, arithmetic shifts, sign extension, and the carry and
//! overflow bits of the ALU's adder.

use vstd::prelude::*;
use vstd::arithmetic::div_mod::lemma_mod_add_multiples_vanish;

verus! {

/// A 32-bit word interpreted as a signed two's-complement integer.
pub open spec fn as_signed(x: u32) -> int {
    if x >= 0x8000_0000u32 {
        x - 0x1_0000_0000
    } else {
        x as int
    }
}

/// A 64-bit word interpreted as a signed two's-complement integer.
pub open spec fn as_signed64(x: u64) -> int {
    if x >= 0x8000_0000_0000_0000u64 {
        x - 0x1_0000_0000_0000_0000
    } else {
        x as int
    }
}

/// An integer reduced to a 32-bit word.
pub open spec fn wrap32(x: int) -> u32 {
    (x % 0x1_0000_0000) as u32
}

/// An integer reduced to a 64-bit word.
pub open spec fn wrap64(x: int) -> u64 {
    (x % 0x1_0000_0000_0000_0000) as u64
}

/// Folding one 64-bit addend modulo 2^64 before an addition does not
/// change the wrapped result.
pub proof fn lemma_wrap_fold64(x: int, y: int)
    ensures
        wrap64(x + wrap64(y)) == wrap64(x + y),
{
    vstd::arithmetic::div_mod::lemma_add_mod_noop_right(x, y, 0x1_0000_0000_0000_0000);
}

/// A word rotated right by `n` bit positions, `0 <= n < 32`.
pub open spec fn u32_ror(x: u32, n: u32) -> u32
    recommends
        n < 32,
{
    if n == 0 {
        x
    } else {
        (x >> n) | (x << (32 - n) as u32)
    }
}

/// A word shifted right arithmetically by `n` positions, `1 <= n < 32`:
/// the sign bit is broadcast into the vacated positions.
pub open spec fn u32_asr(x: u32, n: u32) -> u32
    recommends
        1 <= n < 32,
{
    if x & 0x8000_0000u32 != 0 {
        (x >> n) | (0xFFFF_FFFFu32 << (32 - n) as u32)
    } else {
        x >> n
    }
}

/// Addition modulo 2^32.
pub fn wadd(a: u32, b: u32) -> (r: u32)
    ensures
        r == wrap32(a + b),
{
    let s: u64 = (a as u64) + (b as u64);
    (s % 0x1_0000_0000u64) as u32
}

/// Subtraction modulo 2^32.
pub fn wsub(a: u32, b: u32) -> (r: u32)
    ensures
        r == wrap32(a - b),
{
    let s: u64 = ((a as u64) + 0x1_0000_0000u64) - (b as u64);
    proof {
        lemma_mod_add_multiples_vanish(a - b, 0x1_0000_0000);
    }
    (s % 0x1_0000_0000u64) as u32
}

/// Multiplication modulo 2^32.
pub fn wmul(a: u32, b: u32) -> (r: u32)
    ensures
        r == wrap32(a * b),
{
    proof {
        vstd::arithmetic::mul::lemma_mul_upper_bound(a as int, 0xFFFF_FFFF, b as int, 0xFFFF_FFFF);
    }
    let p: u64 = (a as u64) * (b as u64);
    (p % 0x1_0000_0000u64) as u32
}

/// 64-bit addition modulo 2^64.
pub fn wadd64(a: u64, b: u64) -> (r: u64)
    ensures
        r == (a + b) % 0x1_0000_0000_0000_0000,
{
    let s: u128 = (a as u128) + (b as u128);
    (s % 0x1_0000_0000_0000_0000u128) as u64
}

/// 64-bit multiplication modulo 2^64.
pub fn wmul64(a: u64, b: u64) -> (r: u64)
    ensures
        r == (a * b) % 0x1_0000_0000_0000_0000,
{
    proof {
        vstd::arithmetic::mul::lemma_mul_upper_bound(
            a as int,
            0xFFFF_FFFF_FFFF_FFFF,
            b as int,
            0xFFFF_FFFF_FFFF_FFFF,
        );
    }
    let p: u128 = (a as u128) * (b as u128);
    (p % 0x1_0000_0000_0000_0000u128) as u64
}

/// Rotates a word right by `n` bit positions, `n < 32`.
pub fn ror32(x: u32, n: u32) -> (r: u32)
    requires
        n < 32,
    ensures
        r == u32_ror(x, n),
{
    if n == 0 {
        x
    } else {
        (x >> n) | (x << (32 - n))
    }
}

/// Shifts a word right arithmetically by `n` positions, `1 <= n < 32`.
pub fn asr32(x: u32, n: u32) -> (r: u32)
    requires
        1 <= n < 32,
    ensures
        r == u32_asr(x, n),
{
    if x & 0x8000_0000u32 != 0 {
        (x >> n) | (0xFFFF_FFFFu32 << (32 - n))
    } else {
        x >> n
    }
}

/// A word with its sign bit broadcast everywhere: the result of an
/// arithmetic shift right by 32 or more positions.
pub open spec fn asr_broadcast(x: u32) -> u32 {
    if x & 0x8000_0000u32 != 0 {
        0xFFFF_FFFFu32
    } else {
        0u32
    }
}

/// Broadcasts the sign bit of a word into all positions.
pub fn asr_all(x: u32) -> (r: u32)
    ensures
        r == asr_broadcast(x),
{
    if x & 0x8000_0000u32 != 0 {
        0xFFFF_FFFFu32
    } else {
        0u32
    }
}

/// A byte sign-extended to 32 bits.
pub open spec fn sign_extend_8(x: u32) -> u32
    recommends
        x < 0x100,
{
    if x & 0x80u32 != 0 {
        x | 0xFFFF_FF00u32
    } else {
        x
    }
}

/// A halfword sign-extended to 32 bits.
pub open spec fn sign_extend_16(x: u32) -> u32
    recommends
        x < 0x1_0000,
{
    if x & 0x8000u32 != 0 {
        x | 0xFFFF_0000u32
    } else {
        x
    }
}

/// Sign-extends a byte to 32 bits.
pub fn sx8(x: u32) -> (r: u32)
    ensures
        r == sign_extend_8(x),
{
    if x & 0x80u32 != 0 {
        x | 0xFFFF_FF00u32
    } else {
        x
    }
}

/// Sign-extends a halfword to 32 bits.
pub fn sx16(x: u32) -> (r: u32)
    ensures
        r == sign_extend_16(x),
{
    if x & 0x8000u32 != 0 {
        x | 0xFFFF_0000u32
    } else {
        x
    }
}

/// A 32-bit word sign-extended to 64 bits.
pub open spec fn sign_extend_32_64(x: u32) -> u64 {
    if x & 0x8000_0000u32 != 0 {
        (x as u64) | 0xFFFF_FFFF_0000_0000u64
    } else {
        x as u64
    }
}

/// Sign-extends a 32-bit word to 64 bits.
pub fn sx32to64(x: u32) -> (r: u64)
    ensures
        r == sign_extend_32_64(x),
{
    if x & 0x8000_0000u32 != 0 {
        (x as u64) | 0xFFFF_FFFF_0000_0000u64
    } else {
        x as u64
    }
}

/// The sum, carry-out and signed-overflow bit of a 32-bit addition.
///
/// The carry is bit 32 of the exact unsigned sum; the overflow bit says
/// that the exact signed sum does not fit in 32 bits.
pub fn add_with_cv(a: u32, b: u32) -> (r: (u32, bool, bool))
    ensures
        r.0 == wrap32(a + b),
        r.1 == (a + b >= 0x1_0000_0000),
        r.2 == (as_signed(a) + as_signed(b) != as_signed(r.0)),
{
    let s: u64 = (a as u64) + (b as u64);
    let res: u32 = (s % 0x1_0000_0000u64) as u32;
    let c: bool = s >= 0x1_0000_0000u64;
    let sa: bool = a >= 0x8000_0000u32;
    let sb: bool = b >= 0x8000_0000u32;
    let sr: bool = res >= 0x8000_0000u32;
    let v: bool = (sa == sb) && (sr != sa);
    proof {
        assert(res == a + b || res == a + b - 0x1_0000_0000) by {
            if a + b < 0x1_0000_0000 {
                assert((a + b) % 0x1_0000_0000 == a + b) by {
                    vstd::arithmetic::div_mod::lemma_small_mod((a + b) as nat, 0x1_0000_0000nat);
                }
            } else {
                lemma_mod_add_multiples_vanish(a + b - 0x1_0000_0000, 0x1_0000_0000);
                assert((a + b - 0x1_0000_0000) % 0x1_0000_0000 == a + b - 0x1_0000_0000) by {
                    vstd::arithmetic::div_mod::lemma_small_mod(
                        (a + b - 0x1_0000_0000) as nat,
                        0x1_0000_0000nat,
                    );
                }
            }
        }
    }
    (res, c, v)
}

/// The difference, carry-out and signed-overflow bit of a 32-bit
/// subtraction `a - b`.
///
/// The carry bit is 1 exactly when no borrow occurs, that is when
/// `a >= b` as unsigned words.
pub fn sub_with_cv(a: u32, b: u32) -> (r: (u32, bool, bool))
    ensures
        r.0 == wrap32(a - b),
        r.1 == (a >= b),
        r.2 == (as_signed(a) - as_signed(b) != as_signed(r.0)),
{
    let s: u64 = ((a as u64) + 0x1_0000_0000u64) - (b as u64);
    let res: u32 = (s % 0x1_0000_0000u64) as u32;
    let c: bool = a >= b;
    let sa: bool = a >= 0x8000_0000u32;
    let sb: bool = b >= 0x8000_0000u32;
    let sr: bool = res >= 0x8000_0000u32;
    let v: bool = (sa != sb) && (sr == sb);
    proof {
        lemma_mod_add_multiples_vanish(a - b, 0x1_0000_0000);
        assert(res == a - b || res == a - b + 0x1_0000_0000) by {
            if a >= b {
                assert((a + 0x1_0000_0000 - b) % 0x1_0000_0000 == (a - b) % 0x1_0000_0000);
                assert((a - b) % 0x1_0000_0000 == a - b) by {
                    vstd::arithmetic::div_mod::lemma_small_mod((a - b) as nat, 0x1_0000_0000nat);
                }
            } else {
                assert((a + 0x1_0000_0000 - b) % 0x1_0000_0000 == a + 0x1_0000_0000 - b) by {
                    vstd::arithmetic::div_mod::lemma_small_mod(
                        (a + 0x1_0000_0000 - b) as nat,
                        0x1_0000_0000nat,
                    );
                }
            }
        }
    }
    (res, c, v)
}

} // verus!

verus! {

/// Bounds and sign facts for the bit fields the decoders extract.
/// Masking with an n-bit mask bounds a value below 2^n, and a set top
/// bit of a masked field bounds it from below.
pub proof fn lemma_mask_bounds(x: u32)
    ensures
        x & 0x3u32 < 4,
        x & 0x7u32 < 8,
        x & 0x7Fu32 < 0x80,
        x & 0xFu32 < 16,
        x & 0x1Fu32 < 32,
        x & 0xFFu32 < 0x100,
        x & 0x7FFu32 < 0x800,
        x & 0xFFFu32 < 0x1000,
        x & 0xFFFFu32 < 0x1_0000,
        x & 0xFF_FFFFu32 < 0x100_0000,
        x >> 28u32 < 16,
        (x >> 3u32) & 0x7u32 < 8,
        (x >> 5u32) & 0x3u32 < 4,
        (x >> 5u32) & 0x7u32 < 8,
        (x >> 6u32) & 0x7u32 < 8,
        (x >> 6u32) & 0xFu32 < 16,
        (x >> 6u32) & 0x1Fu32 < 32,
        (x >> 7u32) & 0x1Fu32 < 32,
        (x >> 8u32) & 0x3u32 < 4,
        (x >> 8u32) & 0x7u32 < 8,
        (x >> 8u32) & 0xFu32 < 16,
        (x >> 10u32) & 0x3u32 < 4,
        (x >> 11u32) & 0x3u32 < 4,
        (x >> 12u32) & 0xFu32 < 16,
        (x >> 16u32) & 0xFu32 < 16,
        (x >> 20u32) & 0xFu32 < 16,
        (x >> 21u32) & 0x7u32 < 8,
        (x >> 21u32) & 0xFu32 < 16,
        x & 0x80_0000u32 != 0 ==> x & 0xFF_FFFFu32 >= 0x80_0000,
        x & 0x80u32 != 0 ==> x & 0xFFu32 >= 0x80,
        x & 0x400u32 != 0 ==> x & 0x7FFu32 >= 0x400,
        x & 0x80_0000u32 == 0 ==> x & 0xFF_FFFFu32 < 0x80_0000,
        x & 0x80u32 == 0 ==> x & 0xFFu32 < 0x80,
        x & 0x400u32 == 0 ==> x & 0x7FFu32 < 0x400,
{
    assert(x & 0x3u32 < 4 && x & 0x7u32 < 8 && x & 0x7Fu32 < 0x80 && x & 0xFu32 < 16 && x & 0x1Fu32 < 32 && x & 0xFFu32
        < 0x100 && x & 0x7FFu32 < 0x800 && x & 0xFFFu32 < 0x1000 && x & 0xFFFFu32 < 0x1_0000 && x
        & 0xFF_FFFFu32 < 0x100_0000 && x >> 28u32 < 16 && (x >> 3u32) & 0x7u32 < 8 && (x >> 5u32)
        & 0x3u32 < 4 && (x >> 5u32) & 0x7u32 < 8 && (x >> 6u32) & 0x7u32 < 8 && (x >> 6u32)
        & 0xFu32 < 16 && (x >> 6u32) & 0x1Fu32 < 32 && (x >> 7u32) & 0x1Fu32 < 32 && (x >> 8u32)
        & 0x3u32 < 4 && (x >> 8u32) & 0x7u32 < 8 && (x >> 8u32) & 0xFu32 < 16 && (x >> 10u32)
        & 0x3u32 < 4 && (x >> 11u32) & 0x3u32 < 4 && (x >> 12u32) & 0xFu32 < 16 && (x >> 16u32)
        & 0xFu32 < 16 && (x >> 20u32) & 0xFu32 < 16 && (x >> 21u32) & 0x7u32 < 8 && (x >> 21u32)
        & 0xFu32 < 16 && (x & 0x80_0000u32 != 0 ==> x & 0xFF_FFFFu32 >= 0x80_0000) && (x & 0x80u32
        != 0 ==> x & 0xFFu32 >= 0x80) && (x & 0x400u32 != 0 ==> x & 0x7FFu32 >= 0x400) && (x
        & 0x80_0000u32 == 0 ==> x & 0xFF_FFFFu32 < 0x80_0000) && (x & 0x80u32 == 0 ==> x & 0xFFu32
        < 0x80) && (x & 0x400u32 == 0 ==> x & 0x7FFu32 < 0x400)) by (bit_vector);
}

} // verus!
