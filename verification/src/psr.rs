//! The Program Status Register (CPSR / SPSR) of the ARM7TDMI.
//!
//! A PSR is a 32-bit word: bit 31 N (sign), 30 Z (zero), 29 C (carry),
//! 28 V (overflow), bit 7 I (IRQ disable), 6 F (FIQ disable),
//! 5 T (state: 0 = ARM, 1 = THUMB), and bits 4..0 the mode pattern.
//! Bits 27..8 are reserved and must be preserved across writes.

use vstd::prelude::*;

use crate::error::GbaError;

verus! {

/// The CPU's instruction decoding states.
#[derive(Debug, PartialEq, Eq, Structural, Clone, Copy)]
pub enum State {
    /// Currently executing 32-bit ARM instructions.
    ARM,
    /// Currently executing 16-bit THUMB instructions.
    THUMB,
}

/// The CPU's different execution modes.
#[derive(Debug, PartialEq, Eq, Structural, Clone, Copy)]
pub enum Mode {
    /// CPU mode for running normal user code.
    User,
    /// CPU mode for handling fast interrupts.
    FIQ,
    /// CPU mode for handling normal interrupts.
    IRQ,
    /// CPU mode for executing supervisor code.
    Supervisor,
    /// CPU mode entered if memory lookups are aborted.
    Abort,
    /// CPU mode entered if executing an undefined instruction.
    Undefined,
    /// CPU mode for executing system code.
    System,
}

/// The N (sign) flag of a raw PSR word.
pub open spec fn n_flag(x: u32) -> bool {
    x & 0x8000_0000u32 != 0
}

/// The Z (zero) flag of a raw PSR word.
pub open spec fn z_flag(x: u32) -> bool {
    x & 0x4000_0000u32 != 0
}

/// The C (carry) flag of a raw PSR word.
pub open spec fn c_flag(x: u32) -> bool {
    x & 0x2000_0000u32 != 0
}

/// The V (overflow) flag of a raw PSR word.
pub open spec fn v_flag(x: u32) -> bool {
    x & 0x1000_0000u32 != 0
}

/// The I (IRQ disable) bit of a raw PSR word.
pub open spec fn i_flag(x: u32) -> bool {
    x & 0x80u32 != 0
}

/// The F (FIQ disable) bit of a raw PSR word.
pub open spec fn f_flag(x: u32) -> bool {
    x & 0x40u32 != 0
}

/// The state encoded by the T bit of a raw PSR word.
pub open spec fn state_of(x: u32) -> State {
    if x & 0x20u32 != 0 {
        State::THUMB
    } else {
        State::ARM
    }
}

/// The five mode bits of a raw PSR word.
pub open spec fn mode_pattern(x: u32) -> u32 {
    x & 0x1Fu32
}

/// The 5-bit pattern that encodes a mode in the PSR.
pub open spec fn mode_bits(m: Mode) -> u32 {
    match m {
        Mode::User => 0x10u32,
        Mode::FIQ => 0x11u32,
        Mode::IRQ => 0x12u32,
        Mode::Supervisor => 0x13u32,
        Mode::Abort => 0x17u32,
        Mode::Undefined => 0x1Bu32,
        Mode::System => 0x1Fu32,
    }
}

/// The mode encoded by a 5-bit pattern, if the pattern is legal.
pub open spec fn mode_from_pattern(b: u32) -> Option<Mode> {
    if b == 0x10u32 {
        Some(Mode::User)
    } else if b == 0x11u32 {
        Some(Mode::FIQ)
    } else if b == 0x12u32 {
        Some(Mode::IRQ)
    } else if b == 0x13u32 {
        Some(Mode::Supervisor)
    } else if b == 0x17u32 {
        Some(Mode::Abort)
    } else if b == 0x1Bu32 {
        Some(Mode::Undefined)
    } else if b == 0x1Fu32 {
        Some(Mode::System)
    } else {
        None
    }
}

/// The mode encoded by the low five bits of a raw PSR word.
pub open spec fn mode_of(x: u32) -> Option<Mode> {
    mode_from_pattern(mode_pattern(x))
}

/// The Current Program Status Register.
#[derive(Debug, PartialEq, Eq, Structural, Clone, Copy)]
pub struct CPSR(pub u32);

impl Mode {
    /// Converts this mode into a CPSR bit pattern.
    pub fn as_bits(self) -> (r: u32)
        ensures
            r == mode_bits(self),
    {
        match self {
            Mode::User => 0x10u32,
            Mode::FIQ => 0x11u32,
            Mode::IRQ => 0x12u32,
            Mode::Supervisor => 0x13u32,
            Mode::Abort => 0x17u32,
            Mode::Undefined => 0x1Bu32,
            Mode::System => 0x1Fu32,
        }
    }

    /// The ordinal of this mode, used to index per-mode register banks.
    pub fn index(self) -> (r: usize)
        ensures
            r == mode_index(self),
    {
        match self {
            Mode::User => 0usize,
            Mode::FIQ => 1usize,
            Mode::IRQ => 2usize,
            Mode::Supervisor => 3usize,
            Mode::Abort => 4usize,
            Mode::Undefined => 5usize,
            Mode::System => 6usize,
        }
    }
}

/// The ordinal of a mode: a bank index in 0..7.
pub open spec fn mode_index(m: Mode) -> int {
    match m {
        Mode::User => 0,
        Mode::FIQ => 1,
        Mode::IRQ => 2,
        Mode::Supervisor => 3,
        Mode::Abort => 4,
        Mode::Undefined => 5,
        Mode::System => 6,
    }
}

/// `set_mode` keeps everything but the mode bits, and afterwards the
/// mode bits read back as the mode that was written.
proof fn lemma_set_low5(x: u32, b: u32)
    requires
        b < 32,
    ensures
        ((x & !0x1Fu32) | b) & 0x1Fu32 == b,
        ((x & !0x1Fu32) | b) & !0x1Fu32 == x & !0x1Fu32,
        ((x & !0x1Fu32) | b) & 0x8000_0000u32 == x & 0x8000_0000u32,
        ((x & !0x1Fu32) | b) & 0x4000_0000u32 == x & 0x4000_0000u32,
        ((x & !0x1Fu32) | b) & 0x2000_0000u32 == x & 0x2000_0000u32,
        ((x & !0x1Fu32) | b) & 0x1000_0000u32 == x & 0x1000_0000u32,
        ((x & !0x1Fu32) | b) & 0x80u32 == x & 0x80u32,
        ((x & !0x1Fu32) | b) & 0x40u32 == x & 0x40u32,
        ((x & !0x1Fu32) | b) & 0x20u32 == x & 0x20u32,
{
    assert(b < 32 ==> ((x & !0x1Fu32) | b) & 0x1Fu32 == b
        && ((x & !0x1Fu32) | b) & !0x1Fu32 == x & !0x1Fu32
        && ((x & !0x1Fu32) | b) & 0x8000_0000u32 == x & 0x8000_0000u32
        && ((x & !0x1Fu32) | b) & 0x4000_0000u32 == x & 0x4000_0000u32
        && ((x & !0x1Fu32) | b) & 0x2000_0000u32 == x & 0x2000_0000u32
        && ((x & !0x1Fu32) | b) & 0x1000_0000u32 == x & 0x1000_0000u32
        && ((x & !0x1Fu32) | b) & 0x80u32 == x & 0x80u32
        && ((x & !0x1Fu32) | b) & 0x40u32 == x & 0x40u32
        && ((x & !0x1Fu32) | b) & 0x20u32 == x & 0x20u32) by (bit_vector);
}

/// Setting or clearing one mask bit group leaves every other bit group alone.
proof fn lemma_mask_update(x: u32, m: u32, o: u32)
    requires
        m & o == 0,
    ensures
        (x | m) & o == x & o,
        (x & !m) & o == x & o,
        (x | m) & m == m,
        (x & !m) & m == 0,
{
    assert(m & o == 0 ==> (x | m) & o == x & o && (x & !m) & o == x & o && (x | m) & m == m && (x
        & !m) & m == 0) by (bit_vector);
}

impl CPSR {
    /// Used to mask reserved bits away.
    pub const NON_RESERVED_MASK: u32 = 0xF000_00FFu32;

    /// Masks the flag bits of a PSR.
    pub const FLAGS_MASK: u32 = 0xF000_0000u32;

    /// Mode bits mask. Used to get the mode bits only.
    pub const MODE_MASK: u32 = 0x1Fu32;

    /// Bit pattern for user mode.
    pub const MODE_USER: u32 = 0x10u32;

    /// Bit pattern for FIQ mode.
    pub const MODE_FIQ: u32 = 0x11u32;

    /// Bit pattern for IRQ mode.
    pub const MODE_IRQ: u32 = 0x12u32;

    /// Bit pattern for supervisor mode.
    pub const MODE_SUPERVISOR: u32 = 0x13u32;

    /// Bit pattern for abort mode.
    pub const MODE_ABORT: u32 = 0x17u32;

    /// Bit pattern for undefined mode.
    pub const MODE_UNDEFINED: u32 = 0x1Bu32;

    /// Bit pattern for system mode.
    pub const MODE_SYSTEM: u32 = 0x1Fu32;

    /// Clears all reserved bits.
    pub fn clear_reserved_bits(&mut self)
        ensures
            final(self).0 == old(self).0 & 0xF000_00FFu32,
    {
        self.0 = self.0 & 0xF000_00FFu32;
    }

    /// Get the condition bits, laid out as `0b_NZCV`.
    pub fn condition_bits(&self) -> (r: u32)
        ensures
            r == self.0 >> 28u32,
    {
        self.0 >> 28u32
    }

    /// Converts the state bit to a state enum.
    pub fn state(&self) -> (r: State)
        ensures
            r == state_of(self.0),
    {
        if self.0 & 0x20u32 != 0 {
            State::THUMB
        } else {
            State::ARM
        }
    }

    /// Converts the mode bit pattern to a mode enum.
    ///
    /// An unknown pattern is reported as `InvalidPsrMode` so the host
    /// can stop stepping and dump state.
    pub fn mode(&self) -> (r: Result<Mode, GbaError>)
        ensures
            r == mode_result(self.0),
    {
        let b = self.0 & 0x1Fu32;
        if b == 0x10u32 {
            Ok(Mode::User)
        } else if b == 0x11u32 {
            Ok(Mode::FIQ)
        } else if b == 0x12u32 {
            Ok(Mode::IRQ)
        } else if b == 0x13u32 {
            Ok(Mode::Supervisor)
        } else if b == 0x17u32 {
            Ok(Mode::Abort)
        } else if b == 0x1Bu32 {
            Ok(Mode::Undefined)
        } else if b == 0x1Fu32 {
            Ok(Mode::System)
        } else {
            Err(GbaError::InvalidPsrMode)
        }
    }

    /// Sets or clears the state bit depending on the new state.
    pub fn set_state(&mut self, s: State)
        ensures
            final(self).0 == (old(self).0 & !0x20u32) | (if s is THUMB {
                0x20u32
            } else {
                0u32
            }),
            state_of(final(self).0) == s,
            final(self).0 & !0x20u32 == old(self).0 & !0x20u32,
            n_flag(final(self).0) == n_flag(old(self).0),
            z_flag(final(self).0) == z_flag(old(self).0),
            c_flag(final(self).0) == c_flag(old(self).0),
            v_flag(final(self).0) == v_flag(old(self).0),
            i_flag(final(self).0) == i_flag(old(self).0),
            f_flag(final(self).0) == f_flag(old(self).0),
            mode_of(final(self).0) == mode_of(old(self).0),
    {
        let ghost x = self.0;
        let bit: u32 = if s == State::THUMB {
            0x20u32
        } else {
            0u32
        };
        self.0 = (self.0 & !0x20u32) | bit;
        proof {
            assert((((x & !0x20u32) | 0x20u32) & 0x20u32 == 0x20u32) && (((x & !0x20u32) | 0u32)
                & 0x20u32 == 0u32) && (((x & !0x20u32) | 0x20u32) & !0x20u32 == x & !0x20u32) && (((
            x & !0x20u32) | 0u32) & !0x20u32 == x & !0x20u32) && (((x & !0x20u32) | 0x20u32)
                & 0x8000_0000u32 == x & 0x8000_0000u32) && (((x & !0x20u32) | 0u32)
                & 0x8000_0000u32 == x & 0x8000_0000u32) && (((x & !0x20u32) | 0x20u32)
                & 0x4000_0000u32 == x & 0x4000_0000u32) && (((x & !0x20u32) | 0u32)
                & 0x4000_0000u32 == x & 0x4000_0000u32) && (((x & !0x20u32) | 0x20u32)
                & 0x2000_0000u32 == x & 0x2000_0000u32) && (((x & !0x20u32) | 0u32)
                & 0x2000_0000u32 == x & 0x2000_0000u32) && (((x & !0x20u32) | 0x20u32)
                & 0x1000_0000u32 == x & 0x1000_0000u32) && (((x & !0x20u32) | 0u32)
                & 0x1000_0000u32 == x & 0x1000_0000u32) && (((x & !0x20u32) | 0x20u32) & 0x80u32 == x
                & 0x80u32) && (((x & !0x20u32) | 0u32) & 0x80u32 == x & 0x80u32) && (((x & !0x20u32)
                | 0x20u32) & 0x40u32 == x & 0x40u32) && (((x & !0x20u32) | 0u32) & 0x40u32 == x
                & 0x40u32) && (((x & !0x20u32) | 0x20u32) & 0x1Fu32 == x & 0x1Fu32) && (((x
                & !0x20u32) | 0u32) & 0x1Fu32 == x & 0x1Fu32)) by (bit_vector);
        }
    }

    /// Sets or clears the mode bits depending on the new mode.
    pub fn set_mode(&mut self, m: Mode)
        ensures
            final(self).0 == (old(self).0 & !0x1Fu32) | mode_bits(m),
            mode_of(final(self).0) == Some(m),
            final(self).0 & !0x1Fu32 == old(self).0 & !0x1Fu32,
            n_flag(final(self).0) == n_flag(old(self).0),
            z_flag(final(self).0) == z_flag(old(self).0),
            c_flag(final(self).0) == c_flag(old(self).0),
            v_flag(final(self).0) == v_flag(old(self).0),
            i_flag(final(self).0) == i_flag(old(self).0),
            f_flag(final(self).0) == f_flag(old(self).0),
            state_of(final(self).0) == state_of(old(self).0),
    {
        let ghost x = self.0;
        let bits = m.as_bits();
        self.0 = (self.0 & !0x1Fu32) | bits;
        proof {
            lemma_set_low5(x, mode_bits(m));
        }
    }

    /// Sets the IRQ disable bit.
    pub fn disable_irq(&mut self)
        ensures
            final(self).0 == old(self).0 | 0x80u32,
            i_flag(final(self).0),
            f_flag(final(self).0) == f_flag(old(self).0),
            n_flag(final(self).0) == n_flag(old(self).0),
            z_flag(final(self).0) == z_flag(old(self).0),
            c_flag(final(self).0) == c_flag(old(self).0),
            v_flag(final(self).0) == v_flag(old(self).0),
            state_of(final(self).0) == state_of(old(self).0),
            mode_of(final(self).0) == mode_of(old(self).0),
    {
        let ghost x = self.0;
        self.0 = self.0 | 0x80u32;
        proof {
            assert((x | 0x80u32) & 0x80u32 == 0x80u32 && (x | 0x80u32) & 0x40u32 == x & 0x40u32
                && (x | 0x80u32) & 0x8000_0000u32 == x & 0x8000_0000u32 && (x | 0x80u32)
                & 0x4000_0000u32 == x & 0x4000_0000u32 && (x | 0x80u32) & 0x2000_0000u32 == x
                & 0x2000_0000u32 && (x | 0x80u32) & 0x1000_0000u32 == x & 0x1000_0000u32 && (x
                | 0x80u32) & 0x20u32 == x & 0x20u32 && (x | 0x80u32) & 0x1Fu32 == x & 0x1Fu32)
                by (bit_vector);
        }
    }

    /// Sets the FIQ disable bit.
    pub fn disable_fiq(&mut self)
        ensures
            final(self).0 == old(self).0 | 0x40u32,
            f_flag(final(self).0),
            i_flag(final(self).0) == i_flag(old(self).0),
            n_flag(final(self).0) == n_flag(old(self).0),
            z_flag(final(self).0) == z_flag(old(self).0),
            c_flag(final(self).0) == c_flag(old(self).0),
            v_flag(final(self).0) == v_flag(old(self).0),
            state_of(final(self).0) == state_of(old(self).0),
            mode_of(final(self).0) == mode_of(old(self).0),
    {
        let ghost x = self.0;
        self.0 = self.0 | 0x40u32;
        proof {
            assert((x | 0x40u32) & 0x40u32 == 0x40u32 && (x | 0x40u32) & 0x80u32 == x & 0x80u32
                && (x | 0x40u32) & 0x8000_0000u32 == x & 0x8000_0000u32 && (x | 0x40u32)
                & 0x4000_0000u32 == x & 0x4000_0000u32 && (x | 0x40u32) & 0x2000_0000u32 == x
                & 0x2000_0000u32 && (x | 0x40u32) & 0x1000_0000u32 == x & 0x1000_0000u32 && (x
                | 0x40u32) & 0x20u32 == x & 0x20u32 && (x | 0x40u32) & 0x1Fu32 == x & 0x1Fu32)
                by (bit_vector);
        }
    }

    /// Clears the IRQ disable bit.
    pub fn enable_irq(&mut self)
        ensures
            final(self).0 == old(self).0 & !0x80u32,
            !i_flag(final(self).0),
            f_flag(final(self).0) == f_flag(old(self).0),
            n_flag(final(self).0) == n_flag(old(self).0),
            z_flag(final(self).0) == z_flag(old(self).0),
            c_flag(final(self).0) == c_flag(old(self).0),
            v_flag(final(self).0) == v_flag(old(self).0),
            state_of(final(self).0) == state_of(old(self).0),
            mode_of(final(self).0) == mode_of(old(self).0),
    {
        let ghost x = self.0;
        self.0 = self.0 & !0x80u32;
        proof {
            assert((x & !0x80u32) & 0x80u32 == 0u32 && (x & !0x80u32) & 0x40u32 == x & 0x40u32
                && (x & !0x80u32) & 0x8000_0000u32 == x & 0x8000_0000u32 && (x & !0x80u32)
                & 0x4000_0000u32 == x & 0x4000_0000u32 && (x & !0x80u32) & 0x2000_0000u32 == x
                & 0x2000_0000u32 && (x & !0x80u32) & 0x1000_0000u32 == x & 0x1000_0000u32 && (x
                & !0x80u32) & 0x20u32 == x & 0x20u32 && (x & !0x80u32) & 0x1Fu32 == x & 0x1Fu32)
                by (bit_vector);
        }
    }

    /// Clears the FIQ disable bit.
    pub fn enable_fiq(&mut self)
        ensures
            final(self).0 == old(self).0 & !0x40u32,
            !f_flag(final(self).0),
            i_flag(final(self).0) == i_flag(old(self).0),
            n_flag(final(self).0) == n_flag(old(self).0),
            z_flag(final(self).0) == z_flag(old(self).0),
            c_flag(final(self).0) == c_flag(old(self).0),
            v_flag(final(self).0) == v_flag(old(self).0),
            state_of(final(self).0) == state_of(old(self).0),
            mode_of(final(self).0) == mode_of(old(self).0),
    {
        let ghost x = self.0;
        self.0 = self.0 & !0x40u32;
        proof {
            assert((x & !0x40u32) & 0x40u32 == 0u32 && (x & !0x40u32) & 0x80u32 == x & 0x80u32
                && (x & !0x40u32) & 0x8000_0000u32 == x & 0x8000_0000u32 && (x & !0x40u32)
                & 0x4000_0000u32 == x & 0x4000_0000u32 && (x & !0x40u32) & 0x2000_0000u32 == x
                & 0x2000_0000u32 && (x & !0x40u32) & 0x1000_0000u32 == x & 0x1000_0000u32 && (x
                & !0x40u32) & 0x20u32 == x & 0x20u32 && (x & !0x40u32) & 0x1Fu32 == x & 0x1Fu32)
                by (bit_vector);
        }
    }

    /// Gets the current state of the IRQ disable bit.
    pub fn irq_disabled(&self) -> (r: bool)
        ensures
            r == i_flag(self.0),
    {
        0 != (self.0 & 0x80u32)
    }

    /// Gets the current state of the FIQ disable bit.
    pub fn fiq_disabled(&self) -> (r: bool)
        ensures
            r == f_flag(self.0),
    {
        0 != (self.0 & 0x40u32)
    }

    /// Gets the current state of the N bit.
    #[allow(non_snake_case)]
    pub fn N(self) -> (r: bool)
        ensures
            r == n_flag(self.0),
    {
        0 != (self.0 & 0x8000_0000u32)
    }

    /// Gets the current state of the Z bit.
    #[allow(non_snake_case)]
    pub fn Z(self) -> (r: bool)
        ensures
            r == z_flag(self.0),
    {
        0 != (self.0 & 0x4000_0000u32)
    }

    /// Gets the current state of the C bit.
    #[allow(non_snake_case)]
    pub fn C(self) -> (r: bool)
        ensures
            r == c_flag(self.0),
    {
        0 != (self.0 & 0x2000_0000u32)
    }

    /// Gets the current state of the V bit.
    #[allow(non_snake_case)]
    pub fn V(self) -> (r: bool)
        ensures
            r == v_flag(self.0),
    {
        0 != (self.0 & 0x1000_0000u32)
    }

    /// Set the new state of the N bit.
    #[allow(non_snake_case)]
    pub fn set_N(&mut self, n: bool)
        ensures
            final(self).0 == set_flag_spec(old(self).0, 0x8000_0000u32, n),
            n_flag(final(self).0) == n,
            z_flag(final(self).0) == z_flag(old(self).0),
            c_flag(final(self).0) == c_flag(old(self).0),
            v_flag(final(self).0) == v_flag(old(self).0),
            i_flag(final(self).0) == i_flag(old(self).0),
            f_flag(final(self).0) == f_flag(old(self).0),
            state_of(final(self).0) == state_of(old(self).0),
            mode_of(final(self).0) == mode_of(old(self).0),
    {
        let ghost x = self.0;
        if n {
            self.0 = self.0 | 0x8000_0000u32;
        } else {
            self.0 = self.0 & !0x8000_0000u32;
        }
        proof {
            lemma_flag_update(x, 0x8000_0000u32);
        }
    }

    /// Set the new state of the Z bit.
    #[allow(non_snake_case)]
    pub fn set_Z(&mut self, n: bool)
        ensures
            final(self).0 == set_flag_spec(old(self).0, 0x4000_0000u32, n),
            z_flag(final(self).0) == n,
            n_flag(final(self).0) == n_flag(old(self).0),
            c_flag(final(self).0) == c_flag(old(self).0),
            v_flag(final(self).0) == v_flag(old(self).0),
            i_flag(final(self).0) == i_flag(old(self).0),
            f_flag(final(self).0) == f_flag(old(self).0),
            state_of(final(self).0) == state_of(old(self).0),
            mode_of(final(self).0) == mode_of(old(self).0),
    {
        let ghost x = self.0;
        if n {
            self.0 = self.0 | 0x4000_0000u32;
        } else {
            self.0 = self.0 & !0x4000_0000u32;
        }
        proof {
            lemma_flag_update(x, 0x4000_0000u32);
        }
    }

    /// Set the new state of the C bit.
    #[allow(non_snake_case)]
    pub fn set_C(&mut self, n: bool)
        ensures
            final(self).0 == set_flag_spec(old(self).0, 0x2000_0000u32, n),
            c_flag(final(self).0) == n,
            n_flag(final(self).0) == n_flag(old(self).0),
            z_flag(final(self).0) == z_flag(old(self).0),
            v_flag(final(self).0) == v_flag(old(self).0),
            i_flag(final(self).0) == i_flag(old(self).0),
            f_flag(final(self).0) == f_flag(old(self).0),
            state_of(final(self).0) == state_of(old(self).0),
            mode_of(final(self).0) == mode_of(old(self).0),
    {
        let ghost x = self.0;
        if n {
            self.0 = self.0 | 0x2000_0000u32;
        } else {
            self.0 = self.0 & !0x2000_0000u32;
        }
        proof {
            lemma_flag_update(x, 0x2000_0000u32);
        }
    }

    /// Set the new state of the V bit.
    #[allow(non_snake_case)]
    pub fn set_V(&mut self, n: bool)
        ensures
            final(self).0 == set_flag_spec(old(self).0, 0x1000_0000u32, n),
            v_flag(final(self).0) == n,
            n_flag(final(self).0) == n_flag(old(self).0),
            z_flag(final(self).0) == z_flag(old(self).0),
            c_flag(final(self).0) == c_flag(old(self).0),
            i_flag(final(self).0) == i_flag(old(self).0),
            f_flag(final(self).0) == f_flag(old(self).0),
            state_of(final(self).0) == state_of(old(self).0),
            mode_of(final(self).0) == mode_of(old(self).0),
    {
        let ghost x = self.0;
        if n {
            self.0 = self.0 | 0x1000_0000u32;
        } else {
            self.0 = self.0 & !0x1000_0000u32;
        }
        proof {
            lemma_flag_update(x, 0x1000_0000u32);
        }
    }

    /// Overrides the PSR without modifying reserved bits.
    pub fn override_non_reserved(&mut self, x: u32)
        ensures
            final(self).0 == override_masked_spec(old(self).0, x, 0xF000_00FFu32),
    {
        self.0 = (x & 0xF000_00FFu32) | (self.0 & !0xF000_00FFu32);
    }

    /// Overrides the flag bits (31..28) of the PSR by masking the given value.
    pub fn override_flags(&mut self, x: u32)
        ensures
            final(self).0 == override_masked_spec(old(self).0, x, 0xF000_0000u32),
            i_flag(final(self).0) == i_flag(old(self).0),
            f_flag(final(self).0) == f_flag(old(self).0),
            state_of(final(self).0) == state_of(old(self).0),
            mode_of(final(self).0) == mode_of(old(self).0),
            n_flag(final(self).0) == n_flag(x),
            z_flag(final(self).0) == z_flag(x),
            c_flag(final(self).0) == c_flag(x),
            v_flag(final(self).0) == v_flag(x),
    {
        let ghost o = self.0;
        self.0 = (x & 0xF000_0000u32) | (self.0 & !0xF000_0000u32);
        proof {
            assert(((x & 0xF000_0000u32) | (o & !0xF000_0000u32)) & 0x80u32 == o & 0x80u32 && ((x
                & 0xF000_0000u32) | (o & !0xF000_0000u32)) & 0x40u32 == o & 0x40u32 && ((x
                & 0xF000_0000u32) | (o & !0xF000_0000u32)) & 0x20u32 == o & 0x20u32 && ((x
                & 0xF000_0000u32) | (o & !0xF000_0000u32)) & 0x1Fu32 == o & 0x1Fu32 && ((x
                & 0xF000_0000u32) | (o & !0xF000_0000u32)) & 0x8000_0000u32 == x & 0x8000_0000u32
                && ((x & 0xF000_0000u32) | (o & !0xF000_0000u32)) & 0x4000_0000u32 == x
                & 0x4000_0000u32 && ((x & 0xF000_0000u32) | (o & !0xF000_0000u32))
                & 0x2000_0000u32 == x & 0x2000_0000u32 && ((x & 0xF000_0000u32) | (o
                & !0xF000_0000u32)) & 0x1000_0000u32 == x & 0x1000_0000u32) by (bit_vector);
        }
    }
}

/// A raw PSR with one flag bit forced to a given value.
pub open spec fn set_flag_spec(x: u32, mask: u32, on: bool) -> u32 {
    if on {
        x | mask
    } else {
        x & !mask
    }
}

/// A raw PSR with all four condition flags forced to given values.
pub open spec fn psr_with_nzcv(x: u32, n: bool, z: bool, c: bool, v: bool) -> u32 {
    set_flag_spec(
        set_flag_spec(set_flag_spec(set_flag_spec(x, 0x8000_0000u32, n), 0x4000_0000u32, z), 0x2000_0000u32, c),
        0x1000_0000u32,
        v,
    )
}

/// A raw PSR whose bits under `mask` come from `val` and whose other
/// bits come from `x`.
pub open spec fn override_masked_spec(x: u32, val: u32, mask: u32) -> u32 {
    (val & mask) | (x & !mask)
}

/// The result of reading the mode field: the mode, or `InvalidPsrMode`
/// where the pattern is not in the mode table.
pub open spec fn mode_result(x: u32) -> Result<Mode, GbaError> {
    match mode_of(x) {
        Some(m) => Ok(m),
        None => Err(GbaError::InvalidPsrMode),
    }
}

/// Writing one of the single-bit flags touches nothing else.
proof fn lemma_flag_update(x: u32, m: u32)
    requires
        m == 0x8000_0000u32 || m == 0x4000_0000u32 || m == 0x2000_0000u32 || m == 0x1000_0000u32,
    ensures
        forall|o: u32| #[trigger] (m & o) == 0 ==> (x | m) & o == x & o && (x & !m) & o == x & o,
        (x | m) & m == m,
        (x & !m) & m == 0,
        m & 0x8000_0000u32 == 0 || m == 0x8000_0000u32,
        m & 0x4000_0000u32 == 0 || m == 0x4000_0000u32,
        m & 0x2000_0000u32 == 0 || m == 0x2000_0000u32,
        m & 0x1000_0000u32 == 0 || m == 0x1000_0000u32,
        m & 0x80u32 == 0,
        m & 0x40u32 == 0,
        m & 0x20u32 == 0,
        m & 0x1Fu32 == 0,
{
    assert forall|o: u32| #[trigger] (m & o) == 0 implies (x | m) & o == x & o && (x & !m) & o == x
        & o by {
        lemma_mask_update(x, m, o);
    }
    assert((x | m) & m == m && (x & !m) & m == 0) by (bit_vector);
    assert((m == 0x8000_0000u32 || m == 0x4000_0000u32 || m == 0x2000_0000u32 || m
        == 0x1000_0000u32) ==> (m & 0x8000_0000u32 == 0 || m == 0x8000_0000u32) && (m
        & 0x4000_0000u32 == 0 || m == 0x4000_0000u32) && (m & 0x2000_0000u32 == 0 || m
        == 0x2000_0000u32) && (m & 0x1000_0000u32 == 0 || m == 0x1000_0000u32) && m & 0x80u32 == 0
        && m & 0x40u32 == 0 && m & 0x20u32 == 0 && m & 0x1Fu32 == 0) by (bit_vector);
}

impl Default for CPSR {
    /// A freshly reset PSR: Supervisor mode, ARM state, IRQ and FIQ disabled.
    fn default() -> (r: CPSR)
        ensures
            r.0 == 0xD3u32,
    {
        CPSR(0xD3u32)
    }
}

/// For every CPSR value and every mode, writing the mode and reading it
/// back yields that same mode: `mode()` is the inverse of `set_mode()`.
pub proof fn lemma_mode_set_mode_inverse(x: u32, m: Mode)
    ensures
        mode_of((x & !0x1Fu32) | mode_bits(m)) == Some(m),
        mode_result((x & !0x1Fu32) | mode_bits(m)) == Ok::<Mode, GbaError>(m),
{
    lemma_set_low5(x, mode_bits(m));
}

} // verus!
