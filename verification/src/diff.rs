//! A diff of the ARM7TDMI's register state between two successive
//! steps: the debug front-end feeds it a CPU snapshot after every
//! step and renders the changed values.

use vstd::prelude::*;

use crate::arm7tdmi::Arm7Tdmi;
use crate::arminstruction::ArmInstruction;
use crate::psr::mode_index;
use crate::thumbinstruction::ThumbInstruction;

verus! {

/// The bitmap of registers whose values differ between two register
/// files, over bits `0..i`.
pub open spec fn diff_bits_below(o: Seq<u32>, n: Seq<u32>, i: int) -> u32
    decreases i,
{
    if i <= 0 {
        0u32
    } else if o[i - 1] != n[i - 1] {
        diff_bits_below(o, n, i - 1) | (1u32 << ((i - 1) as u32))
    } else {
        diff_bits_below(o, n, i - 1)
    }
}

/// A diff viewer for the ARM7TDMI: it keeps the previous and current
/// PSRs, the current registers with a changed-bits map, and the
/// pipeline latches, so a front-end can highlight what the last step
/// altered.
pub struct Arm7TdmiDiff {
    /// The CPSR before the most recent snapshot.
    pub cpsr_old: u32,
    /// The CPSR of the most recent snapshot.
    pub cpsr_new: u32,
    /// The current mode's SPSR before the most recent snapshot.
    pub spsr_old: u32,
    /// The current mode's SPSR of the most recent snapshot.
    pub spsr_new: u32,
    /// The registers of the most recent snapshot.
    pub gpr: [u32; 16],
    /// One bit per register that changed in the most recent snapshot.
    pub gpr_new: u32,
    /// The ARM fetch latch of the most recent snapshot.
    pub fetched_arm: u32,
    /// The ARM decode latch of the most recent snapshot.
    pub decoded_arm: ArmInstruction,
    /// The THUMB fetch latch of the most recent snapshot.
    pub fetched_thumb: u16,
    /// The THUMB decode latch of the most recent snapshot.
    pub decoded_thumb: ThumbInstruction,
    /// Whether a front-end should colourise differences.
    pub colour: bool,
}

impl Arm7TdmiDiff {
    /// Creates a default initialised diff.
    pub fn new() -> (r: Arm7TdmiDiff)
        ensures
            r.cpsr_old == 0xD3u32 && r.cpsr_new == 0xD3u32,
            r.spsr_old == 0xD3u32 && r.spsr_new == 0xD3u32,
            forall|i: int| 0 <= i < 16 ==> r.gpr@[i] == 0u32,
            r.gpr_new == 0,
            r.colour,
    {
        Arm7TdmiDiff {
            cpsr_old: 0xD3u32,
            cpsr_new: 0xD3u32,
            spsr_old: 0xD3u32,
            spsr_new: 0xD3u32,
            gpr: [0u32; 16],
            gpr_new: 0,
            fetched_arm: ArmInstruction::NOP_RAW,
            decoded_arm: ArmInstruction::nop(),
            fetched_thumb: ThumbInstruction::NOP_RAW,
            decoded_thumb: ThumbInstruction::nop(),
            colour: true,
        }
    }

    /// Configure whether a front-end should colourise differences.
    pub fn set_colourising(&mut self, c: bool)
        ensures
            *final(self) == (Arm7TdmiDiff { colour: c, ..*old(self) }),
    {
        self.colour = c;
    }

    /// Check whether differences are currently colourised.
    pub fn is_colourising(&self) -> (r: bool)
        ensures
            r == self.colour,
    {
        self.colour
    }

    /// Applies a new CPU snapshot to this diff, marking the changed
    /// registers in the bitmap and rolling the PSR history forward.
    pub fn diff(&mut self, cpu: &Arm7Tdmi)
        ensures
            final(self).cpsr_old == old(self).cpsr_new,
            final(self).spsr_old == old(self).spsr_new,
            final(self).cpsr_new == cpu@.cpsr,
            final(self).spsr_new == cpu@.spsr[mode_index(cpu@.mode)],
            final(self).gpr@ == cpu@.gpr,
            final(self).gpr_new == diff_bits_below(old(self).gpr@, cpu@.gpr, 16),
            final(self).fetched_arm == cpu@.fetched_arm,
            final(self).decoded_arm == cpu@.decoded_arm,
            final(self).fetched_thumb == cpu@.fetched_thumb,
            final(self).decoded_thumb == cpu@.decoded_thumb,
            final(self).colour == old(self).colour,
    {
        self.cpsr_old = self.cpsr_new;
        self.spsr_old = self.spsr_new;
        self.cpsr_new = cpu.cpsr.0;
        self.spsr_new = cpu.spsr[cpu.mode.index()];
        let mut m: u32 = 0;
        let mut i: usize = 0;
        while i < 16
            invariant
                i <= 16,
                m == diff_bits_below(old(self).gpr@, cpu@.gpr, i as int),
                forall|j: int| 0 <= j < i ==> self.gpr@[j] == cpu@.gpr[j],
                forall|j: int| i <= j < 16 ==> self.gpr@[j] == old(self).gpr@[j],
                self.cpsr_old == old(self).cpsr_new,
                self.spsr_old == old(self).spsr_new,
                self.cpsr_new == cpu@.cpsr,
                self.spsr_new == cpu@.spsr[mode_index(cpu@.mode)],
                self.colour == old(self).colour,
            decreases 16 - i,
        {
            if self.gpr[i] != cpu.gpr[i] {
                m = m | (1u32 << (i as u32));
                self.gpr[i] = cpu.gpr[i];
            }
            i = i + 1;
        }
        self.gpr_new = m;
        self.fetched_arm = cpu.fetched_arm;
        self.decoded_arm = cpu.decoded_arm;
        self.fetched_thumb = cpu.fetched_thumb;
        self.decoded_thumb = cpu.decoded_thumb;
        proof {
            assert(self.gpr@ =~= cpu@.gpr);
        }
    }
}

impl Default for Arm7TdmiDiff {
    /// A default initialised diff.
    fn default() -> (r: Arm7TdmiDiff) {
        Arm7TdmiDiff::new()
    }
}

} // verus!
