//! The ARM7TDMI CPU core: the register file with its per-mode banks,
//! the two pipeline latch pairs, the mode-change machinery and the
//! exception entry sequence.

use vstd::prelude::*;

use crate::arminstruction::ArmInstruction;
use crate::exception::{exception_index, exception_mode, Exception};
use crate::psr::{mode_bits, mode_index, Mode, State, CPSR};
use crate::thumbinstruction::ThumbInstruction;

verus! {

/// Decides what the CPU should do after executing an instruction.
#[derive(Debug, PartialEq, Eq, Structural, Clone, Copy)]
pub enum CpuAction {
    /// Continue execution normally: advance PC by one instruction.
    Advance,
    /// PC has changed; don't modify it, flush the pipeline.
    FlushPipeline,
}

/// Implements the state of an ARM7TDMI CPU.
pub struct Arm7Tdmi {
    /// The sixteen general-purpose registers of the active mode.
    pub gpr: [u32; 16],
    /// The current program status register.
    pub cpsr: CPSR,
    /// The saved program status registers, one slot per mode ordinal.
    pub spsr: [u32; 7],
    /// The ARM pipeline latch: the previously fetched word.
    pub fetched_arm: u32,
    /// The ARM pipeline latch: the previously decoded instruction.
    pub decoded_arm: ArmInstruction,
    /// The THUMB pipeline latch: the previously fetched halfword.
    pub fetched_thumb: u16,
    /// The THUMB pipeline latch: the previously decoded instruction.
    pub decoded_thumb: ThumbInstruction,
    /// The FIQ bank for R8..R12.
    pub gpr_r8_r12_fiq: [u32; 5],
    /// The shared non-FIQ bank for R8..R12.
    pub gpr_r8_r12_other: [u32; 5],
    /// The per-mode bank for R13.
    pub gpr_r13_all: [u32; 7],
    /// The per-mode bank for R14.
    pub gpr_r14_all: [u32; 7],
    /// The active mode, which decides which banks are live.
    pub mode: Mode,
    /// The active instruction decoding state.
    pub state: State,
    /// Cached IRQ-disable setting.
    pub irq_disable: bool,
    /// Cached FIQ-disable setting.
    pub fiq_disable: bool,
    /// Whether SWI should prefer optimised handlers over BIOS code.
    pub optimise_swi: bool,
    /// Wait states left before the next pipeline step does work.
    pub delay_cycles: u8,
}

/// The CPU's state as plain mathematical values.
pub struct CpuView {
    /// The sixteen general-purpose registers.
    pub gpr: Seq<u32>,
    /// The raw CPSR word.
    pub cpsr: u32,
    /// The seven raw SPSR words, indexed by mode ordinal.
    pub spsr: Seq<u32>,
    /// The ARM fetch latch.
    pub fetched_arm: u32,
    /// The ARM decode latch.
    pub decoded_arm: ArmInstruction,
    /// The THUMB fetch latch.
    pub fetched_thumb: u16,
    /// The THUMB decode latch.
    pub decoded_thumb: ThumbInstruction,
    /// The FIQ bank for R8..R12.
    pub fiq_bank: Seq<u32>,
    /// The shared non-FIQ bank for R8..R12.
    pub other_bank: Seq<u32>,
    /// The per-mode bank for R13.
    pub r13_bank: Seq<u32>,
    /// The per-mode bank for R14.
    pub r14_bank: Seq<u32>,
    /// The active mode.
    pub mode: Mode,
    /// The active decoding state.
    pub state: State,
    /// Cached IRQ-disable setting.
    pub irq_disable: bool,
    /// Cached FIQ-disable setting.
    pub fiq_disable: bool,
    /// Whether SWI prefers optimised handlers.
    pub optimise_swi: bool,
    /// Remaining wait states.
    pub delay_cycles: u8,
}

impl View for Arm7Tdmi {
    type V = CpuView;

    open spec fn view(&self) -> CpuView {
        CpuView {
            gpr: self.gpr@,
            cpsr: self.cpsr.0,
            spsr: self.spsr@,
            fetched_arm: self.fetched_arm,
            decoded_arm: self.decoded_arm,
            fetched_thumb: self.fetched_thumb,
            decoded_thumb: self.decoded_thumb,
            fiq_bank: self.gpr_r8_r12_fiq@,
            other_bank: self.gpr_r8_r12_other@,
            r13_bank: self.gpr_r13_all@,
            r14_bank: self.gpr_r14_all@,
            mode: self.mode,
            state: self.state,
            irq_disable: self.irq_disable,
            fiq_disable: self.fiq_disable,
            optimise_swi: self.optimise_swi,
            delay_cycles: self.delay_cycles,
        }
    }
}

/// The effect of the mode-change procedure on the register file:
/// the live R13/R14 are stored into the old mode's bank slots, the new
/// mode's slots become live, R8..R12 swap with the FIQ bank when
/// exactly one of the two modes is FIQ, and the CPSR mode bits change.
pub open spec fn change_mode_spec(c: CpuView, nm: Mode) -> CpuView {
    let cmi = mode_index(c.mode);
    let nmi = mode_index(nm);
    let r13b = c.r13_bank.update(cmi, c.gpr[13]);
    let r14b = c.r14_bank.update(cmi, c.gpr[14]);
    let gpr1 = c.gpr.update(13, r13b[nmi]).update(14, r14b[nmi]);
    let gpr2 = if nm is FIQ && !(c.mode is FIQ) {
        bank_into_regs(gpr1, c.fiq_bank)
    } else if c.mode is FIQ && !(nm is FIQ) {
        bank_into_regs(gpr1, c.other_bank)
    } else {
        gpr1
    };
    let fiqb = if c.mode is FIQ && !(nm is FIQ) {
        regs_into_bank(gpr1)
    } else {
        c.fiq_bank
    };
    let otherb = if nm is FIQ && !(c.mode is FIQ) {
        regs_into_bank(gpr1)
    } else {
        c.other_bank
    };
    CpuView {
        gpr: gpr2,
        cpsr: (c.cpsr & !0x1Fu32) | mode_bits(nm),
        fiq_bank: fiqb,
        other_bank: otherb,
        r13_bank: r13b,
        r14_bank: r14b,
        mode: nm,
        ..c
    }
}

/// A register file with R8..R12 replaced from a five-entry bank.
pub open spec fn bank_into_regs(gpr: Seq<u32>, bank: Seq<u32>) -> Seq<u32> {
    gpr.update(8, bank[0]).update(9, bank[1]).update(10, bank[2]).update(11, bank[3]).update(
        12,
        bank[4],
    )
}

/// The five-entry bank holding a register file's R8..R12.
pub open spec fn regs_into_bank(gpr: Seq<u32>) -> Seq<u32> {
    seq![gpr[8], gpr[9], gpr[10], gpr[11], gpr[12]]
}

/// The effect of taking an exception: the return address is recorded,
/// the target mode's banks become live, the old CPSR is saved into the
/// new mode's SPSR, the state is forced to ARM with IRQs disabled (and
/// FIQs too, for Reset and FastInterrupt), PC jumps to the vector, and
/// the pipeline is flushed.
pub open spec fn exception_spec(c: CpuView, e: Exception) -> CpuView {
    let nm = exception_mode(e);
    let c1 = change_mode_spec(c, nm);
    let cpsr1 = (c1.cpsr & !0x20u32) | 0x80u32;
    let cpsr2 = if e is Reset || e is FastInterrupt {
        cpsr1 | 0x40u32
    } else {
        cpsr1
    };
    CpuView {
        gpr: c1.gpr.update(14, c.gpr[15]).update(15, (4 * exception_index(e)) as u32),
        spsr: c1.spsr.update(mode_index(nm), c.cpsr),
        cpsr: cpsr2,
        state: State::ARM,
        fetched_arm: 0x01A0_0000u32,
        decoded_arm: ArmInstruction { raw: 0x01A0_0000u32, op: crate::arminstruction::ArmOpcode::DataProcessing },
        fetched_thumb: 0x46C0u16,
        decoded_thumb: ThumbInstruction {
            raw: 0x46C0u16,
            op: crate::thumbinstruction::ThumbOpcode::HiRegOpBx,
        },
        ..c1
    }
}

/// The state of a freshly reset CPU: all general-purpose registers
/// zero, Supervisor mode, ARM state, IRQ and FIQ disabled, a flushed
/// pipeline, and the banks left as they were.
pub open spec fn reset_spec(c: CpuView) -> CpuView {
    CpuView {
        gpr: Seq::new(16, |i: int| 0u32),
        cpsr: 0xD3u32,
        mode: Mode::Supervisor,
        state: State::ARM,
        irq_disable: true,
        fiq_disable: true,
        fetched_arm: 0x01A0_0000u32,
        decoded_arm: ArmInstruction { raw: 0x01A0_0000u32, op: crate::arminstruction::ArmOpcode::DataProcessing },
        fetched_thumb: 0x46C0u16,
        decoded_thumb: ThumbInstruction {
            raw: 0x46C0u16,
            op: crate::thumbinstruction::ThumbOpcode::HiRegOpBx,
        },
        ..c
    }
}

/// Bitwise or with zero changes nothing.
proof fn lemma_or_zero(x: u32)
    ensures
        x | 0u32 == x,
{
    assert(x | 0u32 == x) by (bit_vector);
}

impl Arm7Tdmi {
    /// Register index for the stack pointer. May be used as a GPR in
    /// ARM state.
    pub const SP: usize = 13;

    /// Register index for the link register, which usually holds a
    /// return address.
    pub const LR: usize = 14;

    /// Register index for the program counter. Reading PC observes an
    /// address two instruction widths beyond the executing
    /// instruction, reflecting the pipeline's fetch stage.
    pub const PC: usize = 15;

    /// Creates a new CPU where all registers are zeroed.
    pub fn new() -> (r: Arm7Tdmi)
        ensures
            r@.gpr == Seq::new(16, |i: int| 0u32),
            r@.cpsr == 0xD3u32,
            r@.spsr == Seq::new(7, |i: int| 0u32),
            r@.fiq_bank == Seq::new(5, |i: int| 0u32),
            r@.other_bank == Seq::new(5, |i: int| 0u32),
            r@.r13_bank == Seq::new(7, |i: int| 0u32),
            r@.r14_bank == Seq::new(7, |i: int| 0u32),
            r@.mode is Supervisor,
            r@.state is ARM,
            r@.fetched_arm == 0x01A0_0000u32,
            r@.decoded_arm == (ArmInstruction {
                raw: 0x01A0_0000u32,
                op: crate::arminstruction::ArmOpcode::DataProcessing,
            }),
            r@.fetched_thumb == 0x46C0u16,
            r@.decoded_thumb == (ThumbInstruction {
                raw: 0x46C0u16,
                op: crate::thumbinstruction::ThumbOpcode::HiRegOpBx,
            }),
            !r@.irq_disable && !r@.fiq_disable && !r@.optimise_swi,
            r@.delay_cycles == 0,
    {
        let r = Arm7Tdmi {
            gpr: [0u32; 16],
            cpsr: CPSR(0xD3u32),
            spsr: [0u32; 7],
            fetched_arm: ArmInstruction::NOP_RAW,
            decoded_arm: ArmInstruction::nop(),
            fetched_thumb: ThumbInstruction::NOP_RAW,
            decoded_thumb: ThumbInstruction::nop(),
            gpr_r8_r12_fiq: [0u32; 5],
            gpr_r8_r12_other: [0u32; 5],
            gpr_r13_all: [0u32; 7],
            gpr_r14_all: [0u32; 7],
            mode: Mode::Supervisor,
            state: State::ARM,
            irq_disable: false,
            fiq_disable: false,
            optimise_swi: false,
            delay_cycles: 0,
        };
        proof {
            assert(r@.gpr =~= Seq::new(16, |i: int| 0u32));
            assert(r@.spsr =~= Seq::new(7, |i: int| 0u32));
            assert(r@.fiq_bank =~= Seq::new(5, |i: int| 0u32));
            assert(r@.other_bank =~= Seq::new(5, |i: int| 0u32));
            assert(r@.r13_bank =~= Seq::new(7, |i: int| 0u32));
            assert(r@.r14_bank =~= Seq::new(7, |i: int| 0u32));
        }
        r
    }

    /// Takes a snapshot of the complete CPU state: registers, status
    /// words, banks, pipeline latches and settings. Together with the
    /// bus contents it forms a save-state.
    pub fn snapshot(&self) -> (r: Arm7Tdmi)
        ensures
            r@ == self@,
    {
        Arm7Tdmi {
            gpr: self.gpr,
            cpsr: self.cpsr,
            spsr: self.spsr,
            fetched_arm: self.fetched_arm,
            decoded_arm: self.decoded_arm,
            fetched_thumb: self.fetched_thumb,
            decoded_thumb: self.decoded_thumb,
            gpr_r8_r12_fiq: self.gpr_r8_r12_fiq,
            gpr_r8_r12_other: self.gpr_r8_r12_other,
            gpr_r13_all: self.gpr_r13_all,
            gpr_r14_all: self.gpr_r14_all,
            mode: self.mode,
            state: self.state,
            irq_disable: self.irq_disable,
            fiq_disable: self.fiq_disable,
            optimise_swi: self.optimise_swi,
            delay_cycles: self.delay_cycles,
        }
    }

    /// Checks whether optimising BIOS functions is enabled.
    pub fn is_swi_optimised(&self) -> (r: bool)
        ensures
            r == self@.optimise_swi,
    {
        self.optimise_swi
    }

    /// Configures whether SWI should call optimised handlers instead
    /// of emulating the BIOS routines.
    pub fn set_swi_optimised(&mut self, optimise: bool)
        ensures
            final(self)@ == (CpuView { optimise_swi: optimise, ..old(self)@ }),
    {
        self.optimise_swi = optimise;
    }

    /// Resets the CPU: all general-purpose registers become zero, the
    /// CPU enters Supervisor mode in ARM state with IRQ and FIQ
    /// disabled, PC is zero, and the pipeline holds NOPs.
    pub fn reset(&mut self)
        ensures
            final(self)@ == reset_spec(old(self)@),
    {
        let mut i: usize = 0;
        while i < 16
            invariant
                i <= 16,
                forall|j: int| 0 <= j < i ==> self.gpr@[j] == 0u32,
                self@ == (CpuView { gpr: self@.gpr, ..old(self)@ }),
            decreases 16 - i,
        {
            self.gpr[i] = 0u32;
            i = i + 1;
        }
        self.cpsr = CPSR(0xD3u32);
        self.mode = Mode::Supervisor;
        self.state = State::ARM;
        self.irq_disable = true;
        self.fiq_disable = true;
        self.flush_pipeline();
        proof {
            assert(self@.gpr =~= Seq::new(16, |i: int| 0u32));
        }
    }

    /// Refills both pipeline latch pairs with pseudo NOPs, so that the
    /// next steps refetch from the new PC.
    pub fn flush_pipeline(&mut self)
        ensures
            final(self)@ == (CpuView {
                fetched_arm: 0x01A0_0000u32,
                decoded_arm: ArmInstruction {
                    raw: 0x01A0_0000u32,
                    op: crate::arminstruction::ArmOpcode::DataProcessing,
                },
                fetched_thumb: 0x46C0u16,
                decoded_thumb: ThumbInstruction {
                    raw: 0x46C0u16,
                    op: crate::thumbinstruction::ThumbOpcode::HiRegOpBx,
                },
                ..old(self)@
            }),
    {
        self.decoded_arm = ArmInstruction::nop();
        self.fetched_arm = ArmInstruction::NOP_RAW;
        self.decoded_thumb = ThumbInstruction::nop();
        self.fetched_thumb = ThumbInstruction::NOP_RAW;
    }

    /// Advances PC by one instruction width: four bytes in ARM state,
    /// two in THUMB state.
    pub fn increment_pc(&mut self)
        ensures
            final(self)@ == (CpuView {
                gpr: old(self)@.gpr.update(
                    15,
                    crate::bitutil::wrap32(
                        old(self)@.gpr[15] + (if old(self)@.state is ARM {
                            4int
                        } else {
                            2int
                        }),
                    ),
                ),
                ..old(self)@
            }),
    {
        let step: u32 = if self.state == State::ARM {
            4
        } else {
            2
        };
        let pc = self.gpr[15];
        self.gpr[15] = crate::bitutil::wadd(pc, step);
    }

    /// Switches the active mode: stores the live R13/R14 into the old
    /// mode's bank, loads the new mode's pair, swaps R8..R12 with the
    /// FIQ bank when exactly one of the two modes is FIQ, and rewrites
    /// the CPSR mode field. Repeatedly switching between the same two
    /// non-FIQ modes does not permute R8..R12.
    pub fn change_mode(&mut self, new_mode: Mode)
        ensures
            final(self)@ == change_mode_spec(old(self)@, new_mode),
    {
        let cmi = self.mode.index();
        let nmi = new_mode.index();

        // Bank the live R13/R14 pair and load the new mode's pair.
        self.gpr_r13_all[cmi] = self.gpr[13];
        self.gpr_r14_all[cmi] = self.gpr[14];
        self.gpr[13] = self.gpr_r13_all[nmi];
        self.gpr[14] = self.gpr_r14_all[nmi];

        // Swap R8..R12 when crossing the FIQ boundary.
        if new_mode == Mode::FIQ && self.mode != Mode::FIQ {
            self.gpr_r8_r12_other[0] = self.gpr[8];
            self.gpr_r8_r12_other[1] = self.gpr[9];
            self.gpr_r8_r12_other[2] = self.gpr[10];
            self.gpr_r8_r12_other[3] = self.gpr[11];
            self.gpr_r8_r12_other[4] = self.gpr[12];
            self.gpr[8] = self.gpr_r8_r12_fiq[0];
            self.gpr[9] = self.gpr_r8_r12_fiq[1];
            self.gpr[10] = self.gpr_r8_r12_fiq[2];
            self.gpr[11] = self.gpr_r8_r12_fiq[3];
            self.gpr[12] = self.gpr_r8_r12_fiq[4];
        } else if self.mode == Mode::FIQ && new_mode != Mode::FIQ {
            self.gpr_r8_r12_fiq[0] = self.gpr[8];
            self.gpr_r8_r12_fiq[1] = self.gpr[9];
            self.gpr_r8_r12_fiq[2] = self.gpr[10];
            self.gpr_r8_r12_fiq[3] = self.gpr[11];
            self.gpr_r8_r12_fiq[4] = self.gpr[12];
            self.gpr[8] = self.gpr_r8_r12_other[0];
            self.gpr[9] = self.gpr_r8_r12_other[1];
            self.gpr[10] = self.gpr_r8_r12_other[2];
            self.gpr[11] = self.gpr_r8_r12_other[3];
            self.gpr[12] = self.gpr_r8_r12_other[4];
        }

        // Apply the new mode.
        self.cpsr.set_mode(new_mode);
        self.mode = new_mode;
        proof {
            let c = old(self)@;
            let want = change_mode_spec(c, new_mode);
            assert(self@.gpr =~= want.gpr);
            assert(self@.fiq_bank =~= want.fiq_bank);
            assert(self@.other_bank =~= want.other_bank);
            assert(self@.r13_bank =~= want.r13_bank);
            assert(self@.r14_bank =~= want.r14_bank);
        }
    }

    /// Causes an exception: switches into the exception's mode, saves
    /// the old CPSR into that mode's SPSR, records the return address
    /// in the new R14, forces ARM state with IRQs disabled (and FIQs
    /// for Reset and FastInterrupt), jumps to the vector address, and
    /// flushes the pipeline.
    pub fn exception(&mut self, ex: Exception)
        ensures
            final(self)@ == exception_spec(old(self)@, ex),
    {
        let ghost c = old(self)@;
        let ret_addr = self.gpr[15];
        let old_cpsr = self.cpsr.0;
        let new_mode = ex.mode_on_entry();
        self.change_mode(new_mode);
        self.spsr[new_mode.index()] = old_cpsr;
        self.gpr[14] = ret_addr;
        self.cpsr.set_state(State::ARM);
        self.state = State::ARM;
        self.cpsr.disable_irq();
        if ex.disable_fiq_on_entry() {
            self.cpsr.disable_fiq();
        }
        self.gpr[15] = ex.vector_address();
        self.flush_pipeline();
        proof {
            lemma_or_zero((change_mode_spec(c, exception_mode(ex)).cpsr & !0x20u32) as u32);
            let want = exception_spec(c, ex);
            assert(self@.gpr =~= want.gpr);
            assert(self@.spsr =~= want.spsr);
        }
    }
}

/// Switching from a mode A to a mode B and back restores R8..R14
/// exactly, when neither A nor B is FIQ: the banks give back what was
/// stored on the way out.
pub proof fn lemma_mode_round_trip(c: CpuView, a: Mode, b: Mode)
    requires
        c.mode == a,
        !(a is FIQ),
        !(b is FIQ),
        c.gpr.len() == 16,
        c.r13_bank.len() == 7,
        c.r14_bank.len() == 7,
    ensures
        forall|j: int|
            8 <= j <= 14 ==> #[trigger] change_mode_spec(change_mode_spec(c, b), a).gpr[j]
                == c.gpr[j],
{
}

/// Entering FIQ from a non-FIQ mode parks R8..R12 in the shared bank
/// and loads the FIQ bank; returning to the old mode restores R8..R14
/// exactly as they were saved on entry.
pub proof fn lemma_fiq_round_trip(c: CpuView, a: Mode)
    requires
        c.mode == a,
        !(a is FIQ),
        c.gpr.len() == 16,
        c.fiq_bank.len() == 5,
        c.other_bank.len() == 5,
        c.r13_bank.len() == 7,
        c.r14_bank.len() == 7,
    ensures
        forall|j: int|
            0 <= j < 5 ==> #[trigger] change_mode_spec(c, Mode::FIQ).other_bank[j] == c.gpr[8 + j],
        forall|j: int|
            0 <= j < 5 ==> #[trigger] change_mode_spec(c, Mode::FIQ).gpr[8 + j] == c.fiq_bank[j],
        forall|j: int|
            8 <= j <= 14 ==> #[trigger] change_mode_spec(
                change_mode_spec(c, Mode::FIQ),
                a,
            ).gpr[j] == c.gpr[j],
        forall|j: int|
            0 <= j < 5 ==> #[trigger] change_mode_spec(change_mode_spec(c, Mode::FIQ), a).fiq_bank[j]
                == change_mode_spec(c, Mode::FIQ).gpr[8 + j],
{
}

} // verus!
