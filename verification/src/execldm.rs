//! Execution of the block-transfer instructions LDM and STM.
//!
//! A 16-bit register bitmap is transferred to or from memory in
//! ascending register order; only the address progression differs
//! between the four pre/post up/down combinations. The base register
//! write-back happens before the transfer, so loading the base from
//! memory is well defined. The user-mode-force bit makes a privileged
//! transfer use the User bank for the banked registers; loading PC
//! with that bit set restores CPSR from the current SPSR instead.

use vstd::prelude::*;

use crate::arm7tdmi::{change_mode_spec, Arm7Tdmi, CpuAction, CpuView};
use crate::arminstruction::{arm_rn, ArmInstruction};
use crate::bitutil::{wadd, wrap32, wsub};
use crate::bus::{bus_wf, load32_spec, store32_spec, Bus, BusView};
use crate::error::GbaError;
use crate::psr::{mode_index, mode_of, Mode, CPSR};

verus! {

/// The number of set bits among bits `i..16` of a word.
pub open spec fn count_bits_from(x: u32, i: u32) -> int
    decreases 16 - i,
{
    if i >= 16 {
        0
    } else {
        (if (x >> i) & 1u32 == 1u32 {
            1int
        } else {
            0int
        }) + count_bits_from(x, (i + 1) as u32)
    }
}

/// The partial outcome of a block transfer: the registers and the bus
/// as far as the transfer got, the address cursor, and the error that
/// stopped it, if one did. An error leaves everything transferred so
/// far in place.
pub struct LdmPartial {
    /// The register file after the transfers so far.
    pub gpr: Seq<u32>,
    /// The bus after the transfers so far.
    pub bus: BusView,
    /// The address cursor.
    pub addr: u32,
    /// The error that stopped the transfer, if any.
    pub err: Option<GbaError>,
}

/// The block transfer from register index `i` upwards: each listed
/// register is moved to or from the next address slot, in ascending
/// register order.
pub open spec fn ldm_xfer(
    gpr: Seq<u32>,
    b: BusView,
    rmap: u32,
    i: u32,
    addr: u32,
    pa: u32,
    po: u32,
    load: bool,
) -> LdmPartial
    decreases 16 - i,
{
    if i >= 16 {
        LdmPartial { gpr, bus: b, addr, err: Option::None }
    } else if (rmap >> i) & 1u32 == 1u32 {
        let a1 = wrap32(addr + pa);
        if load {
            match load32_spec(b, a1) {
                Err(e) => LdmPartial { gpr, bus: b, addr, err: Some(e) },
                Ok(v) => ldm_xfer(
                    gpr.update(i as int, v),
                    b,
                    rmap,
                    (i + 1) as u32,
                    wrap32(a1 + po),
                    pa,
                    po,
                    load,
                ),
            }
        } else {
            match store32_spec(b, a1, gpr[i as int]) {
                Err(e) => LdmPartial { gpr, bus: b, addr, err: Some(e) },
                Ok(b2) => ldm_xfer(gpr, b2, rmap, (i + 1) as u32, wrap32(a1 + po), pa, po, load),
            }
        }
    } else {
        ldm_xfer(gpr, b, rmap, (i + 1) as u32, addr, pa, po, load)
    }
}

/// The partial outcome of a user-bank block transfer, which can touch
/// the shared R8..R12 bank and the User slots of the R13/R14 banks.
pub struct LdmUserPartial {
    /// The register file after the transfers so far.
    pub gpr: Seq<u32>,
    /// The shared non-FIQ R8..R12 bank.
    pub other_bank: Seq<u32>,
    /// The per-mode R13 bank.
    pub r13_bank: Seq<u32>,
    /// The per-mode R14 bank.
    pub r14_bank: Seq<u32>,
    /// The bus after the transfers so far.
    pub bus: BusView,
    /// The address cursor.
    pub addr: u32,
    /// The error that stopped the transfer, if any.
    pub err: Option<GbaError>,
}

/// The User-bank location of register `i`: in FIQ mode the user's
/// R8..R12 live in the shared bank, and every privileged mode keeps
/// the user's R13/R14 in the User slots of the banks.
pub open spec fn ldm_user_read(p: LdmUserPartial, i: u32, fiq: bool) -> u32 {
    if i == 13 {
        p.r13_bank[0]
    } else if i == 14 {
        p.r14_bank[0]
    } else if 8 <= i < 13 && fiq {
        p.other_bank[(i - 8) as int]
    } else {
        p.gpr[i as int]
    }
}

/// The partial state with the User-bank location of register `i`
/// replaced by a loaded value.
pub open spec fn ldm_user_write(p: LdmUserPartial, i: u32, v: u32, fiq: bool) -> LdmUserPartial {
    if i == 13 {
        LdmUserPartial { r13_bank: p.r13_bank.update(0, v), ..p }
    } else if i == 14 {
        LdmUserPartial { r14_bank: p.r14_bank.update(0, v), ..p }
    } else if 8 <= i < 13 && fiq {
        LdmUserPartial { other_bank: p.other_bank.update((i - 8) as int, v), ..p }
    } else {
        LdmUserPartial { gpr: p.gpr.update(i as int, v), ..p }
    }
}

/// The user-bank block transfer from register index `i` upwards.
pub open spec fn ldm_user_xfer(p: LdmUserPartial, rmap: u32, i: u32, pa: u32, po: u32, load: bool, fiq: bool) -> LdmUserPartial
    decreases 16 - i,
{
    if i >= 16 {
        p
    } else if (rmap >> i) & 1u32 == 1u32 {
        let a1 = wrap32(p.addr + pa);
        if load {
            match load32_spec(p.bus, a1) {
                Err(e) => LdmUserPartial { err: Some(e), ..p },
                Ok(v) => ldm_user_xfer(
                    LdmUserPartial {
                        addr: wrap32(a1 + po),
                        ..ldm_user_write(p, i, v, fiq)
                    },
                    rmap,
                    (i + 1) as u32,
                    pa,
                    po,
                    load,
                    fiq,
                ),
            }
        } else {
            match store32_spec(p.bus, a1, ldm_user_read(p, i, fiq)) {
                Err(e) => LdmUserPartial { err: Some(e), ..p },
                Ok(b2) => ldm_user_xfer(
                    LdmUserPartial { bus: b2, addr: wrap32(a1 + po), ..p },
                    rmap,
                    (i + 1) as u32,
                    pa,
                    po,
                    load,
                    fiq,
                ),
            }
        }
    } else {
        ldm_user_xfer(p, rmap, (i + 1) as u32, pa, po, load, fiq)
    }
}

/// The effect of LDM/STM. The base write-back happens first; a
/// privileged user-bank transfer follows the User-bank rules; loading
/// PC with the force bit set restores CPSR from the current SPSR and
/// switches banks to the restored mode. Loading PC flushes the
/// pipeline.
pub open spec fn ldm_stm_spec(c: CpuView, b: BusView, raw: u32) -> (CpuView, BusView, Result<
    CpuAction,
    GbaError,
>) {
    let rn = arm_rn(raw) as int;
    let base = c.gpr[rn];
    let rmap = raw & 0xFFFFu32;
    let bytes = 4 * count_bits_from(rmap, 0);
    let load = raw & 0x0010_0000u32 != 0;
    let pre = raw & 0x0100_0000u32 != 0;
    let up = raw & 0x0080_0000u32 != 0;
    let auto = raw & 0x0020_0000u32 != 0;
    let psr = raw & 0x0040_0000u32 != 0;
    let r15 = raw & 0x8000u32 != 0;
    let pa: u32 = if pre == up {
        4u32
    } else {
        0u32
    };
    let po: u32 = if pre == up {
        0u32
    } else {
        4u32
    };
    let addr0 = if up {
        base
    } else {
        wrap32(base - bytes)
    };
    let gpr0 = if auto {
        c.gpr.update(
            rn,
            if up {
                wrap32(base + bytes)
            } else {
                wrap32(base - bytes)
            },
        )
    } else {
        c.gpr
    };
    if psr && !(r15 && load) {
        if c.mode is User {
            (CpuView { gpr: gpr0, ..c }, b, Err(GbaError::PrivilegedUserCode))
        } else {
            let p0 = LdmUserPartial {
                gpr: gpr0,
                other_bank: c.other_bank,
                r13_bank: c.r13_bank,
                r14_bank: c.r14_bank,
                bus: b,
                addr: addr0,
                err: Option::None,
            };
            let p = ldm_user_xfer(p0, rmap, 0, pa, po, load, c.mode is FIQ);
            let c1 = CpuView {
                gpr: p.gpr,
                other_bank: p.other_bank,
                r13_bank: p.r13_bank,
                r14_bank: p.r14_bank,
                ..c
            };
            match p.err {
                Some(e) => (c1, p.bus, Err(e)),
                Option::None => (c1, p.bus, Ok(CpuAction::Advance)),
            }
        }
    } else {
        let p = ldm_xfer(gpr0, b, rmap, 0, addr0, pa, po, load);
        let c1 = CpuView { gpr: p.gpr, ..c };
        match p.err {
            Some(e) => (c1, p.bus, Err(e)),
            Option::None => {
                if r15 && psr && load {
                    if c.mode is User {
                        (c1, p.bus, Err(GbaError::PrivilegedUserCode))
                    } else {
                        let sp = c.spsr[mode_index(c.mode)];
                        match mode_of(sp) {
                            Option::None => (c1, p.bus, Err(GbaError::InvalidPsrMode)),
                            Some(m) => (
                                change_mode_spec(CpuView { cpsr: sp, ..c1 }, m),
                                p.bus,
                                Ok(CpuAction::FlushPipeline),
                            ),
                        }
                    }
                } else {
                    (
                        c1,
                        p.bus,
                        Ok(
                            if load && r15 {
                                CpuAction::FlushPipeline
                            } else {
                                CpuAction::Advance
                            },
                        ),
                    )
                }
            },
        }
    }
}

impl Arm7Tdmi {
    /// Transfers the bitmapped registers between memory and the plain
    /// register file, in ascending register order, stopping at the
    /// first bus error.
    #[verifier::rlimit(60)]
    pub(crate) fn ldm_block(&mut self, bus: &mut Bus, rmap: u32, addr0: u32, pa: u32, po: u32, load: bool)
        -> (r: Result<(), GbaError>)
        requires
            bus_wf(old(bus)),
        ensures
            bus_wf(final(bus)),
            ({
                let p = ldm_xfer(old(self)@.gpr, old(bus)@, rmap, 0, addr0, pa, po, load);
                &&& final(self)@ == (CpuView { gpr: p.gpr, ..old(self)@ })
                &&& final(bus)@ == p.bus
                &&& r == (match p.err {
                    Some(e) => Err::<(), GbaError>(e),
                    Option::None => Ok::<(), GbaError>(()),
                })
            }),
    {
        let ghost full = ldm_xfer(old(self)@.gpr, old(bus)@, rmap, 0, addr0, pa, po, load);
        let mut addr: u32 = addr0;
        let mut i: u32 = 0;
        while i < 16
            invariant
                bus_wf(bus),
                i <= 16,
                full == ldm_xfer(old(self)@.gpr, old(bus)@, rmap, 0, addr0, pa, po, load),
                full == ldm_xfer(self@.gpr, bus@, rmap, i, addr, pa, po, load),
                self@ == (CpuView { gpr: self@.gpr, ..old(self)@ }),
            decreases 16 - i,
        {
            if (rmap >> i) & 1u32 == 1u32 {
                let a1 = wadd(addr, pa);
                if load {
                    let v = match bus.load_word(a1) {
                        Ok(v) => v,
                        Err(e) => {
                            proof {
                                assert(ldm_xfer(self@.gpr, bus@, rmap, i, addr, pa, po, load)
                                    == (LdmPartial {
                                    gpr: self@.gpr,
                                    bus: bus@,
                                    addr: addr,
                                    err: Some(e),
                                }));
                            }
                            return Err(e);
                        },
                    };
                    self.gpr[i as usize] = v;
                } else {
                    let v = self.gpr[i as usize];
                    match bus.store_word(a1, v) {
                        Ok(_) => {},
                        Err(e) => {
                            proof {
                                assert(ldm_xfer(self@.gpr, bus@, rmap, i, addr, pa, po, load)
                                    == (LdmPartial {
                                    gpr: self@.gpr,
                                    bus: bus@,
                                    addr: addr,
                                    err: Some(e),
                                }));
                            }
                            return Err(e);
                        },
                    }
                }
                addr = wadd(a1, po);
            }
            i = i + 1;
        }
        Ok(())
    }

    /// Transfers the bitmapped registers using the User-mode bank for
    /// the banked registers: the shared R8..R12 bank in FIQ mode, and
    /// the User slots of the R13/R14 banks in every privileged mode.
    #[verifier::rlimit(60)]
    fn ldm_user_block(
        &mut self,
        bus: &mut Bus,
        rmap: u32,
        addr0: u32,
        pa: u32,
        po: u32,
        load: bool,
    ) -> (r: Result<(), GbaError>)
        requires
            bus_wf(old(bus)),
        ensures
            bus_wf(final(bus)),
            ({
                let p0 = LdmUserPartial {
                    gpr: old(self)@.gpr,
                    other_bank: old(self)@.other_bank,
                    r13_bank: old(self)@.r13_bank,
                    r14_bank: old(self)@.r14_bank,
                    bus: old(bus)@,
                    addr: addr0,
                    err: Option::None,
                };
                let p = ldm_user_xfer(p0, rmap, 0, pa, po, load, old(self)@.mode is FIQ);
                &&& final(self)@ == (CpuView {
                    gpr: p.gpr,
                    other_bank: p.other_bank,
                    r13_bank: p.r13_bank,
                    r14_bank: p.r14_bank,
                    ..old(self)@
                })
                &&& final(bus)@ == p.bus
                &&& r == (match p.err {
                    Some(e) => Err::<(), GbaError>(e),
                    Option::None => Ok::<(), GbaError>(()),
                })
            }),
    {
        let fiq = self.mode == Mode::FIQ;
        let ghost p0 = LdmUserPartial {
            gpr: old(self)@.gpr,
            other_bank: old(self)@.other_bank,
            r13_bank: old(self)@.r13_bank,
            r14_bank: old(self)@.r14_bank,
            bus: old(bus)@,
            addr: addr0,
            err: Option::None,
        };
        let ghost full = ldm_user_xfer(p0, rmap, 0, pa, po, load, fiq);
        let mut addr: u32 = addr0;
        let mut i: u32 = 0;
        while i < 16
            invariant
                bus_wf(bus),
                i <= 16,
                fiq == (old(self)@.mode is FIQ),
                full == ldm_user_xfer(
                    LdmUserPartial {
                        gpr: old(self)@.gpr,
                        other_bank: old(self)@.other_bank,
                        r13_bank: old(self)@.r13_bank,
                        r14_bank: old(self)@.r14_bank,
                        bus: old(bus)@,
                        addr: addr0,
                        err: Option::None,
                    },
                    rmap,
                    0,
                    pa,
                    po,
                    load,
                    old(self)@.mode is FIQ,
                ),
                full == ldm_user_xfer(
                    LdmUserPartial {
                        gpr: self@.gpr,
                        other_bank: self@.other_bank,
                        r13_bank: self@.r13_bank,
                        r14_bank: self@.r14_bank,
                        bus: bus@,
                        addr: addr,
                        err: Option::None,
                    },
                    rmap,
                    i,
                    pa,
                    po,
                    load,
                    fiq,
                ),
                self@ == (CpuView {
                    gpr: self@.gpr,
                    other_bank: self@.other_bank,
                    r13_bank: self@.r13_bank,
                    r14_bank: self@.r14_bank,
                    ..old(self)@
                }),
            decreases 16 - i,
        {
            if (rmap >> i) & 1u32 == 1u32 {
                let a1 = wadd(addr, pa);
                let ghost curp = LdmUserPartial {
                    gpr: self@.gpr,
                    other_bank: self@.other_bank,
                    r13_bank: self@.r13_bank,
                    r14_bank: self@.r14_bank,
                    bus: bus@,
                    addr: addr,
                    err: Option::None,
                };
                if load {
                    let v = match bus.load_word(a1) {
                        Ok(v) => v,
                        Err(e) => {
                            proof {
                                assert(ldm_user_xfer(curp, rmap, i, pa, po, load, fiq)
                                    == (LdmUserPartial { err: Some(e), ..curp }));
                            }
                            return Err(e);
                        },
                    };
                    if i == 13 {
                        self.gpr_r13_all[0] = v;
                    } else if i == 14 {
                        self.gpr_r14_all[0] = v;
                    } else if 8 <= i && i < 13 && fiq {
                        self.gpr_r8_r12_other[(i - 8) as usize] = v;
                    } else {
                        self.gpr[i as usize] = v;
                    }
                } else {
                    let v = if i == 13 {
                        self.gpr_r13_all[0]
                    } else if i == 14 {
                        self.gpr_r14_all[0]
                    } else if 8 <= i && i < 13 && fiq {
                        self.gpr_r8_r12_other[(i - 8) as usize]
                    } else {
                        self.gpr[i as usize]
                    };
                    match bus.store_word(a1, v) {
                        Ok(_) => {},
                        Err(e) => {
                            proof {
                                assert(ldm_user_xfer(curp, rmap, i, pa, po, load, fiq)
                                    == (LdmUserPartial { err: Some(e), ..curp }));
                            }
                            return Err(e);
                        },
                    }
                }
                addr = wadd(a1, po);
            }
            i = i + 1;
        }
        Ok(())
    }

    /// Executes an LDM or STM instruction: transfers the bitmapped
    /// registers between memory and the register file in ascending
    /// order, with the base write-back applied before the transfer.
    #[verifier::rlimit(60)]
    pub(crate) fn execute_ldm_stm(&mut self, bus: &mut Bus, inst: ArmInstruction) -> (r: Result<
        CpuAction,
        GbaError,
    >)
        requires
            bus_wf(old(bus)),
        ensures
            bus_wf(final(bus)),
            ({
                let step = ldm_stm_spec(old(self)@, old(bus)@, inst.raw);
                final(self)@ == step.0 && final(bus)@ == step.1 && r == step.2
            }),
    {
        proof {
            crate::bitutil::lemma_mask_bounds(inst.raw);
        }
        let rn = inst.Rn();
        let base = self.gpr[rn];
        let rmap: u32 = inst.raw & 0xFFFFu32;
        let load = inst.is_load();
        let pre = inst.is_pre_indexed();
        let up = inst.is_offset_added();
        let auto = inst.is_auto_incrementing();
        let psr = inst.is_enforcing_user_mode();
        let r15 = inst.raw & 0x8000u32 != 0;

        // Count the listed registers to size the transfer.
        let mut cnt: u32 = 0;
        let mut ci: u32 = 0;
        while ci < 16
            invariant
                ci <= 16,
                cnt <= ci,
                cnt + count_bits_from(rmap, ci) == count_bits_from(rmap, 0),
            decreases 16 - ci,
        {
            if (rmap >> ci) & 1u32 == 1u32 {
                cnt = cnt + 1;
            }
            ci = ci + 1;
        }
        let bytes: u32 = cnt * 4;

        let pa: u32 = if pre == up {
            4u32
        } else {
            0u32
        };
        let po: u32 = if pre == up {
            0u32
        } else {
            4u32
        };
        let addr0: u32 = if up {
            base
        } else {
            wsub(base, bytes)
        };

        // Write the new base back first, so that loading the base
        // register from memory stays well defined.
        if auto {
            self.gpr[rn] = if up {
                wadd(base, bytes)
            } else {
                wsub(base, bytes)
            };
        }

        if psr && !(r15 && load) {
            if self.mode == Mode::User {
                return Err(GbaError::PrivilegedUserCode);
            }
            match self.ldm_user_block(bus, rmap, addr0, pa, po, load) {
                Err(e) => Err(e),
                Ok(_) => Ok(CpuAction::Advance),
            }
        } else {
            match self.ldm_block(bus, rmap, addr0, pa, po, load) {
                Err(e) => Err(e),
                Ok(_) => {
                    if r15 && psr && load {
                        if self.mode == Mode::User {
                            return Err(GbaError::PrivilegedUserCode);
                        }
                        let sp = self.spsr[self.mode.index()];
                        match CPSR(sp).mode() {
                            Err(e) => Err(e),
                            Ok(m) => {
                                self.cpsr = CPSR(sp);
                                self.change_mode(m);
                                Ok(CpuAction::FlushPipeline)
                            },
                        }
                    } else {
                        Ok(
                            if load && r15 {
                                CpuAction::FlushPipeline
                            } else {
                                CpuAction::Advance
                            },
                        )
                    }
                },
            }
        }
    }
}

} // verus!
