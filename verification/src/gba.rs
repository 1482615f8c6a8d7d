//! The GBA machine: the single owner of the CPU and the bus. The
//! machine hands the CPU a mutable reference to the bus for each
//! step, so no shared-mutable graph arises.

use vstd::prelude::*;

use crate::arm7tdmi::Arm7Tdmi;
use crate::bus::{bus_wf, Bus};
use crate::error::GbaError;
use crate::gamepak::GamePak;
use crate::memory::BiosRom;

verus! {

/// This is the GBA emulator: it owns the virtual hardware, loads ROM
/// and SRAM images from plain bytes, and steps the CPU.
pub struct Gba {
    /// The ARM7TDMI CPU core.
    pub cpu: Arm7Tdmi,
    /// The memory bus with all backing stores.
    pub bus: Bus,
}

impl Gba {
    /// Creates a new GBA emulator instance with zeroed memory and a
    /// zeroed CPU.
    pub fn new() -> (r: Gba)
        ensures
            bus_wf(&r.bus),
            r.cpu@.mode is Supervisor,
            r.cpu@.state is ARM,
            r.cpu@.gpr == Seq::new(16, |i: int| 0u32),
    {
        let bios = BiosRom::new();
        let gpak = GamePak::new();
        Gba { cpu: Arm7Tdmi::new(), bus: Bus::new(gpak, bios) }
    }

    /// Get an immutable reference to the GamePak.
    pub fn game_pak<'a>(&'a self) -> (r: &'a GamePak)
        ensures
            r == &self.bus.game_pak,
    {
        &self.bus.game_pak
    }

    /// Get a mutable reference to the GamePak.
    pub fn game_pak_mut<'a>(&'a mut self) -> (r: &'a mut GamePak) {
        &mut self.bus.game_pak
    }

    /// Get an immutable reference to the BIOS ROM.
    pub fn bios<'a>(&'a self) -> (r: &'a BiosRom)
        ensures
            r == &self.bus.bios_rom,
    {
        &self.bus.bios_rom
    }

    /// Get a mutable reference to the BIOS ROM.
    pub fn bios_mut<'a>(&'a mut self) -> (r: &'a mut BiosRom) {
        &mut self.bus.bios_rom
    }

    /// Get an immutable reference to the ARM7TDMI CPU emulator.
    pub fn cpu_arm7tdmi<'a>(&'a self) -> (r: &'a Arm7Tdmi)
        ensures
            r == &self.cpu,
    {
        &self.cpu
    }

    /// Get a mutable reference to the ARM7TDMI CPU emulator.
    pub fn cpu_arm7tdmi_mut<'a>(&'a mut self) -> (r: &'a mut Arm7Tdmi) {
        &mut self.cpu
    }

    /// Get an immutable reference to the memory bus.
    pub fn bus<'a>(&'a self) -> (r: &'a Bus)
        ensures
            r == &self.bus,
    {
        &self.bus
    }

    /// Get a mutable reference to the memory bus.
    pub fn bus_mut<'a>(&'a mut self) -> (r: &'a mut Bus) {
        &mut self.bus
    }

    /// Advances the CPU by one pipeline step against the machine's
    /// bus.
    pub fn step(&mut self) -> (r: Result<(), GbaError>)
        requires
            bus_wf(&old(self).bus),
        ensures
            bus_wf(&final(self).bus),
            ({
                let step = crate::execarm::pipeline_step_spec(old(self).cpu@, old(self).bus@);
                final(self).cpu@ == step.0 && final(self).bus@ == step.1 && r == step.2
            }),
    {
        self.cpu.pipeline_step(&mut self.bus)
    }
}

} // verus!
