//! End-to-end scenarios: literal instruction words executed on a
//! fresh machine, with exact expected register, flag and memory
//! outcomes.

use gbars::arm7tdmi::{Arm7Tdmi, CpuAction};
use gbars::arminstruction::ArmInstruction;
use gbars::bitutil::ror32;
use gbars::bus::Bus;
use gbars::exception::Exception;
use gbars::gamepak::GamePak;
use gbars::gba::Gba;
use gbars::memory::BiosRom;
use gbars::psr::{Mode, State, CPSR};

fn fresh_bus() -> Bus {
    Bus::new(GamePak::new(), BiosRom::new())
}

/// Data-processing with immediate: `movs R0, #1` stepped out of a
/// freshly reset CPU. The pipeline refills after the reset flush, so
/// the instruction observes PC = 0x08 and leaves R0 = 1 with N and Z
/// clear.
#[test]
fn dp_immediate_movs() {
    let mut gba = Gba::new();
    let image: Vec<u8> = vec![0x01, 0x00, 0xA0, 0xE3]; // 0xE3A00001 little endian
    gba.bios_mut().load_from_bytes(&image);
    gba.cpu_arm7tdmi_mut().reset();

    // Two priming steps move the instruction through fetch and decode.
    gba.step().unwrap();
    gba.step().unwrap();
    assert_eq!(gba.cpu_arm7tdmi().gpr[15], 0x08);

    // The third step executes it.
    gba.step().unwrap();
    assert_eq!(gba.cpu_arm7tdmi().gpr[0], 1);
    assert!(!gba.cpu_arm7tdmi().cpsr.N());
    assert!(!gba.cpu_arm7tdmi().cpsr.Z());
}

/// Barrel shifter carry: `movs R0, R1, lsl #1` with `R1 = 0x8000_0001`
/// moves bit 31 out into the carry.
#[test]
fn barrel_shifter_carry() {
    let mut cpu = Arm7Tdmi::new();
    let mut bus = fresh_bus();
    cpu.reset();
    cpu.gpr[1] = 0x8000_0001;
    let inst = ArmInstruction::decode(0xE1B0_0081).unwrap();
    let action = cpu.execute_arm_state(&mut bus, inst).unwrap();
    assert!(matches!(action, CpuAction::Advance));
    assert_eq!(cpu.gpr[0], 0x0000_0002);
    assert!(cpu.cpsr.C());
    assert!(!cpu.cpsr.N());
    assert!(!cpu.cpsr.Z());
}

/// LDR with a mis-aligned address: the word at the aligned address is
/// rotated right by eight bits per byte of mis-alignment.
#[test]
fn ldr_misaligned_rotation() {
    let mut cpu = Arm7Tdmi::new();
    let mut bus = fresh_bus();
    cpu.reset();
    bus.store_byte(0x0300_0000, 0xAA).unwrap();
    bus.store_byte(0x0300_0001, 0xBB).unwrap();
    bus.store_byte(0x0300_0002, 0xCC).unwrap();
    bus.store_byte(0x0300_0003, 0xDD).unwrap();
    cpu.gpr[1] = 0x0300_0002;
    let inst = ArmInstruction::decode(0xE591_0000).unwrap(); // ldr R0, [R1]
    cpu.execute_arm_state(&mut bus, inst).unwrap();
    assert_eq!(cpu.gpr[0], 0xBBAA_DDCC);
    // The rotation law on the literal values.
    assert_eq!(ror32(0xDDCC_BBAA, 16), 0xBBAA_DDCC);
}

/// Banked-register exchange on SWI: Supervisor mode comes up with its
/// own R13/R14, the User pair lands in the User bank, the old CPSR in
/// SPSR_svc, and the return address in the new R14.
#[test]
fn banked_exchange_on_swi() {
    let mut cpu = Arm7Tdmi::new();
    cpu.reset();
    cpu.cpsr = CPSR(0x10); // User mode, all flags clear, F clear
    cpu.mode = Mode::User;
    cpu.gpr[13] = 0x0300_7F00;
    cpu.gpr[14] = 0xDEAD_BEEF;
    cpu.gpr[15] = 0x0800_1234;
    let old_cpsr = cpu.cpsr.0;

    cpu.exception(Exception::SoftwareInterrupt);

    assert_eq!(cpu.cpsr.mode(), Ok(Mode::Supervisor));
    assert_eq!(cpu.cpsr.state(), State::ARM);
    assert!(cpu.cpsr.irq_disabled());
    assert!(!cpu.cpsr.fiq_disabled()); // F unchanged
    assert_eq!(cpu.gpr[15], 0x08);
    assert_eq!(cpu.spsr[Mode::Supervisor.index()], old_cpsr);
    assert_eq!(cpu.gpr[14], 0x0800_1234); // old PC
    assert_eq!(cpu.gpr_r13_all[Mode::User.index()], 0x0300_7F00);
    assert_eq!(cpu.gpr_r14_all[Mode::User.index()], 0xDEAD_BEEF);
}

/// FIQ bank swap: entering FIQ parks R8..R12 in the shared bank and
/// loads the (initially zero) FIQ bank; returning to User restores
/// the original values.
#[test]
fn fiq_bank_swap() {
    let mut cpu = Arm7Tdmi::new();
    cpu.reset();
    cpu.cpsr = CPSR(0x10);
    cpu.mode = Mode::User;
    cpu.gpr[8] = 1;
    cpu.gpr[9] = 2;
    cpu.gpr[10] = 3;
    cpu.gpr[11] = 4;
    cpu.gpr[12] = 5;

    cpu.exception(Exception::FastInterrupt);

    assert_eq!(cpu.cpsr.mode(), Ok(Mode::FIQ));
    assert!(cpu.cpsr.fiq_disabled());
    for i in 8..13 {
        assert_eq!(cpu.gpr[i], 0); // loaded from the zeroed FIQ bank
    }
    assert_eq!(cpu.gpr_r8_r12_other, [1, 2, 3, 4, 5]);

    // Exception return: switch back to the saved mode.
    cpu.change_mode(Mode::User);
    assert_eq!(cpu.gpr[8], 1);
    assert_eq!(cpu.gpr[9], 2);
    assert_eq!(cpu.gpr[10], 3);
    assert_eq!(cpu.gpr[11], 4);
    assert_eq!(cpu.gpr[12], 5);
}

/// LDM with user-mode force and PC in the list: the registers load in
/// ascending order from ascending addresses, CPSR is overwritten from
/// SPSR_irq afterwards, and the pipeline flushes.
#[test]
fn ldm_user_force_with_pc() {
    let mut cpu = Arm7Tdmi::new();
    let mut bus = fresh_bus();
    cpu.reset();
    cpu.cpsr = CPSR(0x12); // IRQ mode
    cpu.mode = Mode::IRQ;
    let saved_user_cpsr: u32 = 0x6000_0010; // User mode with flags set
    cpu.spsr[Mode::IRQ.index()] = saved_user_cpsr;

    let base: u32 = 0x0300_1000;
    cpu.gpr[13] = base;
    let words: [u32; 5] = [0x11, 0x22, 0x33, 0x44, 0x0800_0000];
    for (k, w) in words.iter().enumerate() {
        bus.store_word(base + 4 * (k as u32), *w).unwrap();
    }

    // ldmfd R13!, {R0-R3, PC}^
    let inst = ArmInstruction::decode(0xE8FD_800F).unwrap();
    assert!(inst.check_is_valid().is_ok());
    let action = cpu.execute_arm_state(&mut bus, inst).unwrap();

    assert_eq!(cpu.gpr[0], 0x11);
    assert_eq!(cpu.gpr[1], 0x22);
    assert_eq!(cpu.gpr[2], 0x33);
    assert_eq!(cpu.gpr[3], 0x44);
    assert_eq!(cpu.gpr[15], 0x0800_0000);
    assert_eq!(cpu.cpsr.0, saved_user_cpsr);
    assert_eq!(cpu.cpsr.mode(), Ok(Mode::User));
    assert!(matches!(action, CpuAction::FlushPipeline));
}
