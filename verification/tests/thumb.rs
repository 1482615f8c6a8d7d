//! THUMB state execution: each family lowers onto the shared ALU,
//! shifter and bus primitives.

use gbars::arm7tdmi::{Arm7Tdmi, CpuAction};
use gbars::bus::Bus;
use gbars::gamepak::GamePak;
use gbars::memory::BiosRom;
use gbars::psr::{Mode, State, CPSR};
use gbars::thumbinstruction::ThumbInstruction;

fn fresh_bus() -> Bus {
    Bus::new(GamePak::new(), BiosRom::new())
}

fn thumb_cpu() -> Arm7Tdmi {
    let mut cpu = Arm7Tdmi::new();
    cpu.reset();
    cpu.state = State::THUMB;
    cpu.cpsr.set_state(State::THUMB);
    cpu
}

/// Moving a shifted register sets the flags from the shifter.
#[test]
fn thumb_move_shifted() {
    let mut cpu = thumb_cpu();
    let mut bus = fresh_bus();
    cpu.gpr[1] = 0x11;
    // lsl R0, R1, #4
    let i = ThumbInstruction::decode(0x0108).unwrap();
    cpu.execute_thumb_state(&mut bus, i).unwrap();
    assert_eq!(cpu.gpr[0], 0x110);
    assert!(!cpu.cpsr.N() && !cpu.cpsr.Z());
}

/// The three-register and immediate add/sub forms always set flags.
#[test]
fn thumb_add_sub() {
    let mut cpu = thumb_cpu();
    let mut bus = fresh_bus();
    cpu.gpr[1] = 5;
    // add R0, R1, #2
    let i = ThumbInstruction::decode(0x1C88).unwrap();
    cpu.execute_thumb_state(&mut bus, i).unwrap();
    assert_eq!(cpu.gpr[0], 7);
    assert!(!cpu.cpsr.C() && !cpu.cpsr.Z());
    // sub R0, R1, R2 with a borrow clears C.
    cpu.gpr[2] = 9;
    let i = ThumbInstruction::decode(0x1A88).unwrap();
    cpu.execute_thumb_state(&mut bus, i).unwrap();
    assert_eq!(cpu.gpr[0], 0xFFFF_FFFC);
    assert!(cpu.cpsr.N() && !cpu.cpsr.C());
}

/// An 8-bit immediate move, and NEG through the reverse-subtract
/// lowering.
#[test]
fn thumb_dp_and_neg() {
    let mut cpu = thumb_cpu();
    let mut bus = fresh_bus();
    // mov R0, #255
    let i = ThumbInstruction::decode(0x20FF).unwrap();
    cpu.execute_thumb_state(&mut bus, i).unwrap();
    assert_eq!(cpu.gpr[0], 255);
    // neg R0, R1
    cpu.gpr[1] = 5;
    let i = ThumbInstruction::decode(0x4248).unwrap();
    cpu.execute_thumb_state(&mut bus, i).unwrap();
    assert_eq!(cpu.gpr[0], 0xFFFF_FFFB);
    assert!(cpu.cpsr.N());
    // mul R0, R1: N and Z from the product, C cleared.
    cpu.gpr[0] = 3;
    cpu.gpr[1] = 4;
    let i = ThumbInstruction::decode(0x4348).unwrap();
    cpu.execute_thumb_state(&mut bus, i).unwrap();
    assert_eq!(cpu.gpr[0], 12);
    assert!(!cpu.cpsr.C());
}

/// BX through a high register leaves THUMB state for an even target.
#[test]
fn thumb_bx_returns_to_arm() {
    let mut cpu = thumb_cpu();
    let mut bus = fresh_bus();
    cpu.gpr[1] = 0x0300_0040;
    let i = ThumbInstruction::decode(0x4708).unwrap();
    let action = cpu.execute_thumb_state(&mut bus, i).unwrap();
    assert!(matches!(action, CpuAction::FlushPipeline));
    assert_eq!(cpu.state, State::ARM);
    assert_eq!(cpu.gpr[15], 0x0300_0040);
}

/// PUSH stores descending below SP; POP loads ascending and loading
/// PC flushes.
#[test]
fn thumb_push_pop() {
    let mut cpu = thumb_cpu();
    let mut bus = fresh_bus();
    cpu.gpr[13] = 0x0300_0100;
    cpu.gpr[0] = 0xA0;
    cpu.gpr[1] = 0xA1;
    cpu.gpr[14] = 0x0800_0001;
    // push {R0, R1, LR}
    let push = ThumbInstruction::decode(0xB503).unwrap();
    cpu.execute_thumb_state(&mut bus, push).unwrap();
    assert_eq!(cpu.gpr[13], 0x0300_00F4);
    assert_eq!(bus.load_word(0x0300_00F4), Ok(0xA0));
    assert_eq!(bus.load_word(0x0300_00F8), Ok(0xA1));
    assert_eq!(bus.load_word(0x0300_00FC), Ok(0x0800_0001));
    // pop {R2, R3, PC}
    let pop = ThumbInstruction::decode(0xBD0C).unwrap();
    let action = cpu.execute_thumb_state(&mut bus, pop).unwrap();
    assert!(matches!(action, CpuAction::FlushPipeline));
    assert_eq!(cpu.gpr[2], 0xA0);
    assert_eq!(cpu.gpr[3], 0xA1);
    assert_eq!(cpu.gpr[15], 0x0800_0001);
    assert_eq!(cpu.gpr[13], 0x0300_0100);
}

/// SP- and PC-relative loads use the scaled 8-bit offset; the PC base
/// reads with bit 1 forced to zero.
#[test]
fn thumb_relative_loads() {
    let mut cpu = thumb_cpu();
    let mut bus = fresh_bus();
    bus.store_word(0x0300_0204, 0x5555_AAAA).unwrap();
    cpu.gpr[15] = 0x0300_0202;
    // ldr R0, [PC, #4]: base is PC with bit 1 cleared.
    let i = ThumbInstruction::decode(0x4801).unwrap();
    cpu.execute_thumb_state(&mut bus, i).unwrap();
    assert_eq!(cpu.gpr[0], 0x5555_AAAA);
    // str R1, [SP, #8] / ldr R2, [SP, #8]
    cpu.gpr[13] = 0x0300_0300;
    cpu.gpr[1] = 0x1234;
    let st = ThumbInstruction::decode(0x9102).unwrap();
    cpu.execute_thumb_state(&mut bus, st).unwrap();
    let ld = ThumbInstruction::decode(0x9A02).unwrap();
    cpu.execute_thumb_state(&mut bus, ld).unwrap();
    assert_eq!(cpu.gpr[2], 0x1234);
}

/// Conditional branches move PC only when the condition holds, and
/// the unconditional branch always flushes.
#[test]
fn thumb_branches() {
    let mut cpu = thumb_cpu();
    let mut bus = fresh_bus();
    cpu.gpr[15] = 0x0300_0100;
    // beq with Z clear: a plain advance.
    let beq = ThumbInstruction::decode(0xD003).unwrap();
    let action = cpu.execute_thumb_state(&mut bus, beq).unwrap();
    assert!(matches!(action, CpuAction::Advance));
    assert_eq!(cpu.gpr[15], 0x0300_0100);
    // With Z set the branch is taken: offset 3 doubled.
    cpu.cpsr.set_Z(true);
    let action = cpu.execute_thumb_state(&mut bus, beq).unwrap();
    assert!(matches!(action, CpuAction::FlushPipeline));
    assert_eq!(cpu.gpr[15], 0x0300_0106);
    // b #-4
    cpu.gpr[15] = 0x0300_0100;
    let b = ThumbInstruction::decode(0xE7FE).unwrap();
    cpu.execute_thumb_state(&mut bus, b).unwrap();
    assert_eq!(cpu.gpr[15], 0x0300_00FC);
}

/// The two-halfword long branch: the high half parks the offset in
/// LR, the low half branches and leaves the return address with its
/// low bit set.
#[test]
fn thumb_long_branch() {
    let mut cpu = thumb_cpu();
    let mut bus = fresh_bus();
    cpu.gpr[15] = 0x0300_0100;
    // bl high half, offset part 1: LR = PC + 0x1000.
    let hi = ThumbInstruction::decode(0xF001).unwrap();
    let action = cpu.execute_thumb_state(&mut bus, hi).unwrap();
    assert!(matches!(action, CpuAction::Advance));
    assert_eq!(cpu.gpr[14], 0x0300_1100);
    // bl low half, offset part 4: PC = LR + 8, LR = old PC | 1.
    cpu.gpr[15] = 0x0300_0102;
    let lo = ThumbInstruction::decode(0xF804).unwrap();
    let action = cpu.execute_thumb_state(&mut bus, lo).unwrap();
    assert!(matches!(action, CpuAction::FlushPipeline));
    assert_eq!(cpu.gpr[15], 0x0300_1108);
    assert_eq!(cpu.gpr[14], 0x0300_0103);
}

/// A THUMB software interrupt enters Supervisor mode through the
/// exception machinery.
#[test]
fn thumb_swi() {
    let mut cpu = thumb_cpu();
    let mut bus = fresh_bus();
    cpu.cpsr = CPSR(0x30); // User mode, THUMB state
    cpu.mode = Mode::User;
    let i = ThumbInstruction::decode(0xDF42).unwrap();
    let action = cpu.execute_thumb_state(&mut bus, i).unwrap();
    assert!(matches!(action, CpuAction::FlushPipeline));
    assert_eq!(cpu.cpsr.mode(), Ok(Mode::Supervisor));
    assert_eq!(cpu.cpsr.state(), State::ARM);
    assert_eq!(cpu.gpr[15], 0x08);
}

/// A full THUMB pipeline walk: the instruction flows through fetch
/// and decode before it executes, and PC advances by two each step.
#[test]
fn thumb_pipeline_steps() {
    let mut cpu = thumb_cpu();
    let mut bus = fresh_bus();
    // mov R0, #7 at 0x03000000, as little-endian halfwords.
    bus.store_halfword(0x0300_0000, 0x2007).unwrap();
    cpu.gpr[15] = 0x0300_0000;
    cpu.pipeline_step(&mut bus).unwrap();
    cpu.pipeline_step(&mut bus).unwrap();
    assert_eq!(cpu.gpr[15], 0x0300_0004);
    cpu.pipeline_step(&mut bus).unwrap();
    assert_eq!(cpu.gpr[0], 7);
    assert_eq!(cpu.gpr[15], 0x0300_0006);
}
