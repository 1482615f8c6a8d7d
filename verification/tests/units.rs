//! Unit tests for the PSR, the condition table, the barrel shifter's
//! edge cases, the decoders, the bus rules and the GamePak header.

use gbars::arm7tdmi::Arm7Tdmi;
use gbars::armbsop::{bsop_shift_carry, bsop_shift_value, ArmBSOP};
use gbars::armcondition::ArmCondition;
use gbars::arminstruction::{ArmInstruction, ArmOpcode};
use gbars::bus::Bus;
use gbars::error::GbaError;
use gbars::gamepak::{GamePak, GamePakRom};
use gbars::memory::{BiosRom, PhysicalAddress};
use gbars::psr::{Mode, State, CPSR};
use gbars::exception::Exception::{
    AddressExceeds26Bit, DataAbort, FastInterrupt, NormalInterrupt, PrefetchAbort, Reset,
    SoftwareInterrupt, UndefinedInstruction,
};
use gbars::thumbinstruction::{ThumbInstruction, ThumbOpcode};

fn fresh_bus() -> Bus {
    Bus::new(GamePak::new(), BiosRom::new())
}

/// A CPSR with the given N/Z/C/V flags, in User mode.
fn flags_psr(n: bool, z: bool, c: bool, v: bool) -> CPSR {
    let mut p = CPSR(0x10);
    p.set_N(n);
    p.set_Z(z);
    p.set_C(c);
    p.set_V(v);
    p
}

/// The condition table holds for all 16 flag combinations of each of
/// the 15 defined codes, and the reserved code reports an error.
#[test]
fn condition_table_all_cases() {
    for bits in 0..16u32 {
        let n = bits & 8 != 0;
        let z = bits & 4 != 0;
        let c = bits & 2 != 0;
        let v = bits & 1 != 0;
        let p = flags_psr(n, z, c, v);
        assert_eq!(ArmCondition::EQ.check(&p), Ok(z));
        assert_eq!(ArmCondition::NE.check(&p), Ok(!z));
        assert_eq!(ArmCondition::HS.check(&p), Ok(c));
        assert_eq!(ArmCondition::LO.check(&p), Ok(!c));
        assert_eq!(ArmCondition::MI.check(&p), Ok(n));
        assert_eq!(ArmCondition::PL.check(&p), Ok(!n));
        assert_eq!(ArmCondition::VS.check(&p), Ok(v));
        assert_eq!(ArmCondition::VC.check(&p), Ok(!v));
        assert_eq!(ArmCondition::HI.check(&p), Ok(c && !z));
        assert_eq!(ArmCondition::LS.check(&p), Ok(!c || z));
        assert_eq!(ArmCondition::GE.check(&p), Ok(n == v));
        assert_eq!(ArmCondition::LT.check(&p), Ok(n != v));
        assert_eq!(ArmCondition::GT.check(&p), Ok(!z && (n == v)));
        assert_eq!(ArmCondition::LE.check(&p), Ok(z || (n != v)));
        assert_eq!(ArmCondition::AL.check(&p), Ok(true));
        assert_eq!(ArmCondition::NV.check(&p), Err(GbaError::ReservedArmConditionNV));
    }
}

/// LSL #0 is the identity on the value and preserves the carry;
/// ROR #0 decodes to RRX; shifting by 32 zeroes the value for LSL and
/// LSR and exposes the expected end bit as carry.
#[test]
fn shifter_edge_table() {
    for &x in &[0u32, 1, 2, 0x8000_0001, 0xFFFF_FFFF, 0x1234_5678] {
        for &carry in &[false, true] {
            // LSL #0 decodes to the identity.
            let nop = ArmBSOP::decode_immediate(0, 0);
            assert_eq!(nop, ArmBSOP::NOP);
            assert_eq!(bsop_shift_carry(nop, x, carry, 0), (x, carry));
            assert_eq!(bsop_shift_value(nop, x, carry, 0), x);

            // ROR #0 decodes to RRX: carry into bit 31, bit 0 out.
            let rrx = ArmBSOP::decode_immediate(3, 0);
            assert_eq!(rrx, ArmBSOP::RRX);
            let expect = (x >> 1) | if carry { 0x8000_0000 } else { 0 };
            assert_eq!(bsop_shift_carry(rrx, x, carry, 0), (expect, x & 1 == 1));

            // Shift by 32, reached through a register amount.
            let lsl = ArmBSOP::LSL_Reg(2);
            assert_eq!(bsop_shift_carry(lsl, x, carry, 32), (0, x & 1 == 1));
            let lsr = ArmBSOP::LSR_Reg(2);
            assert_eq!(bsop_shift_carry(lsr, x, carry, 32), (0, x >> 31 == 1));

            // LSR #0 decodes to LSR #32.
            assert_eq!(ArmBSOP::decode_immediate(1, 0), ArmBSOP::LSR_32);
            assert_eq!(bsop_shift_carry(ArmBSOP::LSR_32, x, carry, 0), (0, x >> 31 == 1));
        }
    }
}

/// Writing each mode into a PSR and reading it back returns that
/// mode, whatever else the word held.
#[test]
fn psr_mode_round_trip() {
    let modes = [
        Mode::User,
        Mode::FIQ,
        Mode::IRQ,
        Mode::Supervisor,
        Mode::Abort,
        Mode::Undefined,
        Mode::System,
    ];
    for &start in &[0u32, 0xFFFF_FFFF, 0xDEAD_BEEF, 0x1F] {
        for m in modes {
            let mut p = CPSR(start);
            p.set_mode(m);
            assert_eq!(p.mode(), Ok(m));
        }
    }
    // An unknown pattern is a recoverable error, not a crash.
    assert_eq!(CPSR(0).mode(), Err(GbaError::InvalidPsrMode));
    assert_eq!(CPSR(0x0E).mode(), Err(GbaError::InvalidPsrMode));
}

/// The PSR flag accessors see exactly the bits the setters wrote.
#[test]
fn psr_flags_and_bits() {
    let mut p = CPSR(0);
    p.set_N(true);
    p.set_C(true);
    assert!(p.N() && !p.Z() && p.C() && !p.V());
    assert_eq!(p.condition_bits(), 0b1010);
    p.set_state(State::THUMB);
    assert_eq!(p.state(), State::THUMB);
    p.set_state(State::ARM);
    assert_eq!(p.state(), State::ARM);
    p.disable_irq();
    p.disable_fiq();
    assert!(p.irq_disabled() && p.fiq_disabled());
    p.enable_irq();
    p.enable_fiq();
    assert!(!p.irq_disabled() && !p.fiq_disabled());
    let mut q = CPSR(0xFFFF_FFFF);
    q.clear_reserved_bits();
    assert_eq!(q.0, 0xF000_00FF);
    assert_eq!(Mode::FIQ.as_bits(), 0x11);
}

/// Byte writes read back as the low byte of what was written, in each
/// byte-writable region.
#[test]
fn bus_byte_round_trip() {
    let mut bus = fresh_bus();
    for &(addr, val) in &[
        (0x0200_0000u32, 0xDEAD_BEAAu32),
        (0x0203_FFFF, 0x5B),
        (0x0300_0000, 0x1FF),
        (0x0300_7FFF, 0x80),
        (0x0400_0000, 0x42),
        (0x0E00_0000, 0xFFFF_FF7F),
        (0x0E00_FFFF, 0x101),
    ] {
        bus.store_byte(addr, val).unwrap();
        assert_eq!(bus.load_byte(addr), Ok(val & 0xFF));
    }
}

/// Word writes read back whole at aligned addresses and rotated at
/// mis-aligned ones; individual bytes land little endian.
#[test]
fn bus_word_round_trip() {
    let mut bus = fresh_bus();
    bus.store_word(0x0300_0100, 0x1122_3344).unwrap();
    assert_eq!(bus.load_word(0x0300_0100), Ok(0x1122_3344));
    assert_eq!(bus.load_byte(0x0300_0100), Ok(0x44));
    assert_eq!(bus.load_byte(0x0300_0101), Ok(0x33));
    assert_eq!(bus.load_byte(0x0300_0102), Ok(0x22));
    assert_eq!(bus.load_byte(0x0300_0103), Ok(0x11));
    // Mis-aligned reads rotate right by 8 bits per skipped byte.
    assert_eq!(bus.load_word(0x0300_0101), Ok(0x4411_2233));
    assert_eq!(bus.load_word(0x0300_0102), Ok(0x3344_1122));
    assert_eq!(bus.load_word(0x0300_0103), Ok(0x2233_4411));
    // Halfwords, aligned and rounded down.
    bus.store_halfword(0x0300_0200, 0xABCD).unwrap();
    assert_eq!(bus.load_halfword(0x0300_0200), Ok(0xABCD));
    assert_eq!(bus.load_halfword(0x0300_0201), Ok(0xABCD));
    // A mis-aligned store rounds the address down.
    bus.store_word(0x0300_0302, 0x0BAD_F00D).unwrap();
    assert_eq!(bus.load_word(0x0300_0300), Ok(0x0BAD_F00D));
}

/// Each bus rule produces its own error: unmapped addresses, writes
/// into ROM regions, and widths a region does not support.
#[test]
fn bus_error_rules() {
    let mut bus = fresh_bus();
    assert_eq!(bus.load_byte(0x0100_0000), Err(GbaError::InvalidPhysicalAddress(0x0100_0000)));
    assert_eq!(bus.store_word(0x0000_0010, 1), Err(GbaError::InvalidRomAccess(0x0000_0010)));
    assert_eq!(bus.store_byte(0x0800_0000, 1), Err(GbaError::InvalidRomAccess(0x0800_0000)));
    assert_eq!(
        bus.load_halfword(0x0E00_0000),
        Err(GbaError::InvalidMemoryBusWidth(0x0E00_0000, 16))
    );
    assert_eq!(
        bus.load_word(0x0E00_0000),
        Err(GbaError::InvalidMemoryBusWidth(0x0E00_0000, 32))
    );
    assert_eq!(bus.load_byte(0x0500_0000), Err(GbaError::InvalidMemoryBusWidth(0x0500_0000, 8)));
    assert_eq!(bus.store_byte(0x0600_0000, 1), Err(GbaError::InvalidMemoryBusWidth(0x0600_0000, 8)));
    // Palette, VRAM and OAM do accept halfwords.
    bus.store_halfword(0x0500_0000, 0x7FFF).unwrap();
    assert_eq!(bus.load_halfword(0x0500_0000), Ok(0x7FFF));
    // The BIOS region reads but never writes.
    assert_eq!(bus.load_word(0x0000_0000), Ok(0));
}

/// The address map classifies each region boundary and restores the
/// original address on the way back.
#[test]
fn physical_address_map() {
    assert_eq!(PhysicalAddress::from_u32(0x0000_1234), PhysicalAddress::BiosROM(0x1234));
    assert_eq!(PhysicalAddress::from_u32(0x0203_FFFF), PhysicalAddress::OnBoardWRAM(0x3_FFFF));
    assert_eq!(PhysicalAddress::from_u32(0x0300_7FFF), PhysicalAddress::OnChipWRAM(0x7FFF));
    assert_eq!(PhysicalAddress::from_u32(0x0400_03FF), PhysicalAddress::RegistersIO(0x3FF));
    assert_eq!(PhysicalAddress::from_u32(0x0500_0001), PhysicalAddress::PaletteRAM(1));
    assert_eq!(PhysicalAddress::from_u32(0x0601_7FFF), PhysicalAddress::VRAM(0x1_7FFF));
    assert_eq!(PhysicalAddress::from_u32(0x0700_0000), PhysicalAddress::AttributesOBJ(0));
    assert_eq!(PhysicalAddress::from_u32(0x09FF_FFFF), PhysicalAddress::GamePak0ROM(0x1FF_FFFF));
    assert_eq!(PhysicalAddress::from_u32(0x0A00_0000), PhysicalAddress::GamePak1ROM(0));
    assert_eq!(PhysicalAddress::from_u32(0x0DFF_FFFF), PhysicalAddress::GamePak2ROM(0x1FF_FFFF));
    assert_eq!(PhysicalAddress::from_u32(0x0E00_1234), PhysicalAddress::GamePakSRAM(0x1234));
    assert_eq!(PhysicalAddress::from_u32(0x1234_5678), PhysicalAddress::Invalid(0x1234_5678));
    for &a in &[0x0000_1234u32, 0x0300_7FFF, 0x0A00_0000, 0x1234_5678] {
        assert_eq!(PhysicalAddress::from_u32(a).to_u32(), a);
    }
}

/// Decoding keeps the raw word: re-encoding a decoded instruction
/// returns exactly the word that was decoded, for each family.
#[test]
fn encode_decode_round_trip() {
    let samples: &[(u32, ArmOpcode)] = &[
        (0xE12F_FF11, ArmOpcode::BX),
        (0xEA00_0001, ArmOpcode::B_BL),
        (0xE001_2394, ArmOpcode::MUL_MLA),
        (0xE081_2394, ArmOpcode::MULL_MLAL),
        (0xE3A0_0001, ArmOpcode::DataProcessing),
        (0xE10F_1000, ArmOpcode::MRS),
        (0xE129_F002, ArmOpcode::MSR_Reg),
        (0xE328_F20F, ArmOpcode::MSR_Flags),
        (0xE591_0000, ArmOpcode::LDR_STR),
        (0xE1D1_00B0, ArmOpcode::LDRH_STRH_Imm),
        (0xE8FD_800F, ArmOpcode::LDM_STM),
        (0xE101_0092, ArmOpcode::SWP),
        (0xEF00_0042, ArmOpcode::SWI),
        (0xEE00_0000, ArmOpcode::CDP),
        (0xEE00_0010, ArmOpcode::MRC_MCR),
        (0xEC00_0000, ArmOpcode::LDC_STC),
        (0x06CC_CCD6, ArmOpcode::Unknown),
    ];
    for &(raw, op) in samples {
        let inst = ArmInstruction::decode(raw).unwrap();
        assert_eq!(inst.opcode(), op);
        assert_eq!(inst.raw, raw);
    }
}

/// Every decoded instruction's register fields lie in 0..16, and the
/// branch offset is a multiple of four inside the signed 26-bit
/// range.
#[test]
fn decoded_field_ranges() {
    for &raw in &[0u32, 0xFFFF_FFFF, 0x1234_5678, 0xEAFF_FFFD, 0xEA80_0000] {
        let inst = ArmInstruction::decode(raw).unwrap();
        assert!(inst.Rn() < 16 && inst.Rd() < 16 && inst.Rs() < 16 && inst.Rm() < 16);
        let off = inst.branch_offset();
        assert!(off % 4 == 0);
        assert!((-0x0200_0000..0x0200_0000).contains(&off));
    }
}

/// The validity rules: PC misuse, multiply register reuse and
/// write-back on post-indexed halfword forms are refused.
#[test]
fn validity_rules() {
    // MUL with Rm = PC.
    let i = ArmInstruction::decode(0xE001_239F).unwrap();
    assert_eq!(i.check_is_valid(), Err(GbaError::InvalidUseOfR15));
    // MUL with Rd == Rm.
    let i = ArmInstruction::decode(0xE001_2392).unwrap();
    assert_eq!(i.check_is_valid(), Err(GbaError::InvalidRegisterReuse(1, 2, 3, 2)));
    // LDRH post-indexed with write-back.
    let i = ArmInstruction::decode(0xE0F1_00B0).unwrap();
    assert_eq!(i.opcode(), ArmOpcode::LDRH_STRH_Imm);
    assert_eq!(i.check_is_valid(), Err(GbaError::InvalidOffsetWriteBack));
    // A plain data-processing word is fine.
    let i = ArmInstruction::decode(0xE3A0_0001).unwrap();
    assert_eq!(i.check_is_valid(), Ok(()));
}

/// Privileged operations are refused in User mode, and executing the
/// reserved condition is reported.
#[test]
fn privileged_and_reserved() {
    let mut cpu = Arm7Tdmi::new();
    let mut bus = fresh_bus();
    cpu.reset();
    cpu.cpsr = CPSR(0x10);
    cpu.mode = gbars::psr::Mode::User;
    // mrs R0, SPSR in User mode.
    let i = ArmInstruction::decode(0xE14F_0000).unwrap();
    assert_eq!(cpu.execute_arm_state(&mut bus, i), Err(GbaError::PrivilegedUserCode));
    // A SWI under the reserved NV condition.
    let i = ArmInstruction::decode(0xFF00_0000).unwrap();
    assert_eq!(cpu.execute_arm_state(&mut bus, i), Err(GbaError::ReservedArmConditionNV));
    // A test opcode without the S bit is malformed.
    let i = ArmInstruction::decode(0x0100_0000).unwrap();
    assert_eq!(i.opcode(), ArmOpcode::DataProcessing);
    cpu.cpsr.set_Z(true); // make the EQ condition pass
    assert_eq!(cpu.execute_arm_state(&mut bus, i), Err(GbaError::InvalidArmInstruction(0x0100_0000)));
}

/// The ALU's arithmetic flags: carry out of an unsigned overflow and
/// the signed-overflow bit from adding two large positives.
#[test]
fn alu_flags_add() {
    let mut cpu = Arm7Tdmi::new();
    let mut bus = fresh_bus();
    cpu.reset();
    // adds R0, R1, R2
    let adds = ArmInstruction::decode(0xE091_0002).unwrap();
    cpu.gpr[1] = 0xFFFF_FFFF;
    cpu.gpr[2] = 1;
    cpu.execute_arm_state(&mut bus, adds).unwrap();
    assert_eq!(cpu.gpr[0], 0);
    assert!(cpu.cpsr.Z() && cpu.cpsr.C() && !cpu.cpsr.N() && !cpu.cpsr.V());

    cpu.gpr[1] = 0x7FFF_FFFF;
    cpu.gpr[2] = 1;
    cpu.execute_arm_state(&mut bus, adds).unwrap();
    assert_eq!(cpu.gpr[0], 0x8000_0000);
    assert!(cpu.cpsr.N() && !cpu.cpsr.Z() && !cpu.cpsr.C() && cpu.cpsr.V());

    // subs R0, R1, R2: no borrow means carry set.
    let subs = ArmInstruction::decode(0xE051_0002).unwrap();
    cpu.gpr[1] = 5;
    cpu.gpr[2] = 7;
    cpu.execute_arm_state(&mut bus, subs).unwrap();
    assert_eq!(cpu.gpr[0], 0xFFFF_FFFE);
    assert!(cpu.cpsr.N() && !cpu.cpsr.C());
}

/// The long multiplies place the 64-bit product as RdHi:RdLo.
#[test]
fn long_multiply() {
    let mut cpu = Arm7Tdmi::new();
    let mut bus = fresh_bus();
    cpu.reset();
    // umull R2, R1, R4, R3  (RdLo = R2, RdHi = R1)
    let umull = ArmInstruction::decode(0xE081_2394).unwrap();
    cpu.gpr[4] = 0xFFFF_FFFF;
    cpu.gpr[3] = 0xFFFF_FFFF;
    cpu.execute_arm_state(&mut bus, umull).unwrap();
    assert_eq!(cpu.gpr[1], 0xFFFF_FFFE); // high word
    assert_eq!(cpu.gpr[2], 0x0000_0001); // low word
    // smull R2, R1, R4, R3: (-1) * (-1) = 1.
    let smull = ArmInstruction::decode(0xE0C1_2394).unwrap();
    cpu.gpr[4] = 0xFFFF_FFFF;
    cpu.gpr[3] = 0xFFFF_FFFF;
    cpu.execute_arm_state(&mut bus, smull).unwrap();
    assert_eq!(cpu.gpr[1], 0);
    assert_eq!(cpu.gpr[2], 1);
}

/// The THUMB decoder recognises each family in order, rejects the
/// undefined BAL pattern, and exposes the small register fields.
#[test]
fn thumb_decode_families() {
    assert_eq!(ThumbInstruction::decode(0x1800).unwrap().opcode(), ThumbOpcode::AddSub);
    assert_eq!(ThumbInstruction::decode(0x0000).unwrap().opcode(), ThumbOpcode::MoveShiftedReg);
    assert_eq!(ThumbInstruction::decode(0x2000).unwrap().opcode(), ThumbOpcode::DataProcessingFlags);
    assert_eq!(ThumbInstruction::decode(0x4340).unwrap().opcode(), ThumbOpcode::AluMul);
    assert_eq!(ThumbInstruction::decode(0x4000).unwrap().opcode(), ThumbOpcode::AluOperation);
    assert_eq!(ThumbInstruction::decode(0x46C0).unwrap().opcode(), ThumbOpcode::HiRegOpBx);
    assert_eq!(ThumbInstruction::decode(0x4800).unwrap().opcode(), ThumbOpcode::LdrPcImm);
    assert_eq!(ThumbInstruction::decode(0x5000).unwrap().opcode(), ThumbOpcode::LdrStrReg);
    assert_eq!(ThumbInstruction::decode(0x5200).unwrap().opcode(), ThumbOpcode::LdrhStrhReg);
    assert_eq!(ThumbInstruction::decode(0x6000).unwrap().opcode(), ThumbOpcode::LdrStrImm);
    assert_eq!(ThumbInstruction::decode(0x8000).unwrap().opcode(), ThumbOpcode::LdrhStrhImm);
    assert_eq!(ThumbInstruction::decode(0x9000).unwrap().opcode(), ThumbOpcode::LdrStrSpImm);
    assert_eq!(ThumbInstruction::decode(0xA000).unwrap().opcode(), ThumbOpcode::CalcAddrImm);
    assert_eq!(ThumbInstruction::decode(0xB000).unwrap().opcode(), ThumbOpcode::AddSpOffs);
    assert_eq!(ThumbInstruction::decode(0xB400).unwrap().opcode(), ThumbOpcode::PushPopRegs);
    assert_eq!(ThumbInstruction::decode(0xC000).unwrap().opcode(), ThumbOpcode::LdmStmRegs);
    assert_eq!(ThumbInstruction::decode(0xDF42).unwrap().opcode(), ThumbOpcode::SoftwareInterrupt);
    assert_eq!(
        ThumbInstruction::decode(0xDE00),
        Err(GbaError::InvalidThumbInstruction(0xDE00))
    );
    assert_eq!(ThumbInstruction::decode(0xD000).unwrap().opcode(), ThumbOpcode::BranchConditionOffs);
    assert_eq!(ThumbInstruction::decode(0xE000).unwrap().opcode(), ThumbOpcode::BranchOffs);
    assert_eq!(ThumbInstruction::decode(0xF000).unwrap().opcode(), ThumbOpcode::BranchLongOffs);
    assert_eq!(
        ThumbInstruction::decode(0xE800),
        Err(GbaError::InvalidThumbInstruction(0xE800))
    );

    let i = ThumbInstruction::decode(0x1888).unwrap(); // add R0, R1, R2
    assert_eq!(i.Rd(), 0);
    assert_eq!(i.Rs(), 1);
    assert_eq!(i.Rn(), 2);
    assert!(!i.is_Rn_immediate());
    let i = ThumbInstruction::decode(0x46C0).unwrap(); // mov R8, R8
    assert_eq!(i.Hd(), 8);
    assert_eq!(i.Hs(), 8);
    let i = ThumbInstruction::decode(0xD0FE).unwrap(); // beq back two
    assert_eq!(i.condition(), ArmCondition::EQ);
    assert_eq!(i.offs9(), -4);
    let i = ThumbInstruction::decode(0xE7FE).unwrap(); // b back two
    assert_eq!(i.offs12(), -4);
}

/// The GamePak header: the complement check over a crafted header,
/// the version byte, the image size and the title scan.
#[test]
fn gamepak_header() {
    let mut rom = GamePakRom::new();
    let mut image = vec![0u8; 0xC0];
    // A title that stops at the first zero byte.
    for (k, b) in b"METROID".iter().enumerate() {
        image[0xA0 + k] = *b;
    }
    image[0xBC] = 3; // version
    // Compute the complement checksum the header rules demand.
    let mut sum: u8 = 0;
    for i in 0xA0..0xBC {
        sum = sum.wrapping_add(image[i]);
    }
    image[0xBD] = 0u8.wrapping_sub(sum).wrapping_sub(0x19);
    rom.load_from_bytes(&image);

    assert_eq!(rom.loaded_rom_len, 0xC0);
    assert_eq!(rom.loaded_rom_title_len, 7);
    let header = rom.header();
    assert!(header.complement_check());
    assert_eq!(header.game_version(), 3);
    assert_eq!(header.rom_size(), 0xC0);

    // Break the checksum byte: the check fails.
    let mut bad = image.clone();
    bad[0xBD] = bad[0xBD].wrapping_add(1);
    rom.load_from_bytes(&bad);
    assert!(!rom.header().complement_check());
}

/// Branches: B moves PC by the biased offset, BL records the return
/// address, BX switches to THUMB state on an odd target.
#[test]
fn branches() {
    let mut cpu = Arm7Tdmi::new();
    let mut bus = fresh_bus();
    cpu.reset();
    cpu.gpr[15] = 0x100;
    // b #+8 (offset field 2 -> +8)
    let b = ArmInstruction::decode(0xEA00_0002).unwrap();
    cpu.execute_arm_state(&mut bus, b).unwrap();
    assert_eq!(cpu.gpr[15], 0x108);
    // bl backwards: offset field 0xFFFFFD -> -12.
    cpu.gpr[15] = 0x100;
    let bl = ArmInstruction::decode(0xEBFF_FFFD).unwrap();
    cpu.execute_arm_state(&mut bus, bl).unwrap();
    assert_eq!(cpu.gpr[14], 0xFC);
    assert_eq!(cpu.gpr[15], 0xF4);
    // bx R1 with an odd address enters THUMB state.
    cpu.gpr[1] = 0x0300_0001;
    let bx = ArmInstruction::decode(0xE12F_FF11).unwrap();
    cpu.execute_arm_state(&mut bus, bx).unwrap();
    assert_eq!(cpu.state, State::THUMB);
    assert_eq!(cpu.cpsr.state(), State::THUMB);
    assert_eq!(cpu.gpr[15], 0x0300_0000);
}

/// SWP exchanges a word with memory atomically from the program's
/// point of view: the old memory value lands in Rd.
#[test]
fn swap_word() {
    let mut cpu = Arm7Tdmi::new();
    let mut bus = fresh_bus();
    cpu.reset();
    bus.store_word(0x0300_0010, 0x0101_0101).unwrap();
    cpu.gpr[1] = 0x0300_0010;
    cpu.gpr[2] = 0x2222_2222;
    // swp R0, R2, [R1]
    let swp = ArmInstruction::decode(0xE101_0092).unwrap();
    cpu.execute_arm_state(&mut bus, swp).unwrap();
    assert_eq!(cpu.gpr[0], 0x0101_0101);
    assert_eq!(bus.load_word(0x0300_0010), Ok(0x2222_2222));
}

/// STM stores ascending registers at ascending addresses; LDM loads
/// them back; the base write-back happens first.
#[test]
fn block_transfer_round_trip() {
    let mut cpu = Arm7Tdmi::new();
    let mut bus = fresh_bus();
    cpu.reset();
    cpu.gpr[0] = 0xAA;
    cpu.gpr[1] = 0xBB;
    cpu.gpr[2] = 0xCC;
    cpu.gpr[13] = 0x0300_0100;
    // stmia R13!, {R0-R2}
    let stm = ArmInstruction::decode(0xE8AD_0007).unwrap();
    cpu.execute_arm_state(&mut bus, stm).unwrap();
    assert_eq!(cpu.gpr[13], 0x0300_010C);
    assert_eq!(bus.load_word(0x0300_0100), Ok(0xAA));
    assert_eq!(bus.load_word(0x0300_0104), Ok(0xBB));
    assert_eq!(bus.load_word(0x0300_0108), Ok(0xCC));
    // ldmdb R13!, {R3-R5} reads them back downwards.
    cpu.gpr[13] = 0x0300_010C;
    let ldm = ArmInstruction::decode(0xE93D_0038).unwrap();
    cpu.execute_arm_state(&mut bus, ldm).unwrap();
    assert_eq!(cpu.gpr[3], 0xAA);
    assert_eq!(cpu.gpr[4], 0xBB);
    assert_eq!(cpu.gpr[5], 0xCC);
    assert_eq!(cpu.gpr[13], 0x0300_0100);
}

/// Halfword transfers: STRH stores the low halfword, LDRSB and LDRSH
/// sign-extend what they load.
#[test]
fn halfword_and_signed_transfers() {
    let mut cpu = Arm7Tdmi::new();
    let mut bus = fresh_bus();
    cpu.reset();
    cpu.gpr[1] = 0x0300_0020;
    cpu.gpr[0] = 0x1234_FEDC;
    // strh R0, [R1]
    let strh = ArmInstruction::decode(0xE1C1_00B0).unwrap();
    cpu.execute_arm_state(&mut bus, strh).unwrap();
    assert_eq!(bus.load_halfword(0x0300_0020), Ok(0xFEDC));
    // ldrh R2, [R1]
    let ldrh = ArmInstruction::decode(0xE1D1_20B0).unwrap();
    cpu.execute_arm_state(&mut bus, ldrh).unwrap();
    assert_eq!(cpu.gpr[2], 0xFEDC);
    // ldrsh R3, [R1] sign-extends bit 15.
    let ldrsh = ArmInstruction::decode(0xE1D1_30F0).unwrap();
    cpu.execute_arm_state(&mut bus, ldrsh).unwrap();
    assert_eq!(cpu.gpr[3], 0xFFFF_FEDC);
    // ldrsb R4, [R1] sign-extends bit 7.
    let ldrsb = ArmInstruction::decode(0xE1D1_40D0).unwrap();
    cpu.execute_arm_state(&mut bus, ldrsb).unwrap();
    assert_eq!(cpu.gpr[4], 0xFFFF_FFDC);
}

/// The failing condition skips the instruction but the step still
/// advances PC by one instruction width.
#[test]
fn condition_failure_is_noop() {
    let mut cpu = Arm7Tdmi::new();
    let mut bus = fresh_bus();
    cpu.reset();
    cpu.gpr[0] = 7;
    // moveq R0, #1 with Z clear: skipped.
    let i = ArmInstruction::decode(0x03A0_0001).unwrap();
    let action = cpu.execute_arm_state(&mut bus, i).unwrap();
    assert!(matches!(action, gbars::arm7tdmi::CpuAction::Advance));
    assert_eq!(cpu.gpr[0], 7);
}

/// Exceptions have the architected priorities, entry modes and vector
/// addresses.
#[test]
fn exception_tables() {
    assert_eq!(Reset.priority(), 1);
    assert_eq!(DataAbort.priority(), 2);
    assert_eq!(FastInterrupt.priority(), 3);
    assert_eq!(AddressExceeds26Bit.priority(), 3);
    assert_eq!(NormalInterrupt.priority(), 4);
    assert_eq!(PrefetchAbort.priority(), 5);
    assert_eq!(SoftwareInterrupt.priority(), 6);
    assert_eq!(UndefinedInstruction.priority(), 7);
    assert_eq!(Reset.vector_address(), 0x00);
    assert_eq!(UndefinedInstruction.vector_address(), 0x04);
    assert_eq!(SoftwareInterrupt.vector_address(), 0x08);
    assert_eq!(PrefetchAbort.vector_address(), 0x0C);
    assert_eq!(DataAbort.vector_address(), 0x10);
    assert_eq!(AddressExceeds26Bit.vector_address(), 0x14);
    assert_eq!(NormalInterrupt.vector_address(), 0x18);
    assert_eq!(FastInterrupt.vector_address(), 0x1C);
    assert_eq!(Reset.mode_on_entry(), Mode::Supervisor);
    assert_eq!(FastInterrupt.mode_on_entry(), Mode::FIQ);
    assert!(Reset.disable_fiq_on_entry());
    assert!(FastInterrupt.disable_fiq_on_entry());
    assert!(!SoftwareInterrupt.disable_fiq_on_entry());
}

/// Errors bubble out of a pipeline step unchanged: fetching from an
/// unmapped address stops the step with the bus's own error.
#[test]
fn pipeline_error_propagation() {
    let mut cpu = Arm7Tdmi::new();
    let mut bus = fresh_bus();
    cpu.reset();
    cpu.gpr[15] = 0x0100_0000; // outside every region
    assert_eq!(
        cpu.pipeline_step(&mut bus),
        Err(GbaError::InvalidPhysicalAddress(0x0100_0000))
    );
    // Nothing advanced.
    assert_eq!(cpu.gpr[15], 0x0100_0000);
}

/// Writing the CPSR through MSR switches banks when the mode field
/// changes, and an illegal pattern is reported as an error.
#[test]
fn msr_mode_switch() {
    let mut cpu = Arm7Tdmi::new();
    let mut bus = fresh_bus();
    cpu.reset();
    cpu.gpr[13] = 0x5555; // Supervisor's stack pointer
    // msr CPSR, R0 with an IRQ-mode pattern.
    cpu.gpr[0] = 0xD2;
    let msr = ArmInstruction::decode(0xE129_F000).unwrap();
    cpu.execute_arm_state(&mut bus, msr).unwrap();
    assert_eq!(cpu.mode, Mode::IRQ);
    assert_eq!(cpu.cpsr.mode(), Ok(Mode::IRQ));
    assert_eq!(cpu.gpr_r13_all[Mode::Supervisor.index()], 0x5555);
    // An unknown mode pattern leaves the CPSR written but errors out.
    cpu.gpr[0] = 0x03;
    assert_eq!(cpu.execute_arm_state(&mut bus, msr), Err(GbaError::InvalidPsrMode));
}

/// The register diff rolls the PSR history forward and marks exactly
/// the registers the snapshot changed.
#[test]
fn register_diff() {
    let mut cpu = Arm7Tdmi::new();
    cpu.reset();
    let mut d = gbars::diff::Arm7TdmiDiff::new();
    assert!(d.is_colourising());
    d.set_colourising(false);
    assert!(!d.is_colourising());
    d.diff(&cpu);
    assert_eq!(d.gpr_new, 0);
    cpu.gpr[0] = 0x42;
    cpu.gpr[5] = 0x99;
    d.diff(&cpu);
    assert_eq!(d.gpr_new, (1 << 0) | (1 << 5));
    assert_eq!(d.gpr[0], 0x42);
    assert_eq!(d.gpr[5], 0x99);
    // A snapshot restores every part of the CPU state.
    let snap = cpu.snapshot();
    assert_eq!(snap.gpr, cpu.gpr);
    assert_eq!(snap.cpsr.0, cpu.cpsr.0);
    assert_eq!(snap.mode, cpu.mode);
}

/// Mode changes keep R13/R14 per mode: values written in one mode
/// are still there after a round trip through another.
#[test]
fn mode_change_round_trip() {
    let mut cpu = Arm7Tdmi::new();
    cpu.reset();
    cpu.gpr[13] = 0x111;
    cpu.gpr[14] = 0x222;
    cpu.change_mode(Mode::IRQ);
    cpu.gpr[13] = 0x333;
    cpu.gpr[14] = 0x444;
    cpu.change_mode(Mode::Supervisor);
    assert_eq!(cpu.gpr[13], 0x111);
    assert_eq!(cpu.gpr[14], 0x222);
    cpu.change_mode(Mode::IRQ);
    assert_eq!(cpu.gpr[13], 0x333);
    assert_eq!(cpu.gpr[14], 0x444);
}
