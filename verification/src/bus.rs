//! The memory bus: routes byte, halfword and word accesses to the
//! GBA's backing stores, enforcing each region's legal access widths.
//!
//! Every operation classifies the address, rejects widths the region
//! does not support, rejects writes to ROM regions, and rejects
//! unmapped addresses; otherwise it forwards to the backing store at
//! the region-local offset. Word reads from a mis-aligned address
//! return the aligned word rotated right by eight bits per skipped
//! byte; writes round the address down to the natural alignment.

use vstd::prelude::*;

use crate::bitutil::{ror32, u32_ror};
use crate::error::GbaError;
use crate::gamepak::{gamepak_wf, GamePak};
use crate::ioregs::IoRegisters;
use crate::memory::{
    bios_wf, classify_spec, le16_at, le32_at, lemma_align, ram_read16, ram_read32, ram_read8,
    ram_write16, ram_write32, ram_write8, zero_bytes, BiosRom, PhysicalAddress,
};

verus! {

/// The bus's contents as plain byte sequences, one per region backed
/// by memory. The three GamePak ROM mirrors share one sequence.
pub struct BusView {
    /// BIOS ROM bytes.
    pub bios: Seq<u8>,
    /// On-board WRAM bytes.
    pub wram_board: Seq<u8>,
    /// On-chip WRAM bytes.
    pub wram_chip: Seq<u8>,
    /// IO register bytes.
    pub ioregs: Seq<u8>,
    /// Palette RAM bytes.
    pub palette: Seq<u8>,
    /// VRAM bytes.
    pub vram: Seq<u8>,
    /// OAM bytes.
    pub oam: Seq<u8>,
    /// GamePak ROM bytes, shared by the three wait-state mirrors.
    pub rom: Seq<u8>,
    /// GamePak SRAM bytes.
    pub sram: Seq<u8>,
}

/// Each region holds exactly its architected number of bytes.
pub open spec fn bus_view_wf(v: BusView) -> bool {
    &&& v.bios.len() == 0x4000
    &&& v.wram_board.len() == 0x4_0000
    &&& v.wram_chip.len() == 0x8000
    &&& v.ioregs.len() == 0x400
    &&& v.palette.len() == 0x400
    &&& v.vram.len() == 0x1_8000
    &&& v.oam.len() == 0x400
    &&& v.rom.len() == 0x200_0000
    &&& v.sram.len() == 0x1_0000
}

/// The result of a byte load: the stored byte zero-extended for the
/// byte-readable regions, the width error for palette/VRAM/OAM, and
/// the address error outside the map.
pub open spec fn load8_spec(v: BusView, addr: u32) -> Result<u32, GbaError> {
    match classify_spec(addr) {
        PhysicalAddress::BiosROM(p) => Ok(v.bios[p as int] as u32),
        PhysicalAddress::OnBoardWRAM(p) => Ok(v.wram_board[p as int] as u32),
        PhysicalAddress::OnChipWRAM(p) => Ok(v.wram_chip[p as int] as u32),
        PhysicalAddress::RegistersIO(p) => Ok(v.ioregs[p as int] as u32),
        PhysicalAddress::PaletteRAM(_) => Err(GbaError::InvalidMemoryBusWidth(addr, 8)),
        PhysicalAddress::VRAM(_) => Err(GbaError::InvalidMemoryBusWidth(addr, 8)),
        PhysicalAddress::AttributesOBJ(_) => Err(GbaError::InvalidMemoryBusWidth(addr, 8)),
        PhysicalAddress::GamePak0ROM(p) => Ok(v.rom[p as int] as u32),
        PhysicalAddress::GamePak1ROM(p) => Ok(v.rom[p as int] as u32),
        PhysicalAddress::GamePak2ROM(p) => Ok(v.rom[p as int] as u32),
        PhysicalAddress::GamePakSRAM(p) => Ok(v.sram[p as int] as u32),
        PhysicalAddress::Invalid(_) => Err(GbaError::InvalidPhysicalAddress(addr)),
    }
}

/// The result of a halfword load: the aligned halfword zero-extended.
/// SRAM only supports bytes; unmapped addresses fail.
pub open spec fn load16_spec(v: BusView, addr: u32) -> Result<u32, GbaError> {
    match classify_spec(addr) {
        PhysicalAddress::BiosROM(p) => Ok(le16_at(v.bios, (p & !1u32) as int)),
        PhysicalAddress::OnBoardWRAM(p) => Ok(le16_at(v.wram_board, (p & !1u32) as int)),
        PhysicalAddress::OnChipWRAM(p) => Ok(le16_at(v.wram_chip, (p & !1u32) as int)),
        PhysicalAddress::RegistersIO(p) => Ok(le16_at(v.ioregs, (p & !1u32) as int)),
        PhysicalAddress::PaletteRAM(p) => Ok(le16_at(v.palette, (p & !1u32) as int)),
        PhysicalAddress::VRAM(p) => Ok(le16_at(v.vram, (p & !1u32) as int)),
        PhysicalAddress::AttributesOBJ(p) => Ok(le16_at(v.oam, (p & !1u32) as int)),
        PhysicalAddress::GamePak0ROM(p) => Ok(le16_at(v.rom, (p & !1u32) as int)),
        PhysicalAddress::GamePak1ROM(p) => Ok(le16_at(v.rom, (p & !1u32) as int)),
        PhysicalAddress::GamePak2ROM(p) => Ok(le16_at(v.rom, (p & !1u32) as int)),
        PhysicalAddress::GamePakSRAM(_) => Err(GbaError::InvalidMemoryBusWidth(addr, 16)),
        PhysicalAddress::Invalid(_) => Err(GbaError::InvalidPhysicalAddress(addr)),
    }
}

/// The result of a word load: the word at the aligned address,
/// rotated right by eight bits for every byte of mis-alignment.
pub open spec fn load32_spec(v: BusView, addr: u32) -> Result<u32, GbaError> {
    match classify_spec(addr) {
        PhysicalAddress::BiosROM(p) => Ok(rotated_word(v.bios, p)),
        PhysicalAddress::OnBoardWRAM(p) => Ok(rotated_word(v.wram_board, p)),
        PhysicalAddress::OnChipWRAM(p) => Ok(rotated_word(v.wram_chip, p)),
        PhysicalAddress::RegistersIO(p) => Ok(rotated_word(v.ioregs, p)),
        PhysicalAddress::PaletteRAM(p) => Ok(rotated_word(v.palette, p)),
        PhysicalAddress::VRAM(p) => Ok(rotated_word(v.vram, p)),
        PhysicalAddress::AttributesOBJ(p) => Ok(rotated_word(v.oam, p)),
        PhysicalAddress::GamePak0ROM(p) => Ok(rotated_word(v.rom, p)),
        PhysicalAddress::GamePak1ROM(p) => Ok(rotated_word(v.rom, p)),
        PhysicalAddress::GamePak2ROM(p) => Ok(rotated_word(v.rom, p)),
        PhysicalAddress::GamePakSRAM(_) => Err(GbaError::InvalidMemoryBusWidth(addr, 32)),
        PhysicalAddress::Invalid(_) => Err(GbaError::InvalidPhysicalAddress(addr)),
    }
}

/// The aligned word at a region offset, rotated right by eight bits
/// per byte of mis-alignment.
pub open spec fn rotated_word(m: Seq<u8>, p: u32) -> u32 {
    u32_ror(le32_at(m, (p & !3u32) as int), ((p & 3u32) * 8) as u32)
}

/// A byte sequence with the low byte of `d` stored at `p`.
pub open spec fn upd8(m: Seq<u8>, p: u32, d: u32) -> Seq<u8> {
    m.update(p as int, (d & 0xFFu32) as u8)
}

/// A byte sequence with the low halfword of `d` stored little endian
/// at the aligned offset.
pub open spec fn upd16(m: Seq<u8>, p: u32, d: u32) -> Seq<u8> {
    m.update((p & !1u32) as int, (d & 0xFFu32) as u8).update(
        (p & !1u32) + 1,
        ((d >> 8u32) & 0xFFu32) as u8,
    )
}

/// A byte sequence with `d` stored little endian at the aligned
/// offset.
pub open spec fn upd32(m: Seq<u8>, p: u32, d: u32) -> Seq<u8> {
    m.update((p & !3u32) as int, (d & 0xFFu32) as u8).update(
        (p & !3u32) + 1,
        ((d >> 8u32) & 0xFFu32) as u8,
    ).update((p & !3u32) + 2, ((d >> 16u32) & 0xFFu32) as u8).update(
        (p & !3u32) + 3,
        (d >> 24u32) as u8,
    )
}

/// The effect of a byte store: the RAM regions that accept bytes are
/// updated; ROM regions reject the write, the 16/32-bit regions
/// reject the width, unmapped addresses fail.
pub open spec fn store8_spec(v: BusView, addr: u32, d: u32) -> Result<BusView, GbaError> {
    match classify_spec(addr) {
        PhysicalAddress::BiosROM(_) => Err(GbaError::InvalidRomAccess(addr)),
        PhysicalAddress::OnBoardWRAM(p) => Ok(BusView { wram_board: upd8(v.wram_board, p, d), ..v }),
        PhysicalAddress::OnChipWRAM(p) => Ok(BusView { wram_chip: upd8(v.wram_chip, p, d), ..v }),
        PhysicalAddress::RegistersIO(p) => Ok(BusView { ioregs: upd8(v.ioregs, p, d), ..v }),
        PhysicalAddress::PaletteRAM(_) => Err(GbaError::InvalidMemoryBusWidth(addr, 8)),
        PhysicalAddress::VRAM(_) => Err(GbaError::InvalidMemoryBusWidth(addr, 8)),
        PhysicalAddress::AttributesOBJ(_) => Err(GbaError::InvalidMemoryBusWidth(addr, 8)),
        PhysicalAddress::GamePak0ROM(_) => Err(GbaError::InvalidRomAccess(addr)),
        PhysicalAddress::GamePak1ROM(_) => Err(GbaError::InvalidRomAccess(addr)),
        PhysicalAddress::GamePak2ROM(_) => Err(GbaError::InvalidRomAccess(addr)),
        PhysicalAddress::GamePakSRAM(p) => Ok(BusView { sram: upd8(v.sram, p, d), ..v }),
        PhysicalAddress::Invalid(_) => Err(GbaError::InvalidPhysicalAddress(addr)),
    }
}

/// The effect of a halfword store.
pub open spec fn store16_spec(v: BusView, addr: u32, d: u32) -> Result<BusView, GbaError> {
    match classify_spec(addr) {
        PhysicalAddress::BiosROM(_) => Err(GbaError::InvalidRomAccess(addr)),
        PhysicalAddress::OnBoardWRAM(p) => Ok(
            BusView { wram_board: upd16(v.wram_board, p, d), ..v },
        ),
        PhysicalAddress::OnChipWRAM(p) => Ok(BusView { wram_chip: upd16(v.wram_chip, p, d), ..v }),
        PhysicalAddress::RegistersIO(p) => Ok(BusView { ioregs: upd16(v.ioregs, p, d), ..v }),
        PhysicalAddress::PaletteRAM(p) => Ok(BusView { palette: upd16(v.palette, p, d), ..v }),
        PhysicalAddress::VRAM(p) => Ok(BusView { vram: upd16(v.vram, p, d), ..v }),
        PhysicalAddress::AttributesOBJ(p) => Ok(BusView { oam: upd16(v.oam, p, d), ..v }),
        PhysicalAddress::GamePak0ROM(_) => Err(GbaError::InvalidRomAccess(addr)),
        PhysicalAddress::GamePak1ROM(_) => Err(GbaError::InvalidRomAccess(addr)),
        PhysicalAddress::GamePak2ROM(_) => Err(GbaError::InvalidRomAccess(addr)),
        PhysicalAddress::GamePakSRAM(_) => Err(GbaError::InvalidMemoryBusWidth(addr, 16)),
        PhysicalAddress::Invalid(_) => Err(GbaError::InvalidPhysicalAddress(addr)),
    }
}

/// The effect of a word store.
pub open spec fn store32_spec(v: BusView, addr: u32, d: u32) -> Result<BusView, GbaError> {
    match classify_spec(addr) {
        PhysicalAddress::BiosROM(_) => Err(GbaError::InvalidRomAccess(addr)),
        PhysicalAddress::OnBoardWRAM(p) => Ok(
            BusView { wram_board: upd32(v.wram_board, p, d), ..v },
        ),
        PhysicalAddress::OnChipWRAM(p) => Ok(BusView { wram_chip: upd32(v.wram_chip, p, d), ..v }),
        PhysicalAddress::RegistersIO(p) => Ok(BusView { ioregs: upd32(v.ioregs, p, d), ..v }),
        PhysicalAddress::PaletteRAM(p) => Ok(BusView { palette: upd32(v.palette, p, d), ..v }),
        PhysicalAddress::VRAM(p) => Ok(BusView { vram: upd32(v.vram, p, d), ..v }),
        PhysicalAddress::AttributesOBJ(p) => Ok(BusView { oam: upd32(v.oam, p, d), ..v }),
        PhysicalAddress::GamePak0ROM(_) => Err(GbaError::InvalidRomAccess(addr)),
        PhysicalAddress::GamePak1ROM(_) => Err(GbaError::InvalidRomAccess(addr)),
        PhysicalAddress::GamePak2ROM(_) => Err(GbaError::InvalidRomAccess(addr)),
        PhysicalAddress::GamePakSRAM(_) => Err(GbaError::InvalidMemoryBusWidth(addr, 32)),
        PhysicalAddress::Invalid(_) => Err(GbaError::InvalidPhysicalAddress(addr)),
    }
}

/// Implements the memory and bus system of the GBA: it owns the
/// backing stores and dispatches typed accesses to them.
pub struct Bus {
    /// The BIOS ROM.
    pub bios_rom: BiosRom,
    /// On-board (slow, 256 KiB) work RAM.
    pub wram_board: Vec<u8>,
    /// On-chip (fast, 32 KiB) work RAM.
    pub wram_chip: Vec<u8>,
    /// The memory-mapped IO registers.
    pub ioregs: IoRegisters,
    /// Palette RAM.
    pub palette: Vec<u8>,
    /// Video RAM.
    pub vram: Vec<u8>,
    /// Object attribute memory.
    pub oam: Vec<u8>,
    /// The GamePak cartridge.
    pub game_pak: GamePak,
}

impl View for Bus {
    type V = BusView;

    open spec fn view(&self) -> BusView {
        BusView {
            bios: self.bios_rom.data@,
            wram_board: self.wram_board@,
            wram_chip: self.wram_chip@,
            ioregs: self.ioregs.data@,
            palette: self.palette@,
            vram: self.vram@,
            oam: self.oam@,
            rom: self.game_pak.rom.data@,
            sram: self.game_pak.sram.data@,
        }
    }
}

/// A well-formed bus: all stores hold their architected lengths.
pub open spec fn bus_wf(b: &Bus) -> bool {
    bus_view_wf(b@)
}

impl Bus {
    /// Creates a new memory and bus system around a GamePak and a
    /// BIOS ROM, with all RAM zero-filled.
    pub fn new(gpak: GamePak, bios: BiosRom) -> (r: Bus)
        requires
            gamepak_wf(&gpak),
            bios_wf(&bios),
        ensures
            bus_wf(&r),
            r@.bios == bios.data@,
            r@.rom == gpak.rom.data@,
            r@.sram == gpak.sram.data@,
            forall|i: int| 0 <= i < 0x4_0000 ==> r@.wram_board[i] == 0u8,
            forall|i: int| 0 <= i < 0x8000 ==> r@.wram_chip[i] == 0u8,
            forall|i: int| 0 <= i < 0x400 ==> r@.ioregs[i] == 0u8,
            forall|i: int| 0 <= i < 0x400 ==> r@.palette[i] == 0u8,
            forall|i: int| 0 <= i < 0x1_8000 ==> r@.vram[i] == 0u8,
            forall|i: int| 0 <= i < 0x400 ==> r@.oam[i] == 0u8,
    {
        Bus {
            bios_rom: bios,
            wram_board: zero_bytes(0x4_0000),
            wram_chip: zero_bytes(0x8000),
            ioregs: IoRegisters::new(),
            palette: zero_bytes(0x400),
            vram: zero_bytes(0x1_8000),
            oam: zero_bytes(0x400),
            game_pak: gpak,
        }
    }

    /// Loads a byte from the memory system, zero-extended.
    pub fn load_byte(&self, addr: u32) -> (r: Result<u32, GbaError>)
        requires
            bus_wf(self),
        ensures
            r == load8_spec(self@, addr),
    {
        match PhysicalAddress::from_u32(addr) {
            PhysicalAddress::BiosROM(p) => Ok(self.bios_rom.read_byte(p) as u32),
            PhysicalAddress::OnBoardWRAM(p) => Ok(ram_read8(&self.wram_board, p) as u32),
            PhysicalAddress::OnChipWRAM(p) => Ok(ram_read8(&self.wram_chip, p) as u32),
            PhysicalAddress::RegistersIO(p) => Ok(self.ioregs.read_byte(p) as u32),
            PhysicalAddress::PaletteRAM(_) => Err(GbaError::InvalidMemoryBusWidth(addr, 8)),
            PhysicalAddress::VRAM(_) => Err(GbaError::InvalidMemoryBusWidth(addr, 8)),
            PhysicalAddress::AttributesOBJ(_) => Err(GbaError::InvalidMemoryBusWidth(addr, 8)),
            PhysicalAddress::GamePak0ROM(p) => Ok(self.game_pak.rom.read_byte(p) as u32),
            PhysicalAddress::GamePak1ROM(p) => Ok(self.game_pak.rom.read_byte(p) as u32),
            PhysicalAddress::GamePak2ROM(p) => Ok(self.game_pak.rom.read_byte(p) as u32),
            PhysicalAddress::GamePakSRAM(p) => Ok(self.game_pak.sram.read_byte(p) as u32),
            PhysicalAddress::Invalid(_) => Err(GbaError::InvalidPhysicalAddress(addr)),
        }
    }

    /// Loads a halfword from the memory system, zero-extended. A
    /// mis-aligned address is rounded down; the access does not fault.
    pub fn load_halfword(&self, addr: u32) -> (r: Result<u32, GbaError>)
        requires
            bus_wf(self),
        ensures
            r == load16_spec(self@, addr),
    {
        match PhysicalAddress::from_u32(addr) {
            PhysicalAddress::BiosROM(p) => Ok(self.bios_rom.read_halfword(p) as u32),
            PhysicalAddress::OnBoardWRAM(p) => Ok(ram_read16(&self.wram_board, p) as u32),
            PhysicalAddress::OnChipWRAM(p) => Ok(ram_read16(&self.wram_chip, p) as u32),
            PhysicalAddress::RegistersIO(p) => Ok(self.ioregs.read_halfword(p) as u32),
            PhysicalAddress::PaletteRAM(p) => Ok(ram_read16(&self.palette, p) as u32),
            PhysicalAddress::VRAM(p) => Ok(ram_read16(&self.vram, p) as u32),
            PhysicalAddress::AttributesOBJ(p) => Ok(ram_read16(&self.oam, p) as u32),
            PhysicalAddress::GamePak0ROM(p) => Ok(self.game_pak.rom.read_halfword(p) as u32),
            PhysicalAddress::GamePak1ROM(p) => Ok(self.game_pak.rom.read_halfword(p) as u32),
            PhysicalAddress::GamePak2ROM(p) => Ok(self.game_pak.rom.read_halfword(p) as u32),
            PhysicalAddress::GamePakSRAM(_) => Err(GbaError::InvalidMemoryBusWidth(addr, 16)),
            PhysicalAddress::Invalid(_) => Err(GbaError::InvalidPhysicalAddress(addr)),
        }
    }

    /// Loads a word from the memory system.
    ///
    /// The address is rounded down to the next word-aligned address,
    /// and the loaded word is then rotated right by as many bytes as
    /// the address was mis-aligned: a load of `0x0012` loads the word
    /// at `0x0010` rotated right by 16 bits.
    pub fn load_word(&self, addr: u32) -> (r: Result<u32, GbaError>)
        requires
            bus_wf(self),
        ensures
            r == load32_spec(self@, addr),
    {
        match PhysicalAddress::from_u32(addr) {
            PhysicalAddress::BiosROM(p) => {
                proof {
                    lemma_align(p);
                }
                Ok(ror32(self.bios_rom.read_word(p), (p & 3u32) * 8))
            },
            PhysicalAddress::OnBoardWRAM(p) => {
                proof {
                    lemma_align(p);
                }
                Ok(ror32(ram_read32(&self.wram_board, p), (p & 3u32) * 8))
            },
            PhysicalAddress::OnChipWRAM(p) => {
                proof {
                    lemma_align(p);
                }
                Ok(ror32(ram_read32(&self.wram_chip, p), (p & 3u32) * 8))
            },
            PhysicalAddress::RegistersIO(p) => {
                proof {
                    lemma_align(p);
                }
                Ok(ror32(self.ioregs.read_word(p), (p & 3u32) * 8))
            },
            PhysicalAddress::PaletteRAM(p) => {
                proof {
                    lemma_align(p);
                }
                Ok(ror32(ram_read32(&self.palette, p), (p & 3u32) * 8))
            },
            PhysicalAddress::VRAM(p) => {
                proof {
                    lemma_align(p);
                }
                Ok(ror32(ram_read32(&self.vram, p), (p & 3u32) * 8))
            },
            PhysicalAddress::AttributesOBJ(p) => {
                proof {
                    lemma_align(p);
                }
                Ok(ror32(ram_read32(&self.oam, p), (p & 3u32) * 8))
            },
            PhysicalAddress::GamePak0ROM(p) => {
                proof {
                    lemma_align(p);
                }
                Ok(ror32(self.game_pak.rom.read_word(p), (p & 3u32) * 8))
            },
            PhysicalAddress::GamePak1ROM(p) => {
                proof {
                    lemma_align(p);
                }
                Ok(ror32(self.game_pak.rom.read_word(p), (p & 3u32) * 8))
            },
            PhysicalAddress::GamePak2ROM(p) => {
                proof {
                    lemma_align(p);
                }
                Ok(ror32(self.game_pak.rom.read_word(p), (p & 3u32) * 8))
            },
            PhysicalAddress::GamePakSRAM(_) => Err(GbaError::InvalidMemoryBusWidth(addr, 32)),
            PhysicalAddress::Invalid(_) => Err(GbaError::InvalidPhysicalAddress(addr)),
        }
    }

    /// Stores a byte in the memory system.
    pub fn store_byte(&mut self, addr: u32, data: u32) -> (r: Result<(), GbaError>)
        requires
            bus_wf(old(self)),
        ensures
            bus_wf(final(self)),
            r == (match store8_spec(old(self)@, addr, data) {
                Ok(_) => Ok::<(), GbaError>(()),
                Err(e) => Err::<(), GbaError>(e),
            }),
            final(self)@ == (match store8_spec(old(self)@, addr, data) {
                Ok(v) => v,
                Err(_) => old(self)@,
            }),
    {
        let b: u8 = (data & 0xFFu32) as u8;
        match PhysicalAddress::from_u32(addr) {
            PhysicalAddress::BiosROM(_) => Err(GbaError::InvalidRomAccess(addr)),
            PhysicalAddress::OnBoardWRAM(p) => {
                ram_write8(&mut self.wram_board, p, b);
                Ok(())
            },
            PhysicalAddress::OnChipWRAM(p) => {
                ram_write8(&mut self.wram_chip, p, b);
                Ok(())
            },
            PhysicalAddress::RegistersIO(p) => {
                self.ioregs.write_byte(p, b);
                Ok(())
            },
            PhysicalAddress::PaletteRAM(_) => Err(GbaError::InvalidMemoryBusWidth(addr, 8)),
            PhysicalAddress::VRAM(_) => Err(GbaError::InvalidMemoryBusWidth(addr, 8)),
            PhysicalAddress::AttributesOBJ(_) => Err(GbaError::InvalidMemoryBusWidth(addr, 8)),
            PhysicalAddress::GamePak0ROM(_) => Err(GbaError::InvalidRomAccess(addr)),
            PhysicalAddress::GamePak1ROM(_) => Err(GbaError::InvalidRomAccess(addr)),
            PhysicalAddress::GamePak2ROM(_) => Err(GbaError::InvalidRomAccess(addr)),
            PhysicalAddress::GamePakSRAM(p) => {
                self.game_pak.sram.write_byte(p, b);
                Ok(())
            },
            PhysicalAddress::Invalid(_) => Err(GbaError::InvalidPhysicalAddress(addr)),
        }
    }

    /// Stores a halfword in the memory system; the address is rounded
    /// down to halfword alignment.
    pub fn store_halfword(&mut self, addr: u32, data: u32) -> (r: Result<(), GbaError>)
        requires
            bus_wf(old(self)),
        ensures
            bus_wf(final(self)),
            r == (match store16_spec(old(self)@, addr, data) {
                Ok(_) => Ok::<(), GbaError>(()),
                Err(e) => Err::<(), GbaError>(e),
            }),
            final(self)@ == (match store16_spec(old(self)@, addr, data) {
                Ok(v) => v,
                Err(_) => old(self)@,
            }),
    {
        match PhysicalAddress::from_u32(addr) {
            PhysicalAddress::BiosROM(_) => Err(GbaError::InvalidRomAccess(addr)),
            PhysicalAddress::OnBoardWRAM(p) => {
                proof {
                    lemma_align(p);
                }
                ram_write16(&mut self.wram_board, p, data);
                Ok(())
            },
            PhysicalAddress::OnChipWRAM(p) => {
                proof {
                    lemma_align(p);
                }
                ram_write16(&mut self.wram_chip, p, data);
                Ok(())
            },
            PhysicalAddress::RegistersIO(p) => {
                self.ioregs.write_halfword(p, data);
                Ok(())
            },
            PhysicalAddress::PaletteRAM(p) => {
                proof {
                    lemma_align(p);
                }
                ram_write16(&mut self.palette, p, data);
                Ok(())
            },
            PhysicalAddress::VRAM(p) => {
                proof {
                    lemma_align(p);
                }
                ram_write16(&mut self.vram, p, data);
                Ok(())
            },
            PhysicalAddress::AttributesOBJ(p) => {
                proof {
                    lemma_align(p);
                }
                ram_write16(&mut self.oam, p, data);
                Ok(())
            },
            PhysicalAddress::GamePak0ROM(_) => Err(GbaError::InvalidRomAccess(addr)),
            PhysicalAddress::GamePak1ROM(_) => Err(GbaError::InvalidRomAccess(addr)),
            PhysicalAddress::GamePak2ROM(_) => Err(GbaError::InvalidRomAccess(addr)),
            PhysicalAddress::GamePakSRAM(_) => Err(GbaError::InvalidMemoryBusWidth(addr, 16)),
            PhysicalAddress::Invalid(_) => Err(GbaError::InvalidPhysicalAddress(addr)),
        }
    }

    /// Stores a word in the memory system; the address is rounded
    /// down to word alignment.
    pub fn store_word(&mut self, addr: u32, data: u32) -> (r: Result<(), GbaError>)
        requires
            bus_wf(old(self)),
        ensures
            bus_wf(final(self)),
            r == (match store32_spec(old(self)@, addr, data) {
                Ok(_) => Ok::<(), GbaError>(()),
                Err(e) => Err::<(), GbaError>(e),
            }),
            final(self)@ == (match store32_spec(old(self)@, addr, data) {
                Ok(v) => v,
                Err(_) => old(self)@,
            }),
    {
        match PhysicalAddress::from_u32(addr) {
            PhysicalAddress::BiosROM(_) => Err(GbaError::InvalidRomAccess(addr)),
            PhysicalAddress::OnBoardWRAM(p) => {
                proof {
                    lemma_align(p);
                }
                ram_write32(&mut self.wram_board, p, data);
                Ok(())
            },
            PhysicalAddress::OnChipWRAM(p) => {
                proof {
                    lemma_align(p);
                }
                ram_write32(&mut self.wram_chip, p, data);
                Ok(())
            },
            PhysicalAddress::RegistersIO(p) => {
                self.ioregs.write_word(p, data);
                Ok(())
            },
            PhysicalAddress::PaletteRAM(p) => {
                proof {
                    lemma_align(p);
                }
                ram_write32(&mut self.palette, p, data);
                Ok(())
            },
            PhysicalAddress::VRAM(p) => {
                proof {
                    lemma_align(p);
                }
                ram_write32(&mut self.vram, p, data);
                Ok(())
            },
            PhysicalAddress::AttributesOBJ(p) => {
                proof {
                    lemma_align(p);
                }
                ram_write32(&mut self.oam, p, data);
                Ok(())
            },
            PhysicalAddress::GamePak0ROM(_) => Err(GbaError::InvalidRomAccess(addr)),
            PhysicalAddress::GamePak1ROM(_) => Err(GbaError::InvalidRomAccess(addr)),
            PhysicalAddress::GamePak2ROM(_) => Err(GbaError::InvalidRomAccess(addr)),
            PhysicalAddress::GamePakSRAM(_) => Err(GbaError::InvalidMemoryBusWidth(addr, 32)),
            PhysicalAddress::Invalid(_) => Err(GbaError::InvalidPhysicalAddress(addr)),
        }
    }
}

} // verus!

verus! {

/// For every byte sequence the bus can hold and every address in a
/// region that accepts byte writes, reading the byte back right after
/// writing yields the low byte of what was written.
pub proof fn lemma_byte_round_trip(v: BusView, addr: u32, d: u32)
    requires
        bus_view_wf(v),
        store8_spec(v, addr, d) is Ok,
    ensures
        load8_spec(store8_spec(v, addr, d).unwrap(), addr) == Ok::<u32, GbaError>(
            (d & 0xFFu32) as u32,
        ),
{
    crate::bitutil::lemma_mask_bounds(d);
}

/// For every word sequence the bus can hold and every address in a
/// region that accepts word writes: reading the word back right after
/// writing returns exactly the written word when the address is
/// word-aligned, and the written word rotated right by eight bits per
/// byte of mis-alignment otherwise.
pub proof fn lemma_word_round_trip(v: BusView, addr: u32, d: u32)
    requires
        bus_view_wf(v),
        store32_spec(v, addr, d) is Ok,
    ensures
        load32_spec(store32_spec(v, addr, d).unwrap(), addr) == Ok::<u32, GbaError>(
            u32_ror(d, ((addr & 3u32) * 8) as u32),
        ),
        addr & 3u32 == 0 ==> load32_spec(store32_spec(v, addr, d).unwrap(), addr) == Ok::<
            u32,
            GbaError,
        >(d),
{
    crate::memory::lemma_le_roundtrip(d);
    crate::bitutil::lemma_mask_bounds(d);
    lemma_local_alignment(addr);
    match classify_spec(addr) {
        PhysicalAddress::OnBoardWRAM(p) => {
            lemma_upd32_reads_back(v.wram_board, p, d);
        },
        PhysicalAddress::OnChipWRAM(p) => {
            lemma_upd32_reads_back(v.wram_chip, p, d);
        },
        PhysicalAddress::RegistersIO(p) => {
            lemma_upd32_reads_back(v.ioregs, p, d);
        },
        PhysicalAddress::PaletteRAM(p) => {
            lemma_upd32_reads_back(v.palette, p, d);
        },
        PhysicalAddress::VRAM(p) => {
            lemma_upd32_reads_back(v.vram, p, d);
        },
        PhysicalAddress::AttributesOBJ(p) => {
            lemma_upd32_reads_back(v.oam, p, d);
        },
        _ => {},
    }
}

/// A word written little endian at the aligned offset reads back as
/// that word, rotated by the offset's mis-alignment.
proof fn lemma_upd32_reads_back(m: Seq<u8>, p: u32, d: u32)
    requires
        p < m.len(),
        m.len() % 4 == 0,
        m.len() <= 0x1_0000_0000,
    ensures
        rotated_word(upd32(m, p, d), p) == u32_ror(d, ((p & 3u32) * 8) as u32),
{
    crate::memory::lemma_align(p);
    crate::memory::lemma_le_roundtrip(d);
    crate::bitutil::lemma_mask_bounds(d);
    let m2 = upd32(m, p, d);
    let a0 = (p & !3u32) as int;
    assert(a0 + 4 <= m.len());
    assert(m2[a0] == (d & 0xFFu32) as u8);
    assert(m2[a0 + 1] == ((d >> 8u32) & 0xFFu32) as u8);
    assert(m2[a0 + 2] == ((d >> 16u32) & 0xFFu32) as u8);
    assert(m2[a0 + 3] == (d >> 24u32) as u8);
    assert(le32_at(m2, a0) == d);
}

/// The low two bits of a region-local offset agree with those of the
/// global address, because every region base is word-aligned.
proof fn lemma_local_alignment(addr: u32)
    ensures
        (addr - 0x0200_0000u32) as u32 & 3u32 == addr & 3u32 || addr < 0x0200_0000u32,
        (addr - 0x0300_0000u32) as u32 & 3u32 == addr & 3u32 || addr < 0x0300_0000u32,
        (addr - 0x0400_0000u32) as u32 & 3u32 == addr & 3u32 || addr < 0x0400_0000u32,
        (addr - 0x0500_0000u32) as u32 & 3u32 == addr & 3u32 || addr < 0x0500_0000u32,
        (addr - 0x0600_0000u32) as u32 & 3u32 == addr & 3u32 || addr < 0x0600_0000u32,
        (addr - 0x0700_0000u32) as u32 & 3u32 == addr & 3u32 || addr < 0x0700_0000u32,
{
    assert(((addr - 0x0200_0000u32) as u32 & 3u32 == addr & 3u32 || addr < 0x0200_0000u32) && ((
    addr - 0x0300_0000u32) as u32 & 3u32 == addr & 3u32 || addr < 0x0300_0000u32) && ((addr
        - 0x0400_0000u32) as u32 & 3u32 == addr & 3u32 || addr < 0x0400_0000u32) && ((addr
        - 0x0500_0000u32) as u32 & 3u32 == addr & 3u32 || addr < 0x0500_0000u32) && ((addr
        - 0x0600_0000u32) as u32 & 3u32 == addr & 3u32 || addr < 0x0600_0000u32) && ((addr
        - 0x0700_0000u32) as u32 & 3u32 == addr & 3u32 || addr < 0x0700_0000u32)) by (bit_vector);
}

} // verus!
