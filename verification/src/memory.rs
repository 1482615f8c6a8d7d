//! The GBA's physical address map and the byte-array backing stores.
//!
//! A 32-bit address classifies into one of eleven named regions (or
//! into none); each region has a fixed base, a fixed length and a set
//! of legal access widths. Halfwords and words are stored little
//! endian.

use vstd::prelude::*;

use crate::bitutil::lemma_mask_bounds;

verus! {

/// Address of the first byte of BIOS system ROM.
pub const BIOS_ROM_FIRST: u32 = 0x0000_0000u32;

/// Address of the last byte of BIOS system ROM.
pub const BIOS_ROM_LAST: u32 = 0x0000_3FFFu32;

/// Length of the BIOS system ROM area in bytes.
pub const BIOS_ROM_LEN: usize = 0x4000usize;

/// Address of the first byte of on-board WRAM.
pub const WRAM_ON_BOARD_FIRST: u32 = 0x0200_0000u32;

/// Address of the last byte of on-board WRAM.
pub const WRAM_ON_BOARD_LAST: u32 = 0x0203_FFFFu32;

/// Length of the on-board WRAM area in bytes.
pub const WRAM_ON_BOARD_LEN: u32 = 0x4_0000u32;

/// Address of the first byte of on-chip WRAM.
pub const WRAM_ON_CHIP_FIRST: u32 = 0x0300_0000u32;

/// Address of the last byte of on-chip WRAM.
pub const WRAM_ON_CHIP_LAST: u32 = 0x0300_7FFFu32;

/// Length of the on-chip WRAM area in bytes.
pub const WRAM_ON_CHIP_LEN: u32 = 0x8000u32;

/// Address of the first byte of IO registers.
pub const IO_REGISTERS_FIRST: u32 = 0x0400_0000u32;

/// Address of the last byte of IO registers.
pub const IO_REGISTERS_LAST: u32 = 0x0400_03FFu32;

/// Length of the IO registers area in bytes.
pub const IO_REGISTERS_LEN: u32 = 0x400u32;

/// Address of the first byte of palette RAM.
pub const PALETTE_RAM_FIRST: u32 = 0x0500_0000u32;

/// Address of the last byte of palette RAM.
pub const PALETTE_RAM_LAST: u32 = 0x0500_03FFu32;

/// Length of the palette RAM area in bytes.
pub const PALETTE_RAM_LEN: u32 = 0x400u32;

/// Address of the first byte of VRAM.
pub const VRAM_FIRST: u32 = 0x0600_0000u32;

/// Address of the last byte of VRAM.
pub const VRAM_LAST: u32 = 0x0601_7FFFu32;

/// Length of the VRAM area in bytes.
pub const VRAM_LEN: u32 = 0x1_8000u32;

/// Address of the first byte of OAM.
pub const OBJ_ATTRIBUTES_FIRST: u32 = 0x0700_0000u32;

/// Address of the last byte of OAM.
pub const OBJ_ATTRIBUTES_LAST: u32 = 0x0700_03FFu32;

/// Length of the OAM area in bytes.
pub const OBJ_ATTRIBUTES_LEN: u32 = 0x400u32;

/// Address of the first byte of Game Pak ROM in Wait State 0.
pub const GAME_PAK_WS0_ROM_FIRST: u32 = 0x0800_0000u32;

/// Address of the last byte of Game Pak ROM in Wait State 0.
pub const GAME_PAK_WS0_ROM_LAST: u32 = 0x09FF_FFFFu32;

/// Length of the Game Pak ROM in Wait State 0 area in bytes.
pub const GAME_PAK_WS0_ROM_LEN: u32 = 0x200_0000u32;

/// Address of the first byte of Game Pak ROM in Wait State 1.
pub const GAME_PAK_WS1_ROM_FIRST: u32 = 0x0A00_0000u32;

/// Address of the last byte of Game Pak ROM in Wait State 1.
pub const GAME_PAK_WS1_ROM_LAST: u32 = 0x0BFF_FFFFu32;

/// Length of the Game Pak ROM in Wait State 1 area in bytes.
pub const GAME_PAK_WS1_ROM_LEN: u32 = 0x200_0000u32;

/// Address of the first byte of Game Pak ROM in Wait State 2.
pub const GAME_PAK_WS2_ROM_FIRST: u32 = 0x0C00_0000u32;

/// Address of the last byte of Game Pak ROM in Wait State 2.
pub const GAME_PAK_WS2_ROM_LAST: u32 = 0x0DFF_FFFFu32;

/// Length of the Game Pak ROM in Wait State 2 area in bytes.
pub const GAME_PAK_WS2_ROM_LEN: u32 = 0x200_0000u32;

/// Address of the first byte of Game Pak SRAM.
pub const GAME_PAK_SRAM_FIRST: u32 = 0x0E00_0000u32;

/// Address of the last byte of Game Pak SRAM.
pub const GAME_PAK_SRAM_LAST: u32 = 0x0E00_FFFFu32;

/// Length of the Game Pak SRAM area in bytes.
pub const GAME_PAK_SRAM_LEN: u32 = 0x1_0000u32;

/// Maps global physical addresses to region-local addresses.
///
/// The local addresses always start from 0.
#[derive(Debug, PartialEq, Eq, Structural, Clone, Copy)]
pub enum PhysicalAddress {
    /// Address relative to the BIOS ROM area.
    BiosROM(u32),
    /// Address relative to the slower on-board WRAM.
    OnBoardWRAM(u32),
    /// Address relative to the quicker on-chip WRAM.
    OnChipWRAM(u32),
    /// Address relative to the IO registers area.
    RegistersIO(u32),
    /// Address relative to the palette RAM area.
    PaletteRAM(u32),
    /// Address relative to the VRAM area.
    VRAM(u32),
    /// Address relative to the object attributes area.
    AttributesOBJ(u32),
    /// Address relative to the GamePak ROM in wait state 0 area.
    GamePak0ROM(u32),
    /// Address relative to the GamePak ROM in wait state 1 area.
    GamePak1ROM(u32),
    /// Address relative to the GamePak ROM in wait state 2 area.
    GamePak2ROM(u32),
    /// Address relative to the GamePak SRAM area.
    GamePakSRAM(u32),
    /// An invalid physical address, kept whole.
    Invalid(u32),
}

/// The total classification of a 32-bit address into a region tag and
/// a region-local offset.
pub open spec fn classify_spec(p: u32) -> PhysicalAddress {
    if p <= 0x0000_3FFFu32 {
        PhysicalAddress::BiosROM(p)
    } else if 0x0200_0000u32 <= p <= 0x0203_FFFFu32 {
        PhysicalAddress::OnBoardWRAM((p - 0x0200_0000u32) as u32)
    } else if 0x0300_0000u32 <= p <= 0x0300_7FFFu32 {
        PhysicalAddress::OnChipWRAM((p - 0x0300_0000u32) as u32)
    } else if 0x0400_0000u32 <= p <= 0x0400_03FFu32 {
        PhysicalAddress::RegistersIO((p - 0x0400_0000u32) as u32)
    } else if 0x0500_0000u32 <= p <= 0x0500_03FFu32 {
        PhysicalAddress::PaletteRAM((p - 0x0500_0000u32) as u32)
    } else if 0x0600_0000u32 <= p <= 0x0601_7FFFu32 {
        PhysicalAddress::VRAM((p - 0x0600_0000u32) as u32)
    } else if 0x0700_0000u32 <= p <= 0x0700_03FFu32 {
        PhysicalAddress::AttributesOBJ((p - 0x0700_0000u32) as u32)
    } else if 0x0800_0000u32 <= p <= 0x09FF_FFFFu32 {
        PhysicalAddress::GamePak0ROM((p - 0x0800_0000u32) as u32)
    } else if 0x0A00_0000u32 <= p <= 0x0BFF_FFFFu32 {
        PhysicalAddress::GamePak1ROM((p - 0x0A00_0000u32) as u32)
    } else if 0x0C00_0000u32 <= p <= 0x0DFF_FFFFu32 {
        PhysicalAddress::GamePak2ROM((p - 0x0C00_0000u32) as u32)
    } else if 0x0E00_0000u32 <= p <= 0x0E00_FFFFu32 {
        PhysicalAddress::GamePakSRAM((p - 0x0E00_0000u32) as u32)
    } else {
        PhysicalAddress::Invalid(p)
    }
}

/// A well-formed region-local address: the offset lies inside its
/// region.
pub open spec fn pa_wf(pa: PhysicalAddress) -> bool {
    match pa {
        PhysicalAddress::BiosROM(p) => p < 0x4000,
        PhysicalAddress::OnBoardWRAM(p) => p < 0x4_0000,
        PhysicalAddress::OnChipWRAM(p) => p < 0x8000,
        PhysicalAddress::RegistersIO(p) => p < 0x400,
        PhysicalAddress::PaletteRAM(p) => p < 0x400,
        PhysicalAddress::VRAM(p) => p < 0x1_8000,
        PhysicalAddress::AttributesOBJ(p) => p < 0x400,
        PhysicalAddress::GamePak0ROM(p) => p < 0x200_0000,
        PhysicalAddress::GamePak1ROM(p) => p < 0x200_0000,
        PhysicalAddress::GamePak2ROM(p) => p < 0x200_0000,
        PhysicalAddress::GamePakSRAM(p) => p < 0x1_0000,
        PhysicalAddress::Invalid(_) => true,
    }
}

/// The global address a region-local address stands for.
pub open spec fn pa_addr(pa: PhysicalAddress) -> int {
    match pa {
        PhysicalAddress::BiosROM(p) => p as int,
        PhysicalAddress::OnBoardWRAM(p) => p + 0x0200_0000,
        PhysicalAddress::OnChipWRAM(p) => p + 0x0300_0000,
        PhysicalAddress::RegistersIO(p) => p + 0x0400_0000,
        PhysicalAddress::PaletteRAM(p) => p + 0x0500_0000,
        PhysicalAddress::VRAM(p) => p + 0x0600_0000,
        PhysicalAddress::AttributesOBJ(p) => p + 0x0700_0000,
        PhysicalAddress::GamePak0ROM(p) => p + 0x0800_0000,
        PhysicalAddress::GamePak1ROM(p) => p + 0x0A00_0000,
        PhysicalAddress::GamePak2ROM(p) => p + 0x0C00_0000,
        PhysicalAddress::GamePakSRAM(p) => p + 0x0E00_0000,
        PhysicalAddress::Invalid(p) => p as int,
    }
}

impl PhysicalAddress {
    /// Converts a global physical address to a region-local address.
    /// Any address outside the named regions yields `Invalid` carrying
    /// the original address. Converting back with `to_u32` restores
    /// the address.
    pub fn from_u32(p: u32) -> (r: PhysicalAddress)
        ensures
            r == classify_spec(p),
            pa_wf(r),
            pa_addr(r) == p,
    {
        if p <= 0x0000_3FFFu32 {
            PhysicalAddress::BiosROM(p)
        } else if 0x0200_0000u32 <= p && p <= 0x0203_FFFFu32 {
            PhysicalAddress::OnBoardWRAM(p - 0x0200_0000u32)
        } else if 0x0300_0000u32 <= p && p <= 0x0300_7FFFu32 {
            PhysicalAddress::OnChipWRAM(p - 0x0300_0000u32)
        } else if 0x0400_0000u32 <= p && p <= 0x0400_03FFu32 {
            PhysicalAddress::RegistersIO(p - 0x0400_0000u32)
        } else if 0x0500_0000u32 <= p && p <= 0x0500_03FFu32 {
            PhysicalAddress::PaletteRAM(p - 0x0500_0000u32)
        } else if 0x0600_0000u32 <= p && p <= 0x0601_7FFFu32 {
            PhysicalAddress::VRAM(p - 0x0600_0000u32)
        } else if 0x0700_0000u32 <= p && p <= 0x0700_03FFu32 {
            PhysicalAddress::AttributesOBJ(p - 0x0700_0000u32)
        } else if 0x0800_0000u32 <= p && p <= 0x09FF_FFFFu32 {
            PhysicalAddress::GamePak0ROM(p - 0x0800_0000u32)
        } else if 0x0A00_0000u32 <= p && p <= 0x0BFF_FFFFu32 {
            PhysicalAddress::GamePak1ROM(p - 0x0A00_0000u32)
        } else if 0x0C00_0000u32 <= p && p <= 0x0DFF_FFFFu32 {
            PhysicalAddress::GamePak2ROM(p - 0x0C00_0000u32)
        } else if 0x0E00_0000u32 <= p && p <= 0x0E00_FFFFu32 {
            PhysicalAddress::GamePakSRAM(p - 0x0E00_0000u32)
        } else {
            PhysicalAddress::Invalid(p)
        }
    }

    /// Converts a region-local address back to a global physical
    /// address.
    pub fn to_u32(&self) -> (r: u32)
        requires
            pa_wf(*self),
        ensures
            r == pa_addr(*self),
    {
        match *self {
            PhysicalAddress::BiosROM(p) => p,
            PhysicalAddress::OnBoardWRAM(p) => p + 0x0200_0000u32,
            PhysicalAddress::OnChipWRAM(p) => p + 0x0300_0000u32,
            PhysicalAddress::RegistersIO(p) => p + 0x0400_0000u32,
            PhysicalAddress::PaletteRAM(p) => p + 0x0500_0000u32,
            PhysicalAddress::VRAM(p) => p + 0x0600_0000u32,
            PhysicalAddress::AttributesOBJ(p) => p + 0x0700_0000u32,
            PhysicalAddress::GamePak0ROM(p) => p + 0x0800_0000u32,
            PhysicalAddress::GamePak1ROM(p) => p + 0x0A00_0000u32,
            PhysicalAddress::GamePak2ROM(p) => p + 0x0C00_0000u32,
            PhysicalAddress::GamePakSRAM(p) => p + 0x0E00_0000u32,
            PhysicalAddress::Invalid(p) => p,
        }
    }
}

/// The little-endian halfword stored at byte offset `i`.
pub open spec fn le16_at(m: Seq<u8>, i: int) -> u32
    recommends
        0 <= i,
        i + 2 <= m.len(),
{
    (m[i] + 0x100 * m[i + 1]) as u32
}

/// The little-endian word stored at byte offset `i`.
pub open spec fn le32_at(m: Seq<u8>, i: int) -> u32
    recommends
        0 <= i,
        i + 4 <= m.len(),
{
    (m[i] + 0x100 * m[i + 1] + 0x1_0000 * m[i + 2] + 0x100_0000 * m[i + 3]) as u32
}

/// Relies on byteorder's `LittleEndian::read_u16`: the first two bytes
/// of the slice assembled with the lower-addressed byte in the low
/// half. Panics only when fewer than two bytes remain.
#[verifier::external_body]
pub fn le_read_u16(buf: &Vec<u8>, i: usize) -> (r: u16)
    requires
        i + 2 <= buf@.len(),
    ensures
        r == le16_at(buf@, i as int),
{
    <byteorder::LittleEndian as byteorder::ByteOrder>::read_u16(&buf[i..])
}

/// Relies on byteorder's `LittleEndian::read_u32`: the first four
/// bytes of the slice assembled with the lowest-addressed byte in the
/// lowest position. Panics only when fewer than four bytes remain.
#[verifier::external_body]
pub fn le_read_u32(buf: &Vec<u8>, i: usize) -> (r: u32)
    requires
        i + 4 <= buf@.len(),
    ensures
        r == le32_at(buf@, i as int),
{
    <byteorder::LittleEndian as byteorder::ByteOrder>::read_u32(&buf[i..])
}

/// Relies on byteorder's `LittleEndian::write_u16`: stores the low
/// byte of `n` first, touching exactly two bytes.
#[verifier::external_body]
pub fn le_write_u16(buf: &mut Vec<u8>, i: usize, n: u16)
    requires
        i + 2 <= old(buf)@.len(),
    ensures
        final(buf)@ == old(buf)@.update(i as int, ((n as u32) & 0xFFu32) as u8).update(
            i + 1,
            (((n as u32) >> 8u32) & 0xFFu32) as u8,
        ),
{
    <byteorder::LittleEndian as byteorder::ByteOrder>::write_u16(&mut buf[i..], n)
}

/// Relies on byteorder's `LittleEndian::write_u32`: stores the bytes
/// of `n` from least to most significant, touching exactly four bytes.
#[verifier::external_body]
pub fn le_write_u32(buf: &mut Vec<u8>, i: usize, n: u32)
    requires
        i + 4 <= old(buf)@.len(),
    ensures
        final(buf)@ == old(buf)@.update(i as int, (n & 0xFFu32) as u8).update(
            i + 1,
            ((n >> 8u32) & 0xFFu32) as u8,
        ).update(i + 2, ((n >> 16u32) & 0xFFu32) as u8).update(i + 3, (n >> 24u32) as u8),
{
    <byteorder::LittleEndian as byteorder::ByteOrder>::write_u32(&mut buf[i..], n)
}

/// A fresh zero-filled byte store of the given size.
pub fn zero_bytes(n: usize) -> (r: Vec<u8>)
    ensures
        r@.len() == n,
        forall|i: int| 0 <= i < n ==> r@[i] == 0u8,
{
    let mut v: Vec<u8> = Vec::new();
    while v.len() < n
        invariant
            v@.len() <= n,
            forall|i: int| 0 <= i < v@.len() ==> v@[i] == 0u8,
        decreases n - v@.len(),
    {
        v.push(0u8);
    }
    v
}

/// Rounding an offset down to halfword or word alignment never grows
/// it and lands on a multiple of the width.
pub proof fn lemma_align(x: u32)
    ensures
        x & !1u32 <= x,
        (x & !1u32) % 2 == 0,
        x & !3u32 <= x,
        (x & !3u32) % 4 == 0,
        x & 0x3u32 < 4,
{
    assert(x & !1u32 <= x && (x & !1u32) % 2 == 0 && x & !3u32 <= x && (x & !3u32) % 4 == 0 && x
        & 0x3u32 < 4) by (bit_vector);
}

/// The four mask-extracted bytes of a word reassemble to that word,
/// and likewise for the two bytes of a halfword.
pub proof fn lemma_le_roundtrip(v: u32)
    ensures
        (v & 0xFFu32) + 0x100 * ((v >> 8u32) & 0xFFu32) + 0x1_0000 * ((v >> 16u32) & 0xFFu32)
            + 0x100_0000 * (v >> 24u32) == v,
        (v & 0xFFu32) + 0x100 * ((v >> 8u32) & 0xFFu32) < 0x1_0000,
        ((v & 0xFFFFu32) & 0xFFu32) == v & 0xFFu32,
        (((v & 0xFFFFu32) >> 8u32) & 0xFFu32) == (v >> 8u32) & 0xFFu32,
        v >> 24u32 < 0x100,
        (v >> 8u32) & 0xFFu32 < 0x100,
        (v >> 16u32) & 0xFFu32 < 0x100,
        v & 0xFFu32 < 0x100,
{
    assert((v & 0xFFu32) + 0x100 * ((v >> 8u32) & 0xFFu32) + 0x1_0000 * ((v >> 16u32) & 0xFFu32)
        + 0x100_0000 * (v >> 24u32) == v && (v & 0xFFu32) + 0x100 * ((v >> 8u32) & 0xFFu32)
        < 0x1_0000 && ((v & 0xFFFFu32) & 0xFFu32) == v & 0xFFu32 && (((v & 0xFFFFu32) >> 8u32)
        & 0xFFu32) == (v >> 8u32) & 0xFFu32 && v >> 24u32 < 0x100 && (v >> 8u32) & 0xFFu32 < 0x100
        && (v >> 16u32) & 0xFFu32 < 0x100 && v & 0xFFu32 < 0x100) by (bit_vector);
}

/// Implements the BIOS ROM area: a read-only 16 KiB byte store.
pub struct BiosRom {
    /// The ROM's bytes; always exactly `BIOS_ROM_LEN` of them.
    pub data: Vec<u8>,
}

/// A well-formed BIOS ROM holds exactly its region's length in bytes.
pub open spec fn bios_wf(b: &BiosRom) -> bool {
    b.data@.len() == 0x4000
}

impl BiosRom {
    /// Creates a new zero-filled BIOS ROM.
    pub fn new() -> (r: BiosRom)
        ensures
            bios_wf(&r),
            forall|i: int| 0 <= i < 0x4000 ==> r.data@[i] == 0u8,
    {
        BiosRom { data: zero_bytes(0x4000) }
    }

    /// Fills the ROM from plain bytes: the image is truncated to the
    /// region length, and the rest of the region is zero-filled.
    pub fn load_from_bytes(&mut self, image: &Vec<u8>)
        requires
            bios_wf(old(self)),
        ensures
            bios_wf(final(self)),
            forall|i: int|
                0 <= i < 0x4000 ==> final(self).data@[i] == (if i < image@.len() {
                    image@[i]
                } else {
                    0u8
                }),
    {
        let mut j: usize = 0;
        while j < 0x4000usize
            invariant
                bios_wf(self),
                j <= 0x4000,
                forall|i: int|
                    0 <= i < j ==> self.data@[i] == (if i < image@.len() {
                        image@[i]
                    } else {
                        0u8
                    }),
            decreases 0x4000 - j,
        {
            if j < image.len() {
                let b = image[j];
                self.data.set(j, b);
            } else {
                self.data.set(j, 0u8);
            }
            j = j + 1;
        }
    }

    /// Reads a single byte from the ROM.
    pub fn read_byte(&self, offs: u32) -> (r: u8)
        requires
            bios_wf(self),
            offs < 0x4000,
        ensures
            r == self.data@[offs as int],
    {
        self.data[offs as usize]
    }

    /// Reads a little-endian halfword; bit 0 of the offset is masked
    /// away first.
    pub fn read_halfword(&self, offs: u32) -> (r: u16)
        requires
            bios_wf(self),
            offs < 0x4000,
        ensures
            r == le16_at(self.data@, (offs & !1u32) as int),
    {
        proof {
            lemma_align(offs);
        }
        le_read_u16(&self.data, (offs & !1u32) as usize)
    }

    /// Reads a little-endian word; bits 1..0 of the offset are masked
    /// away first.
    pub fn read_word(&self, offs: u32) -> (r: u32)
        requires
            bios_wf(self),
            offs < 0x4000,
        ensures
            r == le32_at(self.data@, (offs & !3u32) as int),
    {
        proof {
            lemma_align(offs);
        }
        le_read_u32(&self.data, (offs & !3u32) as usize)
    }
}

impl Default for BiosRom {
    /// A zero-filled BIOS ROM.
    fn default() -> (r: BiosRom)
        ensures
            bios_wf(&r),
    {
        BiosRom::new()
    }
}

} // verus!

verus! {

/// Reads one byte of a byte store.
pub fn ram_read8(m: &Vec<u8>, offs: u32) -> (r: u8)
    requires
        offs < m@.len(),
    ensures
        r == m@[offs as int],
{
    m[offs as usize]
}

/// Reads a little-endian halfword of a byte store; bit 0 of the
/// offset is masked away first.
pub fn ram_read16(m: &Vec<u8>, offs: u32) -> (r: u16)
    requires
        offs < m@.len(),
        m@.len() % 2 == 0,
    ensures
        r == le16_at(m@, (offs & !1u32) as int),
{
    proof {
        lemma_align(offs);
    }
    le_read_u16(m, (offs & !1u32) as usize)
}

/// Reads a little-endian word of a byte store; bits 1..0 of the
/// offset are masked away first.
pub fn ram_read32(m: &Vec<u8>, offs: u32) -> (r: u32)
    requires
        offs < m@.len(),
        m@.len() % 4 == 0,
    ensures
        r == le32_at(m@, (offs & !3u32) as int),
{
    proof {
        lemma_align(offs);
    }
    le_read_u32(m, (offs & !3u32) as usize)
}

/// Writes one byte of a byte store.
pub fn ram_write8(m: &mut Vec<u8>, offs: u32, b: u8)
    requires
        offs < old(m)@.len(),
    ensures
        final(m)@ == old(m)@.update(offs as int, b),
{
    m.set(offs as usize, b);
}

/// Writes the low halfword of `data` little endian; bit 0 of the
/// offset is masked away first.
pub fn ram_write16(m: &mut Vec<u8>, offs: u32, data: u32)
    requires
        offs < old(m)@.len(),
        old(m)@.len() % 2 == 0,
    ensures
        final(m)@ == old(m)@.update((offs & !1u32) as int, (data & 0xFFu32) as u8).update(
            (offs & !1u32) + 1,
            ((data >> 8u32) & 0xFFu32) as u8,
        ),
{
    proof {
        lemma_align(offs);
        lemma_le_roundtrip(data);
        lemma_mask_bounds(data);
    }
    le_write_u16(m, (offs & !1u32) as usize, (data & 0xFFFFu32) as u16);
}

/// Writes `data` little endian; bits 1..0 of the offset are masked
/// away first.
pub fn ram_write32(m: &mut Vec<u8>, offs: u32, data: u32)
    requires
        offs < old(m)@.len(),
        old(m)@.len() % 4 == 0,
    ensures
        final(m)@ == old(m)@.update((offs & !3u32) as int, (data & 0xFFu32) as u8).update(
            (offs & !3u32) + 1,
            ((data >> 8u32) & 0xFFu32) as u8,
        ).update((offs & !3u32) + 2, ((data >> 16u32) & 0xFFu32) as u8).update(
            (offs & !3u32) + 3,
            (data >> 24u32) as u8,
        ),
{
    proof {
        lemma_align(offs);
        lemma_le_roundtrip(data);
    }
    le_write_u32(m, (offs & !3u32) as usize, data);
}

} // verus!
