//! The GamePak cartridge: a 32 MiB ROM chip holding the game, and a
//! 64 KiB SRAM chip holding saved progress.

use vstd::prelude::*;
use vstd::arithmetic::div_mod::{
    lemma_mod_add_multiples_vanish, lemma_small_mod, lemma_sub_mod_noop,
};

use crate::memory::{
    le16_at, le32_at, ram_read16, ram_read32, ram_read8, ram_write8, zero_bytes,
};

verus! {

/// GBA ROMs are at most 32 MiB in size.
pub const MAX_GBA_ROM_SIZE: usize = 0x200_0000usize;

/// Offset of the ROM header's checksum.
pub const COMPLEMENT_CHECK_OFFSET: usize = 0xBDusize;

/// Offset of the game's title in ROM.
pub const GAME_TITLE_OFFSET: usize = 0xA0usize;

/// Maximum size of the game's title.
pub const GAME_TITLE_MAX_LEN: usize = 12usize;

/// Offset of the game's game code in ROM.
pub const GAME_CODE_OFFSET: usize = 0xACusize;

/// Size of the game code.
pub const GAME_CODE_LEN: usize = 4usize;

/// Offset of the game's maker code in ROM.
pub const GAME_MAKER_CODE_OFFSET: usize = 0xB0usize;

/// Size of the maker code.
pub const GAME_MAKER_CODE_LEN: usize = 2usize;

/// Offset of the game's version number in ROM.
pub const GAME_VERSION_NUMBER: usize = 0xBCusize;

/// The sum of the header bytes `0xA0..i` of a ROM image.
pub open spec fn header_sum(m: Seq<u8>, i: int) -> int
    recommends
        0xA0 <= i <= 0xBC,
    decreases i,
{
    if i <= 0xA0 {
        0
    } else {
        header_sum(m, i - 1) + m[i - 1]
    }
}

/// The header complement check of a ROM image: subtracting the bytes
/// `0xA0..0xBC` and the magic `0x19` from zero, modulo 256, must give
/// the checksum byte at `0xBD`.
pub open spec fn complement_check_spec(m: Seq<u8>) -> bool
    recommends
        m.len() >= 0xBE,
{
    (0 - header_sum(m, 0xBC) - 0x19) % 0x100 == m[0xBD]
}

/// The length of the game title: the index of the first zero byte in
/// the 12-byte title field, or 12 when none is zero.
pub open spec fn title_scan(m: Seq<u8>, i: int) -> int
    recommends
        0 <= i <= 12,
    decreases 12 - i,
{
    if i >= 12 {
        12
    } else if m[0xA0 + i] == 0 {
        i
    } else {
        title_scan(m, i + 1)
    }
}

/// Implements a GamePak's ROM chip.
pub struct GamePakRom {
    /// The ROM's bytes; always exactly 32 MiB of them.
    pub data: Vec<u8>,
    /// Size of the currently loaded ROM image.
    pub loaded_rom_len: usize,
    /// Size of the loaded game's title.
    pub loaded_rom_title_len: usize,
}

/// A GamePak ROM chip with exactly 32 MiB of bytes.
pub open spec fn gamepak_rom_bytes_wf(r: &GamePakRom) -> bool {
    r.data@.len() == 0x200_0000
}

/// A well-formed GamePak ROM holds exactly 32 MiB of bytes, and its
/// recorded image and title lengths are in range.
pub open spec fn gamepak_rom_wf(r: &GamePakRom) -> bool {
    gamepak_rom_bytes_wf(r) && r.loaded_rom_len <= 0x200_0000 && r.loaded_rom_title_len <= 12
}

impl GamePakRom {
    /// Creates a new zero-filled ROM.
    pub fn new() -> (r: GamePakRom)
        ensures
            gamepak_rom_wf(&r),
            r.loaded_rom_len == 0,
            r.loaded_rom_title_len == 0,
            forall|i: int| 0 <= i < 0x200_0000 ==> r.data@[i] == 0u8,
    {
        GamePakRom { data: zero_bytes(0x200_0000), loaded_rom_len: 0, loaded_rom_title_len: 0 }
    }

    /// Get a handle for the ROM's header.
    pub fn header<'a>(&'a self) -> (r: GamePakRomHeader<'a>)
        ensures
            r.0 == self,
    {
        GamePakRomHeader(self)
    }

    /// Fills the ROM from plain image bytes: the image is truncated
    /// to 32 MiB, the rest of the chip is zero-filled, and the title
    /// length is read out of the header.
    pub fn load_from_bytes(&mut self, image: &Vec<u8>)
        requires
            gamepak_rom_wf(old(self)),
        ensures
            gamepak_rom_wf(final(self)),
            forall|i: int|
                0 <= i < 0x200_0000 ==> final(self).data@[i] == (if i < image@.len() {
                    image@[i]
                } else {
                    0u8
                }),
            final(self).loaded_rom_len == (if image@.len() <= 0x200_0000 {
                image@.len() as int
            } else {
                0x200_0000
            }),
            final(self).loaded_rom_title_len == title_scan(final(self).data@, 0),
    {
        let n = image.len();
        let mut j: usize = 0;
        while j < 0x200_0000usize
            invariant
                gamepak_rom_wf(self),
                j <= 0x200_0000,
                self.data@.len() == 0x200_0000,
                forall|i: int|
                    0 <= i < j ==> self.data@[i] == (if i < image@.len() {
                        image@[i]
                    } else {
                        0u8
                    }),
            decreases 0x200_0000 - j,
        {
            if j < image.len() {
                let b = image[j];
                self.data.set(j, b);
            } else {
                self.data.set(j, 0u8);
            }
            j = j + 1;
        }
        self.loaded_rom_len = if n <= 0x200_0000usize {
            n
        } else {
            0x200_0000usize
        };

        // Find the title's length: up to the first zero byte.
        let mut t: usize = 0;
        let mut done: bool = false;
        while t < 12usize && !done
            invariant
                gamepak_rom_wf(self),
                t <= 12,
                title_scan(self.data@, 0) == title_scan(self.data@, t as int),
                done ==> t < 12 && self.data@[0xA0 + t] == 0,
            decreases 12 - t, (if done {
                0int
            } else {
                1int
            }),
        {
            let b = ram_read8(&self.data, (0xA0 + t) as u32);
            if b == 0u8 {
                done = true;
            } else {
                t = t + 1;
            }
        }
        self.loaded_rom_title_len = t;
    }

    /// Reads a single byte from the ROM.
    pub fn read_byte(&self, offs: u32) -> (r: u8)
        requires
            gamepak_rom_bytes_wf(self),
            offs < 0x200_0000,
        ensures
            r == self.data@[offs as int],
    {
        ram_read8(&self.data, offs)
    }

    /// Reads a little-endian halfword from the ROM.
    pub fn read_halfword(&self, offs: u32) -> (r: u16)
        requires
            gamepak_rom_bytes_wf(self),
            offs < 0x200_0000,
        ensures
            r == le16_at(self.data@, (offs & !1u32) as int),
    {
        ram_read16(&self.data, offs)
    }

    /// Reads a little-endian word from the ROM.
    pub fn read_word(&self, offs: u32) -> (r: u32)
        requires
            gamepak_rom_bytes_wf(self),
            offs < 0x200_0000,
        ensures
            r == le32_at(self.data@, (offs & !3u32) as int),
    {
        ram_read32(&self.data, offs)
    }
}

/// Helps making sense of the ROM's header bytes, separating metadata
/// handling from raw byte storage.
pub struct GamePakRomHeader<'a>(pub &'a GamePakRom);

impl<'a> GamePakRomHeader<'a> {
    /// Validates the ROM header by calculating a checksum: the bytes
    /// from `0xA0` to `0xBC` are subtracted from zero, then the magic
    /// number `0x19`; the header is valid when the result equals the
    /// checksum byte at `0xBD`.
    pub fn complement_check(&self) -> (r: bool)
        requires
            gamepak_rom_wf(self.0),
        ensures
            r == complement_check_spec(self.0.data@),
    {
        let ghost m = self.0.data@;
        let mut test: u32 = 0;
        let mut i: usize = 0xA0;
        while i < 0xBCusize
            invariant
                gamepak_rom_wf(self.0),
                self.0.data@ == m,
                0xA0 <= i <= 0xBC,
                test == (0 - header_sum(m, i as int)) % 0x100,
            decreases 0xBC - i,
        {
            let b = ram_read8(&self.0.data, i as u32);
            proof {
                lemma_wrap_sub_byte((0 - header_sum(m, i as int)) as int, b as int);
            }
            test = (test + 0x100 - (b as u32)) % 0x100;
            i = i + 1;
        }
        proof {
            lemma_wrap_sub_byte((0 - header_sum(m, 0xBC)) as int, 0x19);
        }
        test = (test + 0x100 - 0x19u32) % 0x100;
        let chk = ram_read8(&self.0.data, 0xBD);
        test == chk as u32
    }

    /// The currently loaded game's version number.
    pub fn game_version(&self) -> (r: u8)
        requires
            gamepak_rom_wf(self.0),
        ensures
            r == self.0.data@[0xBC],
    {
        ram_read8(&self.0.data, 0xBC)
    }

    /// The currently loaded ROM image's size, at most 32 MiB.
    pub fn rom_size(&self) -> (r: usize)
        ensures
            r == self.0.loaded_rom_len,
    {
        self.0.loaded_rom_len
    }
}

/// Subtracting one more byte from a running complement, modulo 256.
proof fn lemma_wrap_sub_byte(s: int, b: int)
    requires
        0 <= b < 0x100,
    ensures
        ((s % 0x100) + 0x100 - b) % 0x100 == (s - b) % 0x100,
{
    lemma_mod_add_multiples_vanish((s % 0x100) - b, 0x100);
    lemma_small_mod(b as nat, 0x100nat);
    lemma_sub_mod_noop(s, b, 0x100);
    assert((s % 0x100 - b % 0x100) % 0x100 == (s - b) % 0x100);
}

/// Implements a GamePak's SRAM chip.
pub struct GamePakSram {
    /// The SRAM's bytes; always exactly 64 KiB of them.
    pub data: Vec<u8>,
}

/// A well-formed GamePak SRAM holds exactly 64 KiB of bytes.
pub open spec fn gamepak_sram_wf(s: &GamePakSram) -> bool {
    s.data@.len() == 0x1_0000
}

impl GamePakSram {
    /// Creates a new zero-initialised SRAM.
    pub fn new() -> (r: GamePakSram)
        ensures
            gamepak_sram_wf(&r),
            forall|i: int| 0 <= i < 0x1_0000 ==> r.data@[i] == 0u8,
    {
        GamePakSram { data: zero_bytes(0x1_0000) }
    }

    /// Clears the SRAM.
    pub fn clear(&mut self)
        ensures
            gamepak_sram_wf(final(self)),
            forall|i: int| 0 <= i < 0x1_0000 ==> final(self).data@[i] == 0u8,
    {
        self.data = zero_bytes(0x1_0000);
    }

    /// Fills the SRAM from plain bytes: the image is truncated to
    /// 64 KiB and the rest of the chip is zero-filled.
    pub fn load_from_bytes(&mut self, image: &Vec<u8>)
        requires
            gamepak_sram_wf(old(self)),
        ensures
            gamepak_sram_wf(final(self)),
            forall|i: int|
                0 <= i < 0x1_0000 ==> final(self).data@[i] == (if i < image@.len() {
                    image@[i]
                } else {
                    0u8
                }),
    {
        let mut j: usize = 0;
        while j < 0x1_0000usize
            invariant
                gamepak_sram_wf(self),
                j <= 0x1_0000,
                forall|i: int|
                    0 <= i < j ==> self.data@[i] == (if i < image@.len() {
                        image@[i]
                    } else {
                        0u8
                    }),
            decreases 0x1_0000 - j,
        {
            if j < image.len() {
                let b = image[j];
                self.data.set(j, b);
            } else {
                self.data.set(j, 0u8);
            }
            j = j + 1;
        }
    }

    /// Reads a single SRAM byte.
    pub fn read_byte(&self, offs: u32) -> (r: u8)
        requires
            gamepak_sram_wf(self),
            offs < 0x1_0000,
        ensures
            r == self.data@[offs as int],
    {
        ram_read8(&self.data, offs)
    }

    /// Writes a single SRAM byte.
    pub fn write_byte(&mut self, offs: u32, b: u8)
        requires
            gamepak_sram_wf(old(self)),
            offs < 0x1_0000,
        ensures
            gamepak_sram_wf(final(self)),
            final(self).data@ == old(self).data@.update(offs as int, b),
    {
        ram_write8(&mut self.data, offs, b);
    }
}

/// Implements a GamePak: the ROM chip and the SRAM chip together.
pub struct GamePak {
    /// The cartridge's ROM chip.
    pub rom: GamePakRom,
    /// The cartridge's SRAM chip.
    pub sram: GamePakSram,
}

/// A well-formed GamePak has well-formed chips.
pub open spec fn gamepak_wf(g: &GamePak) -> bool {
    gamepak_rom_wf(&g.rom) && gamepak_sram_wf(&g.sram)
}

impl GamePak {
    /// Creates a new zero-initialised GamePak.
    pub fn new() -> (r: GamePak)
        ensures
            gamepak_wf(&r),
            forall|i: int| 0 <= i < 0x200_0000 ==> r.rom.data@[i] == 0u8,
            forall|i: int| 0 <= i < 0x1_0000 ==> r.sram.data@[i] == 0u8,
    {
        GamePak { rom: GamePakRom::new(), sram: GamePakSram::new() }
    }

    /// Get the GamePak's ROM's header.
    pub fn header<'a>(&'a self) -> (r: GamePakRomHeader<'a>)
        ensures
            r.0 == &self.rom,
    {
        self.rom.header()
    }

    /// Get the GamePak's ROM.
    pub fn rom<'a>(&'a self) -> (r: &'a GamePakRom)
        ensures
            r == &self.rom,
    {
        &self.rom
    }

    /// Get the GamePak's ROM mutably.
    pub fn rom_mut<'a>(&'a mut self) -> (r: &'a mut GamePakRom) {
        &mut self.rom
    }

    /// Get the GamePak's SRAM.
    pub fn sram<'a>(&'a self) -> (r: &'a GamePakSram)
        ensures
            r == &self.sram,
    {
        &self.sram
    }

    /// Get the GamePak's SRAM mutably.
    pub fn sram_mut<'a>(&'a mut self) -> (r: &'a mut GamePakSram) {
        &mut self.sram
    }

    /// Loads a ROM image from plain bytes, clearing the SRAM first.
    pub fn load_rom_from_bytes(&mut self, image: &Vec<u8>)
        requires
            gamepak_wf(old(self)),
        ensures
            gamepak_wf(final(self)),
            forall|i: int|
                0 <= i < 0x200_0000 ==> final(self).rom.data@[i] == (if i < image@.len() {
                    image@[i]
                } else {
                    0u8
                }),
            forall|i: int| 0 <= i < 0x1_0000 ==> final(self).sram.data@[i] == 0u8,
    {
        self.sram.clear();
        self.rom.load_from_bytes(image);
    }
}

} // verus!
