//! The GBA's memory-mapped IO register area, kept as a plain byte
//! store.

use vstd::prelude::*;

use crate::memory::{
    le16_at, le32_at, ram_read16, ram_read32, ram_read8, ram_write16, ram_write32, ram_write8,
    zero_bytes,
};

verus! {

/// All memory-mapped GBA IO registers.
pub struct IoRegisters {
    /// The registers' bytes; always exactly 1 KiB of them.
    pub data: Vec<u8>,
}

/// A well-formed IO register file holds exactly its region's length.
pub open spec fn ioregs_wf(r: &IoRegisters) -> bool {
    r.data@.len() == 0x400
}

impl IoRegisters {
    /// Creates new zero-initialised IO registers.
    pub fn new() -> (r: IoRegisters)
        ensures
            ioregs_wf(&r),
            forall|i: int| 0 <= i < 0x400 ==> r.data@[i] == 0u8,
    {
        IoRegisters { data: zero_bytes(0x400) }
    }

    /// Zero-fills all IO registers.
    pub fn clear(&mut self)
        requires
            ioregs_wf(old(self)),
        ensures
            ioregs_wf(final(self)),
            forall|i: int| 0 <= i < 0x400 ==> final(self).data@[i] == 0u8,
    {
        self.data = zero_bytes(0x400);
    }

    /// Reads a single register byte.
    pub fn read_byte(&self, offs: u32) -> (r: u8)
        requires
            ioregs_wf(self),
            offs < 0x400,
        ensures
            r == self.data@[offs as int],
    {
        ram_read8(&self.data, offs)
    }

    /// Reads a little-endian register halfword.
    pub fn read_halfword(&self, offs: u32) -> (r: u16)
        requires
            ioregs_wf(self),
            offs < 0x400,
        ensures
            r == le16_at(self.data@, (offs & !1u32) as int),
    {
        ram_read16(&self.data, offs)
    }

    /// Reads a little-endian register word.
    pub fn read_word(&self, offs: u32) -> (r: u32)
        requires
            ioregs_wf(self),
            offs < 0x400,
        ensures
            r == le32_at(self.data@, (offs & !3u32) as int),
    {
        ram_read32(&self.data, offs)
    }

    /// Writes a single register byte.
    pub fn write_byte(&mut self, offs: u32, b: u8)
        requires
            ioregs_wf(old(self)),
            offs < 0x400,
        ensures
            ioregs_wf(final(self)),
            final(self).data@ == old(self).data@.update(offs as int, b),
    {
        ram_write8(&mut self.data, offs, b);
    }

    /// Writes a little-endian register halfword.
    pub fn write_halfword(&mut self, offs: u32, data: u32)
        requires
            ioregs_wf(old(self)),
            offs < 0x400,
        ensures
            ioregs_wf(final(self)),
            final(self).data@ == old(self).data@.update(
                (offs & !1u32) as int,
                (data & 0xFFu32) as u8,
            ).update((offs & !1u32) + 1, ((data >> 8u32) & 0xFFu32) as u8),
    {
        proof {
            crate::memory::lemma_align(offs);
        }
        ram_write16(&mut self.data, offs, data);
    }

    /// Writes a little-endian register word.
    pub fn write_word(&mut self, offs: u32, data: u32)
        requires
            ioregs_wf(old(self)),
            offs < 0x400,
        ensures
            ioregs_wf(final(self)),
            final(self).data@ == old(self).data@.update(
                (offs & !3u32) as int,
                (data & 0xFFu32) as u8,
            ).update((offs & !3u32) + 1, ((data >> 8u32) & 0xFFu32) as u8).update(
                (offs & !3u32) + 2,
                ((data >> 16u32) & 0xFFu32) as u8,
            ).update((offs & !3u32) + 3, (data >> 24u32) as u8),
    {
        proof {
            crate::memory::lemma_align(offs);
        }
        ram_write32(&mut self.data, offs, data);
    }
}

impl Default for IoRegisters {
    /// Zero-initialised IO registers.
    fn default() -> (r: IoRegisters)
        ensures
            ioregs_wf(&r),
    {
        IoRegisters::new()
    }
}

} // verus!
