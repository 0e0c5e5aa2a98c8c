//! The work RAM and the high RAM.
use vstd::prelude::*;
use crate::bits::lemma_ram_masks;

verus! {

/// The size of the work RAM.
pub const WRAM_SIZE: usize = 0x2000;

/// Folds an address into the work RAM.
pub const WRAM_MASK: usize = WRAM_SIZE - 1;

/// The size of the high RAM, its unused last byte included.
pub const HRAM_SIZE: usize = 0x80;

/// Folds an address into the high RAM.
pub const HRAM_MASK: usize = HRAM_SIZE - 1;

/// The two memories of the console.
pub struct Ram {
    wram: [u8; WRAM_SIZE],
    hram: [u8; HRAM_SIZE],
}

/// What the two memories hold: 0x2000 bytes of work RAM and 0x80 bytes of
/// high RAM.
pub struct RamState {
    pub wram: Seq<u8>,
    pub hram: Seq<u8>,
}

impl RamState {
    /// Both memories have their sizes.
    pub open spec fn wf(self) -> bool {
        self.wram.len() == WRAM_SIZE && self.hram.len() == HRAM_SIZE
    }

    /// Both memories filled with zero.
    pub open spec fn zeroed() -> RamState {
        RamState {
            wram: Seq::new(WRAM_SIZE as nat, |i: int| 0u8),
            hram: Seq::new(HRAM_SIZE as nat, |i: int| 0u8),
        }
    }

    /// The byte of work RAM that `address` folds to.
    pub open spec fn wram_at(self, address: u16) -> u8 {
        self.wram[address as int % 0x2000]
    }

    /// The byte of high RAM that `address` folds to.
    pub open spec fn hram_at(self, address: u16) -> u8 {
        self.hram[address as int % 0x80]
    }

    /// The memories after a write to the work RAM.
    pub open spec fn wram_written(self, address: u16, data: u8) -> RamState {
        RamState { wram: self.wram.update(address as int % 0x2000, data), ..self }
    }

    /// The memories after a write to the high RAM.
    pub open spec fn hram_written(self, address: u16, data: u8) -> RamState {
        RamState { hram: self.hram.update(address as int % 0x80, data), ..self }
    }
}

impl View for Ram {
    type V = RamState;

    closed spec fn view(&self) -> RamState {
        RamState { wram: self.wram@, hram: self.hram@ }
    }
}

impl Ram {
    /// Both memories filled with zero.
    pub fn new() -> (r: Ram)
        ensures
            r@ == RamState::zeroed(),
            r@.wf(),
    {
        let r = Ram { wram: [0;WRAM_SIZE], hram: [0;HRAM_SIZE] };
        assert(r.wram@ =~= RamState::zeroed().wram);
        assert(r.hram@ =~= RamState::zeroed().hram);
        r
    }

    /// The byte of work RAM at `address`.
    pub fn wram_read(&self, address: u16) -> (r: u8)
        ensures
            r == self@.wram_at(address),
    {
        proof {
            lemma_ram_masks(address);
        }
        self.wram[(address as usize) & WRAM_MASK]
    }

    /// Stores `data` in the work RAM at `address`.
    pub fn wram_write(&mut self, address: u16, data: u8)
        ensures
            final(self)@ == old(self)@.wram_written(address, data),
            final(self)@.wf(),
    {
        proof {
            lemma_ram_masks(address);
        }
        self.wram[(address as usize) & WRAM_MASK] = data;
    }

    /// The byte of high RAM at `address`.
    pub fn hram_read(&self, address: u16) -> (r: u8)
        ensures
            r == self@.hram_at(address),
    {
        proof {
            lemma_ram_masks(address);
        }
        self.hram[(address as usize) & HRAM_MASK]
    }

    /// Stores `data` in the high RAM at `address`.
    pub fn hram_write(&mut self, address: u16, data: u8)
        ensures
            final(self)@ == old(self)@.hram_written(address, data),
            final(self)@.wf(),
    {
        proof {
            lemma_ram_masks(address);
        }
        self.hram[(address as usize) & HRAM_MASK] = data;
    }
}

} // verus!
