//! A work RAM on the heap.
use vstd::prelude::*;
use crate::bits::lemma_ram_masks;

verus! {

/// The size of the work RAM.
pub const WRAM_SIZE: usize = 0x2000;

/// Folds an address into the work RAM.
pub const WRAM_MASK: usize = WRAM_SIZE - 1;

/// A work RAM of 0x2000 bytes.
pub struct WRam {
    data: Vec<u8>,
}

impl View for WRam {
    type V = Seq<u8>;

    closed spec fn view(&self) -> Seq<u8> {
        self.data@
    }
}

impl WRam {
    /// The memory holds 0x2000 bytes.
    pub open spec fn wf(&self) -> bool {
        self@.len() == WRAM_SIZE
    }

    /// The memory filled with zero.
    pub fn new() -> (r: WRam)
        ensures
            r.wf(),
            r@ == Seq::new(WRAM_SIZE as nat, |i: int| 0u8),
    {
        let r = WRam { data: vec![0; WRAM_SIZE] };
        assert(r.data@ =~= Seq::new(WRAM_SIZE as nat, |i: int| 0u8));
        r
    }

    /// The byte at `address`, folded into the memory.
    pub fn read(&self, address: u16) -> (r: u8)
        requires
            self.wf(),
        ensures
            r == self@[address as int % 0x2000],
    {
        proof {
            lemma_ram_masks(address);
        }
        self.data[(address as usize) & WRAM_MASK]
    }

    /// Stores `data` at `address`, folded into the memory.
    pub fn write(&mut self, address: u16, data: u8)
        requires
            old(self).wf(),
        ensures
            final(self)@ == old(self)@.update(address as int % 0x2000, data),
            final(self).wf(),
    {
        proof {
            lemma_ram_masks(address);
        }
        self.data.set((address as usize) & WRAM_MASK, data);
    }
}

} // verus!
