//! The cartridge: a flat ROM image and its decoded header.
use vstd::prelude::*;
use vstd::slice::slice_subrange;
use self::header::{Header, HEADER_LOC, HEADER_SIZE, ROM_SIZE_LOC};

pub mod header;

verus! {

/// A ROM image with its decoded header.
pub struct Cartridge {
    pub header: Header,
    pub rom: Vec<u8>,
}

impl View for Cartridge {
    type V = Seq<u8>;

    /// The bytes of the ROM image.
    open spec fn view(&self) -> Seq<u8> {
        self.rom@
    }
}

impl Cartridge {
    /// Takes a ROM image and decodes the header at 0x0100. The image must
    /// reach to the end of the header, and its ROM size code, a shift count,
    /// must be below 32.
    pub fn new(rom: Vec<u8>) -> (r: Cartridge)
        requires
            rom@.len() >= HEADER_LOC + HEADER_SIZE,
            rom@[HEADER_LOC + ROM_SIZE_LOC] < 32,
        ensures
            r@ == rom@,
            r.header.decodes(rom@.subrange(HEADER_LOC as int, HEADER_LOC + HEADER_SIZE)),
    {
        let header = Header::new(
            slice_subrange(rom.as_slice(), HEADER_LOC, HEADER_LOC + HEADER_SIZE),
        );

        Cartridge { header, rom }
    }

    /// The byte of the image at `address`.
    pub fn read(&self, address: u16) -> (r: u8)
        requires
            address < self@.len(),
        ensures
            r == self@[address as int],
    {
        self.rom[address as usize]
    }

    /// Stores `data` in the image at `address`.
    pub fn write(&mut self, address: u16, data: u8)
        requires
            address < old(self)@.len(),
        ensures
            final(self)@ == old(self)@.update(address as int, data),
            final(self).header == old(self).header,
    {
        self.rom.set(address as usize, data);
    }
}

} // verus!
