//! The operand kinds: registers, the immediate byte and the addressing
//! modes of memory.
use vstd::prelude::*;
use crate::bits::lemma_word_fields;
use super::instructions::{Dst, Operand, Src};
use super::model::effective_address;
use super::registers::Reg;
use super::{Cpu, Interface};

verus! {

/// The byte that follows the opcode.
#[derive(Debug, Clone, Copy, PartialEq, Eq, Structural)]
pub struct Imm;

impl Src<Imm> for Cpu {
    open spec fn source(src: Imm) -> Operand {
        Operand::Imm
    }

    fn read<I: Interface>(&mut self, bus: &mut I, src: Imm) -> (data: u8) {
        self.imm(bus)
    }
}

/// The ways to name a byte of memory.
#[derive(Debug, Clone, Copy, PartialEq, Eq, Structural)]
pub enum Address {
    /// At HL.
    HL,
    /// At BC.
    BC,
    /// At DE.
    DE,
    /// At HL; HL then goes up by one.
    HLI,
    /// At HL; HL then goes down by one.
    HLD,
    /// At the immediate word.
    Absolute,
    /// At 0xFF00 plus the immediate byte.
    ZeroPage,
    /// At 0xFF00 plus C.
    ZeroPageC,
}

impl Cpu {
    /// Resolves an addressing mode to an address.
    pub fn get_address<I: Interface>(&mut self, bus: &mut I, address: Address) -> (r: u16)
        requires
            I::valid(old(bus)@),
        ensures
            (r, *final(self), final(bus)@) == effective_address::<I>(
                *old(self),
                old(bus)@,
                address,
            ),
            I::valid(final(bus)@),
    {
        match address {
            Address::HL => self.regs.hl(),
            Address::BC => self.regs.bc(),
            Address::DE => self.regs.de(),
            Address::HLI => {
                let hl = self.regs.hl();
                self.regs.inc_hl();
                hl
            },
            Address::HLD => {
                let hl = self.regs.hl();
                self.regs.dec_hl();
                hl
            },
            Address::Absolute => self.imm_word(bus),
            Address::ZeroPage => {
                let offset = self.imm(bus);
                proof {
                    lemma_word_fields(0, offset, 0);
                }
                0xFF00 | offset as u16
            },
            Address::ZeroPageC => {
                proof {
                    lemma_word_fields(0, self.regs.c, 0);
                }
                0xFF00 | self.regs.c as u16
            },
        }
    }
}

impl Dst<Address> for Cpu {
    open spec fn target(dst: Address) -> Operand {
        Operand::Mem(dst)
    }

    fn write<I: Interface>(&mut self, bus: &mut I, dst: Address, data: u8) {
        let address = self.get_address(bus, dst);
        bus.write(address, data);
    }
}

impl Src<Address> for Cpu {
    open spec fn source(src: Address) -> Operand {
        Operand::Mem(src)
    }

    fn read<I: Interface>(&mut self, bus: &mut I, src: Address) -> (data: u8) {
        let address = self.get_address(bus, src);
        bus.read(address)
    }
}

impl Dst<Reg> for Cpu {
    open spec fn target(dst: Reg) -> Operand {
        Operand::Reg(dst)
    }

    fn write<I: Interface>(&mut self, bus: &mut I, dst: Reg, data: u8) {
        match dst {
            Reg::A => self.regs.a = data,
            Reg::B => self.regs.b = data,
            Reg::C => self.regs.c = data,
            Reg::D => self.regs.d = data,
            Reg::E => self.regs.e = data,
            Reg::H => self.regs.h = data,
            Reg::L => self.regs.l = data,
        }
    }
}

impl Src<Reg> for Cpu {
    open spec fn source(src: Reg) -> Operand {
        Operand::Reg(src)
    }

    fn read<I: Interface>(&mut self, bus: &mut I, src: Reg) -> (data: u8) {
        match src {
            Reg::A => self.regs.a,
            Reg::B => self.regs.b,
            Reg::C => self.regs.c,
            Reg::D => self.regs.d,
            Reg::E => self.regs.e,
            Reg::H => self.regs.h,
            Reg::L => self.regs.l,
        }
    }
}

} // verus!
