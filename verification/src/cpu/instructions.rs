//! The instruction set: what each opcode byte stands for, and the dispatch.
use vstd::prelude::*;
use super::registers::{Reg, Reg16};
use super::rw::{Address, Imm};
use super::laws::{duration, elapsed, lemma_duration, lemma_flags_stay_wf};
use super::{Cpu, Interface};
use super::model::{
    is_inner, lemma_run_inner, read_operand, run, run_extended, write_operand,
};

verus! {

broadcast use crate::cpu::registers::Flags::lemma_flags_of;

/// What a byte can be read from or written to.
#[derive(Debug, Clone, Copy, PartialEq, Eq, Structural)]
pub enum Operand {
    Reg(Reg),
    Mem(Address),
    Imm,
}

/// What reads and writes operands: the processor. The traits `Dst` and
/// `Src` speak of it through this view.
pub trait Processor {
    /// The processor that `self` is.
    spec fn processor(&self) -> Cpu;
}

impl Processor for Cpu {
    open spec fn processor(&self) -> Cpu {
        *self
    }
}

/// The kinds of value that the processor can write a byte to.
pub trait Dst<T: Copy>: Processor {
    /// The operand that `dst` names.
    spec fn target(dst: T) -> Operand;

    fn write<I: Interface>(&mut self, bus: &mut I, dst: T, data: u8)
        requires
            I::valid(old(bus)@),
        ensures
            (final(self).processor(), final(bus)@) == write_operand::<I>(
                old(self).processor(),
                old(bus)@,
                Self::target(dst),
                data,
            ),
            I::valid(final(bus)@),
    ;
}

/// The kinds of value that the processor can read a byte from.
pub trait Src<T: Copy>: Processor {
    /// The operand that `src` names.
    spec fn source(src: T) -> Operand;

    fn read<I: Interface>(&mut self, bus: &mut I, src: T) -> (data: u8)
        requires
            I::valid(old(bus)@),
        ensures
            (data, final(self).processor(), final(bus)@) == read_operand::<I>(
                old(self).processor(),
                old(bus)@,
                Self::source(src),
            ),
            I::valid(final(bus)@),
    ;
}

/// The four rotations by one bit.
#[derive(Debug, Clone, Copy, PartialEq, Eq, Structural)]
pub enum Rotate {
    Rlc,
    Rl,
    Rrc,
    Rr,
}

/// The conditions of the conditional jumps, calls and returns.
#[derive(Debug, Clone, Copy, PartialEq, Eq, Structural)]
pub enum Condition {
    NZ,
    Z,
    NC,
    C,
}

/// The eight operations of the arithmetic unit on the accumulator.
#[derive(Debug, Clone, Copy, PartialEq, Eq, Structural)]
pub enum AluOp {
    Add,
    Adc,
    Sub,
    Sbc,
    And,
    Xor,
    Or,
    Cp,
}

/// The instructions of the unprefixed table.
#[derive(Debug, Clone, Copy, PartialEq, Eq, Structural)]
pub enum Instruction {
    Nop,
    Stop,
    Halt,
    Di,
    Ei,
    Ccf,
    Scf,
    Daa,
    Cpl,
    RotateA(Rotate),
    /// LD dst,src
    Ld(Operand, Operand),
    /// LD rr,nn
    Ld16(Reg16),
    /// LD (nn),SP
    LdMemSp,
    /// LD HL,SP+d
    LdHlSp,
    /// LD SP,HL
    LdSpHl,
    Push(Reg16),
    Pop(Reg16),
    Alu(AluOp, Operand),
    /// ADD HL,rr
    Add16(Reg16),
    /// ADD SP,d
    AddSp,
    Inc(Operand),
    Dec(Operand),
    Inc16(Reg16),
    Dec16(Reg16),
    Jp,
    JpHl,
    JpCond(Condition),
    Jr,
    JrCond(Condition),
    Call,
    CallCond(Condition),
    Ret,
    RetCond(Condition),
    Reti,
    /// RST to the address given
    Rst(u8),
    /// The prefix 0xCB: the next byte selects from the second table.
    Prefix,
    Undefined,
}

/// The instructions of the table behind the prefix 0xCB.
#[derive(Debug, Clone, Copy, PartialEq, Eq, Structural)]
pub enum Extended {
    Rotate(Rotate, Operand),
    Sla(Operand),
    Sra(Operand),
    Swap(Operand),
    Srl(Operand),
    TestBit(u8, Operand),
    ResetBit(u8, Operand),
    SetBit(u8, Operand),
}

/// The operand that a three-bit register field names: B, C, D, E, H, L,
/// the byte at HL, and A.
pub open spec fn operand_field(code: int) -> Operand {
    if code == 0 {
        Operand::Reg(Reg::B)
    } else if code == 1 {
        Operand::Reg(Reg::C)
    } else if code == 2 {
        Operand::Reg(Reg::D)
    } else if code == 3 {
        Operand::Reg(Reg::E)
    } else if code == 4 {
        Operand::Reg(Reg::H)
    } else if code == 5 {
        Operand::Reg(Reg::L)
    } else if code == 6 {
        Operand::Mem(Address::HL)
    } else {
        Operand::Reg(Reg::A)
    }
}

/// The pair that a two-bit field names where SP is the fourth.
pub open spec fn pair_field(code: int) -> Reg16 {
    if code == 0 {
        Reg16::BC
    } else if code == 1 {
        Reg16::DE
    } else if code == 2 {
        Reg16::HL
    } else {
        Reg16::SP
    }
}

/// The pair that a two-bit field names where AF is the fourth.
pub open spec fn stack_pair_field(code: int) -> Reg16 {
    if code == 3 {
        Reg16::AF
    } else {
        pair_field(code)
    }
}

/// The memory operand of the loads between A and (BC), (DE), (HL+), (HL-).
pub open spec fn indirect_field(code: int) -> Operand {
    if code == 0 {
        Operand::Mem(Address::BC)
    } else if code == 1 {
        Operand::Mem(Address::DE)
    } else if code == 2 {
        Operand::Mem(Address::HLI)
    } else {
        Operand::Mem(Address::HLD)
    }
}

/// The condition that a two-bit field names.
pub open spec fn condition_field(code: int) -> Condition {
    if code == 0 {
        Condition::NZ
    } else if code == 1 {
        Condition::Z
    } else if code == 2 {
        Condition::NC
    } else {
        Condition::C
    }
}

/// The operation that a three-bit field names.
pub open spec fn alu_field(code: int) -> AluOp {
    if code == 0 {
        AluOp::Add
    } else if code == 1 {
        AluOp::Adc
    } else if code == 2 {
        AluOp::Sub
    } else if code == 3 {
        AluOp::Sbc
    } else if code == 4 {
        AluOp::And
    } else if code == 5 {
        AluOp::Xor
    } else if code == 6 {
        AluOp::Or
    } else {
        AluOp::Cp
    }
}

/// The first quarter of the table: loads, sixteen-bit arithmetic, relative
/// jumps and the operations on A and the flags. `y` is the field of bits 3
/// to 5, `z` that of bits 0 to 2.
pub open spec fn decode_low(y: int, z: int) -> Instruction {
    if z == 0 {
        if y == 0 {
            Instruction::Nop
        } else if y == 1 {
            Instruction::LdMemSp
        } else if y == 2 {
            Instruction::Stop
        } else if y == 3 {
            Instruction::Jr
        } else {
            Instruction::JrCond(condition_field(y - 4))
        }
    } else if z == 1 {
        if y % 2 == 0 {
            Instruction::Ld16(pair_field(y / 2))
        } else {
            Instruction::Add16(pair_field(y / 2))
        }
    } else if z == 2 {
        if y % 2 == 0 {
            Instruction::Ld(indirect_field(y / 2), Operand::Reg(Reg::A))
        } else {
            Instruction::Ld(Operand::Reg(Reg::A), indirect_field(y / 2))
        }
    } else if z == 3 {
        if y % 2 == 0 {
            Instruction::Inc16(pair_field(y / 2))
        } else {
            Instruction::Dec16(pair_field(y / 2))
        }
    } else if z == 4 {
        Instruction::Inc(operand_field(y))
    } else if z == 5 {
        Instruction::Dec(operand_field(y))
    } else if z == 6 {
        Instruction::Ld(operand_field(y), Operand::Imm)
    } else if y == 0 {
        Instruction::RotateA(Rotate::Rlc)
    } else if y == 1 {
        Instruction::RotateA(Rotate::Rrc)
    } else if y == 2 {
        Instruction::RotateA(Rotate::Rl)
    } else if y == 3 {
        Instruction::RotateA(Rotate::Rr)
    } else if y == 4 {
        Instruction::Daa
    } else if y == 5 {
        Instruction::Cpl
    } else if y == 6 {
        Instruction::Scf
    } else {
        Instruction::Ccf
    }
}

/// The last quarter of the table: the stack, control flow, the loads
/// through the page at 0xFF00, and arithmetic on an immediate byte.
pub open spec fn decode_high(y: int, z: int) -> Instruction {
    if z == 0 {
        if y < 4 {
            Instruction::RetCond(condition_field(y))
        } else if y == 4 {
            Instruction::Ld(Operand::Mem(Address::ZeroPage), Operand::Reg(Reg::A))
        } else if y == 5 {
            Instruction::AddSp
        } else if y == 6 {
            Instruction::Ld(Operand::Reg(Reg::A), Operand::Mem(Address::ZeroPage))
        } else {
            Instruction::LdHlSp
        }
    } else if z == 1 {
        if y % 2 == 0 {
            Instruction::Pop(stack_pair_field(y / 2))
        } else if y == 1 {
            Instruction::Ret
        } else if y == 3 {
            Instruction::Reti
        } else if y == 5 {
            Instruction::JpHl
        } else {
            Instruction::LdSpHl
        }
    } else if z == 2 {
        if y < 4 {
            Instruction::JpCond(condition_field(y))
        } else if y == 4 {
            Instruction::Ld(Operand::Mem(Address::ZeroPageC), Operand::Reg(Reg::A))
        } else if y == 5 {
            Instruction::Ld(Operand::Mem(Address::Absolute), Operand::Reg(Reg::A))
        } else if y == 6 {
            Instruction::Ld(Operand::Reg(Reg::A), Operand::Mem(Address::ZeroPageC))
        } else {
            Instruction::Ld(Operand::Reg(Reg::A), Operand::Mem(Address::Absolute))
        }
    } else if z == 3 {
        if y == 0 {
            Instruction::Jp
        } else if y == 1 {
            Instruction::Prefix
        } else if y == 6 {
            Instruction::Di
        } else if y == 7 {
            Instruction::Ei
        } else {
            Instruction::Undefined
        }
    } else if z == 4 {
        if y < 4 {
            Instruction::CallCond(condition_field(y))
        } else {
            Instruction::Undefined
        }
    } else if z == 5 {
        if y % 2 == 0 {
            Instruction::Push(stack_pair_field(y / 2))
        } else if y == 1 {
            Instruction::Call
        } else {
            Instruction::Undefined
        }
    } else if z == 6 {
        Instruction::Alu(alu_field(y), Operand::Imm)
    } else {
        Instruction::Rst((y * 8) as u8)
    }
}

/// The instruction that an opcode of the unprefixed table stands for.
pub open spec fn decode(opcode: u8) -> Instruction {
    let y = opcode as int / 8 % 8;
    let z = opcode as int % 8;
    if opcode < 0x40 {
        decode_low(y, z)
    } else if opcode < 0x80 {
        if opcode == 0x76 {
            Instruction::Halt
        } else {
            Instruction::Ld(operand_field(y), operand_field(z))
        }
    } else if opcode < 0xC0 {
        Instruction::Alu(alu_field(y), operand_field(z))
    } else {
        decode_high(y, z)
    }
}

/// The instruction that an opcode of the table behind 0xCB stands for.
pub open spec fn decode_extended(opcode: u8) -> Extended {
    let y = opcode as int / 8 % 8;
    let operand = operand_field(opcode as int % 8);
    if opcode < 0x40 {
        if y == 0 {
            Extended::Rotate(Rotate::Rlc, operand)
        } else if y == 1 {
            Extended::Rotate(Rotate::Rrc, operand)
        } else if y == 2 {
            Extended::Rotate(Rotate::Rl, operand)
        } else if y == 3 {
            Extended::Rotate(Rotate::Rr, operand)
        } else if y == 4 {
            Extended::Sla(operand)
        } else if y == 5 {
            Extended::Sra(operand)
        } else if y == 6 {
            Extended::Swap(operand)
        } else {
            Extended::Srl(operand)
        }
    } else if opcode < 0x80 {
        Extended::TestBit(y as u8, operand)
    } else if opcode < 0xC0 {
        Extended::ResetBit(y as u8, operand)
    } else {
        Extended::SetBit(y as u8, operand)
    }
}

/// The opcodes that stop the machine: STOP and the eleven bytes that stand
/// for no instruction.
pub open spec fn is_fatal(opcode: u8) -> bool {
    decode(opcode) == Instruction::Stop || decode(opcode) == Instruction::Undefined
}

/// Whether `opcode` stops the machine.
pub fn fatal(opcode: u8) -> (r: bool)
    ensures
        r == is_fatal(opcode),
{
    match opcode {
        0x10 | 0xD3 | 0xDB | 0xDD | 0xE3 | 0xE4 | 0xEB | 0xEC | 0xED | 0xF4 | 0xFC | 0xFD => true,
        _ => false,
    }
}


impl Cpu {
    /// Runs the instruction of the current opcode. STOP and the undefined
    /// opcodes bring the machine to an end and are not run.
    pub fn execute<I: Interface>(&mut self, bus: &mut I)
        requires
            I::valid(old(bus)@),
            !is_fatal(old(self).cur_opcode),
        ensures
            (*final(self), final(bus)@) == run::<I>(
                *old(self),
                old(bus)@,
                decode(old(self).cur_opcode),
            ),
            I::valid(final(bus)@),
            old(self).wf() ==> final(self).wf(),
            elapsed::<I>(
                old(bus)@,
                final(bus)@,
                duration::<I>(*old(self), old(bus)@, decode(old(self).cur_opcode)),
            ),
    {
        proof {
            lemma_duration::<I>(*self, bus@, decode(self.cur_opcode));
            if self.wf() {
                lemma_flags_stay_wf::<I>(*self, bus@, decode(self.cur_opcode));
            }
        }
        if self.cur_opcode < 0x40 {
            self.execute_first(bus);
        } else if self.cur_opcode < 0x80 {
            self.execute_loads(bus);
        } else if self.cur_opcode < 0xC0 {
            self.execute_arithmetic(bus);
        } else {
            self.execute_control(bus);
        }
    }

    /// The first quarter of the table: sixteen-bit loads and arithmetic, relative
    /// jumps, increments and decrements, and the operations on A and the flags.
    #[verifier::rlimit(40)]
    fn execute_first<I: Interface>(&mut self, bus: &mut I)
        requires
            I::valid(old(bus)@),
            0x00 <= old(self).cur_opcode <= 0x3F,
            !is_fatal(old(self).cur_opcode),
        ensures
            (*final(self), final(bus)@) == run::<I>(
                *old(self),
                old(bus)@,
                decode(old(self).cur_opcode),
            ),
            I::valid(final(bus)@),
    {
        proof {
            if is_inner(decode(self.cur_opcode)) {
                lemma_run_inner::<I>(*self, bus@, decode(self.cur_opcode));
            }
        }
        match self.cur_opcode {
            0x00 => return self.nop(),
            0x01 => return self.ld16(bus, Reg16::BC),
            0x02 => return self.ld(bus, Address::BC, Reg::A),
            0x03 => return self.inc16(bus, Reg16::BC),
            0x04 => return self.inc(bus, Reg::B),
            0x05 => return self.dec(bus, Reg::B),
            0x06 => return self.ld(bus, Reg::B, Imm),
            0x07 => return self.rotate_a(Rotate::Rlc),
            0x08 => return self.ld_mem_d16_sp(bus),
            0x09 => return self.add16(bus, Reg16::BC),
            0x0A => return self.ld(bus, Reg::A, Address::BC),
            0x0B => return self.dec16(bus, Reg16::BC),
            0x0C => return self.inc(bus, Reg::C),
            0x0D => return self.dec(bus, Reg::C),
            0x0E => return self.ld(bus, Reg::C, Imm),
            0x0F => return self.rotate_a(Rotate::Rrc),
            0x11 => return self.ld16(bus, Reg16::DE),
            0x12 => return self.ld(bus, Address::DE, Reg::A),
            0x13 => return self.inc16(bus, Reg16::DE),
            0x14 => return self.inc(bus, Reg::D),
            0x15 => return self.dec(bus, Reg::D),
            0x16 => return self.ld(bus, Reg::D, Imm),
            0x17 => return self.rotate_a(Rotate::Rl),
            0x18 => return self.jr(bus),
            0x19 => return self.add16(bus, Reg16::DE),
            0x1A => return self.ld(bus, Reg::A, Address::DE),
            0x1B => return self.dec16(bus, Reg16::DE),
            0x1C => return self.inc(bus, Reg::E),
            0x1D => return self.dec(bus, Reg::E),
            0x1E => return self.ld(bus, Reg::E, Imm),
            0x1F => return self.rotate_a(Rotate::Rr),
            0x20 => return self.jr_cond(bus, Condition::NZ),
            0x21 => return self.ld16(bus, Reg16::HL),
            0x22 => return self.ld(bus, Address::HLI, Reg::A),
            0x23 => return self.inc16(bus, Reg16::HL),
            0x24 => return self.inc(bus, Reg::H),
            0x25 => return self.dec(bus, Reg::H),
            0x26 => return self.ld(bus, Reg::H, Imm),
            0x27 => return self.daa(),
            0x28 => return self.jr_cond(bus, Condition::Z),
            0x29 => return self.add16(bus, Reg16::HL),
            0x2A => return self.ld(bus, Reg::A, Address::HLI),
            0x2B => return self.dec16(bus, Reg16::HL),
            0x2C => return self.inc(bus, Reg::L),
            0x2D => return self.dec(bus, Reg::L),
            0x2E => return self.ld(bus, Reg::L, Imm),
            0x2F => return self.cpl(),
            0x30 => return self.jr_cond(bus, Condition::NC),
            0x31 => return self.ld16(bus, Reg16::SP),
            0x32 => return self.ld(bus, Address::HLD, Reg::A),
            0x33 => return self.inc16(bus, Reg16::SP),
            0x34 => return self.inc(bus, Address::HL),
            0x35 => return self.dec(bus, Address::HL),
            0x36 => return self.ld(bus, Address::HL, Imm),
            0x37 => return self.scf(),
            0x38 => return self.jr_cond(bus, Condition::C),
            0x39 => return self.add16(bus, Reg16::SP),
            0x3A => return self.ld(bus, Reg::A, Address::HLD),
            0x3B => return self.dec16(bus, Reg16::SP),
            0x3C => return self.inc(bus, Reg::A),
            0x3D => return self.dec(bus, Reg::A),
            0x3E => return self.ld(bus, Reg::A, Imm),
            0x3F => return self.ccf(),
            0x10 => {},
            _ => {},
        }
    }

    /// The second quarter of the table: the loads between registers and the
    /// byte at HL, and HALT.
    #[verifier::rlimit(40)]
    fn execute_loads<I: Interface>(&mut self, bus: &mut I)
        requires
            I::valid(old(bus)@),
            0x40 <= old(self).cur_opcode <= 0x7F,
            !is_fatal(old(self).cur_opcode),
        ensures
            (*final(self), final(bus)@) == run::<I>(
                *old(self),
                old(bus)@,
                decode(old(self).cur_opcode),
            ),
            I::valid(final(bus)@),
    {
        proof {
            if is_inner(decode(self.cur_opcode)) {
                lemma_run_inner::<I>(*self, bus@, decode(self.cur_opcode));
            }
        }
        match self.cur_opcode {
            0x40 => return self.ld(bus, Reg::B, Reg::B),
            0x41 => return self.ld(bus, Reg::B, Reg::C),
            0x42 => return self.ld(bus, Reg::B, Reg::D),
            0x43 => return self.ld(bus, Reg::B, Reg::E),
            0x44 => return self.ld(bus, Reg::B, Reg::H),
            0x45 => return self.ld(bus, Reg::B, Reg::L),
            0x46 => return self.ld(bus, Reg::B, Address::HL),
            0x47 => return self.ld(bus, Reg::B, Reg::A),
            0x48 => return self.ld(bus, Reg::C, Reg::B),
            0x49 => return self.ld(bus, Reg::C, Reg::C),
            0x4A => return self.ld(bus, Reg::C, Reg::D),
            0x4B => return self.ld(bus, Reg::C, Reg::E),
            0x4C => return self.ld(bus, Reg::C, Reg::H),
            0x4D => return self.ld(bus, Reg::C, Reg::L),
            0x4E => return self.ld(bus, Reg::C, Address::HL),
            0x4F => return self.ld(bus, Reg::C, Reg::A),
            0x50 => return self.ld(bus, Reg::D, Reg::B),
            0x51 => return self.ld(bus, Reg::D, Reg::C),
            0x52 => return self.ld(bus, Reg::D, Reg::D),
            0x53 => return self.ld(bus, Reg::D, Reg::E),
            0x54 => return self.ld(bus, Reg::D, Reg::H),
            0x55 => return self.ld(bus, Reg::D, Reg::L),
            0x56 => return self.ld(bus, Reg::D, Address::HL),
            0x57 => return self.ld(bus, Reg::D, Reg::A),
            0x58 => return self.ld(bus, Reg::E, Reg::B),
            0x59 => return self.ld(bus, Reg::E, Reg::C),
            0x5A => return self.ld(bus, Reg::E, Reg::D),
            0x5B => return self.ld(bus, Reg::E, Reg::E),
            0x5C => return self.ld(bus, Reg::E, Reg::H),
            0x5D => return self.ld(bus, Reg::E, Reg::L),
            0x5E => return self.ld(bus, Reg::E, Address::HL),
            0x5F => return self.ld(bus, Reg::E, Reg::A),
            0x60 => return self.ld(bus, Reg::H, Reg::B),
            0x61 => return self.ld(bus, Reg::H, Reg::C),
            0x62 => return self.ld(bus, Reg::H, Reg::D),
            0x63 => return self.ld(bus, Reg::H, Reg::E),
            0x64 => return self.ld(bus, Reg::H, Reg::H),
            0x65 => return self.ld(bus, Reg::H, Reg::L),
            0x66 => return self.ld(bus, Reg::H, Address::HL),
            0x67 => return self.ld(bus, Reg::H, Reg::A),
            0x68 => return self.ld(bus, Reg::L, Reg::B),
            0x69 => return self.ld(bus, Reg::L, Reg::C),
            0x6A => return self.ld(bus, Reg::L, Reg::D),
            0x6B => return self.ld(bus, Reg::L, Reg::E),
            0x6C => return self.ld(bus, Reg::L, Reg::H),
            0x6D => return self.ld(bus, Reg::L, Reg::L),
            0x6E => return self.ld(bus, Reg::L, Address::HL),
            0x6F => return self.ld(bus, Reg::L, Reg::A),
            0x70 => return self.ld(bus, Address::HL, Reg::B),
            0x71 => return self.ld(bus, Address::HL, Reg::C),
            0x72 => return self.ld(bus, Address::HL, Reg::D),
            0x73 => return self.ld(bus, Address::HL, Reg::E),
            0x74 => return self.ld(bus, Address::HL, Reg::H),
            0x75 => return self.ld(bus, Address::HL, Reg::L),
            0x76 => return self.halt(),
            0x77 => return self.ld(bus, Address::HL, Reg::A),
            0x78 => return self.ld(bus, Reg::A, Reg::B),
            0x79 => return self.ld(bus, Reg::A, Reg::C),
            0x7A => return self.ld(bus, Reg::A, Reg::D),
            0x7B => return self.ld(bus, Reg::A, Reg::E),
            0x7C => return self.ld(bus, Reg::A, Reg::H),
            0x7D => return self.ld(bus, Reg::A, Reg::L),
            0x7E => return self.ld(bus, Reg::A, Address::HL),
            0x7F => return self.ld(bus, Reg::A, Reg::A),
            _ => {},
        }
    }

    /// The third quarter of the table: the arithmetic unit on A and a register
    /// or the byte at HL.
    #[verifier::rlimit(40)]
    fn execute_arithmetic<I: Interface>(&mut self, bus: &mut I)
        requires
            I::valid(old(bus)@),
            0x80 <= old(self).cur_opcode <= 0xBF,
            !is_fatal(old(self).cur_opcode),
        ensures
            (*final(self), final(bus)@) == run::<I>(
                *old(self),
                old(bus)@,
                decode(old(self).cur_opcode),
            ),
            I::valid(final(bus)@),
    {
        proof {
            if is_inner(decode(self.cur_opcode)) {
                lemma_run_inner::<I>(*self, bus@, decode(self.cur_opcode));
            }
        }
        match self.cur_opcode {
            0x80 => return self.add(bus, Reg::B),
            0x81 => return self.add(bus, Reg::C),
            0x82 => return self.add(bus, Reg::D),
            0x83 => return self.add(bus, Reg::E),
            0x84 => return self.add(bus, Reg::H),
            0x85 => return self.add(bus, Reg::L),
            0x86 => return self.add(bus, Address::HL),
            0x87 => return self.add(bus, Reg::A),
            0x88 => return self.adc(bus, Reg::B),
            0x89 => return self.adc(bus, Reg::C),
            0x8A => return self.adc(bus, Reg::D),
            0x8B => return self.adc(bus, Reg::E),
            0x8C => return self.adc(bus, Reg::H),
            0x8D => return self.adc(bus, Reg::L),
            0x8E => return self.adc(bus, Address::HL),
            0x8F => return self.adc(bus, Reg::A),
            0x90 => return self.sub(bus, Reg::B),
            0x91 => return self.sub(bus, Reg::C),
            0x92 => return self.sub(bus, Reg::D),
            0x93 => return self.sub(bus, Reg::E),
            0x94 => return self.sub(bus, Reg::H),
            0x95 => return self.sub(bus, Reg::L),
            0x96 => return self.sub(bus, Address::HL),
            0x97 => return self.sub(bus, Reg::A),
            0x98 => return self.sbc(bus, Reg::B),
            0x99 => return self.sbc(bus, Reg::C),
            0x9A => return self.sbc(bus, Reg::D),
            0x9B => return self.sbc(bus, Reg::E),
            0x9C => return self.sbc(bus, Reg::H),
            0x9D => return self.sbc(bus, Reg::L),
            0x9E => return self.sbc(bus, Address::HL),
            0x9F => return self.sbc(bus, Reg::A),
            0xA0 => return self.and(bus, Reg::B),
            0xA1 => return self.and(bus, Reg::C),
            0xA2 => return self.and(bus, Reg::D),
            0xA3 => return self.and(bus, Reg::E),
            0xA4 => return self.and(bus, Reg::H),
            0xA5 => return self.and(bus, Reg::L),
            0xA6 => return self.and(bus, Address::HL),
            0xA7 => return self.and(bus, Reg::A),
            0xA8 => return self.xor(bus, Reg::B),
            0xA9 => return self.xor(bus, Reg::C),
            0xAA => return self.xor(bus, Reg::D),
            0xAB => return self.xor(bus, Reg::E),
            0xAC => return self.xor(bus, Reg::H),
            0xAD => return self.xor(bus, Reg::L),
            0xAE => return self.xor(bus, Address::HL),
            0xAF => return self.xor(bus, Reg::A),
            0xB0 => return self.or(bus, Reg::B),
            0xB1 => return self.or(bus, Reg::C),
            0xB2 => return self.or(bus, Reg::D),
            0xB3 => return self.or(bus, Reg::E),
            0xB4 => return self.or(bus, Reg::H),
            0xB5 => return self.or(bus, Reg::L),
            0xB6 => return self.or(bus, Address::HL),
            0xB7 => return self.or(bus, Reg::A),
            0xB8 => return self.cp(bus, Reg::B),
            0xB9 => return self.cp(bus, Reg::C),
            0xBA => return self.cp(bus, Reg::D),
            0xBB => return self.cp(bus, Reg::E),
            0xBC => return self.cp(bus, Reg::H),
            0xBD => return self.cp(bus, Reg::L),
            0xBE => return self.cp(bus, Address::HL),
            0xBF => return self.cp(bus, Reg::A),
            _ => {},
        }
    }

    /// The last quarter of the table: the stack, control flow, the loads through
    /// the page at 0xFF00, and arithmetic on an immediate byte.
    #[verifier::rlimit(40)]
    fn execute_control<I: Interface>(&mut self, bus: &mut I)
        requires
            I::valid(old(bus)@),
            0xC0 <= old(self).cur_opcode <= 0xFF,
            !is_fatal(old(self).cur_opcode),
        ensures
            (*final(self), final(bus)@) == run::<I>(
                *old(self),
                old(bus)@,
                decode(old(self).cur_opcode),
            ),
            I::valid(final(bus)@),
    {
        proof {
            if is_inner(decode(self.cur_opcode)) {
                lemma_run_inner::<I>(*self, bus@, decode(self.cur_opcode));
            }
        }
        match self.cur_opcode {
            0xC0 => return self.ret_cond(bus, Condition::NZ),
            0xC1 => return self.pop(bus, Reg16::BC),
            0xC2 => return self.jp_cond(bus, Condition::NZ),
            0xC3 => return self.jp(bus),
            0xC4 => return self.call_cond(bus, Condition::NZ),
            0xC5 => return self.push(bus, Reg16::BC),
            0xC6 => return self.add(bus, Imm),
            0xC7 | 0xCF | 0xD7 | 0xDF | 0xE7 | 0xEF | 0xF7 | 0xFF => return self.rst(bus),
            0xC8 => return self.ret_cond(bus, Condition::Z),
            0xC9 => return self.ret(bus),
            0xCA => return self.jp_cond(bus, Condition::Z),
            0xCB => return self.prefix_cb(bus),
            0xCC => return self.call_cond(bus, Condition::Z),
            0xCD => return self.call(bus),
            0xCE => return self.adc(bus, Imm),
            0xD0 => return self.ret_cond(bus, Condition::NC),
            0xD1 => return self.pop(bus, Reg16::DE),
            0xD2 => return self.jp_cond(bus, Condition::NC),
            0xD4 => return self.call_cond(bus, Condition::NC),
            0xD5 => return self.push(bus, Reg16::DE),
            0xD6 => return self.sub(bus, Imm),
            0xD8 => return self.ret_cond(bus, Condition::C),
            0xD9 => return self.reti(bus),
            0xDA => return self.jp_cond(bus, Condition::C),
            0xDC => return self.call_cond(bus, Condition::C),
            0xDE => return self.sbc(bus, Imm),
            0xE0 => return self.ld(bus, Address::ZeroPage, Reg::A),
            0xE1 => return self.pop(bus, Reg16::HL),
            0xE2 => return self.ld(bus, Address::ZeroPageC, Reg::A),
            0xE5 => return self.push(bus, Reg16::HL),
            0xE6 => return self.and(bus, Imm),
            0xE8 => return self.add_sp_d8(bus),
            0xE9 => return self.jp_hl(),
            0xEA => return self.ld(bus, Address::Absolute, Reg::A),
            0xEE => return self.xor(bus, Imm),
            0xF0 => return self.ld(bus, Reg::A, Address::ZeroPage),
            0xF1 => return self.pop(bus, Reg16::AF),
            0xF2 => return self.ld(bus, Reg::A, Address::ZeroPageC),
            0xF3 => return self.di(),
            0xF5 => return self.push(bus, Reg16::AF),
            0xF6 => return self.or(bus, Imm),
            0xF8 => return self.ld_hl_sp_d8(bus),
            0xF9 => return self.ld_sp_hl(bus),
            0xFA => return self.ld(bus, Reg::A, Address::Absolute),
            0xFB => return self.ei(),
            0xFE => return self.cp(bus, Imm),
            0xD3 | 0xDB | 0xDD | 0xE3 | 0xE4 | 0xEB | 0xEC | 0xED | 0xF4 | 0xFC | 0xFD => {},
            _ => {},
        }
    }

    /// Reads the opcode behind the prefix 0xCB and runs its instruction.
    pub fn prefix_cb<I: Interface>(&mut self, bus: &mut I)
        requires
            I::valid(old(bus)@),
        ensures
            (*final(self), final(bus)@) == run::<I>(*old(self), old(bus)@, Instruction::Prefix),
            I::valid(final(bus)@),
    {
        let opcode = self.imm(bus);
        assert(run::<I>(*old(self), old(bus)@, Instruction::Prefix) == run_extended::<I>(
            *self,
            bus@,
            decode_extended(opcode),
        )) by {
            reveal(run);
        }
        if opcode < 0x40 {
            self.extended_shifts(bus, opcode);
        } else if opcode < 0x80 {
            self.extended_tests(bus, opcode);
        } else if opcode < 0xC0 {
            self.extended_resets(bus, opcode);
        } else {
            self.extended_sets(bus, opcode);
        }
    }

    /// The rotations, the shifts and SWAP.
    #[verifier::rlimit(40)]
    fn extended_shifts<I: Interface>(&mut self, bus: &mut I, opcode: u8)
        requires
            I::valid(old(bus)@),
            0x00 <= opcode <= 0x3F,
        ensures
            (*final(self), final(bus)@) == run_extended::<I>(
                *old(self),
                old(bus)@,
                decode_extended(opcode),
            ),
            I::valid(final(bus)@),
    {
        match opcode {
            0x00 => return self.rotate(bus, Reg::B, Rotate::Rlc),
            0x01 => return self.rotate(bus, Reg::C, Rotate::Rlc),
            0x02 => return self.rotate(bus, Reg::D, Rotate::Rlc),
            0x03 => return self.rotate(bus, Reg::E, Rotate::Rlc),
            0x04 => return self.rotate(bus, Reg::H, Rotate::Rlc),
            0x05 => return self.rotate(bus, Reg::L, Rotate::Rlc),
            0x06 => return self.rotate(bus, Address::HL, Rotate::Rlc),
            0x07 => return self.rotate(bus, Reg::A, Rotate::Rlc),
            0x08 => return self.rotate(bus, Reg::B, Rotate::Rrc),
            0x09 => return self.rotate(bus, Reg::C, Rotate::Rrc),
            0x0A => return self.rotate(bus, Reg::D, Rotate::Rrc),
            0x0B => return self.rotate(bus, Reg::E, Rotate::Rrc),
            0x0C => return self.rotate(bus, Reg::H, Rotate::Rrc),
            0x0D => return self.rotate(bus, Reg::L, Rotate::Rrc),
            0x0E => return self.rotate(bus, Address::HL, Rotate::Rrc),
            0x0F => return self.rotate(bus, Reg::A, Rotate::Rrc),
            0x10 => return self.rotate(bus, Reg::B, Rotate::Rl),
            0x11 => return self.rotate(bus, Reg::C, Rotate::Rl),
            0x12 => return self.rotate(bus, Reg::D, Rotate::Rl),
            0x13 => return self.rotate(bus, Reg::E, Rotate::Rl),
            0x14 => return self.rotate(bus, Reg::H, Rotate::Rl),
            0x15 => return self.rotate(bus, Reg::L, Rotate::Rl),
            0x16 => return self.rotate(bus, Address::HL, Rotate::Rl),
            0x17 => return self.rotate(bus, Reg::A, Rotate::Rl),
            0x18 => return self.rotate(bus, Reg::B, Rotate::Rr),
            0x19 => return self.rotate(bus, Reg::C, Rotate::Rr),
            0x1A => return self.rotate(bus, Reg::D, Rotate::Rr),
            0x1B => return self.rotate(bus, Reg::E, Rotate::Rr),
            0x1C => return self.rotate(bus, Reg::H, Rotate::Rr),
            0x1D => return self.rotate(bus, Reg::L, Rotate::Rr),
            0x1E => return self.rotate(bus, Address::HL, Rotate::Rr),
            0x1F => return self.rotate(bus, Reg::A, Rotate::Rr),
            0x20 => return self.sla(bus, Reg::B),
            0x21 => return self.sla(bus, Reg::C),
            0x22 => return self.sla(bus, Reg::D),
            0x23 => return self.sla(bus, Reg::E),
            0x24 => return self.sla(bus, Reg::H),
            0x25 => return self.sla(bus, Reg::L),
            0x26 => return self.sla(bus, Address::HL),
            0x27 => return self.sla(bus, Reg::A),
            0x28 => return self.sra(bus, Reg::B),
            0x29 => return self.sra(bus, Reg::C),
            0x2A => return self.sra(bus, Reg::D),
            0x2B => return self.sra(bus, Reg::E),
            0x2C => return self.sra(bus, Reg::H),
            0x2D => return self.sra(bus, Reg::L),
            0x2E => return self.sra(bus, Address::HL),
            0x2F => return self.sra(bus, Reg::A),
            0x30 => return self.swap(bus, Reg::B),
            0x31 => return self.swap(bus, Reg::C),
            0x32 => return self.swap(bus, Reg::D),
            0x33 => return self.swap(bus, Reg::E),
            0x34 => return self.swap(bus, Reg::H),
            0x35 => return self.swap(bus, Reg::L),
            0x36 => return self.swap(bus, Address::HL),
            0x37 => return self.swap(bus, Reg::A),
            0x38 => return self.srl(bus, Reg::B),
            0x39 => return self.srl(bus, Reg::C),
            0x3A => return self.srl(bus, Reg::D),
            0x3B => return self.srl(bus, Reg::E),
            0x3C => return self.srl(bus, Reg::H),
            0x3D => return self.srl(bus, Reg::L),
            0x3E => return self.srl(bus, Address::HL),
            0x3F => return self.srl(bus, Reg::A),
            _ => {},
        }
    }

    /// BIT: the tests of one bit.
    #[verifier::rlimit(40)]
    fn extended_tests<I: Interface>(&mut self, bus: &mut I, opcode: u8)
        requires
            I::valid(old(bus)@),
            0x40 <= opcode <= 0x7F,
        ensures
            (*final(self), final(bus)@) == run_extended::<I>(
                *old(self),
                old(bus)@,
                decode_extended(opcode),
            ),
            I::valid(final(bus)@),
    {
        match opcode {
            0x40 => return self.bit(bus, Reg::B, 0),
            0x41 => return self.bit(bus, Reg::C, 0),
            0x42 => return self.bit(bus, Reg::D, 0),
            0x43 => return self.bit(bus, Reg::E, 0),
            0x44 => return self.bit(bus, Reg::H, 0),
            0x45 => return self.bit(bus, Reg::L, 0),
            0x46 => return self.bit(bus, Address::HL, 0),
            0x47 => return self.bit(bus, Reg::A, 0),
            0x48 => return self.bit(bus, Reg::B, 1),
            0x49 => return self.bit(bus, Reg::C, 1),
            0x4A => return self.bit(bus, Reg::D, 1),
            0x4B => return self.bit(bus, Reg::E, 1),
            0x4C => return self.bit(bus, Reg::H, 1),
            0x4D => return self.bit(bus, Reg::L, 1),
            0x4E => return self.bit(bus, Address::HL, 1),
            0x4F => return self.bit(bus, Reg::A, 1),
            0x50 => return self.bit(bus, Reg::B, 2),
            0x51 => return self.bit(bus, Reg::C, 2),
            0x52 => return self.bit(bus, Reg::D, 2),
            0x53 => return self.bit(bus, Reg::E, 2),
            0x54 => return self.bit(bus, Reg::H, 2),
            0x55 => return self.bit(bus, Reg::L, 2),
            0x56 => return self.bit(bus, Address::HL, 2),
            0x57 => return self.bit(bus, Reg::A, 2),
            0x58 => return self.bit(bus, Reg::B, 3),
            0x59 => return self.bit(bus, Reg::C, 3),
            0x5A => return self.bit(bus, Reg::D, 3),
            0x5B => return self.bit(bus, Reg::E, 3),
            0x5C => return self.bit(bus, Reg::H, 3),
            0x5D => return self.bit(bus, Reg::L, 3),
            0x5E => return self.bit(bus, Address::HL, 3),
            0x5F => return self.bit(bus, Reg::A, 3),
            0x60 => return self.bit(bus, Reg::B, 4),
            0x61 => return self.bit(bus, Reg::C, 4),
            0x62 => return self.bit(bus, Reg::D, 4),
            0x63 => return self.bit(bus, Reg::E, 4),
            0x64 => return self.bit(bus, Reg::H, 4),
            0x65 => return self.bit(bus, Reg::L, 4),
            0x66 => return self.bit(bus, Address::HL, 4),
            0x67 => return self.bit(bus, Reg::A, 4),
            0x68 => return self.bit(bus, Reg::B, 5),
            0x69 => return self.bit(bus, Reg::C, 5),
            0x6A => return self.bit(bus, Reg::D, 5),
            0x6B => return self.bit(bus, Reg::E, 5),
            0x6C => return self.bit(bus, Reg::H, 5),
            0x6D => return self.bit(bus, Reg::L, 5),
            0x6E => return self.bit(bus, Address::HL, 5),
            0x6F => return self.bit(bus, Reg::A, 5),
            0x70 => return self.bit(bus, Reg::B, 6),
            0x71 => return self.bit(bus, Reg::C, 6),
            0x72 => return self.bit(bus, Reg::D, 6),
            0x73 => return self.bit(bus, Reg::E, 6),
            0x74 => return self.bit(bus, Reg::H, 6),
            0x75 => return self.bit(bus, Reg::L, 6),
            0x76 => return self.bit(bus, Address::HL, 6),
            0x77 => return self.bit(bus, Reg::A, 6),
            0x78 => return self.bit(bus, Reg::B, 7),
            0x79 => return self.bit(bus, Reg::C, 7),
            0x7A => return self.bit(bus, Reg::D, 7),
            0x7B => return self.bit(bus, Reg::E, 7),
            0x7C => return self.bit(bus, Reg::H, 7),
            0x7D => return self.bit(bus, Reg::L, 7),
            0x7E => return self.bit(bus, Address::HL, 7),
            0x7F => return self.bit(bus, Reg::A, 7),
            _ => {},
        }
    }

    /// RES: one bit cleared.
    #[verifier::rlimit(40)]
    fn extended_resets<I: Interface>(&mut self, bus: &mut I, opcode: u8)
        requires
            I::valid(old(bus)@),
            0x80 <= opcode <= 0xBF,
        ensures
            (*final(self), final(bus)@) == run_extended::<I>(
                *old(self),
                old(bus)@,
                decode_extended(opcode),
            ),
            I::valid(final(bus)@),
    {
        match opcode {
            0x80 => return self.res(bus, Reg::B, 0),
            0x81 => return self.res(bus, Reg::C, 0),
            0x82 => return self.res(bus, Reg::D, 0),
            0x83 => return self.res(bus, Reg::E, 0),
            0x84 => return self.res(bus, Reg::H, 0),
            0x85 => return self.res(bus, Reg::L, 0),
            0x86 => return self.res(bus, Address::HL, 0),
            0x87 => return self.res(bus, Reg::A, 0),
            0x88 => return self.res(bus, Reg::B, 1),
            0x89 => return self.res(bus, Reg::C, 1),
            0x8A => return self.res(bus, Reg::D, 1),
            0x8B => return self.res(bus, Reg::E, 1),
            0x8C => return self.res(bus, Reg::H, 1),
            0x8D => return self.res(bus, Reg::L, 1),
            0x8E => return self.res(bus, Address::HL, 1),
            0x8F => return self.res(bus, Reg::A, 1),
            0x90 => return self.res(bus, Reg::B, 2),
            0x91 => return self.res(bus, Reg::C, 2),
            0x92 => return self.res(bus, Reg::D, 2),
            0x93 => return self.res(bus, Reg::E, 2),
            0x94 => return self.res(bus, Reg::H, 2),
            0x95 => return self.res(bus, Reg::L, 2),
            0x96 => return self.res(bus, Address::HL, 2),
            0x97 => return self.res(bus, Reg::A, 2),
            0x98 => return self.res(bus, Reg::B, 3),
            0x99 => return self.res(bus, Reg::C, 3),
            0x9A => return self.res(bus, Reg::D, 3),
            0x9B => return self.res(bus, Reg::E, 3),
            0x9C => return self.res(bus, Reg::H, 3),
            0x9D => return self.res(bus, Reg::L, 3),
            0x9E => return self.res(bus, Address::HL, 3),
            0x9F => return self.res(bus, Reg::A, 3),
            0xA0 => return self.res(bus, Reg::B, 4),
            0xA1 => return self.res(bus, Reg::C, 4),
            0xA2 => return self.res(bus, Reg::D, 4),
            0xA3 => return self.res(bus, Reg::E, 4),
            0xA4 => return self.res(bus, Reg::H, 4),
            0xA5 => return self.res(bus, Reg::L, 4),
            0xA6 => return self.res(bus, Address::HL, 4),
            0xA7 => return self.res(bus, Reg::A, 4),
            0xA8 => return self.res(bus, Reg::B, 5),
            0xA9 => return self.res(bus, Reg::C, 5),
            0xAA => return self.res(bus, Reg::D, 5),
            0xAB => return self.res(bus, Reg::E, 5),
            0xAC => return self.res(bus, Reg::H, 5),
            0xAD => return self.res(bus, Reg::L, 5),
            0xAE => return self.res(bus, Address::HL, 5),
            0xAF => return self.res(bus, Reg::A, 5),
            0xB0 => return self.res(bus, Reg::B, 6),
            0xB1 => return self.res(bus, Reg::C, 6),
            0xB2 => return self.res(bus, Reg::D, 6),
            0xB3 => return self.res(bus, Reg::E, 6),
            0xB4 => return self.res(bus, Reg::H, 6),
            0xB5 => return self.res(bus, Reg::L, 6),
            0xB6 => return self.res(bus, Address::HL, 6),
            0xB7 => return self.res(bus, Reg::A, 6),
            0xB8 => return self.res(bus, Reg::B, 7),
            0xB9 => return self.res(bus, Reg::C, 7),
            0xBA => return self.res(bus, Reg::D, 7),
            0xBB => return self.res(bus, Reg::E, 7),
            0xBC => return self.res(bus, Reg::H, 7),
            0xBD => return self.res(bus, Reg::L, 7),
            0xBE => return self.res(bus, Address::HL, 7),
            0xBF => return self.res(bus, Reg::A, 7),
            _ => {},
        }
    }

    /// SET: one bit set.
    #[verifier::rlimit(40)]
    fn extended_sets<I: Interface>(&mut self, bus: &mut I, opcode: u8)
        requires
            I::valid(old(bus)@),
            0xC0 <= opcode <= 0xFF,
        ensures
            (*final(self), final(bus)@) == run_extended::<I>(
                *old(self),
                old(bus)@,
                decode_extended(opcode),
            ),
            I::valid(final(bus)@),
    {
        match opcode {
            0xC0 => return self.set(bus, Reg::B, 0),
            0xC1 => return self.set(bus, Reg::C, 0),
            0xC2 => return self.set(bus, Reg::D, 0),
            0xC3 => return self.set(bus, Reg::E, 0),
            0xC4 => return self.set(bus, Reg::H, 0),
            0xC5 => return self.set(bus, Reg::L, 0),
            0xC6 => return self.set(bus, Address::HL, 0),
            0xC7 => return self.set(bus, Reg::A, 0),
            0xC8 => return self.set(bus, Reg::B, 1),
            0xC9 => return self.set(bus, Reg::C, 1),
            0xCA => return self.set(bus, Reg::D, 1),
            0xCB => return self.set(bus, Reg::E, 1),
            0xCC => return self.set(bus, Reg::H, 1),
            0xCD => return self.set(bus, Reg::L, 1),
            0xCE => return self.set(bus, Address::HL, 1),
            0xCF => return self.set(bus, Reg::A, 1),
            0xD0 => return self.set(bus, Reg::B, 2),
            0xD1 => return self.set(bus, Reg::C, 2),
            0xD2 => return self.set(bus, Reg::D, 2),
            0xD3 => return self.set(bus, Reg::E, 2),
            0xD4 => return self.set(bus, Reg::H, 2),
            0xD5 => return self.set(bus, Reg::L, 2),
            0xD6 => return self.set(bus, Address::HL, 2),
            0xD7 => return self.set(bus, Reg::A, 2),
            0xD8 => return self.set(bus, Reg::B, 3),
            0xD9 => return self.set(bus, Reg::C, 3),
            0xDA => return self.set(bus, Reg::D, 3),
            0xDB => return self.set(bus, Reg::E, 3),
            0xDC => return self.set(bus, Reg::H, 3),
            0xDD => return self.set(bus, Reg::L, 3),
            0xDE => return self.set(bus, Address::HL, 3),
            0xDF => return self.set(bus, Reg::A, 3),
            0xE0 => return self.set(bus, Reg::B, 4),
            0xE1 => return self.set(bus, Reg::C, 4),
            0xE2 => return self.set(bus, Reg::D, 4),
            0xE3 => return self.set(bus, Reg::E, 4),
            0xE4 => return self.set(bus, Reg::H, 4),
            0xE5 => return self.set(bus, Reg::L, 4),
            0xE6 => return self.set(bus, Address::HL, 4),
            0xE7 => return self.set(bus, Reg::A, 4),
            0xE8 => return self.set(bus, Reg::B, 5),
            0xE9 => return self.set(bus, Reg::C, 5),
            0xEA => return self.set(bus, Reg::D, 5),
            0xEB => return self.set(bus, Reg::E, 5),
            0xEC => return self.set(bus, Reg::H, 5),
            0xED => return self.set(bus, Reg::L, 5),
            0xEE => return self.set(bus, Address::HL, 5),
            0xEF => return self.set(bus, Reg::A, 5),
            0xF0 => return self.set(bus, Reg::B, 6),
            0xF1 => return self.set(bus, Reg::C, 6),
            0xF2 => return self.set(bus, Reg::D, 6),
            0xF3 => return self.set(bus, Reg::E, 6),
            0xF4 => return self.set(bus, Reg::H, 6),
            0xF5 => return self.set(bus, Reg::L, 6),
            0xF6 => return self.set(bus, Address::HL, 6),
            0xF7 => return self.set(bus, Reg::A, 6),
            0xF8 => return self.set(bus, Reg::B, 7),
            0xF9 => return self.set(bus, Reg::C, 7),
            0xFA => return self.set(bus, Reg::D, 7),
            0xFB => return self.set(bus, Reg::E, 7),
            0xFC => return self.set(bus, Reg::H, 7),
            0xFD => return self.set(bus, Reg::L, 7),
            0xFE => return self.set(bus, Address::HL, 7),
            0xFF => return self.set(bus, Reg::A, 7),
            _ => {},
        }
    }
}

} // verus!
