//! What the processor does, as functions on the state of the processor and
//! of the bus. A step of the machine is a function from one such pair to the
//! next; every executable function of the processor is held to it.
use vstd::prelude::*;
use crate::bus::interrupts::InterruptFlag;
use super::alu::{
    add16, add_offset, alu8, bit_flags, ccf_flags, cpl8, daa8, dec8, inc8, res_bit, rotate8,
    scf_flags, set_bit, signed_offset, sla8, sra8, srl8, swap8,
};
use super::instructions::{
    decode, decode_extended, Condition, Extended, Instruction, Operand,
};
use super::registers::{high_byte, low_byte, word_of, wrap16, Flags, Reg, Reg16, Registers};
use super::rw::Address;
use super::{Cpu, Interface};

verus! {

broadcast use crate::cpu::registers::Flags::lemma_flags_of;

impl Cpu {
    /// The lower nibble of F is zero.
    pub open spec fn wf(self) -> bool {
        self.regs.wf()
    }

    /// The processor with another register file.
    pub open spec fn with_regs(self, regs: Registers) -> Cpu {
        Cpu { regs, ..self }
    }

    /// The processor with PC set.
    pub open spec fn with_pc(self, pc: u16) -> Cpu {
        self.with_regs(Registers { pc, ..self.regs })
    }

    /// The processor with SP set.
    pub open spec fn with_sp(self, sp: u16) -> Cpu {
        self.with_regs(Registers { sp, ..self.regs })
    }

    /// The processor with A set.
    pub open spec fn with_a(self, a: u8) -> Cpu {
        self.with_regs(Registers { a, ..self.regs })
    }

    /// The processor with the flags set.
    pub open spec fn with_f(self, f: Flags) -> Cpu {
        self.with_regs(Registers { f, ..self.regs })
    }

    /// The processor with a pair written.
    pub open spec fn with_pair(self, rr: Reg16, value: u16) -> Cpu {
        self.with_regs(self.regs.with_pair(rr, value))
    }

    /// The byte that a register holds.
    pub open spec fn reg(self, r: Reg) -> u8 {
        match r {
            Reg::A => self.regs.a,
            Reg::B => self.regs.b,
            Reg::C => self.regs.c,
            Reg::D => self.regs.d,
            Reg::E => self.regs.e,
            Reg::H => self.regs.h,
            Reg::L => self.regs.l,
        }
    }

    /// The processor with a register written.
    pub open spec fn with_reg(self, r: Reg, data: u8) -> Cpu {
        match r {
            Reg::A => self.with_regs(Registers { a: data, ..self.regs }),
            Reg::B => self.with_regs(Registers { b: data, ..self.regs }),
            Reg::C => self.with_regs(Registers { c: data, ..self.regs }),
            Reg::D => self.with_regs(Registers { d: data, ..self.regs }),
            Reg::E => self.with_regs(Registers { e: data, ..self.regs }),
            Reg::H => self.with_regs(Registers { h: data, ..self.regs }),
            Reg::L => self.with_regs(Registers { l: data, ..self.regs }),
        }
    }

    /// Whether the condition of a conditional jump, call or return holds.
    pub open spec fn holds(self, cond: Condition) -> bool {
        match cond {
            Condition::NZ => !self.regs.f.has_z(),
            Condition::Z => self.regs.f.has_z(),
            Condition::NC => !self.regs.f.has_c(),
            Condition::C => self.regs.f.has_c(),
        }
    }
}

/// An immediate byte: the byte at PC, read in one machine cycle; PC moves on.
pub open spec fn imm<I: Interface>(cpu: Cpu, bus: I::V) -> (u8, Cpu, I::V) {
    (I::peeked(bus, cpu.regs.pc), cpu.with_pc(wrap16(cpu.regs.pc + 1)), I::ticked(bus, 1))
}

/// An immediate word: two immediate bytes, the low one first.
pub open spec fn imm_word<I: Interface>(cpu: Cpu, bus: I::V) -> (u16, Cpu, I::V) {
    let (lo, c1, b1) = imm::<I>(cpu, bus);
    let (hi, c2, b2) = imm::<I>(c1, b1);
    (word_of(hi, lo), c2, b2)
}

/// The fetch of an opcode: an immediate byte that is kept as the current
/// opcode.
pub open spec fn fetch<I: Interface>(cpu: Cpu, bus: I::V) -> (Cpu, I::V) {
    let (opcode, c1, b1) = imm::<I>(cpu, bus);
    (Cpu { cur_opcode: opcode, ..c1 }, b1)
}

/// The address that an addressing mode resolves to, with what resolving it
/// does to the processor and the bus.
pub open spec fn effective_address<I: Interface>(cpu: Cpu, bus: I::V, address: Address) -> (
    u16,
    Cpu,
    I::V,
) {
    let hl = cpu.regs.pair(Reg16::HL);
    match address {
        Address::HL => (hl, cpu, bus),
        Address::BC => (cpu.regs.pair(Reg16::BC), cpu, bus),
        Address::DE => (cpu.regs.pair(Reg16::DE), cpu, bus),
        Address::HLI => (hl, cpu.with_pair(Reg16::HL, wrap16(hl + 1)), bus),
        Address::HLD => (hl, cpu.with_pair(Reg16::HL, wrap16(hl + 0xFFFF)), bus),
        Address::Absolute => imm_word::<I>(cpu, bus),
        Address::ZeroPage => {
            let (offset, c1, b1) = imm::<I>(cpu, bus);
            ((0xFF00 + offset) as u16, c1, b1)
        },
        Address::ZeroPageC => ((0xFF00 + cpu.regs.c) as u16, cpu, bus),
    }
}

/// Reading an operand: a register at no cost, an immediate byte in one
/// machine cycle, memory in one machine cycle after its address.
pub open spec fn read_operand<I: Interface>(cpu: Cpu, bus: I::V, operand: Operand) -> (
    u8,
    Cpu,
    I::V,
) {
    match operand {
        Operand::Reg(r) => (cpu.reg(r), cpu, bus),
        Operand::Imm => imm::<I>(cpu, bus),
        Operand::Mem(address) => {
            let (a, c1, b1) = effective_address::<I>(cpu, bus, address);
            (I::peeked(b1, a), c1, I::ticked(b1, 1))
        },
    }
}

/// Writing an operand: a register at no cost, memory in one machine cycle
/// after its address. An immediate is no destination.
pub open spec fn write_operand<I: Interface>(cpu: Cpu, bus: I::V, operand: Operand, data: u8) -> (
    Cpu,
    I::V,
) {
    match operand {
        Operand::Reg(r) => (cpu.with_reg(r, data), bus),
        Operand::Imm => (cpu, bus),
        Operand::Mem(address) => {
            let (a, c1, b1) = effective_address::<I>(cpu, bus, address);
            (c1, I::ticked(I::stored(b1, a, data), 1))
        },
    }
}

/// A push: one internal cycle, then the high byte goes to SP - 1 and the
/// low byte to SP - 2, which becomes SP.
pub open spec fn push_word<I: Interface>(cpu: Cpu, bus: I::V, value: u16) -> (Cpu, I::V) {
    let b1 = I::ticked(bus, 1);
    let sp1 = wrap16(cpu.regs.sp + 0xFFFF);
    let b2 = I::ticked(I::stored(b1, sp1, high_byte(value)), 1);
    let sp2 = wrap16(sp1 + 0xFFFF);
    let b3 = I::ticked(I::stored(b2, sp2, low_byte(value)), 1);
    (cpu.with_sp(sp2), b3)
}

/// A pop: the low byte comes from SP and the high byte from SP + 1; SP + 2
/// becomes SP.
pub open spec fn pop_word<I: Interface>(cpu: Cpu, bus: I::V) -> (u16, Cpu, I::V) {
    let lo = I::peeked(bus, cpu.regs.sp);
    let b1 = I::ticked(bus, 1);
    let sp1 = wrap16(cpu.regs.sp + 1);
    let hi = I::peeked(b1, sp1);
    let b2 = I::ticked(b1, 1);
    (word_of(hi, lo), cpu.with_sp(wrap16(sp1 + 1)), b2)
}

/// A jump: PC is set and one internal cycle passes.
pub open spec fn jump<I: Interface>(cpu: Cpu, bus: I::V, address: u16) -> (Cpu, I::V) {
    (cpu.with_pc(address), I::ticked(bus, 1))
}

/// A call: PC is pushed, then set.
pub open spec fn call_to<I: Interface>(cpu: Cpu, bus: I::V, address: u16) -> (Cpu, I::V) {
    let (c1, b1) = push_word::<I>(cpu, bus, cpu.regs.pc);
    (c1.with_pc(address), b1)
}

/// A return: a jump to the word that is popped.
pub open spec fn ret<I: Interface>(cpu: Cpu, bus: I::V) -> (Cpu, I::V) {
    let (address, c1, b1) = pop_word::<I>(cpu, bus);
    jump::<I>(c1, b1, address)
}

/// The instructions that touch nothing but the processor.
pub open spec fn run_inner(cpu: Cpu, instr: Instruction) -> Cpu {
    match instr {
        Instruction::Halt => Cpu { halted: true, ..cpu },
        Instruction::Di => Cpu { ime: false, enabling_ime: false, ..cpu },
        Instruction::Ei => Cpu { enabling_ime: true, ..cpu },
        Instruction::Ccf => cpu.with_f(ccf_flags(cpu.regs.f)),
        Instruction::Scf => cpu.with_f(scf_flags(cpu.regs.f)),
        Instruction::Daa => {
            let (a, f) = daa8(cpu.regs.a, cpu.regs.f);
            cpu.with_a(a).with_f(f)
        },
        Instruction::Cpl => {
            let (a, f) = cpl8(cpu.regs.a, cpu.regs.f);
            cpu.with_a(a).with_f(f)
        },
        Instruction::RotateA(r) => {
            let (a, f) = rotate8(r, cpu.regs.a, cpu.regs.f);
            cpu.with_a(a).with_f(Flags::of(false, false, false, f.has_c()))
        },
        Instruction::JpHl => cpu.with_pc(cpu.regs.pair(Reg16::HL)),
        _ => cpu,
    }
}

/// Whether an instruction touches nothing but the processor.
pub open spec fn is_inner(instr: Instruction) -> bool {
    match instr {
        Instruction::Nop
        | Instruction::Stop
        | Instruction::Halt
        | Instruction::Di
        | Instruction::Ei
        | Instruction::Ccf
        | Instruction::Scf
        | Instruction::Daa
        | Instruction::Cpl
        | Instruction::RotateA(_)
        | Instruction::JpHl
        | Instruction::Undefined => true,
        _ => false,
    }
}

/// An instruction that touches nothing but the processor leaves the bus as
/// it is.
pub proof fn lemma_run_inner<I: Interface>(cpu: Cpu, bus: I::V, instr: Instruction)
    requires
        is_inner(instr),
    ensures
        run::<I>(cpu, bus, instr) == (run_inner(cpu, instr), bus),
{
    reveal(run);
}

/// What an instruction of the unprefixed table does, its opcode already
/// fetched. STOP and the undefined opcodes do nothing here: the machine does
/// not run them.
#[verifier::opaque]
pub open spec fn run<I: Interface>(cpu: Cpu, bus: I::V, instr: Instruction) -> (Cpu, I::V) {
    match instr {
        Instruction::Ld(dst, src) => {
            let (value, c1, b1) = read_operand::<I>(cpu, bus, src);
            write_operand::<I>(c1, b1, dst, value)
        },
        Instruction::Ld16(rr) => {
            let (value, c1, b1) = imm_word::<I>(cpu, bus);
            (c1.with_pair(rr, value), b1)
        },
        Instruction::LdMemSp => {
            let (address, c1, b1) = imm_word::<I>(cpu, bus);
            let b2 = I::ticked(I::stored(b1, address, low_byte(c1.regs.sp)), 1);
            let b3 = I::ticked(I::stored(b2, wrap16(address + 1), high_byte(c1.regs.sp)), 1);
            (c1, b3)
        },
        Instruction::LdHlSp => {
            let (offset, c1, b1) = imm::<I>(cpu, bus);
            let (value, f) = add_offset(c1.regs.sp, offset);
            (c1.with_f(f).with_pair(Reg16::HL, value), I::ticked(b1, 1))
        },
        Instruction::LdSpHl => (cpu.with_sp(cpu.regs.pair(Reg16::HL)), I::ticked(bus, 1)),
        Instruction::Push(rr) => push_word::<I>(cpu, bus, cpu.regs.pair(rr)),
        Instruction::Pop(rr) => {
            let (value, c1, b1) = pop_word::<I>(cpu, bus);
            (c1.with_pair(rr, value), b1)
        },
        Instruction::Alu(op, src) => {
            let (value, c1, b1) = read_operand::<I>(cpu, bus, src);
            let (a, f) = alu8(op, c1.regs.a, value, c1.regs.f);
            (c1.with_a(a).with_f(f), b1)
        },
        Instruction::Add16(rr) => {
            let (value, f) = add16(cpu.regs.pair(Reg16::HL), cpu.regs.pair(rr), cpu.regs.f);
            (cpu.with_f(f).with_pair(Reg16::HL, value), I::ticked(bus, 1))
        },
        Instruction::AddSp => {
            let (offset, c1, b1) = imm::<I>(cpu, bus);
            let (value, f) = add_offset(c1.regs.sp, offset);
            (c1.with_f(f).with_sp(value), I::ticked(b1, 2))
        },
        Instruction::Inc(dst) => {
            let (value, c1, b1) = read_operand::<I>(cpu, bus, dst);
            let (result, f) = inc8(value, c1.regs.f);
            write_operand::<I>(c1.with_f(f), b1, dst, result)
        },
        Instruction::Dec(dst) => {
            let (value, c1, b1) = read_operand::<I>(cpu, bus, dst);
            let (result, f) = dec8(value, c1.regs.f);
            write_operand::<I>(c1.with_f(f), b1, dst, result)
        },
        Instruction::Inc16(rr) => (
            cpu.with_pair(rr, wrap16(cpu.regs.pair(rr) + 1)),
            I::ticked(bus, 1),
        ),
        Instruction::Dec16(rr) => (
            cpu.with_pair(rr, wrap16(cpu.regs.pair(rr) + 0xFFFF)),
            I::ticked(bus, 1),
        ),
        Instruction::Jp => {
            let (address, c1, b1) = imm_word::<I>(cpu, bus);
            jump::<I>(c1, b1, address)
        },
        Instruction::JpCond(cond) => {
            let (address, c1, b1) = imm_word::<I>(cpu, bus);
            if c1.holds(cond) {
                jump::<I>(c1, b1, address)
            } else {
                (c1, b1)
            }
        },
        Instruction::Jr => {
            let (offset, c1, b1) = imm::<I>(cpu, bus);
            jump::<I>(c1, b1, wrap16(c1.regs.pc + signed_offset(offset)))
        },
        Instruction::JrCond(cond) => {
            let (offset, c1, b1) = imm::<I>(cpu, bus);
            if c1.holds(cond) {
                jump::<I>(c1, b1, wrap16(c1.regs.pc + signed_offset(offset)))
            } else {
                (c1, b1)
            }
        },
        Instruction::Call => {
            let (address, c1, b1) = imm_word::<I>(cpu, bus);
            call_to::<I>(c1, b1, address)
        },
        Instruction::CallCond(cond) => {
            let (address, c1, b1) = imm_word::<I>(cpu, bus);
            if c1.holds(cond) {
                call_to::<I>(c1, b1, address)
            } else {
                (c1, b1)
            }
        },
        Instruction::Ret => ret::<I>(cpu, bus),
        Instruction::RetCond(cond) => {
            let b1 = I::ticked(bus, 1);
            if cpu.holds(cond) {
                ret::<I>(cpu, b1)
            } else {
                (cpu, b1)
            }
        },
        Instruction::Reti => {
            let (c1, b1) = ret::<I>(cpu, bus);
            (Cpu { ime: true, ..c1 }, b1)
        },
        Instruction::Rst(target) => call_to::<I>(cpu, bus, target as u16),
        Instruction::Prefix => {
            let (opcode, c1, b1) = imm::<I>(cpu, bus);
            run_extended::<I>(c1, b1, decode_extended(opcode))
        },
        _ => (run_inner(cpu, instr), bus),
    }
}

/// What an instruction of the table behind 0xCB does.
#[verifier::opaque]
pub open spec fn run_extended<I: Interface>(cpu: Cpu, bus: I::V, instr: Extended) -> (Cpu, I::V) {
    match instr {
        Extended::Rotate(r, dst) => {
            let (value, c1, b1) = read_operand::<I>(cpu, bus, dst);
            let (result, f) = rotate8(r, value, c1.regs.f);
            write_operand::<I>(c1.with_f(f), b1, dst, result)
        },
        Extended::Sla(dst) => {
            let (value, c1, b1) = read_operand::<I>(cpu, bus, dst);
            let (result, f) = sla8(value);
            write_operand::<I>(c1.with_f(f), b1, dst, result)
        },
        Extended::Sra(dst) => {
            let (value, c1, b1) = read_operand::<I>(cpu, bus, dst);
            let (result, f) = sra8(value);
            write_operand::<I>(c1.with_f(f), b1, dst, result)
        },
        Extended::Swap(dst) => {
            let (value, c1, b1) = read_operand::<I>(cpu, bus, dst);
            let (result, f) = swap8(value);
            write_operand::<I>(c1.with_f(f), b1, dst, result)
        },
        Extended::Srl(dst) => {
            let (value, c1, b1) = read_operand::<I>(cpu, bus, dst);
            let (result, f) = srl8(value);
            write_operand::<I>(c1.with_f(f), b1, dst, result)
        },
        Extended::TestBit(n, dst) => {
            let (value, c1, b1) = read_operand::<I>(cpu, bus, dst);
            (c1.with_f(bit_flags(value, n, c1.regs.f)), b1)
        },
        Extended::ResetBit(n, dst) => {
            let (value, c1, b1) = read_operand::<I>(cpu, bus, dst);
            write_operand::<I>(c1, b1, dst, res_bit(value, n))
        },
        Extended::SetBit(n, dst) => {
            let (value, c1, b1) = read_operand::<I>(cpu, bus, dst);
            write_operand::<I>(c1, b1, dst, set_bit(value, n))
        },
    }
}

/// The interrupt of the highest priority in a set: the lowest of its five
/// bits, or nothing for the empty set.
pub open spec fn highest_priority(pending: u8) -> u8 {
    if pending % 32 == 0 {
        0
    } else if pending % 2 == 1 {
        0x01
    } else if pending % 4 == 2 {
        0x02
    } else if pending % 8 == 4 {
        0x04
    } else if pending % 16 == 8 {
        0x08
    } else {
        0x10
    }
}

/// The address at which the service of an interrupt starts: 0x40 for
/// VBLANK, and eight more for each lower priority.
pub open spec fn vector(intr: u8) -> u16 {
    if intr == 0x01 {
        0x40
    } else if intr == 0x02 {
        0x48
    } else if intr == 0x04 {
        0x50
    } else if intr == 0x08 {
        0x58
    } else {
        0x60
    }
}

/// The service of the pending interrupt of the highest priority: IME and
/// the halt are cleared, one cycle passes, PC is pushed and set to the
/// vector, and the interrupt is acknowledged. With nothing pending, nothing
/// happens.
pub open spec fn service<I: Interface>(cpu: Cpu, bus: I::V) -> (Cpu, I::V) {
    let intr = highest_priority(I::pending(bus).bits);
    if intr == 0 {
        (cpu, bus)
    } else {
        let c1 = Cpu { ime: false, halted: false, ..cpu };
        let (c2, b2) = push_word::<I>(c1, I::ticked(bus, 1), c1.regs.pc);
        (c2.with_pc(vector(intr)), I::acknowledged(b2, InterruptFlag { bits: intr }))
    }
}

/// The first phase of a step: a halted processor lets one machine cycle
/// pass and wakes when an interrupt is pending; a running one fetches an
/// opcode and runs it.
pub open spec fn advance<I: Interface>(cpu: Cpu, bus: I::V) -> (Cpu, I::V) {
    if cpu.halted {
        let b1 = I::ticked(bus, 1);
        (Cpu { halted: I::pending(b1).bits == 0, ..cpu }, b1)
    } else {
        let (c1, b1) = fetch::<I>(cpu, bus);
        run::<I>(c1, b1, decode(c1.cur_opcode))
    }
}

/// The last phases of a step. With IME set, a pending interrupt is served
/// and a pending enable is dropped. A pending enable that is left sets IME:
/// so EI takes effect after the instruction that follows it.
pub open spec fn settle<I: Interface>(cpu: Cpu, bus: I::V) -> (Cpu, I::V) {
    let (c1, b1) = if cpu.ime {
        let (c, b) = service::<I>(cpu, bus);
        (Cpu { enabling_ime: false, ..c }, b)
    } else {
        (cpu, bus)
    };
    if c1.enabling_ime {
        (Cpu { ime: true, enabling_ime: false, ..c1 }, b1)
    } else {
        (c1, b1)
    }
}

/// One step of the machine.
pub open spec fn step<I: Interface>(cpu: Cpu, bus: I::V) -> (Cpu, I::V) {
    let (c1, b1) = advance::<I>(cpu, bus);
    settle::<I>(c1, b1)
}

/// Whether a step of the machine is defined: the processor is halted, or
/// the opcode at PC is neither STOP nor undefined.
pub open spec fn can_step<I: Interface>(cpu: Cpu, bus: I::V) -> bool {
    cpu.halted || !super::instructions::is_fatal(I::peeked(bus, cpu.regs.pc))
}

} // verus!
