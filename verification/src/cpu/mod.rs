//! The processor: register file, operand kinds and the interpreter.
use vstd::prelude::*;
use crate::bits::{
    lemma_byte_fields, lemma_lowest_bit, lemma_shifts, lemma_single_bit, lemma_sum_fields,
    lemma_word_fields,
};
use crate::bus::interrupts::InterruptFlag;
use self::alu::{
    add16, add8, add_offset, dec8, inc8, rotate8, rotated_left, rotated_right, signed_offset,
    sub8,
};
use self::dbg::Dbg;
use self::instructions::{AluOp, Condition, Dst, Extended, Instruction, Rotate, Src};
use self::registers::{get_reverse_bytes, word_of, wrap16, Flags, Reg16, Registers};

pub mod alu;
pub mod dbg;
pub mod instructions;
pub mod laws;
pub mod model;
pub mod registers;
pub mod rw;

verus! {

broadcast use crate::cpu::registers::Flags::lemma_flags_of;

/// What the processor asks of a memory bus.
///
/// The bus is described by a mathematical state, its view, and by what each
/// operation makes of that state. `peek` and `set` are untimed; `read` and
/// `write` are the same accesses followed by one machine cycle.
pub trait Interface: View {
    /// The states that a bus can be in.
    spec fn valid(s: Self::V) -> bool;

    /// The byte that is read at `address`.
    spec fn peeked(s: Self::V, address: u16) -> u8;

    /// The state after `data` was written at `address`.
    spec fn stored(s: Self::V, address: u16, data: u8) -> Self::V;

    /// The state after `count` machine cycles have passed.
    spec fn ticked(s: Self::V, count: nat) -> Self::V;

    /// The machine cycles counted so far, modulo two to the sixty-fourth.
    spec fn cycle_count(s: Self::V) -> u64;

    /// The interrupts that are requested and enabled.
    spec fn pending(s: Self::V) -> InterruptFlag;

    /// The state after the interrupts of `intr` were acknowledged.
    spec fn acknowledged(s: Self::V, intr: InterruptFlag) -> Self::V;

    /// A write keeps the state valid and takes no time.
    proof fn lemma_stored(s: Self::V, address: u16, data: u8)
        requires
            Self::valid(s),
        ensures
            Self::valid(Self::stored(s, address, data)),
            Self::cycle_count(Self::stored(s, address, data)) == Self::cycle_count(s),
    ;

    /// Time keeps the state valid and advances the cycle counter by the
    /// cycles that passed.
    proof fn lemma_ticked(s: Self::V, count: nat)
        requires
            Self::valid(s),
        ensures
            Self::valid(Self::ticked(s, count)),
            Self::cycle_count(Self::ticked(s, count)) == (Self::cycle_count(s) + count)
                % 0x1_0000_0000_0000_0000,
    ;

    /// An acknowledgement keeps the state valid, takes no time and clears
    /// the acknowledged interrupts from the pending ones, and no others.
    proof fn lemma_acknowledged(s: Self::V, intr: InterruptFlag)
        requires
            Self::valid(s),
        ensures
            Self::valid(Self::acknowledged(s, intr)),
            Self::cycle_count(Self::acknowledged(s, intr)) == Self::cycle_count(s),
            Self::pending(Self::acknowledged(s, intr)).bits == Self::pending(s).bits & !intr.bits,
    ;

    /// Only the five defined interrupts can be pending.
    proof fn lemma_pending(s: Self::V)
        requires
            Self::valid(s),
        ensures
            Self::pending(s).wf(),
    ;

    fn peek(&self, address: u16) -> (data: u8)
        requires
            Self::valid(self@),
        ensures
            data == Self::peeked(self@, address),
    ;

    fn read(&mut self, address: u16) -> (data: u8)
        requires
            Self::valid(old(self)@),
        ensures
            data == Self::peeked(old(self)@, address),
            final(self)@ == Self::ticked(old(self)@, 1),
            Self::valid(final(self)@),
    {
        let data = self.peek(address);
        self.tick(1);
        data
    }

    fn set(&mut self, address: u16, data: u8)
        requires
            Self::valid(old(self)@),
        ensures
            final(self)@ == Self::stored(old(self)@, address, data),
            Self::valid(final(self)@),
    ;

    fn write(&mut self, address: u16, data: u8)
        requires
            Self::valid(old(self)@),
        ensures
            final(self)@ == Self::ticked(Self::stored(old(self)@, address, data), 1),
            Self::valid(final(self)@),
    {
        self.set(address, data);
        self.tick(1);
    }

    fn tick(&mut self, count: usize)
        requires
            Self::valid(old(self)@),
        ensures
            final(self)@ == Self::ticked(old(self)@, count as nat),
            Self::valid(final(self)@),
    ;

    fn cycles(&self) -> (count: u64)
        requires
            Self::valid(self@),
        ensures
            count == Self::cycle_count(self@),
    ;

    fn check_interrupts(&self) -> (intr: InterruptFlag)
        requires
            Self::valid(self@),
        ensures
            intr == Self::pending(self@),
            intr.wf(),
    ;

    fn interrupt_handled(&mut self, intr: InterruptFlag)
        requires
            Self::valid(old(self)@),
        ensures
            final(self)@ == Self::acknowledged(old(self)@, intr),
            Self::valid(final(self)@),
    ;
}


/// The state of the processor.
pub struct Cpu {
    /// The opcode that was fetched last.
    pub cur_opcode: u8,
    pub regs: Registers,
    pub halted: bool,
    /// The master interrupt enable.
    pub ime: bool,
    /// EI was run: IME is to be set once the next instruction is done.
    pub enabling_ime: bool,
    pub dbg: Dbg,
}

/// A byte as a signed offset, extended to a word.
pub fn sign_extend(value: u8) -> (r: u16)
    ensures
        r == signed_offset(value),
{
    if value < 0x80 {
        value as u16
    } else {
        0xFF00 + value as u16
    }
}

/// The word with the low byte `lo` and the high byte `hi`.
pub fn word_from_le(lo: u8, hi: u8) -> (r: u16)
    ensures
        r == word_of(hi, lo),
{
    proof {
        lemma_word_fields(hi, lo, 0);
    }
    (u16::from(hi) << 8) | u16::from(lo)
}

/// A word plus a signed byte, with the carries out of bit 3 and out of bit 7
/// of the unsigned sum of the low bytes, in that order.
pub fn offset_sum(sp: u16, offset: u8) -> (r: (u16, bool, bool))
    ensures
        r.0 == add_offset(sp, offset).0,
        r.1 == (sp % 16 + offset % 16 > 15),
        r.2 == (sp % 256 + offset > 255),
{
    let value = sign_extend(offset);
    proof {
        lemma_sum_fields(0, sp, value);
        assert(value % 256 == offset);
        assert(value % 16 == offset % 16);
    }
    let carry = (sp & 0x00FF) + (value & 0x00FF) > 0x00FF;
    let half_carry = (sp & 0x000F) + (value & 0x000F) > 0x000F;
    (sp.wrapping_add(value), half_carry, carry)
}

impl Cpu {
    /// The processor at power-on: running, interrupts disabled, nothing
    /// captured from the serial link.
    pub open spec fn power_on(self) -> bool {
        &&& self.cur_opcode == 0x00
        &&& self.regs == Registers::power_on()
        &&& !self.halted
        &&& !self.ime
        &&& !self.enabling_ime
        &&& self.dbg.fresh()
    }

    /// The processor at power-on.
    pub fn new() -> (r: Cpu)
        ensures
            r.power_on(),
            r.wf(),
            r.dbg.wf(),
    {
        Cpu {
            cur_opcode: 0x00,
            regs: Registers::new(),
            halted: false,
            ime: false,
            enabling_ime: false,
            dbg: Dbg::new(),
        }
    }

    /// The opcode that stops the machine, if the next step would run one.
    pub fn fatal_opcode<I: Interface>(&self, bus: &I) -> (r: Option<u8>)
        requires
            I::valid(bus@),
        ensures
            r is None <==> model::can_step::<I>(*self, bus@),
            r matches Some(opcode) ==> opcode == I::peeked(bus@, self.regs.pc),
    {
        if self.halted {
            None
        } else {
            let opcode = bus.peek(self.regs.pc);
            if instructions::fatal(opcode) {
                Some(opcode)
            } else {
                None
            }
        }
    }

    /// Calls `callback` on the processor and the bus, then takes one step.
    /// The callback must leave a machine that can take the step.
    pub fn step_callback<I, C>(&mut self, bus: &mut I, callback: C) where
        I: Interface,
        C: FnOnce(&mut Self, &mut I),

        requires
            forall|c: &mut Cpu, b: &mut I|
                *c == *old(self) && *b == *old(bus) ==> call_requires(callback, (c, b)),
            forall|c: &mut Cpu, b: &mut I|
                *c == *old(self) && *b == *old(bus) && #[trigger] call_ensures(
                    callback,
                    (c, b),
                    (),
                ) ==> I::valid(final(b)@) && model::can_step::<I>(*final(c), final(b)@),
        ensures
            exists|c: &mut Cpu, b: &mut I|
                *c == *old(self) && *b == *old(bus) && #[trigger] call_ensures(
                    callback,
                    (c, b),
                    (),
                ) && (*final(self), final(bus)@) == model::step::<I>(*final(c), final(b)@),
            I::valid(final(bus)@),
    {
        callback(self, bus);
        self.step(bus);
    }

    /// One step of the machine: an instruction, or a cycle of a halted
    /// processor; then the service of an interrupt, if IME is set and one is
    /// pending; then the late effect of EI.
    pub fn step<I: Interface>(&mut self, bus: &mut I)
        requires
            I::valid(old(bus)@),
            model::can_step::<I>(*old(self), old(bus)@),
        ensures
            (*final(self), final(bus)@) == model::step::<I>(*old(self), old(bus)@),
            I::valid(final(bus)@),
            old(self).wf() ==> final(self).wf(),
            laws::elapsed::<I>(
                old(bus)@,
                final(bus)@,
                laws::step_duration::<I>(*old(self), old(bus)@),
            ),
            I::cycle_count(old(bus)@) + 10 < 0x1_0000_0000_0000_0000 ==> I::cycle_count(
                final(bus)@,
            ) > I::cycle_count(old(bus)@),
    {
        proof {
            laws::lemma_step_duration::<I>(*self, bus@);
            laws::lemma_step_bound::<I>(*self, bus@);
            if self.wf() {
                laws::lemma_step_keeps_wf::<I>(*self, bus@);
            }
        }
        if self.halted {
            bus.tick(1);
            if !bus.check_interrupts().is_empty() {
                self.halted = false;
            }
        } else {
            self.fetch_instruction(bus);
            self.execute(bus);
        }

        if self.ime {
            self.handle_interrupts(bus);
            self.enabling_ime = false;
        }

        if self.enabling_ime {
            self.ime = true;
            self.enabling_ime = false;
        }
    }

    /// Serves the pending interrupt of the highest priority, if there is one.
    pub fn handle_interrupts<I: Interface>(&mut self, bus: &mut I)
        requires
            I::valid(old(bus)@),
        ensures
            (*final(self), final(bus)@) == model::service::<I>(*old(self), old(bus)@),
            I::valid(final(bus)@),
    {
        let flags = bus.check_interrupts();
        let ghost negated = (!flags.bits).wrapping_add(1);
        proof {
            lemma_lowest_bit(flags.bits, negated);
        }
        let intr = flags.bits() & (!flags.bits()).wrapping_add(1);
        let intr = InterruptFlag::from_bits_truncate(intr);

        if intr.is_empty() {
            return ;
        }
        let kind = intr.bits();
        let address: u16 = if kind == 0x01 {
            0x40
        } else if kind == 0x02 {
            0x48
        } else if kind == 0x04 {
            0x50
        } else if kind == 0x08 {
            0x58
        } else {
            0x60
        };

        self.ime = false;
        self.halted = false;

        bus.tick(1);

        let pc = self.regs.pc;
        self.stack_push(bus, pc);
        self.regs.pc = address;
        bus.interrupt_handled(intr);
    }

    /// Fetches the opcode at PC.
    pub fn fetch_instruction<I: Interface>(&mut self, bus: &mut I)
        requires
            I::valid(old(bus)@),
        ensures
            (*final(self), final(bus)@) == model::fetch::<I>(*old(self), old(bus)@),
            I::valid(final(bus)@),
    {
        self.cur_opcode = bus.read(self.regs.pc);
        self.inc_pc();
    }

    /// Reads the immediate byte at PC.
    pub fn imm<I: Interface>(&mut self, bus: &mut I) -> (value: u8)
        requires
            I::valid(old(bus)@),
        ensures
            (value, *final(self), final(bus)@) == model::imm::<I>(*old(self), old(bus)@),
            I::valid(final(bus)@),
    {
        let value = bus.read(self.regs.pc);
        self.inc_pc();
        value
    }

    /// Reads the immediate word at PC, low byte first.
    pub fn imm_word<I: Interface>(&mut self, bus: &mut I) -> (value: u16)
        requires
            I::valid(old(bus)@),
        ensures
            (value, *final(self), final(bus)@) == model::imm_word::<I>(*old(self), old(bus)@),
            I::valid(final(bus)@),
    {
        let lo = self.imm(bus);
        let hi = self.imm(bus);
        word_from_le(lo, hi)
    }

    /// Pushes `value`: one internal cycle, then the high and the low byte.
    pub fn stack_push<I: Interface>(&mut self, bus: &mut I, value: u16)
        requires
            I::valid(old(bus)@),
        ensures
            (*final(self), final(bus)@) == model::push_word::<I>(*old(self), old(bus)@, value),
            I::valid(final(bus)@),
    {
        let (hi, lo) = get_reverse_bytes(value);
        bus.tick(1);
        self.regs.dec_sp();
        bus.write(self.regs.sp, hi);
        self.regs.dec_sp();
        bus.write(self.regs.sp, lo);
    }

    /// Pops a word: the low byte, then the high byte.
    pub fn stack_pop<I: Interface>(&mut self, bus: &mut I) -> (value: u16)
        requires
            I::valid(old(bus)@),
        ensures
            (value, *final(self), final(bus)@) == model::pop_word::<I>(*old(self), old(bus)@),
            I::valid(final(bus)@),
    {
        let lo = bus.read(self.regs.sp);
        self.regs.inc_sp();
        let hi = bus.read(self.regs.sp);
        self.regs.inc_sp();
        word_from_le(lo, hi)
    }

    /// Moves PC on by one.
    pub fn inc_pc(&mut self)
        ensures
            *final(self) == old(self).with_pc(wrap16(old(self).regs.pc + 1)),
    {
        self.regs.pc = self.regs.pc.wrapping_add(1);
    }

    /// Whether `cond` holds of the flags.
    pub fn check_cond(&self, cond: Condition) -> (r: bool)
        ensures
            r == self.holds(cond),
    {
        match cond {
            Condition::NZ => !self.regs.zf(),
            Condition::Z => self.regs.zf(),
            Condition::NC => !self.regs.cf(),
            Condition::C => self.regs.cf(),
        }
    }

    /// LD dst,src.
    pub fn ld<I, D, S>(&mut self, bus: &mut I, dst: D, src: S) where
        I: Interface,
        D: Copy,
        S: Copy,
        Self: Dst<D> + Src<S>,

        requires
            I::valid(old(bus)@),
        ensures
            (*final(self), final(bus)@) == model::run::<I>(
                *old(self),
                old(bus)@,
                Instruction::Ld(<Self as Dst<D>>::target(dst), <Self as Src<S>>::source(src)),
            ),
            I::valid(final(bus)@),
    {
        proof {
            reveal(model::run);
        }
        let value = self.read(bus, src);
        self.write(bus, dst, value);
    }

    /// LD rr,nn.
    pub fn ld16<I: Interface>(&mut self, bus: &mut I, dst: Reg16)
        requires
            I::valid(old(bus)@),
        ensures
            (*final(self), final(bus)@) == model::run::<I>(
                *old(self),
                old(bus)@,
                Instruction::Ld16(dst),
            ),
            I::valid(final(bus)@),
    {
        proof {
            reveal(model::run);
        }
        let value = self.imm_word(bus);
        self.regs.write16(dst, value);
    }

    /// LD SP,HL.
    pub fn ld_sp_hl<I: Interface>(&mut self, bus: &mut I)
        requires
            I::valid(old(bus)@),
        ensures
            (*final(self), final(bus)@) == model::run::<I>(
                *old(self),
                old(bus)@,
                Instruction::LdSpHl,
            ),
            I::valid(final(bus)@),
    {
        proof {
            reveal(model::run);
        }
        self.regs.sp = self.regs.hl();
        bus.tick(1);
    }

    /// LD (nn),SP.
    pub fn ld_mem_d16_sp<I: Interface>(&mut self, bus: &mut I)
        requires
            I::valid(old(bus)@),
        ensures
            (*final(self), final(bus)@) == model::run::<I>(
                *old(self),
                old(bus)@,
                Instruction::LdMemSp,
            ),
            I::valid(final(bus)@),
    {
        proof {
            reveal(model::run);
        }
        let address = self.imm_word(bus);
        let (hi, lo) = get_reverse_bytes(self.regs.sp);
        bus.write(address, lo);
        bus.write(address.wrapping_add(1), hi);
    }

    /// SP plus the signed immediate byte, with the flags of that sum.
    fn sp_plus_offset<I: Interface>(&mut self, bus: &mut I) -> (r: u16)
        requires
            I::valid(old(bus)@),
        ensures
            ({
                let (offset, c1, b1) = model::imm::<I>(*old(self), old(bus)@);
                let (value, f) = add_offset(c1.regs.sp, offset);
                r == value && *final(self) == c1.with_f(f) && final(bus)@ == b1
            }),
            I::valid(final(bus)@),
    {
        let offset = self.imm(bus);
        let (result, half_carry, carry) = offset_sum(self.regs.sp, offset);
        self.regs.set_flags(Flags::c(), carry);
        self.regs.set_flags(Flags::h(), half_carry);
        self.regs.set_flags(Flags::z().union(Flags::n()), false);
        result
    }

    /// LD HL,SP+d.
    pub fn ld_hl_sp_d8<I: Interface>(&mut self, bus: &mut I)
        requires
            I::valid(old(bus)@),
        ensures
            (*final(self), final(bus)@) == model::run::<I>(
                *old(self),
                old(bus)@,
                Instruction::LdHlSp,
            ),
            I::valid(final(bus)@),
    {
        proof {
            reveal(model::run);
        }
        let value = self.sp_plus_offset(bus);
        self.regs.set_hl(value);
        bus.tick(1);
    }

    /// PUSH rr.
    pub fn push<I: Interface>(&mut self, bus: &mut I, src: Reg16)
        requires
            I::valid(old(bus)@),
        ensures
            (*final(self), final(bus)@) == model::run::<I>(
                *old(self),
                old(bus)@,
                Instruction::Push(src),
            ),
            I::valid(final(bus)@),
    {
        proof {
            reveal(model::run);
        }
        let value = self.regs.read16(src);
        self.stack_push(bus, value);
    }

    /// POP rr.
    pub fn pop<I: Interface>(&mut self, bus: &mut I, dst: Reg16)
        requires
            I::valid(old(bus)@),
        ensures
            (*final(self), final(bus)@) == model::run::<I>(
                *old(self),
                old(bus)@,
                Instruction::Pop(dst),
            ),
            I::valid(final(bus)@),
    {
        proof {
            reveal(model::run);
        }
        let value = self.stack_pop(bus);
        self.regs.write16(dst, value);
    }

    /// A plus `value` plus the carry `cy`; sets the flags of the sum.
    pub fn alu_add(&mut self, value: u8, cy: bool) -> (r: u8)
        ensures
            r == add8(old(self).regs.a, value, cy).0,
            *final(self) == old(self).with_f(add8(old(self).regs.a, value, cy).1),
    {
        let a = self.regs.a;
        let cy: u8 = if cy {
            1
        } else {
            0
        };
        let result = u16::from(a) + u16::from(value) + u16::from(cy);
        proof {
            lemma_sum_fields(result, 0, 0);
            lemma_byte_fields(a);
            lemma_byte_fields(value);
        }

        let carry = result > 0xFF;
        let half_carry = (a & 0x0F) + (value & 0x0F) + cy > 0x0F;
        let low = (result & 0x00FF) as u8;
        self.regs.set_flags(Flags::z(), low == 0);
        self.regs.set_flags(Flags::n(), false);
        self.regs.set_flags(Flags::h(), half_carry);
        self.regs.set_flags(Flags::c(), carry);

        low
    }


    /// ADD A,src.
    pub fn add<I, S>(&mut self, bus: &mut I, src: S) where
        I: Interface,
        S: Copy,
        Self: Src<S>,

        requires
            I::valid(old(bus)@),
        ensures
            (*final(self), final(bus)@) == model::run::<I>(
                *old(self),
                old(bus)@,
                Instruction::Alu(AluOp::Add, <Self as Src<S>>::source(src)),
            ),
            I::valid(final(bus)@),
    {
        proof {
            reveal(model::run);
        }
        let value = self.read(bus, src);
        self.regs.a = self.alu_add(value, false);
    }

    /// ADD HL,rr.
    pub fn add16<I: Interface>(&mut self, bus: &mut I, src: Reg16)
        requires
            I::valid(old(bus)@),
        ensures
            (*final(self), final(bus)@) == model::run::<I>(
                *old(self),
                old(bus)@,
                Instruction::Add16(src),
            ),
            I::valid(final(bus)@),
    {
        proof {
            reveal(model::run);
        }
        let value = self.regs.read16(src);
        let hl = self.regs.hl();
        proof {
            lemma_sum_fields(0, hl, value);
        }

        let result = hl.wrapping_add(value);
        let carry = hl > 0xFFFF - value;
        let half_carry = (hl & 0x0FFF) + (value & 0x0FFF) > 0x0FFF;
        self.regs.set_flags(Flags::c(), carry);
        self.regs.set_flags(Flags::n(), false);
        self.regs.set_flags(Flags::h(), half_carry);

        self.regs.set_hl(result);
        bus.tick(1);
    }

    /// ADD SP,d.
    pub fn add_sp_d8<I: Interface>(&mut self, bus: &mut I)
        requires
            I::valid(old(bus)@),
        ensures
            (*final(self), final(bus)@) == model::run::<I>(
                *old(self),
                old(bus)@,
                Instruction::AddSp,
            ),
            I::valid(final(bus)@),
    {
        proof {
            reveal(model::run);
        }
        let value = self.sp_plus_offset(bus);
        self.regs.sp = value;
        bus.tick(2);
    }

    /// ADC A,src.
    pub fn adc<I, S>(&mut self, bus: &mut I, src: S) where
        I: Interface,
        S: Copy,
        Self: Src<S>,

        requires
            I::valid(old(bus)@),
        ensures
            (*final(self), final(bus)@) == model::run::<I>(
                *old(self),
                old(bus)@,
                Instruction::Alu(AluOp::Adc, <Self as Src<S>>::source(src)),
            ),
            I::valid(final(bus)@),
    {
        proof {
            reveal(model::run);
        }
        let value = self.read(bus, src);
        let cy = self.regs.cf();
        self.regs.a = self.alu_add(value, cy);
    }

    /// A minus `value` minus the borrow `cy`; sets the flags of the
    /// difference.
    pub fn alu_sub(&mut self, value: u8, cy: bool) -> (r: u8)
        ensures
            r == sub8(old(self).regs.a, value, cy).0,
            *final(self) == old(self).with_f(sub8(old(self).regs.a, value, cy).1),
    {
        let a = self.regs.a;
        let cy: u8 = if cy {
            1
        } else {
            0
        };
        let result = a.wrapping_sub(value).wrapping_sub(cy);
        proof {
            lemma_byte_fields(a);
            lemma_byte_fields(value);
            lemma_byte_fields(cy);
        }

        let carry = u16::from(a) < u16::from(value) + u16::from(cy);
        let half_carry = (a & 0x0F) < (value & 0x0F) + (cy & 0x0F);
        self.regs.set_flags(Flags::z(), result == 0);
        self.regs.set_flags(Flags::n(), true);
        self.regs.set_flags(Flags::h(), half_carry);
        self.regs.set_flags(Flags::c(), carry);

        result
    }

    /// SUB src.
    pub fn sub<I, S>(&mut self, bus: &mut I, src: S) where
        I: Interface,
        S: Copy,
        Self: Src<S>,

        requires
            I::valid(old(bus)@),
        ensures
            (*final(self), final(bus)@) == model::run::<I>(
                *old(self),
                old(bus)@,
                Instruction::Alu(AluOp::Sub, <Self as Src<S>>::source(src)),
            ),
            I::valid(final(bus)@),
    {
        proof {
            reveal(model::run);
        }
        let value = self.read(bus, src);
        self.regs.a = self.alu_sub(value, false);
    }

    /// SBC A,src.
    pub fn sbc<I, S>(&mut self, bus: &mut I, src: S) where
        I: Interface,
        S: Copy,
        Self: Src<S>,

        requires
            I::valid(old(bus)@),
        ensures
            (*final(self), final(bus)@) == model::run::<I>(
                *old(self),
                old(bus)@,
                Instruction::Alu(AluOp::Sbc, <Self as Src<S>>::source(src)),
            ),
            I::valid(final(bus)@),
    {
        proof {
            reveal(model::run);
        }
        let value = self.read(bus, src);
        let cy = self.regs.cf();
        self.regs.a = self.alu_sub(value, cy);
    }

    /// AND src.
    pub fn and<I, S>(&mut self, bus: &mut I, src: S) where
        I: Interface,
        S: Copy,
        Self: Src<S>,

        requires
            I::valid(old(bus)@),
        ensures
            (*final(self), final(bus)@) == model::run::<I>(
                *old(self),
                old(bus)@,
                Instruction::Alu(AluOp::And, <Self as Src<S>>::source(src)),
            ),
            I::valid(final(bus)@),
    {
        proof {
            reveal(model::run);
        }
        let value = self.read(bus, src);
        let result = self.regs.a & value;

        self.regs.set_flags(Flags::z(), result == 0);
        self.regs.set_flags(Flags::n().union(Flags::c()), false);
        self.regs.set_flags(Flags::h(), true);

        self.regs.a = result;
    }

    /// OR src.
    pub fn or<I, S>(&mut self, bus: &mut I, src: S) where
        I: Interface,
        S: Copy,
        Self: Src<S>,

        requires
            I::valid(old(bus)@),
        ensures
            (*final(self), final(bus)@) == model::run::<I>(
                *old(self),
                old(bus)@,
                Instruction::Alu(AluOp::Or, <Self as Src<S>>::source(src)),
            ),
            I::valid(final(bus)@),
    {
        proof {
            reveal(model::run);
        }
        let value = self.read(bus, src);
        let result = self.regs.a | value;

        self.regs.set_flags(Flags::z(), result == 0);
        self.regs.set_flags(Flags::n().union(Flags::c()).union(Flags::h()), false);

        self.regs.a = result;
    }

    /// XOR src.
    pub fn xor<I, S>(&mut self, bus: &mut I, src: S) where
        I: Interface,
        S: Copy,
        Self: Src<S>,

        requires
            I::valid(old(bus)@),
        ensures
            (*final(self), final(bus)@) == model::run::<I>(
                *old(self),
                old(bus)@,
                Instruction::Alu(AluOp::Xor, <Self as Src<S>>::source(src)),
            ),
            I::valid(final(bus)@),
    {
        proof {
            reveal(model::run);
        }
        let value = self.read(bus, src);
        let result = self.regs.a ^ value;

        self.regs.set_flags(Flags::z(), result == 0);
        self.regs.set_flags(Flags::n().union(Flags::c()).union(Flags::h()), false);

        self.regs.a = result;
    }

    /// CP src.
    pub fn cp<I, S>(&mut self, bus: &mut I, src: S) where
        I: Interface,
        S: Copy,
        Self: Src<S>,

        requires
            I::valid(old(bus)@),
        ensures
            (*final(self), final(bus)@) == model::run::<I>(
                *old(self),
                old(bus)@,
                Instruction::Alu(AluOp::Cp, <Self as Src<S>>::source(src)),
            ),
            I::valid(final(bus)@),
    {
        proof {
            reveal(model::run);
        }
        let value = self.read(bus, src);
        self.alu_sub(value, false);
    }

    /// `value` plus one; sets Z, N and H and keeps C.
    pub fn alu_inc(&mut self, value: u8) -> (r: u8)
        ensures
            r == inc8(value, old(self).regs.f).0,
            *final(self) == old(self).with_f(inc8(value, old(self).regs.f).1),
    {
        let result = value.wrapping_add(1);
        proof {
            lemma_byte_fields(value);
        }

        self.regs.set_flags(Flags::z(), result == 0);
        self.regs.set_flags(Flags::n(), false);
        self.regs.set_flags(Flags::h(), (value & 0x0F) + 0x01 > 0x0F);

        result
    }

    /// INC dst.
    pub fn inc<I, D>(&mut self, bus: &mut I, dst: D) where
        I: Interface,
        D: Copy,
        Self: Dst<D> + Src<D>,

        requires
            I::valid(old(bus)@),
            <Self as Dst<D>>::target(dst) == <Self as Src<D>>::source(dst),
        ensures
            (*final(self), final(bus)@) == model::run::<I>(
                *old(self),
                old(bus)@,
                Instruction::Inc(<Self as Src<D>>::source(dst)),
            ),
            I::valid(final(bus)@),
    {
        proof {
            reveal(model::run);
        }
        let value = self.read(bus, dst);
        let result = self.alu_inc(value);
        self.write(bus, dst, result);
    }

    /// INC rr.
    pub fn inc16<I: Interface>(&mut self, bus: &mut I, dst: Reg16)
        requires
            I::valid(old(bus)@),
        ensures
            (*final(self), final(bus)@) == model::run::<I>(
                *old(self),
                old(bus)@,
                Instruction::Inc16(dst),
            ),
            I::valid(final(bus)@),
    {
        proof {
            reveal(model::run);
        }
        let value = self.regs.read16(dst);
        self.regs.write16(dst, value.wrapping_add(1));
        bus.tick(1);
    }

    /// `value` minus one; sets Z, N and H and keeps C.
    pub fn alu_dec(&mut self, value: u8) -> (r: u8)
        ensures
            r == dec8(value, old(self).regs.f).0,
            *final(self) == old(self).with_f(dec8(value, old(self).regs.f).1),
    {
        let result = value.wrapping_sub(1);
        proof {
            lemma_byte_fields(value);
        }

        self.regs.set_flags(Flags::z(), result == 0);
        self.regs.set_flags(Flags::n(), true);
        self.regs.set_flags(Flags::h(), (value & 0x0F) == 0x00);

        result
    }

    /// DEC dst.
    pub fn dec<I, D>(&mut self, bus: &mut I, dst: D) where
        I: Interface,
        D: Copy,
        Self: Dst<D> + Src<D>,

        requires
            I::valid(old(bus)@),
            <Self as Dst<D>>::target(dst) == <Self as Src<D>>::source(dst),
        ensures
            (*final(self), final(bus)@) == model::run::<I>(
                *old(self),
                old(bus)@,
                Instruction::Dec(<Self as Src<D>>::source(dst)),
            ),
            I::valid(final(bus)@),
    {
        proof {
            reveal(model::run);
        }
        let value = self.read(bus, dst);
        let result = self.alu_dec(value);
        self.write(bus, dst, result);
    }

    /// DEC rr.
    pub fn dec16<I: Interface>(&mut self, bus: &mut I, dst: Reg16)
        requires
            I::valid(old(bus)@),
        ensures
            (*final(self), final(bus)@) == model::run::<I>(
                *old(self),
                old(bus)@,
                Instruction::Dec16(dst),
            ),
            I::valid(final(bus)@),
    {
        proof {
            reveal(model::run);
        }
        let value = self.regs.read16(dst);
        self.regs.write16(dst, value.wrapping_sub(1));
        bus.tick(1);
    }

    /// NOP.
    pub fn nop(&self) {
    }

    /// HALT.
    pub fn halt(&mut self)
        ensures
            *final(self) == model::run_inner(*old(self), Instruction::Halt),
    {
        self.halted = true;
    }

    /// CCF.
    pub fn ccf(&mut self)
        ensures
            *final(self) == model::run_inner(*old(self), Instruction::Ccf),
    {
        let carry = self.regs.cf();
        self.regs.set_flags(Flags::n().union(Flags::h()), false);
        self.regs.set_flags(Flags::c(), !carry);
    }

    /// SCF.
    pub fn scf(&mut self)
        ensures
            *final(self) == model::run_inner(*old(self), Instruction::Scf),
    {
        self.regs.set_flags(Flags::n().union(Flags::h()), false);
        self.regs.set_flags(Flags::c(), true);
    }

    /// DI: interrupts are off at once, and a pending EI is dropped.
    pub fn di(&mut self)
        ensures
            *final(self) == model::run_inner(*old(self), Instruction::Di),
    {
        self.ime = false;
        self.enabling_ime = false;
    }

    /// EI: interrupts come on once the next instruction is done.
    pub fn ei(&mut self)
        ensures
            *final(self) == model::run_inner(*old(self), Instruction::Ei),
    {
        self.enabling_ime = true;
    }

    /// DAA.
    pub fn daa(&mut self)
        ensures
            *final(self) == model::run_inner(*old(self), Instruction::Daa),
    {
        let a = self.regs.a;
        let n = self.regs.nf();
        let c = self.regs.cf();
        let h = self.regs.hf();
        proof {
            lemma_byte_fields(a);
        }

        let mut adjust: u8 = 0x00;
        let mut carry = false;

        if h || (!n && (a & 0x0F) > 0x09) {
            adjust += 0x06;
        }

        if c || (!n && a > 0x99) {
            adjust += 0x60;
            carry = true;
        }

        if n {
            self.regs.a = a.wrapping_sub(adjust);
        } else {
            self.regs.a = a.wrapping_add(adjust);
        }

        let zero = self.regs.a == 0;
        self.regs.set_flags(Flags::c(), carry);
        self.regs.set_flags(Flags::h(), false);
        self.regs.set_flags(Flags::z(), zero);
    }

    /// CPL.
    pub fn cpl(&mut self)
        ensures
            *final(self) == model::run_inner(*old(self), Instruction::Cpl),
    {
        proof {
            lemma_shifts(self.regs.a, 0);
        }
        self.regs.a = !self.regs.a;
        self.regs.set_flags(Flags::n().union(Flags::h()), true);
    }

    /// `value` shifted left by one with `cy` coming in; sets the flags.
    pub fn alu_rl(&mut self, value: u8, cy: bool) -> (r: u8)
        ensures
            r == rotated_left(value, cy).0,
            *final(self) == old(self).with_f(rotated_left(value, cy).1),
    {
        let cy: u8 = if cy {
            1
        } else {
            0
        };
        proof {
            lemma_shifts(value, cy);
        }
        let carry = (value & 0x80) != 0x00;
        let result = (value << 1) | cy;

        self.regs.set_flags(Flags::c(), carry);
        self.regs.set_flags(Flags::n().union(Flags::h()), false);
        self.regs.set_flags(Flags::z(), result == 0);

        result
    }

    /// `value` shifted right by one with `cy` coming in; sets the flags.
    pub fn alu_rr(&mut self, value: u8, cy: bool) -> (r: u8)
        ensures
            r == rotated_right(value, cy).0,
            *final(self) == old(self).with_f(rotated_right(value, cy).1),
    {
        let cy: u8 = if cy {
            1
        } else {
            0
        };
        proof {
            lemma_shifts(value, cy);
        }
        let carry = (value & 0x01) != 0x00;
        let result = (cy << 7) | (value >> 1);

        self.regs.set_flags(Flags::c(), carry);
        self.regs.set_flags(Flags::n().union(Flags::h()), false);
        self.regs.set_flags(Flags::z(), result == 0);

        result
    }

    /// Turns `value` as `r` says; sets the flags.
    fn alu_rotate(&mut self, value: u8, r: Rotate) -> (result: u8)
        ensures
            result == rotate8(r, value, old(self).regs.f).0,
            *final(self) == old(self).with_f(rotate8(r, value, old(self).regs.f).1),
    {
        proof {
            lemma_shifts(value, 0);
        }
        let cy = self.regs.cf();
        match r {
            Rotate::Rlc => self.alu_rl(value, (value & 0x80) != 0x00),
            Rotate::Rl => self.alu_rl(value, cy),
            Rotate::Rrc => self.alu_rr(value, (value & 0x01) != 0x00),
            Rotate::Rr => self.alu_rr(value, cy),
        }
    }

    /// RLCA, RLA, RRCA and RRA: a rotation of A that clears Z.
    pub fn rotate_a(&mut self, r: Rotate)
        ensures
            *final(self) == model::run_inner(*old(self), Instruction::RotateA(r)),
    {
        let value = self.regs.a;
        self.regs.a = self.alu_rotate(value, r);
        self.regs.set_flags(Flags::z(), false);
    }

    /// RLC, RL, RRC and RR on dst.
    pub fn rotate<I, D>(&mut self, bus: &mut I, dst: D, r: Rotate) where
        I: Interface,
        D: Copy,
        Self: Dst<D> + Src<D>,

        requires
            I::valid(old(bus)@),
            <Self as Dst<D>>::target(dst) == <Self as Src<D>>::source(dst),
        ensures
            (*final(self), final(bus)@) == model::run_extended::<I>(
                *old(self),
                old(bus)@,
                Extended::Rotate(r, <Self as Src<D>>::source(dst)),
            ),
            I::valid(final(bus)@),
    {
        proof {
            reveal(model::run_extended);
        }
        let value = self.read(bus, dst);
        let result = self.alu_rotate(value, r);
        self.write(bus, dst, result);
    }

    /// Sets PC and lets one internal cycle pass.
    pub fn jump<I: Interface>(&mut self, bus: &mut I, address: u16)
        requires
            I::valid(old(bus)@),
        ensures
            (*final(self), final(bus)@) == model::jump::<I>(*old(self), old(bus)@, address),
            I::valid(final(bus)@),
    {
        self.regs.pc = address;
        bus.tick(1);
    }

    /// JP nn.
    pub fn jp<I: Interface>(&mut self, bus: &mut I)
        requires
            I::valid(old(bus)@),
        ensures
            (*final(self), final(bus)@) == model::run::<I>(
                *old(self),
                old(bus)@,
                Instruction::Jp,
            ),
            I::valid(final(bus)@),
    {
        proof {
            reveal(model::run);
        }
        let address = self.imm_word(bus);
        self.jump(bus, address);
    }

    /// JP HL.
    pub fn jp_hl(&mut self)
        ensures
            *final(self) == model::run_inner(*old(self), Instruction::JpHl),
    {
        self.regs.pc = self.regs.hl();
    }

    /// JP cc,nn.
    pub fn jp_cond<I: Interface>(&mut self, bus: &mut I, cond: Condition)
        requires
            I::valid(old(bus)@),
        ensures
            (*final(self), final(bus)@) == model::run::<I>(
                *old(self),
                old(bus)@,
                Instruction::JpCond(cond),
            ),
            I::valid(final(bus)@),
    {
        proof {
            reveal(model::run);
        }
        let address = self.imm_word(bus);
        if self.check_cond(cond) {
            self.jump(bus, address);
        }
    }

    /// Jumps by a signed offset from PC.
    pub fn jump_relative<I: Interface>(&mut self, bus: &mut I, offset: u8)
        requires
            I::valid(old(bus)@),
        ensures
            (*final(self), final(bus)@) == model::jump::<I>(
                *old(self),
                old(bus)@,
                wrap16(old(self).regs.pc + signed_offset(offset)),
            ),
            I::valid(final(bus)@),
    {
        let address = self.regs.pc.wrapping_add(sign_extend(offset));
        self.jump(bus, address);
    }

    /// JR d.
    pub fn jr<I: Interface>(&mut self, bus: &mut I)
        requires
            I::valid(old(bus)@),
        ensures
            (*final(self), final(bus)@) == model::run::<I>(
                *old(self),
                old(bus)@,
                Instruction::Jr,
            ),
            I::valid(final(bus)@),
    {
        proof {
            reveal(model::run);
        }
        let offset = self.imm(bus);
        self.jump_relative(bus, offset);
    }

    /// JR cc,d.
    pub fn jr_cond<I: Interface>(&mut self, bus: &mut I, cond: Condition)
        requires
            I::valid(old(bus)@),
        ensures
            (*final(self), final(bus)@) == model::run::<I>(
                *old(self),
                old(bus)@,
                Instruction::JrCond(cond),
            ),
            I::valid(final(bus)@),
    {
        proof {
            reveal(model::run);
        }
        let offset = self.imm(bus);
        if self.check_cond(cond) {
            self.jump_relative(bus, offset);
        }
    }

    /// Pushes PC and sets it to `address`.
    pub fn call_func<I: Interface>(&mut self, bus: &mut I, address: u16)
        requires
            I::valid(old(bus)@),
        ensures
            (*final(self), final(bus)@) == model::call_to::<I>(*old(self), old(bus)@, address),
            I::valid(final(bus)@),
    {
        let pc = self.regs.pc;
        self.stack_push(bus, pc);
        self.regs.pc = address;
    }

    /// CALL nn.
    pub fn call<I: Interface>(&mut self, bus: &mut I)
        requires
            I::valid(old(bus)@),
        ensures
            (*final(self), final(bus)@) == model::run::<I>(
                *old(self),
                old(bus)@,
                Instruction::Call,
            ),
            I::valid(final(bus)@),
    {
        proof {
            reveal(model::run);
        }
        let address = self.imm_word(bus);
        self.call_func(bus, address);
    }

    /// CALL cc,nn.
    pub fn call_cond<I: Interface>(&mut self, bus: &mut I, cond: Condition)
        requires
            I::valid(old(bus)@),
        ensures
            (*final(self), final(bus)@) == model::run::<I>(
                *old(self),
                old(bus)@,
                Instruction::CallCond(cond),
            ),
            I::valid(final(bus)@),
    {
        proof {
            reveal(model::run);
        }
        let address = self.imm_word(bus);
        if self.check_cond(cond) {
            self.call_func(bus, address);
        }
    }

    /// RET.
    pub fn ret<I: Interface>(&mut self, bus: &mut I)
        requires
            I::valid(old(bus)@),
        ensures
            (*final(self), final(bus)@) == model::run::<I>(
                *old(self),
                old(bus)@,
                Instruction::Ret,
            ),
            I::valid(final(bus)@),
    {
        proof {
            reveal(model::run);
        }
        let address = self.stack_pop(bus);
        self.jump(bus, address);
    }

    /// RET cc.
    pub fn ret_cond<I: Interface>(&mut self, bus: &mut I, cond: Condition)
        requires
            I::valid(old(bus)@),
        ensures
            (*final(self), final(bus)@) == model::run::<I>(
                *old(self),
                old(bus)@,
                Instruction::RetCond(cond),
            ),
            I::valid(final(bus)@),
    {
        proof {
            reveal(model::run);
        }
        bus.tick(1);
        if self.check_cond(cond) {
            self.ret(bus);
        }
    }

    /// RETI.
    pub fn reti<I: Interface>(&mut self, bus: &mut I)
        requires
            I::valid(old(bus)@),
        ensures
            (*final(self), final(bus)@) == model::run::<I>(
                *old(self),
                old(bus)@,
                Instruction::Reti,
            ),
            I::valid(final(bus)@),
    {
        proof {
            reveal(model::run);
        }
        self.ret(bus);
        self.ime = true;
    }

    /// RST: a call to the address in bits 3 to 5 of the current opcode.
    pub fn rst<I: Interface>(&mut self, bus: &mut I)
        requires
            I::valid(old(bus)@),
        ensures
            (*final(self), final(bus)@) == model::run::<I>(
                *old(self),
                old(bus)@,
                Instruction::Rst((old(self).cur_opcode / 8 % 8 * 8) as u8),
            ),
            I::valid(final(bus)@),
    {
        proof {
            reveal(model::run);
        }
        proof {
            lemma_shifts(self.cur_opcode, 0);
        }
        let address = self.cur_opcode & 0x38;
        let pc = self.regs.pc;
        self.stack_push(bus, pc);
        self.regs.pc = address as u16;
    }

    /// SLA dst.
    pub fn sla<I, D>(&mut self, bus: &mut I, dst: D) where
        I: Interface,
        D: Copy,
        Self: Dst<D> + Src<D>,

        requires
            I::valid(old(bus)@),
            <Self as Dst<D>>::target(dst) == <Self as Src<D>>::source(dst),
        ensures
            (*final(self), final(bus)@) == model::run_extended::<I>(
                *old(self),
                old(bus)@,
                Extended::Sla(<Self as Src<D>>::source(dst)),
            ),
            I::valid(final(bus)@),
    {
        proof {
            reveal(model::run_extended);
        }
        let value = self.read(bus, dst);
        proof {
            lemma_shifts(value, 0);
        }
        let carry = (value & 0x80) != 0x00;
        let result = value << 1;

        self.regs.set_flags(Flags::c(), carry);
        self.regs.set_flags(Flags::h().union(Flags::n()), false);
        self.regs.set_flags(Flags::z(), result == 0);

        self.write(bus, dst, result);
    }

    /// SRA dst.
    pub fn sra<I, D>(&mut self, bus: &mut I, dst: D) where
        I: Interface,
        D: Copy,
        Self: Dst<D> + Src<D>,

        requires
            I::valid(old(bus)@),
            <Self as Dst<D>>::target(dst) == <Self as Src<D>>::source(dst),
        ensures
            (*final(self), final(bus)@) == model::run_extended::<I>(
                *old(self),
                old(bus)@,
                Extended::Sra(<Self as Src<D>>::source(dst)),
            ),
            I::valid(final(bus)@),
    {
        proof {
            reveal(model::run_extended);
        }
        let value = self.read(bus, dst);
        proof {
            lemma_shifts(value, 0);
        }
        let carry = (value & 0x01) != 0x00;
        let hi = value & 0x80;
        let result = hi | (value >> 1);

        self.regs.set_flags(Flags::c(), carry);
        self.regs.set_flags(Flags::h().union(Flags::n()), false);
        self.regs.set_flags(Flags::z(), result == 0);

        self.write(bus, dst, result);
    }

    /// SRL dst.
    pub fn srl<I, D>(&mut self, bus: &mut I, dst: D) where
        I: Interface,
        D: Copy,
        Self: Dst<D> + Src<D>,

        requires
            I::valid(old(bus)@),
            <Self as Dst<D>>::target(dst) == <Self as Src<D>>::source(dst),
        ensures
            (*final(self), final(bus)@) == model::run_extended::<I>(
                *old(self),
                old(bus)@,
                Extended::Srl(<Self as Src<D>>::source(dst)),
            ),
            I::valid(final(bus)@),
    {
        proof {
            reveal(model::run_extended);
        }
        let value = self.read(bus, dst);
        proof {
            lemma_shifts(value, 0);
        }
        let carry = (value & 0x01) != 0x00;
        let result = value >> 1;

        self.regs.set_flags(Flags::c(), carry);
        self.regs.set_flags(Flags::h().union(Flags::n()), false);
        self.regs.set_flags(Flags::z(), result == 0);

        self.write(bus, dst, result);
    }

    /// SWAP dst.
    pub fn swap<I, D>(&mut self, bus: &mut I, dst: D) where
        I: Interface,
        D: Copy,
        Self: Dst<D> + Src<D>,

        requires
            I::valid(old(bus)@),
            <Self as Dst<D>>::target(dst) == <Self as Src<D>>::source(dst),
        ensures
            (*final(self), final(bus)@) == model::run_extended::<I>(
                *old(self),
                old(bus)@,
                Extended::Swap(<Self as Src<D>>::source(dst)),
            ),
            I::valid(final(bus)@),
    {
        proof {
            reveal(model::run_extended);
        }
        let value = self.read(bus, dst);
        proof {
            lemma_shifts(value, 0);
        }
        let result = (value << 4) | (value >> 4);

        self.regs.set_flags(Flags::h().union(Flags::n()).union(Flags::c()), false);
        self.regs.set_flags(Flags::z(), result == 0);

        self.write(bus, dst, result);
    }

    /// BIT n,dst.
    pub fn bit<I, D>(&mut self, bus: &mut I, dst: D, bit: u8) where
        I: Interface,
        D: Copy,
        Self: Dst<D> + Src<D>,

        requires
            I::valid(old(bus)@),
            <Self as Dst<D>>::target(dst) == <Self as Src<D>>::source(dst),
            bit < 8,
        ensures
            (*final(self), final(bus)@) == model::run_extended::<I>(
                *old(self),
                old(bus)@,
                Extended::TestBit(bit, <Self as Src<D>>::source(dst)),
            ),
            I::valid(final(bus)@),
    {
        proof {
            reveal(model::run_extended);
        }
        let value = self.read(bus, dst);
        proof {
            lemma_single_bit(value, bit);
        }
        let result = value & (1 << bit);

        self.regs.set_flags(Flags::z(), result == 0);
        self.regs.set_flags(Flags::n(), false);
        self.regs.set_flags(Flags::h(), true);
    }

    /// SET n,dst.
    pub fn set<I, D>(&mut self, bus: &mut I, dst: D, bit: u8) where
        I: Interface,
        D: Copy,
        Self: Dst<D> + Src<D>,

        requires
            I::valid(old(bus)@),
            <Self as Dst<D>>::target(dst) == <Self as Src<D>>::source(dst),
            bit < 8,
        ensures
            (*final(self), final(bus)@) == model::run_extended::<I>(
                *old(self),
                old(bus)@,
                Extended::SetBit(bit, <Self as Src<D>>::source(dst)),
            ),
            I::valid(final(bus)@),
    {
        proof {
            reveal(model::run_extended);
        }
        let value = self.read(bus, dst);
        self.write(bus, dst, value | (1 << bit));
    }

    /// RES n,dst.
    pub fn res<I, D>(&mut self, bus: &mut I, dst: D, bit: u8) where
        I: Interface,
        D: Copy,
        Self: Dst<D> + Src<D>,

        requires
            I::valid(old(bus)@),
            <Self as Dst<D>>::target(dst) == <Self as Src<D>>::source(dst),
            bit < 8,
        ensures
            (*final(self), final(bus)@) == model::run_extended::<I>(
                *old(self),
                old(bus)@,
                Extended::ResetBit(bit, <Self as Src<D>>::source(dst)),
            ),
            I::valid(final(bus)@),
    {
        proof {
            reveal(model::run_extended);
        }
        let value = self.read(bus, dst);
        self.write(bus, dst, value & !(1 << bit));
    }
}

} // verus!
