//! Laws of the machine: what holds of every instruction and of every step.
use vstd::prelude::*;
use vstd::arithmetic::div_mod::lemma_add_mod_noop_right;
use crate::bits::lemma_priority_bit;
use crate::bus::interrupts::InterruptFlag;
use super::alu::{lemma_flags_wf, signed_offset};
use super::instructions::{
    decode, decode_extended, decode_high, decode_low, indirect_field, operand_field, AluOp,
    Condition, Extended, Instruction, Operand, Rotate,
};
use super::model::{
    advance, call_to, effective_address, fetch, highest_priority, imm, imm_word, is_inner,
    jump, lemma_run_inner, pop_word, push_word, read_operand, ret, run, run_extended,
    run_inner, service, step, vector, write_operand,
};
use super::registers::{high_byte, low_byte, wrap16, Flags, Reg, Reg16};
use super::rw::Address;
use super::{Cpu, Interface};

verus! {

broadcast use crate::cpu::registers::Flags::lemma_flags_of;

/// `after` is a valid state that counts `count` machine cycles more than
/// `before`, modulo two to the sixty-fourth.
pub open spec fn elapsed<I: Interface>(before: I::V, after: I::V, count: nat) -> bool {
    &&& I::valid(after)
    &&& I::cycle_count(after) == (I::cycle_count(before) + count) % 0x1_0000_0000_0000_0000
}

/// Time adds up.
pub proof fn lemma_elapsed_sum<I: Interface>(a: I::V, b: I::V, c: I::V, j: nat, k: nat)
    requires
        elapsed::<I>(a, b, j),
        elapsed::<I>(b, c, k),
    ensures
        elapsed::<I>(a, c, j + k),
{
    let m = 0x1_0000_0000_0000_0000int;
    let x = I::cycle_count(a) as int;
    lemma_add_mod_noop_right(k as int, x + j, m);
    assert((k + (x + j) % m) % m == (k + (x + j)) % m);
}

/// `count` machine cycles take `count` machine cycles.
pub proof fn lemma_tick_elapsed<I: Interface>(s: I::V, count: nat)
    requires
        I::valid(s),
    ensures
        elapsed::<I>(s, I::ticked(s, count), count),
{
    I::lemma_ticked(s, count);
}

/// A write followed by one machine cycle takes one machine cycle.
pub proof fn lemma_write_elapsed<I: Interface>(s: I::V, address: u16, data: u8)
    requires
        I::valid(s),
    ensures
        elapsed::<I>(s, I::ticked(I::stored(s, address, data), 1), 1),
{
    I::lemma_stored(s, address, data);
    I::lemma_ticked(I::stored(s, address, data), 1);
}

/// An immediate byte takes one machine cycle, an immediate word two.
pub proof fn lemma_imm_elapsed<I: Interface>(cpu: Cpu, bus: I::V)
    requires
        I::valid(bus),
    ensures
        elapsed::<I>(bus, imm::<I>(cpu, bus).2, 1),
        elapsed::<I>(bus, imm_word::<I>(cpu, bus).2, 2),
        elapsed::<I>(bus, fetch::<I>(cpu, bus).1, 1),
{
    lemma_tick_elapsed::<I>(bus, 1);
    let (lo, c1, b1) = imm::<I>(cpu, bus);
    lemma_tick_elapsed::<I>(b1, 1);
    lemma_elapsed_sum::<I>(bus, b1, imm_word::<I>(cpu, bus).2, 1, 1);
}

/// The machine cycles that resolving an addressing mode takes.
pub open spec fn address_cycles(address: Address) -> nat {
    match address {
        Address::Absolute => 2,
        Address::ZeroPage => 1,
        _ => 0,
    }
}

/// The machine cycles that reading an operand takes.
pub open spec fn read_cycles(operand: Operand) -> nat {
    match operand {
        Operand::Reg(_) => 0,
        Operand::Imm => 1,
        Operand::Mem(address) => address_cycles(address) + 1,
    }
}

/// The machine cycles that writing an operand takes.
pub open spec fn write_cycles(operand: Operand) -> nat {
    match operand {
        Operand::Mem(address) => address_cycles(address) + 1,
        _ => 0,
    }
}

/// Resolving an address takes the cycles of its mode.
pub proof fn lemma_address_elapsed<I: Interface>(cpu: Cpu, bus: I::V, address: Address)
    requires
        I::valid(bus),
    ensures
        elapsed::<I>(bus, effective_address::<I>(cpu, bus, address).2, address_cycles(address)),
{
    lemma_imm_elapsed::<I>(cpu, bus);
    lemma_tick_elapsed::<I>(bus, 0);
    I::lemma_ticked(bus, 0);
    assert(I::cycle_count(bus) == (I::cycle_count(bus) + 0) % 0x1_0000_0000_0000_0000);
}

/// No time at all.
pub proof fn lemma_elapsed_none<I: Interface>(bus: I::V)
    requires
        I::valid(bus),
    ensures
        elapsed::<I>(bus, bus, 0),
{
}

/// Reading and writing an operand take the cycles of the operand.
pub proof fn lemma_operand_elapsed<I: Interface>(cpu: Cpu, bus: I::V, operand: Operand, data: u8)
    requires
        I::valid(bus),
    ensures
        elapsed::<I>(bus, read_operand::<I>(cpu, bus, operand).2, read_cycles(operand)),
        elapsed::<I>(bus, write_operand::<I>(cpu, bus, operand, data).1, write_cycles(operand)),
{
    lemma_elapsed_none::<I>(bus);
    lemma_imm_elapsed::<I>(cpu, bus);
    match operand {
        Operand::Mem(address) => {
            lemma_address_elapsed::<I>(cpu, bus, address);
            let (a, c1, b1) = effective_address::<I>(cpu, bus, address);
            lemma_tick_elapsed::<I>(b1, 1);
            lemma_elapsed_sum::<I>(bus, b1, I::ticked(b1, 1), address_cycles(address), 1);
            lemma_write_elapsed::<I>(b1, a, data);
            lemma_elapsed_sum::<I>(
                bus,
                b1,
                I::ticked(I::stored(b1, a, data), 1),
                address_cycles(address),
                1,
            );
        },
        _ => {},
    }
}

/// A push takes three machine cycles, a pop two, a jump one, a call three
/// and a return three.
pub proof fn lemma_stack_elapsed<I: Interface>(cpu: Cpu, bus: I::V, value: u16)
    requires
        I::valid(bus),
    ensures
        elapsed::<I>(bus, push_word::<I>(cpu, bus, value).1, 3),
        elapsed::<I>(bus, pop_word::<I>(cpu, bus).2, 2),
        elapsed::<I>(bus, jump::<I>(cpu, bus, value).1, 1),
        elapsed::<I>(bus, call_to::<I>(cpu, bus, value).1, 3),
        elapsed::<I>(bus, ret::<I>(cpu, bus).1, 3),
{
    lemma_tick_elapsed::<I>(bus, 1);
    let b1 = I::ticked(bus, 1);
    lemma_tick_elapsed::<I>(b1, 1);
    let b2 = I::ticked(b1, 1);
    lemma_elapsed_sum::<I>(bus, b1, b2, 1, 1);
    lemma_tick_elapsed::<I>(b2, 1);
    lemma_elapsed_sum::<I>(bus, b2, I::ticked(b2, 1), 2, 1);
    let sp1 = wrap16(cpu.regs.sp + 0xFFFF);
    let hi = high_byte(value);
    let lo = low_byte(value);
    lemma_write_elapsed::<I>(b1, sp1, hi);
    let p2 = I::ticked(I::stored(b1, sp1, hi), 1);
    lemma_elapsed_sum::<I>(bus, b1, p2, 1, 1);
    let sp2 = wrap16(sp1 + 0xFFFF);
    lemma_write_elapsed::<I>(p2, sp2, lo);
    lemma_elapsed_sum::<I>(bus, p2, I::ticked(I::stored(p2, sp2, lo), 1), 2, 1);
    let hi = high_byte(cpu.regs.pc);
    let lo = low_byte(cpu.regs.pc);
    lemma_write_elapsed::<I>(b1, sp1, hi);
    let q2 = I::ticked(I::stored(b1, sp1, hi), 1);
    lemma_elapsed_sum::<I>(bus, b1, q2, 1, 1);
    lemma_write_elapsed::<I>(q2, sp2, lo);
    lemma_elapsed_sum::<I>(bus, q2, I::ticked(I::stored(q2, sp2, lo), 1), 2, 1);
}

/// The machine cycles that an instruction behind the prefix takes after
/// its opcode was read.
pub open spec fn duration_extended(instr: Extended) -> nat {
    match instr {
        Extended::TestBit(_, src) => read_cycles(src),
        Extended::Rotate(_, dst) => read_cycles(dst) + write_cycles(dst),
        Extended::Sla(dst) => read_cycles(dst) + write_cycles(dst),
        Extended::Sra(dst) => read_cycles(dst) + write_cycles(dst),
        Extended::Swap(dst) => read_cycles(dst) + write_cycles(dst),
        Extended::Srl(dst) => read_cycles(dst) + write_cycles(dst),
        Extended::ResetBit(_, dst) => read_cycles(dst) + write_cycles(dst),
        Extended::SetBit(_, dst) => read_cycles(dst) + write_cycles(dst),
    }
}

/// The machine cycles that an instruction takes after its opcode was
/// fetched. A conditional jump, call or return takes longer when it is
/// taken; the prefix takes what the instruction behind it takes, and one
/// cycle to read that opcode.
pub open spec fn duration<I: Interface>(cpu: Cpu, bus: I::V, instr: Instruction) -> nat {
    match instr {
        Instruction::Ld(dst, src) => read_cycles(src) + write_cycles(dst),
        Instruction::Ld16(_) => 2,
        Instruction::LdMemSp => 4,
        Instruction::LdHlSp => 2,
        Instruction::LdSpHl => 1,
        Instruction::Push(_) => 3,
        Instruction::Pop(_) => 2,
        Instruction::Alu(_, src) => read_cycles(src),
        Instruction::Add16(_) => 1,
        Instruction::AddSp => 3,
        Instruction::Inc(dst) => read_cycles(dst) + write_cycles(dst),
        Instruction::Dec(dst) => read_cycles(dst) + write_cycles(dst),
        Instruction::Inc16(_) => 1,
        Instruction::Dec16(_) => 1,
        Instruction::Jp => 3,
        Instruction::JpCond(cond) => if cpu.holds(cond) {
            3
        } else {
            2
        },
        Instruction::Jr => 2,
        Instruction::JrCond(cond) => if cpu.holds(cond) {
            2
        } else {
            1
        },
        Instruction::Call => 5,
        Instruction::CallCond(cond) => if cpu.holds(cond) {
            5
        } else {
            2
        },
        Instruction::Ret => 3,
        Instruction::RetCond(cond) => if cpu.holds(cond) {
            4
        } else {
            1
        },
        Instruction::Reti => 3,
        Instruction::Rst(_) => 3,
        Instruction::Prefix => 1 + duration_extended(
            decode_extended(I::peeked(bus, cpu.regs.pc)),
        ),
        _ => 0,
    }
}

/// Reading an operand and writing it back take the cycles of both.
proof fn lemma_read_write_elapsed<I: Interface>(
    cpu: Cpu,
    bus: I::V,
    operand: Operand,
    then: Cpu,
    data: u8,
)
    requires
        I::valid(bus),
    ensures
        elapsed::<I>(
            bus,
            write_operand::<I>(then, read_operand::<I>(cpu, bus, operand).2, operand, data).1,
            read_cycles(operand) + write_cycles(operand),
        ),
{
    lemma_operand_elapsed::<I>(cpu, bus, operand, 0);
    let b1 = read_operand::<I>(cpu, bus, operand).2;
    lemma_operand_elapsed::<I>(then, b1, operand, data);
    lemma_elapsed_sum::<I>(
        bus,
        b1,
        write_operand::<I>(then, b1, operand, data).1,
        read_cycles(operand),
        write_cycles(operand),
    );
}

/// An instruction behind the prefix takes its duration.
pub proof fn lemma_extended_duration<I: Interface>(cpu: Cpu, bus: I::V, instr: Extended)
    requires
        I::valid(bus),
    ensures
        elapsed::<I>(bus, run_extended::<I>(cpu, bus, instr).1, duration_extended(instr)),
{
    reveal(run_extended);
    let (c, b) = run_extended::<I>(cpu, bus, instr);
    match instr {
        Extended::TestBit(_, src) => {
            lemma_operand_elapsed::<I>(cpu, bus, src, 0);
        },
        Extended::Rotate(_, dst)
        | Extended::Sla(dst)
        | Extended::Sra(dst)
        | Extended::Swap(dst)
        | Extended::Srl(dst)
        | Extended::ResetBit(_, dst)
        | Extended::SetBit(_, dst) => {
            assert forall|then: Cpu, data: u8|
                elapsed::<I>(
                    bus,
                    #[trigger] write_operand::<I>(
                        then,
                        read_operand::<I>(cpu, bus, dst).2,
                        dst,
                        data,
                    ).1,
                    read_cycles(dst) + write_cycles(dst),
                ) by {
                lemma_read_write_elapsed::<I>(cpu, bus, dst, then, data);
            }
        },
    }
}

/// An instruction takes its duration: the state of the bus stays valid and
/// the cycle counter goes up by the cycles of the instruction.
pub proof fn lemma_duration<I: Interface>(cpu: Cpu, bus: I::V, instr: Instruction)
    requires
        I::valid(bus),
    ensures
        elapsed::<I>(bus, run::<I>(cpu, bus, instr).1, duration::<I>(cpu, bus, instr)),
{
    reveal(run);
    lemma_elapsed_none::<I>(bus);
    lemma_imm_elapsed::<I>(cpu, bus);
    lemma_tick_elapsed::<I>(bus, 1);
    let (o, ci, bi) = imm::<I>(cpu, bus);
    let (w, cw, bw) = imm_word::<I>(cpu, bus);
    match instr {
        Instruction::Ld(dst, src) => {
            lemma_operand_elapsed::<I>(cpu, bus, src, 0);
            let (v, c1, b1) = read_operand::<I>(cpu, bus, src);
            lemma_operand_elapsed::<I>(c1, b1, dst, v);
            lemma_elapsed_sum::<I>(
                bus,
                b1,
                write_operand::<I>(c1, b1, dst, v).1,
                read_cycles(src),
                write_cycles(dst),
            );
        },
        Instruction::LdMemSp => {
            let lo = low_byte(cw.regs.sp);
            let hi = high_byte(cw.regs.sp);
            lemma_write_elapsed::<I>(bw, w, lo);
            let b2 = I::ticked(I::stored(bw, w, lo), 1);
            lemma_elapsed_sum::<I>(bus, bw, b2, 2, 1);
            lemma_write_elapsed::<I>(b2, wrap16(w + 1), hi);
            lemma_elapsed_sum::<I>(
                bus,
                b2,
                I::ticked(I::stored(b2, wrap16(w + 1), hi), 1),
                3,
                1,
            );
        },
        Instruction::LdHlSp => {
            lemma_tick_elapsed::<I>(bi, 1);
            lemma_elapsed_sum::<I>(bus, bi, I::ticked(bi, 1), 1, 1);
        },
        Instruction::Push(rr) => {
            lemma_stack_elapsed::<I>(cpu, bus, cpu.regs.pair(rr));
        },
        Instruction::Pop(_) | Instruction::Ret | Instruction::Reti => {
            lemma_stack_elapsed::<I>(cpu, bus, 0);
        },
        Instruction::Alu(_, src) => {
            lemma_operand_elapsed::<I>(cpu, bus, src, 0);
        },
        Instruction::AddSp => {
            lemma_tick_elapsed::<I>(bi, 2);
            lemma_elapsed_sum::<I>(bus, bi, I::ticked(bi, 2), 1, 2);
        },
        Instruction::Inc(dst) | Instruction::Dec(dst) => {
            assert forall|then: Cpu, data: u8|
                elapsed::<I>(
                    bus,
                    #[trigger] write_operand::<I>(
                        then,
                        read_operand::<I>(cpu, bus, dst).2,
                        dst,
                        data,
                    ).1,
                    read_cycles(dst) + write_cycles(dst),
                ) by {
                lemma_read_write_elapsed::<I>(cpu, bus, dst, then, data);
            }
        },
        Instruction::Jp | Instruction::JpCond(_) => {
            lemma_stack_elapsed::<I>(cw, bw, w);
            lemma_elapsed_sum::<I>(bus, bw, jump::<I>(cw, bw, w).1, 2, 1);
        },
        Instruction::Jr | Instruction::JrCond(_) => {
            let target = wrap16(ci.regs.pc + signed_offset(o));
            lemma_stack_elapsed::<I>(ci, bi, target);
            lemma_elapsed_sum::<I>(bus, bi, jump::<I>(ci, bi, target).1, 1, 1);
        },
        Instruction::Call | Instruction::CallCond(_) => {
            lemma_stack_elapsed::<I>(cw, bw, w);
            lemma_elapsed_sum::<I>(bus, bw, call_to::<I>(cw, bw, w).1, 2, 3);
        },
        Instruction::RetCond(_) => {
            let b1 = I::ticked(bus, 1);
            lemma_stack_elapsed::<I>(cpu, b1, 0);
            lemma_elapsed_sum::<I>(bus, b1, ret::<I>(cpu, b1).1, 1, 3);
        },
        Instruction::Rst(target) => {
            lemma_stack_elapsed::<I>(cpu, bus, target as u16);
        },
        Instruction::Prefix => {
            let next = decode_extended(o);
            lemma_extended_duration::<I>(ci, bi, next);
            lemma_elapsed_sum::<I>(
                bus,
                bi,
                run_extended::<I>(ci, bi, next).1,
                1,
                duration_extended(next),
            );
        },
        _ => {},
    }
}

/// Whether the end of a step serves an interrupt: IME is set and an
/// interrupt is pending.
pub open spec fn dispatches<I: Interface>(cpu: Cpu, bus: I::V) -> bool {
    cpu.ime && highest_priority(I::pending(bus).bits) != 0
}

/// The machine cycles that a step takes: one for a halted processor, or one
/// for the fetch and those of the instruction; and four more where an
/// interrupt is served.
pub open spec fn step_duration<I: Interface>(cpu: Cpu, bus: I::V) -> nat {
    let first: nat = if cpu.halted {
        1
    } else {
        let (c1, b1) = fetch::<I>(cpu, bus);
        1 + duration::<I>(c1, b1, decode(c1.cur_opcode))
    };
    let (c, b) = advance::<I>(cpu, bus);
    if dispatches::<I>(c, b) {
        first + 4
    } else {
        first
    }
}

/// The service of an interrupt takes four machine cycles, and none where
/// nothing is pending.
pub proof fn lemma_service_elapsed<I: Interface>(cpu: Cpu, bus: I::V)
    requires
        I::valid(bus),
    ensures
        elapsed::<I>(
            bus,
            service::<I>(cpu, bus).1,
            if highest_priority(I::pending(bus).bits) != 0 {
                4
            } else {
                0
            },
        ),
{
    lemma_elapsed_none::<I>(bus);
    let intr = highest_priority(I::pending(bus).bits);
    if intr != 0 {
        let c1 = Cpu { ime: false, halted: false, ..cpu };
        lemma_tick_elapsed::<I>(bus, 1);
        let b1 = I::ticked(bus, 1);
        lemma_stack_elapsed::<I>(c1, b1, c1.regs.pc);
        let b2 = push_word::<I>(c1, b1, c1.regs.pc).1;
        lemma_elapsed_sum::<I>(bus, b1, b2, 1, 3);
        I::lemma_acknowledged(b2, InterruptFlag { bits: intr });
    }
}

/// A step takes its duration: the state of the bus stays valid and the
/// cycle counter goes up by the cycles of the step.
pub proof fn lemma_step_duration<I: Interface>(cpu: Cpu, bus: I::V)
    requires
        I::valid(bus),
    ensures
        elapsed::<I>(bus, step::<I>(cpu, bus).1, step_duration::<I>(cpu, bus)),
        step_duration::<I>(cpu, bus) >= 1,
{
    let (c, b) = advance::<I>(cpu, bus);
    if cpu.halted {
        lemma_tick_elapsed::<I>(bus, 1);
    } else {
        lemma_imm_elapsed::<I>(cpu, bus);
        let (c1, b1) = fetch::<I>(cpu, bus);
        lemma_duration::<I>(c1, b1, decode(c1.cur_opcode));
        lemma_elapsed_sum::<I>(bus, b1, b, 1, duration::<I>(c1, b1, decode(c1.cur_opcode)));
    }
    lemma_service_elapsed::<I>(c, b);
    if c.ime {
        let first: nat = if cpu.halted {
            1
        } else {
            let (c1, b1) = fetch::<I>(cpu, bus);
            1 + duration::<I>(c1, b1, decode(c1.cur_opcode))
        };
        lemma_elapsed_sum::<I>(
            bus,
            b,
            service::<I>(c, b).1,
            first,
            if highest_priority(I::pending(b).bits) != 0 {
                4
            } else {
                0
            },
        );
    }
}

/// The operands that the opcode fields name cost at most one machine cycle
/// to read and one to write.
proof fn lemma_field_cycles(code: int)
    ensures
        read_cycles(operand_field(code)) <= 1,
        write_cycles(operand_field(code)) <= 1,
        read_cycles(indirect_field(code)) <= 1,
        write_cycles(indirect_field(code)) <= 1,
{
}

/// No instruction of the first quarter of the table takes more than four
/// machine cycles after its fetch.
proof fn lemma_low_bound<I: Interface>(cpu: Cpu, bus: I::V, y: int, z: int)
    requires
        0 <= y < 8,
        0 <= z < 8,
    ensures
        duration::<I>(cpu, bus, decode_low(y, z)) <= 4,
{
    lemma_field_cycles(y);
    lemma_field_cycles(y / 2);
}

/// No instruction behind the prefix takes more than two machine cycles
/// after its opcode was read.
pub proof fn lemma_extended_bound(opcode: u8)
    ensures
        duration_extended(decode_extended(opcode)) <= 2,
{
    lemma_field_cycles(opcode as int % 8);
}

/// No instruction of the last quarter of the table takes more than five
/// machine cycles after its fetch.
proof fn lemma_high_bound<I: Interface>(cpu: Cpu, bus: I::V, y: int, z: int)
    requires
        0 <= y < 8,
        0 <= z < 8,
    ensures
        duration::<I>(cpu, bus, decode_high(y, z)) <= 5,
{
    lemma_extended_bound(I::peeked(bus, cpu.regs.pc));
}

/// No instruction of the table takes more than five machine cycles after
/// its fetch.
pub proof fn lemma_duration_bound<I: Interface>(cpu: Cpu, bus: I::V, opcode: u8)
    ensures
        duration::<I>(cpu, bus, decode(opcode)) <= 5,
{
    let y = opcode as int / 8 % 8;
    let z = opcode as int % 8;
    lemma_field_cycles(y);
    lemma_field_cycles(z);
    if opcode < 0x40 {
        lemma_low_bound::<I>(cpu, bus, y, z);
    } else if opcode >= 0xC0 {
        lemma_high_bound::<I>(cpu, bus, y, z);
    }
}

/// No step takes more than ten machine cycles.
pub proof fn lemma_step_bound<I: Interface>(cpu: Cpu, bus: I::V)
    ensures
        step_duration::<I>(cpu, bus) <= 10,
{
    let (c1, b1) = fetch::<I>(cpu, bus);
    lemma_duration_bound::<I>(c1, b1, c1.cur_opcode);
}

/// The cycle counter goes up with every step, as long as it does not run
/// over two to the sixty-fourth.
pub proof fn lemma_cycles_increase<I: Interface>(cpu: Cpu, bus: I::V)
    requires
        I::valid(bus),
        I::cycle_count(bus) + 10 < 0x1_0000_0000_0000_0000,
    ensures
        I::cycle_count(step::<I>(cpu, bus).1) == I::cycle_count(bus) + step_duration::<I>(
            cpu,
            bus,
        ),
        I::cycle_count(step::<I>(cpu, bus).1) > I::cycle_count(bus),
{
    lemma_step_duration::<I>(cpu, bus);
    lemma_step_bound::<I>(cpu, bus);
}

/// `JP HL` takes no time after its fetch and leaves the bus alone: with the
/// fetch, the instruction costs one machine cycle.
pub proof fn lemma_jp_hl_one_cycle<I: Interface>(cpu: Cpu, bus: I::V)
    requires
        I::valid(bus),
        !cpu.halted,
        I::peeked(bus, cpu.regs.pc) == 0xE9,
    ensures
        decode(0xE9) == Instruction::JpHl,
        advance::<I>(cpu, bus).1 == I::ticked(bus, 1),
        advance::<I>(cpu, bus).0.regs.pc == cpu.regs.pair(Reg16::HL),
        !dispatches::<I>(advance::<I>(cpu, bus).0, advance::<I>(cpu, bus).1)
            ==> step_duration::<I>(cpu, bus) == 1,
{
    reveal(run);
}

/// `RET cc` lets one machine cycle pass before it looks at the condition:
/// where the condition fails, that cycle is all it takes; where it holds,
/// the return follows.
pub proof fn lemma_ret_cond_internal_cycle<I: Interface>(cpu: Cpu, bus: I::V, cond: Condition)
    requires
        I::valid(bus),
    ensures
        !cpu.holds(cond) ==> run::<I>(cpu, bus, Instruction::RetCond(cond)) == (
            cpu,
            I::ticked(bus, 1),
        ),
        cpu.holds(cond) ==> run::<I>(cpu, bus, Instruction::RetCond(cond)) == run::<I>(
            cpu,
            I::ticked(bus, 1),
            Instruction::Ret,
        ),
        duration::<I>(cpu, bus, Instruction::RetCond(cond)) == if cpu.holds(cond) {
            4nat
        } else {
            1nat
        },
{
    reveal(run);
}

/// Reading and writing operands, the stack and jumps leave the flags alone.
pub proof fn lemma_blocks_keep_flags<I: Interface>(
    cpu: Cpu,
    bus: I::V,
    operand: Operand,
    data: u8,
    value: u16,
)
    ensures
        imm::<I>(cpu, bus).1.regs.f == cpu.regs.f,
        imm_word::<I>(cpu, bus).1.regs.f == cpu.regs.f,
        read_operand::<I>(cpu, bus, operand).1.regs.f == cpu.regs.f,
        write_operand::<I>(cpu, bus, operand, data).0.regs.f == cpu.regs.f,
        push_word::<I>(cpu, bus, value).0.regs.f == cpu.regs.f,
        pop_word::<I>(cpu, bus).1.regs.f == cpu.regs.f,
        jump::<I>(cpu, bus, value).0.regs.f == cpu.regs.f,
        call_to::<I>(cpu, bus, value).0.regs.f == cpu.regs.f,
        ret::<I>(cpu, bus).0.regs.f == cpu.regs.f,
{
    match operand {
        Operand::Mem(address) => {
            assert(effective_address::<I>(cpu, bus, address).1.regs.f == cpu.regs.f);
        },
        _ => {},
    }
}

/// The instructions behind the prefix keep the flags well-formed.
pub proof fn lemma_extended_keeps_wf<I: Interface>(cpu: Cpu, bus: I::V, instr: Extended)
    requires
        cpu.wf(),
    ensures
        run_extended::<I>(cpu, bus, instr).0.wf(),
{
    reveal(run_extended);
    match instr {
        Extended::TestBit(_, dst)
        | Extended::Rotate(_, dst)
        | Extended::Sla(dst)
        | Extended::Sra(dst)
        | Extended::Swap(dst)
        | Extended::Srl(dst)
        | Extended::ResetBit(_, dst)
        | Extended::SetBit(_, dst) => {
            lemma_blocks_keep_flags::<I>(cpu, bus, dst, 0, 0);
            let (v, c1, b1) = read_operand::<I>(cpu, bus, dst);
            let r = match instr {
                Extended::Rotate(r, _) => r,
                _ => Rotate::Rl,
            };
            let n = match instr {
                Extended::TestBit(n, _) => n,
                _ => 0u8,
            };
            lemma_flags_wf(AluOp::Add, r, 0, v, n, 0, 0, c1.regs.f);
            assert forall|then: Cpu, data: u8|
                (#[trigger] write_operand::<I>(then, b1, dst, data)).0.regs.f
                    == then.regs.f by {
                lemma_blocks_keep_flags::<I>(then, b1, dst, data, 0);
            }
        },
    }
}

/// The arithmetic instructions keep the flags well-formed.
proof fn lemma_arithmetic_keeps_wf<I: Interface>(cpu: Cpu, bus: I::V, instr: Instruction)
    requires
        cpu.wf(),
        instr is Alu || instr is Inc || instr is Dec || instr is LdHlSp || instr is AddSp
            || instr is Add16,
    ensures
        run::<I>(cpu, bus, instr).0.wf(),
{
    reveal(run);
    lemma_blocks_keep_flags::<I>(cpu, bus, Operand::Imm, 0, 0);
    let (o, ci, bi) = imm::<I>(cpu, bus);
    lemma_flags_wf(
        AluOp::Add,
        Rotate::Rl,
        0,
        o,
        0,
        ci.regs.sp,
        0,
        cpu.regs.f,
    );
    match instr {
        Instruction::Alu(op, src) => {
            lemma_blocks_keep_flags::<I>(cpu, bus, src, 0, 0);
            let (v, c1, b1) = read_operand::<I>(cpu, bus, src);
            lemma_flags_wf(op, Rotate::Rl, c1.regs.a, v, 0, 0, 0, c1.regs.f);
        },
        Instruction::Inc(dst) | Instruction::Dec(dst) => {
            lemma_blocks_keep_flags::<I>(cpu, bus, dst, 0, 0);
            let (v, c1, b1) = read_operand::<I>(cpu, bus, dst);
            lemma_flags_wf(
                AluOp::Add,
                Rotate::Rl,
                0,
                v,
                0,
                0,
                0,
                c1.regs.f,
            );
            assert forall|then: Cpu, data: u8|
                (#[trigger] write_operand::<I>(then, b1, dst, data)).0.regs.f
                    == then.regs.f by {
                lemma_blocks_keep_flags::<I>(then, b1, dst, data, 0);
            }
        },
        Instruction::Add16(rr) => {
            lemma_flags_wf(
                AluOp::Add,
                Rotate::Rl,
                0,
                0,
                0,
                cpu.regs.pair(Reg16::HL),
                cpu.regs.pair(rr),
                cpu.regs.f,
            );
        },
        _ => {},
    }
}

/// The loads and the stack keep the flags well-formed.
proof fn lemma_moves_keep_wf<I: Interface>(cpu: Cpu, bus: I::V, instr: Instruction)
    requires
        cpu.wf(),
        instr is Ld || instr is Ld16 || instr is LdMemSp || instr is LdSpHl || instr is Push
            || instr is Pop || instr is Inc16 || instr is Dec16,
    ensures
        run::<I>(cpu, bus, instr).0.wf(),
{
    reveal(run);
    lemma_blocks_keep_flags::<I>(cpu, bus, Operand::Imm, 0, 0);
    match instr {
        Instruction::Ld(dst, src) => {
            lemma_blocks_keep_flags::<I>(cpu, bus, src, 0, 0);
            let (v, c1, b1) = read_operand::<I>(cpu, bus, src);
            lemma_blocks_keep_flags::<I>(c1, b1, dst, v, 0);
        },
        Instruction::Ld16(rr) => {
            let (w, cw, bw) = imm_word::<I>(cpu, bus);
            cw.regs.lemma_with_pair_wf(rr, w);
        },
        Instruction::Push(rr) => {
            lemma_blocks_keep_flags::<I>(cpu, bus, Operand::Imm, 0, cpu.regs.pair(rr));
        },
        Instruction::Pop(rr) => {
            let (w, c1, b1) = pop_word::<I>(cpu, bus);
            c1.regs.lemma_with_pair_wf(rr, w);
        },
        Instruction::Inc16(rr) => {
            cpu.regs.lemma_with_pair_wf(rr, wrap16(cpu.regs.pair(rr) + 1));
        },
        Instruction::Dec16(rr) => {
            cpu.regs.lemma_with_pair_wf(rr, wrap16(cpu.regs.pair(rr) + 0xFFFF));
        },
        _ => {},
    }
}

/// Jumps, calls and returns keep the flags well-formed.
proof fn lemma_control_keeps_wf<I: Interface>(cpu: Cpu, bus: I::V, instr: Instruction)
    requires
        cpu.wf(),
        instr is Jp || instr is JpCond || instr is Jr || instr is JrCond || instr is Call
            || instr is CallCond || instr is Ret || instr is RetCond || instr is Reti
            || instr is Rst || instr is Prefix,
    ensures
        run::<I>(cpu, bus, instr).0.wf(),
{
    reveal(run);
    lemma_blocks_keep_flags::<I>(cpu, bus, Operand::Imm, 0, 0);
    let (o, ci, bi) = imm::<I>(cpu, bus);
    let (w, cw, bw) = imm_word::<I>(cpu, bus);
    match instr {
        Instruction::Jp | Instruction::JpCond(_) => {
            lemma_blocks_keep_flags::<I>(cw, bw, Operand::Imm, 0, w);
        },
        Instruction::Call | Instruction::CallCond(_) => {
            lemma_blocks_keep_flags::<I>(cw, bw, Operand::Imm, 0, w);
        },
        Instruction::Jr | Instruction::JrCond(_) => {
            lemma_blocks_keep_flags::<I>(
                ci,
                bi,
                Operand::Imm,
                0,
                wrap16(ci.regs.pc + signed_offset(o)),
            );
        },
        Instruction::RetCond(_) => {
            lemma_blocks_keep_flags::<I>(cpu, I::ticked(bus, 1), Operand::Imm, 0, 0);
        },
        Instruction::Rst(target) => {
            lemma_blocks_keep_flags::<I>(cpu, bus, Operand::Imm, 0, target as u16);
        },
        Instruction::Prefix => {
            lemma_extended_keeps_wf::<I>(ci, bi, decode_extended(o));
        },
        _ => {},
    }
}

/// The instructions that touch nothing but the processor keep the flags
/// well-formed.
proof fn lemma_inner_keeps_wf(cpu: Cpu, instr: Instruction)
    requires
        cpu.wf(),
    ensures
        run_inner(cpu, instr).wf(),
{
    lemma_flags_wf(
        AluOp::Add,
        match instr {
            Instruction::RotateA(r) => r,
            _ => Rotate::Rl,
        },
        cpu.regs.a,
        cpu.regs.a,
        0,
        0,
        0,
        cpu.regs.f,
    );
}

/// The flags stay well-formed: no instruction sets a bit in the lower
/// nibble of F.
pub proof fn lemma_flags_stay_wf<I: Interface>(cpu: Cpu, bus: I::V, instr: Instruction)
    requires
        cpu.wf(),
    ensures
        run::<I>(cpu, bus, instr).0.wf(),
{
    if instr is Alu || instr is Inc || instr is Dec || instr is LdHlSp || instr is AddSp
        || instr is Add16 {
        lemma_arithmetic_keeps_wf::<I>(cpu, bus, instr);
    } else if instr is Ld || instr is Ld16 || instr is LdMemSp || instr is LdSpHl || instr is Push
        || instr is Pop || instr is Inc16 || instr is Dec16 {
        lemma_moves_keep_wf::<I>(cpu, bus, instr);
    } else if is_inner(instr) {
        lemma_run_inner::<I>(cpu, bus, instr);
        lemma_inner_keeps_wf(cpu, instr);
    } else {
        lemma_control_keeps_wf::<I>(cpu, bus, instr);
    }
}

/// The flags stay well-formed over a whole step.
pub proof fn lemma_step_keeps_wf<I: Interface>(cpu: Cpu, bus: I::V)
    requires
        cpu.wf(),
    ensures
        step::<I>(cpu, bus).0.wf(),
{
    let (c1, b1) = fetch::<I>(cpu, bus);
    lemma_flags_stay_wf::<I>(c1, b1, decode(c1.cur_opcode));
}

/// The bytes that an operand takes up behind the opcode.
pub open spec fn operand_bytes(operand: Operand) -> int {
    match operand {
        Operand::Imm => 1,
        Operand::Mem(Address::Absolute) => 2,
        Operand::Mem(Address::ZeroPage) => 1,
        _ => 0,
    }
}

/// The length of an instruction of the table in bytes, its opcode counted.
pub open spec fn length(instr: Instruction) -> int {
    match instr {
        Instruction::Ld(dst, src) => 1 + operand_bytes(src) + if dst is Imm {
            0
        } else {
            operand_bytes(dst)
        },
        Instruction::Alu(_, src) => 1 + operand_bytes(src),
        Instruction::Ld16(_)
        | Instruction::LdMemSp
        | Instruction::Jp
        | Instruction::JpCond(_)
        | Instruction::Call
        | Instruction::CallCond(_) => 3,
        Instruction::LdHlSp
        | Instruction::AddSp
        | Instruction::Jr
        | Instruction::JrCond(_)
        | Instruction::Prefix => 2,
        _ => 1,
    }
}

/// Whether an instruction sets PC: a jump, a call or a return, and a
/// conditional one where its condition holds.
pub open spec fn transfers(cpu: Cpu, instr: Instruction) -> bool {
    match instr {
        Instruction::Jp
        | Instruction::JpHl
        | Instruction::Jr
        | Instruction::Call
        | Instruction::Ret
        | Instruction::Reti
        | Instruction::Rst(_) => true,
        Instruction::JpCond(cond)
        | Instruction::JrCond(cond)
        | Instruction::CallCond(cond)
        | Instruction::RetCond(cond) => cpu.holds(cond),
        _ => false,
    }
}

/// Immediates move PC past themselves; the stack leaves PC alone.
pub proof fn lemma_blocks_move_pc<I: Interface>(
    cpu: Cpu,
    bus: I::V,
    operand: Operand,
    data: u8,
    value: u16,
)
    ensures
        imm::<I>(cpu, bus).1.regs.pc == wrap16(cpu.regs.pc + 1),
        imm_word::<I>(cpu, bus).1.regs.pc == wrap16(cpu.regs.pc + 2),
        read_operand::<I>(cpu, bus, operand).1.regs.pc == wrap16(
            cpu.regs.pc + operand_bytes(operand),
        ),
        !(operand is Imm) ==> write_operand::<I>(cpu, bus, operand, data).0.regs.pc == wrap16(
            cpu.regs.pc + operand_bytes(operand),
        ),
        push_word::<I>(cpu, bus, value).0.regs.pc == cpu.regs.pc,
        pop_word::<I>(cpu, bus).1.regs.pc == cpu.regs.pc,
        imm::<I>(cpu, bus).1.regs.f == cpu.regs.f,
        imm_word::<I>(cpu, bus).1.regs.f == cpu.regs.f,
{
    match operand {
        Operand::Mem(address) => {
            assert(effective_address::<I>(cpu, bus, address).1.regs.pc == wrap16(
                cpu.regs.pc + operand_bytes(operand),
            ));
        },
        _ => {},
    }
}

/// The operands that the opcode fields name take up no bytes.
proof fn lemma_field_bytes(code: int)
    ensures
        operand_bytes(operand_field(code)) == 0,
        operand_bytes(indirect_field(code)) == 0,
        !(operand_field(code) is Imm),
        !(indirect_field(code) is Imm),
{
}

/// An instruction behind the prefix leaves PC alone.
pub proof fn lemma_extended_keeps_pc<I: Interface>(cpu: Cpu, bus: I::V, opcode: u8)
    ensures
        run_extended::<I>(cpu, bus, decode_extended(opcode)).0.regs.pc == cpu.regs.pc,
{
    reveal(run_extended);
    let dst = operand_field(opcode as int % 8);
    lemma_field_bytes(opcode as int % 8);
    lemma_blocks_move_pc::<I>(cpu, bus, dst, 0, 0);
    let (v, c1, b1) = read_operand::<I>(cpu, bus, dst);
    assert forall|then: Cpu, data: u8|
        (#[trigger] write_operand::<I>(then, b1, dst, data)).0.regs.pc == then.regs.pc by {
        lemma_blocks_move_pc::<I>(then, b1, dst, data, 0);
    }
}

/// Reading a field operand, then writing it, leaves PC alone.
proof fn lemma_field_keeps_pc<I: Interface>(cpu: Cpu, bus: I::V, code: int)
    ensures
        ({
            let dst = operand_field(code);
            let (v, c1, b1) = read_operand::<I>(cpu, bus, dst);
            &&& c1.regs.pc == cpu.regs.pc
            &&& forall|then: Cpu, data: u8|
                (#[trigger] write_operand::<I>(then, b1, dst, data)).0.regs.pc == then.regs.pc
        }),
{
    let dst = operand_field(code);
    lemma_field_bytes(code);
    lemma_blocks_move_pc::<I>(cpu, bus, dst, 0, 0);
    let (v, c1, b1) = read_operand::<I>(cpu, bus, dst);
    assert forall|then: Cpu, data: u8|
        (#[trigger] write_operand::<I>(then, b1, dst, data)).0.regs.pc == then.regs.pc by {
        lemma_blocks_move_pc::<I>(then, b1, dst, data, 0);
    }
}

/// The first quarter of the table: PC moves past the instruction unless a
/// relative jump is taken.
proof fn lemma_low_pc<I: Interface>(cpu: Cpu, bus: I::V, y: int, z: int)
    requires
        0 <= y < 8,
        0 <= z < 8,
        !transfers(cpu, decode_low(y, z)),
    ensures
        run::<I>(cpu, bus, decode_low(y, z)).0.regs.pc == wrap16(
            cpu.regs.pc + length(decode_low(y, z)) - 1,
        ),
{
    reveal(run);
    let instr = decode_low(y, z);
    lemma_blocks_move_pc::<I>(cpu, bus, Operand::Imm, 0, 0);
    lemma_field_bytes(y);
    lemma_field_bytes(y / 2);
    lemma_field_keeps_pc::<I>(cpu, bus, y);
    if z == 2 {
        let m = indirect_field(y / 2);
        lemma_blocks_move_pc::<I>(cpu, bus, m, cpu.regs.a, 0);
        lemma_blocks_move_pc::<I>(cpu, bus, Operand::Reg(Reg::A), 0, 0);
        let (v, c1, b1) = read_operand::<I>(cpu, bus, m);
        lemma_blocks_move_pc::<I>(c1, b1, Operand::Reg(Reg::A), v, 0);
    } else if z == 6 {
        let (v, c1, b1) = imm::<I>(cpu, bus);
        lemma_blocks_move_pc::<I>(c1, b1, operand_field(y), v, 0);
    }
}

/// The last quarter of the table: PC moves past the instruction unless a
/// jump, a call or a return is taken.
proof fn lemma_high_pc<I: Interface>(cpu: Cpu, bus: I::V, y: int, z: int)
    requires
        0 <= y < 8,
        0 <= z < 8,
        !transfers(cpu, decode_high(y, z)),
    ensures
        run::<I>(cpu, bus, decode_high(y, z)).0.regs.pc == wrap16(
            cpu.regs.pc + length(decode_high(y, z)) - 1,
        ),
{
    reveal(run);
    let instr = decode_high(y, z);
    lemma_blocks_move_pc::<I>(cpu, bus, Operand::Imm, 0, 0);
    let (o, ci, bi) = imm::<I>(cpu, bus);
    match instr {
        Instruction::Ld(dst, src) => {
            lemma_blocks_move_pc::<I>(cpu, bus, src, 0, 0);
            let (v, c1, b1) = read_operand::<I>(cpu, bus, src);
            lemma_blocks_move_pc::<I>(c1, b1, dst, v, 0);
        },
        Instruction::Prefix => {
            lemma_extended_keeps_pc::<I>(ci, bi, o);
        },
        _ => {},
    }
}

/// PC moves past every instruction that does not set it: after the
/// instruction, PC is behind its last byte.
pub proof fn lemma_pc_advances<I: Interface>(cpu: Cpu, bus: I::V, opcode: u8)
    requires
        !transfers(cpu, decode(opcode)),
    ensures
        run::<I>(cpu, bus, decode(opcode)).0.regs.pc == wrap16(
            cpu.regs.pc + length(decode(opcode)) - 1,
        ),
{
    let y = opcode as int / 8 % 8;
    let z = opcode as int % 8;
    if opcode < 0x40 {
        lemma_low_pc::<I>(cpu, bus, y, z);
    } else if opcode >= 0xC0 {
        lemma_high_pc::<I>(cpu, bus, y, z);
    } else {
        reveal(run);
        lemma_field_bytes(y);
        lemma_field_bytes(z);
        let src = operand_field(z);
        lemma_blocks_move_pc::<I>(cpu, bus, src, 0, 0);
        let (v, c1, b1) = read_operand::<I>(cpu, bus, src);
        lemma_blocks_move_pc::<I>(c1, b1, operand_field(y), v, 0);
    }
}

/// A step of a running processor moves PC by the length of the instruction
/// at PC, unless the instruction sets PC or an interrupt is served.
pub proof fn lemma_step_moves_pc<I: Interface>(cpu: Cpu, bus: I::V)
    requires
        !cpu.halted,
        !transfers(cpu, decode(I::peeked(bus, cpu.regs.pc))),
        !dispatches::<I>(advance::<I>(cpu, bus).0, advance::<I>(cpu, bus).1),
    ensures
        step::<I>(cpu, bus).0.regs.pc == wrap16(
            cpu.regs.pc + length(decode(I::peeked(bus, cpu.regs.pc))),
        ),
{
    let (c1, b1) = fetch::<I>(cpu, bus);
    lemma_pc_advances::<I>(c1, b1, c1.cur_opcode);
}

/// The service of an interrupt. Of the pending interrupts, the one of the
/// highest priority is served: it is a single interrupt, IME and the halt
/// are cleared, PC goes to its vector, and of the pending interrupts it
/// alone is cleared. It is then no longer pending, so that a later step
/// serves it again only after it was requested again.
pub proof fn lemma_service<I: Interface>(cpu: Cpu, bus: I::V)
    requires
        I::valid(bus),
        I::pending(bus).bits != 0,
    ensures
        ({
            let k = highest_priority(I::pending(bus).bits);
            let (c, b) = service::<I>(cpu, bus);
            let before = push_word::<I>(
                Cpu { ime: false, halted: false, ..cpu },
                I::ticked(bus, 1),
                cpu.regs.pc,
            ).1;
            &&& (k == 1 || k == 2 || k == 4 || k == 8 || k == 16)
            &&& I::pending(bus).bits & k == k
            &&& !c.ime
            &&& !c.halted
            &&& c.regs.pc == vector(k)
            &&& c.regs.sp == wrap16(cpu.regs.sp + 0xFFFE)
            &&& b == I::acknowledged(before, InterruptFlag { bits: k })
            &&& I::pending(b).bits == I::pending(before).bits & !k
            &&& I::pending(b).bits & k == 0
        }),
{
    I::lemma_pending(bus);
    let p = I::pending(bus).bits;
    let k = highest_priority(p);
    lemma_priority_bit(p, k);
    let c1 = Cpu { ime: false, halted: false, ..cpu };
    lemma_tick_elapsed::<I>(bus, 1);
    lemma_stack_elapsed::<I>(c1, I::ticked(bus, 1), cpu.regs.pc);
    let before = push_word::<I>(c1, I::ticked(bus, 1), cpu.regs.pc).1;
    I::lemma_acknowledged(before, InterruptFlag { bits: k });
    let q = I::pending(before).bits;
    assert((q & !k) & k == 0) by (bit_vector);
}

/// A step that serves an interrupt leaves IME clear, PC at the vector and
/// the interrupt no longer pending: the steps that follow serve it again
/// only after it was requested again.
pub proof fn lemma_step_serves_once<I: Interface>(cpu: Cpu, bus: I::V)
    requires
        I::valid(bus),
        dispatches::<I>(advance::<I>(cpu, bus).0, advance::<I>(cpu, bus).1),
    ensures
        ({
            let (c1, b1) = advance::<I>(cpu, bus);
            let k = highest_priority(I::pending(b1).bits);
            let (c2, b2) = step::<I>(cpu, bus);
            &&& !c2.ime
            &&& !c2.enabling_ime
            &&& !c2.halted
            &&& c2.regs.pc == vector(k)
            &&& I::pending(b2).bits & k == 0
        }),
{
    let (c1, b1) = advance::<I>(cpu, bus);
    if cpu.halted {
        lemma_tick_elapsed::<I>(bus, 1);
    } else {
        lemma_imm_elapsed::<I>(cpu, bus);
        let (cf, bf) = fetch::<I>(cpu, bus);
        lemma_duration::<I>(cf, bf, decode(cf.cur_opcode));
    }
    lemma_service::<I>(c1, b1);
}

/// A halted processor lets one machine cycle pass in a step. With IME
/// clear it serves nothing: it wakes exactly when an interrupt is pending
/// after that cycle, and PC stays where it is.
pub proof fn lemma_halted_step<I: Interface>(cpu: Cpu, bus: I::V)
    requires
        cpu.halted,
        !cpu.ime,
        !cpu.enabling_ime,
    ensures
        step::<I>(cpu, bus) == (
            Cpu { halted: I::pending(I::ticked(bus, 1)).bits == 0, ..cpu },
            I::ticked(bus, 1),
        ),
{
}

/// EI takes effect after the instruction that follows it: the step that
/// runs EI serves no interrupt, whatever is pending, and ends with IME set.
pub proof fn lemma_ei_is_late<I: Interface>(cpu: Cpu, bus: I::V)
    requires
        !cpu.halted,
        !cpu.ime,
        I::peeked(bus, cpu.regs.pc) == 0xFB,
    ensures
        decode(0xFB) == Instruction::Ei,
        step::<I>(cpu, bus) == (
            Cpu {
                cur_opcode: 0xFB,
                ime: true,
                enabling_ime: false,
                ..cpu.with_pc(wrap16(cpu.regs.pc + 1))
            },
            I::ticked(bus, 1),
        ),
{
    let (c1, b1) = fetch::<I>(cpu, bus);
    lemma_run_inner::<I>(c1, b1, Instruction::Ei);
}

/// DI takes effect at once: the step that runs DI ends with IME clear and
/// no enable pending, and serves no interrupt.
pub proof fn lemma_di_is_immediate<I: Interface>(cpu: Cpu, bus: I::V)
    requires
        !cpu.halted,
        I::peeked(bus, cpu.regs.pc) == 0xF3,
    ensures
        decode(0xF3) == Instruction::Di,
        step::<I>(cpu, bus) == (
            Cpu {
                cur_opcode: 0xF3,
                ime: false,
                enabling_ime: false,
                ..cpu.with_pc(wrap16(cpu.regs.pc + 1))
            },
            I::ticked(bus, 1),
        ),
{
    let (c1, b1) = fetch::<I>(cpu, bus);
    lemma_run_inner::<I>(c1, b1, Instruction::Di);
}

/// `BIT n,r` changes nothing but the flags: Z tells that bit `n` of the
/// register is zero, N is cleared, H is set and C is kept.
pub proof fn lemma_bit_test<I: Interface>(cpu: Cpu, bus: I::V, n: u8, r: Reg)
    ensures
        ({
            let (c, b) = run_extended::<I>(cpu, bus, Extended::TestBit(n, Operand::Reg(r)));
            &&& b == bus
            &&& c.reg(r) == cpu.reg(r)
            &&& c == cpu.with_f(c.regs.f)
            &&& c.regs.f.has_z() == ((cpu.reg(r) >> n) & 1 == 0)
            &&& !c.regs.f.has_n()
            &&& c.regs.f.has_h()
            &&& c.regs.f.has_c() == cpu.regs.f.has_c()
        }),
{
    reveal(run_extended);
    Flags::lemma_flags_of(
        (cpu.reg(r) >> n) & 1 == 0,
        false,
        true,
        cpu.regs.f.has_c(),
    );
}

/// `BIT n,(HL)` reads the byte at HL in one machine cycle and writes
/// nothing.
pub proof fn lemma_bit_test_memory<I: Interface>(cpu: Cpu, bus: I::V, n: u8)
    ensures
        ({
            let (c, b) = run_extended::<I>(
                cpu,
                bus,
                Extended::TestBit(n, Operand::Mem(Address::HL)),
            );
            let value = I::peeked(bus, cpu.regs.pair(Reg16::HL));
            &&& b == I::ticked(bus, 1)
            &&& c == cpu.with_f(c.regs.f)
            &&& c.regs.f.has_z() == ((value >> n) & 1 == 0)
        }),
{
    reveal(run_extended);
    Flags::lemma_flags_of(
        (I::peeked(bus, cpu.regs.pair(Reg16::HL)) >> n) & 1 == 0,
        false,
        true,
        cpu.regs.f.has_c(),
    );
}

} // verus!
