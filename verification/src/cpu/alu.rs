//! What the arithmetic unit computes: each operation as a function from
//! operands and flags to a result and flags.
use vstd::prelude::*;
use crate::bits::lemma_turns;
use super::instructions::{AluOp, Rotate};
use super::registers::{wrap16, Flags};

verus! {

broadcast use crate::cpu::registers::Flags::lemma_flags_of;

/// A carry as a number.
pub open spec fn carry_in(cy: bool) -> int {
    if cy {
        1
    } else {
        0
    }
}

/// A byte taken as a signed offset and extended to a word: the values from
/// 0x80 on stand for the negative offsets.
pub open spec fn signed_offset(value: u8) -> u16 {
    if value < 0x80 {
        value as u16
    } else {
        (0xFF00 + value) as u16
    }
}

/// A number brought back into a byte: the sum or the difference of two bytes
/// and a carry modulo 256.
pub open spec fn wrap8(value: int) -> u8 {
    if value > 0xFF {
        (value - 0x100) as u8
    } else if value < 0 {
        (value + 0x100) as u8
    } else {
        value as u8
    }
}

/// Within their ranges, `wrap8` and `wrap16` are the remainders modulo 256
/// and modulo two to the sixteenth.
pub proof fn lemma_wrap_is_remainder(value: int)
    ensures
        -0x100 <= value < 0x200 ==> wrap8(value) == value % 0x100,
        0 <= value < 0x20000 ==> wrap16(value) == value % 0x10000,
{
}

/// `a + v + cy`: Z from the result, N clear, H the carry out of bit 3, C the
/// carry out of bit 7.
pub open spec fn add8(a: u8, v: u8, cy: bool) -> (u8, Flags) {
    let sum = a + v + carry_in(cy);
    let r = wrap8(sum);
    (r, Flags::of(r == 0, false, a % 16 + v % 16 + carry_in(cy) > 15, sum > 255))
}

/// `a - v - cy`: Z from the result, N set, H the borrow from bit 4, C the
/// borrow from bit 8.
pub open spec fn sub8(a: u8, v: u8, cy: bool) -> (u8, Flags) {
    let r = wrap8(a - v - carry_in(cy));
    (r, Flags::of(r == 0, true, a % 16 < v % 16 + carry_in(cy), a < v + carry_in(cy)))
}

/// The eight operations on the accumulator. CP compares: it gives the flags
/// of SUB and keeps the accumulator.
pub open spec fn alu8(op: AluOp, a: u8, v: u8, f: Flags) -> (u8, Flags) {
    match op {
        AluOp::Add => add8(a, v, false),
        AluOp::Adc => add8(a, v, f.has_c()),
        AluOp::Sub => sub8(a, v, false),
        AluOp::Sbc => sub8(a, v, f.has_c()),
        AluOp::And => (a & v, Flags::of(a & v == 0, false, true, false)),
        AluOp::Xor => (a ^ v, Flags::of(a ^ v == 0, false, false, false)),
        AluOp::Or => (a | v, Flags::of(a | v == 0, false, false, false)),
        AluOp::Cp => (a, sub8(a, v, false).1),
    }
}

/// `v + 1`: C is kept.
pub open spec fn inc8(v: u8, f: Flags) -> (u8, Flags) {
    let r = wrap8(v + 1);
    (r, Flags::of(r == 0, false, v % 16 == 15, f.has_c()))
}

/// `v - 1`: C is kept.
pub open spec fn dec8(v: u8, f: Flags) -> (u8, Flags) {
    let r = wrap8(v - 1);
    (r, Flags::of(r == 0, true, v % 16 == 0, f.has_c()))
}

/// A shift to the left by one with `cy` coming in at bit 0; bit 7 goes to C.
pub open spec fn rotated_left(v: u8, cy: bool) -> (u8, Flags) {
    let r = ((v % 128) * 2 + carry_in(cy)) as u8;
    (r, Flags::of(r == 0, false, false, v >= 128))
}

/// A shift to the right by one with `cy` coming in at bit 7; bit 0 goes to C.
pub open spec fn rotated_right(v: u8, cy: bool) -> (u8, Flags) {
    let r = (carry_in(cy) * 128 + v / 2) as u8;
    (r, Flags::of(r == 0, false, false, v % 2 == 1))
}

/// The four rotations: RLC and RRC turn the byte round in itself, RL and RR
/// turn it round through C.
pub open spec fn rotate8(r: Rotate, v: u8, f: Flags) -> (u8, Flags) {
    match r {
        Rotate::Rlc => rotated_left(v, v >= 128),
        Rotate::Rl => rotated_left(v, f.has_c()),
        Rotate::Rrc => rotated_right(v, v % 2 == 1),
        Rotate::Rr => rotated_right(v, f.has_c()),
    }
}

/// SLA: a shift to the left, zero coming in.
pub open spec fn sla8(v: u8) -> (u8, Flags) {
    let r = ((v % 128) * 2) as u8;
    (r, Flags::of(r == 0, false, false, v >= 128))
}

/// SRA: a shift to the right that keeps bit 7.
pub open spec fn sra8(v: u8) -> (u8, Flags) {
    let r = ((v / 128) * 128 + v / 2) as u8;
    (r, Flags::of(r == 0, false, false, v % 2 == 1))
}

/// SRL: a shift to the right, zero coming in.
pub open spec fn srl8(v: u8) -> (u8, Flags) {
    let r = (v / 2) as u8;
    (r, Flags::of(r == 0, false, false, v % 2 == 1))
}

/// SWAP: the two nibbles change places.
pub open spec fn swap8(v: u8) -> (u8, Flags) {
    let r = ((v % 16) * 16 + v / 16) as u8;
    (r, Flags::of(r == 0, false, false, false))
}

/// BIT: Z tells that bit `n` of `v` is zero; C is kept.
pub open spec fn bit_flags(v: u8, n: u8, f: Flags) -> Flags {
    Flags::of((v >> n) & 1 == 0, false, true, f.has_c())
}

/// SET: `v` with bit `n` set.
pub open spec fn set_bit(v: u8, n: u8) -> u8 {
    v | (1u8 << n)
}

/// RES: `v` with bit `n` cleared.
pub open spec fn res_bit(v: u8, n: u8) -> u8 {
    v & !(1u8 << n)
}

/// DAA: the accumulator brought back to two decimal digits after an
/// addition or a subtraction of such numbers.
pub open spec fn daa8(a: u8, f: Flags) -> (u8, Flags) {
    let low = f.has_h() || (!f.has_n() && a % 16 > 0x09);
    let high = f.has_c() || (!f.has_n() && a > 0x99);
    let adjust = (if low { 0x06int } else { 0 }) + (if high { 0x60int } else { 0 });
    let r = if f.has_n() {
        wrap8(a - adjust)
    } else {
        wrap8(a + adjust)
    };
    (r, Flags::of(r == 0, f.has_n(), false, high))
}

/// CPL: every bit of the accumulator turned over.
pub open spec fn cpl8(a: u8, f: Flags) -> (u8, Flags) {
    ((255 - a) as u8, Flags::of(f.has_z(), true, true, f.has_c()))
}

/// CCF: C turned over.
pub open spec fn ccf_flags(f: Flags) -> Flags {
    Flags::of(f.has_z(), false, false, !f.has_c())
}

/// SCF: C set.
pub open spec fn scf_flags(f: Flags) -> Flags {
    Flags::of(f.has_z(), false, false, true)
}

/// ADD HL,rr: Z is kept, H is the carry out of bit 11, C the carry out of
/// bit 15.
pub open spec fn add16(hl: u16, v: u16, f: Flags) -> (u16, Flags) {
    (wrap16(hl + v), Flags::of(f.has_z(), false, hl % 4096 + v % 4096 > 4095, hl + v > 0xFFFF))
}

/// SP plus a signed byte: H and C are the carries out of bit 3 and bit 7 of
/// the unsigned sum of the two low bytes.
pub open spec fn add_offset(sp: u16, d: u8) -> (u16, Flags) {
    (
        wrap16(sp + signed_offset(d)),
        Flags::of(false, false, sp % 16 + d % 16 > 15, sp % 256 + d > 255),
    )
}

/// Every operation gives well-formed flags.
pub proof fn lemma_flags_wf(op: AluOp, r: Rotate, a: u8, v: u8, n: u8, w: u16, x: u16, f: Flags)
    ensures
        alu8(op, a, v, f).1.wf(),
        inc8(v, f).1.wf(),
        dec8(v, f).1.wf(),
        rotate8(r, v, f).1.wf(),
        sla8(v).1.wf(),
        sra8(v).1.wf(),
        srl8(v).1.wf(),
        swap8(v).1.wf(),
        bit_flags(v, n, f).wf(),
        daa8(a, f).1.wf(),
        cpl8(a, f).1.wf(),
        ccf_flags(f).wf(),
        scf_flags(f).wf(),
        add16(w, x, f).1.wf(),
        add_offset(w, v).1.wf(),
        Flags::of(false, false, false, rotate8(r, v, f).1.has_c()).wf(),
{
    assert forall|z: bool, n: bool, h: bool, c: bool| (#[trigger] Flags::of(z, n, h, c)).wf() by {
        Flags::lemma_flags_of(z, n, h, c);
    }
}

/// RLC: the byte turned round to the left by one bit.
#[verifier::opaque]
pub open spec fn rlc(x: u8) -> u8 {
    rotated_left(x, x >= 128).0
}

/// RRC: the byte turned round to the right by one bit.
#[verifier::opaque]
pub open spec fn rrc(x: u8) -> u8 {
    rotated_right(x, x % 2 == 1).0
}

/// `ADD A,x` followed by `SUB x` gives back the accumulator, whatever the
/// flags were.
pub proof fn lemma_add_then_sub(a: u8, x: u8, f: Flags)
    ensures
        ({
            let (sum, g) = alu8(AluOp::Add, a, x, f);
            alu8(AluOp::Sub, sum, x, g).0 == a
        }),
{
}

/// RLC does not look at the flags.
pub proof fn lemma_rlc_ignores_flags(x: u8, f: Flags)
    ensures
        rotate8(Rotate::Rlc, x, f).0 == rlc(x),
        rotate8(Rotate::Rrc, x, f).0 == rrc(x),
{
    reveal(rlc);
    reveal(rrc);
}

/// RLC and RRC in terms of shifts.
pub proof fn lemma_turn_bits(x: u8)
    ensures
        rlc(x) == (x << 1) | (x >> 7),
        rrc(x) == (x >> 1) | (x << 7),
{
    reveal(rlc);
    reveal(rrc);
    lemma_turns(x);
}

/// Eight RLC in a row give back the byte.
pub proof fn lemma_eight_rlc(x: u8)
    ensures
        rlc(rlc(rlc(rlc(rlc(rlc(rlc(rlc(x)))))))) == x,
{
    let a = (x << 1) | (x >> 7);
    let b = (a << 1) | (a >> 7);
    let c = (b << 1) | (b >> 7);
    let d = (c << 1) | (c >> 7);
    let e = (d << 1) | (d >> 7);
    let g = (e << 1) | (e >> 7);
    let h = (g << 1) | (g >> 7);
    lemma_turns(x);
    lemma_turn_bits(x);
    lemma_turn_bits(a);
    lemma_turn_bits(b);
    lemma_turn_bits(c);
    lemma_turn_bits(d);
    lemma_turn_bits(e);
    lemma_turn_bits(g);
    lemma_turn_bits(h);
    assert(rlc(x) == a);
    assert(rlc(a) == b);
    assert(rlc(b) == c);
    assert(rlc(c) == d);
    assert(rlc(d) == e);
    assert(rlc(e) == g);
    assert(rlc(g) == h);
    assert(rlc(h) == x);
}

/// Eight RRC in a row give back the byte.
pub proof fn lemma_eight_rrc(x: u8)
    ensures
        rrc(rrc(rrc(rrc(rrc(rrc(rrc(rrc(x)))))))) == x,
{
    let a = (x >> 1) | (x << 7);
    let b = (a >> 1) | (a << 7);
    let c = (b >> 1) | (b << 7);
    let d = (c >> 1) | (c << 7);
    let e = (d >> 1) | (d << 7);
    let g = (e >> 1) | (e << 7);
    let h = (g >> 1) | (g << 7);
    lemma_turns(x);
    lemma_turn_bits(x);
    lemma_turn_bits(a);
    lemma_turn_bits(b);
    lemma_turn_bits(c);
    lemma_turn_bits(d);
    lemma_turn_bits(e);
    lemma_turn_bits(g);
    lemma_turn_bits(h);
    assert(rrc(x) == a);
    assert(rrc(a) == b);
    assert(rrc(b) == c);
    assert(rrc(c) == d);
    assert(rrc(d) == e);
    assert(rrc(e) == g);
    assert(rrc(g) == h);
    assert(rrc(h) == x);
}

/// SWAP twice gives back the byte, with the flags of the byte: Z where it
/// is zero, and nothing else.
pub proof fn lemma_swap_twice(x: u8)
    ensures
        swap8(swap8(x).0) == (x, Flags::of(x == 0, false, false, false)),
{
}

/// CPL twice gives back the accumulator, and N and H stay set.
pub proof fn lemma_cpl_twice(a: u8, f: Flags)
    ensures
        ({
            let (b, g) = cpl8(a, f);
            let (c, h) = cpl8(b, g);
            c == a && h.has_n() && h.has_h() && g.has_n() && g.has_h()
        }),
{
}

/// CCF twice gives back C, with N and H clear.
pub proof fn lemma_ccf_twice(f: Flags)
    ensures
        ccf_flags(ccf_flags(f)).has_c() == f.has_c(),
        !ccf_flags(ccf_flags(f)).has_n(),
        !ccf_flags(ccf_flags(f)).has_h(),
        !ccf_flags(f).has_n(),
        !ccf_flags(f).has_h(),
{
}

/// INC of 0xFF gives zero with Z and H set and N clear; DEC of zero gives
/// 0xFF with H and N set and Z clear. Both keep C.
pub proof fn lemma_inc_dec_wrap(f: Flags)
    ensures
        inc8(0xFF, f) == (0x00u8, Flags::of(true, false, true, f.has_c())),
        dec8(0x00, f) == (0xFFu8, Flags::of(false, true, true, f.has_c())),
{
}

/// INC sets H exactly when the lower nibble runs over.
pub proof fn lemma_inc_half_carry(v: u8, f: Flags)
    ensures
        inc8(v, f).1.has_h() == (v % 16 == 15),
        inc8(v, f).1.has_c() == f.has_c(),
        !inc8(v, f).1.has_n(),
        inc8(v, f).1.has_z() == (v == 0xFF),
{
}

/// `ADD HL,HL` doubles HL: H is the carry out of bit 11 and C the carry out
/// of bit 15.
pub proof fn lemma_add_hl_hl(hl: u16, f: Flags)
    ensures
        add16(hl, hl, f) == (
            wrap16(2 * hl),
            Flags::of(f.has_z(), false, 2 * (hl % 4096) > 4095, 2 * hl > 0xFFFF),
        ),
{
}

/// SP plus the offset zero is SP, with every flag clear.
pub proof fn lemma_add_offset_zero(sp: u16)
    ensures
        add_offset(sp, 0) == (sp, Flags::of(false, false, false, false)),
{
}

} // verus!
