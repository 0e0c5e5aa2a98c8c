use gboxyde::cpu::instructions::{Dst, Rotate, Src};
use gboxyde::cpu::registers::{Flags, Reg, Reg16};
use gboxyde::cpu::rw::{Address, Imm};
use gboxyde::cpu::{Cpu, Interface};
use gboxyde::gameboy::Gameboy;

const START: u16 = 0x0150;

fn machine(program: &[u8]) -> Gameboy {
    let mut rom = vec![0u8; 0x8000];
    rom[START as usize..START as usize + program.len()].copy_from_slice(program);
    let mut gb = Gameboy::new(rom);
    gb.cpu.regs.pc = START;
    gb.cpu.regs.f = Flags::empty();
    gb
}

fn step(gb: &mut Gameboy) -> u64 {
    assert_eq!(gb.cpu.fatal_opcode(&gb.bus), None);
    let before = gb.bus.cycles();
    gb.cpu.step(&mut gb.bus);
    assert_eq!(gb.cpu.regs.f.bits() & 0x0F, 0);
    assert!(gb.bus.cycles() > before);
    gb.bus.cycles() - before
}

fn flag_bits(gb: &Gameboy) -> u8 {
    gb.cpu.regs.f.bits()
}

#[test]
fn machine_is_built_at_power_on() {
    let gb = Gameboy::new(vec![0u8; 0x8000]);
    assert_eq!(gb.cpu.regs.pc, 0x0100);
    assert_eq!(gb.cpu.regs.sp, 0xFFFE);
    assert_eq!(gb.bus.cycles(), 0);
    assert_eq!(gb.bus.peek(0xFF04), 0xAB);
    assert_eq!(gb.bus.peek(0xFF0F), 0x00);
    assert_eq!(gb.bus.cartridge().header.cart_type, "ROM ONLY");
}

#[test]
fn nop_takes_one_cycle_and_one_byte() {
    let mut gb = machine(&[0x00, 0x00]);
    assert_eq!(step(&mut gb), 1);
    assert_eq!(gb.cpu.regs.pc, START + 1);
    assert_eq!(gb.cpu.cur_opcode, 0x00);
    assert_eq!(step(&mut gb), 1);
    assert_eq!(gb.cpu.regs.pc, START + 2);
}

#[test]
fn pc_moves_by_the_length_of_the_instruction() {
    // LD BC,0x1234 ; LD A,0x56 ; LD (0xC000),A ; LDH (0x80),A ; SWAP A ; INC (HL)
    let mut gb = machine(&[0x01, 0x34, 0x12, 0x3E, 0x56, 0xEA, 0x00, 0xC0, 0xE0, 0x80, 0xCB, 0x37, 0x34]);
    gb.cpu.regs.set_hl(0xC000);
    assert_eq!(step(&mut gb), 3);
    assert_eq!(gb.cpu.regs.pc, START + 3);
    assert_eq!(gb.cpu.regs.bc(), 0x1234);
    assert_eq!(step(&mut gb), 2);
    assert_eq!(gb.cpu.regs.pc, START + 5);
    assert_eq!(gb.cpu.regs.a, 0x56);
    assert_eq!(step(&mut gb), 4);
    assert_eq!(gb.cpu.regs.pc, START + 8);
    assert_eq!(gb.bus.peek(0xC000), 0x56);
    assert_eq!(step(&mut gb), 3);
    assert_eq!(gb.cpu.regs.pc, START + 10);
    assert_eq!(gb.bus.peek(0xFF80), 0x56);
    assert_eq!(step(&mut gb), 2);
    assert_eq!(gb.cpu.regs.pc, START + 12);
    assert_eq!(gb.cpu.regs.a, 0x65);
    assert_eq!(step(&mut gb), 3);
    assert_eq!(gb.cpu.regs.pc, START + 13);
    assert_eq!(gb.bus.peek(0xC000), 0x57);
}

#[test]
fn pc_wraps_at_the_end_of_memory() {
    let mut gb = machine(&[]);
    gb.bus.set(0xFFFF, 0x00);
    gb.cpu.regs.pc = 0xFFFF;
    assert_eq!(step(&mut gb), 1);
    assert_eq!(gb.cpu.regs.pc, 0x0000);
}

#[test]
fn interrupt_priority() {
    // STAT and JOYPAD pending
    let mut gb = machine(&[0x00]);
    gb.bus.set(0xFF0F, 0b0001_0010);
    gb.bus.set(0xFFFF, 0b0001_1111);
    gb.cpu.ime = true;
    gb.cpu.regs.sp = 0xD000;
    assert_eq!(step(&mut gb), 5);
    assert_eq!(gb.cpu.regs.pc, 0x0048);
    assert_eq!(gb.bus.peek(0xFF0F), 0b0001_0000);
    assert!(!gb.cpu.ime);
    assert_eq!(gb.cpu.regs.sp, 0xCFFE);
    assert_eq!(gb.bus.peek(0xCFFE), 0x51);
    assert_eq!(gb.bus.peek(0xCFFF), 0x01);
}

#[test]
fn interrupt_priority_with_timer_and_joypad() {
    let mut gb = machine(&[0x00]);
    gb.bus.set(0xFF0F, 0b0001_0100);
    gb.bus.set(0xFFFF, 0b0001_1111);
    gb.cpu.ime = true;
    gb.cpu.regs.sp = 0xD000;
    step(&mut gb);
    assert_eq!(gb.cpu.regs.pc, 0x0050);
    assert_eq!(gb.bus.peek(0xFF0F), 0b0001_0000);
    assert!(!gb.cpu.ime);
}

#[test]
fn every_interrupt_has_its_vector() {
    let vectors = [(0x01u8, 0x0040u16), (0x02, 0x0048), (0x04, 0x0050), (0x08, 0x0058), (0x10, 0x0060)];
    for (kind, vector) in vectors {
        let mut gb = machine(&[0x00]);
        gb.bus.set(0xFF0F, kind);
        gb.bus.set(0xFFFF, 0x1F);
        gb.cpu.ime = true;
        gb.cpu.regs.sp = 0xD000;
        step(&mut gb);
        assert_eq!(gb.cpu.regs.pc, vector);
        assert_eq!(gb.bus.peek(0xFF0F), 0x00);
    }
}

#[test]
fn a_disabled_interrupt_is_not_served() {
    let mut gb = machine(&[0x00, 0x00]);
    gb.bus.set(0xFF0F, 0x01);
    gb.bus.set(0xFFFF, 0x02);
    gb.cpu.ime = true;
    assert_eq!(step(&mut gb), 1);
    assert_eq!(gb.cpu.regs.pc, START + 1);
    assert_eq!(gb.bus.peek(0xFF0F), 0x01);
    assert!(gb.cpu.ime);
    // enabled, but IME off
    gb.bus.set(0xFFFF, 0x01);
    gb.cpu.ime = false;
    assert_eq!(step(&mut gb), 1);
    assert_eq!(gb.cpu.regs.pc, START + 2);
    assert_eq!(gb.bus.peek(0xFF0F), 0x01);
}

#[test]
fn a_served_interrupt_is_not_served_again() {
    // at the vector: RETI
    let mut gb = machine(&[0x00, 0x00]);
    gb.bus.set(0x0040, 0xD9);
    gb.bus.set(0xFF0F, 0x01);
    gb.bus.set(0xFFFF, 0x01);
    gb.cpu.ime = true;
    gb.cpu.regs.sp = 0xD000;
    step(&mut gb);
    assert_eq!(gb.cpu.regs.pc, 0x0040);
    assert_eq!(gb.bus.check_interrupts().bits(), 0x00);
    // RETI sets IME; nothing is pending, so nothing is served
    assert_eq!(step(&mut gb), 4);
    assert!(gb.cpu.ime);
    assert_eq!(gb.cpu.regs.pc, START + 1);
    assert_eq!(gb.cpu.regs.sp, 0xD000);
    // requested again, it is served again
    gb.bus.set(0xFF0F, 0x01);
    step(&mut gb);
    assert_eq!(gb.cpu.regs.pc, 0x0040);
}

#[test]
fn halt_wakes_on_pending_interrupt() {
    let mut gb = machine(&[0x76, 0x3C]);
    gb.bus.set(0xFFFF, 0x04);
    gb.bus.set(0xFF0F, 0x00);
    assert_eq!(step(&mut gb), 1);
    assert!(gb.cpu.halted);
    assert_eq!(gb.cpu.regs.pc, START + 1);
    // nothing pending: the processor stays halted while time passes
    assert_eq!(step(&mut gb), 1);
    assert!(gb.cpu.halted);
    assert_eq!(gb.cpu.regs.pc, START + 1);
    gb.bus.set(0xFF0F, 0x04);
    assert_eq!(step(&mut gb), 1);
    assert!(!gb.cpu.halted);
    assert!(!gb.cpu.ime);
    assert_eq!(gb.cpu.regs.pc, START + 1);
    assert_eq!(gb.bus.peek(0xFF0F), 0x04);
    // the instruction behind HALT is fetched next
    gb.cpu.regs.a = 0x00;
    step(&mut gb);
    assert_eq!(gb.cpu.regs.a, 0x01);
    assert_eq!(gb.cpu.regs.pc, START + 2);
}

#[test]
fn halt_wakes_when_the_timer_raises_its_interrupt() {
    let mut gb = machine(&[0x76, 0x00]);
    gb.bus.set(0xFF04, 0x00);
    gb.bus.set(0xFF05, 0xFE);
    gb.bus.set(0xFF07, 0x05);
    gb.bus.set(0xFFFF, 0x04);
    step(&mut gb);
    assert!(gb.cpu.halted);
    step(&mut gb);
    step(&mut gb);
    assert!(gb.cpu.halted);
    // the fourth machine cycle brings the divider to sixteen
    step(&mut gb);
    assert!(!gb.cpu.halted);
    assert_eq!(gb.bus.peek(0xFF0F), 0x04);
}

#[test]
fn a_halted_processor_is_woken_and_served_with_ime_set() {
    let mut gb = machine(&[0x76, 0x00]);
    gb.bus.set(0xFFFF, 0x01);
    gb.cpu.ime = true;
    gb.cpu.regs.sp = 0xD000;
    step(&mut gb);
    assert!(gb.cpu.halted);
    gb.bus.set(0xFF0F, 0x01);
    assert_eq!(step(&mut gb), 5);
    assert!(!gb.cpu.halted);
    assert_eq!(gb.cpu.regs.pc, 0x0040);
    assert_eq!(gb.bus.peek(0xCFFE), 0x51);
}

#[test]
fn ei_takes_effect_after_the_next_instruction() {
    // EI ; NOP ; NOP
    let mut gb = machine(&[0xFB, 0x00, 0x00]);
    gb.bus.set(0xFF0F, 0x01);
    gb.bus.set(0xFFFF, 0x01);
    gb.cpu.regs.sp = 0xD000;
    step(&mut gb);
    // no service right behind EI
    assert_eq!(gb.cpu.regs.pc, START + 1);
    assert_eq!(gb.bus.peek(0xFF0F), 0x01);
    step(&mut gb);
    // the instruction behind EI has run; now the interrupt is served
    assert_eq!(gb.cpu.regs.pc, 0x0040);
    assert_eq!(gb.bus.peek(0xCFFE), 0x52);
    assert!(!gb.cpu.ime);
    assert!(!gb.cpu.enabling_ime);
}

#[test]
fn di_behind_ei_keeps_interrupts_off() {
    // EI ; DI ; NOP
    let mut gb = machine(&[0xFB, 0xF3, 0x00]);
    gb.bus.set(0xFF0F, 0x01);
    gb.bus.set(0xFFFF, 0x01);
    step(&mut gb);
    step(&mut gb);
    assert!(!gb.cpu.ime);
    assert!(!gb.cpu.enabling_ime);
    step(&mut gb);
    assert_eq!(gb.cpu.regs.pc, START + 3);
    assert_eq!(gb.bus.peek(0xFF0F), 0x01);
}

#[test]
fn push_then_pop_gives_back_the_pair() {
    // PUSH BC ; POP BC
    let mut gb = machine(&[0xC5, 0xC1]);
    gb.cpu.regs.set_bc(0x1234);
    gb.cpu.regs.sp = 0xD000;
    gb.bus.set(0xCFFD, 0xEE);
    gb.bus.set(0xD000, 0xDD);
    let before = gb.cpu.regs;
    assert_eq!(step(&mut gb), 4);
    assert_eq!(gb.cpu.regs.sp, 0xCFFE);
    assert_eq!(gb.bus.peek(0xCFFE), 0x34);
    assert_eq!(gb.bus.peek(0xCFFF), 0x12);
    assert_eq!(step(&mut gb), 3);
    assert_eq!(gb.cpu.regs.sp, 0xD000);
    assert_eq!(gb.cpu.regs.bc(), 0x1234);
    assert_eq!(gb.cpu.regs.a, before.a);
    assert_eq!(gb.cpu.regs.hl(), before.hl());
    assert_eq!(gb.cpu.regs.de(), before.de());
    assert_eq!(gb.bus.peek(0xCFFD), 0xEE);
    assert_eq!(gb.bus.peek(0xD000), 0xDD);
}

#[test]
fn pop_af_clears_the_lower_nibble_of_f() {
    // POP AF ; PUSH AF
    let mut gb = machine(&[0xF1, 0xF5]);
    gb.cpu.regs.sp = 0xC100;
    gb.bus.set(0xC100, 0xFF);
    gb.bus.set(0xC101, 0x12);
    step(&mut gb);
    assert_eq!(gb.cpu.regs.a, 0x12);
    assert_eq!(flag_bits(&gb), 0xF0);
    assert_eq!(gb.cpu.regs.sp, 0xC102);
    step(&mut gb);
    assert_eq!(gb.bus.peek(0xC100), 0xF0);
    assert_eq!(gb.bus.peek(0xC101), 0x12);
}

#[test]
fn jp_hl_costs_one_cycle() {
    let mut gb = machine(&[0xE9]);
    gb.cpu.regs.set_hl(0x0200);
    assert_eq!(step(&mut gb), 1);
    assert_eq!(gb.cpu.regs.pc, 0x0200);
}

#[test]
fn jp_costs_four_cycles() {
    let mut gb = machine(&[0xC3, 0x00, 0x02]);
    assert_eq!(step(&mut gb), 4);
    assert_eq!(gb.cpu.regs.pc, 0x0200);
}

#[test]
fn conditional_jumps_cost_more_when_taken() {
    // JP Z,0x0200
    let mut gb = machine(&[0xCA, 0x00, 0x02]);
    assert_eq!(step(&mut gb), 3);
    assert_eq!(gb.cpu.regs.pc, START + 3);
    let mut gb = machine(&[0xCA, 0x00, 0x02]);
    gb.cpu.regs.f = Flags::z();
    assert_eq!(step(&mut gb), 4);
    assert_eq!(gb.cpu.regs.pc, 0x0200);
    // JR NC,-2
    let mut gb = machine(&[0x30, 0xFE]);
    assert_eq!(step(&mut gb), 3);
    assert_eq!(gb.cpu.regs.pc, START);
    let mut gb = machine(&[0x30, 0xFE]);
    gb.cpu.regs.f = Flags::c();
    assert_eq!(step(&mut gb), 2);
    assert_eq!(gb.cpu.regs.pc, START + 2);
    // JR +5
    let mut gb = machine(&[0x18, 0x05]);
    assert_eq!(step(&mut gb), 3);
    assert_eq!(gb.cpu.regs.pc, START + 7);
}

#[test]
fn ret_cond_takes_one_internal_cycle_either_way() {
    // RET NZ
    let mut gb = machine(&[0xC0]);
    gb.cpu.regs.sp = 0xC000;
    gb.bus.set(0xC000, 0x00);
    gb.bus.set(0xC001, 0x02);
    gb.cpu.regs.f = Flags::z();
    assert_eq!(step(&mut gb), 2);
    assert_eq!(gb.cpu.regs.pc, START + 1);
    assert_eq!(gb.cpu.regs.sp, 0xC000);

    let mut gb = machine(&[0xC0]);
    gb.cpu.regs.sp = 0xC000;
    gb.bus.set(0xC000, 0x00);
    gb.bus.set(0xC001, 0x02);
    assert_eq!(step(&mut gb), 5);
    assert_eq!(gb.cpu.regs.pc, 0x0200);
    assert_eq!(gb.cpu.regs.sp, 0xC002);
}

#[test]
fn call_and_ret() {
    // CALL 0x0200 ... at 0x0200: RET
    let mut gb = machine(&[0xCD, 0x00, 0x02, 0x00]);
    gb.bus.set(0x0200, 0xC9);
    gb.cpu.regs.sp = 0xD000;
    assert_eq!(step(&mut gb), 6);
    assert_eq!(gb.cpu.regs.pc, 0x0200);
    assert_eq!(gb.cpu.regs.sp, 0xCFFE);
    assert_eq!(gb.bus.peek(0xCFFE), 0x53);
    assert_eq!(gb.bus.peek(0xCFFF), 0x01);
    assert_eq!(step(&mut gb), 4);
    assert_eq!(gb.cpu.regs.pc, START + 3);
    assert_eq!(gb.cpu.regs.sp, 0xD000);
}

#[test]
fn conditional_call() {
    // CALL C,0x0300
    let mut gb = machine(&[0xDC, 0x00, 0x03]);
    gb.cpu.regs.sp = 0xD000;
    assert_eq!(step(&mut gb), 3);
    assert_eq!(gb.cpu.regs.pc, START + 3);
    assert_eq!(gb.cpu.regs.sp, 0xD000);
    let mut gb = machine(&[0xDC, 0x00, 0x03]);
    gb.cpu.regs.sp = 0xD000;
    gb.cpu.regs.f = Flags::c();
    assert_eq!(step(&mut gb), 6);
    assert_eq!(gb.cpu.regs.pc, 0x0300);
    assert_eq!(gb.cpu.regs.sp, 0xCFFE);
}

#[test]
fn rst_calls_the_address_in_its_opcode() {
    let targets = [(0xC7u8, 0x00u16), (0xCF, 0x08), (0xD7, 0x10), (0xDF, 0x18), (0xE7, 0x20), (0xEF, 0x28), (0xF7, 0x30), (0xFF, 0x38)];
    for (opcode, target) in targets {
        let mut gb = machine(&[opcode]);
        gb.cpu.regs.sp = 0xD000;
        assert_eq!(step(&mut gb), 4);
        assert_eq!(gb.cpu.regs.pc, target);
        assert_eq!(gb.bus.peek(0xCFFE), 0x51);
        assert_eq!(gb.bus.peek(0xCFFF), 0x01);
    }
}

#[test]
fn reti_returns_and_sets_ime() {
    let mut gb = machine(&[0xD9]);
    gb.cpu.regs.sp = 0xC000;
    gb.bus.set(0xC000, 0x34);
    gb.bus.set(0xC001, 0x12);
    assert_eq!(step(&mut gb), 4);
    assert_eq!(gb.cpu.regs.pc, 0x1234);
    assert!(gb.cpu.ime);
}

#[test]
fn add_hl_hl_doubles_hl() {
    let cases = [(0x0800u16, 0x1000u16, 0x20u8), (0x8000, 0x0000, 0x10), (0x8800, 0x1000, 0x30), (0x0001, 0x0002, 0x00)];
    for (hl, result, f) in cases {
        let mut gb = machine(&[0x29]);
        gb.cpu.regs.set_hl(hl);
        assert_eq!(step(&mut gb), 2);
        assert_eq!(gb.cpu.regs.hl(), result);
        assert_eq!(flag_bits(&gb), f);
    }
    // Z is kept
    let mut gb = machine(&[0x29]);
    gb.cpu.regs.f = Flags::z().union(Flags::n());
    gb.cpu.regs.set_hl(0x0001);
    step(&mut gb);
    assert_eq!(flag_bits(&gb), 0x80);
}

#[test]
fn add_hl_rr_adds_a_pair() {
    // ADD HL,BC ; ADD HL,SP
    let mut gb = machine(&[0x09, 0x39]);
    gb.cpu.regs.set_hl(0x8A23);
    gb.cpu.regs.set_bc(0x0605);
    gb.cpu.regs.sp = 0x7000;
    step(&mut gb);
    assert_eq!(gb.cpu.regs.hl(), 0x9028);
    assert_eq!(flag_bits(&gb), 0x20);
    step(&mut gb);
    assert_eq!(gb.cpu.regs.hl(), 0x0028);
    assert_eq!(flag_bits(&gb), 0x10);
}

#[test]
fn ld_hl_sp_plus_zero() {
    // LD HL,SP+0
    let mut gb = machine(&[0xF8, 0x00]);
    gb.cpu.regs.sp = 0xABCD;
    gb.cpu.regs.f = Flags::from_bits_truncate(0xF0);
    assert_eq!(step(&mut gb), 3);
    assert_eq!(gb.cpu.regs.hl(), 0xABCD);
    assert_eq!(gb.cpu.regs.sp, 0xABCD);
    assert_eq!(flag_bits(&gb), 0x00);
}

#[test]
fn sp_plus_signed_offset() {
    // LD HL,SP+2
    let mut gb = machine(&[0xF8, 0x02]);
    gb.cpu.regs.sp = 0xFFF8;
    step(&mut gb);
    assert_eq!(gb.cpu.regs.hl(), 0xFFFA);
    assert_eq!(flag_bits(&gb), 0x00);
    // LD HL,SP-1: the low bytes 0x00 and 0xFF carry nowhere
    let mut gb = machine(&[0xF8, 0xFF]);
    gb.cpu.regs.sp = 0x1000;
    step(&mut gb);
    assert_eq!(gb.cpu.regs.hl(), 0x0FFF);
    assert_eq!(flag_bits(&gb), 0x00);
    // ADD SP,-1 from 0x0001: both carries
    let mut gb = machine(&[0xE8, 0xFF]);
    gb.cpu.regs.sp = 0x0001;
    assert_eq!(step(&mut gb), 4);
    assert_eq!(gb.cpu.regs.sp, 0x0000);
    assert_eq!(flag_bits(&gb), 0x30);
    // ADD SP,8 from 0x00F8: both carries again
    let mut gb = machine(&[0xE8, 0x08]);
    gb.cpu.regs.sp = 0x00F8;
    step(&mut gb);
    assert_eq!(gb.cpu.regs.sp, 0x0100);
    assert_eq!(flag_bits(&gb), 0x30);
}

#[test]
fn sixteen_bit_loads() {
    // LD SP,0xD123 ; LD (0xC010),SP ; LD HL,0xC020 ; LD SP,HL
    let mut gb = machine(&[0x31, 0x23, 0xD1, 0x08, 0x10, 0xC0, 0x21, 0x20, 0xC0, 0xF9]);
    assert_eq!(step(&mut gb), 3);
    assert_eq!(gb.cpu.regs.sp, 0xD123);
    assert_eq!(step(&mut gb), 5);
    assert_eq!(gb.bus.peek(0xC010), 0x23);
    assert_eq!(gb.bus.peek(0xC011), 0xD1);
    assert_eq!(step(&mut gb), 3);
    assert_eq!(step(&mut gb), 2);
    assert_eq!(gb.cpu.regs.sp, 0xC020);
}

#[test]
fn sixteen_bit_inc_and_dec_set_no_flags() {
    // INC BC ; DEC DE ; INC SP ; DEC HL
    let mut gb = machine(&[0x03, 0x1B, 0x33, 0x2B]);
    gb.cpu.regs.set_bc(0xFFFF);
    gb.cpu.regs.set_de(0x0000);
    gb.cpu.regs.sp = 0x00FF;
    gb.cpu.regs.set_hl(0x0100);
    gb.cpu.regs.f = Flags::from_bits_truncate(0xF0);
    assert_eq!(step(&mut gb), 2);
    assert_eq!(gb.cpu.regs.bc(), 0x0000);
    assert_eq!(step(&mut gb), 2);
    assert_eq!(gb.cpu.regs.de(), 0xFFFF);
    step(&mut gb);
    assert_eq!(gb.cpu.regs.sp, 0x0100);
    step(&mut gb);
    assert_eq!(gb.cpu.regs.hl(), 0x00FF);
    assert_eq!(flag_bits(&gb), 0xF0);
}

#[test]
fn loads_through_hl_with_increment_and_decrement() {
    // LD (HL+),A ; LD (HL-),A ; LD A,(HL+) ; LD A,(HL-)
    let mut gb = machine(&[0x22, 0x32, 0x2A, 0x3A]);
    gb.cpu.regs.set_hl(0xC000);
    gb.cpu.regs.a = 0x77;
    assert_eq!(step(&mut gb), 2);
    assert_eq!(gb.bus.peek(0xC000), 0x77);
    assert_eq!(gb.cpu.regs.hl(), 0xC001);
    gb.cpu.regs.a = 0x88;
    step(&mut gb);
    assert_eq!(gb.bus.peek(0xC001), 0x88);
    assert_eq!(gb.cpu.regs.hl(), 0xC000);
    step(&mut gb);
    assert_eq!(gb.cpu.regs.a, 0x77);
    assert_eq!(gb.cpu.regs.hl(), 0xC001);
    step(&mut gb);
    assert_eq!(gb.cpu.regs.a, 0x88);
    assert_eq!(gb.cpu.regs.hl(), 0xC000);
}

#[test]
fn loads_through_the_page_at_ff00() {
    // LDH (0x85),A ; LD (C),A ; LDH A,(0x86) ; LD A,(C) ; LD A,(0xFF85)
    let mut gb = machine(&[0xE0, 0x85, 0xE2, 0xF0, 0x86, 0xF2, 0xFA, 0x85, 0xFF]);
    gb.cpu.regs.a = 0x5A;
    gb.cpu.regs.c = 0x86;
    assert_eq!(step(&mut gb), 3);
    assert_eq!(gb.bus.peek(0xFF85), 0x5A);
    gb.cpu.regs.a = 0xA5;
    assert_eq!(step(&mut gb), 2);
    assert_eq!(gb.bus.peek(0xFF86), 0xA5);
    gb.cpu.regs.a = 0x00;
    assert_eq!(step(&mut gb), 3);
    assert_eq!(gb.cpu.regs.a, 0xA5);
    gb.cpu.regs.a = 0x00;
    assert_eq!(step(&mut gb), 2);
    assert_eq!(gb.cpu.regs.a, 0xA5);
    assert_eq!(step(&mut gb), 4);
    assert_eq!(gb.cpu.regs.a, 0x5A);
}

#[test]
fn loads_between_registers() {
    // LD B,A ; LD C,B ; LD (HL),C ; LD D,(HL) ; LD (HL),0x99 ; LD E,(HL) ; LD A,(BC) ; LD (DE),A
    let mut gb = machine(&[0x47, 0x48, 0x71, 0x56, 0x36, 0x99, 0x5E, 0x0A, 0x12]);
    gb.cpu.regs.a = 0xC0;
    gb.cpu.regs.set_hl(0xC0C0);
    assert_eq!(step(&mut gb), 1);
    assert_eq!(step(&mut gb), 1);
    assert_eq!((gb.cpu.regs.b, gb.cpu.regs.c), (0xC0, 0xC0));
    assert_eq!(step(&mut gb), 2);
    assert_eq!(gb.bus.peek(0xC0C0), 0xC0);
    assert_eq!(step(&mut gb), 2);
    assert_eq!(gb.cpu.regs.d, 0xC0);
    assert_eq!(step(&mut gb), 3);
    assert_eq!(gb.bus.peek(0xC0C0), 0x99);
    step(&mut gb);
    assert_eq!(gb.cpu.regs.e, 0x99);
    step(&mut gb);
    assert_eq!(gb.cpu.regs.a, 0x99);
    step(&mut gb);
    assert_eq!(gb.bus.peek(0xC099), 0x99);
}

#[test]
fn arithmetic_on_a() {
    // ADD A,0x27 ; DAA ; SUB B ; AND 0x0F ; OR C ; XOR A ; CP 0x01 ; ADC A,(HL) ; SBC A,D
    let mut gb = machine(&[0xC6, 0x27, 0x27, 0x90, 0xE6, 0x0F, 0xB1, 0xAF, 0xFE, 0x01, 0x8E, 0x9A]);
    gb.cpu.regs.a = 0x15;
    gb.cpu.regs.b = 0x02;
    gb.cpu.regs.c = 0xF0;
    gb.cpu.regs.d = 0x01;
    gb.cpu.regs.set_hl(0xC000);
    gb.bus.set(0xC000, 0x0F);
    assert_eq!(step(&mut gb), 2);
    assert_eq!(gb.cpu.regs.a, 0x3C);
    step(&mut gb);
    assert_eq!(gb.cpu.regs.a, 0x42);
    assert_eq!(flag_bits(&gb), 0x00);
    step(&mut gb);
    assert_eq!(gb.cpu.regs.a, 0x40);
    assert_eq!(flag_bits(&gb), 0x40);
    step(&mut gb);
    assert_eq!(gb.cpu.regs.a, 0x00);
    assert_eq!(flag_bits(&gb), 0xA0);
    step(&mut gb);
    assert_eq!(gb.cpu.regs.a, 0xF0);
    assert_eq!(flag_bits(&gb), 0x00);
    step(&mut gb);
    assert_eq!(gb.cpu.regs.a, 0x00);
    assert_eq!(flag_bits(&gb), 0x80);
    step(&mut gb);
    assert_eq!(gb.cpu.regs.a, 0x00);
    assert_eq!(flag_bits(&gb), 0x70);
    assert_eq!(step(&mut gb), 2);
    assert_eq!(gb.cpu.regs.a, 0x10);
    assert_eq!(flag_bits(&gb), 0x20);
    step(&mut gb);
    assert_eq!(gb.cpu.regs.a, 0x0F);
    assert_eq!(flag_bits(&gb), 0x60);
}

#[test]
fn inc_and_dec_on_registers_and_memory() {
    // INC A ; DEC B ; INC (HL) ; DEC (HL)
    let mut gb = machine(&[0x3C, 0x05, 0x34, 0x35]);
    gb.cpu.regs.a = 0x0F;
    gb.cpu.regs.b = 0x00;
    gb.cpu.regs.set_hl(0xC000);
    gb.bus.set(0xC000, 0xFF);
    gb.cpu.regs.f = Flags::c();
    assert_eq!(step(&mut gb), 1);
    assert_eq!(gb.cpu.regs.a, 0x10);
    assert_eq!(flag_bits(&gb), 0x30);
    step(&mut gb);
    assert_eq!(gb.cpu.regs.b, 0xFF);
    assert_eq!(flag_bits(&gb), 0x70);
    assert_eq!(step(&mut gb), 3);
    assert_eq!(gb.bus.peek(0xC000), 0x00);
    assert_eq!(flag_bits(&gb), 0xB0);
    assert_eq!(step(&mut gb), 3);
    assert_eq!(gb.bus.peek(0xC000), 0xFF);
    assert_eq!(flag_bits(&gb), 0x70);
}

#[test]
fn rlc_eight_times_gives_back_the_byte() {
    for value in [0x00u8, 0x01, 0x5A, 0x80, 0xFF] {
        // RLC B, eight times
        let mut gb = machine(&[0xCB, 0x00, 0xCB, 0x00, 0xCB, 0x00, 0xCB, 0x00, 0xCB, 0x00, 0xCB, 0x00, 0xCB, 0x00, 0xCB, 0x00]);
        gb.cpu.regs.b = value;
        for _ in 0..8 {
            assert_eq!(step(&mut gb), 2);
        }
        assert_eq!(gb.cpu.regs.b, value);
        // RRC (HL), eight times
        let mut gb = machine(&[0xCB, 0x0E, 0xCB, 0x0E, 0xCB, 0x0E, 0xCB, 0x0E, 0xCB, 0x0E, 0xCB, 0x0E, 0xCB, 0x0E, 0xCB, 0x0E]);
        gb.cpu.regs.set_hl(0xC000);
        gb.bus.set(0xC000, value);
        for _ in 0..8 {
            assert_eq!(step(&mut gb), 4);
        }
        assert_eq!(gb.bus.peek(0xC000), value);
    }
}

#[test]
fn the_prefixed_table_is_regular_in_its_last_column() {
    // RLC A ; RL A
    let mut gb = machine(&[0xCB, 0x07, 0xCB, 0x17]);
    gb.cpu.regs.a = 0x81;
    step(&mut gb);
    assert_eq!(gb.cpu.regs.a, 0x03);
    assert_eq!(flag_bits(&gb), 0x10);
    step(&mut gb);
    assert_eq!(gb.cpu.regs.a, 0x07);
    assert_eq!(flag_bits(&gb), 0x00);
}

#[test]
fn swap_twice_gives_back_the_byte() {
    for value in [0x00u8, 0x0F, 0xA5, 0xF0] {
        // SWAP E ; SWAP E
        let mut gb = machine(&[0xCB, 0x33, 0xCB, 0x33]);
        gb.cpu.regs.e = value;
        gb.cpu.regs.f = Flags::from_bits_truncate(0xF0);
        step(&mut gb);
        assert_eq!(gb.cpu.regs.e, (value << 4) | (value >> 4));
        assert_eq!(flag_bits(&gb), if value == 0 { 0x80 } else { 0x00 });
        step(&mut gb);
        assert_eq!(gb.cpu.regs.e, value);
        assert_eq!(flag_bits(&gb), if value == 0 { 0x80 } else { 0x00 });
    }
}

#[test]
fn shifts() {
    // SLA B ; SRA C ; SRL D
    let mut gb = machine(&[0xCB, 0x20, 0xCB, 0x29, 0xCB, 0x3A]);
    gb.cpu.regs.b = 0x80;
    gb.cpu.regs.c = 0x81;
    gb.cpu.regs.d = 0x81;
    step(&mut gb);
    assert_eq!(gb.cpu.regs.b, 0x00);
    assert_eq!(flag_bits(&gb), 0x90);
    step(&mut gb);
    assert_eq!(gb.cpu.regs.c, 0xC0);
    assert_eq!(flag_bits(&gb), 0x10);
    step(&mut gb);
    assert_eq!(gb.cpu.regs.d, 0x40);
    assert_eq!(flag_bits(&gb), 0x10);
}

#[test]
fn bit_reads_and_changes_nothing() {
    // BIT 7,H ; BIT 0,H ; BIT 3,(HL)
    let mut gb = machine(&[0xCB, 0x7C, 0xCB, 0x44, 0xCB, 0x5E]);
    gb.cpu.regs.set_hl(0xC080);
    gb.bus.set(0xC080, 0x08);
    gb.cpu.regs.f = Flags::c().union(Flags::n());
    assert_eq!(step(&mut gb), 2);
    assert_eq!(gb.cpu.regs.h, 0xC0);
    assert_eq!(flag_bits(&gb), 0x30);
    step(&mut gb);
    assert_eq!(gb.cpu.regs.h, 0xC0);
    assert_eq!(flag_bits(&gb), 0xB0);
    assert_eq!(step(&mut gb), 3);
    assert_eq!(gb.bus.peek(0xC080), 0x08);
    assert_eq!(flag_bits(&gb), 0x30);
}

#[test]
fn set_and_res_change_one_bit() {
    // SET 0,A ; RES 7,A ; SET 7,(HL) ; RES 0,(HL)
    let mut gb = machine(&[0xCB, 0xC7, 0xCB, 0xBF, 0xCB, 0xFE, 0xCB, 0x86]);
    gb.cpu.regs.a = 0x80;
    gb.cpu.regs.set_hl(0xC000);
    gb.bus.set(0xC000, 0x01);
    gb.cpu.regs.f = Flags::from_bits_truncate(0xF0);
    assert_eq!(step(&mut gb), 2);
    assert_eq!(gb.cpu.regs.a, 0x81);
    step(&mut gb);
    assert_eq!(gb.cpu.regs.a, 0x01);
    assert_eq!(step(&mut gb), 4);
    assert_eq!(gb.bus.peek(0xC000), 0x81);
    step(&mut gb);
    assert_eq!(gb.bus.peek(0xC000), 0x80);
    assert_eq!(flag_bits(&gb), 0xF0);
}

#[test]
fn the_cycle_counter_goes_up_with_every_step() {
    // a loop: INC A ; JR -3
    let mut gb = machine(&[0x3C, 0x18, 0xFD]);
    let mut last = gb.bus.cycles();
    for _ in 0..50 {
        step(&mut gb);
        assert!(gb.bus.cycles() > last);
        last = gb.bus.cycles();
    }
    assert_eq!(gb.cpu.regs.a, 0x01u8.wrapping_add(25));
    assert_eq!(last, 25 * (1 + 3));
}

#[test]
fn a_timer_interrupt_is_seen_at_the_end_of_the_same_step() {
    // LD A,(0xC000): four machine cycles
    let mut gb = machine(&[0xFA, 0x00, 0xC0]);
    gb.bus.set(0xFF04, 0x00);
    gb.bus.set(0xFF05, 0xFE);
    gb.bus.set(0xFF07, 0x05);
    gb.bus.set(0xFFFF, 0x04);
    gb.cpu.ime = true;
    gb.cpu.regs.sp = 0xD000;
    assert_eq!(step(&mut gb), 8);
    assert_eq!(gb.cpu.regs.pc, 0x0050);
    assert_eq!(gb.bus.peek(0xFF0F), 0x00);
    assert_eq!(gb.bus.peek(0xCFFE), 0x53);
}

#[test]
fn fatal_opcodes_are_reported_before_the_step() {
    let gb = machine(&[0xD3]);
    assert_eq!(gb.cpu.fatal_opcode(&gb.bus), Some(0xD3));
    let gb = machine(&[0x10]);
    assert_eq!(gb.cpu.fatal_opcode(&gb.bus), Some(0x10));
    let mut gb = machine(&[0xD3]);
    gb.cpu.halted = true;
    assert_eq!(gb.cpu.fatal_opcode(&gb.bus), None);
}

#[test]
fn step_callback_runs_the_callback_first() {
    let mut gb = machine(&[0x3C]);
    gb.cpu.regs.a = 0x00;
    gb.cpu.step_callback(&mut gb.bus, |cpu: &mut Cpu, _bus| {
        cpu.regs.a = 0x41;
    });
    assert_eq!(gb.cpu.regs.a, 0x42);
    assert_eq!(gb.cpu.regs.pc, START + 1);
}

#[test]
fn operands_are_read_and_written_by_kind() {
    let mut gb = machine(&[0x12, 0x34, 0x56]);
    gb.cpu.regs.set_hl(0xC000);
    gb.bus.set(0xC000, 0xAA);
    gb.cpu.ld(&mut gb.bus, Reg::B, Imm);
    assert_eq!(gb.cpu.regs.b, 0x12);
    gb.cpu.ld(&mut gb.bus, Reg::C, Address::HLI);
    assert_eq!(gb.cpu.regs.c, 0xAA);
    assert_eq!(gb.cpu.regs.hl(), 0xC001);
    gb.cpu.ld(&mut gb.bus, Address::HL, Reg::B);
    assert_eq!(gb.bus.peek(0xC001), 0x12);
    assert_eq!(gb.cpu.get_address(&mut gb.bus, Address::Absolute), 0x5634);
    assert_eq!(gb.cpu.regs.pc, START + 3);
    assert_eq!(gb.cpu.get_address(&mut gb.bus, Address::ZeroPageC), 0xFFAA);
    gb.cpu.rotate(&mut gb.bus, Reg::B, Rotate::Rrc);
    assert_eq!(gb.cpu.regs.b, 0x09);
    gb.cpu.push(&mut gb.bus, Reg16::BC);
    gb.cpu.pop(&mut gb.bus, Reg16::DE);
    assert_eq!(gb.cpu.regs.de(), 0x09AA);
}

#[test]
fn sources_and_destinations_by_kind() {
    let mut gb = machine(&[0x9A, 0x80]);
    gb.cpu.regs.d = 0x33;
    assert_eq!(gb.cpu.read(&mut gb.bus, Reg::D), 0x33);
    assert_eq!(gb.bus.cycles(), 0);
    assert_eq!(gb.cpu.read(&mut gb.bus, Imm), 0x9A);
    assert_eq!(gb.bus.cycles(), 1);
    assert_eq!(gb.cpu.regs.pc, START + 1);
    gb.cpu.write(&mut gb.bus, Reg::L, 0x44);
    assert_eq!(gb.cpu.regs.l, 0x44);
    gb.cpu.regs.a = 0x55;
    gb.cpu.write(&mut gb.bus, Address::ZeroPage, 0x55);
    assert_eq!(gb.bus.peek(0xFF80), 0x55);
    assert_eq!(gb.bus.cycles(), 3);
    gb.cpu.regs.set_de(0xFF80);
    assert_eq!(gb.cpu.read(&mut gb.bus, Address::DE), 0x55);
    assert_eq!(gb.bus.cycles(), 4);
}
