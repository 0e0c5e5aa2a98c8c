use gboxyde::cpu::instructions::{fatal, Condition, Rotate};
use gboxyde::cpu::registers::{Flags, Reg16};
use gboxyde::cpu::{sign_extend, word_from_le, Cpu};

fn flags(cpu: &Cpu) -> (bool, bool, bool, bool) {
    (cpu.regs.zf(), cpu.regs.nf(), cpu.regs.hf(), cpu.regs.cf())
}

fn cpu_with(a: u8, f: u8) -> Cpu {
    let mut cpu = Cpu::new();
    cpu.regs.a = a;
    cpu.regs.f = Flags::from_bits_truncate(f);
    cpu
}

#[test]
fn processor_starts_running_with_interrupts_off() {
    let cpu = Cpu::new();
    assert_eq!(cpu.cur_opcode, 0x00);
    assert!(!cpu.halted);
    assert!(!cpu.ime);
    assert!(!cpu.enabling_ime);
    assert_eq!(cpu.regs.pc, 0x0100);
    assert_eq!(cpu.regs.sp, 0xFFFE);
    assert_eq!(cpu.regs.read16(Reg16::AF), 0x01B0);
}

#[test]
fn add_sets_half_carry_and_carry() {
    let mut cpu = cpu_with(0x3A, 0x00);
    assert_eq!(cpu.alu_add(0xC6, false), 0x00);
    assert_eq!(flags(&cpu), (true, false, true, true));

    let mut cpu = cpu_with(0x0F, 0xF0);
    assert_eq!(cpu.alu_add(0x01, false), 0x10);
    assert_eq!(flags(&cpu), (false, false, true, false));

    let mut cpu = cpu_with(0xF0, 0x00);
    assert_eq!(cpu.alu_add(0x20, false), 0x10);
    assert_eq!(flags(&cpu), (false, false, false, true));
}

#[test]
fn adc_adds_the_carry() {
    let mut cpu = cpu_with(0xE1, 0x10);
    assert_eq!(cpu.alu_add(0x0F, true), 0xF1);
    assert_eq!(flags(&cpu), (false, false, true, false));

    let mut cpu = cpu_with(0xFF, 0x10);
    assert_eq!(cpu.alu_add(0x00, true), 0x00);
    assert_eq!(flags(&cpu), (true, false, true, true));
}

#[test]
fn sub_sets_borrows() {
    let mut cpu = cpu_with(0x3E, 0x00);
    assert_eq!(cpu.alu_sub(0x3E, false), 0x00);
    assert_eq!(flags(&cpu), (true, true, false, false));

    let mut cpu = cpu_with(0x3E, 0x00);
    assert_eq!(cpu.alu_sub(0x0F, false), 0x2F);
    assert_eq!(flags(&cpu), (false, true, true, false));

    let mut cpu = cpu_with(0x3E, 0x00);
    assert_eq!(cpu.alu_sub(0x40, false), 0xFE);
    assert_eq!(flags(&cpu), (false, true, false, true));
}

#[test]
fn sbc_subtracts_the_carry() {
    let mut cpu = cpu_with(0x3B, 0x10);
    assert_eq!(cpu.alu_sub(0x2A, true), 0x10);
    assert_eq!(flags(&cpu), (false, true, false, false));

    let mut cpu = cpu_with(0x00, 0x10);
    assert_eq!(cpu.alu_sub(0xFF, true), 0x00);
    assert_eq!(flags(&cpu), (true, true, true, true));

    let mut cpu = cpu_with(0x10, 0x10);
    assert_eq!(cpu.alu_sub(0x0F, true), 0x00);
    assert_eq!(flags(&cpu), (true, true, true, false));
}

#[test]
fn add_then_sub_gives_back_a() {
    for a in [0x00u8, 0x01, 0x7F, 0x80, 0xFF, 0x3C] {
        for x in [0x00u8, 0x01, 0x0F, 0x80, 0xFF, 0xC4] {
            let mut cpu = cpu_with(a, 0x00);
            cpu.regs.a = cpu.alu_add(x, false);
            cpu.regs.a = cpu.alu_sub(x, false);
            assert_eq!(cpu.regs.a, a);
        }
    }
}

#[test]
fn inc_on_ff_wraps_to_zero() {
    for carry in [0x00u8, 0x10] {
        let mut cpu = cpu_with(0x00, carry);
        assert_eq!(cpu.alu_inc(0xFF), 0x00);
        assert_eq!(flags(&cpu), (true, false, true, carry != 0));
    }
}

#[test]
fn dec_on_zero_wraps_to_ff() {
    for carry in [0x00u8, 0x10] {
        let mut cpu = cpu_with(0x00, carry);
        assert_eq!(cpu.alu_dec(0x00), 0xFF);
        assert_eq!(flags(&cpu), (false, true, true, carry != 0));
    }
}

#[test]
fn dec_sets_half_carry_on_a_borrow_from_bit_four() {
    let mut cpu = cpu_with(0x00, 0x00);
    assert_eq!(cpu.alu_dec(0x10), 0x0F);
    assert_eq!(flags(&cpu), (false, true, true, false));
    assert_eq!(cpu.alu_dec(0x01), 0x00);
    assert_eq!(flags(&cpu), (true, true, false, false));
    assert_eq!(cpu.alu_dec(0x0F), 0x0E);
    assert_eq!(flags(&cpu), (false, true, false, false));
}

#[test]
fn half_carry_on_inc() {
    for carry in [0x00u8, 0x10] {
        let mut cpu = cpu_with(0x0F, carry);
        cpu.regs.a = cpu.alu_inc(0x0F);
        assert_eq!(cpu.regs.a, 0x10);
        assert_eq!(flags(&cpu), (false, false, true, carry != 0));
    }
}

#[test]
fn daa_after_addition() {
    let mut cpu = cpu_with(0x15, 0x00);
    cpu.regs.a = cpu.alu_add(0x27, false);
    assert_eq!(cpu.regs.a, 0x3C);
    cpu.daa();
    assert_eq!(cpu.regs.a, 0x42);
    assert_eq!(flags(&cpu), (false, false, false, false));
}

#[test]
fn daa_carries_into_the_hundreds() {
    let mut cpu = cpu_with(0x99, 0x00);
    cpu.regs.a = cpu.alu_add(0x01, false);
    assert_eq!(cpu.regs.a, 0x9A);
    cpu.daa();
    assert_eq!(cpu.regs.a, 0x00);
    assert_eq!(flags(&cpu), (true, false, false, true));
}

#[test]
fn daa_after_subtraction() {
    let mut cpu = cpu_with(0x42, 0x00);
    cpu.regs.a = cpu.alu_sub(0x15, false);
    assert_eq!(cpu.regs.a, 0x2D);
    assert_eq!(flags(&cpu), (false, true, true, false));
    cpu.daa();
    assert_eq!(cpu.regs.a, 0x27);
    assert_eq!(flags(&cpu), (false, true, false, false));
}

#[test]
fn cpl_twice_gives_back_a() {
    for a in [0x00u8, 0x5A, 0xFF] {
        let mut cpu = cpu_with(a, 0x90);
        cpu.cpl();
        assert_eq!(cpu.regs.a, !a);
        assert_eq!(flags(&cpu), (true, true, true, true));
        cpu.cpl();
        assert_eq!(cpu.regs.a, a);
        assert_eq!(flags(&cpu), (true, true, true, true));
    }
}

#[test]
fn ccf_twice_gives_back_c() {
    for f in [0x00u8, 0x10, 0xF0, 0xE0] {
        let mut cpu = cpu_with(0x00, f);
        let before = flags(&cpu);
        cpu.ccf();
        assert_eq!(flags(&cpu), (before.0, false, false, !before.3));
        cpu.ccf();
        assert_eq!(flags(&cpu), (before.0, false, false, before.3));
    }
}

#[test]
fn scf_sets_c() {
    let mut cpu = cpu_with(0x00, 0xE0);
    cpu.scf();
    assert_eq!(flags(&cpu), (true, false, false, true));
}

#[test]
fn rotations_on_a_clear_z() {
    let mut cpu = cpu_with(0x80, 0x00);
    cpu.rotate_a(Rotate::Rlc);
    assert_eq!(cpu.regs.a, 0x01);
    assert_eq!(flags(&cpu), (false, false, false, true));

    let mut cpu = cpu_with(0x80, 0x00);
    cpu.rotate_a(Rotate::Rl);
    assert_eq!(cpu.regs.a, 0x00);
    assert_eq!(flags(&cpu), (false, false, false, true));

    let mut cpu = cpu_with(0x01, 0x00);
    cpu.rotate_a(Rotate::Rrc);
    assert_eq!(cpu.regs.a, 0x80);
    assert_eq!(flags(&cpu), (false, false, false, true));

    let mut cpu = cpu_with(0x01, 0x10);
    cpu.rotate_a(Rotate::Rr);
    assert_eq!(cpu.regs.a, 0x80);
    assert_eq!(flags(&cpu), (false, false, false, true));

    let mut cpu = cpu_with(0x02, 0x10);
    cpu.rotate_a(Rotate::Rr);
    assert_eq!(cpu.regs.a, 0x81);
    assert_eq!(flags(&cpu), (false, false, false, false));
}

#[test]
fn shifts_through_carry() {
    let mut cpu = cpu_with(0x00, 0x00);
    assert_eq!(cpu.alu_rl(0x85, true), 0x0B);
    assert_eq!(flags(&cpu), (false, false, false, true));
    assert_eq!(cpu.alu_rl(0x80, false), 0x00);
    assert_eq!(flags(&cpu), (true, false, false, true));
    assert_eq!(cpu.alu_rr(0x01, false), 0x00);
    assert_eq!(flags(&cpu), (true, false, false, true));
    assert_eq!(cpu.alu_rr(0x8A, true), 0xC5);
    assert_eq!(flags(&cpu), (false, false, false, false));
}

#[test]
fn conditions_read_z_and_c() {
    let cpu = cpu_with(0x00, 0x80);
    assert!(cpu.check_cond(Condition::Z));
    assert!(!cpu.check_cond(Condition::NZ));
    assert!(cpu.check_cond(Condition::NC));
    assert!(!cpu.check_cond(Condition::C));
    let cpu = cpu_with(0x00, 0x10);
    assert!(!cpu.check_cond(Condition::Z));
    assert!(cpu.check_cond(Condition::NZ));
    assert!(!cpu.check_cond(Condition::NC));
    assert!(cpu.check_cond(Condition::C));
}

#[test]
fn interrupt_switches() {
    let mut cpu = Cpu::new();
    cpu.ei();
    assert!(cpu.enabling_ime);
    assert!(!cpu.ime);
    cpu.di();
    assert!(!cpu.enabling_ime);
    assert!(!cpu.ime);
    cpu.ime = true;
    cpu.di();
    assert!(!cpu.ime);
    cpu.halt();
    assert!(cpu.halted);
    cpu.nop();
    assert!(cpu.halted);
}

#[test]
fn jp_hl_sets_pc() {
    let mut cpu = Cpu::new();
    cpu.regs.set_hl(0xBEEF);
    cpu.jp_hl();
    assert_eq!(cpu.regs.pc, 0xBEEF);
    cpu.inc_pc();
    assert_eq!(cpu.regs.pc, 0xBEF0);
    cpu.regs.pc = 0xFFFF;
    cpu.inc_pc();
    assert_eq!(cpu.regs.pc, 0x0000);
}

#[test]
fn offsets_are_signed() {
    assert_eq!(sign_extend(0x00), 0x0000);
    assert_eq!(sign_extend(0x7F), 0x007F);
    assert_eq!(sign_extend(0x80), 0xFF80);
    assert_eq!(sign_extend(0xFF), 0xFFFF);
    assert_eq!(word_from_le(0x34, 0x12), 0x1234);
}

#[test]
fn stop_and_the_undefined_opcodes_are_fatal() {
    let fatal_ones = [0x10u8, 0xD3, 0xDB, 0xDD, 0xE3, 0xE4, 0xEB, 0xEC, 0xED, 0xF4, 0xFC, 0xFD];
    let mut count = 0;
    for opcode in 0..=255u8 {
        assert_eq!(fatal(opcode), fatal_ones.contains(&opcode));
        if fatal(opcode) {
            count += 1;
        }
    }
    assert_eq!(count, 12);
}
