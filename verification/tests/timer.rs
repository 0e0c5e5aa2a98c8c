use gboxyde::bus::interrupts::Interrupts;
use gboxyde::bus::timer::{Timer, DIV, TAC, TIMA, TMA};

#[test]
fn timer_starts_after_the_boot_rom() {
    let timer = Timer::new();
    assert_eq!(timer.div, 0xABCC);
    assert_eq!(timer.read(DIV), 0xAB);
    assert_eq!(timer.read(TIMA), 0x00);
    assert_eq!(timer.read(TMA), 0x00);
    assert_eq!(timer.read(TAC), 0x00);
}

#[test]
fn timer_overflow() {
    let mut timer = Timer { div: 0x3FFC, tima: 0xFE, tma: 0xAB, tac: 0x05 };
    let mut intr = Interrupts::new();
    for _ in 0..16 {
        timer.tick(&mut intr);
    }
    assert_eq!(timer.tima, 0xAB);
    assert_eq!(intr.flags() & 0x04, 0x04);
    assert_eq!(timer.div, 0x400C);
}

#[test]
fn tima_counts_on_the_falling_edge_of_the_selected_bit() {
    // frequency code 01 selects bit 3: it falls every sixteen T-cycles
    let mut timer = Timer { div: 0x0000, tima: 0x10, tma: 0x00, tac: 0x05 };
    let mut intr = Interrupts::new();
    for _ in 0..15 {
        timer.tick(&mut intr);
        assert_eq!(timer.tima, 0x10);
    }
    timer.tick(&mut intr);
    assert_eq!(timer.div, 0x0010);
    assert_eq!(timer.tima, 0x11);
    assert_eq!(intr.flags(), 0x00);
}

#[test]
fn each_frequency_code_selects_its_bit() {
    // (TAC, divider just before the selected bit falls)
    let cases = [(0x04u8, 0x03FFu16), (0x05, 0x000F), (0x06, 0x003F), (0x07, 0x00FF)];
    for (tac, div) in cases {
        let mut timer = Timer { div, tima: 0x00, tma: 0x00, tac };
        let mut intr = Interrupts::new();
        timer.tick(&mut intr);
        assert_eq!(timer.tima, 0x01);
        let mut early = Timer { div: div - 1, tima: 0x00, tma: 0x00, tac };
        early.tick(&mut intr);
        assert_eq!(early.tima, 0x00);
    }
}

#[test]
fn a_stopped_timer_does_not_count() {
    let mut timer = Timer { div: 0x000F, tima: 0x00, tma: 0x00, tac: 0x01 };
    let mut intr = Interrupts::new();
    timer.tick(&mut intr);
    assert_eq!(timer.div, 0x0010);
    assert_eq!(timer.tima, 0x00);
}

#[test]
fn reload_happens_when_the_count_reaches_ff() {
    let mut timer = Timer { div: 0x000F, tima: 0xFE, tma: 0x42, tac: 0x05 };
    let mut intr = Interrupts::new();
    timer.tick(&mut intr);
    assert_eq!(timer.tima, 0x42);
    assert_eq!(intr.flags(), 0x04);

    let mut below = Timer { div: 0x000F, tima: 0xFD, tma: 0x42, tac: 0x05 };
    let mut quiet = Interrupts::new();
    below.tick(&mut quiet);
    assert_eq!(below.tima, 0xFE);
    assert_eq!(quiet.flags(), 0x00);
}

#[test]
fn divider_wraps_at_sixteen_bits() {
    let mut timer = Timer { div: 0xFFFF, tima: 0x00, tma: 0x00, tac: 0x00 };
    let mut intr = Interrupts::new();
    timer.tick(&mut intr);
    assert_eq!(timer.div, 0x0000);
    assert_eq!(timer.read(DIV), 0x00);
}

#[test]
fn writing_div_clears_the_divider() {
    for data in [0x00u8, 0x01, 0x7F, 0xFF] {
        let mut timer = Timer { div: 0xABCD, tima: 0x12, tma: 0x34, tac: 0x05 };
        timer.write(DIV, data);
        assert_eq!(timer.read(DIV), 0x00);
        assert_eq!(timer.div, 0x0000);
        assert_eq!(timer.read(TIMA), 0x12);
        assert_eq!(timer.read(TMA), 0x34);
        assert_eq!(timer.read(TAC), 0x05);
    }
}

#[test]
fn timer_registers_are_plain_bytes() {
    let mut timer = Timer::new();
    timer.write(TIMA, 0x11);
    timer.write(TMA, 0x22);
    timer.write(TAC, 0x07);
    assert_eq!(timer.read(TIMA), 0x11);
    assert_eq!(timer.read(TMA), 0x22);
    assert_eq!(timer.read(TAC), 0x07);
    assert_eq!(timer.div, 0xABCC);
}
