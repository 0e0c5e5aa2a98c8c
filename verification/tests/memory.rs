use gboxyde::bus::cartridge::Cartridge;
use gboxyde::bus::joypad::GbButton;
use gboxyde::bus::ram::Ram;
use gboxyde::bus::wram::WRam;
use gboxyde::bus::Bus;
use gboxyde::cpu::Interface;

fn blank_bus() -> Bus {
    let mut rom = vec![0u8; 0x8000];
    rom[0x0000] = 0x11;
    rom[0x7FFF] = 0x22;
    Bus::new(Cartridge::new(rom))
}

#[test]
fn work_ram_folds_its_addresses() {
    let mut ram = Ram::new();
    assert_eq!(ram.wram_read(0xC000), 0x00);
    ram.wram_write(0xC123, 0x5A);
    assert_eq!(ram.wram_read(0xC123), 0x5A);
    assert_eq!(ram.wram_read(0xE123), 0x5A);
    assert_eq!(ram.wram_read(0xC124), 0x00);
    ram.hram_write(0xFF80, 0x77);
    ram.hram_write(0xFFFE, 0x88);
    assert_eq!(ram.hram_read(0xFF80), 0x77);
    assert_eq!(ram.hram_read(0xFFFE), 0x88);
    assert_eq!(ram.wram_read(0xC000), 0x00);
}

#[test]
fn heap_work_ram_folds_its_addresses() {
    let mut ram = WRam::new();
    assert_eq!(ram.read(0xDFFF), 0x00);
    ram.write(0xDFFF, 0x99);
    assert_eq!(ram.read(0xDFFF), 0x99);
    assert_eq!(ram.read(0xFFFF), 0x99);
    assert_eq!(ram.read(0xC000), 0x00);
}

#[test]
fn cartridge_reads_and_writes_its_image() {
    let mut rom = vec![0u8; 0x8000];
    rom[0x1234] = 0xAB;
    let mut cart = Cartridge::new(rom);
    assert_eq!(cart.read(0x1234), 0xAB);
    cart.write(0x1234, 0xCD);
    assert_eq!(cart.read(0x1234), 0xCD);
    assert_eq!(cart.read(0x1235), 0x00);
}

#[test]
fn bus_routes_reads() {
    let bus = blank_bus();
    assert_eq!(bus.peek(0x0000), 0x11);
    assert_eq!(bus.peek(0x7FFF), 0x22);
    assert_eq!(bus.peek(0x8000), 0x00);
    assert_eq!(bus.peek(0x9FFF), 0x00);
    assert_eq!(bus.peek(0xA000), 0x00);
    assert_eq!(bus.peek(0xC000), 0x00);
    assert_eq!(bus.peek(0xFF00), 0xCF);
    assert_eq!(bus.peek(0xFF04), 0xAB);
    assert_eq!(bus.peek(0xFF0F), 0x00);
    assert_eq!(bus.peek(0xFF44), 0x94);
    assert_eq!(bus.peek(0xFF45), 0x00);
    assert_eq!(bus.peek(0xFFFF), 0x00);
    assert_eq!(bus.cycles(), 0);
}

#[test]
fn bus_routes_writes() {
    let mut bus = blank_bus();
    bus.set(0x0100, 0x3C);
    assert_eq!(bus.peek(0x0100), 0x3C);
    bus.set(0x8000, 0x55);
    assert_eq!(bus.peek(0x8000), 0x00);
    bus.set(0xC010, 0x01);
    assert_eq!(bus.peek(0xC010), 0x01);
    assert_eq!(bus.peek(0xE010), 0x01);
    bus.set(0xFDFF, 0x02);
    assert_eq!(bus.peek(0xDDFF), 0x02);
    bus.set(0xFE00, 0x03);
    assert_eq!(bus.peek(0xFE00), 0x00);
    bus.set(0xFF00, 0x10);
    assert_eq!(bus.peek(0xFF00), 0xDF);
    bus.set(0xFF01, 0x41);
    bus.set(0xFF02, 0x81);
    assert_eq!(bus.peek(0xFF01), 0x41);
    assert_eq!(bus.peek(0xFF02), 0x81);
    bus.set(0xFF05, 0x12);
    bus.set(0xFF06, 0x34);
    bus.set(0xFF07, 0x05);
    assert_eq!(bus.peek(0xFF05), 0x12);
    assert_eq!(bus.peek(0xFF06), 0x34);
    assert_eq!(bus.peek(0xFF07), 0x05);
    bus.set(0xFF04, 0x99);
    assert_eq!(bus.peek(0xFF04), 0x00);
    bus.set(0xFF0F, 0xFF);
    assert_eq!(bus.peek(0xFF0F), 0x1F);
    bus.set(0xFF44, 0x12);
    assert_eq!(bus.peek(0xFF44), 0x94);
    bus.set(0xFF80, 0x0A);
    bus.set(0xFFFE, 0x0B);
    assert_eq!(bus.peek(0xFF80), 0x0A);
    assert_eq!(bus.peek(0xFFFE), 0x0B);
    bus.set(0xFFFF, 0xE7);
    assert_eq!(bus.peek(0xFFFF), 0xE7);
    assert_eq!(bus.cycles(), 0);
}

#[test]
fn timed_accesses_advance_the_clock() {
    let mut bus = blank_bus();
    assert_eq!(bus.read(0x0000), 0x11);
    assert_eq!(bus.cycles(), 1);
    bus.write(0xC000, 0x42);
    assert_eq!(bus.cycles(), 2);
    assert_eq!(bus.peek(0xC000), 0x42);
    bus.tick(3);
    assert_eq!(bus.cycles(), 5);
    bus.tick(0);
    assert_eq!(bus.cycles(), 5);
}

#[test]
fn a_machine_cycle_is_four_timer_cycles() {
    let mut bus = blank_bus();
    // the divider starts at 0xABCC; DIV shows its high byte
    bus.tick(12);
    assert_eq!(bus.peek(0xFF04), 0xAB);
    bus.tick(1);
    assert_eq!(bus.peek(0xFF04), 0xAC);
}

#[test]
fn the_timer_raises_its_interrupt_through_the_bus() {
    let mut bus = blank_bus();
    bus.set(0xFF04, 0x00);
    bus.set(0xFF06, 0xAB);
    bus.set(0xFF05, 0xFE);
    bus.set(0xFF07, 0x05);
    bus.set(0xFFFF, 0x04);
    bus.tick(3);
    assert_eq!(bus.peek(0xFF05), 0xFE);
    assert!(bus.check_interrupts().is_empty());
    bus.tick(1);
    assert_eq!(bus.peek(0xFF05), 0xAB);
    assert_eq!(bus.peek(0xFF0F), 0x04);
    assert_eq!(bus.check_interrupts().bits(), 0x04);
    bus.interrupt_handled(bus.check_interrupts());
    assert_eq!(bus.peek(0xFF0F), 0x00);
}

#[test]
fn keys_reach_the_joypad_register() {
    let mut bus = blank_bus();
    bus.set(0xFF00, 0x20);
    bus.keydown(GbButton::Right);
    assert_eq!(bus.peek(0xFF00), 0xE0 | 0x0E);
    assert_eq!(bus.peek(0xFF0F), 0x10);
    bus.keyup(GbButton::Right);
    assert_eq!(bus.peek(0xFF00), 0xE0 | 0x0F);
    assert_eq!(bus.cartridge().read(0x0000), 0x11);
}
