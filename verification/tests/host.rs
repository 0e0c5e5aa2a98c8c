use gboxyde::bus::joypad::GbButton;
use gboxyde::cpu::Interface;
use gboxyde::gameboy::{map_key, Gameboy, HostAction, HostEvent, HostKey};

fn looping() -> Gameboy {
    let mut rom = vec![0u8; 0x8000];
    // at 0x0100: INC A ; JR -3
    rom[0x100] = 0x3C;
    rom[0x101] = 0x18;
    rom[0x102] = 0xFD;
    Gameboy::new(rom)
}

#[test]
fn keys_map_to_buttons() {
    assert_eq!(map_key(HostKey::A), Some(GbButton::A));
    assert_eq!(map_key(HostKey::S), Some(GbButton::B));
    assert_eq!(map_key(HostKey::Z), Some(GbButton::Start));
    assert_eq!(map_key(HostKey::X), Some(GbButton::Select));
    assert_eq!(map_key(HostKey::Right), Some(GbButton::Right));
    assert_eq!(map_key(HostKey::Left), Some(GbButton::Left));
    assert_eq!(map_key(HostKey::Up), Some(GbButton::Up));
    assert_eq!(map_key(HostKey::Down), Some(GbButton::Down));
    assert_eq!(map_key(HostKey::Escape), None);
    assert_eq!(map_key(HostKey::Other), None);
}

#[test]
fn closing_ends_the_loop() {
    let mut gb = looping();
    assert_eq!(gb.on_event(HostEvent::CloseRequested), HostAction::Exit);
    assert_eq!(
        gb.on_event(HostEvent::Key { key: HostKey::Escape, pressed: true }),
        HostAction::Exit
    );
    assert_eq!(
        gb.on_event(HostEvent::Key { key: HostKey::Escape, pressed: false }),
        HostAction::Continue
    );
    assert_eq!(gb.on_event(HostEvent::Other), HostAction::Continue);
    assert_eq!(gb.bus.cycles(), 0);
    assert_eq!(gb.cpu.regs.pc, 0x0100);
}

#[test]
fn keys_reach_the_joypad() {
    let mut gb = looping();
    gb.bus.set(0xFF00, 0x10);
    assert_eq!(
        gb.on_event(HostEvent::Key { key: HostKey::Z, pressed: true }),
        HostAction::Continue
    );
    assert_eq!(gb.bus.peek(0xFF00), 0xD0 | 0x07);
    assert_eq!(gb.bus.peek(0xFF0F), 0x10);
    assert_eq!(
        gb.on_event(HostEvent::Key { key: HostKey::Z, pressed: false }),
        HostAction::Continue
    );
    assert_eq!(gb.bus.peek(0xFF00), 0xD0 | 0x0F);
    assert_eq!(
        gb.on_event(HostEvent::Key { key: HostKey::Other, pressed: true }),
        HostAction::Continue
    );
    assert_eq!(gb.bus.peek(0xFF00), 0xD0 | 0x0F);
}

#[test]
fn idle_time_is_used_for_a_step() {
    let mut gb = looping();
    assert_eq!(gb.on_event(HostEvent::Idle), HostAction::Redraw);
    assert_eq!(gb.cpu.regs.a, 0x02);
    assert_eq!(gb.cpu.regs.pc, 0x0101);
    assert_eq!(gb.on_event(HostEvent::Idle), HostAction::Redraw);
    assert_eq!(gb.cpu.regs.pc, 0x0100);
    assert_eq!(gb.bus.cycles(), 4);
}

#[test]
fn a_fatal_opcode_is_handed_back() {
    let mut rom = vec![0u8; 0x8000];
    rom[0x100] = 0x00;
    rom[0x101] = 0xED;
    let mut gb = Gameboy::new(rom);
    assert_eq!(gb.on_event(HostEvent::Idle), HostAction::Redraw);
    assert_eq!(gb.on_event(HostEvent::Idle), HostAction::Fault(0xED));
    assert_eq!(gb.on_event(HostEvent::Idle), HostAction::Fault(0xED));
    assert_eq!(gb.cpu.regs.pc, 0x0101);
    assert_eq!(gb.bus.cycles(), 1);

    let mut rom = vec![0u8; 0x8000];
    rom[0x100] = 0x10;
    let mut gb = Gameboy::new(rom);
    assert_eq!(gb.on_event(HostEvent::Idle), HostAction::Fault(0x10));
}
