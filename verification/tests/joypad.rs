use gboxyde::bus::interrupts::Interrupts;
use gboxyde::bus::joypad::{GbButton, Joypad};

#[test]
fn joypad_starts_with_every_key_released() {
    let pad = Joypad::new();
    assert_eq!(pad.buttons, 0x0F);
    assert_eq!(pad.dpad, 0x0F);
    assert_eq!(pad.register, 0xCF);
    // both groups selected: the keys released in both
    assert_eq!(pad.read(), 0xCF);
}

#[test]
fn selector_keeps_the_upper_bits_set() {
    let mut pad = Joypad::new();
    pad.write(0x00);
    assert_eq!(pad.read() & 0xC0, 0xC0);
    pad.write(0x30);
    assert_eq!(pad.read(), 0xF0);
    pad.write(0xFF);
    assert_eq!(pad.read(), 0xF0);
}

#[test]
fn selector_picks_the_group() {
    let mut pad = Joypad::new();
    let mut intr = Interrupts::new();
    pad.keydown(GbButton::A, &mut intr);
    pad.keydown(GbButton::Down, &mut intr);
    // bit 5 low: the action buttons
    pad.write(0x10);
    assert_eq!(pad.read(), 0xD0 | 0x0E);
    // bit 4 low: the directions
    pad.write(0x20);
    assert_eq!(pad.read(), 0xE0 | 0x07);
    // both low: a key pressed in either group reads as pressed
    pad.write(0x00);
    assert_eq!(pad.read(), 0xC0 | 0x06);
    // neither
    pad.write(0x30);
    assert_eq!(pad.read(), 0xF0);
}

#[test]
fn key_down_requests_the_joypad_interrupt() {
    let mut pad = Joypad::new();
    let mut intr = Interrupts::new();
    pad.keydown(GbButton::Start, &mut intr);
    assert_eq!(intr.flags(), 0x10);
    assert_eq!(pad.buttons, 0x07);
    assert_eq!(pad.dpad, 0x0F);
}

#[test]
fn key_up_releases_the_key() {
    let mut pad = Joypad::new();
    let mut intr = Interrupts::new();
    pad.keydown(GbButton::Left, &mut intr);
    pad.keydown(GbButton::Up, &mut intr);
    assert_eq!(pad.dpad, 0x09);
    pad.keyup(GbButton::Left);
    assert_eq!(pad.dpad, 0x0B);
    pad.keyup(GbButton::Up);
    assert_eq!(pad.dpad, 0x0F);
    assert_eq!(pad.buttons, 0x0F);
}

#[test]
fn every_key_has_its_bit() {
    let keys = [
        (GbButton::A, false, 0x01u8),
        (GbButton::B, false, 0x02),
        (GbButton::Select, false, 0x04),
        (GbButton::Start, false, 0x08),
        (GbButton::Right, true, 0x01),
        (GbButton::Left, true, 0x02),
        (GbButton::Up, true, 0x04),
        (GbButton::Down, true, 0x08),
    ];
    for (key, direction, mask) in keys {
        let mut pad = Joypad::new();
        let mut intr = Interrupts::new();
        pad.keydown(key, &mut intr);
        if direction {
            assert_eq!(pad.dpad, 0x0F & !mask);
            assert_eq!(pad.buttons, 0x0F);
        } else {
            assert_eq!(pad.buttons, 0x0F & !mask);
            assert_eq!(pad.dpad, 0x0F);
        }
        pad.keyup(key);
        assert_eq!((pad.buttons, pad.dpad), (0x0F, 0x0F));
    }
}
