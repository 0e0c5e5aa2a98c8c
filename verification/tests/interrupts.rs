use gboxyde::bus::interrupts::{InterruptFlag, Interrupts};

#[test]
fn interrupts_start_empty() {
    let intr = Interrupts::new();
    assert_eq!(intr.flags(), 0x00);
    assert_eq!(intr.get_enable(), 0x00);
    assert!(intr.check().is_empty());
}

#[test]
fn request_ors_the_kind_into_if() {
    let mut intr = Interrupts::new();
    intr.request(InterruptFlag::timer());
    assert_eq!(intr.flags(), 0x04);
    intr.request(InterruptFlag::vblank());
    assert_eq!(intr.flags(), 0x05);
    intr.request(InterruptFlag::timer());
    assert_eq!(intr.flags(), 0x05);
}

#[test]
fn set_if_keeps_the_five_defined_bits() {
    let mut intr = Interrupts::new();
    intr.set_flags(0xFF);
    assert_eq!(intr.flags(), 0x1F);
    intr.set_flags(0xE0);
    assert_eq!(intr.flags(), 0x00);
}

#[test]
fn ie_is_stored_raw() {
    let mut intr = Interrupts::new();
    intr.set_enable(0xFF);
    assert_eq!(intr.get_enable(), 0xFF);
    intr.set_enable(0xA5);
    assert_eq!(intr.get_enable(), 0xA5);
    assert_eq!(intr.flags(), 0x00);
}

#[test]
fn pending_is_if_and_ie() {
    let mut intr = Interrupts::new();
    intr.set_flags(0b0001_0110);
    intr.set_enable(0b1111_0011);
    assert_eq!(intr.check().bits(), 0b0001_0010);
    intr.set_enable(0x00);
    assert!(intr.check().is_empty());
}

#[test]
fn acknowledge_clears_one_kind() {
    let mut intr = Interrupts::new();
    intr.set_flags(0b0001_0110);
    intr.handled(InterruptFlag::stat());
    assert_eq!(intr.flags(), 0b0001_0100);
    intr.handled(InterruptFlag::stat());
    assert_eq!(intr.flags(), 0b0001_0100);
    intr.handled(InterruptFlag::joypad());
    assert_eq!(intr.flags(), 0b0000_0100);
}

#[test]
fn interrupt_kinds_have_their_bits() {
    assert_eq!(InterruptFlag::vblank().bits(), 0x01);
    assert_eq!(InterruptFlag::stat().bits(), 0x02);
    assert_eq!(InterruptFlag::timer().bits(), 0x04);
    assert_eq!(InterruptFlag::serial().bits(), 0x08);
    assert_eq!(InterruptFlag::joypad().bits(), 0x10);
    assert_eq!(InterruptFlag::empty().bits(), 0x00);
    assert_eq!(InterruptFlag::from_bits_truncate(0xF2).bits(), 0x12);
    let both = InterruptFlag::from_bits_truncate(0x06);
    assert_eq!(both.intersection(InterruptFlag::timer()).bits(), 0x04);
}

#[test]
fn interrupt_sets_grow_and_shrink() {
    let mut set = InterruptFlag::empty();
    assert!(set.is_empty());
    set.insert(InterruptFlag::serial());
    set.insert(InterruptFlag::vblank());
    assert_eq!(set.bits(), 0x09);
    assert!(!set.is_empty());
    set.remove(InterruptFlag::serial());
    assert_eq!(set.bits(), 0x01);
    set.remove(InterruptFlag::timer());
    assert_eq!(set.bits(), 0x01);
}
