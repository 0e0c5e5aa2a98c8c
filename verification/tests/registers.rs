use gboxyde::cpu::registers::{Flags, Reg16, Registers};

#[test]
fn register_file_reset() {
    let r = Registers::new();
    assert_eq!(
        (r.a, r.f.bits(), r.b, r.c, r.d, r.e, r.h, r.l, r.pc, r.sp),
        (0x01, 0xB0, 0x00, 0x13, 0x00, 0xD8, 0x01, 0x4D, 0x0100, 0xFFFE)
    );
    assert!(r.zf());
    assert!(!r.nf());
    assert!(r.hf());
    assert!(r.cf());
}

#[test]
fn writing_af_masks_the_flag_byte() {
    let mut r = Registers::new();
    r.set_af(0x12FF);
    assert_eq!(r.a, 0x12);
    assert_eq!(r.f.bits(), 0xF0);
    assert_eq!(r.af(), 0x12F0);
    r.write16(Reg16::AF, 0x340F);
    assert_eq!(r.read16(Reg16::AF), 0x3400);
}

#[test]
fn pairs_are_big_endian() {
    let mut r = Registers::new();
    r.set_bc(0xBEEF);
    assert_eq!((r.b, r.c), (0xBE, 0xEF));
    assert_eq!(r.bc(), 0xBEEF);
    r.set_de(0x1234);
    assert_eq!((r.d, r.e), (0x12, 0x34));
    r.set_hl(0xFFFF);
    r.inc_hl();
    assert_eq!(r.hl(), 0x0000);
    r.dec_hl();
    assert_eq!(r.hl(), 0xFFFF);
    r.sp = 0x0000;
    r.dec_sp();
    assert_eq!(r.sp, 0xFFFF);
    r.inc_sp();
    assert_eq!(r.sp, 0x0000);
}

#[test]
fn set_flags_updates_a_subset() {
    let mut r = Registers::new();
    r.set_flags(Flags::z().union(Flags::c()), false);
    assert_eq!(r.f.bits(), 0x20);
    r.set_flags(Flags::n(), true);
    assert_eq!(r.f.bits(), 0x60);
    assert!(r.f.contains(Flags::n().union(Flags::h())));
    assert!(!r.f.contains(Flags::z()));
    assert_eq!(Flags::from_bits_truncate(0xFF).bits(), 0xF0);
    assert_eq!(Flags::empty().bits(), 0x00);
}
