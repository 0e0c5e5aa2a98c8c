use gboxyde::bus::cartridge::Cartridge;
use gboxyde::bus::Bus;
use gboxyde::cpu::dbg::Dbg;
use gboxyde::cpu::Interface;

#[test]
fn serial_bytes_are_captured() {
    let mut bus = Bus::new(Cartridge::new(vec![0u8; 0x8000]));
    let mut dbg = Dbg::new();
    assert_eq!(dbg.message(), Vec::<u8>::new());
    dbg.update(&mut bus);
    assert_eq!(dbg.size, 0);
    bus.set(0xFF01, b'O');
    bus.set(0xFF02, 0x81);
    dbg.update(&mut bus);
    assert_eq!(bus.peek(0xFF02), 0x00);
    bus.set(0xFF01, b'k');
    dbg.update(&mut bus);
    assert_eq!(dbg.message(), vec![b'O']);
    bus.set(0xFF02, 0x81);
    dbg.update(&mut bus);
    assert_eq!(dbg.message(), vec![b'O', b'k']);
    assert_eq!(dbg.size, 2);
}

#[test]
fn a_new_capture_is_empty_over_zeros() {
    let dbg = Dbg::new();
    assert_eq!(dbg.size, 0);
    assert_eq!(dbg.msg.len(), 1024);
    assert!(dbg.msg.iter().all(|&b| b == 0));
    let cpu = gboxyde::cpu::Cpu::new();
    assert_eq!(cpu.dbg.size, 0);
    assert!(cpu.dbg.msg.iter().all(|&b| b == 0));
}
