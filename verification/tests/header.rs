use gboxyde::bus::cartridge::header::{
    cart_type, checksum, destination, licensee, ram_size, title_size, Header,
};
use gboxyde::bus::cartridge::Cartridge;

fn tetris_header() -> Vec<u8> {
    let mut buf = vec![0u8; 0x50];
    buf[0x34..0x3A].copy_from_slice(b"TETRIS");
    buf[0x4B] = 0x01;
    buf[0x4D] = 0x0B;
    buf
}

#[test]
fn header_checksum_of_a_commercial_rom() {
    let buf = tetris_header();
    assert!(checksum(buf[0x4D], &buf[0x34..0x4D]));
    assert!(!checksum(0x0C, &buf[0x34..0x4D]));
    let header = Header::new(&buf);
    assert!(header.checksum);
    assert_eq!(header.checksum_shown(), "Ok");
}

#[test]
fn header_checksum_follows_the_running_sum() {
    let zeros = [0u8; 0x19];
    // twenty-five times minus one
    assert!(checksum(0xE7, &zeros));
    let mut bytes = [0u8; 0x19];
    bytes[0] = 0xFF;
    bytes[24] = 0x01;
    assert!(checksum(0xE7, &bytes));
    bytes[3] = 0x10;
    assert!(checksum(0xD7, &bytes));
    assert!(!checksum(0xE7, &bytes));
}

#[test]
fn header_fields_are_decoded() {
    let mut buf = tetris_header();
    buf[0x46] = 0x03;
    buf[0x47] = 0x13;
    buf[0x48] = 0x05;
    buf[0x49] = 0x03;
    buf[0x4A] = 0x01;
    buf[0x4C] = 0x02;
    let header = Header::new(&buf);
    assert_eq!(header.title, "TETRIS\0\0\0\0\0\0\0\0\0\0");
    assert_eq!(header.licensee, "Nintendo");
    assert_eq!(header.cgb_flag, 0x00);
    assert_eq!(header.sgb_flag, 0x03);
    assert_eq!(header.cart_type, "MBC3+RAM+BATTERY");
    assert_eq!(header.rom_size, 1024);
    assert_eq!(header.n_banks, 64);
    assert_eq!(header.ram_size, 32);
    assert_eq!(header.dst, "Non-Japanese");
    assert_eq!(header.version, 0x02);
    assert!(!header.checksum);
    assert_eq!(header.checksum_shown(), "Failed");
    assert_eq!(header.rom_size_shown(), (1, "MBs"));
    assert_eq!(header.ram_banks(), Some(4));
}

#[test]
fn small_roms_are_shown_in_kbs() {
    let header = Header::new(&tetris_header());
    assert_eq!(header.rom_size, 32);
    assert_eq!(header.n_banks, 2);
    assert_eq!(header.rom_size_shown(), (32, "KBs"));
    assert_eq!(header.ram_size, 0);
    assert_eq!(header.ram_banks(), None);
    assert_eq!(header.dst, "Japanese");
    assert_eq!(header.cart_type, "ROM ONLY");

    let mut buf = tetris_header();
    buf[0x48] = 0x04;
    let header = Header::new(&buf);
    assert_eq!(header.rom_size, 512);
    assert_eq!(header.rom_size_shown(), (512, "KBs"));
}

#[test]
fn title_is_short_on_colour_cartridges() {
    let mut buf = vec![0u8; 0x50];
    buf[0x34..0x44].copy_from_slice(b"ABCDEFGHIJKLMNOP");
    assert_eq!(Header::new(&buf).title, "ABCDEFGHIJKLMNOP");
    buf[0x43] = 0x80;
    assert_eq!(Header::new(&buf).title, "ABCDEFGHIJK");
    buf[0x43] = 0xC0;
    assert_eq!(Header::new(&buf).title, "ABCDEFGHIJK");
    assert_eq!(title_size(0x80), 11);
    assert_eq!(title_size(0x8F), 11);
    assert_eq!(title_size(0xC3), 11);
    assert_eq!(title_size(0x00), 16);
    assert_eq!(title_size(0x40), 16);
    assert_eq!(title_size(0xF0), 16);
}

#[test]
fn title_bytes_that_are_no_text_are_replaced() {
    let mut buf = vec![0x41u8; 0x50];
    buf[0x48] = 0x00;
    buf[0x43] = 0x80;
    buf[0x34] = 0xFF;
    let header = Header::new(&buf);
    assert_eq!(header.title, "\u{FFFD}AAAAAAAAAA");
}

#[test]
fn header_around_a_given_title() {
    let buf = tetris_header();
    let header = Header::with_title(String::from("Any"), &buf);
    assert_eq!(header.title, "Any");
    assert_eq!(header.licensee, "Nintendo");
    assert_eq!(header.rom_size, 32);
    assert!(header.checksum);
}

#[test]
fn licensee_by_old_and_new_code() {
    assert_eq!(licensee(0x01, b"00"), "Nintendo");
    assert_eq!(licensee(0x0B, b"00"), "Elite Systems");
    assert_eq!(licensee(0xA4, b"00"), "Konami (Yu-Gi-Oh!)");
    assert_eq!(licensee(0x02, b"01"), "None");
    // 0x33 defers to the two characters
    assert_eq!(licensee(0x33, b"01"), "Nintendo");
    assert_eq!(licensee(0x33, b"13"), "Electronic Arts");
    assert_eq!(licensee(0x33, &[0x0A, 0x04]), "Konami (Yu-Gi-Oh!)");
    assert_eq!(licensee(0x33, b"A4"), "None");
    assert_eq!(licensee(0x33, b"33"), "Ocean/Acclaim");
    assert_eq!(licensee(0x33, b"00"), "None");
    assert_eq!(licensee(0x33, &[0xF9, 0xF9]), "Pack in soft");
}

#[test]
fn lookup_tables_have_their_defaults() {
    assert_eq!(cart_type(0x00), "ROM ONLY");
    assert_eq!(cart_type(0x01), "MBC1");
    assert_eq!(cart_type(0x22), "MBC7+SENSOR+RUMBLE+RAM+BATTERY");
    assert_eq!(cart_type(0xFF), "HuC1+RAM+BATTERY");
    assert_eq!(cart_type(0x04), "ROM ONLY");
    assert_eq!(ram_size(0x00), 0);
    assert_eq!(ram_size(0x01), 0);
    assert_eq!(ram_size(0x02), 8);
    assert_eq!(ram_size(0x03), 32);
    assert_eq!(ram_size(0x04), 128);
    assert_eq!(ram_size(0x05), 64);
    assert_eq!(ram_size(0x06), 0);
    assert_eq!(destination(0x00), "Japanese");
    assert_eq!(destination(0x01), "Non-Japanese");
    assert_eq!(destination(0xFF), "Non-Japanese");
}

#[test]
fn cartridge_decodes_the_header_of_its_image() {
    let mut rom = vec![0u8; 0x8000];
    rom[0x100..0x150].copy_from_slice(&tetris_header());
    let cart = Cartridge::new(rom);
    assert_eq!(cart.header.title, "TETRIS\0\0\0\0\0\0\0\0\0\0");
    assert_eq!(cart.header.licensee, "Nintendo");
    assert!(cart.header.checksum);
    assert_eq!(cart.read(0x0134), b'T');
}
