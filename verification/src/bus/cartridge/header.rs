//! The eighty-byte cartridge header that starts at offset 0x0100.
use vstd::prelude::*;
use vstd::slice::slice_subrange;

verus! {

/// Where the header starts in the ROM image.
pub const HEADER_LOC: usize = 0x0100;

/// The length of the header in bytes.
pub const HEADER_SIZE: usize = 0x50;

/// The offsets below count from the start of the header. The title.
pub const TITLE_LOC: usize = 0x34;

/// The length of a title on a cartridge for the first console.
pub const DMG_TITLE_SIZE: usize = 0x10;

/// The length of a title on a cartridge that knows the colour console.
pub const CGB_TITLE_SIZE: usize = 0x0B;

/// The CGB flag.
pub const CGB_FLAG_LOC: usize = 0x43;

/// The SGB flag.
pub const SGB_FLAG_LOC: usize = 0x46;

/// The two characters of the new licensee code.
pub const NEW_LIC_LOC: usize = 0x44;

/// The length of the new licensee code.
pub const NEW_LIC_SIZE: usize = 0x02;

/// The old licensee code.
pub const OLD_LIC_LOC: usize = 0x4B;

/// The cartridge type.
pub const CART_TYPE_LOC: usize = 0x47;

/// The ROM size code.
pub const ROM_SIZE_LOC: usize = 0x48;

/// The RAM size code.
pub const RAM_SIZE_LOC: usize = 0x49;

/// The destination code.
pub const DST_LOC: usize = 0x4A;

/// The version of the game.
pub const VERSION_LOC: usize = 0x4C;

/// The header checksum.
pub const CHECKSUM_LOC: usize = 0x4D;

/// The first byte that the header checksum covers.
pub const CHECKSUM_START: usize = 0x34;

/// The end of the bytes that the header checksum covers.
pub const CHECKSUM_END: usize = 0x4D;

/// The text that `String::from_utf8_lossy` makes of a byte sequence: the
/// bytes decoded as UTF-8, each malformed part replaced by U+FFFD.
pub uninterp spec fn utf8_lossy(bytes: Seq<u8>) -> Seq<char>;

/// Decodes `bytes` with `String::from_utf8_lossy` and owns the result. The
/// text depends on the bytes alone; the contract gives it a name and claims
/// nothing more of it.
#[verifier::external_body]
fn lossy_string(bytes: &[u8]) -> (text: String)
    ensures
        text@ == utf8_lossy(bytes@),
{
    String::from_utf8_lossy(bytes).to_string()
}

/// The name of the cartridge hardware for the type byte at 0x147.
pub open spec fn cart_type_name(code: u8) -> &'static str {
    match code {
        0x01 => "MBC1",
        0x02 => "MBC1+RAM",
        0x03 => "MBC1+RAM+BATTERY",
        0x05 => "MBC2",
        0x06 => "MBC2+BATTERY",
        0x08 => "ROM+RAM",
        0x09 => "ROM+RAM+BATTERY",
        0x0B => "MMM01",
        0x0C => "MMM01+RAM",
        0x0D => "MMM01+RAM+BATTERY",
        0x0F => "MBC3+TIMER+BATTERY",
        0x10 => "MBC3+TIMER+RAM+BATTERY",
        0x11 => "MBC3",
        0x12 => "MBC3+RAM",
        0x13 => "MBC3+RAM+BATTERY",
        0x19 => "MBC5",
        0x1A => "MBC5+RAM",
        0x1B => "MBC5+RAM+BATTERY",
        0x1C => "MBC5+RUMBLE",
        0x1D => "MBC5+RUMBLE+RAM",
        0x1E => "MBC5+RUMBLE+RAM+BATTERY",
        0x20 => "MBC6",
        0x22 => "MBC7+SENSOR+RUMBLE+RAM+BATTERY",
        0xFC => "POCKET CAMERA",
        0xFD => "BANDAI TAMA5",
        0xFE => "HuC3",
        0xFF => "HuC1+RAM+BATTERY",
        _ => "ROM ONLY",
    }
}

/// The publisher for a two-character licensee code, its two low nibbles
/// packed into one byte.
pub open spec fn new_licensee_name(code: u8) -> &'static str {
    match code {
        0x01 => "Nintendo",
        0x08 => "Capcom",
        0x13 => "Electronic Arts",
        0x18 => "Hudson Soft",
        0x19 => "B-AI",
        0x20 => "KSS",
        0x22 => "Pow",
        0x24 => "PCM Complete",
        0x25 => "San-X",
        0x28 => "Kemco",
        0x29 => "SETA",
        0x30 => "Viacom",
        0x31 => "Nintendo",
        0x32 => "Bandai",
        0x33 => "Ocean/Acclaim",
        0x34 => "Konami",
        0x35 => "Hector",
        0x37 => "Taito",
        0x38 => "Hudson Soft",
        0x39 => "Banpresto",
        0x41 => "Ubi Soft",
        0x42 => "Atlus",
        0x44 => "Malibu",
        0x46 => "Angel",
        0x47 => "Bullet-Proof",
        0x49 => "Irem",
        0x50 => "Absolute",
        0x51 => "Acclaim",
        0x52 => "Activision",
        0x53 => "American Sammy",
        0x54 => "Konami",
        0x55 => "Hi Tech Entertainment",
        0x56 => "LJN",
        0x57 => "Matchbox",
        0x58 => "Mattel",
        0x59 => "Milton Bradley",
        0x60 => "Titus",
        0x61 => "Virgin",
        0x64 => "LucasArts",
        0x67 => "Ocean",
        0x69 => "Electronic Arts",
        0x70 => "Infogrames",
        0x71 => "Interplay",
        0x72 => "Broderbund",
        0x73 => "Sculptured Software",
        0x75 => "The Sales Curve",
        0x78 => "THQ",
        0x79 => "Accolade",
        0x80 => "Misawa",
        0x83 => "LOZC",
        0x86 => "Tokuma Shoten Intermedia",
        0x87 => "Tsukuda Original",
        0x91 => "Chunsoft",
        0x92 => "Video System",
        0x93 => "Ocean/Acclaim",
        0x95 => "Varie",
        0x96 => "Yonezawa/s’pal",
        0x97 => "Kaneko",
        0x99 => "Pack in soft",
        0xA4 => "Konami (Yu-Gi-Oh!)",
        _ => "None",
    }
}

/// The publisher for the one-byte licensee code at 0x14B.
pub open spec fn old_licensee_name(code: u8) -> &'static str {
    match code {
        0x01 => "Nintendo",
        0x08 => "Capcom",
        0x09 => "Hot-B",
        0x0A => "Jaleco",
        0x0B => "Elite Systems",
        0x13 => "Electronic Arts",
        0x18 => "Hudson Soft",
        0x19 => "ITC entertainment",
        0x1A => "Yanoman",
        0x1D => "Clary",
        0x1F => "Virgin",
        0x24 => "PCM Complete",
        0x25 => "San-X",
        0x28 => "Kotobuki Systems",
        0x29 => "SETA",
        0x30 => "Infogrames",
        0x31 => "Nintendo",
        0x32 => "Bandai",
        0x34 => "Konami",
        0x35 => "Hector",
        0x38 => "Capcom",
        0x39 => "Banpresto",
        0x3C => "Entertainment Int",
        0x3E => "Gremlin",
        0x41 => "Ubi Soft",
        0x42 => "Atlus",
        0x44 => "Malibu",
        0x46 => "Angel",
        0x47 => "Spectrum Holoby",
        0x49 => "irem",
        0x4A => "Virgin",
        0x4D => "Malibu",
        0x4F => "U.S. Gold",
        0x50 => "Absolute",
        0x51 => "Acclaim",
        0x52 => "Activision",
        0x53 => "American Sammy",
        0x54 => "GameTek",
        0x55 => "Park Place",
        0x56 => "LJN",
        0x57 => "Matchbox",
        0x59 => "Milton Bradley",
        0x5A => "Mindscape",
        0x5B => "Romstar",
        0x5C => "Naxat Soft",
        0x5D => "Tradewest",
        0x60 => "Titus",
        0x61 => "Virgin",
        0x67 => "Ocean",
        0x69 => "Electronic Arts",
        0x6E => "Elite Systems",
        0x6F => "Electro Brain",
        0x70 => "Infogrames",
        0x71 => "Interplay",
        0x72 => "Broderbund",
        0x73 => "Sculptured Software",
        0x75 => "The Sales Curve",
        0x78 => "THQ",
        0x79 => "Accolade",
        0x7A => "Triffix",
        0x7C => "Microprose",
        0x7F => "Kemco",
        0x80 => "Misawa",
        0x83 => "LOZC",
        0x86 => "Tokuma Shoten Intermedia",
        0x8B => "Bullet-Proof",
        0x8C => "Vic Tokai",
        0x8E => "Ape",
        0x8F => "I'Max",
        0x91 => "Chunsoft",
        0x92 => "Video system",
        0x93 => "tsuburava",
        0x95 => "Varie",
        0x96 => "Yonezawa/s’pal",
        0x97 => "Kaneko",
        0x99 => "Arc",
        0x9A => "Nihon Bussan",
        0x9B => "Tecmo",
        0x9C => "Imagineer",
        0x9D => "Banpresto",
        0x9F => "Nova",
        0xA1 => "Hori Electric",
        0xA2 => "Bandai",
        0xA4 => "Konami (Yu-Gi-Oh!)",
        0xA6 => "Kawada",
        0xA7 => "Takara",
        0xA9 => "Technōs Japan",
        0xAA => "Broderbund",
        0xAC => "Toei Animation",
        0xAD => "Toho",
        0xAF => "Namco",
        0xB0 => "Acclaim",
        0xB1 => "Ascii/Nexoft",
        0xB2 => "Bandai",
        0xB4 => "Enix",
        0xB6 => "HAL",
        0xB7 => "SNK",
        0xB9 => "Pony Canyon",
        0xBA => "Culture Brain",
        0xBB => "Sunsoft",
        0xBD => "Sony Imagesoft",
        0xBF => "American Sammy",
        0xC0 => "Taito",
        0xC2 => "Kemco",
        0xC3 => "SquareSoft",
        0xC4 => "Tokuma Shoten Intermedia",
        0xC5 => "Data East",
        0xC6 => "Tonkin House",
        0xC8 => "Koei",
        0xC9 => "UFL",
        0xCA => "Ultra Games",
        0xCB => "VAP",
        0xCC => "Use Corporation",
        0xCD => "Meldac",
        0xCE => "Pony Canyon",
        0xCF => "Angel",
        0xD0 => "Taito",
        0xD1 => "SOFEL",
        0xD2 => "Quest",
        0xD3 => "Sigma Enterprises",
        0xD4 => "ASK Kodansha       ",
        0xD6 => "Naxat Soft",
        0xD7 => "Copya Systems",
        0xD9 => "Banpresto",
        0xDA => "Tomy",
        0xDB => "LJN",
        0xDD => "NCS",
        0xDE => "Human Entertainment",
        0xDF => "Altron",
        0xE0 => "Jaleco",
        0xE1 => "Towachiki",
        0xE2 => "Uutaka",
        0xE3 => "Varie",
        0xE5 => "Epoch",
        0xE7 => "Athena",
        0xE8 => "Asmik",
        0xE9 => "Natsume",
        0xEA => "King Records",
        0xEB => "Atlus",
        0xEC => "Epic/Sony Records",
        0xEE => "IGS",
        0xF0 => "A Wave",
        0xF3 => "Extreme Entertainment",
        0xFF => "LJN",
        _ => "None",
    }
}

/// The two-character licensee code as one byte: the low nibble of each
/// character, the first one high.
pub open spec fn new_licensee_code(first: u8, second: u8) -> u8 {
    ((first % 16) * 16 + second % 16) as u8
}

/// The publisher: by the old code, unless that is 0x33, which defers to the
/// two-character code.
pub open spec fn licensee_name(old: u8, new: Seq<u8>) -> &'static str {
    if old == 0x33 {
        new_licensee_name(new_licensee_code(new[0], new[1]))
    } else {
        old_licensee_name(old)
    }
}

/// The length of the title: eleven bytes where the CGB flag has the upper
/// nibble 0x8 or 0xC, sixteen otherwise.
pub open spec fn title_len(cgb_flag: u8) -> usize {
    if cgb_flag / 16 == 0x8 || cgb_flag / 16 == 0xC {
        CGB_TITLE_SIZE
    } else {
        DMG_TITLE_SIZE
    }
}

/// The size of the cartridge RAM in KiB for the code at 0x149.
pub open spec fn ram_kib(code: u8) -> u32 {
    if code == 0x02 {
        8
    } else if code == 0x03 {
        32
    } else if code == 0x04 {
        128
    } else if code == 0x05 {
        64
    } else {
        0
    }
}

/// The market for the code at 0x14A.
pub open spec fn destination_name(code: u8) -> &'static str {
    if code == 0x00 {
        "Japanese"
    } else {
        "Non-Japanese"
    }
}

/// The running header sum over `bytes`: from zero, each byte takes itself
/// and one more off the sum, modulo 256.
pub open spec fn header_sum(bytes: Seq<u8>) -> u8
    decreases bytes.len(),
{
    if bytes.len() == 0 {
        0
    } else {
        ((header_sum(bytes.drop_last()) + 255 - bytes.last()) % 256) as u8
    }
}

/// A decoded header. The ROM and RAM sizes are in KiB.
pub struct Header {
    pub title: String,
    pub licensee: &'static str,
    pub cgb_flag: u8,
    pub sgb_flag: u8,
    pub cart_type: &'static str,
    pub rom_size: u32,
    pub n_banks: u32,
    pub ram_size: u32,
    pub dst: &'static str,
    pub version: u8,
    pub checksum: bool,
}

impl Header {
    /// Whether the fields of `self` other than the title are what the eighty
    /// header bytes `buf` decode to.
    pub open spec fn decodes_fields(self, buf: Seq<u8>) -> bool {
        &&& self.licensee == licensee_name(
            buf[OLD_LIC_LOC as int],
            buf.subrange(NEW_LIC_LOC as int, NEW_LIC_LOC + NEW_LIC_SIZE),
        )
        &&& self.cgb_flag == buf[CGB_FLAG_LOC as int]
        &&& self.sgb_flag == buf[SGB_FLAG_LOC as int]
        &&& self.cart_type == cart_type_name(buf[CART_TYPE_LOC as int])
        &&& self.rom_size == 32u32 << buf[ROM_SIZE_LOC as int]
        &&& self.n_banks == 2u32 << buf[ROM_SIZE_LOC as int]
        &&& self.ram_size == ram_kib(buf[RAM_SIZE_LOC as int])
        &&& self.dst == destination_name(buf[DST_LOC as int])
        &&& self.version == buf[VERSION_LOC as int]
        &&& self.checksum == (header_sum(buf.subrange(CHECKSUM_START as int, CHECKSUM_END as int))
            == buf[CHECKSUM_LOC as int])
    }

    /// The bytes of the title within the eighty header bytes `buf`.
    pub open spec fn title_bytes(buf: Seq<u8>) -> Seq<u8> {
        buf.subrange(TITLE_LOC as int, TITLE_LOC + title_len(buf[CGB_FLAG_LOC as int]))
    }

    /// Whether `self` is what the eighty header bytes `buf` decode to.
    pub open spec fn decodes(self, buf: Seq<u8>) -> bool {
        &&& self.title@ == utf8_lossy(Self::title_bytes(buf))
        &&& self.decodes_fields(buf)
    }

    /// Decodes the eighty bytes of a header around a title that was decoded
    /// already. The ROM size code is a shift count and must stay below the
    /// width of the size.
    pub fn with_title(title: String, buf: &[u8]) -> (r: Header)
        requires
            buf@.len() == HEADER_SIZE,
            buf@[ROM_SIZE_LOC as int] < 32,
        ensures
            r.title == title,
            r.decodes_fields(buf@),
    {
        Header {
            title,
            licensee: licensee(
                buf[OLD_LIC_LOC],
                slice_subrange(buf, NEW_LIC_LOC, NEW_LIC_LOC + NEW_LIC_SIZE),
            ),
            cart_type: cart_type(buf[CART_TYPE_LOC]),
            cgb_flag: buf[CGB_FLAG_LOC],
            sgb_flag: buf[SGB_FLAG_LOC],
            rom_size: 32u32 << buf[ROM_SIZE_LOC],
            n_banks: 2u32 << buf[ROM_SIZE_LOC],
            ram_size: ram_size(buf[RAM_SIZE_LOC]),
            dst: destination(buf[DST_LOC]),
            version: buf[VERSION_LOC],
            checksum: checksum(
                buf[CHECKSUM_LOC],
                slice_subrange(buf, CHECKSUM_START, CHECKSUM_END),
            ),
        }
    }

    /// Decodes the eighty bytes of a header. The ROM size code is a shift
    /// count and must stay below the width of the size.
    pub fn new(buf: &[u8]) -> (r: Header)
        requires
            buf@.len() == HEADER_SIZE,
            buf@[ROM_SIZE_LOC as int] < 32,
        ensures
            r.decodes(buf@),
    {
        let title_end = TITLE_LOC + title_size(buf[CGB_FLAG_LOC]);
        let slice = slice_subrange(buf, TITLE_LOC, title_end);
        let title = lossy_string(slice);

        Header::with_title(title, buf)
    }
}

impl Header {
    /// The ROM size as it is shown: in MBs above 512 KBs, else in KBs.
    pub fn rom_size_shown(&self) -> (r: (u32, &'static str))
        ensures
            self.rom_size > 512 ==> r == (self.rom_size / 1024, "MBs"),
            self.rom_size <= 512 ==> r == (self.rom_size, "KBs"),
    {
        if self.rom_size > 512 {
            (self.rom_size / 1024, "MBs")
        } else {
            (self.rom_size, "KBs")
        }
    }

    /// The number of RAM banks of 8 KBs, where the cartridge has RAM.
    pub fn ram_banks(&self) -> (r: Option<u32>)
        ensures
            self.ram_size == 0 ==> r is None,
            self.ram_size > 0 ==> r == Some(self.ram_size / 8),
    {
        if self.ram_size > 0 {
            Some(self.ram_size / 8)
        } else {
            None
        }
    }

    /// The verdict on the header checksum as it is shown.
    pub fn checksum_shown(&self) -> (r: &'static str)
        ensures
            self.checksum ==> r == "Ok",
            !self.checksum ==> r == "Failed",
    {
        if self.checksum {
            "Ok"
        } else {
            "Failed"
        }
    }
}

/// The publisher, by the old licensee code and the two characters of the new one.
pub fn licensee(old: u8, new: &[u8]) -> (r: &'static str)
    requires
        new@.len() == NEW_LIC_SIZE,
    ensures
        r == licensee_name(old, new@),
{
    let hi = new[0] & 0x0F;
    let lo = new[1] & 0x0F;
    proof {
        lemma_pack_nibbles(new[0], new[1]);
    }
    let new_lic_code = hi << 4 | lo;
    if old == 0x33 {
        new_licensee(new_lic_code)
    } else {
        old_licensee(old)
    }
}

proof fn lemma_pack_nibbles(first: u8, second: u8)
    by (bit_vector)
    ensures
        (first & 0x0F) << 4 | (second & 0x0F) == (first % 16) * 16 + second % 16,
        (first & 0xF0 == 0x80) <==> first / 16 == 0x8,
        (first & 0xF0 == 0xC0) <==> first / 16 == 0xC,
{
}

fn new_licensee(code: u8) -> (r: &'static str)
    ensures
        r == new_licensee_name(code),
{
    match code {
        0x01 => "Nintendo",
        0x08 => "Capcom",
        0x13 => "Electronic Arts",
        0x18 => "Hudson Soft",
        0x19 => "B-AI",
        0x20 => "KSS",
        0x22 => "Pow",
        0x24 => "PCM Complete",
        0x25 => "San-X",
        0x28 => "Kemco",
        0x29 => "SETA",
        0x30 => "Viacom",
        0x31 => "Nintendo",
        0x32 => "Bandai",
        0x33 => "Ocean/Acclaim",
        0x34 => "Konami",
        0x35 => "Hector",
        0x37 => "Taito",
        0x38 => "Hudson Soft",
        0x39 => "Banpresto",
        0x41 => "Ubi Soft",
        0x42 => "Atlus",
        0x44 => "Malibu",
        0x46 => "Angel",
        0x47 => "Bullet-Proof",
        0x49 => "Irem",
        0x50 => "Absolute",
        0x51 => "Acclaim",
        0x52 => "Activision",
        0x53 => "American Sammy",
        0x54 => "Konami",
        0x55 => "Hi Tech Entertainment",
        0x56 => "LJN",
        0x57 => "Matchbox",
        0x58 => "Mattel",
        0x59 => "Milton Bradley",
        0x60 => "Titus",
        0x61 => "Virgin",
        0x64 => "LucasArts",
        0x67 => "Ocean",
        0x69 => "Electronic Arts",
        0x70 => "Infogrames",
        0x71 => "Interplay",
        0x72 => "Broderbund",
        0x73 => "Sculptured Software",
        0x75 => "The Sales Curve",
        0x78 => "THQ",
        0x79 => "Accolade",
        0x80 => "Misawa",
        0x83 => "LOZC",
        0x86 => "Tokuma Shoten Intermedia",
        0x87 => "Tsukuda Original",
        0x91 => "Chunsoft",
        0x92 => "Video System",
        0x93 => "Ocean/Acclaim",
        0x95 => "Varie",
        0x96 => "Yonezawa/s’pal",
        0x97 => "Kaneko",
        0x99 => "Pack in soft",
        0xA4 => "Konami (Yu-Gi-Oh!)",
        _ => "None",
    }
}

fn old_licensee(code: u8) -> (r: &'static str)
    ensures
        r == old_licensee_name(code),
{
    match code {
        0x01 => "Nintendo",
        0x08 => "Capcom",
        0x09 => "Hot-B",
        0x0A => "Jaleco",
        0x0B => "Elite Systems",
        0x13 => "Electronic Arts",
        0x18 => "Hudson Soft",
        0x19 => "ITC entertainment",
        0x1A => "Yanoman",
        0x1D => "Clary",
        0x1F => "Virgin",
        0x24 => "PCM Complete",
        0x25 => "San-X",
        0x28 => "Kotobuki Systems",
        0x29 => "SETA",
        0x30 => "Infogrames",
        0x31 => "Nintendo",
        0x32 => "Bandai",
        0x34 => "Konami",
        0x35 => "Hector",
        0x38 => "Capcom",
        0x39 => "Banpresto",
        0x3C => "Entertainment Int",
        0x3E => "Gremlin",
        0x41 => "Ubi Soft",
        0x42 => "Atlus",
        0x44 => "Malibu",
        0x46 => "Angel",
        0x47 => "Spectrum Holoby",
        0x49 => "irem",
        0x4A => "Virgin",
        0x4D => "Malibu",
        0x4F => "U.S. Gold",
        0x50 => "Absolute",
        0x51 => "Acclaim",
        0x52 => "Activision",
        0x53 => "American Sammy",
        0x54 => "GameTek",
        0x55 => "Park Place",
        0x56 => "LJN",
        0x57 => "Matchbox",
        0x59 => "Milton Bradley",
        0x5A => "Mindscape",
        0x5B => "Romstar",
        0x5C => "Naxat Soft",
        0x5D => "Tradewest",
        0x60 => "Titus",
        0x61 => "Virgin",
        0x67 => "Ocean",
        0x69 => "Electronic Arts",
        0x6E => "Elite Systems",
        0x6F => "Electro Brain",
        0x70 => "Infogrames",
        0x71 => "Interplay",
        0x72 => "Broderbund",
        0x73 => "Sculptured Software",
        0x75 => "The Sales Curve",
        0x78 => "THQ",
        0x79 => "Accolade",
        0x7A => "Triffix",
        0x7C => "Microprose",
        0x7F => "Kemco",
        0x80 => "Misawa",
        0x83 => "LOZC",
        0x86 => "Tokuma Shoten Intermedia",
        0x8B => "Bullet-Proof",
        0x8C => "Vic Tokai",
        0x8E => "Ape",
        0x8F => "I'Max",
        0x91 => "Chunsoft",
        0x92 => "Video system",
        0x93 => "tsuburava",
        0x95 => "Varie",
        0x96 => "Yonezawa/s’pal",
        0x97 => "Kaneko",
        0x99 => "Arc",
        0x9A => "Nihon Bussan",
        0x9B => "Tecmo",
        0x9C => "Imagineer",
        0x9D => "Banpresto",
        0x9F => "Nova",
        0xA1 => "Hori Electric",
        0xA2 => "Bandai",
        0xA4 => "Konami (Yu-Gi-Oh!)",
        0xA6 => "Kawada",
        0xA7 => "Takara",
        0xA9 => "Technōs Japan",
        0xAA => "Broderbund",
        0xAC => "Toei Animation",
        0xAD => "Toho",
        0xAF => "Namco",
        0xB0 => "Acclaim",
        0xB1 => "Ascii/Nexoft",
        0xB2 => "Bandai",
        0xB4 => "Enix",
        0xB6 => "HAL",
        0xB7 => "SNK",
        0xB9 => "Pony Canyon",
        0xBA => "Culture Brain",
        0xBB => "Sunsoft",
        0xBD => "Sony Imagesoft",
        0xBF => "American Sammy",
        0xC0 => "Taito",
        0xC2 => "Kemco",
        0xC3 => "SquareSoft",
        0xC4 => "Tokuma Shoten Intermedia",
        0xC5 => "Data East",
        0xC6 => "Tonkin House",
        0xC8 => "Koei",
        0xC9 => "UFL",
        0xCA => "Ultra Games",
        0xCB => "VAP",
        0xCC => "Use Corporation",
        0xCD => "Meldac",
        0xCE => "Pony Canyon",
        0xCF => "Angel",
        0xD0 => "Taito",
        0xD1 => "SOFEL",
        0xD2 => "Quest",
        0xD3 => "Sigma Enterprises",
        0xD4 => "ASK Kodansha       ",
        0xD6 => "Naxat Soft",
        0xD7 => "Copya Systems",
        0xD9 => "Banpresto",
        0xDA => "Tomy",
        0xDB => "LJN",
        0xDD => "NCS",
        0xDE => "Human Entertainment",
        0xDF => "Altron",
        0xE0 => "Jaleco",
        0xE1 => "Towachiki",
        0xE2 => "Uutaka",
        0xE3 => "Varie",
        0xE5 => "Epoch",
        0xE7 => "Athena",
        0xE8 => "Asmik",
        0xE9 => "Natsume",
        0xEA => "King Records",
        0xEB => "Atlus",
        0xEC => "Epic/Sony Records",
        0xEE => "IGS",
        0xF0 => "A Wave",
        0xF3 => "Extreme Entertainment",
        0xFF => "LJN",
        _ => "None",
    }
}

/// The name of the cartridge hardware for a type byte.
pub fn cart_type(code: u8) -> (r: &'static str)
    ensures
        r == cart_type_name(code),
{
    match code {
        0x01 => "MBC1",
        0x02 => "MBC1+RAM",
        0x03 => "MBC1+RAM+BATTERY",
        0x05 => "MBC2",
        0x06 => "MBC2+BATTERY",
        0x08 => "ROM+RAM",
        0x09 => "ROM+RAM+BATTERY",
        0x0B => "MMM01",
        0x0C => "MMM01+RAM",
        0x0D => "MMM01+RAM+BATTERY",
        0x0F => "MBC3+TIMER+BATTERY",
        0x10 => "MBC3+TIMER+RAM+BATTERY",
        0x11 => "MBC3",
        0x12 => "MBC3+RAM",
        0x13 => "MBC3+RAM+BATTERY",
        0x19 => "MBC5",
        0x1A => "MBC5+RAM",
        0x1B => "MBC5+RAM+BATTERY",
        0x1C => "MBC5+RUMBLE",
        0x1D => "MBC5+RUMBLE+RAM",
        0x1E => "MBC5+RUMBLE+RAM+BATTERY",
        0x20 => "MBC6",
        0x22 => "MBC7+SENSOR+RUMBLE+RAM+BATTERY",
        0xFC => "POCKET CAMERA",
        0xFD => "BANDAI TAMA5",
        0xFE => "HuC3",
        0xFF => "HuC1+RAM+BATTERY",
        _ => "ROM ONLY",
    }
}

/// The length of the title for a CGB flag.
pub fn title_size(code: u8) -> (r: usize)
    ensures
        r == title_len(code),
{
    proof {
        lemma_pack_nibbles(code, 0);
    }
    if code & 0xF0 == 0x80 || code & 0xF0 == 0xC0 {
        CGB_TITLE_SIZE
    } else {
        DMG_TITLE_SIZE
    }
}

/// The size of the cartridge RAM in KiB for a size code.
pub fn ram_size(code: u8) -> (r: u32)
    ensures
        r == ram_kib(code),
{
    match code {
        0x02 => 8,
        0x03 => 32,
        0x04 => 128,
        0x05 => 64,
        _ => 0,
    }
}

/// The market for a destination code.
pub fn destination(code: u8) -> (r: &'static str)
    ensures
        r == destination_name(code),
{
    match code {
        0x00 => "Japanese",
        _ => "Non-Japanese",
    }
}

/// Whether `sum` is the header sum of the twenty-five `bytes`.
pub fn checksum(sum: u8, bytes: &[u8]) -> (r: bool)
    requires
        bytes@.len() == CHECKSUM_END - CHECKSUM_START,
    ensures
        r == (header_sum(bytes@) == sum),
{
    let mut x: u8 = 0;
    let mut i: usize = 0;
    while i < bytes.len()
        invariant
            i <= bytes@.len(),
            x == header_sum(bytes@.subrange(0, i as int)),
        decreases bytes@.len() - i,
    {
        proof {
            let next = bytes@.subrange(0, i + 1);
            assert(next.drop_last() =~= bytes@.subrange(0, i as int));
            assert(next.last() == bytes@[i as int]);
            assert(header_sum(next) == ((header_sum(next.drop_last()) + 255 - next.last())
                % 256) as u8);
        }
        x = x.wrapping_sub(bytes[i]).wrapping_sub(1);
        i += 1;
    }
    assert(bytes@.subrange(0, i as int) =~= bytes@);
    x == sum
}

} // verus!
