//! The register file: seven byte registers, the flag byte, PC and SP.
use vstd::prelude::*;
use crate::bits::{lemma_byte_fields, lemma_mask_update, lemma_word_fields};

verus! {

/// A set of the four condition flags, laid out as the upper nibble of F:
/// Z is bit 7, N bit 6, H bit 5 and C bit 4.
#[derive(Clone, Copy, Debug, PartialEq, Eq, Structural)]
pub struct Flags {
    pub bits: u8,
}

impl Flags {
    /// No bit of the lower nibble is set.
    pub open spec fn wf(self) -> bool {
        self.bits % 16 == 0
    }

    /// Z is in the set.
    pub open spec fn has_z(self) -> bool {
        self.bits / 128 % 2 == 1
    }

    /// N is in the set.
    pub open spec fn has_n(self) -> bool {
        self.bits / 64 % 2 == 1
    }

    /// H is in the set.
    pub open spec fn has_h(self) -> bool {
        self.bits / 32 % 2 == 1
    }

    /// C is in the set.
    pub open spec fn has_c(self) -> bool {
        self.bits / 16 % 2 == 1
    }

    /// The flag set that holds exactly the flags given.
    #[verifier::opaque]
    pub open spec fn of(z: bool, n: bool, h: bool, c: bool) -> Flags {
        let z_bit: int = if z { 0x80 } else { 0 };
        let n_bit: int = if n { 0x40 } else { 0 };
        let h_bit: int = if h { 0x20 } else { 0 };
        let c_bit: int = if c { 0x10 } else { 0 };
        Flags { bits: (z_bit + n_bit + h_bit + c_bit) as u8 }
    }

    /// `self` with every flag of `mask` set to `value`, the others kept.
    pub open spec fn with(self, mask: Flags, value: bool) -> Flags {
        Flags::of(
            if mask.has_z() { value } else { self.has_z() },
            if mask.has_n() { value } else { self.has_n() },
            if mask.has_h() { value } else { self.has_h() },
            if mask.has_c() { value } else { self.has_c() },
        )
    }

    /// A well-formed flag set is the one built from its four flags.
    pub proof fn lemma_of_flags(self)
        requires
            self.wf(),
        ensures
            self == Flags::of(self.has_z(), self.has_n(), self.has_h(), self.has_c()),
    {
        reveal(Flags::of);
    }

    /// Building a flag set from four flags gives back those flags.
    pub broadcast proof fn lemma_flags_of(z: bool, n: bool, h: bool, c: bool)
        ensures
            (#[trigger] Flags::of(z, n, h, c)).wf(),
            Flags::of(z, n, h, c).has_z() == z,
            Flags::of(z, n, h, c).has_n() == n,
            Flags::of(z, n, h, c).has_h() == h,
            Flags::of(z, n, h, c).has_c() == c,
            Flags::of(z, n, h, c).bits == (if z { 0x80int } else { 0 }) + (if n { 0x40int } else { 0 }) + (
            if h { 0x20int } else { 0 }) + (if c { 0x10int } else { 0 }),
    {
        reveal(Flags::of);
    }

    /// No flag.
    pub fn empty() -> (r: Flags)
        ensures
            r == Flags::of(false, false, false, false),
    {
        proof {
            reveal(Flags::of);
        }
        Flags { bits: 0x00 }
    }

    /// The zero flag.
    pub fn z() -> (r: Flags)
        ensures
            r == Flags::of(true, false, false, false),
    {
        proof {
            reveal(Flags::of);
        }
        Flags { bits: 0x80 }
    }

    /// The subtraction flag.
    pub fn n() -> (r: Flags)
        ensures
            r == Flags::of(false, true, false, false),
    {
        proof {
            reveal(Flags::of);
        }
        Flags { bits: 0x40 }
    }

    /// The half-carry flag.
    pub fn h() -> (r: Flags)
        ensures
            r == Flags::of(false, false, true, false),
    {
        proof {
            reveal(Flags::of);
        }
        Flags { bits: 0x20 }
    }

    /// The carry flag.
    pub fn c() -> (r: Flags)
        ensures
            r == Flags::of(false, false, false, true),
    {
        proof {
            reveal(Flags::of);
        }
        Flags { bits: 0x10 }
    }

    /// Keeps the four defined bits of `bits` and drops the rest.
    pub fn from_bits_truncate(bits: u8) -> (r: Flags)
        ensures
            r.wf(),
            r.bits == bits - bits % 16,
    {
        proof {
            lemma_byte_fields(bits);
        }
        Flags { bits: bits & 0xF0 }
    }

    /// The set as a byte.
    pub fn bits(&self) -> (r: u8)
        ensures
            r == self.bits,
    {
        self.bits
    }

    /// The flags of either set.
    pub fn union(self, other: Flags) -> (r: Flags)
        ensures
            r == Flags::of(
                self.has_z() || other.has_z(),
                self.has_n() || other.has_n(),
                self.has_h() || other.has_h(),
                self.has_c() || other.has_c(),
            ),
    {
        let r = Flags { bits: (self.bits | other.bits) & 0xF0 };
        proof {
            lemma_mask_update(self.bits, other.bits);
            r.lemma_of_flags();
        }
        r
    }

    /// Whether every flag of `other` is in `self`.
    pub fn contains(&self, other: Flags) -> (r: bool)
        ensures
            r == ((other.has_z() ==> self.has_z()) && (other.has_n() ==> self.has_n()) && (
            other.has_h() ==> self.has_h()) && (other.has_c() ==> self.has_c())),
    {
        proof {
            lemma_mask_update(self.bits, other.bits);
        }
        let mask = other.bits & 0xF0;
        self.bits & mask == mask
    }

    /// Sets every flag of `other` to `value`. The lower nibble is cleared
    /// on every write.
    pub fn set(&mut self, other: Flags, value: bool)
        ensures
            *final(self) == old(self).with(other, value),
            final(self).wf(),
    {
        proof {
            lemma_mask_update(self.bits, other.bits);
        }
        if value {
            self.bits = (self.bits | other.bits) & 0xF0;
        } else {
            self.bits = (self.bits & !other.bits) & 0xF0;
        }
        proof {
            self.lemma_of_flags();
        }
    }
}

/// The byte registers that an instruction can name.
#[derive(Debug, Clone, Copy, PartialEq, Eq, Structural)]
pub enum Reg {
    A,
    B,
    C,
    D,
    E,
    H,
    L,
}

/// The register pairs, and SP.
#[derive(Debug, Clone, Copy, PartialEq, Eq, Structural)]
pub enum Reg16 {
    BC,
    DE,
    HL,
    SP,
    AF,
}

/// A number brought back into a word: the sum of two words modulo two to
/// the sixteenth.
pub open spec fn wrap16(value: int) -> u16 {
    if value > 0xFFFF {
        (value - 0x10000) as u16
    } else {
        value as u16
    }
}

/// The word whose high byte is `hi` and whose low byte is `lo`.
pub open spec fn word_of(hi: u8, lo: u8) -> u16 {
    (hi as int * 256 + lo as int) as u16
}

/// The high byte of a word.
pub open spec fn high_byte(value: u16) -> u8 {
    (value / 256) as u8
}

/// The low byte of a word.
pub open spec fn low_byte(value: u16) -> u8 {
    (value % 256) as u8
}

/// The register file.
#[derive(Debug, Clone, Copy, PartialEq, Eq, Structural)]
pub struct Registers {
    pub a: u8,
    pub f: Flags,
    pub b: u8,
    pub c: u8,
    pub d: u8,
    pub e: u8,
    pub h: u8,
    pub l: u8,
    pub pc: u16,
    pub sp: u16,
}

impl Registers {
    /// The lower nibble of F is zero.
    pub open spec fn wf(self) -> bool {
        self.f.wf()
    }

    /// The register file at power-on.
    pub open spec fn power_on() -> Registers {
        Registers {
            a: 0x01,
            f: Flags { bits: 0xB0 },
            b: 0x00,
            c: 0x13,
            d: 0x00,
            e: 0xD8,
            h: 0x01,
            l: 0x4D,
            pc: 0x0100,
            sp: 0xFFFE,
        }
    }

    /// The value of a pair: big-endian over its two registers.
    pub open spec fn pair(self, rr: Reg16) -> u16 {
        match rr {
            Reg16::BC => word_of(self.b, self.c),
            Reg16::DE => word_of(self.d, self.e),
            Reg16::HL => word_of(self.h, self.l),
            Reg16::SP => self.sp,
            Reg16::AF => word_of(self.a, self.f.bits),
        }
    }

    /// The register file after a pair was written. Writing AF keeps only the
    /// upper nibble of the low byte.
    pub open spec fn with_pair(self, rr: Reg16, value: u16) -> Registers {
        match rr {
            Reg16::BC => Registers { b: high_byte(value), c: low_byte(value), ..self },
            Reg16::DE => Registers { d: high_byte(value), e: low_byte(value), ..self },
            Reg16::HL => Registers { h: high_byte(value), l: low_byte(value), ..self },
            Reg16::SP => Registers { sp: value, ..self },
            Reg16::AF => Registers {
                a: high_byte(value),
                f: Flags { bits: (low_byte(value) - low_byte(value) % 16) as u8 },
                ..self
            },
        }
    }

    /// The register file with the flags of `mask` set to `value`.
    pub open spec fn with_flags(self, mask: Flags, value: bool) -> Registers {
        Registers { f: self.f.with(mask, value), ..self }
    }

    /// The register file at power-on.
    pub fn new() -> (r: Registers)
        ensures
            r == Registers::power_on(),
            r.wf(),
    {
        Registers {
            a: 0x01,
            f: Flags::from_bits_truncate(0xB0),
            b: 0x00,
            c: 0x13,
            d: 0x00,
            e: 0xD8,
            h: 0x01,
            l: 0x4D,
            pc: 0x0100,
            sp: 0xFFFE,
        }
    }

    /// Whether Z is set.
    pub fn zf(&self) -> (r: bool)
        ensures
            r == self.f.has_z(),
    {
        proof {
            Flags::lemma_flags_of(true, false, false, false);
        }
        self.f.contains(Flags::z())
    }

    /// Whether N is set.
    pub fn nf(&self) -> (r: bool)
        ensures
            r == self.f.has_n(),
    {
        proof {
            Flags::lemma_flags_of(false, true, false, false);
        }
        self.f.contains(Flags::n())
    }

    /// Whether H is set.
    pub fn hf(&self) -> (r: bool)
        ensures
            r == self.f.has_h(),
    {
        proof {
            Flags::lemma_flags_of(false, false, true, false);
        }
        self.f.contains(Flags::h())
    }

    /// Whether C is set.
    pub fn cf(&self) -> (r: bool)
        ensures
            r == self.f.has_c(),
    {
        proof {
            Flags::lemma_flags_of(false, false, false, true);
        }
        self.f.contains(Flags::c())
    }

    /// Sets every flag of `flags` to `value` and keeps the others.
    pub fn set_flags(&mut self, flags: Flags, value: bool)
        ensures
            *final(self) == old(self).with_flags(flags, value),
            final(self).wf(),
    {
        self.f.set(flags, value);
    }

    /// The pair BC.
    pub fn bc(&self) -> (r: u16)
        ensures
            r == self.pair(Reg16::BC),
    {
        proof {
            lemma_word_fields(self.b, self.c, 0);
        }
        (u16::from(self.b) << 8) | u16::from(self.c)
    }

    /// Writes the pair BC.
    pub fn set_bc(&mut self, value: u16)
        ensures
            *final(self) == old(self).with_pair(Reg16::BC, value),
    {
        let (hi, lo) = get_reverse_bytes(value);
        self.b = hi;
        self.c = lo;
    }

    /// The pair DE.
    pub fn de(&self) -> (r: u16)
        ensures
            r == self.pair(Reg16::DE),
    {
        proof {
            lemma_word_fields(self.d, self.e, 0);
        }
        (u16::from(self.d) << 8) | u16::from(self.e)
    }

    /// Writes the pair DE.
    pub fn set_de(&mut self, value: u16)
        ensures
            *final(self) == old(self).with_pair(Reg16::DE, value),
    {
        let (hi, lo) = get_reverse_bytes(value);
        self.d = hi;
        self.e = lo;
    }

    /// The pair HL.
    pub fn hl(&self) -> (r: u16)
        ensures
            r == self.pair(Reg16::HL),
    {
        proof {
            lemma_word_fields(self.h, self.l, 0);
        }
        (u16::from(self.h) << 8) | u16::from(self.l)
    }

    /// HL becomes HL + 1, wrapping at 0xFFFF.
    pub fn inc_hl(&mut self)
        ensures
            *final(self) == old(self).with_pair(
                Reg16::HL,
                wrap16(old(self).pair(Reg16::HL) + 1),
            ),
    {
        let hl = self.hl();
        self.set_hl(hl.wrapping_add(1));
    }

    /// HL becomes HL - 1, wrapping at zero.
    pub fn dec_hl(&mut self)
        ensures
            *final(self) == old(self).with_pair(
                Reg16::HL,
                wrap16(old(self).pair(Reg16::HL) + 0xFFFF),
            ),
    {
        let hl = self.hl();
        self.set_hl(hl.wrapping_sub(1));
    }

    /// Writes the pair HL.
    pub fn set_hl(&mut self, value: u16)
        ensures
            *final(self) == old(self).with_pair(Reg16::HL, value),
    {
        let (hi, lo) = get_reverse_bytes(value);
        self.h = hi;
        self.l = lo;
    }

    /// SP becomes SP + 1, wrapping at 0xFFFF.
    pub fn inc_sp(&mut self)
        ensures
            *final(self) == (Registers { sp: wrap16(old(self).sp + 1), ..*old(self) }),
    {
        self.sp = self.sp.wrapping_add(1);
    }

    /// SP becomes SP - 1, wrapping at zero.
    pub fn dec_sp(&mut self)
        ensures
            *final(self) == (Registers {
                sp: wrap16(old(self).sp + 0xFFFF),
                ..*old(self)
            }),
    {
        self.sp = self.sp.wrapping_sub(1);
    }

    /// The pair AF.
    pub fn af(&self) -> (r: u16)
        ensures
            r == self.pair(Reg16::AF),
    {
        proof {
            lemma_word_fields(self.a, self.f.bits, 0);
        }
        (u16::from(self.a) << 8) | u16::from(self.f.bits())
    }

    /// Writes the pair AF; of the low byte only the upper nibble is kept.
    pub fn set_af(&mut self, value: u16)
        ensures
            *final(self) == old(self).with_pair(Reg16::AF, value),
            final(self).wf(),
    {
        let (hi, lo) = get_reverse_bytes(value);
        self.a = hi;
        self.f = Flags::from_bits_truncate(lo);
    }

    /// The value of a pair.
    pub fn read16(&self, src: Reg16) -> (r: u16)
        ensures
            r == self.pair(src),
    {
        match src {
            Reg16::BC => self.bc(),
            Reg16::DE => self.de(),
            Reg16::HL => self.hl(),
            Reg16::SP => self.sp,
            Reg16::AF => self.af(),
        }
    }

    /// Writes a pair.
    pub fn write16(&mut self, dst: Reg16, data: u16)
        ensures
            *final(self) == old(self).with_pair(dst, data),
            old(self).wf() ==> final(self).wf(),
    {
        match dst {
            Reg16::BC => self.set_bc(data),
            Reg16::DE => self.set_de(data),
            Reg16::HL => self.set_hl(data),
            Reg16::SP => self.sp = data,
            Reg16::AF => self.set_af(data),
        }
    }

    /// Writing a pair keeps the flags well-formed.
    pub proof fn lemma_with_pair_wf(self, rr: Reg16, value: u16)
        requires
            self.wf(),
        ensures
            self.with_pair(rr, value).wf(),
    {
    }

    /// Writing a pair and reading it back gives the value written; for AF,
    /// with the lower nibble cleared.
    pub proof fn lemma_pair_written(self, rr: Reg16, value: u16)
        ensures
            rr != Reg16::AF ==> self.with_pair(rr, value).pair(rr) == value,
            rr == Reg16::AF ==> self.with_pair(rr, value).pair(rr) == value - value % 16,
    {
    }

    /// Writing back the value that a pair holds changes nothing.
    pub proof fn lemma_pair_restored(self, rr: Reg16)
        requires
            self.wf(),
        ensures
            self.with_pair(rr, self.pair(rr)) == self,
    {
    }
}

/// The high and the low byte of a word, in that order.
pub fn get_reverse_bytes(value: u16) -> (r: (u8, u8))
    ensures
        r.0 == high_byte(value),
        r.1 == low_byte(value),
{
    proof {
        lemma_word_fields(0, 0, value);
    }
    let hi = (value >> 8) as u8;
    let lo = (value & 0x00FF) as u8;
    (hi, lo)
}

} // verus!
