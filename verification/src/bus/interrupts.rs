//! The interrupt controller: request flags (IF) and enable mask (IE).
use vstd::prelude::*;
use crate::bits::lemma_low_five;

verus! {

/// A set of the five interrupt kinds: VBLANK is bit 0, STAT bit 1, TIMER
/// bit 2, SERIAL bit 3 and JOYPAD bit 4. VBLANK has the highest priority.
#[derive(Clone, Copy, Debug, PartialEq, Eq, Structural)]
pub struct InterruptFlag {
    pub bits: u8,
}

impl InterruptFlag {
    /// Only the five defined bits may be set.
    pub open spec fn wf(self) -> bool {
        self.bits < 0x20
    }

    /// No interrupt.
    pub fn empty() -> (r: InterruptFlag)
        ensures
            r.bits == 0,
    {
        InterruptFlag { bits: 0 }
    }

    /// The vertical blank.
    pub fn vblank() -> (r: InterruptFlag)
        ensures
            r.bits == 0x01,
    {
        InterruptFlag { bits: 0x01 }
    }

    /// The LCD status.
    pub fn stat() -> (r: InterruptFlag)
        ensures
            r.bits == 0x02,
    {
        InterruptFlag { bits: 0x02 }
    }

    /// The overflow of the timer.
    pub fn timer() -> (r: InterruptFlag)
        ensures
            r.bits == 0x04,
    {
        InterruptFlag { bits: 0x04 }
    }

    /// The end of a serial transfer.
    pub fn serial() -> (r: InterruptFlag)
        ensures
            r.bits == 0x08,
    {
        InterruptFlag { bits: 0x08 }
    }

    /// A key going down.
    pub fn joypad() -> (r: InterruptFlag)
        ensures
            r.bits == 0x10,
    {
        InterruptFlag { bits: 0x10 }
    }

    /// Keeps the five defined bits of `bits` and drops the rest.
    pub fn from_bits_truncate(bits: u8) -> (r: InterruptFlag)
        ensures
            r.bits == bits & 0x1F,
            r.wf(),
    {
        proof {
            lemma_low_five(bits, 0);
        }
        InterruptFlag { bits: bits & 0x1F }
    }

    /// The set as a byte.
    pub fn bits(&self) -> (r: u8)
        ensures
            r == self.bits,
    {
        self.bits
    }

    /// Whether the set holds no interrupt.
    pub fn is_empty(&self) -> (r: bool)
        ensures
            r == (self.bits == 0),
    {
        self.bits == 0
    }

    /// The kinds that are in both sets.
    pub fn intersection(self, other: InterruptFlag) -> (r: InterruptFlag)
        ensures
            r.bits == self.bits & other.bits,
            self.wf() ==> r.wf(),
    {
        proof {
            lemma_low_five(self.bits, other.bits);
        }
        InterruptFlag { bits: self.bits & other.bits }
    }

    /// Adds the kinds of `other`.
    pub fn insert(&mut self, other: InterruptFlag)
        ensures
            final(self).bits == old(self).bits | other.bits,
            old(self).wf() && other.wf() ==> final(self).wf(),
    {
        proof {
            lemma_low_five(self.bits, other.bits);
        }
        self.bits = self.bits | other.bits;
    }

    /// Takes out the kinds of `other`.
    pub fn remove(&mut self, other: InterruptFlag)
        ensures
            final(self).bits == old(self).bits & !other.bits,
            old(self).wf() ==> final(self).wf(),
    {
        proof {
            lemma_low_five(self.bits, other.bits);
        }
        self.bits = self.bits & !other.bits;
    }
}

/// The request flags IF and the enable mask IE.
#[derive(Clone, Copy, Debug, PartialEq, Eq, Structural)]
pub struct Interrupts {
    pub flags: InterruptFlag,
    pub enable: u8,
}

impl Interrupts {
    /// Only the five defined bits of IF may be set.
    pub open spec fn wf(self) -> bool {
        self.flags.wf()
    }

    /// The controller after `intr` was requested.
    pub open spec fn requested(self, intr: InterruptFlag) -> Interrupts {
        Interrupts { flags: InterruptFlag { bits: self.flags.bits | intr.bits }, ..self }
    }

    /// The requests that are enabled: IF and IE.
    pub open spec fn pending(self) -> InterruptFlag {
        InterruptFlag { bits: self.flags.bits & self.enable }
    }

    /// The controller after `intr` was acknowledged.
    pub open spec fn acknowledged(self, intr: InterruptFlag) -> Interrupts {
        Interrupts { flags: InterruptFlag { bits: self.flags.bits & !intr.bits }, ..self }
    }

    /// No request, nothing enabled.
    pub fn new() -> (r: Interrupts)
        ensures
            r.flags.bits == 0,
            r.enable == 0,
            r.wf(),
    {
        Interrupts { flags: InterruptFlag::empty(), enable: 0x00 }
    }

    /// Requests the interrupts of `intr`.
    pub fn request(&mut self, intr: InterruptFlag)
        ensures
            *final(self) == old(self).requested(intr),
            old(self).wf() && intr.wf() ==> final(self).wf(),
    {
        self.flags.insert(intr);
    }

    /// IF as it is read.
    pub fn flags(&self) -> (r: u8)
        ensures
            r == self.flags.bits,
    {
        self.flags.bits()
    }

    /// Writes IF: the five defined bits of `value` are kept.
    pub fn set_flags(&mut self, value: u8)
        ensures
            final(self).flags.bits == value & 0x1F,
            final(self).enable == old(self).enable,
            final(self).wf(),
    {
        self.flags = InterruptFlag::from_bits_truncate(value);
    }

    /// IE as it is read.
    pub fn get_enable(&self) -> (r: u8)
        ensures
            r == self.enable,
    {
        self.enable
    }

    /// Writes IE: all eight bits are stored.
    pub fn set_enable(&mut self, data: u8)
        ensures
            final(self).enable == data,
            final(self).flags == old(self).flags,
    {
        self.enable = data;
    }

    /// The interrupts that are requested and enabled.
    pub fn check(&self) -> (r: InterruptFlag)
        requires
            self.wf(),
        ensures
            r == self.pending(),
            r.wf(),
    {
        proof {
            lemma_low_five(self.flags.bits, self.enable);
            lemma_low_five(self.flags.bits & self.enable, 0);
        }
        self.flags.intersection(InterruptFlag::from_bits_truncate(self.enable))
    }

    /// Acknowledges the interrupts of `intr`: their requests are cleared.
    pub fn handled(&mut self, intr: InterruptFlag)
        ensures
            *final(self) == old(self).acknowledged(intr),
            old(self).wf() ==> final(self).wf(),
    {
        self.flags.remove(intr);
    }
}

} // verus!
