//! A capture of the bytes that a program sends over the serial link.
use vstd::prelude::*;
use super::Interface;

verus! {

/// The number of bytes that a capture can hold.
pub const CAPACITY: usize = 1024;

/// The bytes captured so far: the first `size` bytes of `msg`.
#[derive(Clone, Copy, Debug)]
pub struct Dbg {
    pub msg: [u8; CAPACITY],
    pub size: usize,
}

impl Dbg {
    /// The bytes captured so far.
    pub open spec fn captured(self) -> Seq<u8> {
        self.msg@.subrange(0, self.size as int)
    }

    /// The capture does not run over its buffer.
    pub open spec fn wf(self) -> bool {
        self.size <= CAPACITY
    }

    /// Whether the program asks to send a byte: the serial control register
    /// holds 0x81.
    pub open spec fn sending<I: Interface>(bus: I::V) -> bool {
        I::peeked(bus, 0xFF02) == 0x81
    }

    /// A capture that has taken nothing yet: no byte counted, and the whole
    /// buffer zero.
    pub open spec fn fresh(self) -> bool {
        self.size == 0 && self.msg@ == Seq::new(CAPACITY as nat, |i: int| 0u8)
    }

    /// An empty capture over a buffer of zeros.
    pub fn new() -> (r: Dbg)
        ensures
            r.fresh(),
            r.size == 0,
            r.wf(),
            r.captured() == Seq::<u8>::empty(),
    {
        let r = Dbg { msg: [0;CAPACITY], size: 0 };
        assert(r.msg@ =~= Seq::new(CAPACITY as nat, |i: int| 0u8));
        r
    }

    /// Takes the byte that the program sends, if it sends one, and clears
    /// the request. There must be room for the byte.
    pub fn update<I: Interface>(&mut self, bus: &mut I)
        requires
            I::valid(old(bus)@),
            old(self).wf(),
            Self::sending::<I>(old(bus)@) ==> old(self).size < CAPACITY,
        ensures
            Self::sending::<I>(old(bus)@) ==> final(self).captured() == old(self).captured().push(
                I::peeked(old(bus)@, 0xFF01),
            ) && final(bus)@ == I::stored(old(bus)@, 0xFF02, 0),
            !Self::sending::<I>(old(bus)@) ==> *final(self) == *old(self) && final(bus)@ == old(
                bus,
            )@,
            final(self).wf(),
            I::valid(final(bus)@),
    {
        if bus.peek(0xFF02) == 0x81 {
            let c = bus.peek(0xFF01);
            self.msg[self.size] = c;
            self.size += 1;
            bus.set(0xFF02, 0);
            assert(self.captured() =~= old(self).captured().push(c));
        }
    }

    /// The bytes captured so far.
    pub fn message(&self) -> (r: Vec<u8>)
        requires
            self.wf(),
        ensures
            r@ == self.captured(),
    {
        let mut r: Vec<u8> = Vec::new();
        let mut i: usize = 0;
        while i < self.size
            invariant
                i <= self.size <= CAPACITY,
                r@ == self.msg@.subrange(0, i as int),
            decreases self.size - i,
        {
            r.push(self.msg[i]);
            assert(r@ =~= self.msg@.subrange(0, i + 1));
            i += 1;
        }
        r
    }
}

} // verus!
