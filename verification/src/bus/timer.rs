//! The divider and the programmable counter.
use vstd::prelude::*;
use crate::bits::{lemma_div_bits, lemma_tac_fields};
use super::interrupts::{InterruptFlag, Interrupts};

verus! {

/// The divider register.
pub const DIV: u16 = 0xFF04;

/// The counter.
pub const TIMA: u16 = 0xFF05;

/// The value that the counter is reloaded with.
pub const TMA: u16 = 0xFF06;

/// The control register: bit 2 enables, bits 1 and 0 select the frequency.
pub const TAC: u16 = 0xFF07;

/// The timer of the console.
#[derive(Clone, Copy, Debug, PartialEq, Eq, Structural)]
pub struct Timer {
    /// The free-running sixteen-bit divider; DIV shows its high byte.
    pub div: u16,
    pub tima: u8,
    pub tma: u8,
    pub tac: u8,
}

/// Whether the divider bit that `tac` selects is set in `div`: bit 9, 3, 5
/// or 7 for the frequency codes 0, 1, 2 and 3.
pub open spec fn selected_bit(tac: u8, div: u16) -> bool {
    if tac % 4 == 0 {
        div / 512 % 2 == 1
    } else if tac % 4 == 1 {
        div / 8 % 2 == 1
    } else if tac % 4 == 2 {
        div / 32 % 2 == 1
    } else {
        div / 128 % 2 == 1
    }
}

impl Timer {
    /// Bit 2 of TAC: the counter is running.
    pub open spec fn enabled(self) -> bool {
        self.tac / 4 % 2 == 1
    }

    /// The divider after one more T-cycle.
    pub open spec fn next_div(self) -> u16 {
        ((self.div + 1) % 0x10000) as u16
    }

    /// Whether this T-cycle counts: the selected divider bit falls from one
    /// to zero while the counter runs.
    pub open spec fn counts(self) -> bool {
        selected_bit(self.tac, self.div) && !selected_bit(self.tac, self.next_div())
            && self.enabled()
    }

    /// Whether this T-cycle reloads TIMA and requests the TIMER interrupt:
    /// it counts, and the count reaches 0xFF.
    pub open spec fn overflows(self) -> bool {
        self.counts() && self.tima == 0xFE
    }

    /// The timer after one T-cycle.
    pub open spec fn ticked(self) -> Timer {
        Timer {
            div: self.next_div(),
            tima: if self.overflows() {
                self.tma
            } else if self.counts() {
                ((self.tima + 1) % 256) as u8
            } else {
                self.tima
            },
            ..self
        }
    }

    /// What a read of one of the four timer registers returns.
    pub open spec fn register(self, address: u16) -> u8 {
        if address == DIV {
            (self.div / 256) as u8
        } else if address == TIMA {
            self.tima
        } else if address == TMA {
            self.tma
        } else {
            self.tac
        }
    }

    /// The timer after a write to one of its four registers. A write to DIV
    /// clears the whole divider, whatever is written.
    pub open spec fn written(self, address: u16, data: u8) -> Timer {
        if address == DIV {
            Timer { div: 0, ..self }
        } else if address == TIMA {
            Timer { tima: data, ..self }
        } else if address == TMA {
            Timer { tma: data, ..self }
        } else {
            Timer { tac: data, ..self }
        }
    }

    /// A write to DIV makes DIV read zero, whatever is written, and leaves
    /// the other three registers as they are.
    pub proof fn lemma_div_write(self, data: u8)
        ensures
            self.written(DIV, data).register(DIV) == 0,
            self.written(DIV, data).register(TIMA) == self.register(TIMA),
            self.written(DIV, data).register(TMA) == self.register(TMA),
            self.written(DIV, data).register(TAC) == self.register(TAC),
    {
    }

    /// The timer as the boot ROM leaves it.
    pub fn new() -> (r: Timer)
        ensures
            r == (Timer { div: 0xABCC, tima: 0, tma: 0, tac: 0 }),
    {
        Timer { div: 0xABCC, tima: 0, tma: 0, tac: 0 }
    }

    /// Advances the timer by one T-cycle.
    pub fn tick(&mut self, intr: &mut Interrupts)
        ensures
            *final(self) == old(self).ticked(),
            *final(intr) == if old(self).overflows() {
                old(intr).requested(InterruptFlag { bits: 0x04 })
            } else {
                *old(intr)
            },
            old(intr).wf() ==> final(intr).wf(),
    {
        let old = self.div;

        self.div = self.div.wrapping_add(1);

        let code = self.tac & 0b11;
        let bit: u16 = if code == 0b00 {
            0x0200
        } else if code == 0b01 {
            0x0008
        } else if code == 0b10 {
            0x0020
        } else {
            0x0080
        };
        proof {
            lemma_tac_fields(self.tac);
            lemma_div_bits(old);
            lemma_div_bits(self.div);
        }

        let update = (old & bit != 0) && (self.div & bit == 0);
        if update && self.tac & 0b100 != 0 {
            self.tima = self.tima.wrapping_add(1);

            if self.tima == 0xFF {
                self.tima = self.tma;
                intr.request(InterruptFlag::timer());
            }
        }
    }

    /// Writes one of the four timer registers.
    pub fn write(&mut self, address: u16, data: u8)
        requires
            DIV <= address <= TAC,
        ensures
            *final(self) == old(self).written(address, data),
            address == DIV ==> final(self).register(DIV) == 0,
    {
        if address == DIV {
            self.div = 0;
        } else if address == TIMA {
            self.tima = data;
        } else if address == TMA {
            self.tma = data;
        } else {
            self.tac = data;
        }
    }

    /// Reads one of the four timer registers.
    pub fn read(&self, address: u16) -> (r: u8)
        requires
            DIV <= address <= TAC,
        ensures
            r == self.register(address),
    {
        proof {
            lemma_div_bits(self.div);
        }
        if address == DIV {
            (self.div >> 8) as u8
        } else if address == TIMA {
            self.tima
        } else if address == TMA {
            self.tma
        } else {
            self.tac
        }
    }
}

} // verus!
