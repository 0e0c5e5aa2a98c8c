//! The input matrix: four action buttons and four directions.
use vstd::prelude::*;
use crate::bits::lemma_joypad_bits;
use super::interrupts::{InterruptFlag, Interrupts};

verus! {

/// The eight keys of the console.
#[derive(Clone, Copy, Debug, PartialEq, Eq, Structural)]
pub enum GbButton {
    A,
    B,
    Select,
    Start,
    Right,
    Left,
    Up,
    Down,
}

impl GbButton {
    /// Whether the button belongs to the direction group.
    pub open spec fn is_direction(self) -> bool {
        self == GbButton::Right || self == GbButton::Left || self == GbButton::Up || self
            == GbButton::Down
    }

    /// The bit of the button within its group of four.
    pub open spec fn mask(self) -> u8 {
        match self {
            GbButton::A | GbButton::Right => 0x01,
            GbButton::B | GbButton::Left => 0x02,
            GbButton::Select | GbButton::Up => 0x04,
            GbButton::Start | GbButton::Down => 0x08,
        }
    }

    fn group_mask(&self) -> (r: (bool, u8))
        ensures
            r.0 == self.is_direction(),
            r.1 == self.mask(),
    {
        match self {
            GbButton::A => (false, 0x01),
            GbButton::B => (false, 0x02),
            GbButton::Select => (false, 0x04),
            GbButton::Start => (false, 0x08),
            GbButton::Right => (true, 0x01),
            GbButton::Left => (true, 0x02),
            GbButton::Up => (true, 0x04),
            GbButton::Down => (true, 0x08),
        }
    }
}

/// The selector bit of the directions; zero selects.
pub const SELECT_DPAD: u8 = 0x10;

/// The selector bit of the action buttons; zero selects.
pub const SELECT_BUTTONS: u8 = 0x20;

/// Each group holds one bit per key: one while the key is released, zero
/// while it is pressed.
#[derive(Clone, Copy, Debug, PartialEq, Eq, Structural)]
pub struct Joypad {
    pub buttons: u8,
    pub dpad: u8,
    pub register: u8,
}

impl Joypad {
    /// Both groups fit in four bits, and the two upper bits of the selector
    /// register are set.
    pub open spec fn wf(self) -> bool {
        self.buttons < 16 && self.dpad < 16 && self.register >= 0xC0
    }

    /// Bit 5 of the selector is zero: the action buttons are read.
    pub open spec fn buttons_selected(self) -> bool {
        self.register / 32 % 2 == 0
    }

    /// Bit 4 of the selector is zero: the directions are read.
    pub open spec fn dpad_selected(self) -> bool {
        self.register / 16 % 2 == 0
    }

    /// The lower nibble of a read: the selected group; where both are
    /// selected, the keys released in both; where none is, zero.
    pub open spec fn keys(self) -> u8 {
        if self.buttons_selected() && self.dpad_selected() {
            self.buttons & self.dpad
        } else if self.buttons_selected() {
            self.buttons
        } else if self.dpad_selected() {
            self.dpad
        } else {
            0
        }
    }

    /// What a read returns: the upper nibble of the selector register over
    /// the keys of the selected groups.
    pub open spec fn readback(self) -> u8 {
        ((self.register - self.register % 16) + self.keys()) as u8
    }

    /// The joypad after `button` was released.
    pub open spec fn released(self, button: GbButton) -> Joypad {
        if button.is_direction() {
            Joypad { dpad: self.dpad | button.mask(), ..self }
        } else {
            Joypad { buttons: self.buttons | button.mask(), ..self }
        }
    }

    /// The joypad after `button` was pressed.
    pub open spec fn pressed(self, button: GbButton) -> Joypad {
        if button.is_direction() {
            Joypad { dpad: self.dpad & !button.mask(), ..self }
        } else {
            Joypad { buttons: self.buttons & !button.mask(), ..self }
        }
    }

    /// Every key released, both groups selected.
    pub fn new() -> (r: Joypad)
        ensures
            r == (Joypad { buttons: 0x0F, dpad: 0x0F, register: 0xCF }),
            r.wf(),
    {
        Joypad { buttons: 0x0F, dpad: 0x0F, register: 0xCF }
    }

    /// The joypad register as it is read.
    pub fn read(&self) -> (r: u8)
        requires
            self.wf(),
        ensures
            r == self.readback(),
            r >= 0xC0,
    {
        proof {
            lemma_joypad_bits(self.register, 0, self.buttons, self.dpad);
            lemma_joypad_bits(self.register, 0, self.dpad, self.buttons);
            lemma_joypad_bits(self.register, 0, 0, 0);
        }
        let high = self.register & 0xF0;
        let buttons = self.register & SELECT_BUTTONS == 0;
        let dpad = self.register & SELECT_DPAD == 0;
        if buttons && dpad {
            high | (self.buttons & self.dpad)
        } else if buttons {
            high | self.buttons
        } else if dpad {
            high | self.dpad
        } else {
            high
        }
    }

    /// Stores the selector: bits 0 to 5 of `data` under two upper bits that
    /// are always one.
    pub fn write(&mut self, data: u8)
        ensures
            final(self).register == 0xC0 + data % 64,
            final(self).buttons == old(self).buttons,
            final(self).dpad == old(self).dpad,
            old(self).wf() ==> final(self).wf(),
    {
        proof {
            lemma_joypad_bits(0, data, 0, 0);
        }
        self.register = (data & 0x3F) | 0xC0;
    }

    /// Releases `button`.
    pub fn keyup(&mut self, button: GbButton)
        ensures
            *final(self) == old(self).released(button),
            old(self).wf() ==> final(self).wf(),
    {
        let (direction, mask) = button.group_mask();
        proof {
            lemma_joypad_bits(0, 0, self.dpad, mask);
            lemma_joypad_bits(0, 0, self.buttons, mask);
        }
        if direction {
            self.dpad = self.dpad | mask;
        } else {
            self.buttons = self.buttons | mask;
        }
    }

    /// Presses `button` and requests the JOYPAD interrupt.
    pub fn keydown(&mut self, button: GbButton, intr: &mut Interrupts)
        ensures
            *final(self) == old(self).pressed(button),
            old(self).wf() ==> final(self).wf(),
            *final(intr) == old(intr).requested(InterruptFlag { bits: 0x10 }),
            old(intr).wf() ==> final(intr).wf(),
    {
        let (direction, mask) = button.group_mask();
        proof {
            lemma_joypad_bits(0, 0, self.dpad, mask);
            lemma_joypad_bits(0, 0, self.buttons, mask);
        }
        if direction {
            self.dpad = self.dpad & !mask;
        } else {
            self.buttons = self.buttons & !mask;
        }
        intr.request(InterruptFlag::joypad());
    }
}

} // verus!
