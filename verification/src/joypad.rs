//! The eight buttons and the register that shows one half of them at a time.

use vstd::prelude::*;
use crate::interrupts::{Interrupt, InterruptQueue};

verus! {

/// The eight buttons of the console.
#[derive(Debug, Clone, Copy, PartialEq, Eq, Structural)]
pub enum Button {
    Right,
    Left,
    Up,
    Down,
    A,
    B,
    Select,
    Start,
}

impl Button {
    /// The bit that stands for this button: the direction pad in the low
    /// four bits, the other buttons in the high four.
    pub open spec fn mask(self) -> u8 {
        match self {
            Button::Right => 0x01,
            Button::Left => 0x02,
            Button::Up => 0x04,
            Button::Down => 0x08,
            Button::A => 0x10,
            Button::B => 0x20,
            Button::Select => 0x40,
            Button::Start => 0x80,
        }
    }

    /// The bit that stands for this button.
    pub fn bit(self) -> (mask: u8)
        ensures
            mask == self.mask(),
    {
        match self {
            Button::Right => 0x01,
            Button::Left => 0x02,
            Button::Up => 0x04,
            Button::Down => 0x08,
            Button::A => 0x10,
            Button::B => 0x20,
            Button::Select => 0x40,
            Button::Start => 0x80,
        }
    }
}

/// Which buttons are held down, one bit each, and the byte that software
/// last wrote to the register to select a group for reading.
#[derive(Debug, Clone, Copy, PartialEq, Eq, Structural)]
pub struct Joypad {
    pub held: u8,
    pub select: u8,
}

/// The register byte: a line that a selected group pulls low reads as a
/// clear bit, everything else as a set bit.
pub open spec fn register_bits(held: u8, select: u8) -> u8 {
    !((if select & 0x10 == 0 {
        held & 0x0F
    } else {
        0u8
    }) | (if select & 0x20 == 0 {
        held >> 4
    } else {
        0u8
    }))
}

impl Joypad {
    /// Whether `button` is held down.
    pub open spec fn is_pressed(self, button: Button) -> bool {
        self.held & button.mask() != 0
    }

    /// The joypad with `button` held down or let go.
    pub open spec fn with_button(self, button: Button, held: bool) -> Joypad {
        Joypad {
            held: if held {
                self.held | button.mask()
            } else {
                self.held & !button.mask()
            },
            ..self
        }
    }

    /// Whether the direction pad is selected for reading. The select bits
    /// are active low.
    pub open spec fn dpad_selected(self) -> bool {
        self.select & 0x10 == 0
    }

    /// Whether the buttons are selected for reading.
    pub open spec fn buttons_selected(self) -> bool {
        self.select & 0x20 == 0
    }

    /// Whether a selected group pulls one of the four input lines low: the
    /// line of `direction`, which is also the line of `button`.
    pub open spec fn line_held(self, direction: Button, button: Button) -> bool {
        self.dpad_selected() && self.is_pressed(direction) || self.buttons_selected()
            && self.is_pressed(button)
    }

    /// The register as software reads it.
    pub open spec fn register(self) -> u8 {
        register_bits(self.held, self.select)
    }

    /// The joypad after `byte` was written to the register.
    pub open spec fn with_select_byte(self, byte: u8) -> Joypad {
        Joypad { select: byte, ..self }
    }

    /// The joypad as it is made: nothing held and nothing selected.
    pub open spec fn new_spec() -> Joypad {
        Joypad { held: 0, select: 0x30 }
    }

    /// A joypad with nothing held and nothing selected.
    pub fn new() -> (j: Joypad)
        ensures
            j == Joypad::new_spec(),
    {
        Joypad { held: 0, select: 0x30 }
    }

    /// Holds `pressed` down. A button that was not held before requests the
    /// joypad interrupt.
    pub fn press_button(&mut self, interrupts: &mut InterruptQueue, pressed: Button)
        ensures
            *final(self) == old(self).with_button(pressed, true),
            *final(interrupts) == old(interrupts).request_if(
                !old(self).is_pressed(pressed),
                Interrupt::Joypad,
            ),
    {
        let mask = pressed.bit();
        if (self.held & mask) == 0 {
            interrupts.request_interrupt(Interrupt::Joypad);
        }
        self.held = self.held | mask;
    }

    /// Lets `pressed` go.
    pub fn clear_button(&mut self, pressed: Button)
        ensures
            *final(self) == old(self).with_button(pressed, false),
    {
        self.held = self.held & !pressed.bit();
    }

    /// Takes a byte written to the register: only the two select bits count.
    pub fn from_byte(&mut self, byte: u8)
        ensures
            *final(self) == old(self).with_select_byte(byte),
    {
        self.select = byte;
    }

    /// The register as software reads it.
    pub fn as_byte(&self) -> (byte: u8)
        ensures
            byte == self.register(),
    {
        let dpad: u8 = if (self.select & 0x10) == 0 {
            self.held & 0x0F
        } else {
            0
        };
        let buttons: u8 = if (self.select & 0x20) == 0 {
            self.held >> 4
        } else {
            0
        };
        !(dpad | buttons)
    }
}

proof fn lemma_register_lines(held: u8, select: u8)
    by (bit_vector)
    ensures
        (register_bits(held, select) & 0x01 == 0) == (select & 0x10 == 0 && held & 0x01 != 0
            || select & 0x20 == 0 && held & 0x10 != 0),
        (register_bits(held, select) & 0x02 == 0) == (select & 0x10 == 0 && held & 0x02 != 0
            || select & 0x20 == 0 && held & 0x20 != 0),
        (register_bits(held, select) & 0x04 == 0) == (select & 0x10 == 0 && held & 0x04 != 0
            || select & 0x20 == 0 && held & 0x40 != 0),
        (register_bits(held, select) & 0x08 == 0) == (select & 0x10 == 0 && held & 0x08 != 0
            || select & 0x20 == 0 && held & 0x80 != 0),
        register_bits(held, select) & 0xF0 == 0xF0,
{
}

proof fn lemma_button_bit(held: u8, mask: u8, other: u8)
    by (bit_vector)
    requires
        mask == 0x01 || mask == 0x02 || mask == 0x04 || mask == 0x08 || mask == 0x10 || mask
            == 0x20 || mask == 0x40 || mask == 0x80,
        other == 0x01 || other == 0x02 || other == 0x04 || other == 0x08 || other == 0x10 || other
            == 0x20 || other == 0x40 || other == 0x80,
    ensures
        (held | mask) & mask != 0,
        (held & !mask) & mask == 0,
        other != mask ==> (held | mask) & other == held & other,
        other != mask ==> (held & !mask) & other == held & other,
{
}

/// The register is active low: bits 0 to 3 are clear exactly where a
/// selected group has the button of that line held, and the upper four bits
/// read as ones.
pub proof fn lemma_register_bits(j: Joypad)
    ensures
        (j.register() & 0x01 == 0) == j.line_held(Button::Right, Button::A),
        (j.register() & 0x02 == 0) == j.line_held(Button::Left, Button::B),
        (j.register() & 0x04 == 0) == j.line_held(Button::Up, Button::Select),
        (j.register() & 0x08 == 0) == j.line_held(Button::Down, Button::Start),
        j.register() & 0xF0 == 0xF0,
{
    lemma_register_lines(j.held, j.select);
}

/// Pressing or releasing a button changes that button and no other.
pub proof fn lemma_button_touches_one(j: Joypad, button: Button, held: bool, other: Button)
    ensures
        j.with_button(button, held).is_pressed(button) == held,
        other != button ==> j.with_button(button, held).is_pressed(other) == j.is_pressed(other),
{
    lemma_button_bit(j.held, button.mask(), other.mask());
    lemma_button_bit(j.held, button.mask(), button.mask());
}

} // verus!
