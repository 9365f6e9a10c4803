//! The controller: eight buttons behind a shift register.

use vstd::prelude::*;
use crate::bitfield::{put, spec_put};

verus! {

/// The buttons of a controller, in the order the shift register reports
/// them from `BUTTON_A` (first) to `RIGHT` (last).
#[derive(Clone, Copy, Debug, PartialEq, Eq, Structural, Hash)]
#[allow(non_camel_case_types)]
pub enum JoypadButton {
    RIGHT,
    LEFT,
    DOWN,
    UP,
    START,
    SELECT,
    BUTTON_B,
    BUTTON_A,
}

impl JoypadButton {
    /// The bit that stands for the button in the status byte.
    pub open spec fn spec_bits(self) -> u8 {
        match self {
            JoypadButton::RIGHT => 0b1000_0000,
            JoypadButton::LEFT => 0b0100_0000,
            JoypadButton::DOWN => 0b0010_0000,
            JoypadButton::UP => 0b0001_0000,
            JoypadButton::START => 0b0000_1000,
            JoypadButton::SELECT => 0b0000_0100,
            JoypadButton::BUTTON_B => 0b0000_0010,
            JoypadButton::BUTTON_A => 0b0000_0001,
        }
    }

    pub fn bits(self) -> (r: u8)
        ensures
            r == self.spec_bits(),
    {
        match self {
            JoypadButton::RIGHT => 0b1000_0000,
            JoypadButton::LEFT => 0b0100_0000,
            JoypadButton::DOWN => 0b0010_0000,
            JoypadButton::UP => 0b0001_0000,
            JoypadButton::START => 0b0000_1000,
            JoypadButton::SELECT => 0b0000_0100,
            JoypadButton::BUTTON_B => 0b0000_0010,
            JoypadButton::BUTTON_A => 0b0000_0001,
        }
    }
}

#[derive(Clone, Copy, Debug, PartialEq, Eq, Structural)]
pub struct Joypad {
    pub strobe: bool,
    pub button_index: u8,
    pub button_status: u8,
}

impl Joypad {
    /// A write to the controller port: bit 0 is the strobe, and while it is
    /// high the shift register stays on the first button.
    pub open spec fn spec_write(self, data: u8) -> Joypad {
        let strobe = data & 1 == 1;
        Joypad {
            strobe,
            button_index: if strobe {
                0
            } else {
                self.button_index
            },
            ..self
        }
    }

    /// The value of a read of the controller port: the state of the button
    /// under the shift register, or 1 once all eight have been reported.
    pub open spec fn spec_read_value(self) -> u8 {
        if self.button_index > 7 {
            1
        } else {
            (self.button_status & (1u8 << self.button_index)) >> self.button_index
        }
    }

    /// The controller after a read of its port: the shift register moves to
    /// the next button unless the strobe holds it.
    pub open spec fn spec_after_read(self) -> Joypad {
        if !self.strobe && self.button_index <= 7 {
            Joypad { button_index: (self.button_index + 1) as u8, ..self }
        } else {
            self
        }
    }

    pub open spec fn spec_set_button_pressed_status(
        self,
        button: JoypadButton,
        pressed: bool,
    ) -> Joypad {
        Joypad { button_status: spec_put(self.button_status, button.spec_bits(), pressed), ..self }
    }

    pub fn new() -> (r: Self)
        ensures
            r == (Joypad { strobe: false, button_index: 0, button_status: 0 }),
    {
        Joypad { strobe: false, button_index: 0, button_status: 0 }
    }

    pub fn write(&mut self, data: u8)
        ensures
            *final(self) == old(self).spec_write(data),
    {
        self.strobe = data & 1 == 1;
        if self.strobe {
            self.button_index = 0
        }
    }

    pub fn read(&mut self) -> (response: u8)
        ensures
            response == old(self).spec_read_value(),
            *final(self) == old(self).spec_after_read(),
    {
        if self.button_index > 7 {
            return 1;
        }
        let response = (self.button_status & (1u8 << self.button_index)) >> self.button_index;
        if !self.strobe && self.button_index <= 7 {
            self.button_index += 1;
        }
        response
    }

    pub fn set_button_pressed_status(&mut self, button: JoypadButton, pressed: bool)
        ensures
            *final(self) == old(self).spec_set_button_pressed_status(button, pressed),
    {
        self.button_status = put(self.button_status, button.bits(), pressed);
    }
}

} // verus!
