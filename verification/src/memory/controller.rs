//! The controller port: a latch of eight buttons that is read one bit at a
//! time.

use crate::memory::ppu::joypad_state;
use tudelft_nes_ppu::Ppu;
use vstd::prelude::*;

verus! {

/// The eight buttons of one controller, `true` where a button is held.
#[derive(Clone, Copy, Debug, Default, PartialEq, Eq, Structural)]
pub struct Buttons {
    pub a: bool,
    pub b: bool,
    pub select: bool,
    pub start: bool,
    pub up: bool,
    pub down: bool,
    pub left: bool,
    pub right: bool,
}

impl Buttons {
    /// The button that the port reports at a read index: A, B, Select,
    /// Start, Up, Down, Left, Right.
    pub open spec fn at(self, index: u8) -> bool {
        if index == 0 {
            self.a
        } else if index == 1 {
            self.b
        } else if index == 2 {
            self.select
        } else if index == 3 {
            self.start
        } else if index == 4 {
            self.up
        } else if index == 5 {
            self.down
        } else if index == 6 {
            self.left
        } else if index == 7 {
            self.right
        } else {
            false
        }
    }

    /// No button held.
    pub open spec fn released() -> Buttons {
        Buttons {
            a: false,
            b: false,
            select: false,
            start: false,
            up: false,
            down: false,
            left: false,
            right: false,
        }
    }
}

/// The state of the controller port.
#[derive(Clone, Copy, Debug, PartialEq, Eq, Structural)]
pub struct Controller {
    /// The lowest bit of the last byte written to the port.
    pub strobe: bool,
    /// The buttons as they were when the strobe was last high.
    pub buttons: Buttons,
    /// The index of the button that the next read reports.
    pub read_index: u8,
}

impl Controller {
    /// The port after one clock pulse during which the joypad shows
    /// `joypad`: while the strobe is high the latch follows the joypad and
    /// the read index stays at the first button.
    pub open spec fn refreshed(self, joypad: Buttons) -> Controller {
        if self.strobe {
            Controller { buttons: joypad, read_index: 0, ..self }
        } else {
            self
        }
    }

    /// The port after a byte has been written to it.
    pub open spec fn strobed(self, byte: u8, joypad: Buttons) -> Controller {
        Controller { strobe: byte % 2 == 1, ..self }.refreshed(joypad)
    }

    /// What the next read reports: one for a held button, zero otherwise.
    pub open spec fn current_bit(self) -> u8 {
        if self.buttons.at(self.read_index) {
            1
        } else {
            0
        }
    }

    /// The port with the read index moved to the next button; after the
    /// eighth button comes the first again.
    pub open spec fn advanced(self) -> Controller {
        Controller {
            read_index: if self.read_index >= 7 {
                0
            } else {
                (self.read_index + 1) as u8
            },
            ..self
        }
    }

    /// The port after a read.
    pub open spec fn after_read(self, joypad: Buttons) -> Controller {
        self.advanced().refreshed(joypad)
    }

    /// A port with the strobe low and no button latched.
    pub fn new() -> (controller: Controller)
        ensures
            controller == (Controller {
                strobe: false,
                buttons: Buttons::released(),
                read_index: 0,
            }),
    {
        Controller {
            strobe: false,
            buttons: Buttons {
                a: false,
                b: false,
                select: false,
                start: false,
                up: false,
                down: false,
                left: false,
                right: false,
            },
            read_index: 0,
        }
    }

    /// Takes over the joypad state if the strobe is high.
    pub fn refresh(&mut self, joypad: Buttons)
        ensures
            *final(self) == old(self).refreshed(joypad),
    {
        if self.strobe {
            self.buttons = joypad;
            self.read_index = 0;
        }
    }

    /// Writes a byte to the port: its lowest bit becomes the strobe. The
    /// latch then follows the joypad of the picture unit's host while the
    /// strobe is high.
    pub fn write(&mut self, byte: u8, ppu: &Ppu)
        ensures
            *final(self) == old(self).strobed(byte, final(self).buttons),
    {
        self.strobe = byte % 2 == 1;
        self.clock_pulse(ppu);
    }

    /// One clock pulse: while the strobe is high, the latch takes over the
    /// joypad state, whatever it is, and the read index returns to the
    /// first button.
    pub fn clock_pulse(&mut self, ppu: &Ppu)
        ensures
            *final(self) == old(self).refreshed(final(self).buttons),
    {
        if self.strobe {
            let joypad = joypad_state(ppu);
            self.refresh(joypad);
        }
    }

    /// The bit that the next read reports.
    pub fn peek(&self) -> (bit: u8)
        ensures
            bit == self.current_bit(),
    {
        let held = match self.read_index {
            0 => self.buttons.a,
            1 => self.buttons.b,
            2 => self.buttons.select,
            3 => self.buttons.start,
            4 => self.buttons.up,
            5 => self.buttons.down,
            6 => self.buttons.left,
            7 => self.buttons.right,
            _ => false,
        };
        if held {
            1
        } else {
            0
        }
    }

    /// Reads the next button and moves on to the one after it.
    pub fn read(&mut self, ppu: &Ppu) -> (bit: u8)
        ensures
            bit == old(self).current_bit(),
            *final(self) == old(self).after_read(final(self).buttons),
    {
        let bit = self.peek();
        self.read_index = if self.read_index >= 7 {
            0
        } else {
            self.read_index + 1
        };
        self.clock_pulse(ppu);
        bit
    }
}

} // verus!
