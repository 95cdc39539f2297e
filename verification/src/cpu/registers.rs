//! The register file: three data registers, the stack pointer, the program
//! counter and the status flags.

use crate::bits::{bit_value, has_bit};
use vstd::prelude::*;

verus! {

/// The names of the six status flags.
#[derive(Clone, Copy, Debug, PartialEq, Eq, Structural)]
pub enum StatusRegisterBit {
    Carry,
    Zero,
    Interrupt,
    Decimal,
    Overflow,
    Negative,
}

/// The status flags. The break flag and the unused flag exist only in the
/// byte that is pushed on the stack.
#[derive(Clone, Copy, Debug, PartialEq, Eq, Structural)]
pub struct StatusRegister {
    pub carry_bit: bool,
    pub zero_bit: bool,
    pub interrupt_bit: bool,
    pub decimal_bit: bool,
    pub overflow_bit: bool,
    pub negative_bit: bool,
}

impl StatusRegister {
    /// The register after one flag has been given a new value.
    pub open spec fn with_bit(self, bit: StatusRegisterBit, value: bool) -> StatusRegister {
        match bit {
            StatusRegisterBit::Carry => StatusRegister { carry_bit: value, ..self },
            StatusRegisterBit::Zero => StatusRegister { zero_bit: value, ..self },
            StatusRegisterBit::Interrupt => StatusRegister { interrupt_bit: value, ..self },
            StatusRegisterBit::Decimal => StatusRegister { decimal_bit: value, ..self },
            StatusRegisterBit::Overflow => StatusRegister { overflow_bit: value, ..self },
            StatusRegisterBit::Negative => StatusRegister { negative_bit: value, ..self },
        }
    }

    /// The value of one flag.
    pub open spec fn bit(self, bit: StatusRegisterBit) -> bool {
        match bit {
            StatusRegisterBit::Carry => self.carry_bit,
            StatusRegisterBit::Zero => self.zero_bit,
            StatusRegisterBit::Interrupt => self.interrupt_bit,
            StatusRegisterBit::Decimal => self.decimal_bit,
            StatusRegisterBit::Overflow => self.overflow_bit,
            StatusRegisterBit::Negative => self.negative_bit,
        }
    }

    /// The six flags at their bit positions, with bits 4 and 5 clear.
    pub open spec fn flag_bits(self) -> int {
        bit_value(self.carry_bit, 1) + bit_value(self.zero_bit, 2) + bit_value(
            self.interrupt_bit,
            4,
        ) + bit_value(self.decimal_bit, 8) + bit_value(self.overflow_bit, 64) + bit_value(
            self.negative_bit,
            128,
        )
    }

    /// The byte that an instruction pushes: the flags with bits 4 and 5 set.
    pub open spec fn stack_byte(self) -> int {
        self.flag_bits() + 16 + 32
    }

    /// The byte that a hardware interrupt pushes: the flags with bit 5 set
    /// and bit 4 clear.
    pub open spec fn interrupt_byte(self) -> int {
        self.flag_bits() + 32
    }

    /// The flags that a pulled byte holds; bits 4 and 5 are ignored.
    pub open spec fn from_byte(value: u8) -> StatusRegister {
        StatusRegister {
            carry_bit: has_bit(value, 1),
            zero_bit: has_bit(value, 2),
            interrupt_bit: has_bit(value, 4),
            decimal_bit: has_bit(value, 8),
            overflow_bit: has_bit(value, 64),
            negative_bit: has_bit(value, 128),
        }
    }

    /// The register with the zero and negative flags set from a result.
    pub open spec fn with_zn(self, value: u8) -> StatusRegister {
        StatusRegister { zero_bit: value == 0, negative_bit: value >= 128, ..self }
    }

    pub fn set_bit(&mut self, bit: StatusRegisterBit, value: bool)
        ensures
            *final(self) == old(self).with_bit(bit, value),
    {
        match bit {
            StatusRegisterBit::Carry => self.carry_bit = value,
            StatusRegisterBit::Zero => self.zero_bit = value,
            StatusRegisterBit::Interrupt => self.interrupt_bit = value,
            StatusRegisterBit::Decimal => self.decimal_bit = value,
            StatusRegisterBit::Overflow => self.overflow_bit = value,
            StatusRegisterBit::Negative => self.negative_bit = value,
        }
    }

    fn packed(self) -> (value: u8)
        ensures
            value == self.flag_bits(),
            value as int % 64 < 16,
    {
        let mut value: u8 = 0;
        if self.carry_bit {
            value += 1;
        }
        if self.zero_bit {
            value += 2;
        }
        if self.interrupt_bit {
            value += 4;
        }
        if self.decimal_bit {
            value += 8;
        }
        if self.overflow_bit {
            value += 64;
        }
        if self.negative_bit {
            value += 128;
        }
        value
    }

    /// The status byte as PHP and BRK push it.
    pub fn get_for_stack(self) -> (value: u8)
        ensures
            value == self.stack_byte(),
    {
        self.packed() + 48
    }

    /// The status byte with the break bit clear, as a hardware interrupt
    /// pushes it and as a trace shows it.
    pub fn get_for_debug(self) -> (value: u8)
        ensures
            value == self.interrupt_byte(),
    {
        self.packed() + 32
    }

    /// Loads the flags from a byte pulled from the stack.
    pub fn set_from_stack(&mut self, value: u8)
        ensures
            *final(self) == StatusRegister::from_byte(value),
    {
        self.carry_bit = value % 2 == 1;
        self.zero_bit = (value / 2) % 2 == 1;
        self.interrupt_bit = (value / 4) % 2 == 1;
        self.decimal_bit = (value / 8) % 2 == 1;
        self.overflow_bit = (value / 64) % 2 == 1;
        self.negative_bit = (value / 128) % 2 == 1;
    }

    pub fn get_bit(&mut self, bit: StatusRegisterBit) -> (value: bool)
        ensures
            value == old(self).bit(bit),
            *final(self) == *old(self),
    {
        match bit {
            StatusRegisterBit::Carry => self.carry_bit,
            StatusRegisterBit::Zero => self.zero_bit,
            StatusRegisterBit::Interrupt => self.interrupt_bit,
            StatusRegisterBit::Decimal => self.decimal_bit,
            StatusRegisterBit::Overflow => self.overflow_bit,
            StatusRegisterBit::Negative => self.negative_bit,
        }
    }

    pub fn get_carry(self) -> (value: bool)
        ensures
            value == self.carry_bit,
    {
        self.carry_bit
    }
}

impl Default for StatusRegister {
    fn default() -> (register: StatusRegister)
        ensures
            register == (StatusRegister {
                carry_bit: false,
                zero_bit: false,
                interrupt_bit: false,
                decimal_bit: false,
                overflow_bit: false,
                negative_bit: false,
            }),
    {
        StatusRegister {
            carry_bit: false,
            zero_bit: false,
            interrupt_bit: false,
            decimal_bit: false,
            overflow_bit: false,
            negative_bit: false,
        }
    }
}

/// Every flag survives a push by an instruction followed by a pull.
pub proof fn lemma_stack_byte_round_trip(status: StatusRegister)
    ensures
        0 <= status.stack_byte() < 256,
        StatusRegister::from_byte(status.stack_byte() as u8) == status,
        has_bit(status.stack_byte() as u8, 16),
        has_bit(status.stack_byte() as u8, 32),
{
}

/// Every flag survives a push by a hardware interrupt followed by a pull,
/// and the pushed byte has bit 4 clear and bit 5 set.
pub proof fn lemma_interrupt_byte_round_trip(status: StatusRegister)
    ensures
        0 <= status.interrupt_byte() < 256,
        StatusRegister::from_byte(status.interrupt_byte() as u8) == status,
        !has_bit(status.interrupt_byte() as u8, 16),
        has_bit(status.interrupt_byte() as u8, 32),
{
}

/// One of the eight-bit registers A, X, Y and S.
#[derive(Clone, Copy, Debug, PartialEq, Eq, Structural)]
pub struct CpuRegister {
    pub binary_value: u8,
}

impl CpuRegister {
    pub open spec fn view(&self) -> u8 {
        self.binary_value
    }

    pub fn get(&self) -> (value: u8)
        ensures
            value == self@,
    {
        self.binary_value
    }

    pub fn set(&mut self, value: u8)
        ensures
            final(self)@ == value,
    {
        self.binary_value = value;
    }

    /// Adds one, wrapping from 255 to 0.
    pub fn increment(&mut self)
        ensures
            final(self)@ == (old(self)@ + 1) % 256,
    {
        self.binary_value = if self.binary_value == 255 {
            0
        } else {
            self.binary_value + 1
        };
    }

    /// Subtracts one, wrapping from 0 to 255.
    pub fn decrement(&mut self)
        ensures
            final(self)@ == (old(self)@ + 255) % 256,
    {
        self.binary_value = if self.binary_value == 0 {
            255
        } else {
            self.binary_value - 1
        };
    }
}

impl Default for CpuRegister {
    fn default() -> (register: CpuRegister)
        ensures
            register@ == 0,
    {
        CpuRegister { binary_value: 0 }
    }
}

/// The sixteen-bit word with the given high and low bytes.
pub open spec fn word(high: u8, low: u8) -> u16 {
    (high as int * 256 + low as int) as u16
}

/// The sixteen-bit program counter.
#[derive(Clone, Copy, Debug, PartialEq, Eq, Structural)]
pub struct ProgramCounter {
    pub binary_value: u16,
}

impl ProgramCounter {
    pub open spec fn view(&self) -> u16 {
        self.binary_value
    }

    pub fn get(&self) -> (value: u16)
        ensures
            value == self@,
    {
        self.binary_value
    }

    pub fn set(&mut self, value: u16)
        ensures
            final(self)@ == value,
    {
        self.binary_value = value;
    }

    pub fn get_lobyte(&self) -> (value: u8)
        ensures
            value == self@ % 256,
    {
        (self.binary_value % 256) as u8
    }

    pub fn get_hibyte(&self) -> (value: u8)
        ensures
            value == self@ / 256,
    {
        (self.binary_value / 256) as u8
    }

    pub fn set_lobyte(&mut self, value: u8)
        ensures
            final(self)@ == word((old(self)@ / 256) as u8, value),
    {
        self.binary_value = (self.binary_value / 256) * 256 + value as u16;
    }

    pub fn set_hibyte(&mut self, value: u8)
        ensures
            final(self)@ == word(value, (old(self)@ % 256) as u8),
    {
        self.binary_value = (value as u16) * 256 + self.binary_value % 256;
    }

    /// Adds one, wrapping from `$FFFF` to zero.
    pub fn increment(&mut self)
        ensures
            final(self)@ == (old(self)@ + 1) % 0x10000,
    {
        self.binary_value = if self.binary_value == 0xFFFF {
            0
        } else {
            self.binary_value + 1
        };
    }

    /// A program counter at the reset vector.
    pub fn new() -> (counter: ProgramCounter)
        ensures
            counter@ == 0xFFFC,
    {
        ProgramCounter { binary_value: 0xFFFC }
    }
}

impl Default for ProgramCounter {
    fn default() -> (counter: ProgramCounter)
        ensures
            counter@ == 0,
    {
        ProgramCounter { binary_value: 0 }
    }
}

} // verus!
