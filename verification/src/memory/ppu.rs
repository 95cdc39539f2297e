//! The picture unit behind the bus. The unit is a value of an outside
//! crate; the functions here are the only places that call into it.

use crate::memory::controller::Buttons;
use crate::memory::Cartridge;
use std::convert::Infallible;
use tudelft_nes_ppu::{Ppu, PpuRegister};
use vstd::prelude::*;

verus! {

/// The picture unit: `tudelft_nes_ppu::Ppu`. Nothing of its state is
/// visible here.
#[verifier::external_type_specification]
#[verifier::external_body]
pub struct ExPpu(Ppu);

/// The names of the eight registers of the picture unit:
/// `tudelft_nes_ppu::PpuRegister`, an enum without fields.
#[verifier::external_type_specification]
pub struct ExPpuRegister(PpuRegister);

/// The number of a register of the picture unit, as the outside crate
/// numbers its variants.
pub open spec fn register_number(register: PpuRegister) -> int {
    match register {
        PpuRegister::Controller => 0,
        PpuRegister::Mask => 1,
        PpuRegister::Status => 2,
        PpuRegister::OamAddress => 3,
        PpuRegister::OamData => 4,
        PpuRegister::Scroll => 5,
        PpuRegister::Address => 6,
        PpuRegister::Data => 7,
    }
}

/// The register of the picture unit that answers at an address: the eight
/// registers repeat every eight bytes.
pub fn address_to_ppu_register(a: u16) -> (register: PpuRegister)
    ensures
        register_number(register) == a % 8,
{
    let number = a % 8;
    if number == 0 {
        PpuRegister::Controller
    } else if number == 1 {
        PpuRegister::Mask
    } else if number == 2 {
        PpuRegister::Status
    } else if number == 3 {
        PpuRegister::OamAddress
    } else if number == 4 {
        PpuRegister::OamData
    } else if number == 5 {
        PpuRegister::Scroll
    } else if number == 6 {
        PpuRegister::Address
    } else {
        PpuRegister::Data
    }
}

/// The cartridge as the picture unit wants to see it while it answers a
/// register read: a source of character data. The unit asks for nothing
/// else during a register read, so the other two methods do nothing.
pub struct CharacterSource<'a> {
    pub cartridge: &'a Cartridge,
}

impl<'a> tudelft_nes_ppu::Cpu for CharacterSource<'a> {
    type TickError = Infallible;

    fn tick(&mut self, _ppu: &mut Ppu) -> (result: Result<(), Infallible>)
        ensures
            result is Ok,
    {
        Ok(())
    }

    fn ppu_read_chr_rom(&self, offset: u16) -> (value: u8)
        ensures
            value == match self.cartridge@.read_chr(offset) {
                Some(byte) => byte,
                None => 0u8,
            },
    {
        self.cartridge.character_byte(offset)
    }

    fn non_maskable_interrupt(&mut self) {
    }
}

/// Calls `Ppu::read_ppu_register`. The value read depends on the state of
/// the picture unit, so nothing is claimed of it. The unit reads character
/// data through `cartridge` when the data register points there. The call
/// returns for every register: the unit keeps the address behind its data
/// register below `$4000` whenever it changes it, so that the one panic in
/// the function cannot be reached.
#[verifier::external_body]
pub(crate) fn read_register(ppu: &mut Ppu, register: PpuRegister, cartridge: &Cartridge) -> (value: u8) {
    ppu.read_ppu_register(register, &CharacterSource { cartridge })
}

/// Calls `Ppu::write_ppu_register`, which changes the picture unit only
/// and returns for every register and value.
#[verifier::external_body]
pub(crate) fn write_register(ppu: &mut Ppu, register: PpuRegister, value: u8) {
    ppu.write_ppu_register(register, value)
}

/// Calls `Ppu::write_oam_dma`, which replaces the sprite memory of the
/// picture unit by the 256 bytes given.
#[verifier::external_body]
pub(crate) fn write_sprite_memory(ppu: &mut Ppu, page: [u8; 256]) {
    ppu.write_oam_dma(page)
}

/// Calls `Ppu::get_joypad_state` and copies the eight fields. What the
/// player holds is not known here, so nothing is claimed of the result.
#[verifier::external_body]
pub(crate) fn joypad_state(ppu: &Ppu) -> (joypad: Buttons) {
    let state = ppu.get_joypad_state();
    Buttons {
        a: state.a,
        b: state.b,
        select: state.select,
        start: state.start,
        up: state.up,
        down: state.down,
        left: state.left,
        right: state.right,
    }
}

} // verus!
