//! What the processor sees behind its address bus: the internal memory,
//! the controller port, the picture unit and the cartridge.

use crate::error::{MemoryError, RomError};
use crate::memory::controller::{Buttons, Controller};
use crate::memory::mapper::{
    get_mapper, header_of, is_valid_image, parse_header, refuses, refuses_write, Mapper,
    MapperView, RomHeader,
};
use crate::memory::ppu::{
    address_to_ppu_register, read_register, write_register, write_sprite_memory,
};
use tudelft_nes_ppu::Ppu;
use vstd::prelude::*;

pub mod controller;
pub mod mapper;
pub mod ppu;

verus! {

/// How the cartridge wires the four name tables of the picture unit to the
/// two that exist.
#[derive(Clone, Copy, Debug, PartialEq, Eq, Structural)]
pub enum Mirroring {
    Horizontal,
    Vertical,
    FourScreen,
    SingleScreenLower,
    SingleScreenUpper,
}

/// A sequence of `length` zero bytes.
pub open spec fn zeros(length: int) -> Seq<u8> {
    Seq::new(length as nat, |i: int| 0u8)
}

/// A vector of `length` zero bytes.
pub fn zeroed(length: usize) -> (bytes: Vec<u8>)
    ensures
        bytes@ == zeros(length as int),
{
    let mut bytes: Vec<u8> = Vec::new();
    let mut count: usize = 0;
    while count < length
        invariant
            count <= length,
            bytes@ == zeros(count as int),
        decreases length - count,
    {
        bytes.push(0);
        count += 1;
        assert(bytes@ =~= zeros(count as int));
    }
    bytes
}

/// A copy of the bytes of `source` from `start` up to `end`.
pub fn copy_range(source: &[u8], start: usize, end: usize) -> (bytes: Vec<u8>)
    requires
        start <= end <= source@.len(),
    ensures
        bytes@ == source@.subrange(start as int, end as int),
{
    let mut bytes: Vec<u8> = Vec::new();
    let mut index: usize = start;
    while index < end
        invariant
            start <= index <= end <= source@.len(),
            bytes@ == source@.subrange(start as int, index as int),
        decreases end - index,
    {
        bytes.push(source[index]);
        index += 1;
        assert(bytes@ =~= source@.subrange(start as int, index as int));
    }
    bytes
}

/// A cartridge: the header of its image and its board.
#[derive(Debug, PartialEq)]
pub struct Cartridge {
    header: RomHeader,
    mapper: Mapper,
}

impl Cartridge {
    /// The board of the cartridge.
    pub closed spec fn view(&self) -> MapperView {
        self.mapper@
    }

    /// The header of the image that the cartridge was made from.
    pub closed spec fn header_spec(&self) -> RomHeader {
        self.header
    }

    /// Reads the header of a cartridge image.
    pub fn parse_header(rom_bytes: &[u8]) -> (result: Result<RomHeader, RomError>)
        ensures
            match result {
                Ok(header) => mapper::has_signature(rom_bytes@) && rom_bytes@.len()
                    >= mapper::HEADER_LENGTH && header == header_of(rom_bytes@),
                Err(RomError::IncorrectSignature(_)) => !mapper::has_signature(rom_bytes@),
                Err(RomError::IncorrectDataSize(_)) => mapper::has_signature(rom_bytes@)
                    && rom_bytes@.len() < mapper::HEADER_LENGTH,
                Err(_) => false,
            },
    {
        parse_header(rom_bytes)
    }

    /// Builds a cartridge from its image. The image must begin with the
    /// signature, be exactly as long as its header says, and name mapper 0
    /// or mapper 1.
    pub fn new(rom_bytes: &[u8]) -> (result: Result<Cartridge, RomError>)
        ensures
            match result {
                Ok(cartridge) => is_valid_image(rom_bytes@) && cartridge@ == MapperView::of_image(
                    rom_bytes@,
                ) && cartridge.header_spec() == header_of(rom_bytes@),
                Err(error) => refuses(error, rom_bytes@),
            },
    {
        let header = match parse_header(rom_bytes) {
            Ok(header) => header,
            Err(error) => {
                return Err(error);
            },
        };
        match get_mapper(rom_bytes) {
            Ok(mapper) => Ok(Cartridge { header, mapper }),
            Err(error) => Err(error),
        }
    }

    /// The header of the image that the cartridge was made from.
    pub fn header(&self) -> (header: RomHeader)
        ensures
            header == self.header_spec(),
    {
        self.header
    }

    /// Reads the byte that the processor sees at an address.
    pub fn read(&self, address: u16) -> (result: Result<u8, RomError>)
        ensures
            match self@.read(address) {
                Some(value) => result == Ok::<u8, RomError>(value),
                None => result matches Err(RomError::UnknownAddress(_)),
            },
    {
        self.mapper.read(address)
    }

    /// Writes a byte where the processor addresses it.
    pub fn write(&mut self, address: u16, value: u8) -> (result: Result<(), MemoryError>)
        ensures
            final(self).header_spec() == old(self).header_spec(),
            match old(self)@.write(address, value) {
                Some(after) => result is Ok && final(self)@ == after,
                None => final(self)@ == old(self)@ && refuses_write(result, old(self)@, address),
            },
    {
        self.mapper.write(address, value)
    }

    /// Reads a byte of character data for the picture unit.
    pub fn read_chr(&self, offset: u16) -> (result: Result<u8, RomError>)
        ensures
            match self@.read_chr(offset) {
                Some(value) => result == Ok::<u8, RomError>(value),
                None => result matches Err(RomError::UnknownAddress(_)),
            },
    {
        self.mapper.read_chr(offset)
    }

    /// Writes a byte of character data for the picture unit.
    pub fn write_chr(&mut self, offset: u16, value: u8) -> (result: Result<(), MemoryError>)
        ensures
            final(self).header_spec() == old(self).header_spec(),
            match old(self)@.write_chr(offset, value) {
                Some(after) => result is Ok && final(self)@ == after,
                None => result matches Err(MemoryError::UnknownAddress(_)) && final(self)@ == old(
                    self,
                )@,
            },
    {
        self.mapper.write_chr(offset, value)
    }

    /// The character byte at an offset, or zero where there is none.
    pub fn character_byte(&self, offset: u16) -> (value: u8)
        ensures
            value == match self@.read_chr(offset) {
                Some(byte) => byte,
                None => 0u8,
            },
    {
        match self.mapper.read_chr(offset) {
            Ok(value) => value,
            Err(_) => 0,
        }
    }
}

/// What answers at an address of the processor's bus.
#[derive(Clone, Copy, Debug, PartialEq, Eq, Structural)]
pub enum BusTarget {
    /// `$0000` to `$1FFF`: 2 KiB of internal memory, four times over.
    InternalRam,
    /// `$2000` to `$3FFF`: the eight registers of the picture unit, over
    /// and over.
    PpuRegister,
    /// `$4000` to `$4013`: the registers of the sound unit.
    AudioRegister,
    /// `$4014`: the start of a copy into sprite memory.
    OamDma,
    /// `$4015`: the status of the sound unit.
    AudioStatus,
    /// `$4016`: the first controller.
    Controller1,
    /// `$4017`: the second controller and the frame counter.
    Controller2,
    /// `$4018` to `$401F`: nothing.
    OpenBus,
    /// `$4020` to `$FFFF`: the cartridge.
    Mapper,
}

impl BusTarget {
    /// Whether the target answers at an address.
    pub open spec fn claims(self, address: u16) -> bool {
        match self {
            BusTarget::InternalRam => address <= 0x1FFF,
            BusTarget::PpuRegister => 0x2000 <= address <= 0x3FFF,
            BusTarget::AudioRegister => 0x4000 <= address <= 0x4013,
            BusTarget::OamDma => address == 0x4014,
            BusTarget::AudioStatus => address == 0x4015,
            BusTarget::Controller1 => address == 0x4016,
            BusTarget::Controller2 => address == 0x4017,
            BusTarget::OpenBus => 0x4018 <= address <= 0x401F,
            BusTarget::Mapper => 0x4020 <= address,
        }
    }

    /// The target that answers at an address: the one that claims it.
    pub fn of(address: u16) -> (target: BusTarget)
        ensures
            target.claims(address),
            forall|other: BusTarget| other.claims(address) ==> other == target,
    {
        if address < 0x2000 {
            BusTarget::InternalRam
        } else if address < 0x4000 {
            BusTarget::PpuRegister
        } else if address < 0x4014 {
            BusTarget::AudioRegister
        } else if address == 0x4014 {
            BusTarget::OamDma
        } else if address == 0x4015 {
            BusTarget::AudioStatus
        } else if address == 0x4016 {
            BusTarget::Controller1
        } else if address == 0x4017 {
            BusTarget::Controller2
        } else if address < 0x4020 {
            BusTarget::OpenBus
        } else {
            BusTarget::Mapper
        }
    }
}

/// Every address of the bus has exactly one target: some target claims
/// it, and two targets that claim it are the same.
pub proof fn lemma_exactly_one_target(address: u16)
    ensures
        exists|target: BusTarget| target.claims(address),
        forall|first: BusTarget, second: BusTarget|
            first.claims(address) && second.claims(address) ==> first == second,
{
    if address <= 0x1FFF {
        assert(BusTarget::InternalRam.claims(address));
    } else if address <= 0x3FFF {
        assert(BusTarget::PpuRegister.claims(address));
    } else if address <= 0x4013 {
        assert(BusTarget::AudioRegister.claims(address));
    } else if address == 0x4014 {
        assert(BusTarget::OamDma.claims(address));
    } else if address == 0x4015 {
        assert(BusTarget::AudioStatus.claims(address));
    } else if address == 0x4016 {
        assert(BusTarget::Controller1.claims(address));
    } else if address == 0x4017 {
        assert(BusTarget::Controller2.claims(address));
    } else if address <= 0x401F {
        assert(BusTarget::OpenBus.claims(address));
    } else {
        assert(BusTarget::Mapper.claims(address));
    }
}

/// Whether an address belongs to the registers of the picture unit.
pub open spec fn is_ppu_register(address: u16) -> bool {
    0x2000 <= address <= 0x3FFF
}

/// Whether a read at an address leaves the machine as it was and finds a
/// byte that this crate knows: true everywhere but at the registers of the
/// picture unit and at the first controller.
pub open spec fn is_quiet(address: u16) -> bool {
    !is_ppu_register(address) && address != 0x4016
}

/// The length of the internal memory.
pub const RAM_LENGTH: usize = 0x800;

/// What the processor has behind its bus, but for the picture unit.
pub struct MemoryView {
    pub ram: Seq<u8>,
    pub header: RomHeader,
    pub cartridge: MapperView,
    pub controller: Controller,
}

impl MemoryView {
    /// Whether the internal memory has its 2 KiB.
    pub open spec fn wf(self) -> bool {
        self.ram.len() == RAM_LENGTH
    }

    /// The byte that a look at an address finds, if there is one. Such a
    /// look changes nothing: it sees the internal memory; behind the
    /// registers of the picture unit, the character data at the same offset
    /// from `$2000`; at the first controller, the bit that the next read
    /// will report; zero at the other addresses below `$6000`; and the
    /// cartridge from there on.
    pub open spec fn read(self, address: u16) -> Option<u8> {
        if address < 0x2000 {
            Some(self.ram[address as int % 0x800])
        } else if address < 0x4000 {
            self.cartridge.read_chr((address - 0x2000) as u16)
        } else if address == 0x4016 {
            Some(self.controller.current_bit())
        } else if address < 0x6000 {
            Some(0)
        } else {
            self.cartridge.read(address)
        }
    }

    /// The byte that the processor takes from a look at an address: zero
    /// where nothing answers.
    pub open spec fn peek(self, address: u16) -> u8 {
        match self.read(address) {
            Some(value) => value,
            None => 0,
        }
    }

    /// The state after the processor has read at an address: only a read
    /// of the first controller changes anything.
    pub open spec fn after_read(self, address: u16, joypad: Buttons) -> MemoryView {
        if address == 0x4016 {
            MemoryView { controller: self.controller.after_read(joypad), ..self }
        } else {
            self
        }
    }

    /// Whether a write at an address finds a target. Below `$4020` every
    /// write does; from there on the cartridge decides.
    pub open spec fn accepts_write(self, address: u16, value: u8) -> bool {
        address < 0x4020 || self.cartridge.write(address, value) is Some
    }

    /// The state after the processor has written a byte. The internal
    /// memory and the cartridge take the byte, the first controller takes
    /// its lowest bit as the strobe, and nothing else here changes.
    pub open spec fn write(self, address: u16, value: u8, joypad: Buttons) -> MemoryView {
        if address < 0x2000 {
            MemoryView { ram: self.ram.update(address as int % 0x800, value), ..self }
        } else if address == 0x4016 {
            MemoryView { controller: self.controller.strobed(value, joypad), ..self }
        } else if address < 0x4020 {
            self
        } else {
            match self.cartridge.write(address, value) {
                Some(after) => MemoryView { cartridge: after, ..self },
                None => self,
            }
        }
    }

    /// The memory of a console with a cartridge image in it when power
    /// comes on: internal memory of zeros and an idle controller port.
    pub open spec fn power_on(image: Seq<u8>) -> MemoryView {
        MemoryView {
            ram: zeros(0x800),
            header: header_of(image),
            cartridge: MapperView::of_image(image),
            controller: Controller { strobe: false, buttons: Buttons::released(), read_index: 0 },
        }
    }

    /// The page of 256 bytes that a copy into sprite memory takes.
    pub open spec fn page(self, page: u8) -> Seq<u8> {
        Seq::new(256, |i: int| self.peek((page as int * 256 + i) as u16))
    }
}

/// The internal memory, the cartridge and the controller port.
#[derive(Debug)]
pub struct Memory {
    internal_ram: [u8; 0x800],
    cartridge: Cartridge,
    controller: Controller,
}

impl Memory {
    pub closed spec fn view(&self) -> MemoryView {
        MemoryView {
            ram: self.internal_ram@,
            header: self.cartridge.header_spec(),
            cartridge: self.cartridge@,
            controller: self.controller,
        }
    }

    /// The internal memory of every console has its 2 KiB.
    pub proof fn lemma_view_is_well_formed(&self)
        ensures
            self@.wf(),
    {
    }

    /// The memory of a console with the given cartridge image in it:
    /// internal memory of zeros and an idle controller port.
    pub fn new(rom_bytes: &[u8]) -> (result: Result<Memory, RomError>)
        ensures
            match result {
                Ok(memory) => is_valid_image(rom_bytes@) && memory@ == MemoryView::power_on(
                    rom_bytes@,
                ),
                Err(error) => refuses(error, rom_bytes@),
            },
    {
        match Cartridge::new(rom_bytes) {
            Ok(cartridge) => {
                let memory = Memory {
                    cartridge,
                    internal_ram: [0; 0x800],
                    controller: Controller::new(),
                };
                assert(memory.internal_ram@ =~= zeros(0x800));
                Ok(memory)
            },
            Err(error) => Err(error),
        }
    }

    /// The mirroring that the header of the cartridge asks for.
    pub fn get_mirroring(&self) -> (mirroring: Mirroring)
        ensures
            mirroring == self@.header.mirroring,
    {
        self.cartridge.header().mirroring
    }

    /// Writes a byte of character data for the picture unit.
    pub fn write_ppu_byte(&mut self, address: u16, value: u8) -> (result: Result<(), MemoryError>)
        ensures
            match old(self)@.cartridge.write_chr(address, value) {
                Some(after) => result is Ok && final(self)@ == (MemoryView {
                    cartridge: after,
                    ..old(self)@
                }),
                None => result matches Err(MemoryError::UnknownAddress(_)) && final(self)@ == old(
                    self,
                )@,
            },
    {
        self.cartridge.write_chr(address, value)
    }

    /// Reads a byte of character data for the picture unit.
    pub fn read_ppu_byte(&self, address: u16) -> (result: Result<u8, MemoryError>)
        ensures
            match self@.cartridge.read_chr(address) {
                Some(value) => result matches Ok(byte) && byte == value,
                None => result matches Err(MemoryError::RomError(RomError::UnknownAddress(_))),
            },
    {
        match self.cartridge.read_chr(address) {
            Ok(value) => Ok(value),
            Err(error) => Err(MemoryError::RomError(error)),
        }
    }

    /// Looks at an address without changing anything.
    pub fn read_cpu_mem(&self, address: u16) -> (result: Result<u8, MemoryError>)
        ensures
            match self@.read(address) {
                Some(value) => result matches Ok(byte) && byte == value,
                None => result matches Err(MemoryError::RomError(RomError::UnknownAddress(_))),
            },
    {
        if address < 0x2000 {
            Ok(self.internal_ram[(address % 0x800) as usize])
        } else if address < 0x4000 {
            self.read_ppu_byte(address - 0x2000)
        } else if address == 0x4016 {
            Ok(self.controller.peek())
        } else if address < 0x6000 {
            Ok(0)
        } else {
            match self.cartridge.read(address) {
                Ok(value) => Ok(value),
                Err(error) => Err(MemoryError::RomError(error)),
            }
        }
    }

    /// The byte that the processor takes from a look at an address: zero
    /// where nothing answers.
    pub fn peek(&self, address: u16) -> (value: u8)
        ensures
            value == self@.peek(address),
    {
        match self.read_cpu_mem(address) {
            Ok(value) => value,
            Err(_) => 0,
        }
    }

    /// Collects the page of 256 bytes that starts at `page * 256`.
    pub fn read_page(&self, page: u8) -> (bytes: [u8; 256])
        ensures
            bytes@ == self@.page(page),
    {
        let mut bytes = [0u8; 256];
        let mut index: usize = 0;
        while index < 256
            invariant
                index <= 256,
                forall|i: int| 0 <= i < index ==> bytes@[i] == self@.peek((page as int * 256 + i) as u16),
            decreases 256 - index,
        {
            bytes[index] = self.peek((page as u16) * 256 + index as u16);
            index += 1;
        }
        assert(bytes@ =~= self@.page(page));
        bytes
    }

    /// Reads a byte for the processor. A read of a register of the picture
    /// unit returns what the unit answers, whatever that is; every other
    /// read returns what a look at the address finds. A read of the first
    /// controller moves the port on to its next button.
    pub fn read(&mut self, address: u16, ppu: &mut Ppu) -> (result: Result<u8, MemoryError>)
        ensures
            final(self)@ == old(self)@.after_read(address, final(self)@.controller.buttons),
            is_ppu_register(address) ==> result is Ok,
            !is_ppu_register(address) ==> match old(self)@.read(address) {
                Some(value) => result matches Ok(byte) && byte == value,
                None => result matches Err(MemoryError::RomError(RomError::UnknownAddress(_))),
            },
    {
        if 0x2000 <= address && address < 0x4000 {
            let register = address_to_ppu_register(address);
            Ok(read_register(ppu, register, &self.cartridge))
        } else if address == 0x4016 {
            Ok(self.controller.read(ppu))
        } else {
            self.read_cpu_mem(address)
        }
    }

    /// Writes a byte for the processor. At `$4014` the byte names a page,
    /// which goes to the sprite memory of the picture unit. A write that
    /// finds no target fails and changes nothing.
    pub fn write(&mut self, address: u16, value: u8, ppu: &mut Ppu) -> (result: Result<
        (),
        MemoryError,
    >)
        ensures
            final(self)@ == old(self)@.write(address, value, final(self)@.controller.buttons),
            old(self)@.accepts_write(address, value) ==> result is Ok,
            !old(self)@.accepts_write(address, value) ==> refuses_write(
                result,
                old(self)@.cartridge,
                address,
            ),
    {
        match BusTarget::of(address) {
            BusTarget::InternalRam => {
                self.internal_ram[(address % 0x800) as usize] = value;
                Ok(())
            },
            BusTarget::PpuRegister => {
                write_register(ppu, address_to_ppu_register(address), value);
                Ok(())
            },
            BusTarget::OamDma => {
                let page = self.read_page(value);
                write_sprite_memory(ppu, page);
                Ok(())
            },
            BusTarget::Controller1 => {
                self.controller.write(value, ppu);
                Ok(())
            },
            BusTarget::AudioRegister
            | BusTarget::AudioStatus
            | BusTarget::Controller2
            | BusTarget::OpenBus => Ok(()),
            BusTarget::Mapper => self.cartridge.write(address, value),
        }
    }
}

} // verus!
