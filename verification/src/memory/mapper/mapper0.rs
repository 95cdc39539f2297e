//! The board without bank switching.

use crate::error::{MemoryError, RomError};
use crate::memory::{zeroed, zeros, Mirroring};
use vstd::prelude::*;

verus! {

/// A cartridge with up to 32 KiB of program memory, 8 KiB of program RAM
/// and 8 KiB of character data.
#[derive(Debug, PartialEq)]
pub struct Mapper0 {
    chr_rom: Vec<u8>,
    chr_writable: bool,
    prg_rom: Vec<u8>,
    prg_ram: [u8; 0x2000],
}

/// The contents of a [`Mapper0`].
pub struct Mapper0View {
    pub chr_rom: Seq<u8>,
    pub chr_writable: bool,
    pub prg_rom: Seq<u8>,
    pub prg_ram: Seq<u8>,
}

impl Mapper0View {
    /// What the board holds when it is made from its two memories. A board
    /// without character memory gets 8 KiB of character RAM.
    pub open spec fn initial(prg_rom: Seq<u8>, chr_rom: Seq<u8>) -> Mapper0View {
        Mapper0View {
            chr_rom: if chr_rom.len() == 0 {
                zeros(0x2000)
            } else {
                chr_rom
            },
            chr_writable: chr_rom.len() == 0,
            prg_rom,
            prg_ram: zeros(0x2000),
        }
    }

    /// The byte that the processor reads at an address, if the board maps
    /// the address: program RAM from `$6000`, and from `$8000` the program
    /// memory, repeated as often as it takes to fill the window.
    pub open spec fn read(self, address: u16) -> Option<u8> {
        if 0x6000 <= address < 0x8000 {
            Some(self.prg_ram[address - 0x6000])
        } else if address >= 0x8000 && self.prg_rom.len() > 0 {
            Some(self.prg_rom[address as int % self.prg_rom.len() as int])
        } else {
            None
        }
    }

    /// The board after the processor has written a byte, if the board maps
    /// the address. A write into program memory changes nothing.
    pub open spec fn write(self, address: u16, value: u8) -> Option<Mapper0View> {
        if 0x6000 <= address < 0x8000 {
            Some(Mapper0View { prg_ram: self.prg_ram.update(address - 0x6000, value), ..self })
        } else if address >= 0x8000 {
            Some(self)
        } else {
            None
        }
    }

    /// The character byte at an offset, if there is one.
    pub open spec fn read_chr(self, offset: u16) -> Option<u8> {
        if offset < self.chr_rom.len() {
            Some(self.chr_rom[offset as int])
        } else {
            None
        }
    }

    /// The board after the picture unit has written a character byte, if
    /// there is a byte at the offset. Only character RAM takes the byte.
    pub open spec fn write_chr(self, offset: u16, value: u8) -> Option<Mapper0View> {
        if offset >= self.chr_rom.len() {
            None
        } else if self.chr_writable {
            Some(Mapper0View { chr_rom: self.chr_rom.update(offset as int, value), ..self })
        } else {
            Some(self)
        }
    }
}

impl Mapper0 {
    pub closed spec fn view(&self) -> Mapper0View {
        Mapper0View {
            chr_rom: self.chr_rom@,
            chr_writable: self.chr_writable,
            prg_rom: self.prg_rom@,
            prg_ram: self.prg_ram@,
        }
    }

    pub fn new(prg_rom: Vec<u8>, chr_rom: Vec<u8>, _mirroring: Mirroring) -> (mapper: Mapper0)
        ensures
            mapper@ == Mapper0View::initial(prg_rom@, chr_rom@),
    {
        let chr_writable = chr_rom.len() == 0;
        let chr_rom = if chr_writable {
            zeroed(0x2000)
        } else {
            chr_rom
        };
        let mapper = Mapper0 { prg_rom, chr_rom, chr_writable, prg_ram: [0; 0x2000] };
        assert(mapper.prg_ram@ =~= zeros(0x2000));
        mapper
    }

    /// Reads the byte that the processor sees at an address.
    pub fn read(&self, address: u16) -> (result: Result<u8, RomError>)
        ensures
            match self@.read(address) {
                Some(value) => result == Ok::<u8, RomError>(value),
                None => result matches Err(RomError::UnknownAddress(_)),
            },
    {
        if 0x6000 <= address && address < 0x8000 {
            Ok(self.prg_ram[(address - 0x6000) as usize])
        } else if address >= 0x8000 && self.prg_rom.len() > 0 {
            Ok(self.prg_rom[address as usize % self.prg_rom.len()])
        } else {
            Err(RomError::UnknownAddress("nothing is mapped at this address".to_owned()))
        }
    }

    /// Writes a byte where the processor addresses it.
    pub fn write(&mut self, address: u16, value: u8) -> (result: Result<(), MemoryError>)
        ensures
            match old(self)@.write(address, value) {
                Some(after) => result is Ok && final(self)@ == after,
                None => result matches Err(MemoryError::UnknownAddress(_)) && final(self)@ == old(
                    self,
                )@,
            },
    {
        if 0x6000 <= address && address < 0x8000 {
            self.prg_ram[(address - 0x6000) as usize] = value;
            Ok(())
        } else if address >= 0x8000 {
            Ok(())
        } else {
            Err(MemoryError::UnknownAddress("nothing is mapped at this address".to_owned()))
        }
    }

    /// Reads a byte of character data for the picture unit.
    pub fn read_chr(&self, offset: u16) -> (result: Result<u8, RomError>)
        ensures
            match self@.read_chr(offset) {
                Some(value) => result == Ok::<u8, RomError>(value),
                None => result matches Err(RomError::UnknownAddress(_)),
            },
    {
        if (offset as usize) < self.chr_rom.len() {
            Ok(self.chr_rom[offset as usize])
        } else {
            Err(RomError::UnknownAddress("no character data at this offset".to_owned()))
        }
    }

    /// Writes a byte of character data for the picture unit.
    pub fn write_chr(&mut self, offset: u16, value: u8) -> (result: Result<(), MemoryError>)
        ensures
            match old(self)@.write_chr(offset, value) {
                Some(after) => result is Ok && final(self)@ == after,
                None => result matches Err(MemoryError::UnknownAddress(_)) && final(self)@ == old(
                    self,
                )@,
            },
    {
        if (offset as usize) >= self.chr_rom.len() {
            Err(MemoryError::UnknownAddress("no character data at this offset".to_owned()))
        } else {
            if self.chr_writable {
                self.chr_rom[offset as usize] = value;
            }
            Ok(())
        }
    }
}

} // verus!
