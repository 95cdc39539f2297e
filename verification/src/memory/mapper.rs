//! The cartridge image and the two supported mappers.

use crate::bits::has_bit;
use crate::error::{MemoryError, RomError};
use crate::memory::mapper::mapper0::{Mapper0, Mapper0View};
use crate::memory::mapper::mapper1::{Mapper1, Mapper1View};
use crate::memory::{copy_range, Mirroring};
use vstd::prelude::*;

pub mod mapper0;
pub mod mapper1;

verus! {

/// The length of the header of a cartridge image.
pub const HEADER_LENGTH: usize = 16;

/// The length of the optional trainer that follows the header.
pub const TRAINER_LENGTH: usize = 512;

/// The length of one unit of program memory.
pub const PROGRAM_UNIT: usize = 0x4000;

/// The length of one unit of character memory.
pub const CHARACTER_UNIT: usize = 0x2000;

/// What the header of a cartridge image says.
#[derive(Clone, Copy, Debug, PartialEq, Eq, Structural)]
pub struct RomHeader {
    pub mirroring: Mirroring,
    pub peristent_memory: bool,
    pub ignore_mirroring_control: bool,
    pub trainer: bool,
    pub program_rom_size: u8,
    pub program_ram_size: u8,
    pub charactor_memory_size: u8,
    pub mapper_number: u8,
}

/// Whether an image begins with the four bytes `N`, `E`, `S`, `$1A`.
pub open spec fn has_signature(image: Seq<u8>) -> bool {
    image.len() >= 4 && image[0] == 0x4E && image[1] == 0x45 && image[2] == 0x53 && image[3]
        == 0x1A
}

/// What the sixteen header bytes of an image say. Byte 6 holds four flags
/// and the low half of the mapper number, byte 7 its high half.
pub open spec fn header_of(image: Seq<u8>) -> RomHeader {
    RomHeader {
        program_rom_size: image[4],
        charactor_memory_size: image[5],
        mirroring: if has_bit(image[6], 1) {
            Mirroring::Vertical
        } else {
            Mirroring::Horizontal
        },
        peristent_memory: has_bit(image[6], 2),
        trainer: has_bit(image[6], 4),
        ignore_mirroring_control: has_bit(image[6], 8),
        program_ram_size: image[8],
        mapper_number: (image[6] / 16 + (image[7] / 16) * 16) as u8,
    }
}

impl RomHeader {
    /// Where the program memory starts in the image.
    pub open spec fn program_start(self) -> int {
        if self.trainer {
            HEADER_LENGTH + TRAINER_LENGTH
        } else {
            HEADER_LENGTH as int
        }
    }

    /// Where the program memory ends and the character memory starts.
    pub open spec fn program_end(self) -> int {
        self.program_start() + self.program_rom_size * PROGRAM_UNIT
    }

    /// The length of an image with this header.
    pub open spec fn image_length(self) -> int {
        self.program_end() + self.charactor_memory_size * CHARACTER_UNIT
    }
}

/// Whether an image can be used: it begins with the signature, it is
/// exactly as long as its header says, and it names mapper 0 or mapper 1.
pub open spec fn is_valid_image(image: Seq<u8>) -> bool {
    &&& has_signature(image)
    &&& image.len() == header_of(image).image_length()
    &&& header_of(image).mapper_number <= 1
}

/// Whether an error says what is wrong with an image. The signature is
/// looked at first, then the length, then the mapper number, so at most
/// one kind of error fits an image.
pub open spec fn refuses(error: RomError, image: Seq<u8>) -> bool {
    match error {
        RomError::IncorrectSignature(_) => !has_signature(image),
        RomError::IncorrectDataSize(_) => has_signature(image) && (image.len() < HEADER_LENGTH
            || image.len() != header_of(image).image_length()),
        RomError::UnknownMapper(number, _) => has_signature(image) && image.len() == header_of(
            image,
        ).image_length() && number == header_of(image).mapper_number && number > 1,
        RomError::UnknownAddress(_) => false,
    }
}

/// Reads the header of a cartridge image. An image without the signature
/// is refused, and so is one that is shorter than a header.
pub fn parse_header(rom_bytes: &[u8]) -> (result: Result<RomHeader, RomError>)
    ensures
        match result {
            Ok(header) => has_signature(rom_bytes@) && rom_bytes@.len() >= HEADER_LENGTH && header
                == header_of(rom_bytes@),
            Err(RomError::IncorrectSignature(_)) => !has_signature(rom_bytes@),
            Err(RomError::IncorrectDataSize(_)) => has_signature(rom_bytes@) && rom_bytes@.len()
                < HEADER_LENGTH,
            Err(_) => false,
        },
{
    if rom_bytes.len() < 4 || rom_bytes[0] != 0x4E || rom_bytes[1] != 0x45 || rom_bytes[2] != 0x53
        || rom_bytes[3] != 0x1A {
        return Err(
            RomError::IncorrectSignature("the image does not begin with NES and $1A".to_owned()),
        );
    }
    if rom_bytes.len() < HEADER_LENGTH {
        return Err(RomError::IncorrectDataSize("the image is shorter than a header".to_owned()));
    }
    let flags = rom_bytes[6];
    Ok(
        RomHeader {
            program_rom_size: rom_bytes[4],
            charactor_memory_size: rom_bytes[5],
            mirroring: if flags % 2 == 1 {
                Mirroring::Vertical
            } else {
                Mirroring::Horizontal
            },
            peristent_memory: (flags / 2) % 2 == 1,
            trainer: (flags / 4) % 2 == 1,
            ignore_mirroring_control: (flags / 8) % 2 == 1,
            program_ram_size: rom_bytes[8],
            mapper_number: flags / 16 + (rom_bytes[7] / 16) * 16,
        },
    )
}

/// The board of a cartridge: one variant for each supported mapper.
#[derive(Debug, PartialEq)]
pub enum Mapper {
    Nrom(Mapper0),
    Mmc1(Mapper1),
}

/// Whether a result is the error with which a board refuses a write at an
/// address.
pub open spec fn refuses_write(result: Result<(), MemoryError>, board: MapperView, address: u16) -> bool {
    match board {
        MapperView::Nrom(_) => result matches Err(MemoryError::UnknownAddress(_)),
        MapperView::Mmc1(_) => result matches Err(MemoryError::MapperAddressError(at, _)) && at
            == address,
    }
}

/// The contents of a [`Mapper`].
pub enum MapperView {
    Nrom(Mapper0View),
    Mmc1(Mapper1View),
}

impl MapperView {
    /// The byte that the processor reads at an address, if it is mapped.
    pub open spec fn read(self, address: u16) -> Option<u8> {
        match self {
            MapperView::Nrom(board) => board.read(address),
            MapperView::Mmc1(board) => board.read(address),
        }
    }

    /// The board after the processor has written a byte, if the address is
    /// mapped.
    pub open spec fn write(self, address: u16, value: u8) -> Option<MapperView> {
        match self {
            MapperView::Nrom(board) => match board.write(address, value) {
                Some(after) => Some(MapperView::Nrom(after)),
                None => None,
            },
            MapperView::Mmc1(board) => match board.write(address, value) {
                Some(after) => Some(MapperView::Mmc1(after)),
                None => None,
            },
        }
    }

    /// The character byte at an offset, if there is one.
    pub open spec fn read_chr(self, offset: u16) -> Option<u8> {
        match self {
            MapperView::Nrom(board) => board.read_chr(offset),
            MapperView::Mmc1(board) => board.read_chr(offset),
        }
    }

    /// The board after the picture unit has written a character byte, if
    /// there is a byte at the offset.
    pub open spec fn write_chr(self, offset: u16, value: u8) -> Option<MapperView> {
        match self {
            MapperView::Nrom(board) => match board.write_chr(offset, value) {
                Some(after) => Some(MapperView::Nrom(after)),
                None => None,
            },
            MapperView::Mmc1(board) => match board.write_chr(offset, value) {
                Some(after) => Some(MapperView::Mmc1(after)),
                None => None,
            },
        }
    }

    /// The board that an image with a valid header describes, at power on.
    pub open spec fn of_image(image: Seq<u8>) -> MapperView {
        let header = header_of(image);
        let program = image.subrange(header.program_start(), header.program_end());
        let character = image.subrange(header.program_end(), header.image_length());
        if header.mapper_number == 0 {
            MapperView::Nrom(Mapper0View::initial(program, character))
        } else {
            MapperView::Mmc1(Mapper1View::initial(program, character, header.mirroring))
        }
    }
}

impl Mapper {
    pub open spec fn view(&self) -> MapperView {
        match self {
            Mapper::Nrom(board) => MapperView::Nrom(board@),
            Mapper::Mmc1(board) => MapperView::Mmc1(board@),
        }
    }

    /// Reads the byte that the processor sees at an address.
    pub fn read(&self, address: u16) -> (result: Result<u8, RomError>)
        ensures
            match self@.read(address) {
                Some(value) => result == Ok::<u8, RomError>(value),
                None => result matches Err(RomError::UnknownAddress(_)),
            },
    {
        match self {
            Mapper::Nrom(board) => board.read(address),
            Mapper::Mmc1(board) => board.read(address),
        }
    }

    /// Writes a byte where the processor addresses it. Where nothing is
    /// mapped, the board without bank switching reports an unknown address
    /// and the other board the address that it could not map.
    pub fn write(&mut self, address: u16, value: u8) -> (result: Result<(), MemoryError>)
        ensures
            match old(self)@.write(address, value) {
                Some(after) => result is Ok && final(self)@ == after,
                None => final(self)@ == old(self)@ && refuses_write(result, old(self)@, address),
            },
    {
        match self {
            Mapper::Nrom(board) => board.write(address, value),
            Mapper::Mmc1(board) => board.write(address, value),
        }
    }

    /// Reads a byte of character data for the picture unit.
    pub fn read_chr(&self, offset: u16) -> (result: Result<u8, RomError>)
        ensures
            match self@.read_chr(offset) {
                Some(value) => result == Ok::<u8, RomError>(value),
                None => result matches Err(RomError::UnknownAddress(_)),
            },
    {
        match self {
            Mapper::Nrom(board) => board.read_chr(offset),
            Mapper::Mmc1(board) => board.read_chr(offset),
        }
    }

    /// Writes a byte of character data for the picture unit.
    pub fn write_chr(&mut self, offset: u16, value: u8) -> (result: Result<(), MemoryError>)
        ensures
            match old(self)@.write_chr(offset, value) {
                Some(after) => result is Ok && final(self)@ == after,
                None => result matches Err(MemoryError::UnknownAddress(_)) && final(self)@ == old(
                    self,
                )@,
            },
    {
        match self {
            Mapper::Nrom(board) => board.write_chr(offset, value),
            Mapper::Mmc1(board) => board.write_chr(offset, value),
        }
    }
}

/// Builds the board that a cartridge image describes. The image must begin
/// with the signature, be exactly as long as its header says, and name
/// mapper 0 or mapper 1.
pub fn get_mapper(rom: &[u8]) -> (result: Result<Mapper, RomError>)
    ensures
        match result {
            Ok(mapper) => is_valid_image(rom@) && mapper@ == MapperView::of_image(rom@),
            Err(error) => refuses(error, rom@),
        },
{
    let header = match parse_header(rom) {
        Ok(header) => header,
        Err(error) => {
            return Err(error);
        },
    };
    let program_start: usize = if header.trainer {
        HEADER_LENGTH + TRAINER_LENGTH
    } else {
        HEADER_LENGTH
    };
    let program_end: usize = program_start + (header.program_rom_size as usize) * PROGRAM_UNIT;
    let image_length: usize = program_end + (header.charactor_memory_size as usize)
        * CHARACTER_UNIT;
    if rom.len() != image_length {
        return Err(
            RomError::IncorrectDataSize(
                "the image is not as long as its header says".to_owned(),
            ),
        );
    }
    let prg_rom = copy_range(rom, program_start, program_end);
    let chr_rom = copy_range(rom, program_end, image_length);
    if header.mapper_number == 0 {
        Ok(Mapper::Nrom(Mapper0::new(prg_rom, chr_rom, header.mirroring)))
    } else if header.mapper_number == 1 {
        Ok(Mapper::Mmc1(Mapper1::new(prg_rom, chr_rom, header.mirroring)))
    } else {
        Err(
            RomError::UnknownMapper(
                header.mapper_number,
                "only mappers 0 and 1 are supported".to_owned(),
            ),
        )
    }
}

} // verus!
