//! The board with one bank-switching chip, which takes the value of a
//! register one bit at a time, in five writes.

use crate::error::{MemoryError, RomError};
use crate::memory::{zeroed, zeros, Mirroring};
use vstd::prelude::*;

verus! {

/// How the program memory is divided into banks.
#[derive(PartialEq, Eq, Debug, Copy, Clone, Structural)]
pub enum ProgramBankMode {
    /// One switchable bank of 32 KiB.
    Fullswitch,
    /// The first bank fixed at `$8000`, a switchable bank at `$C000`.
    Fixfirst,
    /// A switchable bank at `$8000`, the last bank fixed at `$C000`.
    Fixlast,
}

/// How the character memory is divided into banks.
#[derive(PartialEq, Eq, Debug, Copy, Clone, Structural)]
pub enum CharacterBankMode {
    /// One switchable bank of 8 KiB.
    Fullswitch,
    /// Two switchable banks of 4 KiB.
    Halfswitch,
}

/// The four registers that the serial port can load.
#[derive(PartialEq, Eq, Debug, Copy, Clone, Structural)]
pub enum BankRegister {
    Control,
    CharacterBank0,
    CharacterBank1,
    ProgramBank,
}

/// The value of an empty shift register: a single marker bit that reaches
/// bit 0 when four bits have been shifted in behind it.
pub const SHIFT_REGISTER_EMPTY: u8 = 16;

/// The control register when power comes on: the last bank is fixed.
pub const CONTROL_AT_POWER_ON: u8 = 0x0C;

/// The bits that a reset sets in the control register.
pub const CONTROL_RESET_BITS: u8 = 0x0C;

/// The program bank mode that a control value selects, by its bits 2 and 3.
pub open spec fn program_bank_mode(control: u8) -> ProgramBankMode {
    let selector = (control / 4) % 4;
    if selector == 3 {
        ProgramBankMode::Fixlast
    } else if selector == 2 {
        ProgramBankMode::Fixfirst
    } else {
        ProgramBankMode::Fullswitch
    }
}

/// The character bank mode that a control value selects, by its bit 4.
pub open spec fn character_bank_mode(control: u8) -> CharacterBankMode {
    if (control / 16) % 2 == 1 {
        CharacterBankMode::Halfswitch
    } else {
        CharacterBankMode::Fullswitch
    }
}

/// The mirroring that a control value selects, by its bits 0 and 1.
pub open spec fn control_mirroring(control: u8) -> Mirroring {
    let selector = control % 4;
    if selector == 0 {
        Mirroring::SingleScreenLower
    } else if selector == 1 {
        Mirroring::SingleScreenUpper
    } else if selector == 2 {
        Mirroring::Horizontal
    } else {
        Mirroring::Vertical
    }
}

/// The register that a write at an address from `$8000` loads, by bits 13
/// and 14 of the address.
pub open spec fn register_at(address: u16) -> BankRegister {
    let selector = (address / 0x2000) % 4;
    if selector == 0 {
        BankRegister::Control
    } else if selector == 1 {
        BankRegister::CharacterBank0
    } else if selector == 2 {
        BankRegister::CharacterBank1
    } else {
        BankRegister::ProgramBank
    }
}

/// The shift register after one more bit has come in at the top.
pub open spec fn shifted(shift_register: u8, value: u8) -> u8 {
    (shift_register / 2 + (value % 2) * 16) as u8
}

/// The five-bit number whose bits, from the lowest up, are the lowest bits
/// of five written bytes in the order of writing.
pub open spec fn assembled(first: u8, second: u8, third: u8, fourth: u8, fifth: u8) -> int {
    (first % 2) + 2 * (second % 2) + 4 * (third % 2) + 8 * (fourth % 2) + 16 * (fifth % 2)
}

/// The contents of a [`Mapper1`].
pub struct Mapper1View {
    pub prg_rom: Seq<u8>,
    pub chr_rom: Seq<u8>,
    pub chr_writable: bool,
    pub control: u8,
    pub prg_bank: u8,
    pub chr_bank_0: u8,
    pub chr_bank_1: u8,
    pub shift_register: u8,
    pub prg_ram: Seq<u8>,
    pub mirroring: Mirroring,
}

impl Mapper1View {
    /// What the board holds when power comes on. A board without character
    /// memory gets 8 KiB of character RAM.
    pub open spec fn initial(prg_rom: Seq<u8>, chr_rom: Seq<u8>, mirroring: Mirroring) -> Mapper1View {
        Mapper1View {
            prg_rom,
            chr_rom: if chr_rom.len() == 0 {
                zeros(0x2000)
            } else {
                chr_rom
            },
            chr_writable: chr_rom.len() == 0,
            control: CONTROL_AT_POWER_ON,
            prg_bank: 0,
            chr_bank_0: 0,
            chr_bank_1: 0,
            shift_register: SHIFT_REGISTER_EMPTY,
            prg_ram: zeros(0x2000),
            mirroring,
        }
    }

    /// The value of one of the four loadable registers.
    pub open spec fn register(self, register: BankRegister) -> u8 {
        match register {
            BankRegister::Control => self.control,
            BankRegister::CharacterBank0 => self.chr_bank_0,
            BankRegister::CharacterBank1 => self.chr_bank_1,
            BankRegister::ProgramBank => self.prg_bank,
        }
    }

    /// The board after a register has been loaded. Loading the control
    /// register also selects the mirroring.
    pub open spec fn load(self, register: BankRegister, value: u8) -> Mapper1View {
        match register {
            BankRegister::Control => Mapper1View {
                control: value,
                mirroring: control_mirroring(value),
                ..self
            },
            BankRegister::CharacterBank0 => Mapper1View { chr_bank_0: value, ..self },
            BankRegister::CharacterBank1 => Mapper1View { chr_bank_1: value, ..self },
            BankRegister::ProgramBank => Mapper1View { prg_bank: value, ..self },
        }
    }

    /// The board after a write to the serial port. A byte with bit 7 set
    /// empties the shift register and fixes the last bank. Any other byte
    /// sends its bit 0 into the shift register; the fifth such bit
    /// completes a value, which goes to the register that the address of
    /// this last write selects.
    pub open spec fn write_port(self, address: u16, value: u8) -> Mapper1View {
        if value >= 0x80 {
            Mapper1View {
                shift_register: SHIFT_REGISTER_EMPTY,
                control: self.control | CONTROL_RESET_BITS,
                ..self
            }
        } else if self.shift_register % 2 == 0 {
            Mapper1View { shift_register: shifted(self.shift_register, value), ..self }
        } else {
            Mapper1View { shift_register: SHIFT_REGISTER_EMPTY, ..self }.load(
                register_at(address),
                shifted(self.shift_register, value),
            )
        }
    }

    /// The board after the processor has written a byte, if the board maps
    /// the address: program RAM from `$6000`, the serial port from `$8000`.
    pub open spec fn write(self, address: u16, value: u8) -> Option<Mapper1View> {
        if 0x6000 <= address < 0x8000 {
            Some(Mapper1View { prg_ram: self.prg_ram.update(address - 0x6000, value), ..self })
        } else if address >= 0x8000 {
            Some(self.write_port(address, value))
        } else {
            None
        }
    }

    /// Where in program memory the last bank of 16 KiB starts, if the
    /// memory holds a whole bank.
    pub open spec fn last_bank_start(self) -> int {
        (self.prg_rom.len() / 0x4000 - 1) * 0x4000
    }

    /// The place in program memory that an address from `$8000` shows,
    /// under the bank mode that the control register selects.
    pub open spec fn program_index(self, address: u16) -> int {
        match program_bank_mode(self.control) {
            ProgramBankMode::Fullswitch => (self.prg_bank / 2) * 0x8000 + (address - 0x8000),
            ProgramBankMode::Fixfirst => if address < 0xC000 {
                address - 0x8000
            } else {
                self.prg_bank * 0x4000 + (address - 0xC000)
            },
            ProgramBankMode::Fixlast => if address < 0xC000 {
                self.prg_bank * 0x4000 + (address - 0x8000)
            } else {
                self.last_bank_start() + (address - 0xC000)
            },
        }
    }

    /// The byte that the processor reads at an address, if the board maps
    /// the address and the selected bank exists.
    pub open spec fn read(self, address: u16) -> Option<u8> {
        if 0x6000 <= address < 0x8000 {
            Some(self.prg_ram[address - 0x6000])
        } else if address >= 0x8000 && 0 <= self.program_index(address) < self.prg_rom.len() {
            Some(self.prg_rom[self.program_index(address)])
        } else {
            None
        }
    }

    /// The place in character memory that an offset below `$2000` shows:
    /// in one bank of 8 KiB, chosen without regard to bit 0 of the first
    /// bank register, or in two banks of 4 KiB.
    pub open spec fn character_index(self, offset: u16) -> int {
        match character_bank_mode(self.control) {
            CharacterBankMode::Fullswitch => (self.chr_bank_0 / 2) * 0x2000 + offset,
            CharacterBankMode::Halfswitch => if offset < 0x1000 {
                self.chr_bank_0 * 0x1000 + offset
            } else {
                self.chr_bank_1 * 0x1000 + (offset - 0x1000)
            },
        }
    }

    /// Whether an offset shows a byte of character memory.
    pub open spec fn maps_chr(self, offset: u16) -> bool {
        offset < 0x2000 && self.character_index(offset) < self.chr_rom.len()
    }

    /// The character byte at an offset, if there is one.
    pub open spec fn read_chr(self, offset: u16) -> Option<u8> {
        if self.maps_chr(offset) {
            Some(self.chr_rom[self.character_index(offset)])
        } else {
            None
        }
    }

    /// The board after the picture unit has written a character byte, if
    /// there is a byte at the offset. Only character RAM takes the byte.
    pub open spec fn write_chr(self, offset: u16, value: u8) -> Option<Mapper1View> {
        if !self.maps_chr(offset) {
            None
        } else if self.chr_writable {
            Some(
                Mapper1View {
                    chr_rom: self.chr_rom.update(self.character_index(offset), value),
                    ..self
                },
            )
        } else {
            Some(self)
        }
    }
}

/// Whatever the control register held, it selects the fixed last bank once
/// the reset bits are set in it.
pub proof fn lemma_reset_fixes_last_bank(control: u8)
    ensures
        program_bank_mode(control | CONTROL_RESET_BITS) == ProgramBankMode::Fixlast,
        character_bank_mode(control | CONTROL_RESET_BITS) == character_bank_mode(control),
        control_mirroring(control | CONTROL_RESET_BITS) == control_mirroring(control),
{
    assert(((control | 0x0Cu8) / 4) % 4 == 3 && ((control | 0x0Cu8) / 16) % 2 == (control / 16) % 2
        && (control | 0x0Cu8) % 4 == control % 4) by (bit_vector);
}

/// A write from `$8000` on goes to the serial port.
pub proof fn lemma_write_reaches_the_port(board: Mapper1View, address: u16, value: u8)
    requires
        address >= 0x8000,
    ensures
        board.write(address, value) == Some(board.write_port(address, value)),
{
}

/// Five writes without bit 7 to the serial port, begun on an empty shift
/// register, load the register that the address of the fifth write selects
/// with the five bits 0 in the order of writing, lowest bit first, and
/// leave the shift register empty. The other three registers keep their
/// values.
pub proof fn lemma_five_writes_load_register(
    board: Mapper1View,
    addresses: Seq<u16>,
    values: Seq<u8>,
)
    requires
        board.shift_register == SHIFT_REGISTER_EMPTY,
        addresses.len() == 5,
        values.len() == 5,
        forall|i: int| 0 <= i < 5 ==> addresses[i] >= 0x8000 && values[i] < 0x80,
    ensures
        ({
            let after = board.write_port(addresses[0], values[0]).write_port(
                addresses[1],
                values[1],
            ).write_port(addresses[2], values[2]).write_port(addresses[3], values[3]).write_port(
                addresses[4],
                values[4],
            );
            let target = register_at(addresses[4]);
            &&& after.register(target) == assembled(
                values[0],
                values[1],
                values[2],
                values[3],
                values[4],
            )
            &&& after.shift_register == SHIFT_REGISTER_EMPTY
            &&& forall|other: BankRegister|
                other != target ==> after.register(other) == board.register(other)
            &&& after == board.load(target, after.register(target))
        }),
{
    let one = board.write_port(addresses[0], values[0]);
    let two = one.write_port(addresses[1], values[1]);
    let three = two.write_port(addresses[2], values[2]);
    let four = three.write_port(addresses[3], values[3]);
    assert(one.shift_register == 8 + 16 * (values[0] % 2));
    assert(two.shift_register == 4 + 8 * (values[0] % 2) + 16 * (values[1] % 2));
    assert(three.shift_register == 2 + 4 * (values[0] % 2) + 8 * (values[1] % 2) + 16 * (values[2]
        % 2));
    assert(four.shift_register == 1 + 2 * (values[0] % 2) + 4 * (values[1] % 2) + 8 * (values[2]
        % 2) + 16 * (values[3] % 2));
}

/// A board with up to 256 KiB of program memory in banks, 8 KiB of program
/// RAM and up to 128 KiB of character data in banks.
#[derive(Debug, PartialEq)]
pub struct Mapper1 {
    prg_rom: Vec<u8>,
    chr_rom: Vec<u8>,
    chr_writable: bool,
    control: u8,
    prg_bank: u8,
    chr_bank_0: u8,
    chr_bank_1: u8,
    shift_register: u8,
    prg_ram: [u8; 0x2000],
    mirroring: Mirroring,
}

impl Mapper1 {
    pub closed spec fn view(&self) -> Mapper1View {
        Mapper1View {
            prg_rom: self.prg_rom@,
            chr_rom: self.chr_rom@,
            chr_writable: self.chr_writable,
            control: self.control,
            prg_bank: self.prg_bank,
            chr_bank_0: self.chr_bank_0,
            chr_bank_1: self.chr_bank_1,
            shift_register: self.shift_register,
            prg_ram: self.prg_ram@,
            mirroring: self.mirroring,
        }
    }

    pub fn new(prg_rom: Vec<u8>, chr_rom: Vec<u8>, mirroring: Mirroring) -> (mapper: Mapper1)
        ensures
            mapper@ == Mapper1View::initial(prg_rom@, chr_rom@, mirroring),
    {
        let chr_writable = chr_rom.len() == 0;
        let chr_rom = if chr_writable {
            zeroed(0x2000)
        } else {
            chr_rom
        };
        let mapper = Mapper1 {
            prg_rom,
            chr_rom,
            chr_writable,
            control: CONTROL_AT_POWER_ON,
            prg_bank: 0,
            chr_bank_0: 0,
            chr_bank_1: 0,
            shift_register: SHIFT_REGISTER_EMPTY,
            prg_ram: [0; 0x2000],
            mirroring,
        };
        assert(mapper.prg_ram@ =~= zeros(0x2000));
        mapper
    }

    /// The control register.
    pub fn control(&self) -> (value: u8)
        ensures
            value == self@.control,
    {
        self.control
    }

    /// The program bank register.
    pub fn prg_bank(&self) -> (value: u8)
        ensures
            value == self@.prg_bank,
    {
        self.prg_bank
    }

    /// The first character bank register.
    pub fn chr_bank_0(&self) -> (value: u8)
        ensures
            value == self@.chr_bank_0,
    {
        self.chr_bank_0
    }

    /// The second character bank register.
    pub fn chr_bank_1(&self) -> (value: u8)
        ensures
            value == self@.chr_bank_1,
    {
        self.chr_bank_1
    }

    /// The shift register of the serial port.
    pub fn shift_register(&self) -> (value: u8)
        ensures
            value == self@.shift_register,
    {
        self.shift_register
    }

    /// The mirroring that the board selects.
    pub fn mirroring(&self) -> (mirroring: Mirroring)
        ensures
            mirroring == self@.mirroring,
    {
        self.mirroring
    }

    /// The program bank mode that the control register selects.
    pub fn prg_bank_mode(&self) -> (mode: ProgramBankMode)
        ensures
            mode == program_bank_mode(self@.control),
    {
        let selector = (self.control / 4) % 4;
        if selector == 3 {
            ProgramBankMode::Fixlast
        } else if selector == 2 {
            ProgramBankMode::Fixfirst
        } else {
            ProgramBankMode::Fullswitch
        }
    }

    /// The character bank mode that the control register selects.
    pub fn chr_bank_mode(&self) -> (mode: CharacterBankMode)
        ensures
            mode == character_bank_mode(self@.control),
    {
        if (self.control / 16) % 2 == 1 {
            CharacterBankMode::Halfswitch
        } else {
            CharacterBankMode::Fullswitch
        }
    }

    /// Writes a byte where the processor addresses it.
    pub fn write(&mut self, address: u16, value: u8) -> (result: Result<(), MemoryError>)
        ensures
            match old(self)@.write(address, value) {
                Some(after) => result is Ok && final(self)@ == after,
                None => result matches Err(MemoryError::MapperAddressError(at, _)) && at == address
                    && final(self)@ == old(self)@,
            },
    {
        if 0x6000 <= address && address < 0x8000 {
            self.prg_ram[(address - 0x6000) as usize] = value;
            Ok(())
        } else if address >= 0x8000 {
            if value >= 0x80 {
                self.shift_register = SHIFT_REGISTER_EMPTY;
                self.control = self.control | CONTROL_RESET_BITS;
            } else if self.shift_register % 2 == 0 {
                self.shift_register = self.shift_register / 2 + (value % 2) * 16;
            } else {
                let loaded: u8 = self.shift_register / 2 + (value % 2) * 16;
                let selector = (address / 0x2000) % 4;
                if selector == 0 {
                    self.control = loaded;
                    let mirroring = loaded % 4;
                    self.mirroring = if mirroring == 0 {
                        Mirroring::SingleScreenLower
                    } else if mirroring == 1 {
                        Mirroring::SingleScreenUpper
                    } else if mirroring == 2 {
                        Mirroring::Horizontal
                    } else {
                        Mirroring::Vertical
                    };
                } else if selector == 1 {
                    self.chr_bank_0 = loaded;
                } else if selector == 2 {
                    self.chr_bank_1 = loaded;
                } else {
                    self.prg_bank = loaded;
                }
                self.shift_register = SHIFT_REGISTER_EMPTY;
            }
            Ok(())
        } else {
            Err(
                MemoryError::MapperAddressError(
                    address,
                    "nothing is mapped at this address".to_owned(),
                ),
            )
        }
    }

    /// Reads the byte that the processor sees at an address.
    pub fn read(&self, address: u16) -> (result: Result<u8, RomError>)
        ensures
            match self@.read(address) {
                Some(value) => result == Ok::<u8, RomError>(value),
                None => result matches Err(RomError::UnknownAddress(_)),
            },
    {
        if 0x6000 <= address && address < 0x8000 {
            return Ok(self.prg_ram[(address - 0x6000) as usize]);
        }
        if address >= 0x8000 {
            let length = self.prg_rom.len();
            let bank = self.prg_bank as usize;
            let index: usize = match self.prg_bank_mode() {
                ProgramBankMode::Fullswitch => (bank / 2) * 0x8000 + (address as usize - 0x8000),
                ProgramBankMode::Fixfirst => if address < 0xC000 {
                    address as usize - 0x8000
                } else {
                    bank * 0x4000 + (address as usize - 0xC000)
                },
                ProgramBankMode::Fixlast => if address < 0xC000 {
                    bank * 0x4000 + (address as usize - 0x8000)
                } else if length >= 0x4000 {
                    (length / 0x4000 - 1) * 0x4000 + (address as usize - 0xC000)
                } else {
                    length
                },
            };
            if index < length {
                return Ok(self.prg_rom[index]);
            }
        }
        Err(RomError::UnknownAddress("nothing is mapped at this address".to_owned()))
    }

    fn chr_index(&self, offset: u16) -> (index: usize)
        requires
            offset < 0x2000,
        ensures
            index == self@.character_index(offset),
    {
        match self.chr_bank_mode() {
            CharacterBankMode::Fullswitch => (self.chr_bank_0 as usize / 2) * 0x2000
                + offset as usize,
            CharacterBankMode::Halfswitch => if offset < 0x1000 {
                self.chr_bank_0 as usize * 0x1000 + offset as usize
            } else {
                self.chr_bank_1 as usize * 0x1000 + (offset as usize - 0x1000)
            },
        }
    }

    /// Reads a byte of character data for the picture unit.
    pub fn read_chr(&self, offset: u16) -> (result: Result<u8, RomError>)
        ensures
            match self@.read_chr(offset) {
                Some(value) => result == Ok::<u8, RomError>(value),
                None => result matches Err(RomError::UnknownAddress(_)),
            },
    {
        if offset < 0x2000 {
            let index = self.chr_index(offset);
            if index < self.chr_rom.len() {
                return Ok(self.chr_rom[index]);
            }
        }
        Err(RomError::UnknownAddress("no character data at this offset".to_owned()))
    }

    /// Writes a byte of character data for the picture unit.
    pub fn write_chr(&mut self, offset: u16, value: u8) -> (result: Result<(), MemoryError>)
        ensures
            match old(self)@.write_chr(offset, value) {
                Some(after) => result is Ok && final(self)@ == after,
                None => result matches Err(MemoryError::UnknownAddress(_)) && final(self)@ == old(
                    self,
                )@,
            },
    {
        if offset < 0x2000 {
            let index = self.chr_index(offset);
            if index < self.chr_rom.len() {
                if self.chr_writable {
                    self.chr_rom[index] = value;
                }
                return Ok(());
            }
        }
        Err(MemoryError::UnknownAddress("no character data at this offset".to_owned()))
    }
}

} // verus!
