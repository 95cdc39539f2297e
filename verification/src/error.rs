//! The errors of the emulator core, their messages and how one kind of
//! error becomes another.

use crate::text::{append_decimal, decimal};
use vstd::prelude::*;
use vstd::string::StringExecFns;

verus! {

/// A cartridge image that cannot be used, or a cartridge access that maps
/// to nothing.
#[derive(Debug, PartialEq)]
pub enum RomError {
    UnknownMapper(u8, String),
    UnknownAddress(String),
    IncorrectSignature(String),
    IncorrectDataSize(String),
}

/// A failed access on the address bus.
#[derive(Debug)]
pub enum MemoryError {
    RomError(RomError),
    UnknownAddress(String),
    ShiftAddressError(String),
    MapperAddressError(u16, String),
}

/// A failure during one processor cycle.
#[derive(Debug)]
pub enum MyTickError {
    MainError(Box<MainError>, String),
    MemoryError(Box<MemoryError>, String),
}

/// A failure while building a processor from a cartridge image.
#[derive(Debug)]
pub enum MyGetCpuError {
    RomError(RomError),
}

/// Any failure of the emulator.
#[derive(Debug)]
pub enum MainError {
    MyGetCpu(Box<MyGetCpuError>, String),
    Memory(Box<MemoryError>, String),
    Opcode(String),
}

impl RomError {
    /// What the error says.
    pub open spec fn message_spec(self) -> Seq<char> {
        match self {
            RomError::UnknownMapper(number, details) => "Unknown Mapper Error: Mapper "@ + decimal(
                number as nat,
            ) + " is not implemented. Details: "@ + details@,
            RomError::UnknownAddress(details) => {
                "Unknown Address Error: Rom address not in the right range. Details: "@
                    + details@
            },
            RomError::IncorrectSignature(details) => {
                "Header signature does not match specification. Details: "@ + details@
            },
            RomError::IncorrectDataSize(details) => {
                "Given amount of data does not match header. Details: "@ + details@
            },
        }
    }

    /// What the error says.
    pub fn message(&self) -> (text: String)
        ensures
            text@ == self.message_spec(),
    {
        match self {
            RomError::UnknownMapper(number, details) => {
                let mut text = String::from_str("Unknown Mapper Error: Mapper ");
                append_decimal(&mut text, *number as u64);
                text.append(" is not implemented. Details: ");
                text.append(details.as_str());
                text
            },
            RomError::UnknownAddress(details) => String::from_str(
                "Unknown Address Error: Rom address not in the right range. Details: ",
            ).concat(details.as_str()),
            RomError::IncorrectSignature(details) => String::from_str(
                "Header signature does not match specification. Details: ",
            ).concat(details.as_str()),
            RomError::IncorrectDataSize(details) => String::from_str(
                "Given amount of data does not match header. Details: ",
            ).concat(details.as_str()),
        }
    }
}

impl MemoryError {
    /// What the error says.
    pub open spec fn message_spec(self) -> Seq<char> {
        match self {
            MemoryError::RomError(error) => "Rom Error occurred: "@ + error.message_spec(),
            MemoryError::UnknownAddress(details) => {
                "Unknown Address Error: Memory address not in the right range. Details: "@
                    + details@
            },
            MemoryError::ShiftAddressError(details) => {
                "Error in shift register data. Details: "@ + details@
            },
            MemoryError::MapperAddressError(address, details) => {
                "Error writing to address for MMC1 mapper: "@ + decimal(address as nat)
                    + ". Details: "@ + details@
            },
        }
    }

    /// What the error says.
    pub fn message(&self) -> (text: String)
        ensures
            text@ == self.message_spec(),
    {
        match self {
            MemoryError::RomError(error) => String::from_str("Rom Error occurred: ").concat(
                error.message().as_str(),
            ),
            MemoryError::UnknownAddress(details) => String::from_str(
                "Unknown Address Error: Memory address not in the right range. Details: ",
            ).concat(details.as_str()),
            MemoryError::ShiftAddressError(details) => String::from_str(
                "Error in shift register data. Details: ",
            ).concat(details.as_str()),
            MemoryError::MapperAddressError(address, details) => {
                let mut text = String::from_str("Error writing to address for MMC1 mapper: ");
                append_decimal(&mut text, *address as u64);
                text.append(". Details: ");
                text.append(details.as_str());
                text
            },
        }
    }
}

impl MyGetCpuError {
    /// What the error says.
    pub open spec fn message_spec(self) -> Seq<char> {
        match self {
            MyGetCpuError::RomError(error) => "Rom Error occurred: "@ + error.message_spec(),
        }
    }

    /// What the error says.
    pub fn message(&self) -> (text: String)
        ensures
            text@ == self.message_spec(),
    {
        match self {
            MyGetCpuError::RomError(error) => String::from_str("Rom Error occurred: ").concat(
                error.message().as_str(),
            ),
        }
    }
}

impl MainError {
    /// What the error says.
    pub open spec fn message_spec(self) -> Seq<char> {
        match self {
            MainError::MyGetCpu(_, details) => "Get Cpu Error occurred. Details: "@ + details@,
            MainError::Memory(_, details) => "Memory Error occurred. Details: "@ + details@,
            MainError::Opcode(details) => "Opcode Error occurred. Details: "@ + details@,
        }
    }

    /// What the error says.
    pub fn message(&self) -> (text: String)
        ensures
            text@ == self.message_spec(),
    {
        match self {
            MainError::MyGetCpu(_, details) => String::from_str(
                "Get Cpu Error occurred. Details: ",
            ).concat(details.as_str()),
            MainError::Memory(_, details) => String::from_str(
                "Memory Error occurred. Details: ",
            ).concat(details.as_str()),
            MainError::Opcode(details) => String::from_str(
                "Opcode Error occurred. Details: ",
            ).concat(details.as_str()),
        }
    }

    /// A memory error as a main error, with the message of the memory
    /// error as the details.
    pub fn from_memory_error(error: MemoryError) -> (result: MainError)
        ensures
            result matches MainError::Memory(source, details) && *source == error && details@
                == error.message_spec(),
    {
        let context = error.message();
        MainError::Memory(Box::new(error), context)
    }

    /// A failure to build a processor as a main error, with the message of
    /// the failure as the details.
    pub fn from_get_cpu_error(error: MyGetCpuError) -> (result: MainError)
        ensures
            result matches MainError::MyGetCpu(source, details) && *source == error && details@
                == error.message_spec(),
    {
        let context = error.message();
        MainError::MyGetCpu(Box::new(error), context)
    }

    /// A cartridge error as a main error, with the message of the
    /// cartridge error as the details.
    pub fn from_rom_error(error: RomError) -> (result: MainError)
        ensures
            result matches MainError::MyGetCpu(source, details) && *source
                == MyGetCpuError::RomError(error) && details@ == error.message_spec(),
    {
        let context = error.message();
        MainError::MyGetCpu(Box::new(MyGetCpuError::RomError(error)), context)
    }

    /// A failed cycle as a main error: a memory error that holds the
    /// message of the failed cycle.
    pub fn from_tick_error(error: MyTickError) -> (result: MainError)
        ensures
            result matches MainError::Memory(source, details) && details@ == error.message_spec()
                && (*source matches MemoryError::RomError(RomError::UnknownAddress(inner))
                && inner@ == error.message_spec()),
    {
        let context = error.message();
        MainError::Memory(
            Box::new(MemoryError::RomError(RomError::UnknownAddress(context.clone()))),
            context,
        )
    }
}

impl MyTickError {
    /// What the error says.
    pub open spec fn message_spec(self) -> Seq<char> {
        match self {
            MyTickError::MainError(_, details) => {
                "MainError occurred in one of the functions during a CPU tick. Details: "@
                    + details@
            },
            MyTickError::MemoryError(_, details) => {
                "Memory error occurred in the tick function. Details: "@ + details@
            },
        }
    }

    /// What the error says.
    pub fn message(&self) -> (text: String)
        ensures
            text@ == self.message_spec(),
    {
        match self {
            MyTickError::MainError(_, details) => String::from_str(
                "MainError occurred in one of the functions during a CPU tick. Details: ",
            ).concat(details.as_str()),
            MyTickError::MemoryError(_, details) => String::from_str(
                "Memory error occurred in the tick function. Details: ",
            ).concat(details.as_str()),
        }
    }

    /// A memory error as a failed cycle, with the message of the memory
    /// error as the details.
    pub fn from_memory_error(error: MemoryError) -> (result: MyTickError)
        ensures
            result matches MyTickError::MemoryError(source, details) && *source == error
                && details@ == error.message_spec(),
    {
        let context = error.message();
        MyTickError::MemoryError(Box::new(error), context)
    }

    /// A main error as a failed cycle, with the message of the main error
    /// as the details.
    pub fn from_main_error(error: MainError) -> (result: MyTickError)
        ensures
            result matches MyTickError::MainError(source, details) && *source == error && details@
                == error.message_spec(),
    {
        let context = error.message();
        MyTickError::MainError(Box::new(error), context)
    }
}

} // verus!
