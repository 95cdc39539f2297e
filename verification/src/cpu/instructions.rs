//! The instruction set: mnemonics, addressing modes, the opcode table and
//! the cycle table.

use crate::error::MainError;
use vstd::prelude::*;

verus! {

/// The way an instruction finds its operand.
#[derive(Clone, Copy, Debug, PartialEq, Eq, Structural)]
pub enum AddressingMode {
    Accumulator,
    Absolute,
    AbsoluteX,
    AbsoluteY,
    Immediate,
    Implied,
    Indirect,
    IndirectX,
    IndirectY,
    Relative,
    ZeroPage,
    ZeroPageX,
    ZeroPageY,
}

impl AddressingMode {
    /// The number of operand bytes that follow the opcode.
    pub open spec fn operand_bytes(self) -> int {
        match self {
            AddressingMode::Accumulator | AddressingMode::Implied => 0,
            AddressingMode::Absolute
            | AddressingMode::AbsoluteX
            | AddressingMode::AbsoluteY
            | AddressingMode::Indirect => 2,
            _ => 1,
        }
    }

    /// Whether the mode yields an operand byte.
    pub open spec fn supplies_value(self) -> bool {
        self != AddressingMode::Implied && self != AddressingMode::Relative
    }

    /// Whether the mode yields an effective address.
    pub open spec fn supplies_address(self) -> bool {
        self != AddressingMode::Implied && self != AddressingMode::Accumulator && self
            != AddressingMode::Immediate
    }

    /// The length in bytes of an instruction in this mode, opcode included.
    pub fn length(&self) -> (bytes: u8)
        ensures
            bytes == 1 + self.operand_bytes(),
    {
        match self {
            AddressingMode::Accumulator => 1,
            AddressingMode::Absolute => 3,
            AddressingMode::AbsoluteX => 3,
            AddressingMode::AbsoluteY => 3,
            AddressingMode::Immediate => 2,
            AddressingMode::Implied => 1,
            AddressingMode::Indirect => 3,
            AddressingMode::IndirectX => 2,
            AddressingMode::IndirectY => 2,
            AddressingMode::Relative => 2,
            AddressingMode::ZeroPage => 2,
            AddressingMode::ZeroPageX => 2,
            AddressingMode::ZeroPageY => 2,
        }
    }
}

/// The mnemonics: the 56 documented ones, then the 21 undocumented ones.
#[allow(clippy::upper_case_acronyms)]
#[derive(Clone, Copy, Debug, PartialEq, Eq, Structural)]
pub enum InstructionType {
    LDA,
    LDX,
    LDY,
    STA,
    STX,
    STY,
    TAX,
    TAY,
    TSX,
    TXA,
    TXS,
    TYA,
    PHA,
    PHP,
    PLA,
    PLP,
    DEC,
    DEX,
    DEY,
    INC,
    INX,
    INY,
    ADC,
    SBC,
    AND,
    EOR,
    ORA,
    ASL,
    LSR,
    ROL,
    ROR,
    CLC,
    CLD,
    CLI,
    CLV,
    SEC,
    SED,
    SEI,
    CMP,
    CPX,
    CPY,
    BCC,
    BCS,
    BEQ,
    BMI,
    BNE,
    BPL,
    BVC,
    BVS,
    JMP,
    JSR,
    RTS,
    BRK,
    RTI,
    BIT,
    NOP,
    ALR,
    ANC,
    ANE,
    ARR,
    DCP,
    ISC,
    LAS,
    LAX,
    LXA,
    RLA,
    RRA,
    SAX,
    SBX,
    SHA,
    SHX,
    SHY,
    SLO,
    SRE,
    TAS,
    USBC,
    JAM,
}

impl InstructionType {
    /// The eight conditional branches.
    pub open spec fn is_branch(self) -> bool {
        self == InstructionType::BCC || self == InstructionType::BCS || self
            == InstructionType::BEQ || self == InstructionType::BMI || self
            == InstructionType::BNE || self == InstructionType::BPL || self
            == InstructionType::BVC || self == InstructionType::BVS
    }

    /// The instructions that load the program counter: jumps, branches,
    /// subroutine call and return, break and return from interrupt.
    pub open spec fn alters_flow(self) -> bool {
        self.is_branch() || self == InstructionType::JMP || self == InstructionType::JSR || self
            == InstructionType::RTS || self == InstructionType::BRK || self
            == InstructionType::RTI
    }

    /// The stores, which must not read their target.
    pub open spec fn is_write_only(self) -> bool {
        self == InstructionType::STA || self == InstructionType::STX || self
            == InstructionType::STY || self == InstructionType::SAX
    }

    /// The instructions that read a location, change the byte and write it
    /// back, together with STA: none of them pays for a page crossing.
    pub open spec fn is_read_modify_write(self) -> bool {
        self == InstructionType::ASL || self == InstructionType::DEC || self
            == InstructionType::INC || self == InstructionType::LSR || self
            == InstructionType::ROL || self == InstructionType::ROR || self
            == InstructionType::STA || self == InstructionType::DCP || self
            == InstructionType::ISC || self == InstructionType::SLO || self
            == InstructionType::RLA || self == InstructionType::SRE || self
            == InstructionType::RRA
    }

    /// The loads, stores and register transfers.
    pub open spec fn is_transfer(self) -> bool {
        self == InstructionType::LDA || self == InstructionType::LDX || self
            == InstructionType::LDY || self == InstructionType::LAX || self
            == InstructionType::STA || self == InstructionType::STX || self
            == InstructionType::STY || self == InstructionType::SAX || self
            == InstructionType::TAX || self == InstructionType::TAY || self
            == InstructionType::TSX || self == InstructionType::TXA || self
            == InstructionType::TXS || self == InstructionType::TYA
    }

    /// The instructions that push or pull.
    pub open spec fn uses_stack(self) -> bool {
        self == InstructionType::PHA || self == InstructionType::PHP || self
            == InstructionType::PLA || self == InstructionType::PLP || self
            == InstructionType::JSR || self == InstructionType::RTS || self
            == InstructionType::BRK || self == InstructionType::RTI
    }

    /// The instructions that only set or clear a flag, NOP and JAM.
    pub open spec fn is_flag_or_idle(self) -> bool {
        self == InstructionType::CLC || self == InstructionType::CLD || self
            == InstructionType::CLI || self == InstructionType::CLV || self
            == InstructionType::SEC || self == InstructionType::SED || self
            == InstructionType::SEI || self == InstructionType::NOP || self
            == InstructionType::JAM
    }

    /// The documented arithmetic: increments, sums, logic, shifts and
    /// comparisons.
    pub open spec fn is_arithmetic(self) -> bool {
        self == InstructionType::DEC || self == InstructionType::DEX || self
            == InstructionType::DEY || self == InstructionType::INC || self
            == InstructionType::INX || self == InstructionType::INY || self
            == InstructionType::ADC || self == InstructionType::SBC || self
            == InstructionType::USBC || self == InstructionType::AND || self
            == InstructionType::EOR || self == InstructionType::ORA || self
            == InstructionType::ASL || self == InstructionType::LSR || self
            == InstructionType::ROL || self == InstructionType::ROR || self
            == InstructionType::CMP || self == InstructionType::CPX || self
            == InstructionType::CPY || self == InstructionType::BIT
    }

    /// The instructions that cannot run without an effective address.
    pub open spec fn needs_address(self) -> bool {
        self.is_write_only() || self.is_branch() || self == InstructionType::INC || self
            == InstructionType::DEC || self == InstructionType::DCP || self
            == InstructionType::ISC || self == InstructionType::SLO || self
            == InstructionType::RLA || self == InstructionType::SRE || self
            == InstructionType::RRA || self == InstructionType::JMP || self
            == InstructionType::JSR || self == InstructionType::SHA || self
            == InstructionType::SHX || self == InstructionType::SHY || self
            == InstructionType::TAS
    }

    /// The instructions that cannot run without an operand byte.
    pub open spec fn needs_value(self) -> bool {
        self == InstructionType::LDA || self == InstructionType::LDX || self
            == InstructionType::LDY || self == InstructionType::LAX || self
            == InstructionType::INC || self == InstructionType::DEC || self
            == InstructionType::DCP || self == InstructionType::ISC || self
            == InstructionType::ADC || self == InstructionType::SBC || self
            == InstructionType::USBC || self == InstructionType::RRA || self
            == InstructionType::CMP || self == InstructionType::CPX || self
            == InstructionType::CPY || self == InstructionType::AND || self
            == InstructionType::EOR || self == InstructionType::ORA || self
            == InstructionType::BIT || self == InstructionType::ASL || self
            == InstructionType::LSR || self == InstructionType::ROL || self
            == InstructionType::ROR || self == InstructionType::SLO || self
            == InstructionType::RLA || self == InstructionType::SRE || self
            == InstructionType::ANC || self == InstructionType::ALR || self
            == InstructionType::ARR || self == InstructionType::ANE || self
            == InstructionType::LXA || self == InstructionType::LAS || self
            == InstructionType::SBX
    }
}

/// A decoded instruction: what to do and where the operand is.
#[derive(Clone, Copy, Debug, PartialEq, Eq, Structural)]
pub struct Instruction {
    pub instruction_type: InstructionType,
    pub addressing_mode: AddressingMode,
}

/// The mnemonic of an opcode whose two low bits are `01`, by its three high bits.
pub open spec fn alu_kind(row: u8) -> InstructionType {
    match row {
        0 => InstructionType::ORA,
        1 => InstructionType::AND,
        2 => InstructionType::EOR,
        3 => InstructionType::ADC,
        4 => InstructionType::STA,
        5 => InstructionType::LDA,
        6 => InstructionType::CMP,
        _ => InstructionType::SBC,
    }
}

/// The mode of an opcode whose two low bits are `01`, by its three middle bits.
pub open spec fn alu_mode(column: u8) -> AddressingMode {
    match column {
        0 => AddressingMode::IndirectX,
        1 => AddressingMode::ZeroPage,
        2 => AddressingMode::Immediate,
        3 => AddressingMode::Absolute,
        4 => AddressingMode::IndirectY,
        5 => AddressingMode::ZeroPageX,
        6 => AddressingMode::AbsoluteY,
        _ => AddressingMode::AbsoluteX,
    }
}

/// The mnemonic of an opcode whose two low bits are `10`, by its three high bits.
pub open spec fn shift_kind(row: u8) -> InstructionType {
    match row {
        0 => InstructionType::ASL,
        1 => InstructionType::ROL,
        2 => InstructionType::LSR,
        3 => InstructionType::ROR,
        4 => InstructionType::STX,
        5 => InstructionType::LDX,
        6 => InstructionType::DEC,
        _ => InstructionType::INC,
    }
}

/// The mnemonic of an opcode whose two low bits are `11`, by its three high bits.
pub open spec fn combined_kind(row: u8) -> InstructionType {
    match row {
        0 => InstructionType::SLO,
        1 => InstructionType::RLA,
        2 => InstructionType::SRE,
        3 => InstructionType::RRA,
        4 => InstructionType::SAX,
        5 => InstructionType::LAX,
        6 => InstructionType::DCP,
        _ => InstructionType::ISC,
    }
}

/// The undocumented immediate instructions, by the three high bits.
pub open spec fn combined_immediate_kind(row: u8) -> InstructionType {
    match row {
        0 => InstructionType::ANC,
        1 => InstructionType::ANC,
        2 => InstructionType::ALR,
        3 => InstructionType::ARR,
        4 => InstructionType::ANE,
        5 => InstructionType::LXA,
        6 => InstructionType::SBX,
        _ => InstructionType::USBC,
    }
}

/// The conditional branches, by the three high bits.
pub open spec fn branch_kind(row: u8) -> InstructionType {
    match row {
        0 => InstructionType::BPL,
        1 => InstructionType::BMI,
        2 => InstructionType::BVC,
        3 => InstructionType::BVS,
        4 => InstructionType::BCC,
        5 => InstructionType::BCS,
        6 => InstructionType::BNE,
        _ => InstructionType::BEQ,
    }
}

/// The one-byte instructions of column `x8`, by the three high bits.
pub open spec fn stack_and_index_kind(row: u8) -> InstructionType {
    match row {
        0 => InstructionType::PHP,
        1 => InstructionType::PLP,
        2 => InstructionType::PHA,
        3 => InstructionType::PLA,
        4 => InstructionType::DEY,
        5 => InstructionType::TAY,
        6 => InstructionType::INY,
        _ => InstructionType::INX,
    }
}

/// The one-byte instructions of column `x8` in the odd rows, by the three high bits.
pub open spec fn flag_kind(row: u8) -> InstructionType {
    match row {
        0 => InstructionType::CLC,
        1 => InstructionType::SEC,
        2 => InstructionType::CLI,
        3 => InstructionType::SEI,
        4 => InstructionType::TYA,
        5 => InstructionType::CLV,
        6 => InstructionType::CLD,
        _ => InstructionType::SED,
    }
}

/// The mnemonic of an opcode whose two low bits are `00` and that takes a memory operand, by its three high bits.
pub open spec fn control_kind(row: u8) -> InstructionType {
    match row {
        0 => InstructionType::NOP,
        1 => InstructionType::BIT,
        2 => InstructionType::NOP,
        3 => InstructionType::NOP,
        4 => InstructionType::STY,
        5 => InstructionType::LDY,
        6 => InstructionType::CPY,
        _ => InstructionType::CPX,
    }
}

/// The instruction of an opcode whose two low bits are `01`: the eight
/// accumulator operations in eight modes. A store has no immediate form.
pub open spec fn decode_alu(row: u8, column: u8) -> Instruction {
    if row == 4 && column == 2 {
        Instruction {
            instruction_type: InstructionType::NOP,
            addressing_mode: AddressingMode::Implied,
        }
    } else {
        Instruction { instruction_type: alu_kind(row), addressing_mode: alu_mode(column) }
    }
}

/// The instruction of an opcode whose two low bits are `10`: shifts,
/// X-register loads and stores, memory increments, and the one-byte
/// instructions and halts that fill the gaps.
pub open spec fn decode_shift(row: u8, column: u8) -> Instruction {
    let kind = shift_kind(row);
    let indexed_by_y = row == 4 || row == 5;
    match column {
        0 => Instruction {
            instruction_type: if row == 5 {
                InstructionType::LDX
            } else if row >= 4 {
                InstructionType::NOP
            } else {
                InstructionType::JAM
            },
            addressing_mode: if row == 4 || row == 5 {
                AddressingMode::Immediate
            } else {
                AddressingMode::Implied
            },
        },
        1 => Instruction { instruction_type: kind, addressing_mode: AddressingMode::ZeroPage },
        2 => if row < 4 {
            Instruction { instruction_type: kind, addressing_mode: AddressingMode::Accumulator }
        } else {
            Instruction {
                instruction_type: match row {
                    4 => InstructionType::TXA,
                    5 => InstructionType::TAX,
                    6 => InstructionType::DEX,
                    _ => InstructionType::NOP,
                },
                addressing_mode: AddressingMode::Implied,
            }
        },
        3 => Instruction { instruction_type: kind, addressing_mode: AddressingMode::Absolute },
        4 => Instruction {
            instruction_type: InstructionType::JAM,
            addressing_mode: if row == 4 {
                AddressingMode::Immediate
            } else {
                AddressingMode::Implied
            },
        },
        5 => Instruction {
            instruction_type: kind,
            addressing_mode: if indexed_by_y {
                AddressingMode::ZeroPageY
            } else {
                AddressingMode::ZeroPageX
            },
        },
        6 => Instruction {
            instruction_type: if row == 4 {
                InstructionType::TXS
            } else if row == 5 {
                InstructionType::TSX
            } else {
                InstructionType::NOP
            },
            addressing_mode: AddressingMode::Implied,
        },
        _ => Instruction {
            instruction_type: if row == 4 {
                InstructionType::SHX
            } else {
                kind
            },
            addressing_mode: if indexed_by_y {
                AddressingMode::AbsoluteY
            } else {
                AddressingMode::AbsoluteX
            },
        },
    }
}

/// The instruction of an opcode whose two low bits are `11`: the
/// undocumented combinations of the two groups before.
pub open spec fn decode_combined(row: u8, column: u8) -> Instruction {
    let kind = combined_kind(row);
    let indexed_by_y = row == 4 || row == 5;
    match column {
        0 => Instruction { instruction_type: kind, addressing_mode: AddressingMode::IndirectX },
        1 => Instruction { instruction_type: kind, addressing_mode: AddressingMode::ZeroPage },
        2 => Instruction {
            instruction_type: combined_immediate_kind(row),
            addressing_mode: AddressingMode::Immediate,
        },
        3 => Instruction { instruction_type: kind, addressing_mode: AddressingMode::Absolute },
        4 => Instruction {
            instruction_type: if row == 4 {
                InstructionType::SHA
            } else {
                kind
            },
            addressing_mode: AddressingMode::IndirectY,
        },
        5 => Instruction {
            instruction_type: kind,
            addressing_mode: if indexed_by_y {
                AddressingMode::ZeroPageY
            } else {
                AddressingMode::ZeroPageX
            },
        },
        6 => Instruction {
            instruction_type: if row == 4 {
                InstructionType::TAS
            } else if row == 5 {
                InstructionType::LAS
            } else {
                kind
            },
            addressing_mode: AddressingMode::AbsoluteY,
        },
        _ => Instruction {
            instruction_type: if row == 4 {
                InstructionType::SHA
            } else {
                kind
            },
            addressing_mode: if indexed_by_y {
                AddressingMode::AbsoluteY
            } else {
                AddressingMode::AbsoluteX
            },
        },
    }
}

/// The instruction of an opcode whose two low bits are `00`: control flow,
/// the stack, the flags, and the Y-register loads, stores and compares.
pub open spec fn decode_control(row: u8, column: u8) -> Instruction {
    let kind = control_kind(row);
    match column {
        0 => Instruction {
            instruction_type: match row {
                0 => InstructionType::BRK,
                1 => InstructionType::JSR,
                2 => InstructionType::RTI,
                3 => InstructionType::RTS,
                4 => InstructionType::NOP,
                _ => kind,
            },
            addressing_mode: if row == 1 {
                AddressingMode::Absolute
            } else if row >= 4 {
                AddressingMode::Immediate
            } else {
                AddressingMode::Implied
            },
        },
        1 => Instruction { instruction_type: kind, addressing_mode: AddressingMode::ZeroPage },
        2 => Instruction {
            instruction_type: stack_and_index_kind(row),
            addressing_mode: AddressingMode::Implied,
        },
        3 => Instruction {
            instruction_type: if row == 2 || row == 3 {
                InstructionType::JMP
            } else {
                kind
            },
            addressing_mode: if row == 3 {
                AddressingMode::Indirect
            } else {
                AddressingMode::Absolute
            },
        },
        4 => Instruction {
            instruction_type: branch_kind(row),
            addressing_mode: AddressingMode::Relative,
        },
        5 => Instruction {
            instruction_type: if row == 4 || row == 5 {
                kind
            } else {
                InstructionType::NOP
            },
            addressing_mode: AddressingMode::ZeroPageX,
        },
        6 => Instruction {
            instruction_type: flag_kind(row),
            addressing_mode: AddressingMode::Implied,
        },
        _ => Instruction {
            instruction_type: if row == 4 {
                InstructionType::SHY
            } else if row == 5 {
                InstructionType::LDY
            } else {
                InstructionType::NOP
            },
            addressing_mode: AddressingMode::AbsoluteX,
        },
    }
}

/// The instruction that an opcode byte encodes. The byte is read as three
/// bit fields `aaabbbcc`: `cc` selects the group, `aaa` the row within the
/// group and `bbb` the column.
#[verifier::opaque]
pub open spec fn decode_spec(opcode: u8) -> Instruction {
    let group = opcode % 4;
    let column = (opcode / 4) % 8;
    let row = opcode / 32;
    if group == 1 {
        decode_alu(row, column)
    } else if group == 2 {
        decode_shift(row, column)
    } else if group == 3 {
        decode_combined(row, column)
    } else {
        decode_control(row, column)
    }
}

/// The base cycle count of each opcode, sixteen by sixteen. A branch is
/// listed with the count of a branch not taken.
pub open spec fn cycle_table(opcode: u8) -> u8 {
    match opcode {
        0x00 => 7, 0x01 => 6, 0x02 => 2, 0x03 => 8, 0x04 => 3, 0x05 => 3, 0x06 => 5, 0x07 => 5,
        0x08 => 3, 0x09 => 2, 0x0A => 2, 0x0B => 2, 0x0C => 4, 0x0D => 4, 0x0E => 6, 0x0F => 6,
        0x10 => 2, 0x11 => 5, 0x12 => 2, 0x13 => 8, 0x14 => 4, 0x15 => 4, 0x16 => 6, 0x17 => 6,
        0x18 => 2, 0x19 => 4, 0x1A => 2, 0x1B => 7, 0x1C => 4, 0x1D => 4, 0x1E => 7, 0x1F => 7,
        0x20 => 6, 0x21 => 6, 0x22 => 2, 0x23 => 8, 0x24 => 3, 0x25 => 3, 0x26 => 5, 0x27 => 5,
        0x28 => 4, 0x29 => 2, 0x2A => 2, 0x2B => 2, 0x2C => 4, 0x2D => 4, 0x2E => 6, 0x2F => 6,
        0x30 => 2, 0x31 => 5, 0x32 => 2, 0x33 => 8, 0x34 => 4, 0x35 => 4, 0x36 => 6, 0x37 => 6,
        0x38 => 2, 0x39 => 4, 0x3A => 2, 0x3B => 7, 0x3C => 4, 0x3D => 4, 0x3E => 7, 0x3F => 7,
        0x40 => 6, 0x41 => 6, 0x42 => 2, 0x43 => 8, 0x44 => 3, 0x45 => 3, 0x46 => 5, 0x47 => 5,
        0x48 => 3, 0x49 => 2, 0x4A => 2, 0x4B => 2, 0x4C => 3, 0x4D => 4, 0x4E => 6, 0x4F => 6,
        0x50 => 2, 0x51 => 5, 0x52 => 2, 0x53 => 8, 0x54 => 4, 0x55 => 4, 0x56 => 6, 0x57 => 6,
        0x58 => 2, 0x59 => 4, 0x5A => 2, 0x5B => 7, 0x5C => 4, 0x5D => 4, 0x5E => 7, 0x5F => 7,
        0x60 => 6, 0x61 => 6, 0x62 => 2, 0x63 => 8, 0x64 => 3, 0x65 => 3, 0x66 => 5, 0x67 => 5,
        0x68 => 4, 0x69 => 2, 0x6A => 2, 0x6B => 2, 0x6C => 5, 0x6D => 4, 0x6E => 6, 0x6F => 6,
        0x70 => 2, 0x71 => 5, 0x72 => 2, 0x73 => 8, 0x74 => 4, 0x75 => 4, 0x76 => 6, 0x77 => 6,
        0x78 => 2, 0x79 => 4, 0x7A => 2, 0x7B => 7, 0x7C => 4, 0x7D => 4, 0x7E => 7, 0x7F => 7,
        0x80 => 2, 0x81 => 6, 0x82 => 2, 0x83 => 6, 0x84 => 3, 0x85 => 3, 0x86 => 3, 0x87 => 3,
        0x88 => 2, 0x89 => 2, 0x8A => 2, 0x8B => 2, 0x8C => 4, 0x8D => 4, 0x8E => 4, 0x8F => 4,
        0x90 => 2, 0x91 => 6, 0x92 => 2, 0x93 => 5, 0x94 => 4, 0x95 => 4, 0x96 => 4, 0x97 => 4,
        0x98 => 2, 0x99 => 5, 0x9A => 2, 0x9B => 4, 0x9C => 4, 0x9D => 5, 0x9E => 7, 0x9F => 4,
        0xA0 => 2, 0xA1 => 6, 0xA2 => 2, 0xA3 => 6, 0xA4 => 3, 0xA5 => 3, 0xA6 => 3, 0xA7 => 3,
        0xA8 => 2, 0xA9 => 2, 0xAA => 2, 0xAB => 2, 0xAC => 4, 0xAD => 4, 0xAE => 4, 0xAF => 4,
        0xB0 => 2, 0xB1 => 5, 0xB2 => 2, 0xB3 => 5, 0xB4 => 4, 0xB5 => 4, 0xB6 => 4, 0xB7 => 4,
        0xB8 => 2, 0xB9 => 4, 0xBA => 2, 0xBB => 4, 0xBC => 4, 0xBD => 4, 0xBE => 4, 0xBF => 4,
        0xC0 => 2, 0xC1 => 6, 0xC2 => 2, 0xC3 => 8, 0xC4 => 3, 0xC5 => 3, 0xC6 => 5, 0xC7 => 5,
        0xC8 => 2, 0xC9 => 2, 0xCA => 2, 0xCB => 2, 0xCC => 4, 0xCD => 4, 0xCE => 6, 0xCF => 6,
        0xD0 => 2, 0xD1 => 5, 0xD2 => 2, 0xD3 => 8, 0xD4 => 4, 0xD5 => 4, 0xD6 => 6, 0xD7 => 6,
        0xD8 => 2, 0xD9 => 4, 0xDA => 2, 0xDB => 7, 0xDC => 4, 0xDD => 4, 0xDE => 7, 0xDF => 7,
        0xE0 => 2, 0xE1 => 6, 0xE2 => 2, 0xE3 => 8, 0xE4 => 3, 0xE5 => 3, 0xE6 => 5, 0xE7 => 5,
        0xE8 => 2, 0xE9 => 2, 0xEA => 2, 0xEB => 2, 0xEC => 4, 0xED => 4, 0xEE => 6, 0xEF => 6,
        0xF0 => 2, 0xF1 => 5, 0xF2 => 2, 0xF3 => 8, 0xF4 => 4, 0xF5 => 4, 0xF6 => 6, 0xF7 => 6,
        0xF8 => 2, 0xF9 => 4, 0xFA => 2, 0xFB => 7, 0xFC => 4, 0xFD => 4, 0xFE => 7, 0xFF => 7,
    }
}

impl Instruction {
    pub fn new(instruction_type: InstructionType, addressing_mode: AddressingMode) -> (instruction:
        Instruction)
        ensures
            instruction == Instruction::of(instruction_type, addressing_mode),
    {
        Instruction { instruction_type, addressing_mode }
    }

    /// The instruction with the given mnemonic and mode.
    pub open spec fn of(instruction_type: InstructionType, addressing_mode: AddressingMode) -> Instruction {
        Instruction { instruction_type, addressing_mode }
    }

    /// Whether the addressing mode supplies what the mnemonic works on.
    pub open spec fn is_executable(self) -> bool {
        &&& self.instruction_type.needs_address() ==> self.addressing_mode.supplies_address()
        &&& self.instruction_type.needs_value() ==> self.addressing_mode.supplies_value()
    }

    /// Decodes an opcode byte. Every byte decodes, and to an instruction
    /// whose mode supplies what its mnemonic works on.
    pub fn decode(opcode: u8) -> (result: Result<Instruction, MainError>)
        ensures
            result == Ok::<Instruction, MainError>(decode_spec(opcode)),
            decode_spec(opcode).is_executable(),
    {
        proof {
            lemma_decoded_is_executable(opcode);
        }
        Ok(Instruction::decode_first_quarter(opcode))
    }

    /// The base cycle count by mnemonic and mode, for an opcode of the given
    /// group (its two low bits). A few pairs have a count of their own; the
    /// others take the count of their mode within the group.
    pub open spec fn cycle_rule(self, group: u8) -> u8 {
        let kind = self.instruction_type;
        let mode = self.addressing_mode;
        if kind == InstructionType::JMP {
            if mode == AddressingMode::Indirect {
                5
            } else {
                3
            }
        } else if kind == InstructionType::JSR {
            6
        } else if kind == InstructionType::BRK {
            7
        } else if kind == InstructionType::PHA || kind == InstructionType::PHP {
            3
        } else if kind == InstructionType::PLA || kind == InstructionType::PLP {
            4
        } else if kind == InstructionType::RTI || kind == InstructionType::RTS {
            6
        } else if (kind == InstructionType::LDX || kind == InstructionType::STX) && mode
            != AddressingMode::Immediate {
            if mode == AddressingMode::ZeroPage {
                3
            } else {
                4
            }
        } else if kind == InstructionType::STA && (mode == AddressingMode::AbsoluteX || mode
            == AddressingMode::AbsoluteY) {
            5
        } else if kind == InstructionType::STA && mode == AddressingMode::IndirectY {
            6
        } else if group == 2 {
            match mode {
                AddressingMode::ZeroPage => 5,
                AddressingMode::ZeroPageX | AddressingMode::ZeroPageY | AddressingMode::Absolute => 6,
                AddressingMode::AbsoluteX | AddressingMode::AbsoluteY => 7,
                _ => 2,
            }
        } else if group == 3 && kind.is_read_modify_write() {
            match mode {
                AddressingMode::ZeroPage => 5,
                AddressingMode::ZeroPageX | AddressingMode::Absolute => 6,
                AddressingMode::AbsoluteX | AddressingMode::AbsoluteY => 7,
                _ => 8,
            }
        } else {
            match mode {
                AddressingMode::ZeroPage => 3,
                AddressingMode::ZeroPageX => if group == 3 {
                    6
                } else {
                    4
                },
                AddressingMode::AbsoluteX => if group == 3 {
                    7
                } else {
                    4
                },
                AddressingMode::ZeroPageY | AddressingMode::Absolute | AddressingMode::AbsoluteY => 4,
                AddressingMode::IndirectX => 6,
                AddressingMode::IndirectY => 5,
                _ => 2,
            }
        }
    }

    /// The base cycle count of an opcode: between two and eight.
    pub fn get_instruction_duration(opcode: u8) -> (result: Result<u8, MainError>)
        ensures
            result == Ok::<u8, MainError>(cycle_table(opcode)),
            cycle_table(opcode) == decode_spec(opcode).cycle_rule(opcode % 4),
            2 <= cycle_table(opcode) <= 8,
    {
        let group = opcode % 4;
        let instruction = Instruction::decode_first_quarter(opcode);
        let kind = instruction.instruction_type;
        let mode = instruction.addressing_mode;
        proof {
            lemma_cycle_table_follows_rule(opcode);
        }
        let cycles: u8 = if kind == InstructionType::JMP {
            if mode == AddressingMode::Indirect {
                5
            } else {
                3
            }
        } else if kind == InstructionType::JSR {
            6
        } else if kind == InstructionType::BRK {
            7
        } else if kind == InstructionType::PHA || kind == InstructionType::PHP {
            3
        } else if kind == InstructionType::PLA || kind == InstructionType::PLP {
            4
        } else if kind == InstructionType::RTI || kind == InstructionType::RTS {
            6
        } else if (kind == InstructionType::LDX || kind == InstructionType::STX) && mode
            != AddressingMode::Immediate {
            if mode == AddressingMode::ZeroPage {
                3
            } else {
                4
            }
        } else if kind == InstructionType::STA && (mode == AddressingMode::AbsoluteX || mode
            == AddressingMode::AbsoluteY) {
            5
        } else if kind == InstructionType::STA && mode == AddressingMode::IndirectY {
            6
        } else if group == 2 {
            match mode {
                AddressingMode::ZeroPage => 5,
                AddressingMode::ZeroPageX | AddressingMode::ZeroPageY | AddressingMode::Absolute => 6,
                AddressingMode::AbsoluteX | AddressingMode::AbsoluteY => 7,
                _ => 2,
            }
        } else if group == 3 && instruction.is_rmw() {
            match mode {
                AddressingMode::ZeroPage => 5,
                AddressingMode::ZeroPageX | AddressingMode::Absolute => 6,
                AddressingMode::AbsoluteX | AddressingMode::AbsoluteY => 7,
                _ => 8,
            }
        } else {
            match mode {
                AddressingMode::ZeroPage => 3,
                AddressingMode::ZeroPageX => if group == 3 {
                    6
                } else {
                    4
                },
                AddressingMode::AbsoluteX => if group == 3 {
                    7
                } else {
                    4
                },
                AddressingMode::ZeroPageY | AddressingMode::Absolute | AddressingMode::AbsoluteY => 4,
                AddressingMode::IndirectX => 6,
                AddressingMode::IndirectY => 5,
                _ => 2,
            }
        };
        Ok(cycles)
    }

    /// Whether the instruction is free of the page-crossing penalty because
    /// its base count already holds the extra cycle.
    pub fn is_rmw(&self) -> (rmw: bool)
        ensures
            rmw == self.instruction_type.is_read_modify_write(),
    {
        matches!(
            self.instruction_type,
            InstructionType::ASL
                | InstructionType::DEC
                | InstructionType::INC
                | InstructionType::LSR
                | InstructionType::ROL
                | InstructionType::ROR
                | InstructionType::STA
                | InstructionType::DCP
                | InstructionType::ISC
                | InstructionType::SLO
                | InstructionType::RLA
                | InstructionType::SRE
                | InstructionType::RRA
        )
    }
}

/// Whatever the opcode, the decoded mode supplies the address and the value
/// that the decoded mnemonic needs.
pub proof fn lemma_decoded_is_executable(opcode: u8)
    ensures
        decode_spec(opcode).is_executable(),
{
    reveal(decode_spec);
}

/// The cycle table agrees with the rule by mnemonic and mode, and every
/// entry lies between two and eight.
pub proof fn lemma_cycle_table_follows_rule(opcode: u8)
    ensures
        cycle_table(opcode) == decode_spec(opcode).cycle_rule(opcode % 4),
        2 <= cycle_table(opcode) <= 8,
{
    reveal(decode_spec);
}

} // verus!
