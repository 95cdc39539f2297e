//! The names of the instructions and the trace lines of the processor.

use crate::cpu::debug::DebugMode;
use crate::cpu::instructions::{decode_spec, AddressingMode, Instruction, InstructionType};
use crate::cpu::state::{wrap16, CpuState};
use crate::cpu::{Cpu, OperandValue};
use crate::text::{
    append_decimal, append_hex_byte, append_hex_word, append_padded, decimal, hex_byte, hex_word,
    padded,
};
use vstd::prelude::*;
use vstd::string::StringExecFns;

verus! {

impl InstructionType {
    /// The mnemonic as text.
    pub open spec fn name_spec(self) -> Seq<char> {
        match self {
            InstructionType::LDA => "LDA"@,
            InstructionType::LDX => "LDX"@,
            InstructionType::LDY => "LDY"@,
            InstructionType::STA => "STA"@,
            InstructionType::STX => "STX"@,
            InstructionType::STY => "STY"@,
            InstructionType::TAX => "TAX"@,
            InstructionType::TAY => "TAY"@,
            InstructionType::TSX => "TSX"@,
            InstructionType::TXA => "TXA"@,
            InstructionType::TXS => "TXS"@,
            InstructionType::TYA => "TYA"@,
            InstructionType::PHA => "PHA"@,
            InstructionType::PHP => "PHP"@,
            InstructionType::PLA => "PLA"@,
            InstructionType::PLP => "PLP"@,
            InstructionType::DEC => "DEC"@,
            InstructionType::DEX => "DEX"@,
            InstructionType::DEY => "DEY"@,
            InstructionType::INC => "INC"@,
            InstructionType::INX => "INX"@,
            InstructionType::INY => "INY"@,
            InstructionType::ADC => "ADC"@,
            InstructionType::SBC => "SBC"@,
            InstructionType::AND => "AND"@,
            InstructionType::EOR => "EOR"@,
            InstructionType::ORA => "ORA"@,
            InstructionType::ASL => "ASL"@,
            InstructionType::LSR => "LSR"@,
            InstructionType::ROL => "ROL"@,
            InstructionType::ROR => "ROR"@,
            InstructionType::CLC => "CLC"@,
            InstructionType::CLD => "CLD"@,
            InstructionType::CLI => "CLI"@,
            InstructionType::CLV => "CLV"@,
            InstructionType::SEC => "SEC"@,
            InstructionType::SED => "SED"@,
            InstructionType::SEI => "SEI"@,
            InstructionType::CMP => "CMP"@,
            InstructionType::CPX => "CPX"@,
            InstructionType::CPY => "CPY"@,
            InstructionType::BCC => "BCC"@,
            InstructionType::BCS => "BCS"@,
            InstructionType::BEQ => "BEQ"@,
            InstructionType::BMI => "BMI"@,
            InstructionType::BNE => "BNE"@,
            InstructionType::BPL => "BPL"@,
            InstructionType::BVC => "BVC"@,
            InstructionType::BVS => "BVS"@,
            InstructionType::JMP => "JMP"@,
            InstructionType::JSR => "JSR"@,
            InstructionType::RTS => "RTS"@,
            InstructionType::BRK => "BRK"@,
            InstructionType::RTI => "RTI"@,
            InstructionType::BIT => "BIT"@,
            InstructionType::NOP => "NOP"@,
            InstructionType::ALR => "ALR"@,
            InstructionType::ANC => "ANC"@,
            InstructionType::ANE => "ANE"@,
            InstructionType::ARR => "ARR"@,
            InstructionType::DCP => "DCP"@,
            InstructionType::ISC => "ISC"@,
            InstructionType::LAS => "LAS"@,
            InstructionType::LAX => "LAX"@,
            InstructionType::LXA => "LXA"@,
            InstructionType::RLA => "RLA"@,
            InstructionType::RRA => "RRA"@,
            InstructionType::SAX => "SAX"@,
            InstructionType::SBX => "SBX"@,
            InstructionType::SHA => "SHA"@,
            InstructionType::SHX => "SHX"@,
            InstructionType::SHY => "SHY"@,
            InstructionType::SLO => "SLO"@,
            InstructionType::SRE => "SRE"@,
            InstructionType::TAS => "TAS"@,
            InstructionType::USBC => "USBC"@,
            InstructionType::JAM => "JAM"@,
        }
    }

    /// The mnemonic as text.
    pub fn name(&self) -> (name: &'static str)
        ensures
            name@ == self.name_spec(),
    {
        match self {
            InstructionType::LDA => "LDA",
            InstructionType::LDX => "LDX",
            InstructionType::LDY => "LDY",
            InstructionType::STA => "STA",
            InstructionType::STX => "STX",
            InstructionType::STY => "STY",
            InstructionType::TAX => "TAX",
            InstructionType::TAY => "TAY",
            InstructionType::TSX => "TSX",
            InstructionType::TXA => "TXA",
            InstructionType::TXS => "TXS",
            InstructionType::TYA => "TYA",
            InstructionType::PHA => "PHA",
            InstructionType::PHP => "PHP",
            InstructionType::PLA => "PLA",
            InstructionType::PLP => "PLP",
            InstructionType::DEC => "DEC",
            InstructionType::DEX => "DEX",
            InstructionType::DEY => "DEY",
            InstructionType::INC => "INC",
            InstructionType::INX => "INX",
            InstructionType::INY => "INY",
            InstructionType::ADC => "ADC",
            InstructionType::SBC => "SBC",
            InstructionType::AND => "AND",
            InstructionType::EOR => "EOR",
            InstructionType::ORA => "ORA",
            InstructionType::ASL => "ASL",
            InstructionType::LSR => "LSR",
            InstructionType::ROL => "ROL",
            InstructionType::ROR => "ROR",
            InstructionType::CLC => "CLC",
            InstructionType::CLD => "CLD",
            InstructionType::CLI => "CLI",
            InstructionType::CLV => "CLV",
            InstructionType::SEC => "SEC",
            InstructionType::SED => "SED",
            InstructionType::SEI => "SEI",
            InstructionType::CMP => "CMP",
            InstructionType::CPX => "CPX",
            InstructionType::CPY => "CPY",
            InstructionType::BCC => "BCC",
            InstructionType::BCS => "BCS",
            InstructionType::BEQ => "BEQ",
            InstructionType::BMI => "BMI",
            InstructionType::BNE => "BNE",
            InstructionType::BPL => "BPL",
            InstructionType::BVC => "BVC",
            InstructionType::BVS => "BVS",
            InstructionType::JMP => "JMP",
            InstructionType::JSR => "JSR",
            InstructionType::RTS => "RTS",
            InstructionType::BRK => "BRK",
            InstructionType::RTI => "RTI",
            InstructionType::BIT => "BIT",
            InstructionType::NOP => "NOP",
            InstructionType::ALR => "ALR",
            InstructionType::ANC => "ANC",
            InstructionType::ANE => "ANE",
            InstructionType::ARR => "ARR",
            InstructionType::DCP => "DCP",
            InstructionType::ISC => "ISC",
            InstructionType::LAS => "LAS",
            InstructionType::LAX => "LAX",
            InstructionType::LXA => "LXA",
            InstructionType::RLA => "RLA",
            InstructionType::RRA => "RRA",
            InstructionType::SAX => "SAX",
            InstructionType::SBX => "SBX",
            InstructionType::SHA => "SHA",
            InstructionType::SHX => "SHX",
            InstructionType::SHY => "SHY",
            InstructionType::SLO => "SLO",
            InstructionType::SRE => "SRE",
            InstructionType::TAS => "TAS",
            InstructionType::USBC => "USBC",
            InstructionType::JAM => "JAM",
        }
    }
}

impl AddressingMode {
    /// The name of the mode.
    pub open spec fn name_spec(self) -> Seq<char> {
        match self {
            AddressingMode::Accumulator => "Accumulator"@,
            AddressingMode::Absolute => "Absolute"@,
            AddressingMode::AbsoluteX => "AbsoluteX"@,
            AddressingMode::AbsoluteY => "AbsoluteY"@,
            AddressingMode::Immediate => "Immediate"@,
            AddressingMode::Implied => "Implied"@,
            AddressingMode::Indirect => "Indirect"@,
            AddressingMode::IndirectX => "IndirectX"@,
            AddressingMode::IndirectY => "IndirectY"@,
            AddressingMode::Relative => "Relative"@,
            AddressingMode::ZeroPage => "ZeroPage"@,
            AddressingMode::ZeroPageX => "ZeroPageX"@,
            AddressingMode::ZeroPageY => "ZeroPageY"@,
        }
    }

    /// The name of the mode.
    pub fn name(&self) -> (name: &'static str)
        ensures
            name@ == self.name_spec(),
    {
        match self {
            AddressingMode::Accumulator => "Accumulator",
            AddressingMode::Absolute => "Absolute",
            AddressingMode::AbsoluteX => "AbsoluteX",
            AddressingMode::AbsoluteY => "AbsoluteY",
            AddressingMode::Immediate => "Immediate",
            AddressingMode::Implied => "Implied",
            AddressingMode::Indirect => "Indirect",
            AddressingMode::IndirectX => "IndirectX",
            AddressingMode::IndirectY => "IndirectY",
            AddressingMode::Relative => "Relative",
            AddressingMode::ZeroPage => "ZeroPage",
            AddressingMode::ZeroPageX => "ZeroPageX",
            AddressingMode::ZeroPageY => "ZeroPageY",
        }
    }
}

/// A byte the way the operand line shows it: in quotes, as `0x` and two
/// hexadecimal digits, or the word `None`.
pub open spec fn quoted_byte(value: Option<u8>) -> Seq<char> {
    match value {
        Some(byte) => "\"0x"@ + hex_byte(byte) + "\""@,
        None => "\"None\""@,
    }
}

/// An address the way the operand line shows it: in quotes, as `0x` and
/// four hexadecimal digits, or the word `None`.
pub open spec fn quoted_word(value: Option<u16>) -> Seq<char> {
    match value {
        Some(word) => "\"0x"@ + hex_word(word) + "\""@,
        None => "\"None\""@,
    }
}

impl Instruction {
    /// The line that tells an instruction and its operand.
    pub open spec fn operand_line(self, operand: OperandValue) -> Seq<char> {
        "Instruction:"@ + self.instruction_type.name_spec() + " Addressing Mode:"@
            + self.addressing_mode.name_spec() + " - Operand (Value: "@ + quoted_byte(
            operand.value,
        ) + ", Address: "@ + quoted_word(operand.address) + ")"@
    }

    /// The line that tells the instruction and its operand, for a trace of
    /// the kind [`DebugMode::Info`]; nothing for the other kinds. The
    /// caller prints the line.
    pub fn print_instruction(&self, operand_value: &OperandValue, debug: &DebugMode) -> (line:
        Option<String>)
        ensures
            match line {
                Some(text) => *debug == DebugMode::Info && text@ == self.operand_line(
                    *operand_value,
                ),
                None => *debug != DebugMode::Info,
            },
    {
        match debug {
            DebugMode::Info => {},
            _ => {
                return None;
            },
        }
        let mut text = String::from_str("Instruction:");
        text.append(self.instruction_type.name());
        text.append(" Addressing Mode:");
        text.append(self.addressing_mode.name());
        text.append(" - Operand (Value: ");
        match operand_value.value {
            Some(byte) => {
                text.append("\"0x");
                append_hex_byte(&mut text, byte);
                text.append("\"");
            },
            None => text.append("\"None\""),
        }
        text.append(", Address: ");
        match operand_value.address {
            Some(word) => {
                text.append("\"0x");
                append_hex_word(&mut text, word);
                text.append("\"");
            },
            None => text.append("\"None\""),
        }
        text.append(")");
        assert(text@ =~= self.operand_line(*operand_value));
        Some(text)
    }
}

impl CpuState {
    /// The bytes of the instruction at the program counter, as hexadecimal
    /// numbers with a space between them.
    pub open spec fn instruction_bytes(self, length: int) -> Seq<char> {
        let first = hex_byte(self.memory.peek(self.registers.pc));
        let second = hex_byte(self.memory.peek(wrap16(self.registers.pc + 1)));
        let third = hex_byte(self.memory.peek(wrap16(self.registers.pc + 2)));
        if length <= 1 {
            first
        } else if length == 2 {
            first + " "@ + second
        } else {
            first + " "@ + second + " "@ + third
        }
    }

    /// The line that a trace shows before an instruction with the given
    /// opcode is executed: the program counter, the bytes of the
    /// instruction, its mnemonic, the registers and the count of cycles.
    pub open spec fn trace_line(self, opcode: u8) -> Seq<char> {
        let instruction = decode_spec(opcode);
        hex_word(self.registers.pc) + "  "@ + padded(
            self.instruction_bytes(1 + instruction.addressing_mode.operand_bytes()),
            8,
        ) + "  "@ + padded(instruction.instruction_type.name_spec(), 32) + " A:"@ + hex_byte(
            self.registers.a,
        ) + " X:"@ + hex_byte(self.registers.x) + " Y:"@ + hex_byte(self.registers.y) + " P:"@
            + hex_byte(self.registers.p.interrupt_byte() as u8) + " SP:"@ + hex_byte(
            self.registers.s,
        ) + " CYC:"@ + decimal(self.total_cycles as nat)
    }
}

impl Cpu {
    /// The bytes of the instruction at the program counter as text.
    fn instruction_text(&self, length: u8) -> (text: String)
        ensures
            text@ == self@.instruction_bytes(length as int),
    {
        let pc = self.program_counter.get();
        let mut text = String::from_str("");
        proof {
            reveal_strlit("");
        }
        append_hex_byte(&mut text, self.memory_read(pc));
        if length >= 2 {
            text.append(" ");
            append_hex_byte(&mut text, self.memory_read(following(pc, 1)));
        }
        if length >= 3 {
            text.append(" ");
            append_hex_byte(&mut text, self.memory_read(following(pc, 2)));
        }
        assert(text@ =~= self@.instruction_bytes(length as int));
        text
    }

    /// The line that a trace of the kind [`DebugMode::Emu`] shows before
    /// an instruction with the given opcode is executed, in the format that
    /// other emulators write; nothing for the other kinds. The caller
    /// prints the line.
    pub fn debug(&self, opcode: u8) -> (line: Option<String>)
        ensures
            match line {
                Some(text) => self@.debug == DebugMode::Emu && text@ == self@.trace_line(opcode),
                None => self@.debug != DebugMode::Emu,
            },
    {
        match self.debug {
            DebugMode::Emu => {},
            _ => {
                return None;
            },
        }
        let instruction = match Instruction::decode(opcode) {
            Ok(instruction) => instruction,
            Err(_) => Instruction::new(InstructionType::NOP, AddressingMode::Implied),
        };
        let registers = self.registers();
        let bytes = self.instruction_text(instruction.addressing_mode.length());
        let mut text = String::from_str("");
        proof {
            reveal_strlit("");
        }
        append_hex_word(&mut text, registers.pc);
        text.append("  ");
        append_padded(&mut text, bytes.as_str(), 8);
        text.append("  ");
        append_padded(&mut text, instruction.instruction_type.name(), 32);
        text.append(" A:");
        append_hex_byte(&mut text, registers.a);
        text.append(" X:");
        append_hex_byte(&mut text, registers.x);
        text.append(" Y:");
        append_hex_byte(&mut text, registers.y);
        text.append(" P:");
        append_hex_byte(&mut text, registers.p.get_for_debug());
        text.append(" SP:");
        append_hex_byte(&mut text, registers.s);
        text.append(" CYC:");
        append_decimal(&mut text, self.total_cycles);
        assert(text@ =~= self@.trace_line(opcode));
        Some(text)
    }
}

/// The address a few bytes behind another, modulo `2^16`.
fn following(address: u16, offset: u8) -> (next: u16)
    ensures
        next == wrap16(address + offset),
{
    ((address as u32 + offset as u32) % 0x10000) as u16
}

} // verus!
