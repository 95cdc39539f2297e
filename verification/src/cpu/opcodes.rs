//! The opcode table, in four quarters of sixty-four entries.

use crate::cpu::instructions::{decode_spec, AddressingMode, Instruction, InstructionType};
use vstd::prelude::*;

verus! {

/// The opcodes `$00` to `$3F` decode as the bit fields say.
proof fn lemma_first_quarter()
    ensures
        decode_spec(0x00) == Instruction::of(InstructionType::BRK, AddressingMode::Implied),
        decode_spec(0x01) == Instruction::of(InstructionType::ORA, AddressingMode::IndirectX),
        decode_spec(0x02) == Instruction::of(InstructionType::JAM, AddressingMode::Implied),
        decode_spec(0x03) == Instruction::of(InstructionType::SLO, AddressingMode::IndirectX),
        decode_spec(0x04) == Instruction::of(InstructionType::NOP, AddressingMode::ZeroPage),
        decode_spec(0x05) == Instruction::of(InstructionType::ORA, AddressingMode::ZeroPage),
        decode_spec(0x06) == Instruction::of(InstructionType::ASL, AddressingMode::ZeroPage),
        decode_spec(0x07) == Instruction::of(InstructionType::SLO, AddressingMode::ZeroPage),
        decode_spec(0x08) == Instruction::of(InstructionType::PHP, AddressingMode::Implied),
        decode_spec(0x09) == Instruction::of(InstructionType::ORA, AddressingMode::Immediate),
        decode_spec(0x0A) == Instruction::of(InstructionType::ASL, AddressingMode::Accumulator),
        decode_spec(0x0B) == Instruction::of(InstructionType::ANC, AddressingMode::Immediate),
        decode_spec(0x0C) == Instruction::of(InstructionType::NOP, AddressingMode::Absolute),
        decode_spec(0x0D) == Instruction::of(InstructionType::ORA, AddressingMode::Absolute),
        decode_spec(0x0E) == Instruction::of(InstructionType::ASL, AddressingMode::Absolute),
        decode_spec(0x0F) == Instruction::of(InstructionType::SLO, AddressingMode::Absolute),
        decode_spec(0x10) == Instruction::of(InstructionType::BPL, AddressingMode::Relative),
        decode_spec(0x11) == Instruction::of(InstructionType::ORA, AddressingMode::IndirectY),
        decode_spec(0x12) == Instruction::of(InstructionType::JAM, AddressingMode::Implied),
        decode_spec(0x13) == Instruction::of(InstructionType::SLO, AddressingMode::IndirectY),
        decode_spec(0x14) == Instruction::of(InstructionType::NOP, AddressingMode::ZeroPageX),
        decode_spec(0x15) == Instruction::of(InstructionType::ORA, AddressingMode::ZeroPageX),
        decode_spec(0x16) == Instruction::of(InstructionType::ASL, AddressingMode::ZeroPageX),
        decode_spec(0x17) == Instruction::of(InstructionType::SLO, AddressingMode::ZeroPageX),
        decode_spec(0x18) == Instruction::of(InstructionType::CLC, AddressingMode::Implied),
        decode_spec(0x19) == Instruction::of(InstructionType::ORA, AddressingMode::AbsoluteY),
        decode_spec(0x1A) == Instruction::of(InstructionType::NOP, AddressingMode::Implied),
        decode_spec(0x1B) == Instruction::of(InstructionType::SLO, AddressingMode::AbsoluteY),
        decode_spec(0x1C) == Instruction::of(InstructionType::NOP, AddressingMode::AbsoluteX),
        decode_spec(0x1D) == Instruction::of(InstructionType::ORA, AddressingMode::AbsoluteX),
        decode_spec(0x1E) == Instruction::of(InstructionType::ASL, AddressingMode::AbsoluteX),
        decode_spec(0x1F) == Instruction::of(InstructionType::SLO, AddressingMode::AbsoluteX),
        decode_spec(0x20) == Instruction::of(InstructionType::JSR, AddressingMode::Absolute),
        decode_spec(0x21) == Instruction::of(InstructionType::AND, AddressingMode::IndirectX),
        decode_spec(0x22) == Instruction::of(InstructionType::JAM, AddressingMode::Implied),
        decode_spec(0x23) == Instruction::of(InstructionType::RLA, AddressingMode::IndirectX),
        decode_spec(0x24) == Instruction::of(InstructionType::BIT, AddressingMode::ZeroPage),
        decode_spec(0x25) == Instruction::of(InstructionType::AND, AddressingMode::ZeroPage),
        decode_spec(0x26) == Instruction::of(InstructionType::ROL, AddressingMode::ZeroPage),
        decode_spec(0x27) == Instruction::of(InstructionType::RLA, AddressingMode::ZeroPage),
        decode_spec(0x28) == Instruction::of(InstructionType::PLP, AddressingMode::Implied),
        decode_spec(0x29) == Instruction::of(InstructionType::AND, AddressingMode::Immediate),
        decode_spec(0x2A) == Instruction::of(InstructionType::ROL, AddressingMode::Accumulator),
        decode_spec(0x2B) == Instruction::of(InstructionType::ANC, AddressingMode::Immediate),
        decode_spec(0x2C) == Instruction::of(InstructionType::BIT, AddressingMode::Absolute),
        decode_spec(0x2D) == Instruction::of(InstructionType::AND, AddressingMode::Absolute),
        decode_spec(0x2E) == Instruction::of(InstructionType::ROL, AddressingMode::Absolute),
        decode_spec(0x2F) == Instruction::of(InstructionType::RLA, AddressingMode::Absolute),
        decode_spec(0x30) == Instruction::of(InstructionType::BMI, AddressingMode::Relative),
        decode_spec(0x31) == Instruction::of(InstructionType::AND, AddressingMode::IndirectY),
        decode_spec(0x32) == Instruction::of(InstructionType::JAM, AddressingMode::Implied),
        decode_spec(0x33) == Instruction::of(InstructionType::RLA, AddressingMode::IndirectY),
        decode_spec(0x34) == Instruction::of(InstructionType::NOP, AddressingMode::ZeroPageX),
        decode_spec(0x35) == Instruction::of(InstructionType::AND, AddressingMode::ZeroPageX),
        decode_spec(0x36) == Instruction::of(InstructionType::ROL, AddressingMode::ZeroPageX),
        decode_spec(0x37) == Instruction::of(InstructionType::RLA, AddressingMode::ZeroPageX),
        decode_spec(0x38) == Instruction::of(InstructionType::SEC, AddressingMode::Implied),
        decode_spec(0x39) == Instruction::of(InstructionType::AND, AddressingMode::AbsoluteY),
        decode_spec(0x3A) == Instruction::of(InstructionType::NOP, AddressingMode::Implied),
        decode_spec(0x3B) == Instruction::of(InstructionType::RLA, AddressingMode::AbsoluteY),
        decode_spec(0x3C) == Instruction::of(InstructionType::NOP, AddressingMode::AbsoluteX),
        decode_spec(0x3D) == Instruction::of(InstructionType::AND, AddressingMode::AbsoluteX),
        decode_spec(0x3E) == Instruction::of(InstructionType::ROL, AddressingMode::AbsoluteX),
        decode_spec(0x3F) == Instruction::of(InstructionType::RLA, AddressingMode::AbsoluteX),
{
    reveal(decode_spec);
}

/// The opcodes `$40` to `$7F` decode as the bit fields say.
proof fn lemma_second_quarter()
    ensures
        decode_spec(0x40) == Instruction::of(InstructionType::RTI, AddressingMode::Implied),
        decode_spec(0x41) == Instruction::of(InstructionType::EOR, AddressingMode::IndirectX),
        decode_spec(0x42) == Instruction::of(InstructionType::JAM, AddressingMode::Implied),
        decode_spec(0x43) == Instruction::of(InstructionType::SRE, AddressingMode::IndirectX),
        decode_spec(0x44) == Instruction::of(InstructionType::NOP, AddressingMode::ZeroPage),
        decode_spec(0x45) == Instruction::of(InstructionType::EOR, AddressingMode::ZeroPage),
        decode_spec(0x46) == Instruction::of(InstructionType::LSR, AddressingMode::ZeroPage),
        decode_spec(0x47) == Instruction::of(InstructionType::SRE, AddressingMode::ZeroPage),
        decode_spec(0x48) == Instruction::of(InstructionType::PHA, AddressingMode::Implied),
        decode_spec(0x49) == Instruction::of(InstructionType::EOR, AddressingMode::Immediate),
        decode_spec(0x4A) == Instruction::of(InstructionType::LSR, AddressingMode::Accumulator),
        decode_spec(0x4B) == Instruction::of(InstructionType::ALR, AddressingMode::Immediate),
        decode_spec(0x4C) == Instruction::of(InstructionType::JMP, AddressingMode::Absolute),
        decode_spec(0x4D) == Instruction::of(InstructionType::EOR, AddressingMode::Absolute),
        decode_spec(0x4E) == Instruction::of(InstructionType::LSR, AddressingMode::Absolute),
        decode_spec(0x4F) == Instruction::of(InstructionType::SRE, AddressingMode::Absolute),
        decode_spec(0x50) == Instruction::of(InstructionType::BVC, AddressingMode::Relative),
        decode_spec(0x51) == Instruction::of(InstructionType::EOR, AddressingMode::IndirectY),
        decode_spec(0x52) == Instruction::of(InstructionType::JAM, AddressingMode::Implied),
        decode_spec(0x53) == Instruction::of(InstructionType::SRE, AddressingMode::IndirectY),
        decode_spec(0x54) == Instruction::of(InstructionType::NOP, AddressingMode::ZeroPageX),
        decode_spec(0x55) == Instruction::of(InstructionType::EOR, AddressingMode::ZeroPageX),
        decode_spec(0x56) == Instruction::of(InstructionType::LSR, AddressingMode::ZeroPageX),
        decode_spec(0x57) == Instruction::of(InstructionType::SRE, AddressingMode::ZeroPageX),
        decode_spec(0x58) == Instruction::of(InstructionType::CLI, AddressingMode::Implied),
        decode_spec(0x59) == Instruction::of(InstructionType::EOR, AddressingMode::AbsoluteY),
        decode_spec(0x5A) == Instruction::of(InstructionType::NOP, AddressingMode::Implied),
        decode_spec(0x5B) == Instruction::of(InstructionType::SRE, AddressingMode::AbsoluteY),
        decode_spec(0x5C) == Instruction::of(InstructionType::NOP, AddressingMode::AbsoluteX),
        decode_spec(0x5D) == Instruction::of(InstructionType::EOR, AddressingMode::AbsoluteX),
        decode_spec(0x5E) == Instruction::of(InstructionType::LSR, AddressingMode::AbsoluteX),
        decode_spec(0x5F) == Instruction::of(InstructionType::SRE, AddressingMode::AbsoluteX),
        decode_spec(0x60) == Instruction::of(InstructionType::RTS, AddressingMode::Implied),
        decode_spec(0x61) == Instruction::of(InstructionType::ADC, AddressingMode::IndirectX),
        decode_spec(0x62) == Instruction::of(InstructionType::JAM, AddressingMode::Implied),
        decode_spec(0x63) == Instruction::of(InstructionType::RRA, AddressingMode::IndirectX),
        decode_spec(0x64) == Instruction::of(InstructionType::NOP, AddressingMode::ZeroPage),
        decode_spec(0x65) == Instruction::of(InstructionType::ADC, AddressingMode::ZeroPage),
        decode_spec(0x66) == Instruction::of(InstructionType::ROR, AddressingMode::ZeroPage),
        decode_spec(0x67) == Instruction::of(InstructionType::RRA, AddressingMode::ZeroPage),
        decode_spec(0x68) == Instruction::of(InstructionType::PLA, AddressingMode::Implied),
        decode_spec(0x69) == Instruction::of(InstructionType::ADC, AddressingMode::Immediate),
        decode_spec(0x6A) == Instruction::of(InstructionType::ROR, AddressingMode::Accumulator),
        decode_spec(0x6B) == Instruction::of(InstructionType::ARR, AddressingMode::Immediate),
        decode_spec(0x6C) == Instruction::of(InstructionType::JMP, AddressingMode::Indirect),
        decode_spec(0x6D) == Instruction::of(InstructionType::ADC, AddressingMode::Absolute),
        decode_spec(0x6E) == Instruction::of(InstructionType::ROR, AddressingMode::Absolute),
        decode_spec(0x6F) == Instruction::of(InstructionType::RRA, AddressingMode::Absolute),
        decode_spec(0x70) == Instruction::of(InstructionType::BVS, AddressingMode::Relative),
        decode_spec(0x71) == Instruction::of(InstructionType::ADC, AddressingMode::IndirectY),
        decode_spec(0x72) == Instruction::of(InstructionType::JAM, AddressingMode::Implied),
        decode_spec(0x73) == Instruction::of(InstructionType::RRA, AddressingMode::IndirectY),
        decode_spec(0x74) == Instruction::of(InstructionType::NOP, AddressingMode::ZeroPageX),
        decode_spec(0x75) == Instruction::of(InstructionType::ADC, AddressingMode::ZeroPageX),
        decode_spec(0x76) == Instruction::of(InstructionType::ROR, AddressingMode::ZeroPageX),
        decode_spec(0x77) == Instruction::of(InstructionType::RRA, AddressingMode::ZeroPageX),
        decode_spec(0x78) == Instruction::of(InstructionType::SEI, AddressingMode::Implied),
        decode_spec(0x79) == Instruction::of(InstructionType::ADC, AddressingMode::AbsoluteY),
        decode_spec(0x7A) == Instruction::of(InstructionType::NOP, AddressingMode::Implied),
        decode_spec(0x7B) == Instruction::of(InstructionType::RRA, AddressingMode::AbsoluteY),
        decode_spec(0x7C) == Instruction::of(InstructionType::NOP, AddressingMode::AbsoluteX),
        decode_spec(0x7D) == Instruction::of(InstructionType::ADC, AddressingMode::AbsoluteX),
        decode_spec(0x7E) == Instruction::of(InstructionType::ROR, AddressingMode::AbsoluteX),
        decode_spec(0x7F) == Instruction::of(InstructionType::RRA, AddressingMode::AbsoluteX),
{
    reveal(decode_spec);
}

/// The opcodes `$80` to `$BF` decode as the bit fields say.
proof fn lemma_third_quarter()
    ensures
        decode_spec(0x80) == Instruction::of(InstructionType::NOP, AddressingMode::Immediate),
        decode_spec(0x81) == Instruction::of(InstructionType::STA, AddressingMode::IndirectX),
        decode_spec(0x82) == Instruction::of(InstructionType::NOP, AddressingMode::Immediate),
        decode_spec(0x83) == Instruction::of(InstructionType::SAX, AddressingMode::IndirectX),
        decode_spec(0x84) == Instruction::of(InstructionType::STY, AddressingMode::ZeroPage),
        decode_spec(0x85) == Instruction::of(InstructionType::STA, AddressingMode::ZeroPage),
        decode_spec(0x86) == Instruction::of(InstructionType::STX, AddressingMode::ZeroPage),
        decode_spec(0x87) == Instruction::of(InstructionType::SAX, AddressingMode::ZeroPage),
        decode_spec(0x88) == Instruction::of(InstructionType::DEY, AddressingMode::Implied),
        decode_spec(0x89) == Instruction::of(InstructionType::NOP, AddressingMode::Implied),
        decode_spec(0x8A) == Instruction::of(InstructionType::TXA, AddressingMode::Implied),
        decode_spec(0x8B) == Instruction::of(InstructionType::ANE, AddressingMode::Immediate),
        decode_spec(0x8C) == Instruction::of(InstructionType::STY, AddressingMode::Absolute),
        decode_spec(0x8D) == Instruction::of(InstructionType::STA, AddressingMode::Absolute),
        decode_spec(0x8E) == Instruction::of(InstructionType::STX, AddressingMode::Absolute),
        decode_spec(0x8F) == Instruction::of(InstructionType::SAX, AddressingMode::Absolute),
        decode_spec(0x90) == Instruction::of(InstructionType::BCC, AddressingMode::Relative),
        decode_spec(0x91) == Instruction::of(InstructionType::STA, AddressingMode::IndirectY),
        decode_spec(0x92) == Instruction::of(InstructionType::JAM, AddressingMode::Immediate),
        decode_spec(0x93) == Instruction::of(InstructionType::SHA, AddressingMode::IndirectY),
        decode_spec(0x94) == Instruction::of(InstructionType::STY, AddressingMode::ZeroPageX),
        decode_spec(0x95) == Instruction::of(InstructionType::STA, AddressingMode::ZeroPageX),
        decode_spec(0x96) == Instruction::of(InstructionType::STX, AddressingMode::ZeroPageY),
        decode_spec(0x97) == Instruction::of(InstructionType::SAX, AddressingMode::ZeroPageY),
        decode_spec(0x98) == Instruction::of(InstructionType::TYA, AddressingMode::Implied),
        decode_spec(0x99) == Instruction::of(InstructionType::STA, AddressingMode::AbsoluteY),
        decode_spec(0x9A) == Instruction::of(InstructionType::TXS, AddressingMode::Implied),
        decode_spec(0x9B) == Instruction::of(InstructionType::TAS, AddressingMode::AbsoluteY),
        decode_spec(0x9C) == Instruction::of(InstructionType::SHY, AddressingMode::AbsoluteX),
        decode_spec(0x9D) == Instruction::of(InstructionType::STA, AddressingMode::AbsoluteX),
        decode_spec(0x9E) == Instruction::of(InstructionType::SHX, AddressingMode::AbsoluteY),
        decode_spec(0x9F) == Instruction::of(InstructionType::SHA, AddressingMode::AbsoluteY),
        decode_spec(0xA0) == Instruction::of(InstructionType::LDY, AddressingMode::Immediate),
        decode_spec(0xA1) == Instruction::of(InstructionType::LDA, AddressingMode::IndirectX),
        decode_spec(0xA2) == Instruction::of(InstructionType::LDX, AddressingMode::Immediate),
        decode_spec(0xA3) == Instruction::of(InstructionType::LAX, AddressingMode::IndirectX),
        decode_spec(0xA4) == Instruction::of(InstructionType::LDY, AddressingMode::ZeroPage),
        decode_spec(0xA5) == Instruction::of(InstructionType::LDA, AddressingMode::ZeroPage),
        decode_spec(0xA6) == Instruction::of(InstructionType::LDX, AddressingMode::ZeroPage),
        decode_spec(0xA7) == Instruction::of(InstructionType::LAX, AddressingMode::ZeroPage),
        decode_spec(0xA8) == Instruction::of(InstructionType::TAY, AddressingMode::Implied),
        decode_spec(0xA9) == Instruction::of(InstructionType::LDA, AddressingMode::Immediate),
        decode_spec(0xAA) == Instruction::of(InstructionType::TAX, AddressingMode::Implied),
        decode_spec(0xAB) == Instruction::of(InstructionType::LXA, AddressingMode::Immediate),
        decode_spec(0xAC) == Instruction::of(InstructionType::LDY, AddressingMode::Absolute),
        decode_spec(0xAD) == Instruction::of(InstructionType::LDA, AddressingMode::Absolute),
        decode_spec(0xAE) == Instruction::of(InstructionType::LDX, AddressingMode::Absolute),
        decode_spec(0xAF) == Instruction::of(InstructionType::LAX, AddressingMode::Absolute),
        decode_spec(0xB0) == Instruction::of(InstructionType::BCS, AddressingMode::Relative),
        decode_spec(0xB1) == Instruction::of(InstructionType::LDA, AddressingMode::IndirectY),
        decode_spec(0xB2) == Instruction::of(InstructionType::JAM, AddressingMode::Implied),
        decode_spec(0xB3) == Instruction::of(InstructionType::LAX, AddressingMode::IndirectY),
        decode_spec(0xB4) == Instruction::of(InstructionType::LDY, AddressingMode::ZeroPageX),
        decode_spec(0xB5) == Instruction::of(InstructionType::LDA, AddressingMode::ZeroPageX),
        decode_spec(0xB6) == Instruction::of(InstructionType::LDX, AddressingMode::ZeroPageY),
        decode_spec(0xB7) == Instruction::of(InstructionType::LAX, AddressingMode::ZeroPageY),
        decode_spec(0xB8) == Instruction::of(InstructionType::CLV, AddressingMode::Implied),
        decode_spec(0xB9) == Instruction::of(InstructionType::LDA, AddressingMode::AbsoluteY),
        decode_spec(0xBA) == Instruction::of(InstructionType::TSX, AddressingMode::Implied),
        decode_spec(0xBB) == Instruction::of(InstructionType::LAS, AddressingMode::AbsoluteY),
        decode_spec(0xBC) == Instruction::of(InstructionType::LDY, AddressingMode::AbsoluteX),
        decode_spec(0xBD) == Instruction::of(InstructionType::LDA, AddressingMode::AbsoluteX),
        decode_spec(0xBE) == Instruction::of(InstructionType::LDX, AddressingMode::AbsoluteY),
        decode_spec(0xBF) == Instruction::of(InstructionType::LAX, AddressingMode::AbsoluteY),
{
    reveal(decode_spec);
}

/// The opcodes `$C0` to `$FF` decode as the bit fields say.
proof fn lemma_last_quarter()
    ensures
        decode_spec(0xC0) == Instruction::of(InstructionType::CPY, AddressingMode::Immediate),
        decode_spec(0xC1) == Instruction::of(InstructionType::CMP, AddressingMode::IndirectX),
        decode_spec(0xC2) == Instruction::of(InstructionType::NOP, AddressingMode::Implied),
        decode_spec(0xC3) == Instruction::of(InstructionType::DCP, AddressingMode::IndirectX),
        decode_spec(0xC4) == Instruction::of(InstructionType::CPY, AddressingMode::ZeroPage),
        decode_spec(0xC5) == Instruction::of(InstructionType::CMP, AddressingMode::ZeroPage),
        decode_spec(0xC6) == Instruction::of(InstructionType::DEC, AddressingMode::ZeroPage),
        decode_spec(0xC7) == Instruction::of(InstructionType::DCP, AddressingMode::ZeroPage),
        decode_spec(0xC8) == Instruction::of(InstructionType::INY, AddressingMode::Implied),
        decode_spec(0xC9) == Instruction::of(InstructionType::CMP, AddressingMode::Immediate),
        decode_spec(0xCA) == Instruction::of(InstructionType::DEX, AddressingMode::Implied),
        decode_spec(0xCB) == Instruction::of(InstructionType::SBX, AddressingMode::Immediate),
        decode_spec(0xCC) == Instruction::of(InstructionType::CPY, AddressingMode::Absolute),
        decode_spec(0xCD) == Instruction::of(InstructionType::CMP, AddressingMode::Absolute),
        decode_spec(0xCE) == Instruction::of(InstructionType::DEC, AddressingMode::Absolute),
        decode_spec(0xCF) == Instruction::of(InstructionType::DCP, AddressingMode::Absolute),
        decode_spec(0xD0) == Instruction::of(InstructionType::BNE, AddressingMode::Relative),
        decode_spec(0xD1) == Instruction::of(InstructionType::CMP, AddressingMode::IndirectY),
        decode_spec(0xD2) == Instruction::of(InstructionType::JAM, AddressingMode::Implied),
        decode_spec(0xD3) == Instruction::of(InstructionType::DCP, AddressingMode::IndirectY),
        decode_spec(0xD4) == Instruction::of(InstructionType::NOP, AddressingMode::ZeroPageX),
        decode_spec(0xD5) == Instruction::of(InstructionType::CMP, AddressingMode::ZeroPageX),
        decode_spec(0xD6) == Instruction::of(InstructionType::DEC, AddressingMode::ZeroPageX),
        decode_spec(0xD7) == Instruction::of(InstructionType::DCP, AddressingMode::ZeroPageX),
        decode_spec(0xD8) == Instruction::of(InstructionType::CLD, AddressingMode::Implied),
        decode_spec(0xD9) == Instruction::of(InstructionType::CMP, AddressingMode::AbsoluteY),
        decode_spec(0xDA) == Instruction::of(InstructionType::NOP, AddressingMode::Implied),
        decode_spec(0xDB) == Instruction::of(InstructionType::DCP, AddressingMode::AbsoluteY),
        decode_spec(0xDC) == Instruction::of(InstructionType::NOP, AddressingMode::AbsoluteX),
        decode_spec(0xDD) == Instruction::of(InstructionType::CMP, AddressingMode::AbsoluteX),
        decode_spec(0xDE) == Instruction::of(InstructionType::DEC, AddressingMode::AbsoluteX),
        decode_spec(0xDF) == Instruction::of(InstructionType::DCP, AddressingMode::AbsoluteX),
        decode_spec(0xE0) == Instruction::of(InstructionType::CPX, AddressingMode::Immediate),
        decode_spec(0xE1) == Instruction::of(InstructionType::SBC, AddressingMode::IndirectX),
        decode_spec(0xE2) == Instruction::of(InstructionType::NOP, AddressingMode::Implied),
        decode_spec(0xE3) == Instruction::of(InstructionType::ISC, AddressingMode::IndirectX),
        decode_spec(0xE4) == Instruction::of(InstructionType::CPX, AddressingMode::ZeroPage),
        decode_spec(0xE5) == Instruction::of(InstructionType::SBC, AddressingMode::ZeroPage),
        decode_spec(0xE6) == Instruction::of(InstructionType::INC, AddressingMode::ZeroPage),
        decode_spec(0xE7) == Instruction::of(InstructionType::ISC, AddressingMode::ZeroPage),
        decode_spec(0xE8) == Instruction::of(InstructionType::INX, AddressingMode::Implied),
        decode_spec(0xE9) == Instruction::of(InstructionType::SBC, AddressingMode::Immediate),
        decode_spec(0xEA) == Instruction::of(InstructionType::NOP, AddressingMode::Implied),
        decode_spec(0xEB) == Instruction::of(InstructionType::USBC, AddressingMode::Immediate),
        decode_spec(0xEC) == Instruction::of(InstructionType::CPX, AddressingMode::Absolute),
        decode_spec(0xED) == Instruction::of(InstructionType::SBC, AddressingMode::Absolute),
        decode_spec(0xEE) == Instruction::of(InstructionType::INC, AddressingMode::Absolute),
        decode_spec(0xEF) == Instruction::of(InstructionType::ISC, AddressingMode::Absolute),
        decode_spec(0xF0) == Instruction::of(InstructionType::BEQ, AddressingMode::Relative),
        decode_spec(0xF1) == Instruction::of(InstructionType::SBC, AddressingMode::IndirectY),
        decode_spec(0xF2) == Instruction::of(InstructionType::JAM, AddressingMode::Implied),
        decode_spec(0xF3) == Instruction::of(InstructionType::ISC, AddressingMode::IndirectY),
        decode_spec(0xF4) == Instruction::of(InstructionType::NOP, AddressingMode::ZeroPageX),
        decode_spec(0xF5) == Instruction::of(InstructionType::SBC, AddressingMode::ZeroPageX),
        decode_spec(0xF6) == Instruction::of(InstructionType::INC, AddressingMode::ZeroPageX),
        decode_spec(0xF7) == Instruction::of(InstructionType::ISC, AddressingMode::ZeroPageX),
        decode_spec(0xF8) == Instruction::of(InstructionType::SED, AddressingMode::Implied),
        decode_spec(0xF9) == Instruction::of(InstructionType::SBC, AddressingMode::AbsoluteY),
        decode_spec(0xFA) == Instruction::of(InstructionType::NOP, AddressingMode::Implied),
        decode_spec(0xFB) == Instruction::of(InstructionType::ISC, AddressingMode::AbsoluteY),
        decode_spec(0xFC) == Instruction::of(InstructionType::NOP, AddressingMode::AbsoluteX),
        decode_spec(0xFD) == Instruction::of(InstructionType::SBC, AddressingMode::AbsoluteX),
        decode_spec(0xFE) == Instruction::of(InstructionType::INC, AddressingMode::AbsoluteX),
        decode_spec(0xFF) == Instruction::of(InstructionType::ISC, AddressingMode::AbsoluteX),
{
    reveal(decode_spec);
}

impl Instruction {
    /// The entries `$00` to `$3F` and the way to the others of the opcode table.
    pub(crate) fn decode_first_quarter(opcode: u8) -> (instruction: Instruction)
        ensures
            instruction == decode_spec(opcode),
    {
        proof {
            lemma_first_quarter();
        }
        match opcode {
            0x00 => Instruction::new(InstructionType::BRK, AddressingMode::Implied),
            0x01 => Instruction::new(InstructionType::ORA, AddressingMode::IndirectX),
            0x02 => Instruction::new(InstructionType::JAM, AddressingMode::Implied),
            0x03 => Instruction::new(InstructionType::SLO, AddressingMode::IndirectX),
            0x04 => Instruction::new(InstructionType::NOP, AddressingMode::ZeroPage),
            0x05 => Instruction::new(InstructionType::ORA, AddressingMode::ZeroPage),
            0x06 => Instruction::new(InstructionType::ASL, AddressingMode::ZeroPage),
            0x07 => Instruction::new(InstructionType::SLO, AddressingMode::ZeroPage),
            0x08 => Instruction::new(InstructionType::PHP, AddressingMode::Implied),
            0x09 => Instruction::new(InstructionType::ORA, AddressingMode::Immediate),
            0x0A => Instruction::new(InstructionType::ASL, AddressingMode::Accumulator),
            0x0B => Instruction::new(InstructionType::ANC, AddressingMode::Immediate),
            0x0C => Instruction::new(InstructionType::NOP, AddressingMode::Absolute),
            0x0D => Instruction::new(InstructionType::ORA, AddressingMode::Absolute),
            0x0E => Instruction::new(InstructionType::ASL, AddressingMode::Absolute),
            0x0F => Instruction::new(InstructionType::SLO, AddressingMode::Absolute),
            0x10 => Instruction::new(InstructionType::BPL, AddressingMode::Relative),
            0x11 => Instruction::new(InstructionType::ORA, AddressingMode::IndirectY),
            0x12 => Instruction::new(InstructionType::JAM, AddressingMode::Implied),
            0x13 => Instruction::new(InstructionType::SLO, AddressingMode::IndirectY),
            0x14 => Instruction::new(InstructionType::NOP, AddressingMode::ZeroPageX),
            0x15 => Instruction::new(InstructionType::ORA, AddressingMode::ZeroPageX),
            0x16 => Instruction::new(InstructionType::ASL, AddressingMode::ZeroPageX),
            0x17 => Instruction::new(InstructionType::SLO, AddressingMode::ZeroPageX),
            0x18 => Instruction::new(InstructionType::CLC, AddressingMode::Implied),
            0x19 => Instruction::new(InstructionType::ORA, AddressingMode::AbsoluteY),
            0x1A => Instruction::new(InstructionType::NOP, AddressingMode::Implied),
            0x1B => Instruction::new(InstructionType::SLO, AddressingMode::AbsoluteY),
            0x1C => Instruction::new(InstructionType::NOP, AddressingMode::AbsoluteX),
            0x1D => Instruction::new(InstructionType::ORA, AddressingMode::AbsoluteX),
            0x1E => Instruction::new(InstructionType::ASL, AddressingMode::AbsoluteX),
            0x1F => Instruction::new(InstructionType::SLO, AddressingMode::AbsoluteX),
            0x20 => Instruction::new(InstructionType::JSR, AddressingMode::Absolute),
            0x21 => Instruction::new(InstructionType::AND, AddressingMode::IndirectX),
            0x22 => Instruction::new(InstructionType::JAM, AddressingMode::Implied),
            0x23 => Instruction::new(InstructionType::RLA, AddressingMode::IndirectX),
            0x24 => Instruction::new(InstructionType::BIT, AddressingMode::ZeroPage),
            0x25 => Instruction::new(InstructionType::AND, AddressingMode::ZeroPage),
            0x26 => Instruction::new(InstructionType::ROL, AddressingMode::ZeroPage),
            0x27 => Instruction::new(InstructionType::RLA, AddressingMode::ZeroPage),
            0x28 => Instruction::new(InstructionType::PLP, AddressingMode::Implied),
            0x29 => Instruction::new(InstructionType::AND, AddressingMode::Immediate),
            0x2A => Instruction::new(InstructionType::ROL, AddressingMode::Accumulator),
            0x2B => Instruction::new(InstructionType::ANC, AddressingMode::Immediate),
            0x2C => Instruction::new(InstructionType::BIT, AddressingMode::Absolute),
            0x2D => Instruction::new(InstructionType::AND, AddressingMode::Absolute),
            0x2E => Instruction::new(InstructionType::ROL, AddressingMode::Absolute),
            0x2F => Instruction::new(InstructionType::RLA, AddressingMode::Absolute),
            0x30 => Instruction::new(InstructionType::BMI, AddressingMode::Relative),
            0x31 => Instruction::new(InstructionType::AND, AddressingMode::IndirectY),
            0x32 => Instruction::new(InstructionType::JAM, AddressingMode::Implied),
            0x33 => Instruction::new(InstructionType::RLA, AddressingMode::IndirectY),
            0x34 => Instruction::new(InstructionType::NOP, AddressingMode::ZeroPageX),
            0x35 => Instruction::new(InstructionType::AND, AddressingMode::ZeroPageX),
            0x36 => Instruction::new(InstructionType::ROL, AddressingMode::ZeroPageX),
            0x37 => Instruction::new(InstructionType::RLA, AddressingMode::ZeroPageX),
            0x38 => Instruction::new(InstructionType::SEC, AddressingMode::Implied),
            0x39 => Instruction::new(InstructionType::AND, AddressingMode::AbsoluteY),
            0x3A => Instruction::new(InstructionType::NOP, AddressingMode::Implied),
            0x3B => Instruction::new(InstructionType::RLA, AddressingMode::AbsoluteY),
            0x3C => Instruction::new(InstructionType::NOP, AddressingMode::AbsoluteX),
            0x3D => Instruction::new(InstructionType::AND, AddressingMode::AbsoluteX),
            0x3E => Instruction::new(InstructionType::ROL, AddressingMode::AbsoluteX),
            0x3F => Instruction::new(InstructionType::RLA, AddressingMode::AbsoluteX),
            _ => Instruction::decode_second_quarter(opcode),
        }
    }

    /// The entries `$40` to `$7F` of the opcode table.
    fn decode_second_quarter(opcode: u8) -> (instruction: Instruction)
        requires
            opcode >= 0x40,
        ensures
            instruction == decode_spec(opcode),
    {
        proof {
            lemma_second_quarter();
        }
        match opcode {
            0x40 => Instruction::new(InstructionType::RTI, AddressingMode::Implied),
            0x41 => Instruction::new(InstructionType::EOR, AddressingMode::IndirectX),
            0x42 => Instruction::new(InstructionType::JAM, AddressingMode::Implied),
            0x43 => Instruction::new(InstructionType::SRE, AddressingMode::IndirectX),
            0x44 => Instruction::new(InstructionType::NOP, AddressingMode::ZeroPage),
            0x45 => Instruction::new(InstructionType::EOR, AddressingMode::ZeroPage),
            0x46 => Instruction::new(InstructionType::LSR, AddressingMode::ZeroPage),
            0x47 => Instruction::new(InstructionType::SRE, AddressingMode::ZeroPage),
            0x48 => Instruction::new(InstructionType::PHA, AddressingMode::Implied),
            0x49 => Instruction::new(InstructionType::EOR, AddressingMode::Immediate),
            0x4A => Instruction::new(InstructionType::LSR, AddressingMode::Accumulator),
            0x4B => Instruction::new(InstructionType::ALR, AddressingMode::Immediate),
            0x4C => Instruction::new(InstructionType::JMP, AddressingMode::Absolute),
            0x4D => Instruction::new(InstructionType::EOR, AddressingMode::Absolute),
            0x4E => Instruction::new(InstructionType::LSR, AddressingMode::Absolute),
            0x4F => Instruction::new(InstructionType::SRE, AddressingMode::Absolute),
            0x50 => Instruction::new(InstructionType::BVC, AddressingMode::Relative),
            0x51 => Instruction::new(InstructionType::EOR, AddressingMode::IndirectY),
            0x52 => Instruction::new(InstructionType::JAM, AddressingMode::Implied),
            0x53 => Instruction::new(InstructionType::SRE, AddressingMode::IndirectY),
            0x54 => Instruction::new(InstructionType::NOP, AddressingMode::ZeroPageX),
            0x55 => Instruction::new(InstructionType::EOR, AddressingMode::ZeroPageX),
            0x56 => Instruction::new(InstructionType::LSR, AddressingMode::ZeroPageX),
            0x57 => Instruction::new(InstructionType::SRE, AddressingMode::ZeroPageX),
            0x58 => Instruction::new(InstructionType::CLI, AddressingMode::Implied),
            0x59 => Instruction::new(InstructionType::EOR, AddressingMode::AbsoluteY),
            0x5A => Instruction::new(InstructionType::NOP, AddressingMode::Implied),
            0x5B => Instruction::new(InstructionType::SRE, AddressingMode::AbsoluteY),
            0x5C => Instruction::new(InstructionType::NOP, AddressingMode::AbsoluteX),
            0x5D => Instruction::new(InstructionType::EOR, AddressingMode::AbsoluteX),
            0x5E => Instruction::new(InstructionType::LSR, AddressingMode::AbsoluteX),
            0x5F => Instruction::new(InstructionType::SRE, AddressingMode::AbsoluteX),
            0x60 => Instruction::new(InstructionType::RTS, AddressingMode::Implied),
            0x61 => Instruction::new(InstructionType::ADC, AddressingMode::IndirectX),
            0x62 => Instruction::new(InstructionType::JAM, AddressingMode::Implied),
            0x63 => Instruction::new(InstructionType::RRA, AddressingMode::IndirectX),
            0x64 => Instruction::new(InstructionType::NOP, AddressingMode::ZeroPage),
            0x65 => Instruction::new(InstructionType::ADC, AddressingMode::ZeroPage),
            0x66 => Instruction::new(InstructionType::ROR, AddressingMode::ZeroPage),
            0x67 => Instruction::new(InstructionType::RRA, AddressingMode::ZeroPage),
            0x68 => Instruction::new(InstructionType::PLA, AddressingMode::Implied),
            0x69 => Instruction::new(InstructionType::ADC, AddressingMode::Immediate),
            0x6A => Instruction::new(InstructionType::ROR, AddressingMode::Accumulator),
            0x6B => Instruction::new(InstructionType::ARR, AddressingMode::Immediate),
            0x6C => Instruction::new(InstructionType::JMP, AddressingMode::Indirect),
            0x6D => Instruction::new(InstructionType::ADC, AddressingMode::Absolute),
            0x6E => Instruction::new(InstructionType::ROR, AddressingMode::Absolute),
            0x6F => Instruction::new(InstructionType::RRA, AddressingMode::Absolute),
            0x70 => Instruction::new(InstructionType::BVS, AddressingMode::Relative),
            0x71 => Instruction::new(InstructionType::ADC, AddressingMode::IndirectY),
            0x72 => Instruction::new(InstructionType::JAM, AddressingMode::Implied),
            0x73 => Instruction::new(InstructionType::RRA, AddressingMode::IndirectY),
            0x74 => Instruction::new(InstructionType::NOP, AddressingMode::ZeroPageX),
            0x75 => Instruction::new(InstructionType::ADC, AddressingMode::ZeroPageX),
            0x76 => Instruction::new(InstructionType::ROR, AddressingMode::ZeroPageX),
            0x77 => Instruction::new(InstructionType::RRA, AddressingMode::ZeroPageX),
            0x78 => Instruction::new(InstructionType::SEI, AddressingMode::Implied),
            0x79 => Instruction::new(InstructionType::ADC, AddressingMode::AbsoluteY),
            0x7A => Instruction::new(InstructionType::NOP, AddressingMode::Implied),
            0x7B => Instruction::new(InstructionType::RRA, AddressingMode::AbsoluteY),
            0x7C => Instruction::new(InstructionType::NOP, AddressingMode::AbsoluteX),
            0x7D => Instruction::new(InstructionType::ADC, AddressingMode::AbsoluteX),
            0x7E => Instruction::new(InstructionType::ROR, AddressingMode::AbsoluteX),
            0x7F => Instruction::new(InstructionType::RRA, AddressingMode::AbsoluteX),
            _ => Instruction::decode_third_quarter(opcode),
        }
    }

    /// The entries `$80` to `$BF` of the opcode table.
    fn decode_third_quarter(opcode: u8) -> (instruction: Instruction)
        requires
            opcode >= 0x80,
        ensures
            instruction == decode_spec(opcode),
    {
        proof {
            lemma_third_quarter();
        }
        match opcode {
            0x80 => Instruction::new(InstructionType::NOP, AddressingMode::Immediate),
            0x81 => Instruction::new(InstructionType::STA, AddressingMode::IndirectX),
            0x82 => Instruction::new(InstructionType::NOP, AddressingMode::Immediate),
            0x83 => Instruction::new(InstructionType::SAX, AddressingMode::IndirectX),
            0x84 => Instruction::new(InstructionType::STY, AddressingMode::ZeroPage),
            0x85 => Instruction::new(InstructionType::STA, AddressingMode::ZeroPage),
            0x86 => Instruction::new(InstructionType::STX, AddressingMode::ZeroPage),
            0x87 => Instruction::new(InstructionType::SAX, AddressingMode::ZeroPage),
            0x88 => Instruction::new(InstructionType::DEY, AddressingMode::Implied),
            0x89 => Instruction::new(InstructionType::NOP, AddressingMode::Implied),
            0x8A => Instruction::new(InstructionType::TXA, AddressingMode::Implied),
            0x8B => Instruction::new(InstructionType::ANE, AddressingMode::Immediate),
            0x8C => Instruction::new(InstructionType::STY, AddressingMode::Absolute),
            0x8D => Instruction::new(InstructionType::STA, AddressingMode::Absolute),
            0x8E => Instruction::new(InstructionType::STX, AddressingMode::Absolute),
            0x8F => Instruction::new(InstructionType::SAX, AddressingMode::Absolute),
            0x90 => Instruction::new(InstructionType::BCC, AddressingMode::Relative),
            0x91 => Instruction::new(InstructionType::STA, AddressingMode::IndirectY),
            0x92 => Instruction::new(InstructionType::JAM, AddressingMode::Immediate),
            0x93 => Instruction::new(InstructionType::SHA, AddressingMode::IndirectY),
            0x94 => Instruction::new(InstructionType::STY, AddressingMode::ZeroPageX),
            0x95 => Instruction::new(InstructionType::STA, AddressingMode::ZeroPageX),
            0x96 => Instruction::new(InstructionType::STX, AddressingMode::ZeroPageY),
            0x97 => Instruction::new(InstructionType::SAX, AddressingMode::ZeroPageY),
            0x98 => Instruction::new(InstructionType::TYA, AddressingMode::Implied),
            0x99 => Instruction::new(InstructionType::STA, AddressingMode::AbsoluteY),
            0x9A => Instruction::new(InstructionType::TXS, AddressingMode::Implied),
            0x9B => Instruction::new(InstructionType::TAS, AddressingMode::AbsoluteY),
            0x9C => Instruction::new(InstructionType::SHY, AddressingMode::AbsoluteX),
            0x9D => Instruction::new(InstructionType::STA, AddressingMode::AbsoluteX),
            0x9E => Instruction::new(InstructionType::SHX, AddressingMode::AbsoluteY),
            0x9F => Instruction::new(InstructionType::SHA, AddressingMode::AbsoluteY),
            0xA0 => Instruction::new(InstructionType::LDY, AddressingMode::Immediate),
            0xA1 => Instruction::new(InstructionType::LDA, AddressingMode::IndirectX),
            0xA2 => Instruction::new(InstructionType::LDX, AddressingMode::Immediate),
            0xA3 => Instruction::new(InstructionType::LAX, AddressingMode::IndirectX),
            0xA4 => Instruction::new(InstructionType::LDY, AddressingMode::ZeroPage),
            0xA5 => Instruction::new(InstructionType::LDA, AddressingMode::ZeroPage),
            0xA6 => Instruction::new(InstructionType::LDX, AddressingMode::ZeroPage),
            0xA7 => Instruction::new(InstructionType::LAX, AddressingMode::ZeroPage),
            0xA8 => Instruction::new(InstructionType::TAY, AddressingMode::Implied),
            0xA9 => Instruction::new(InstructionType::LDA, AddressingMode::Immediate),
            0xAA => Instruction::new(InstructionType::TAX, AddressingMode::Implied),
            0xAB => Instruction::new(InstructionType::LXA, AddressingMode::Immediate),
            0xAC => Instruction::new(InstructionType::LDY, AddressingMode::Absolute),
            0xAD => Instruction::new(InstructionType::LDA, AddressingMode::Absolute),
            0xAE => Instruction::new(InstructionType::LDX, AddressingMode::Absolute),
            0xAF => Instruction::new(InstructionType::LAX, AddressingMode::Absolute),
            0xB0 => Instruction::new(InstructionType::BCS, AddressingMode::Relative),
            0xB1 => Instruction::new(InstructionType::LDA, AddressingMode::IndirectY),
            0xB2 => Instruction::new(InstructionType::JAM, AddressingMode::Implied),
            0xB3 => Instruction::new(InstructionType::LAX, AddressingMode::IndirectY),
            0xB4 => Instruction::new(InstructionType::LDY, AddressingMode::ZeroPageX),
            0xB5 => Instruction::new(InstructionType::LDA, AddressingMode::ZeroPageX),
            0xB6 => Instruction::new(InstructionType::LDX, AddressingMode::ZeroPageY),
            0xB7 => Instruction::new(InstructionType::LAX, AddressingMode::ZeroPageY),
            0xB8 => Instruction::new(InstructionType::CLV, AddressingMode::Implied),
            0xB9 => Instruction::new(InstructionType::LDA, AddressingMode::AbsoluteY),
            0xBA => Instruction::new(InstructionType::TSX, AddressingMode::Implied),
            0xBB => Instruction::new(InstructionType::LAS, AddressingMode::AbsoluteY),
            0xBC => Instruction::new(InstructionType::LDY, AddressingMode::AbsoluteX),
            0xBD => Instruction::new(InstructionType::LDA, AddressingMode::AbsoluteX),
            0xBE => Instruction::new(InstructionType::LDX, AddressingMode::AbsoluteY),
            0xBF => Instruction::new(InstructionType::LAX, AddressingMode::AbsoluteY),
            _ => Instruction::decode_last_quarter(opcode),
        }
    }

    /// The entries `$C0` to `$FF` of the opcode table.
    fn decode_last_quarter(opcode: u8) -> (instruction: Instruction)
        requires
            opcode >= 0xC0,
        ensures
            instruction == decode_spec(opcode),
    {
        proof {
            lemma_last_quarter();
        }
        match opcode {
            0xC0 => Instruction::new(InstructionType::CPY, AddressingMode::Immediate),
            0xC1 => Instruction::new(InstructionType::CMP, AddressingMode::IndirectX),
            0xC2 => Instruction::new(InstructionType::NOP, AddressingMode::Implied),
            0xC3 => Instruction::new(InstructionType::DCP, AddressingMode::IndirectX),
            0xC4 => Instruction::new(InstructionType::CPY, AddressingMode::ZeroPage),
            0xC5 => Instruction::new(InstructionType::CMP, AddressingMode::ZeroPage),
            0xC6 => Instruction::new(InstructionType::DEC, AddressingMode::ZeroPage),
            0xC7 => Instruction::new(InstructionType::DCP, AddressingMode::ZeroPage),
            0xC8 => Instruction::new(InstructionType::INY, AddressingMode::Implied),
            0xC9 => Instruction::new(InstructionType::CMP, AddressingMode::Immediate),
            0xCA => Instruction::new(InstructionType::DEX, AddressingMode::Implied),
            0xCB => Instruction::new(InstructionType::SBX, AddressingMode::Immediate),
            0xCC => Instruction::new(InstructionType::CPY, AddressingMode::Absolute),
            0xCD => Instruction::new(InstructionType::CMP, AddressingMode::Absolute),
            0xCE => Instruction::new(InstructionType::DEC, AddressingMode::Absolute),
            0xCF => Instruction::new(InstructionType::DCP, AddressingMode::Absolute),
            0xD0 => Instruction::new(InstructionType::BNE, AddressingMode::Relative),
            0xD1 => Instruction::new(InstructionType::CMP, AddressingMode::IndirectY),
            0xD2 => Instruction::new(InstructionType::JAM, AddressingMode::Implied),
            0xD3 => Instruction::new(InstructionType::DCP, AddressingMode::IndirectY),
            0xD4 => Instruction::new(InstructionType::NOP, AddressingMode::ZeroPageX),
            0xD5 => Instruction::new(InstructionType::CMP, AddressingMode::ZeroPageX),
            0xD6 => Instruction::new(InstructionType::DEC, AddressingMode::ZeroPageX),
            0xD7 => Instruction::new(InstructionType::DCP, AddressingMode::ZeroPageX),
            0xD8 => Instruction::new(InstructionType::CLD, AddressingMode::Implied),
            0xD9 => Instruction::new(InstructionType::CMP, AddressingMode::AbsoluteY),
            0xDA => Instruction::new(InstructionType::NOP, AddressingMode::Implied),
            0xDB => Instruction::new(InstructionType::DCP, AddressingMode::AbsoluteY),
            0xDC => Instruction::new(InstructionType::NOP, AddressingMode::AbsoluteX),
            0xDD => Instruction::new(InstructionType::CMP, AddressingMode::AbsoluteX),
            0xDE => Instruction::new(InstructionType::DEC, AddressingMode::AbsoluteX),
            0xDF => Instruction::new(InstructionType::DCP, AddressingMode::AbsoluteX),
            0xE0 => Instruction::new(InstructionType::CPX, AddressingMode::Immediate),
            0xE1 => Instruction::new(InstructionType::SBC, AddressingMode::IndirectX),
            0xE2 => Instruction::new(InstructionType::NOP, AddressingMode::Implied),
            0xE3 => Instruction::new(InstructionType::ISC, AddressingMode::IndirectX),
            0xE4 => Instruction::new(InstructionType::CPX, AddressingMode::ZeroPage),
            0xE5 => Instruction::new(InstructionType::SBC, AddressingMode::ZeroPage),
            0xE6 => Instruction::new(InstructionType::INC, AddressingMode::ZeroPage),
            0xE7 => Instruction::new(InstructionType::ISC, AddressingMode::ZeroPage),
            0xE8 => Instruction::new(InstructionType::INX, AddressingMode::Implied),
            0xE9 => Instruction::new(InstructionType::SBC, AddressingMode::Immediate),
            0xEA => Instruction::new(InstructionType::NOP, AddressingMode::Implied),
            0xEB => Instruction::new(InstructionType::USBC, AddressingMode::Immediate),
            0xEC => Instruction::new(InstructionType::CPX, AddressingMode::Absolute),
            0xED => Instruction::new(InstructionType::SBC, AddressingMode::Absolute),
            0xEE => Instruction::new(InstructionType::INC, AddressingMode::Absolute),
            0xEF => Instruction::new(InstructionType::ISC, AddressingMode::Absolute),
            0xF0 => Instruction::new(InstructionType::BEQ, AddressingMode::Relative),
            0xF1 => Instruction::new(InstructionType::SBC, AddressingMode::IndirectY),
            0xF2 => Instruction::new(InstructionType::JAM, AddressingMode::Implied),
            0xF3 => Instruction::new(InstructionType::ISC, AddressingMode::IndirectY),
            0xF4 => Instruction::new(InstructionType::NOP, AddressingMode::ZeroPageX),
            0xF5 => Instruction::new(InstructionType::SBC, AddressingMode::ZeroPageX),
            0xF6 => Instruction::new(InstructionType::INC, AddressingMode::ZeroPageX),
            0xF7 => Instruction::new(InstructionType::ISC, AddressingMode::ZeroPageX),
            0xF8 => Instruction::new(InstructionType::SED, AddressingMode::Implied),
            0xF9 => Instruction::new(InstructionType::SBC, AddressingMode::AbsoluteY),
            0xFA => Instruction::new(InstructionType::NOP, AddressingMode::Implied),
            0xFB => Instruction::new(InstructionType::ISC, AddressingMode::AbsoluteY),
            0xFC => Instruction::new(InstructionType::NOP, AddressingMode::AbsoluteX),
            0xFD => Instruction::new(InstructionType::SBC, AddressingMode::AbsoluteX),
            0xFE => Instruction::new(InstructionType::INC, AddressingMode::AbsoluteX),
            _ => Instruction::new(InstructionType::ISC, AddressingMode::AbsoluteX),
        }
    }
}

} // verus!
