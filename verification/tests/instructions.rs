use nes_cpu::cpu::instructions::{AddressingMode, Instruction, InstructionType};

#[test]
fn test_official_get_instruction_duration() {
    // ADC
    let opcodes: Vec<u8> = vec![0x69, 0x65, 0x75, 0x6D, 0x7D, 0x79, 0x61, 0x71];
    let durations: Vec<u8> = vec![2, 3, 4, 4, 4, 4, 6, 5];
    for (i, opcode) in opcodes.iter().enumerate() {
        let duration = Instruction::get_instruction_duration(*opcode).unwrap();
        assert_eq!(duration, durations[i]);
    }

    // AND
    let opcodes: Vec<u8> = vec![0x29, 0x25, 0x35, 0x2D, 0x3D, 0x39, 0x21, 0x31];
    let durations: Vec<u8> = vec![2, 3, 4, 4, 4, 4, 6, 5];
    for (i, opcode) in opcodes.iter().enumerate() {
        let duration = Instruction::get_instruction_duration(*opcode).unwrap();
        assert_eq!(duration, durations[i]);
    }

    // ASL
    let opcodes: Vec<u8> = vec![0x0A, 0x06, 0x16, 0x0E, 0x1E];
    let durations: Vec<u8> = vec![2, 5, 6, 6, 7];
    for (i, opcode) in opcodes.iter().enumerate() {
        let duration = Instruction::get_instruction_duration(*opcode).unwrap();
        assert_eq!(duration, durations[i]);
    }

    // Branch
    let opcodes: Vec<u8> = vec![0x90, 0xB0, 0xF0, 0x30, 0xD0, 0x10, 0x50, 0x70];
    let durations: Vec<u8> = vec![2, 2, 2, 2, 2, 2, 2, 2];
    for (i, opcode) in opcodes.iter().enumerate() {
        let duration = Instruction::get_instruction_duration(*opcode).unwrap();
        assert_eq!(duration, durations[i]);
    }

    //BIT
    let opcodes: Vec<u8> = vec![0x24, 0x2C];
    let durations: Vec<u8> = vec![3, 4];
    for (i, opcode) in opcodes.iter().enumerate() {
        let duration = Instruction::get_instruction_duration(*opcode).unwrap();
        assert_eq!(duration, durations[i]);
    }

    //BRK
    let duration = Instruction::get_instruction_duration(0x00).unwrap();
    assert_eq!(duration, 7);

    //Clear
    let opcodes: Vec<u8> = vec![0x18, 0xD8, 0x58, 0xB8];
    let durations: Vec<u8> = vec![2, 2, 2, 2];
    for (i, opcode) in opcodes.iter().enumerate() {
        let duration = Instruction::get_instruction_duration(*opcode).unwrap();
        assert_eq!(duration, durations[i]);
    }

    //CMP
    let opcodes: Vec<u8> = vec![0xC9, 0xC5, 0xD5, 0xCD, 0xDD, 0xD9, 0xC1, 0xD1];
    let durations: Vec<u8> = vec![2, 3, 4, 4, 4, 4, 6, 5];
    for (i, opcode) in opcodes.iter().enumerate() {
        let duration = Instruction::get_instruction_duration(*opcode).unwrap();
        assert_eq!(duration, durations[i]);
    }

    //CPX & CPY
    let opcodes: Vec<u8> = vec![0xE0, 0xE4, 0xEC, 0xC0, 0xC4, 0xCC];
    let durations: Vec<u8> = vec![2, 3, 4, 2, 3, 4];
    for (i, opcode) in opcodes.iter().enumerate() {
        let duration = Instruction::get_instruction_duration(*opcode).unwrap();
        assert_eq!(duration, durations[i]);
    }

    //DEC & DEX & DEY
    let opcodes: Vec<u8> = vec![0xC6, 0xD6, 0xCE, 0xDE, 0xCA, 0x88];
    let durations: Vec<u8> = vec![5, 6, 6, 7, 2, 2];
    for (i, opcode) in opcodes.iter().enumerate() {
        let duration = Instruction::get_instruction_duration(*opcode).unwrap();
        assert_eq!(duration, durations[i]);
    }

    //EOR
    let opcodes: Vec<u8> = vec![0x49, 0x45, 0x55, 0x4D, 0x5D, 0x59, 0x41, 0x51];
    let durations: Vec<u8> = vec![2, 3, 4, 4, 4, 4, 6, 5];
    for (i, opcode) in opcodes.iter().enumerate() {
        let duration = Instruction::get_instruction_duration(*opcode).unwrap();
        assert_eq!(duration, durations[i]);
    }

    //INC & INX & INY
    let opcodes: Vec<u8> = vec![0xE6, 0xF6, 0xEE, 0xFE, 0xE8, 0xC8];
    let durations: Vec<u8> = vec![5, 6, 6, 7, 2, 2];
    for (i, opcode) in opcodes.iter().enumerate() {
        let duration = Instruction::get_instruction_duration(*opcode).unwrap();
        assert_eq!(duration, durations[i]);
    }

    //JMP & JSR
    let opcodes: Vec<u8> = vec![0x4C, 0x6C, 0x20];
    let durations: Vec<u8> = vec![3, 5, 6];
    for (i, opcode) in opcodes.iter().enumerate() {
        let duration = Instruction::get_instruction_duration(*opcode).unwrap();
        assert_eq!(duration, durations[i]);
    }

    //LDA
    let opcodes: Vec<u8> = vec![0xA9, 0xA5, 0xB5, 0xAD, 0xBD, 0xB9, 0xA1, 0xB1];
    let durations: Vec<u8> = vec![2, 3, 4, 4, 4, 4, 6, 5];
    for (i, opcode) in opcodes.iter().enumerate() {
        let duration = Instruction::get_instruction_duration(*opcode).unwrap();
        assert_eq!(duration, durations[i]);
    }

    //LDX
    let opcodes: Vec<u8> = vec![0xA2, 0xA6, 0xB6, 0xAE, 0xBE];
    let durations: Vec<u8> = vec![2, 3, 4, 4, 4];
    for (i, opcode) in opcodes.iter().enumerate() {
        let duration = Instruction::get_instruction_duration(*opcode).unwrap();
        assert_eq!(duration, durations[i]);
    }

    //LDY
    let opcodes: Vec<u8> = vec![0xA0, 0xA4, 0xB4, 0xAC, 0xBC];
    let durations: Vec<u8> = vec![2, 3, 4, 4, 4];
    for (i, opcode) in opcodes.iter().enumerate() {
        let duration = Instruction::get_instruction_duration(*opcode).unwrap();
        assert_eq!(duration, durations[i]);
    }

    //LSR
    let opcodes: Vec<u8> = vec![0x4A, 0x46, 0x56, 0x4E, 0x5E];
    let durations: Vec<u8> = vec![2, 5, 6, 6, 7];
    for (i, opcode) in opcodes.iter().enumerate() {
        let duration = Instruction::get_instruction_duration(*opcode).unwrap();
        assert_eq!(duration, durations[i]);
    }

    //NOP
    let duration = Instruction::get_instruction_duration(0xEA).unwrap();
    assert_eq!(duration, 2);

    //ORA
    let opcodes: Vec<u8> = vec![0x09, 0x05, 0x15, 0x0D, 0x1D, 0x19, 0x01, 0x11];
    let durations: Vec<u8> = vec![2, 3, 4, 4, 4, 4, 6, 5];
    for (i, opcode) in opcodes.iter().enumerate() {
        let duration = Instruction::get_instruction_duration(*opcode).unwrap();
        assert_eq!(duration, durations[i]);
    }

    //PHA & PHP & PLA & PLP
    let opcodes: Vec<u8> = vec![0x48, 0x08, 0x68, 0x28];
    let durations: Vec<u8> = vec![3, 3, 4, 4];
    for (i, opcode) in opcodes.iter().enumerate() {
        let duration = Instruction::get_instruction_duration(*opcode).unwrap();
        assert_eq!(duration, durations[i]);
    }

    //ROL
    let opcodes: Vec<u8> = vec![0x2A, 0x26, 0x36, 0x2E, 0x3E];
    let durations: Vec<u8> = vec![2, 5, 6, 6, 7];
    for (i, opcode) in opcodes.iter().enumerate() {
        let duration = Instruction::get_instruction_duration(*opcode).unwrap();
        assert_eq!(duration, durations[i]);
    }

    //ROR
    let opcodes: Vec<u8> = vec![0x6A, 0x66, 0x76, 0x6E, 0x7E];
    let durations: Vec<u8> = vec![2, 5, 6, 6, 7];
    for (i, opcode) in opcodes.iter().enumerate() {
        let duration = Instruction::get_instruction_duration(*opcode).unwrap();
        assert_eq!(duration, durations[i]);
    }

    //RTI & RTS
    let opcodes: Vec<u8> = vec![0x40, 0x60];
    let durations: Vec<u8> = vec![6, 6];
    for (i, opcode) in opcodes.iter().enumerate() {
        let duration = Instruction::get_instruction_duration(*opcode).unwrap();
        assert_eq!(duration, durations[i]);
    }

    //SBC
    let opcodes: Vec<u8> = vec![0xE9, 0xE5, 0xF5, 0xED, 0xFD, 0xF9, 0xE1, 0xF1];
    let durations: Vec<u8> = vec![2, 3, 4, 4, 4, 4, 6, 5];
    for (i, opcode) in opcodes.iter().enumerate() {
        let duration = Instruction::get_instruction_duration(*opcode).unwrap();
        assert_eq!(duration, durations[i]);
    }

    //Set flag
    let opcodes: Vec<u8> = vec![0x38, 0xF8, 0x78];
    let durations: Vec<u8> = vec![2, 2, 2];
    for (i, opcode) in opcodes.iter().enumerate() {
        let duration = Instruction::get_instruction_duration(*opcode).unwrap();
        assert_eq!(duration, durations[i]);
    }

    //STA
    let opcodes: Vec<u8> = vec![0x85, 0x95, 0x8D, 0x9D, 0x99, 0x81, 0x91];
    let durations: Vec<u8> = vec![3, 4, 4, 5, 5, 6, 6];
    for (i, opcode) in opcodes.iter().enumerate() {
        let duration = Instruction::get_instruction_duration(*opcode).unwrap();
        assert_eq!(duration, durations[i]);
    }

    //STX
    let opcodes: Vec<u8> = vec![0x86, 0x96, 0x8E];
    let durations: Vec<u8> = vec![3, 4, 4];
    for (i, opcode) in opcodes.iter().enumerate() {
        let duration = Instruction::get_instruction_duration(*opcode).unwrap();
        assert_eq!(duration, durations[i]);
    }

    //STY
    let opcodes: Vec<u8> = vec![0x84, 0x94, 0x8C];
    let durations: Vec<u8> = vec![3, 4, 4];
    for (i, opcode) in opcodes.iter().enumerate() {
        let duration = Instruction::get_instruction_duration(*opcode).unwrap();
        assert_eq!(duration, durations[i]);
    }

    //Transfer
    let opcodes: Vec<u8> = vec![0xAA, 0xA8, 0xBA, 0x8A, 0x9A, 0x98];
    let durations: Vec<u8> = vec![2, 2, 2, 2, 2, 2];
    for (i, opcode) in opcodes.iter().enumerate() {
        let duration = Instruction::get_instruction_duration(*opcode).unwrap();
        assert_eq!(duration, durations[i]);
    }
}

#[test]
fn every_opcode_decodes_and_takes_two_to_eight_cycles() {
    for opcode in 0..=255u8 {
        let instruction = Instruction::decode(opcode).unwrap();
        let cycles = Instruction::get_instruction_duration(opcode).unwrap();
        assert!((2..=8).contains(&cycles), "opcode {opcode:#04X}");
        assert!((1..=3).contains(&instruction.addressing_mode.length()));
    }
}

#[test]
fn decode_follows_the_reference_table() {
    let expected = [
        (0x00u8, InstructionType::BRK, AddressingMode::Implied),
        (0x20, InstructionType::JSR, AddressingMode::Absolute),
        (0x4C, InstructionType::JMP, AddressingMode::Absolute),
        (0x6C, InstructionType::JMP, AddressingMode::Indirect),
        (0x69, InstructionType::ADC, AddressingMode::Immediate),
        (0x91, InstructionType::STA, AddressingMode::IndirectY),
        (0x96, InstructionType::STX, AddressingMode::ZeroPageY),
        (0xA9, InstructionType::LDA, AddressingMode::Immediate),
        (0xB6, InstructionType::LDX, AddressingMode::ZeroPageY),
        (0xBE, InstructionType::LDX, AddressingMode::AbsoluteY),
        (0xEA, InstructionType::NOP, AddressingMode::Implied),
        (0xF0, InstructionType::BEQ, AddressingMode::Relative),
        (0x0A, InstructionType::ASL, AddressingMode::Accumulator),
        (0x03, InstructionType::SLO, AddressingMode::IndirectX),
        (0x0B, InstructionType::ANC, AddressingMode::Immediate),
        (0x2B, InstructionType::ANC, AddressingMode::Immediate),
        (0x4B, InstructionType::ALR, AddressingMode::Immediate),
        (0x6B, InstructionType::ARR, AddressingMode::Immediate),
        (0x8B, InstructionType::ANE, AddressingMode::Immediate),
        (0x93, InstructionType::SHA, AddressingMode::IndirectY),
        (0x9B, InstructionType::TAS, AddressingMode::AbsoluteY),
        (0x9C, InstructionType::SHY, AddressingMode::AbsoluteX),
        (0x9E, InstructionType::SHX, AddressingMode::AbsoluteY),
        (0x9F, InstructionType::SHA, AddressingMode::AbsoluteY),
        (0xAB, InstructionType::LXA, AddressingMode::Immediate),
        (0xBB, InstructionType::LAS, AddressingMode::AbsoluteY),
        (0xBF, InstructionType::LAX, AddressingMode::AbsoluteY),
        (0xCB, InstructionType::SBX, AddressingMode::Immediate),
        (0xEB, InstructionType::USBC, AddressingMode::Immediate),
        (0xC7, InstructionType::DCP, AddressingMode::ZeroPage),
        (0xFF, InstructionType::ISC, AddressingMode::AbsoluteX),
        (0x80, InstructionType::NOP, AddressingMode::Immediate),
        (0x1C, InstructionType::NOP, AddressingMode::AbsoluteX),
        (0x89, InstructionType::NOP, AddressingMode::Implied),
    ];
    for (opcode, kind, mode) in expected {
        let instruction = Instruction::decode(opcode).unwrap();
        assert_eq!(instruction.instruction_type, kind, "opcode {opcode:#04X}");
        assert_eq!(instruction.addressing_mode, mode, "opcode {opcode:#04X}");
    }
}

#[test]
fn the_twelve_halting_opcodes_decode_to_jam() {
    for opcode in [
        0x02u8, 0x12, 0x22, 0x32, 0x42, 0x52, 0x62, 0x72, 0x92, 0xB2, 0xD2, 0xF2,
    ] {
        let instruction = Instruction::decode(opcode).unwrap();
        assert_eq!(instruction.instruction_type, InstructionType::JAM);
    }
    let jams = (0..=255u8)
        .filter(|opcode| {
            Instruction::decode(*opcode).unwrap().instruction_type == InstructionType::JAM
        })
        .count();
    assert_eq!(jams, 12);
}

#[test]
fn undocumented_instructions_have_their_cycle_counts() {
    let expected = [
        (0x03u8, 8u8),
        (0x07, 5),
        (0x0F, 6),
        (0x13, 8),
        (0x17, 6),
        (0x1B, 7),
        (0x1F, 7),
        (0xA3, 6),
        (0xA7, 3),
        (0xAF, 4),
        (0xB3, 5),
        (0xB7, 4),
        (0xBF, 4),
        (0x0B, 2),
        (0x1C, 4),
        (0x04, 3),
        (0x89, 2),
        (0x02, 2),
    ];
    for (opcode, cycles) in expected {
        assert_eq!(
            Instruction::get_instruction_duration(opcode).unwrap(),
            cycles,
            "opcode {opcode:#04X}"
        );
    }
}

#[test]
fn lengths_of_the_addressing_modes() {
    assert_eq!(AddressingMode::Accumulator.length(), 1);
    assert_eq!(AddressingMode::Implied.length(), 1);
    assert_eq!(AddressingMode::Immediate.length(), 2);
    assert_eq!(AddressingMode::ZeroPage.length(), 2);
    assert_eq!(AddressingMode::ZeroPageX.length(), 2);
    assert_eq!(AddressingMode::ZeroPageY.length(), 2);
    assert_eq!(AddressingMode::IndirectX.length(), 2);
    assert_eq!(AddressingMode::IndirectY.length(), 2);
    assert_eq!(AddressingMode::Relative.length(), 2);
    assert_eq!(AddressingMode::Absolute.length(), 3);
    assert_eq!(AddressingMode::AbsoluteX.length(), 3);
    assert_eq!(AddressingMode::AbsoluteY.length(), 3);
    assert_eq!(AddressingMode::Indirect.length(), 3);
}

#[test]
fn read_modify_write_instructions() {
    let rmw = [
        InstructionType::ASL,
        InstructionType::DEC,
        InstructionType::INC,
        InstructionType::LSR,
        InstructionType::ROL,
        InstructionType::ROR,
        InstructionType::STA,
        InstructionType::DCP,
        InstructionType::ISC,
        InstructionType::SLO,
        InstructionType::RLA,
        InstructionType::SRE,
        InstructionType::RRA,
    ];
    for kind in rmw {
        assert!(Instruction::new(kind, AddressingMode::AbsoluteX).is_rmw());
    }
    for kind in [
        InstructionType::LDA,
        InstructionType::ADC,
        InstructionType::CMP,
        InstructionType::STX,
        InstructionType::LAX,
        InstructionType::NOP,
    ] {
        assert!(!Instruction::new(kind, AddressingMode::AbsoluteX).is_rmw());
    }
}
