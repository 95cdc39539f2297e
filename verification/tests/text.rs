use nes_cpu::cpu::debug::DebugMode;
use nes_cpu::cpu::instructions::{AddressingMode, Instruction, InstructionType};
use nes_cpu::cpu::{Cpu, OperandValue};
use nes_cpu::error::{MainError, MemoryError, MyGetCpuError, MyTickError, RomError};
use nes_cpu::text::{
    append_decimal, append_hex_byte, append_hex_word, append_padded, digit_text,
};
use tudelft_nes_ppu::{Mirroring, Ppu};

#[test]
fn numbers_as_text() {
    let mut text = String::new();
    append_decimal(&mut text, 0);
    text.push(' ');
    append_decimal(&mut text, 9);
    text.push(' ');
    append_decimal(&mut text, 10);
    text.push(' ');
    append_decimal(&mut text, 65535);
    text.push(' ');
    append_decimal(&mut text, u64::MAX);
    assert_eq!(text, "0 9 10 65535 18446744073709551615");
    let mut text = String::from("$");
    append_hex_byte(&mut text, 0x0A);
    append_hex_byte(&mut text, 0xF0);
    append_hex_word(&mut text, 0x1C9E);
    append_hex_word(&mut text, 0x0007);
    assert_eq!(text, "$0AF01C9E0007");
    for digit in 0..16u8 {
        assert_eq!(digit_text(digit), format!("{digit:X}"));
    }
    let mut text = String::from("[");
    append_padded(&mut text, "ab", 5);
    text.push(']');
    append_padded(&mut text, "abcdef", 3);
    append_padded(&mut text, "", 2);
    text.push('|');
    assert_eq!(text, "[ab   ]abcdef  |");
}

#[test]
fn only_the_emulator_trace_is_logged() {
    assert_eq!(DebugMode::Emu.emu_log("line".to_string()), Some("line".to_string()));
    assert_eq!(DebugMode::Info.emu_log("line".to_string()), None);
    assert_eq!(DebugMode::No.emu_log("line".to_string()), None);
}

#[test]
fn names_of_instructions_and_modes() {
    for opcode in 0..=255u8 {
        let instruction = Instruction::decode(opcode).unwrap();
        assert_eq!(
            instruction.instruction_type.name(),
            format!("{:?}", instruction.instruction_type)
        );
        assert_eq!(
            instruction.addressing_mode.name(),
            format!("{:?}", instruction.addressing_mode)
        );
    }
    assert_eq!(AddressingMode::Indirect.name(), "Indirect");
    assert_eq!(InstructionType::USBC.name(), "USBC");
}

#[test]
fn the_operand_line() {
    let lda = Instruction::new(InstructionType::LDA, AddressingMode::Immediate);
    let operand = OperandValue { value: Some(0x80), address: None };
    assert_eq!(
        lda.print_instruction(&operand, &DebugMode::Info).unwrap(),
        "Instruction:LDA Addressing Mode:Immediate - Operand (Value: \"0x80\", Address: \"None\")"
    );
    assert_eq!(lda.print_instruction(&operand, &DebugMode::No), None);
    assert_eq!(lda.print_instruction(&operand, &DebugMode::Emu), None);
    let sta = Instruction::new(InstructionType::STA, AddressingMode::AbsoluteX);
    let operand = OperandValue { value: None, address: Some(0x02FF) };
    assert_eq!(
        sta.print_instruction(&operand, &DebugMode::Info).unwrap(),
        "Instruction:STA Addressing Mode:AbsoluteX - Operand (Value: \"None\", Address: \"0x02FF\")"
    );
    let inc = Instruction::new(InstructionType::INC, AddressingMode::ZeroPage);
    let operand = OperandValue { value: Some(0x0F), address: Some(0x0010) };
    assert_eq!(
        inc.print_instruction(&operand, &DebugMode::Info).unwrap(),
        format!(
            "Instruction:{:?} Addressing Mode:{:?} - Operand (Value: {:?}, Address: {:?})",
            InstructionType::INC,
            AddressingMode::ZeroPage,
            "0x0F",
            "0x0010"
        )
    );
}

#[test]
fn the_trace_line() {
    let mut rom = vec![0u8; 16 + 0x8000 + 0x2000];
    rom[0] = b'N';
    rom[1] = b'E';
    rom[2] = b'S';
    rom[3] = 0x1A;
    rom[4] = 2;
    rom[5] = 1;
    rom[16] = 0x4C;
    rom[17] = 0xF5;
    rom[18] = 0xC5;
    rom[16 + 0x10] = 0xA2;
    rom[16 + 0x7FFC] = 0x00;
    rom[16 + 0x7FFD] = 0x80;
    let mut cpu = Cpu::get_cpu(&rom).unwrap();
    let mut ppu = Ppu::new(Mirroring::Horizontal);
    assert_eq!(cpu.debug(0x4C), None);
    assert_eq!(cpu.debug_mode(), DebugMode::No);
    cpu.set_debug(DebugMode::Emu);
    assert!(!cpu.will_execute());
    for _ in 0..7 {
        assert!(cpu.can_tick());
        assert!(cpu.tick(&mut ppu).is_ok());
    }
    assert!(cpu.will_execute());
    let opcode = cpu.memory_read(cpu.registers().pc);
    let line = cpu.debug(opcode).unwrap();
    assert_eq!(
        line,
        format!(
            "{:04X}  {:8}  {:32} A:{:02X} X:{:02X} Y:{:02X} P:{:02X} SP:{:02X} CYC:{}",
            0x8000, "4C F5 C5", "JMP", 0, 0, 0, 0x24, 0xFD, 7
        )
    );
    assert_eq!(
        line,
        "8000  4C F5 C5  JMP                              A:00 X:00 Y:00 P:24 SP:FD CYC:7"
    );
    cpu.set_program_counter(0x8010);
    let line = cpu.debug(0xA2).unwrap();
    assert!(line.starts_with("8010  A2 00     LDX   "));
    cpu.set_program_counter(0xFFFF);
    let line = cpu.debug(0x4C).unwrap();
    assert!(line.starts_with("FFFF  00 00 00  JMP"));
    assert!(cpu.tick(&mut ppu).is_ok());
    assert!(!cpu.will_execute());
}

#[test]
fn messages_of_the_errors() {
    assert_eq!(
        RomError::UnknownMapper(66, "no such board".to_string()).message(),
        "Unknown Mapper Error: Mapper 66 is not implemented. Details: no such board"
    );
    assert_eq!(
        RomError::UnknownAddress("a".to_string()).message(),
        "Unknown Address Error: Rom address not in the right range. Details: a"
    );
    assert_eq!(
        RomError::IncorrectSignature("b".to_string()).message(),
        "Header signature does not match specification. Details: b"
    );
    assert_eq!(
        RomError::IncorrectDataSize("c".to_string()).message(),
        "Given amount of data does not match header. Details: c"
    );
    assert_eq!(
        MemoryError::RomError(RomError::IncorrectDataSize("c".to_string())).message(),
        "Rom Error occurred: Given amount of data does not match header. Details: c"
    );
    assert_eq!(
        MemoryError::UnknownAddress("d".to_string()).message(),
        "Unknown Address Error: Memory address not in the right range. Details: d"
    );
    assert_eq!(
        MemoryError::ShiftAddressError("e".to_string()).message(),
        "Error in shift register data. Details: e"
    );
    assert_eq!(
        MemoryError::MapperAddressError(0x4020, "f".to_string()).message(),
        "Error writing to address for MMC1 mapper: 16416. Details: f"
    );
    assert_eq!(
        MyGetCpuError::RomError(RomError::UnknownAddress("a".to_string())).message(),
        "Rom Error occurred: Unknown Address Error: Rom address not in the right range. Details: a"
    );
    assert_eq!(
        MainError::Opcode("g".to_string()).message(),
        "Opcode Error occurred. Details: g"
    );
}

#[test]
fn one_error_becomes_another() {
    let memory = MainError::from_memory_error(MemoryError::ShiftAddressError("e".to_string()));
    assert!(matches!(
        &memory,
        MainError::Memory(source, details)
            if matches!(**source, MemoryError::ShiftAddressError(_))
                && details == "Error in shift register data. Details: e"
    ));
    assert_eq!(
        memory.message(),
        "Memory Error occurred. Details: Error in shift register data. Details: e"
    );
    let rom = MainError::from_rom_error(RomError::UnknownMapper(4, "x".to_string()));
    assert!(matches!(
        &rom,
        MainError::MyGetCpu(source, details)
            if matches!(**source, MyGetCpuError::RomError(RomError::UnknownMapper(4, _)))
                && details == "Unknown Mapper Error: Mapper 4 is not implemented. Details: x"
    ));
    let get_cpu = MainError::from_get_cpu_error(MyGetCpuError::RomError(
        RomError::IncorrectSignature("s".to_string()),
    ));
    assert_eq!(
        get_cpu.message(),
        "Get Cpu Error occurred. Details: Rom Error occurred: Header signature does not match specification. Details: s"
    );
    let tick = MyTickError::from_memory_error(MemoryError::UnknownAddress("d".to_string()));
    assert_eq!(
        tick.message(),
        "Memory error occurred in the tick function. Details: Unknown Address Error: Memory address not in the right range. Details: d"
    );
    let back = MainError::from_tick_error(tick);
    assert!(matches!(
        &back,
        MainError::Memory(source, details)
            if matches!(&**source, MemoryError::RomError(RomError::UnknownAddress(inner)) if inner == details)
                && details.starts_with("Memory error occurred in the tick function.")
    ));
    let wrapped = MyTickError::from_main_error(MainError::Opcode("g".to_string()));
    assert_eq!(
        wrapped.message(),
        "MainError occurred in one of the functions during a CPU tick. Details: Opcode Error occurred. Details: g"
    );
}
