use nes_cpu::error::{MemoryError, RomError};
use nes_cpu::memory::mapper::mapper0::Mapper0;
use nes_cpu::memory::mapper::mapper1::{
    BankRegister, CharacterBankMode, Mapper1, ProgramBankMode,
};
use nes_cpu::memory::mapper::{get_mapper, parse_header, Mapper, RomHeader};
use nes_cpu::memory::{copy_range, zeroed, Cartridge, Mirroring};
use tudelft_nes_test::ROM_NROM_TEST;

fn header(prg: u8, chr: u8, flags: u8, high: u8) -> Vec<u8> {
    let mut rom = vec![b'N', b'E', b'S', 0x1A, prg, chr, flags, high];
    rom.extend([0u8; 8]);
    rom
}

/// An image whose program memory holds, in each bank of 16 KiB, the number
/// of the bank in every byte but the first, which holds `$F0` plus the
/// number, and whose character memory is numbered by banks of 4 KiB.
fn banked_image(prg: u8, chr: u8, mapper: u8) -> Vec<u8> {
    let mut rom = header(prg, chr, mapper << 4, 0);
    for bank in 0..prg {
        let mut bytes = vec![bank; 0x4000];
        bytes[0] = 0xF0 + bank;
        rom.extend(bytes);
    }
    for bank in 0..chr * 2 {
        rom.extend(vec![0x40 + bank; 0x1000]);
    }
    rom
}

fn load(mapper: &mut Mapper1, address: u16, value: u8) {
    for bit in 0..5 {
        assert!(mapper.write(address, (value >> bit) & 1).is_ok());
    }
}

#[test]
fn mapper_test_parse_header() {
    let expected_header = RomHeader {
        mirroring: Mirroring::Horizontal,
        trainer: false,
        peristent_memory: false,
        ignore_mirroring_control: false,
        program_ram_size: 0,
        program_rom_size: 1,
        charactor_memory_size: 1,
        mapper_number: 0,
    };
    assert_eq!(parse_header(ROM_NROM_TEST).unwrap(), expected_header);
}

#[test]
fn mod_test_parse_header() {
    let expected_header = RomHeader {
        mirroring: Mirroring::Horizontal,
        trainer: false,
        peristent_memory: false,
        ignore_mirroring_control: false,
        program_ram_size: 0,
        program_rom_size: 1,
        charactor_memory_size: 1,
        mapper_number: 0,
    };
    assert_eq!(
        Cartridge::parse_header(ROM_NROM_TEST).unwrap(),
        expected_header
    );
}

#[test]
fn header_fields_come_from_their_bits() {
    let mut rom = header(3, 2, 0b1010_1111, 0b0101_0000);
    rom[8] = 7;
    let parsed = parse_header(&rom).unwrap();
    assert_eq!(
        parsed,
        RomHeader {
            mirroring: Mirroring::Vertical,
            peristent_memory: true,
            trainer: true,
            ignore_mirroring_control: true,
            program_rom_size: 3,
            program_ram_size: 7,
            charactor_memory_size: 2,
            mapper_number: 0x5A,
        }
    );
    let plain = parse_header(&header(1, 0, 0b0001_0000, 0)).unwrap();
    assert_eq!(plain.mapper_number, 1);
    assert_eq!(plain.mirroring, Mirroring::Horizontal);
    assert!(!plain.trainer && !plain.peristent_memory && !plain.ignore_mirroring_control);
}

#[test]
fn a_wrong_signature_is_refused() {
    assert!(matches!(parse_header(&[]), Err(RomError::IncorrectSignature(_))));
    assert!(matches!(
        parse_header(&[b'N', b'E', b'S']),
        Err(RomError::IncorrectSignature(_))
    ));
    let mut rom = header(1, 1, 0, 0);
    rom[3] = 0x1B;
    assert!(matches!(parse_header(&rom), Err(RomError::IncorrectSignature(_))));
    assert!(matches!(get_mapper(&rom), Err(RomError::IncorrectSignature(_))));
    assert!(matches!(
        parse_header(&[b'N', b'E', b'S', 0x1A, 1, 1]),
        Err(RomError::IncorrectDataSize(_))
    ));
}

#[test]
fn the_length_must_match_the_header() {
    let mut rom = banked_image(1, 1, 0);
    assert!(get_mapper(&rom).is_ok());
    rom.push(0);
    assert!(matches!(get_mapper(&rom), Err(RomError::IncorrectDataSize(_))));
    rom.pop();
    rom.pop();
    assert!(matches!(get_mapper(&rom), Err(RomError::IncorrectDataSize(_))));
    assert!(matches!(
        get_mapper(&header(1, 1, 0, 0)),
        Err(RomError::IncorrectDataSize(_))
    ));
    let mut with_trainer = header(1, 0, 0b0000_0100, 0);
    with_trainer.extend(vec![0xEE; 512]);
    with_trainer.extend(vec![0x11; 0x4000]);
    let mapper = get_mapper(&with_trainer).unwrap();
    assert_eq!(mapper.read(0x8000), Ok(0x11));
    assert_eq!(mapper.read(0xFFFF), Ok(0x11));
}

#[test]
fn only_two_mappers_are_known() {
    let rom = banked_image(1, 1, 2);
    assert!(matches!(get_mapper(&rom), Err(RomError::UnknownMapper(2, _))));
    let mut rom = banked_image(1, 1, 0);
    rom[7] = 0x40;
    assert!(matches!(get_mapper(&rom), Err(RomError::UnknownMapper(0x40, _))));
    assert!(matches!(get_mapper(&banked_image(1, 1, 0)), Ok(Mapper::Nrom(_))));
    assert!(matches!(get_mapper(&banked_image(2, 1, 1)), Ok(Mapper::Mmc1(_))));
    assert!(matches!(Cartridge::new(&banked_image(1, 1, 3)), Err(RomError::UnknownMapper(3, _))));
}

#[test]
fn the_test_image_loads() {
    let mapper = get_mapper(ROM_NROM_TEST).unwrap();
    let low = mapper.read(0xFFFC).unwrap();
    let high = mapper.read(0xFFFD).unwrap();
    assert_eq!(low, ROM_NROM_TEST[16 + 0x3FFC]);
    assert_eq!(high, ROM_NROM_TEST[16 + 0x3FFD]);
    assert_eq!(mapper.read(0x8000).unwrap(), ROM_NROM_TEST[16]);
    assert_eq!(mapper.read(0xC000).unwrap(), ROM_NROM_TEST[16]);
    assert_eq!(mapper.read_chr(0).unwrap(), ROM_NROM_TEST[16 + 0x4000]);
    assert_eq!(mapper.read_chr(0x1FFF).unwrap(), ROM_NROM_TEST[16 + 0x5FFF]);
    let cartridge = Cartridge::new(ROM_NROM_TEST).unwrap();
    assert_eq!(cartridge.header().program_rom_size, 1);
    assert_eq!(cartridge.read(0xFFFC), Ok(low));
}

#[test]
fn copies_and_zeros() {
    assert_eq!(zeroed(3), vec![0, 0, 0]);
    assert_eq!(zeroed(0), Vec::<u8>::new());
    assert_eq!(copy_range(&[1, 2, 3, 4, 5], 1, 4), vec![2, 3, 4]);
    assert_eq!(copy_range(&[1, 2, 3], 2, 2), Vec::<u8>::new());
}

#[test]
fn mapper0_mirrors_sixteen_kilobytes() {
    let mut prg = vec![0u8; 0x4000];
    prg[0] = 0xAA;
    prg[0x3FFF] = 0xBB;
    let mapper = Mapper0::new(prg, vec![1, 2, 3], Mirroring::Horizontal);
    assert_eq!(mapper.read(0x8000), Ok(0xAA));
    assert_eq!(mapper.read(0xC000), Ok(0xAA));
    assert_eq!(mapper.read(0xBFFF), Ok(0xBB));
    assert_eq!(mapper.read(0xFFFF), Ok(0xBB));
    assert!(matches!(mapper.read(0x5FFF), Err(RomError::UnknownAddress(_))));
    assert!(matches!(mapper.read(0x4020), Err(RomError::UnknownAddress(_))));
    let empty = Mapper0::new(vec![], vec![], Mirroring::Horizontal);
    assert!(matches!(empty.read(0x8000), Err(RomError::UnknownAddress(_))));
}

#[test]
fn mapper0_writes_reach_ram_only() {
    let mut mapper = Mapper0::new(vec![7; 0x8000], vec![9; 0x2000], Mirroring::Vertical);
    assert_eq!(mapper.read(0x6000), Ok(0));
    assert!(mapper.write(0x6000, 0x12).is_ok());
    assert!(mapper.write(0x7FFF, 0x34).is_ok());
    assert_eq!(mapper.read(0x6000), Ok(0x12));
    assert_eq!(mapper.read(0x7FFF), Ok(0x34));
    assert!(mapper.write(0x8000, 0x99).is_ok());
    assert!(mapper.write(0xFFFF, 0x99).is_ok());
    assert_eq!(mapper.read(0x8000), Ok(7));
    assert_eq!(mapper.read(0xFFFF), Ok(7));
    assert!(matches!(mapper.write(0x5000, 1), Err(MemoryError::UnknownAddress(_))));
}

#[test]
fn mapper0_character_memory() {
    let mut rom = Mapper0::new(vec![0; 0x4000], vec![9; 0x2000], Mirroring::Horizontal);
    assert_eq!(rom.read_chr(0x1FFF), Ok(9));
    assert!(matches!(rom.read_chr(0x2000), Err(RomError::UnknownAddress(_))));
    assert!(rom.write_chr(0x0010, 1).is_ok());
    assert_eq!(rom.read_chr(0x0010), Ok(9));
    assert!(matches!(rom.write_chr(0x2000, 1), Err(MemoryError::UnknownAddress(_))));
    let mut ram = Mapper0::new(vec![0; 0x4000], vec![], Mirroring::Horizontal);
    assert_eq!(ram.read_chr(0x1FFF), Ok(0));
    assert!(ram.write_chr(0x0010, 0x55).is_ok());
    assert_eq!(ram.read_chr(0x0010), Ok(0x55));
}

#[test]
fn mapper1_load() {
    let mut mapper = Mapper1::new(vec![0; 0x8000], vec![0; 0x2000], Mirroring::Horizontal);
    assert_eq!(mapper.shift_register(), 16);
    assert_eq!(mapper.prg_bank_mode(), ProgramBankMode::Fixlast);
    load(&mut mapper, 0xE000, 0x1F);
    assert_eq!(mapper.prg_bank(), 0x1F);
    for _ in 0..4 {
        assert!(mapper.write(0x8000, 0x00).is_ok());
    }
    assert_ne!(mapper.shift_register(), 16);
    assert!(mapper.write(0xE000, 0x00).is_ok());
    assert_eq!(mapper.prg_bank(), 0);
    assert_eq!(mapper.shift_register(), 16);
    assert_eq!(mapper.prg_bank_mode(), ProgramBankMode::Fixlast);
    assert_eq!(mapper.control(), 0x0C);
    assert_eq!(mapper.mirroring(), Mirroring::Horizontal);
}

#[test]
fn five_writes_assemble_a_value_lowest_bit_first() {
    for value in 0..32u8 {
        for (address, register) in [
            (0x8000u16, BankRegister::Control),
            (0x9FFF, BankRegister::Control),
            (0xA000, BankRegister::CharacterBank0),
            (0xBFFF, BankRegister::CharacterBank0),
            (0xC000, BankRegister::CharacterBank1),
            (0xDFFF, BankRegister::CharacterBank1),
            (0xE000, BankRegister::ProgramBank),
            (0xFFFF, BankRegister::ProgramBank),
        ] {
            let mut mapper = Mapper1::new(vec![0; 0x8000], vec![], Mirroring::Vertical);
            for bit in 0..4 {
                let noise = 0x7E & (value.wrapping_mul(37));
                assert!(mapper.write(0x8000 + bit * 0x2000, noise | ((value >> bit) & 1)).is_ok());
            }
            assert!(mapper.write(address, (value >> 4) & 1).is_ok());
            let loaded = match register {
                BankRegister::Control => mapper.control(),
                BankRegister::CharacterBank0 => mapper.chr_bank_0(),
                BankRegister::CharacterBank1 => mapper.chr_bank_1(),
                BankRegister::ProgramBank => mapper.prg_bank(),
            };
            assert_eq!(loaded, value);
            assert_eq!(mapper.shift_register(), 16);
        }
    }
}

#[test]
fn a_reset_write_empties_the_shift_register() {
    let mut mapper = Mapper1::new(vec![0; 0x8000], vec![], Mirroring::Vertical);
    load(&mut mapper, 0x8000, 0b10001);
    assert_eq!(mapper.control(), 0b10001);
    assert_eq!(mapper.prg_bank_mode(), ProgramBankMode::Fullswitch);
    assert_eq!(mapper.chr_bank_mode(), CharacterBankMode::Halfswitch);
    assert_eq!(mapper.mirroring(), Mirroring::SingleScreenUpper);
    assert!(mapper.write(0x8000, 1).is_ok());
    assert!(mapper.write(0x8000, 1).is_ok());
    assert!(mapper.write(0xE000, 0x80).is_ok());
    assert_eq!(mapper.shift_register(), 16);
    assert_eq!(mapper.control(), 0b11101);
    assert_eq!(mapper.prg_bank_mode(), ProgramBankMode::Fixlast);
    assert_eq!(mapper.chr_bank_mode(), CharacterBankMode::Halfswitch);
    assert_eq!(mapper.prg_bank(), 0);
    load(&mut mapper, 0xE000, 3);
    assert_eq!(mapper.prg_bank(), 3);
}

#[test]
fn the_control_register_selects_modes_and_mirroring() {
    let mut mapper = Mapper1::new(vec![0; 0x8000], vec![], Mirroring::Vertical);
    let expected = [
        (0b00000u8, ProgramBankMode::Fullswitch, CharacterBankMode::Fullswitch, Mirroring::SingleScreenLower),
        (0b00101, ProgramBankMode::Fullswitch, CharacterBankMode::Fullswitch, Mirroring::SingleScreenUpper),
        (0b01010, ProgramBankMode::Fixfirst, CharacterBankMode::Fullswitch, Mirroring::Horizontal),
        (0b11111, ProgramBankMode::Fixlast, CharacterBankMode::Halfswitch, Mirroring::Vertical),
    ];
    for (control, program, character, mirroring) in expected {
        load(&mut mapper, 0x8000, control);
        assert_eq!(mapper.control(), control);
        assert_eq!(mapper.prg_bank_mode(), program);
        assert_eq!(mapper.chr_bank_mode(), character);
        assert_eq!(mapper.mirroring(), mirroring);
    }
}

#[test]
fn mapper1_program_banks() {
    let rom = banked_image(8, 0, 1);
    let mut mapper = match get_mapper(&rom).unwrap() {
        Mapper::Mmc1(mapper) => mapper,
        Mapper::Nrom(_) => panic!("mapper 1 expected"),
    };
    assert_eq!(mapper.read(0x8000), Ok(0xF0));
    assert_eq!(mapper.read(0xBFFF), Ok(0));
    assert_eq!(mapper.read(0xC000), Ok(0xF7));
    assert_eq!(mapper.read(0xFFFF), Ok(7));
    load(&mut mapper, 0xE000, 5);
    assert_eq!(mapper.read(0x8000), Ok(0xF5));
    assert_eq!(mapper.read(0xC001), Ok(7));
    load(&mut mapper, 0x8000, 0b01000);
    assert_eq!(mapper.read(0x8000), Ok(0xF0));
    assert_eq!(mapper.read(0xC000), Ok(0xF5));
    assert_eq!(mapper.read(0xFFFF), Ok(5));
    load(&mut mapper, 0x8000, 0b00000);
    assert_eq!(mapper.read(0x8000), Ok(0xF4));
    assert_eq!(mapper.read(0xC000), Ok(0xF5));
    load(&mut mapper, 0xE000, 6);
    assert_eq!(mapper.read(0x8001), Ok(6));
    assert_eq!(mapper.read(0xFFFF), Ok(7));
    load(&mut mapper, 0xE000, 9);
    assert!(matches!(mapper.read(0x8000), Err(RomError::UnknownAddress(_))));
    assert!(matches!(mapper.read(0x5FFF), Err(RomError::UnknownAddress(_))));
}

#[test]
fn mapper1_program_ram() {
    let mut mapper = Mapper1::new(vec![0; 0x4000], vec![], Mirroring::Horizontal);
    assert_eq!(mapper.read(0x6000), Ok(0));
    assert!(mapper.write(0x6000, 0x81).is_ok());
    assert!(mapper.write(0x7FFF, 0x7E).is_ok());
    assert_eq!(mapper.read(0x6000), Ok(0x81));
    assert_eq!(mapper.read(0x7FFF), Ok(0x7E));
    assert_eq!(mapper.shift_register(), 16);
    assert!(matches!(
        mapper.write(0x4020, 1),
        Err(MemoryError::MapperAddressError(0x4020, _))
    ));
    assert_eq!(mapper.shift_register(), 16);
}

#[test]
fn mapper1_character_banks() {
    let rom = banked_image(2, 2, 1);
    let mut mapper = get_mapper(&rom).unwrap();
    assert_eq!(mapper.read_chr(0x0000), Ok(0x40));
    assert_eq!(mapper.read_chr(0x1000), Ok(0x41));
    assert!(matches!(mapper.read_chr(0x2000), Err(RomError::UnknownAddress(_))));
    for bit in 0..5 {
        assert!(mapper.write(0xA000, (3u8 >> bit) & 1).is_ok());
    }
    assert_eq!(mapper.read_chr(0x0000), Ok(0x42));
    assert_eq!(mapper.read_chr(0x1FFF), Ok(0x43));
    for bit in 0..5 {
        assert!(mapper.write(0x8000, (0b11100u8 >> bit) & 1).is_ok());
    }
    assert_eq!(mapper.read_chr(0x0000), Ok(0x43));
    assert_eq!(mapper.read_chr(0x1000), Ok(0x40));
    for bit in 0..5 {
        assert!(mapper.write(0xC000, (2u8 >> bit) & 1).is_ok());
    }
    assert_eq!(mapper.read_chr(0x1000), Ok(0x42));
    assert_eq!(mapper.read_chr(0x1FFF), Ok(0x42));
    assert!(mapper.write_chr(0x1000, 0).is_ok());
    assert_eq!(mapper.read_chr(0x1000), Ok(0x42));
    for bit in 0..5 {
        assert!(mapper.write(0xC000, (4u8 >> bit) & 1).is_ok());
    }
    assert!(matches!(mapper.read_chr(0x1000), Err(RomError::UnknownAddress(_))));
    assert!(matches!(mapper.write_chr(0x1000, 0), Err(MemoryError::UnknownAddress(_))));
    let mut ram = Mapper1::new(vec![0; 0x4000], vec![], Mirroring::Horizontal);
    assert!(ram.write_chr(0x1234, 0x56).is_ok());
    assert_eq!(ram.read_chr(0x1234), Ok(0x56));
}
