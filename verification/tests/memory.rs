use nes_cpu::error::{MemoryError, RomError};
use nes_cpu::memory::controller::{Buttons, Controller};
use nes_cpu::memory::ppu::address_to_ppu_register;
use nes_cpu::memory::{BusTarget, Memory};
use tudelft_nes_ppu::{Mirroring, Ppu, PpuRegister};
use tudelft_nes_test::ROM_NROM_TEST;

fn memory() -> (Memory, Ppu) {
    (Memory::new(ROM_NROM_TEST).unwrap(), Ppu::new(Mirroring::Horizontal))
}

#[test]
fn test_address_to_ppu_register() {
    assert_eq!(address_to_ppu_register(0x2000), PpuRegister::Controller);
    assert_eq!(address_to_ppu_register(0x2002), PpuRegister::Status);
    assert_eq!(address_to_ppu_register(0x3456), PpuRegister::Address);
    assert_eq!(address_to_ppu_register(0x345e), PpuRegister::Address);
    assert_eq!(address_to_ppu_register(0x3fff), PpuRegister::Data);
}

#[test]
fn every_register_has_its_address() {
    let registers = [
        PpuRegister::Controller,
        PpuRegister::Mask,
        PpuRegister::Status,
        PpuRegister::OamAddress,
        PpuRegister::OamData,
        PpuRegister::Scroll,
        PpuRegister::Address,
        PpuRegister::Data,
    ];
    for (number, register) in registers.iter().enumerate() {
        assert_eq!(address_to_ppu_register(0x2000 + number as u16), *register);
        assert_eq!(address_to_ppu_register(0x3FF8 + number as u16), *register);
        assert_eq!(*register as usize, number);
    }
}

#[test]
fn every_address_has_one_target() {
    let all = [
        BusTarget::InternalRam,
        BusTarget::PpuRegister,
        BusTarget::AudioRegister,
        BusTarget::OamDma,
        BusTarget::AudioStatus,
        BusTarget::Controller1,
        BusTarget::Controller2,
        BusTarget::OpenBus,
        BusTarget::Mapper,
    ];
    let expected = [
        (0x0000u16, 0),
        (0x1FFF, 0),
        (0x2000, 1),
        (0x3FFF, 1),
        (0x4000, 2),
        (0x4013, 2),
        (0x4014, 3),
        (0x4015, 4),
        (0x4016, 5),
        (0x4017, 6),
        (0x4018, 7),
        (0x401F, 7),
        (0x4020, 8),
        (0x6000, 8),
        (0xFFFF, 8),
    ];
    for (address, target) in expected {
        assert_eq!(BusTarget::of(address), all[target]);
    }
    let mut counts = [0u32; 9];
    for address in 0..=0xFFFFu16 {
        let target = BusTarget::of(address);
        let index = all.iter().position(|candidate| *candidate == target).unwrap();
        counts[index] += 1;
    }
    assert_eq!(counts, [0x2000, 0x2000, 0x14, 1, 1, 1, 1, 8, 0xBFE0]);
}

#[test]
fn internal_memory_is_mirrored() {
    let (mut memory, mut ppu) = memory();
    assert!(memory.write(0x0001, 0x11, &mut ppu).is_ok());
    assert!(memory.write(0x1FFF, 0x22, &mut ppu).is_ok());
    for mirror in [0x0001u16, 0x0801, 0x1001, 0x1801] {
        assert!(matches!(memory.read(mirror, &mut ppu), Ok(0x11)));
        assert!(matches!(memory.read_cpu_mem(mirror), Ok(0x11)));
    }
    for mirror in [0x07FFu16, 0x0FFF, 0x17FF, 0x1FFF] {
        assert_eq!(memory.peek(mirror), 0x22);
    }
    assert_eq!(memory.peek(0x0000), 0);
}

#[test]
fn the_cartridge_answers_from_its_window() {
    let (mut memory, mut ppu) = memory();
    assert!(matches!(memory.read(0xFFFC, &mut ppu), Ok(value) if value == ROM_NROM_TEST[16 + 0x3FFC]));
    assert!(matches!(memory.read(0x8000, &mut ppu), Ok(value) if value == ROM_NROM_TEST[16]));
    assert!(memory.write(0x6123, 0x5A, &mut ppu).is_ok());
    assert!(matches!(memory.read(0x6123, &mut ppu), Ok(0x5A)));
    assert!(memory.write(0x8000, 0x5A, &mut ppu).is_ok());
    assert!(matches!(memory.read(0x8000, &mut ppu), Ok(value) if value == ROM_NROM_TEST[16]));
    assert!(matches!(memory.read(0x5000, &mut ppu), Ok(0)));
    assert!(matches!(
        memory.write(0x5000, 1, &mut ppu),
        Err(MemoryError::UnknownAddress(_))
    ));
}

#[test]
fn open_bus_and_sound_registers_read_as_zero() {
    let (mut memory, mut ppu) = memory();
    for address in [0x4000u16, 0x4013, 0x4015, 0x4017, 0x4018, 0x401F] {
        assert!(memory.write(address, 0xFF, &mut ppu).is_ok());
        assert!(matches!(memory.read(address, &mut ppu), Ok(0)));
        assert_eq!(memory.peek(address), 0);
    }
}

#[test]
fn the_picture_unit_keeps_what_its_registers_are_given() {
    let (mut memory, mut ppu) = memory();
    assert!(memory.write(0x2006, 0x3F, &mut ppu).is_ok());
    assert!(memory.write(0x2006, 0x05, &mut ppu).is_ok());
    assert!(memory.write(0x2007, 0x2A, &mut ppu).is_ok());
    assert!(memory.write(0x3FFF, 0x17, &mut ppu).is_ok());
    assert!(memory.write(0x200E, 0x3F, &mut ppu).is_ok());
    assert!(memory.write(0x3FF6, 0x05, &mut ppu).is_ok());
    assert!(matches!(memory.read(0x2007, &mut ppu), Ok(0x2A)));
    assert!(matches!(memory.read(0x3FFF, &mut ppu), Ok(0x17)));
}

#[test]
fn the_picture_unit_reads_character_data_through_the_cartridge() {
    let (mut memory, mut ppu) = memory();
    assert!(memory.write(0x2006, 0x00, &mut ppu).is_ok());
    assert!(memory.write(0x2006, 0x10, &mut ppu).is_ok());
    assert!(memory.read(0x2007, &mut ppu).is_ok());
    let first = ROM_NROM_TEST[16 + 0x4000 + 0x10];
    assert!(matches!(memory.read(0x2007, &mut ppu), Ok(value) if value == first));
    assert!(matches!(memory.read_ppu_byte(0x0010), Ok(value) if value == first));
    assert!(matches!(
        memory.read_ppu_byte(0x2000),
        Err(MemoryError::RomError(RomError::UnknownAddress(_)))
    ));
    assert!(matches!(memory.read_cpu_mem(0x2010), Ok(value) if value == first));
    assert!(memory.write_ppu_byte(0x0010, first.wrapping_add(1)).is_ok());
    assert!(matches!(memory.read_ppu_byte(0x0010), Ok(value) if value == first));
    assert!(matches!(
        memory.write_ppu_byte(0x2000, 0),
        Err(MemoryError::UnknownAddress(_))
    ));
}

#[test]
fn a_page_is_collected_for_sprite_memory() {
    let (mut memory, mut ppu) = memory();
    for offset in 0..=255u16 {
        assert!(memory.write(0x0300 + offset, offset as u8 ^ 0x5A, &mut ppu).is_ok());
    }
    let page = memory.read_page(3);
    for offset in 0..256usize {
        assert_eq!(page[offset], offset as u8 ^ 0x5A);
    }
    let high = memory.read_page(0xFF);
    assert_eq!(high[0xFC], ROM_NROM_TEST[16 + 0x3FFC]);
    assert!(memory.write(0x4014, 3, &mut ppu).is_ok());
    assert!(memory.write(0x4014, 0x40, &mut ppu).is_ok());
    assert!(matches!(memory.read(0x0300, &mut ppu), Ok(0x5A)));
}

#[test]
fn the_controller_reports_its_buttons_in_order() {
    let pressed = Buttons {
        a: true,
        b: false,
        select: true,
        start: false,
        up: false,
        down: true,
        left: true,
        right: false,
    };
    let mut controller = Controller::new();
    assert_eq!(controller.peek(), 0);
    controller.strobe = true;
    controller.read_index = 5;
    controller.refresh(pressed);
    assert_eq!(controller.buttons, pressed);
    assert_eq!(controller.read_index, 0);
    let ppu = Ppu::new(Mirroring::Horizontal);
    controller.strobe = false;
    controller.refresh(Buttons::default());
    assert_eq!(controller.buttons, pressed);
    let bits: Vec<u8> = (0..8).map(|_| controller.read(&ppu)).collect();
    assert_eq!(bits, vec![1, 0, 1, 0, 0, 1, 1, 0]);
    assert_eq!(controller.read_index, 0);
    assert_eq!(controller.read(&ppu), 1);
    controller.read_index = 9;
    assert_eq!(controller.peek(), 0);
}

#[test]
fn the_strobe_follows_the_lowest_bit() {
    let ppu = Ppu::new(Mirroring::Horizontal);
    let mut controller = Controller::new();
    controller.buttons.a = true;
    controller.read_index = 3;
    controller.write(0xFE, &ppu);
    assert!(!controller.strobe);
    assert_eq!(controller.read_index, 3);
    assert!(controller.buttons.a);
    controller.write(0x01, &ppu);
    assert!(controller.strobe);
    assert_eq!(controller.read_index, 0);
    assert_eq!(controller.buttons, Buttons::default());
    assert_eq!(controller.read(&ppu), 0);
    assert_eq!(controller.read_index, 0);
    controller.clock_pulse(&ppu);
    assert_eq!(controller.read_index, 0);
}

#[test]
fn the_controller_is_read_through_the_bus() {
    let (mut memory, mut ppu) = memory();
    assert!(memory.write(0x4016, 1, &mut ppu).is_ok());
    assert!(memory.write(0x4016, 0, &mut ppu).is_ok());
    for _ in 0..8 {
        assert!(matches!(memory.read(0x4016, &mut ppu), Ok(0)));
    }
    assert!(matches!(memory.read_cpu_mem(0x4016), Ok(0)));
}
