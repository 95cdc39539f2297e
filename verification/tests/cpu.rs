use nes_cpu::cpu::instructions::{AddressingMode, Instruction, InstructionType};
use nes_cpu::cpu::interrupt_handler::InterruptState;
use nes_cpu::cpu::state::Registers;
use nes_cpu::cpu::{make_word, Cpu, OperandValue};
use nes_cpu::error::{MyGetCpuError, RomError};
use tudelft_nes_ppu::{Mirroring, Ppu};

/// An image with 32 KiB of program memory, in which the given bytes stand at
/// the given addresses and the three vectors point where asked.
fn image(code: &[(u16, &[u8])], reset: u16, nmi: u16, irq: u16) -> Vec<u8> {
    let mut rom = vec![0u8; 16 + 0x8000 + 0x2000];
    rom[0] = b'N';
    rom[1] = b'E';
    rom[2] = b'S';
    rom[3] = 0x1A;
    rom[4] = 2;
    rom[5] = 1;
    for (address, bytes) in code {
        for (offset, byte) in bytes.iter().enumerate() {
            rom[16 + (*address as usize - 0x8000) + offset] = *byte;
        }
    }
    for (vector, target) in [(0xFFFAusize, nmi), (0xFFFC, reset), (0xFFFE, irq)] {
        rom[16 + vector - 0x8000] = (target & 0xFF) as u8;
        rom[16 + vector - 0x8000 + 1] = (target >> 8) as u8;
    }
    rom
}

fn tick(cpu: &mut Cpu, ppu: &mut Ppu) {
    assert!(cpu.can_tick());
    assert!(cpu.tick(ppu).is_ok());
}

/// A console that has gone through its reset and is about to execute the
/// instruction at `reset`.
fn boot(code: &[(u16, &[u8])], reset: u16) -> (Cpu, Ppu) {
    let rom = image(code, reset, 0x9000, 0xA000);
    let mut cpu = Cpu::get_cpu(&rom).unwrap();
    let mut ppu = Ppu::new(Mirroring::Horizontal);
    for _ in 0..7 {
        tick(&mut cpu, &mut ppu);
    }
    assert_eq!(cpu.interrupt_state(), InterruptState::NormalOperation);
    assert_eq!(cpu.instructions_executed(), 0);
    assert_eq!(cpu.registers().pc, reset);
    (cpu, ppu)
}

/// Runs until `count` more instructions have been executed, and returns the
/// cycles that all of them but the last took, plus one.
fn run(cpu: &mut Cpu, ppu: &mut Ppu, count: u64) -> u64 {
    let goal = cpu.instructions_executed() + count;
    let mut cycles = 0;
    while cpu.instructions_executed() < goal {
        tick(cpu, ppu);
        cycles += 1;
    }
    cycles
}

#[test]
fn test_address_offset() {
    let offset = 128u8;
    assert_eq!(
        128u16
            .wrapping_add((offset & 0b0111_1111) as u16)
            .wrapping_sub((offset & 0b1000_0000) as u16),
        0
    );
    let offset = 127u8;
    assert_eq!(
        128u16
            .wrapping_add((offset & 0b0111_1111) as u16)
            .wrapping_sub((offset & 0b1000_0000) as u16),
        255
    );
}

#[test]
fn relative_mode_adds_a_signed_offset() {
    let back = AddressingMode::Relative.resolve(128, 0, 0, 0, 128, 0, 0);
    assert_eq!(back.address, Some(0));
    assert!(!back.crossed);
    let forward = AddressingMode::Relative.resolve(127, 0, 0, 0, 128, 0, 0);
    assert_eq!(forward.address, Some(255));
    assert!(!forward.crossed);
    let wrapped = AddressingMode::Relative.resolve(0x80, 0, 0, 0, 0x0010, 0, 0);
    assert_eq!(wrapped.address, Some(0xFF90));
    assert!(wrapped.crossed);
    let across = AddressingMode::Relative.resolve(0x20, 0, 0, 0, 0x80F2, 0, 0);
    assert_eq!(across.address, Some(0x8112));
    assert!(across.crossed);
}

#[test]
fn indexed_modes_carry_into_the_high_byte() {
    let plain = AddressingMode::AbsoluteX.resolve(0x10, 0x20, 0x05, 0xFF, 0, 0, 0);
    assert_eq!(plain.address, Some(0x2015));
    assert!(!plain.crossed);
    let crossed = AddressingMode::AbsoluteY.resolve(0xF0, 0x20, 0x05, 0x20, 0, 0, 0);
    assert_eq!(crossed.address, Some(0x2110));
    assert!(crossed.crossed);
    let wrapped = AddressingMode::AbsoluteX.resolve(0xFF, 0xFF, 0x02, 0, 0, 0, 0);
    assert_eq!(wrapped.address, Some(0x0001));
    assert!(wrapped.crossed);
    let zero_page = AddressingMode::ZeroPageX.resolve(0xF0, 0, 0x20, 0, 0, 0, 0);
    assert_eq!(zero_page.address, Some(0x0010));
    assert!(!zero_page.crossed);
    let zero_page_y = AddressingMode::ZeroPageY.resolve(0xFF, 0, 0, 0x01, 0, 0, 0);
    assert_eq!(zero_page_y.address, Some(0x0000));
    let indirect_y = AddressingMode::IndirectY.resolve(0x40, 0, 0, 0x10, 0, 0xF8, 0x12);
    assert_eq!(indirect_y.address, Some(0x1308));
    assert!(indirect_y.crossed);
    let indirect_x = AddressingMode::IndirectX.resolve(0x40, 0, 0x10, 0, 0, 0x34, 0x12);
    assert_eq!(indirect_x.address, Some(0x1234));
    assert_eq!(AddressingMode::Immediate.resolve(1, 2, 3, 4, 5, 6, 7).address, None);
}

#[test]
fn pointers_stay_in_their_page() {
    let indirect = AddressingMode::Indirect.pointer(0xFF, 0x02, 0).unwrap();
    assert_eq!((indirect.low, indirect.high), (0x02FF, 0x0200));
    let indexed = AddressingMode::IndirectX.pointer(0xFE, 0, 0x01).unwrap();
    assert_eq!((indexed.low, indexed.high), (0x00FF, 0x0000));
    let indirect_y = AddressingMode::IndirectY.pointer(0xFF, 0, 0x55).unwrap();
    assert_eq!((indirect_y.low, indirect_y.high), (0x00FF, 0x0000));
    assert!(AddressingMode::Absolute.pointer(1, 2, 3).is_none());
    assert_eq!(make_word(0x12, 0x34), 0x1234);
}

#[test]
fn power_on_state() {
    let rom = image(&[], 0x8000, 0x9000, 0xA000);
    let cpu = Cpu::get_cpu(&rom).unwrap();
    let registers = cpu.registers();
    assert_eq!((registers.a, registers.x, registers.y), (0, 0, 0));
    assert_eq!(registers.pc, 0xFFFC);
    assert_eq!(cpu.interrupt_state(), InterruptState::Uninitialized);
    assert_eq!(cpu.total_cycles(), 0);
    assert!(cpu.can_tick());
}

#[test]
fn reset_takes_seven_cycles_and_pushes_nothing() {
    let rom = image(&[(0x8123, &[0xEA])], 0x8123, 0x9000, 0xA000);
    let mut cpu = Cpu::get_cpu(&rom).unwrap();
    let mut ppu = Ppu::new(Mirroring::Horizontal);
    tick(&mut cpu, &mut ppu);
    let registers = cpu.registers();
    assert_eq!(registers.pc, 0x8123);
    assert_eq!(registers.s, 0xFD);
    assert!(registers.p.interrupt_bit);
    assert_eq!(cpu.interrupt_state(), InterruptState::Booting);
    assert_eq!(cpu.total_cycles(), 1);
    for _ in 0..6 {
        tick(&mut cpu, &mut ppu);
        assert_eq!(cpu.instructions_executed(), 0);
    }
    assert_eq!(cpu.total_cycles(), 7);
    assert_eq!(cpu.registers().s, 0xFD);
    tick(&mut cpu, &mut ppu);
    assert_eq!(cpu.instructions_executed(), 1);
    assert_eq!(cpu.registers().pc, 0x8124);
    for address in 0x0100..0x0200u16 {
        assert_eq!(cpu.memory_read(address), 0);
    }
}

#[test]
fn a_bad_image_gives_no_processor() {
    assert!(matches!(
        Cpu::get_cpu(&[0x4E, 0x45, 0x53]),
        Err(MyGetCpuError::RomError(RomError::IncorrectSignature(_)))
    ));
    let mut rom = image(&[], 0x8000, 0x9000, 0xA000);
    rom.push(0);
    assert!(matches!(
        Cpu::get_cpu(&rom),
        Err(MyGetCpuError::RomError(RomError::IncorrectDataSize(_)))
    ));
    rom.pop();
    rom[6] = 0x20;
    assert!(matches!(
        Cpu::get_cpu(&rom),
        Err(MyGetCpuError::RomError(RomError::UnknownMapper(2, _)))
    ));
}

#[test]
fn lda_immediate_sets_flags() {
    let (mut cpu, mut ppu) = boot(&[(0x8000, &[0xA9, 0x80])], 0x8000);
    assert_eq!(cpu.registers().a, 0x00);
    tick(&mut cpu, &mut ppu);
    let registers = cpu.registers();
    assert_eq!(registers.a, 0x80);
    assert!(registers.p.negative_bit);
    assert!(!registers.p.zero_bit);
    assert_eq!(cpu.instruction_cycle_count(), 2);
    assert_eq!(registers.pc, 0x8002);
}

#[test]
fn adc_with_carry_in_and_overflow() {
    let (mut cpu, mut ppu) = boot(&[(0x8000, &[0x38, 0xA9, 0x50, 0x69, 0x50])], 0x8000);
    run(&mut cpu, &mut ppu, 2);
    let before = cpu.registers();
    assert!(before.p.carry_bit);
    assert_eq!(before.a, 0x50);
    run(&mut cpu, &mut ppu, 1);
    let registers = cpu.registers();
    assert_eq!(registers.a, 0xA1);
    assert!(registers.p.negative_bit);
    assert!(registers.p.overflow_bit);
    assert!(!registers.p.carry_bit);
    assert!(!registers.p.zero_bit);
}

#[test]
fn indirect_jmp_hardware_bug() {
    let program = [
        0xA9, 0x34, 0x8D, 0xFF, 0x02, 0xA9, 0x12, 0x8D, 0x00, 0x02, 0xA9, 0x77, 0x8D, 0x00, 0x03,
        0x6C, 0xFF, 0x02,
    ];
    let (mut cpu, mut ppu) = boot(&[(0x8000, &program)], 0x8000);
    run(&mut cpu, &mut ppu, 6);
    assert_eq!(cpu.memory_read(0x02FF), 0x34);
    assert_eq!(cpu.memory_read(0x0200), 0x12);
    assert_eq!(cpu.memory_read(0x0300), 0x77);
    run(&mut cpu, &mut ppu, 1);
    assert_eq!(cpu.registers().pc, 0x1234);
    assert_eq!(cpu.instruction_cycle_count(), 5);
}

#[test]
fn branch_not_taken_page_cross_free() {
    let (mut cpu, mut ppu) = boot(&[(0x8000, &[0xF0, 0x10])], 0x8000);
    assert!(!cpu.registers().p.zero_bit);
    tick(&mut cpu, &mut ppu);
    assert_eq!(cpu.registers().pc, 0x8002);
    assert_eq!(cpu.instruction_cycle_count(), 2);
    let (mut cpu, mut ppu) = boot(&[(0x80F0, &[0xF0, 0x20])], 0x80F0);
    tick(&mut cpu, &mut ppu);
    assert_eq!(cpu.registers().pc, 0x80F2);
    assert_eq!(cpu.instruction_cycle_count(), 2);
}

#[test]
fn branch_taken_crossing_page() {
    let (mut cpu, mut ppu) = boot(&[(0x80EE, &[0xA9, 0x00, 0xF0, 0x20])], 0x80EE);
    run(&mut cpu, &mut ppu, 1);
    assert!(cpu.registers().p.zero_bit);
    assert_eq!(cpu.registers().pc, 0x80F0);
    let cycles = run(&mut cpu, &mut ppu, 1);
    assert_eq!(cycles, 2);
    assert_eq!(cpu.registers().pc, 0x8112);
    assert_eq!(cpu.instruction_cycle_count(), 4);
}

#[test]
fn branch_taken_within_the_page_takes_three_cycles() {
    let (mut cpu, mut ppu) = boot(&[(0x8000, &[0xD0, 0x10])], 0x8000);
    tick(&mut cpu, &mut ppu);
    assert_eq!(cpu.registers().pc, 0x8012);
    assert_eq!(cpu.instruction_cycle_count(), 3);
}

#[test]
fn a_page_crossing_costs_a_read_one_cycle_and_a_store_none() {
    let program = [0xA2, 0x01, 0xBD, 0xFF, 0x02, 0x9D, 0xFF, 0x02, 0xBD, 0x00, 0x02];
    let (mut cpu, mut ppu) = boot(&[(0x8000, &program)], 0x8000);
    run(&mut cpu, &mut ppu, 2);
    assert_eq!(cpu.instruction_cycle_count(), 5);
    run(&mut cpu, &mut ppu, 1);
    assert_eq!(cpu.instruction_cycle_count(), 5);
    run(&mut cpu, &mut ppu, 1);
    assert_eq!(cpu.instruction_cycle_count(), 4);
}

#[test]
fn an_instruction_occupies_as_many_ticks_as_it_has_cycles() {
    let program = [0xA9, 0x01, 0x8D, 0x00, 0x02, 0xEE, 0x00, 0x02, 0xEA];
    let (mut cpu, mut ppu) = boot(&[(0x8000, &program)], 0x8000);
    assert_eq!(run(&mut cpu, &mut ppu, 1), 1);
    assert_eq!(run(&mut cpu, &mut ppu, 1), 2);
    assert_eq!(run(&mut cpu, &mut ppu, 1), 4);
    assert_eq!(run(&mut cpu, &mut ppu, 1), 6);
    assert_eq!(cpu.memory_read(0x0200), 2);
    assert_eq!(cpu.total_cycles(), 7 + 1 + 2 + 4 + 6);
}

#[test]
fn pha_then_pla_restores_the_accumulator() {
    let program = [0xA9, 0xC3, 0x48, 0xA9, 0x00, 0x68];
    let (mut cpu, mut ppu) = boot(&[(0x8000, &program)], 0x8000);
    run(&mut cpu, &mut ppu, 2);
    assert_eq!(cpu.registers().s, 0xFC);
    assert_eq!(cpu.memory_read(0x01FD), 0xC3);
    assert_eq!(cpu.instruction_cycle_count(), 3);
    run(&mut cpu, &mut ppu, 1);
    assert!(cpu.registers().p.zero_bit);
    run(&mut cpu, &mut ppu, 1);
    let registers = cpu.registers();
    assert_eq!(registers.a, 0xC3);
    assert_eq!(registers.s, 0xFD);
    assert!(registers.p.negative_bit);
    assert!(!registers.p.zero_bit);
    assert_eq!(cpu.instruction_cycle_count(), 4);
}

#[test]
fn php_then_plp_restores_the_flags() {
    let program = [0x38, 0xF8, 0xA9, 0x80, 0x08, 0x18, 0xD8, 0xA9, 0x00, 0x28];
    let (mut cpu, mut ppu) = boot(&[(0x8000, &program)], 0x8000);
    run(&mut cpu, &mut ppu, 3);
    let saved = cpu.registers().p;
    assert!(saved.carry_bit && saved.decimal_bit && saved.negative_bit && saved.interrupt_bit);
    run(&mut cpu, &mut ppu, 1);
    assert_eq!(cpu.memory_read(0x01FD), 0b1011_1101);
    run(&mut cpu, &mut ppu, 3);
    let changed = cpu.registers().p;
    assert!(!changed.carry_bit && !changed.decimal_bit && changed.zero_bit);
    run(&mut cpu, &mut ppu, 1);
    assert_eq!(cpu.registers().p, saved);
    assert_eq!(cpu.registers().s, 0xFD);
}

#[test]
fn jsr_then_rts_returns_behind_the_call() {
    let (mut cpu, mut ppu) = boot(
        &[(0x80FE, &[0x20, 0x00, 0x90, 0xEA]), (0x9000, &[0x60])],
        0x80FE,
    );
    run(&mut cpu, &mut ppu, 1);
    assert_eq!(cpu.registers().pc, 0x9000);
    assert_eq!(cpu.instruction_cycle_count(), 6);
    assert_eq!(cpu.memory_read(0x01FD), 0x81);
    assert_eq!(cpu.memory_read(0x01FC), 0x00);
    assert_eq!(cpu.registers().s, 0xFB);
    run(&mut cpu, &mut ppu, 1);
    assert_eq!(cpu.registers().pc, 0x8101);
    assert_eq!(cpu.registers().s, 0xFD);
    assert_eq!(cpu.instruction_cycle_count(), 6);
}

#[test]
fn brk_then_rti_restores_counter_and_flags() {
    let rom = image(
        &[(0x8000, &[0x58, 0x38, 0x00, 0xEA, 0xEA]), (0xA000, &[0x40])],
        0x8000,
        0x9000,
        0xA000,
    );
    let mut cpu = Cpu::get_cpu(&rom).unwrap();
    let mut ppu = Ppu::new(Mirroring::Horizontal);
    for _ in 0..7 {
        tick(&mut cpu, &mut ppu);
    }
    run(&mut cpu, &mut ppu, 2);
    let before = cpu.registers();
    assert!(!before.p.interrupt_bit);
    assert!(before.p.carry_bit);
    run(&mut cpu, &mut ppu, 1);
    let broken = cpu.registers();
    assert_eq!(broken.pc, 0xA000);
    assert!(broken.p.interrupt_bit);
    assert_eq!(broken.s, 0xFA);
    assert_eq!(cpu.instruction_cycle_count(), 7);
    assert_eq!(cpu.memory_read(0x01FD), 0x80);
    assert_eq!(cpu.memory_read(0x01FC), 0x04);
    assert_eq!(cpu.memory_read(0x01FB), 0b0011_0001);
    run(&mut cpu, &mut ppu, 1);
    let after = cpu.registers();
    assert_eq!(after.pc, 0x8004);
    assert_eq!(after.p, before.p);
    assert_eq!(after.s, 0xFD);
}

#[test]
fn a_non_maskable_interrupt_is_served_when_the_instruction_ends() {
    let rom = image(
        &[(0x8000, &[0xA5, 0x10, 0xEA, 0xEA]), (0x9000, &[0xEA])],
        0x8000,
        0x9000,
        0xA000,
    );
    let mut cpu = Cpu::get_cpu(&rom).unwrap();
    let mut ppu = Ppu::new(Mirroring::Horizontal);
    for _ in 0..7 {
        tick(&mut cpu, &mut ppu);
    }
    cpu.non_maskable_interrupt();
    tick(&mut cpu, &mut ppu);
    assert_eq!(cpu.instructions_executed(), 1);
    assert_eq!(cpu.instruction_cycle_count(), 3);
    assert_eq!(cpu.interrupt_state(), InterruptState::NormalOperation);
    tick(&mut cpu, &mut ppu);
    assert_eq!(cpu.interrupt_state(), InterruptState::NMI);
    assert_eq!(cpu.registers().pc, 0x8002);
    tick(&mut cpu, &mut ppu);
    tick(&mut cpu, &mut ppu);
    let registers = cpu.registers();
    assert_eq!(registers.pc, 0x9000);
    assert!(registers.p.interrupt_bit);
    assert_eq!(registers.s, 0xFA);
    assert_eq!(cpu.instruction_cycle_count(), 7);
    assert_eq!(cpu.interrupt_state(), InterruptState::NormalOperation);
    assert_eq!(cpu.memory_read(0x01FD), 0x80);
    assert_eq!(cpu.memory_read(0x01FC), 0x02);
    assert_eq!(cpu.memory_read(0x01FB), 0b0010_0110);
    assert_eq!(cpu.instructions_executed(), 1);
    let cycles = run(&mut cpu, &mut ppu, 1);
    assert_eq!(cycles, 7);
    assert_eq!(cpu.registers().pc, 0x9001);
}

#[test]
fn a_line_that_stays_high_gives_one_interrupt() {
    let rom = image(
        &[(0x8000, &[0xA5, 0x10, 0xA5, 0x10, 0xA5, 0x10]), (0x9000, &[0x4C, 0x00, 0x90])],
        0x8000,
        0x9000,
        0xA000,
    );
    let mut cpu = Cpu::get_cpu(&rom).unwrap();
    let mut ppu = Ppu::new(Mirroring::Horizontal);
    for _ in 0..7 {
        tick(&mut cpu, &mut ppu);
    }
    for _ in 0..4 {
        cpu.non_maskable_interrupt();
        tick(&mut cpu, &mut ppu);
    }
    assert_eq!(cpu.registers().pc, 0x9000);
    assert_eq!(cpu.registers().s, 0xFA);
    for _ in 0..40 {
        cpu.non_maskable_interrupt();
        tick(&mut cpu, &mut ppu);
    }
    assert_eq!(cpu.registers().s, 0xFA);
    assert_eq!(cpu.registers().pc, 0x9000);
    tick(&mut cpu, &mut ppu);
    for _ in 0..8 {
        cpu.non_maskable_interrupt();
        tick(&mut cpu, &mut ppu);
    }
    assert_eq!(cpu.registers().s, 0xF7);
}

#[test]
fn an_interrupt_request_waits_for_the_interrupt_flag() {
    let rom = image(
        &[(0x8000, &[0xA5, 0x10, 0x58, 0xA5, 0x10, 0xEA, 0xEA]), (0xA000, &[0xEA])],
        0x8000,
        0x9000,
        0xA000,
    );
    let mut cpu = Cpu::get_cpu(&rom).unwrap();
    let mut ppu = Ppu::new(Mirroring::Horizontal);
    for _ in 0..7 {
        tick(&mut cpu, &mut ppu);
    }
    cpu.interrupt_request();
    run(&mut cpu, &mut ppu, 2);
    assert_eq!(cpu.registers().pc, 0x8003);
    assert!(!cpu.registers().p.interrupt_bit);
    assert_eq!(cpu.interrupt_state(), InterruptState::NormalOperation);
    cpu.interrupt_request();
    run(&mut cpu, &mut ppu, 1);
    assert_eq!(cpu.registers().pc, 0x8005);
    tick(&mut cpu, &mut ppu);
    assert_eq!(cpu.interrupt_state(), InterruptState::IRQ);
    tick(&mut cpu, &mut ppu);
    tick(&mut cpu, &mut ppu);
    assert_eq!(cpu.registers().pc, 0xA000);
    assert!(cpu.registers().p.interrupt_bit);
    assert_eq!(cpu.memory_read(0x01FD), 0x80);
    assert_eq!(cpu.memory_read(0x01FC), 0x05);
    assert_eq!(cpu.memory_read(0x01FB) & 0b0011_0000, 0b0010_0000);
}

#[test]
fn a_non_maskable_interrupt_takes_a_brk_over() {
    let rom = image(&[(0x8000, &[0x00, 0xEA])], 0x8000, 0x9000, 0xA000);
    let mut cpu = Cpu::get_cpu(&rom).unwrap();
    let mut ppu = Ppu::new(Mirroring::Horizontal);
    for _ in 0..7 {
        tick(&mut cpu, &mut ppu);
    }
    cpu.non_maskable_interrupt();
    tick(&mut cpu, &mut ppu);
    assert_eq!(cpu.current_instruction().instruction_type, InstructionType::BRK);
    assert_eq!(cpu.registers().pc, 0xA000);
    tick(&mut cpu, &mut ppu);
    assert_eq!(cpu.registers().pc, 0x9000);
    assert_eq!(cpu.memory_read(0x01FB) & 0b0001_0000, 0b0001_0000);
    assert_eq!(cpu.instruction_cycle_count(), 7);
}

#[test]
fn jam_halts_the_processor() {
    let (mut cpu, mut ppu) = boot(&[(0x8000, &[0xA9, 0x07, 0x02, 0xA9, 0x09])], 0x8000);
    run(&mut cpu, &mut ppu, 2);
    assert_eq!(cpu.current_instruction().instruction_type, InstructionType::JAM);
    let halted = cpu.registers();
    assert_eq!(halted.pc, 0x8003);
    let cycles = cpu.total_cycles();
    cpu.non_maskable_interrupt();
    for _ in 0..50 {
        tick(&mut cpu, &mut ppu);
    }
    assert_eq!(cpu.registers(), halted);
    assert_eq!(cpu.instructions_executed(), 2);
    assert_eq!(cpu.total_cycles(), cycles + 50);
}

#[test]
fn execute_runs_one_instruction_off_the_program_counter() {
    let rom = image(&[(0x8000, &[0x42, 0x10])], 0x8000, 0x9000, 0xA000);
    let mut cpu = Cpu::get_cpu(&rom).unwrap();
    let mut ppu = Ppu::new(Mirroring::Horizontal);
    cpu.set_program_counter(0x8000);
    let ldx = Instruction::new(InstructionType::LDX, AddressingMode::Immediate);
    assert!(ldx.execute(&mut cpu, &mut ppu).is_ok());
    assert_eq!(cpu.registers().x, 0x42);
    assert_eq!(cpu.registers().pc, 0x8001);
    let stx = Instruction::new(InstructionType::STX, AddressingMode::ZeroPage);
    assert!(stx.execute(&mut cpu, &mut ppu).is_ok());
    assert_eq!(cpu.memory_read(0x0010), 0x42);
    assert_eq!(cpu.registers().pc, 0x8002);
}

#[test]
fn a_store_does_not_read_its_target() {
    let rom = image(&[(0x8000, &[0x34, 0x12])], 0x8000, 0x9000, 0xA000);
    let mut cpu = Cpu::get_cpu(&rom).unwrap();
    let mut ppu = Ppu::new(Mirroring::Horizontal);
    cpu.set_program_counter(0x8000);
    let operand = cpu.get_operand_value(&AddressingMode::Absolute, &mut ppu, true);
    assert_eq!(operand, OperandValue { value: None, address: Some(0x1234) });
    cpu.set_program_counter(0x8000);
    let operand = cpu.get_operand_value(&AddressingMode::Absolute, &mut ppu, false);
    assert_eq!(operand, OperandValue { value: Some(0), address: Some(0x1234) });
    cpu.set_program_counter(0x8000);
    let operand = cpu.get_operand_value(&AddressingMode::Immediate, &mut ppu, false);
    assert_eq!(operand, OperandValue { value: Some(0x34), address: None });
    assert_eq!(cpu.registers().pc, 0x8001);
    let operand = cpu.get_operand_value(&AddressingMode::Implied, &mut ppu, false);
    assert_eq!(operand, OperandValue { value: None, address: None });
    let operand = cpu.get_operand_value(&AddressingMode::Accumulator, &mut ppu, false);
    assert_eq!(operand, OperandValue { value: Some(0), address: None });
}

#[test]
fn registers_can_be_set_and_read() {
    let rom = image(&[], 0x8000, 0x9000, 0xA000);
    let mut cpu = Cpu::get_cpu(&rom).unwrap();
    let mut registers: Registers = cpu.registers();
    registers.a = 1;
    registers.x = 2;
    registers.y = 3;
    registers.s = 4;
    registers.pc = 0x1234;
    registers.p.overflow_bit = true;
    cpu.set_registers(registers);
    assert_eq!(cpu.registers(), registers);
}

#[test]
fn every_instruction_moves_the_counter_by_its_length() {
    for opcode in 0..=255u8 {
        let rom = image(&[(0x8000, &[opcode, 0x10, 0x02])], 0x8000, 0x9000, 0xA000);
        let mut cpu = Cpu::get_cpu(&rom).unwrap();
        let mut ppu = Ppu::new(Mirroring::Horizontal);
        cpu.set_program_counter(0x8000);
        let instruction = cpu.step(&mut ppu);
        assert_eq!(instruction, Instruction::decode(opcode).unwrap());
        assert_eq!(cpu.current_instruction(), instruction);
        assert_eq!(cpu.instructions_executed(), 1);
        let cycles = Instruction::get_instruction_duration(opcode).unwrap();
        let flow = matches!(
            instruction.instruction_type,
            InstructionType::JMP
                | InstructionType::JSR
                | InstructionType::RTS
                | InstructionType::RTI
                | InstructionType::BRK
                | InstructionType::BCC
                | InstructionType::BCS
                | InstructionType::BEQ
                | InstructionType::BMI
                | InstructionType::BNE
                | InstructionType::BPL
                | InstructionType::BVC
                | InstructionType::BVS
        );
        if !flow {
            assert_eq!(
                cpu.registers().pc,
                0x8000 + instruction.addressing_mode.length() as u16,
                "opcode {opcode:#04X}"
            );
            assert_eq!(cpu.instruction_cycle_count(), cycles, "opcode {opcode:#04X}");
        }
    }
}

#[test]
fn php_shows_bits_four_and_five_set_whatever_ran_before() {
    for opcode in [0xA9u8, 0x69, 0xC9, 0x29, 0x49, 0xA2, 0xE0, 0x0B, 0xCB] {
        let (mut cpu, mut ppu) = boot(&[(0x8000, &[opcode, 0x7F, 0x08, 0x68])], 0x8000);
        run(&mut cpu, &mut ppu, 3);
        assert_eq!(cpu.registers().pc, 0x8004);
        assert_eq!(cpu.registers().a & 0b0011_0000, 0b0011_0000, "opcode {opcode:#04X}");
    }
    for opcode in [0x18u8, 0x38, 0xB8, 0xE8, 0x0A, 0xEA, 0xAA, 0x9A] {
        let (mut cpu, mut ppu) = boot(&[(0x8000, &[opcode, 0x08, 0x68])], 0x8000);
        run(&mut cpu, &mut ppu, 3);
        assert_eq!(cpu.registers().pc, 0x8003);
        assert_eq!(cpu.registers().a & 0b0011_0000, 0b0011_0000, "opcode {opcode:#04X}");
    }
}

#[test]
fn the_pieces_of_the_driver() {
    let rom = image(&[(0x8000, &[0xA9, 0x01])], 0x8456, 0x9000, 0xA000);
    let mut cpu = Cpu::get_cpu(&rom).unwrap();
    let mut ppu = Ppu::new(Mirroring::Horizontal);
    assert_eq!(cpu.poll_interrupts(), InterruptState::NormalOperation);
    cpu.interrupt_request();
    assert_eq!(cpu.poll_interrupts(), InterruptState::IRQ);
    assert_eq!(cpu.poll_interrupts(), InterruptState::NormalOperation);
    cpu.initialize_cpu(&mut ppu);
    assert_eq!(cpu.registers().pc, 0x8456);
    assert_eq!(cpu.registers().s, 0xFD);
    assert_eq!(cpu.interrupt_state(), InterruptState::Booting);
    cpu.set_program_counter(0x8000);
    assert_eq!(cpu.read_next_value(&mut ppu), 0xA9);
    assert_eq!(cpu.read_next_value(&mut ppu), 0x01);
    assert_eq!(cpu.registers().pc, 0x8002);
    cpu.set_program_counter(0xFFFF);
    cpu.read_next_value(&mut ppu);
    assert_eq!(cpu.registers().pc, 0x0000);
    cpu.set_program_counter(0xBEEF);
    cpu.push_pc_and_status_on_stack(0x5A, &mut ppu);
    assert_eq!(cpu.memory_read(0x01FD), 0xBE);
    assert_eq!(cpu.memory_read(0x01FC), 0xEF);
    assert_eq!(cpu.memory_read(0x01FB), 0x5A);
    assert_eq!(cpu.registers().s, 0xFA);
    let sta = Instruction::new(InstructionType::STA, AddressingMode::Absolute);
    let mut registers = cpu.registers();
    registers.a = 0x77;
    registers.s = 0x00;
    cpu.set_registers(registers);
    cpu.apply(&sta, OperandValue { value: None, address: Some(0x0123) }, &mut ppu);
    assert_eq!(cpu.memory_read(0x0123), 0x77);
    let pha = Instruction::new(InstructionType::PHA, AddressingMode::Implied);
    cpu.apply(&pha, OperandValue { value: None, address: None }, &mut ppu);
    assert_eq!(cpu.memory_read(0x0100), 0x77);
    assert_eq!(cpu.registers().s, 0xFF);
    let pla = Instruction::new(InstructionType::PLA, AddressingMode::Implied);
    cpu.apply(&pla, OperandValue { value: None, address: None }, &mut ppu);
    assert_eq!(cpu.registers().s, 0x00);
    assert_eq!(cpu.registers().a, 0x77);
    assert!(sta.is_write_only());
    assert!(!pla.is_write_only());
    cpu.ppu_memory_write(0x0000, 0x12);
    assert_eq!(cpu.ppu_read_chr_rom(0x0000), 0);
    assert_eq!(cpu.ppu_read_chr_rom(0x2000), 0);
    assert_eq!(cpu.get_mirroring(), nes_cpu::memory::Mirroring::Horizontal);
}
