use nes_cpu::cpu::registers::{CpuRegister, ProgramCounter, StatusRegister, StatusRegisterBit};

#[test]
fn test_status_register_set_bit() {
    let mut sr = StatusRegister::default();

    // Test setting the CarryBit to true
    sr.set_bit(StatusRegisterBit::Carry, true);
    assert!(sr.carry_bit);

    // Test setting the ZeroBit to true
    sr.set_bit(StatusRegisterBit::Zero, true);
    assert!(sr.zero_bit);

    // Test setting the InterruptBit to false
    sr.set_bit(StatusRegisterBit::Interrupt, false);
    assert!(!sr.interrupt_bit);

    // Test setting the DecimalBit to true
    sr.set_bit(StatusRegisterBit::Decimal, true);
    assert!(sr.decimal_bit);

    // Test setting the OverflowBit to true
    sr.set_bit(StatusRegisterBit::Overflow, true);
    assert!(sr.overflow_bit);

    // Test setting the NegativeBit to false
    sr.set_bit(StatusRegisterBit::Negative, false);
    assert!(!sr.negative_bit);
}

#[test]
fn test_cpu_register_get_set() {
    let mut cpu_reg = CpuRegister { binary_value: 0 };

    // Test setting a value
    cpu_reg.set(42);
    assert_eq!(cpu_reg.get(), 42);

    // Test setting another value
    cpu_reg.set(255);
    assert_eq!(cpu_reg.get(), 255);
}

#[test]
fn test_cpu_register_increment_decrement() {
    let mut cpu_reg = CpuRegister { binary_value: 0xFF };

    cpu_reg.increment();
    assert_eq!(cpu_reg.get(), 0);

    cpu_reg.increment();
    assert_eq!(cpu_reg.get(), 1);

    cpu_reg.decrement();
    assert_eq!(cpu_reg.get(), 0);

    cpu_reg.decrement();
    assert_eq!(cpu_reg.get(), 0xFF);
}

#[test]
fn test_program_counter_get_set() {
    let mut pc: ProgramCounter = ProgramCounter { binary_value: 0 };

    // Test setting a value
    pc.set(0x1234);
    assert_eq!(pc.get(), 0x1234);

    // Test setting another value
    pc.set(0xFFFF);
    assert_eq!(pc.get(), 0xFFFF);

    pc.set(0x1111);
    pc.set_hibyte(0xFF);
    assert_eq!(pc.get(), 0xFF11);
    assert_eq!(pc.get_hibyte(), 0xFF);

    pc.set(0x1111);
    pc.set_lobyte(0xFF);
    assert_eq!(pc.get(), 0x11FF);
    assert_eq!(pc.get_lobyte(), 0xFF);

    pc.set_hibyte(0xFF);
    assert_eq!(pc.get(), 0xFFFF);
    pc.set_lobyte(0xFF);
    assert_eq!(pc.get(), 65535);
}

#[test]
fn test_program_counter_increment() {
    let mut pc: ProgramCounter = ProgramCounter {
        binary_value: 0xFFFF,
    };

    pc.increment();
    assert_eq!(pc.get(), 0);

    pc.increment();
    assert_eq!(pc.get(), 1);
}
