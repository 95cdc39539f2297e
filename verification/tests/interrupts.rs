use nes_cpu::cpu::interrupt_handler::InterruptState;

#[test]
fn test_ordering() {
    assert!(InterruptState::NMI == InterruptState::NMI);
    assert!(InterruptState::NMI > InterruptState::IRQ);
    assert!(InterruptState::NMI > InterruptState::NormalOperation);
    assert!(InterruptState::IRQ < InterruptState::NMI);
    assert!(InterruptState::IRQ == InterruptState::IRQ);
    assert!(InterruptState::IRQ > InterruptState::NormalOperation);
    assert!(InterruptState::NormalOperation < InterruptState::NMI);
    assert!(InterruptState::NormalOperation < InterruptState::IRQ);
    assert!(InterruptState::NormalOperation == InterruptState::NormalOperation);
}
