use log::LevelFilter;
use nes_cpu::cpu::Cpu;
use tudelft_nes_ppu::{run_cpu_headless_for, Cpu as CpuTemplate, Mirroring, Ppu};
use tudelft_nes_test::{run_tests, TestSelector, TestableCpu, ROM_OFFICIAL_ONLY};

/// The processor behind the two traits that the test ROM runner asks for.
struct Console(Cpu);

impl CpuTemplate for Console {
    type TickError = std::fmt::Error;

    fn tick(&mut self, ppu: &mut Ppu) -> Result<(), std::fmt::Error> {
        assert!(self.0.can_tick());
        self.0.tick(ppu).map_err(|_| std::fmt::Error)
    }

    fn ppu_read_chr_rom(&self, offset: u16) -> u8 {
        self.0.ppu_read_chr_rom(offset)
    }

    fn ppu_memory_write(&mut self, address: u16, value: u8) {
        self.0.ppu_memory_write(address, value)
    }

    fn non_maskable_interrupt(&mut self) {
        self.0.non_maskable_interrupt()
    }
}

impl TestableCpu for Console {
    type GetCpuError = std::fmt::Error;

    fn get_cpu(rom: &[u8]) -> Result<Self, std::fmt::Error> {
        Cpu::get_cpu(rom).map(Console).map_err(|_| std::fmt::Error)
    }

    fn set_program_counter(&mut self, value: u16) {
        self.0.set_program_counter(value)
    }

    fn memory_read(&self, address: u16) -> u8 {
        self.0.memory_read(address)
    }
}

#[test]
fn test_nrom() {
    env_logger::builder().filter_level(LevelFilter::Info).init();
    let result = run_tests::<Console>(TestSelector::NROM_TEST);
    assert!(result.is_ok(), "TEST FAILED: {}", result.unwrap_err());
}

#[test]
fn test_nestest() {
    let result = run_tests::<Console>(TestSelector::NESTEST);
    assert!(result.is_ok(), "TEST FAILED: {}", result.unwrap_err());
}

/// What the instruction test ROM has written into the cartridge memory for
/// its reader.
fn report(console: &Console) -> String {
    let mut text = String::new();
    for address in 0x6004..0x6400u16 {
        let byte = console.memory_read(address);
        if byte == 0 {
            break;
        }
        text.push(byte as char);
    }
    text
}

#[test]
fn the_instruction_rom_passes_its_first_two_tests() {
    let mut console = Console::get_cpu(ROM_OFFICIAL_ONLY).unwrap();
    let mut seen = Vec::new();
    for _ in 0..31 {
        assert!(run_cpu_headless_for(&mut console, Mirroring::Horizontal, 200_000).is_ok());
        let text = report(&console);
        assert!(!text.contains("Failed"), "{text}");
        for line in ["01-basics\n\nPassed", "02-implied", "Running test 3 of 16"] {
            if text.contains(line) && !seen.contains(&line) {
                seen.push(line);
            }
        }
    }
    assert_eq!(console.memory_read(0x6000), 0x80);
    assert_eq!(console.memory_read(0x6001), 0xDE);
    assert_eq!(console.memory_read(0x6002), 0xB0);
    assert_eq!(console.memory_read(0x6003), 0x61);
    assert_eq!(seen, vec!["01-basics\n\nPassed", "02-implied", "Running test 3 of 16"]);
}
