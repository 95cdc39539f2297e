//! The processor: registers, instruction set and the cycle driver.

use crate::cpu::alu::increment;
use crate::cpu::debug::DebugMode;
use crate::cpu::instructions::{AddressingMode, Instruction, InstructionType};
use crate::cpu::interrupt_handler::InterruptState;
use crate::cpu::registers::{word, CpuRegister, ProgramCounter, StatusRegister};
use crate::cpu::state::{
    direct_spec, indexed_spec, relative_spec, zero_page_spec, CpuState, Pointer, Registers,
    Resolved,
};
use crate::error::MyGetCpuError;
use crate::memory::mapper::{is_valid_image, refuses};
use crate::memory::{is_ppu_register, is_quiet, Memory, MemoryView};
use tudelft_nes_ppu::Ppu;
use vstd::prelude::*;

pub mod alu;
pub mod debug;
pub mod driver;
pub mod execute;
pub mod instructions;
pub mod interrupt_handler;
pub mod laws;
pub mod opcodes;
pub mod registers;
pub mod state;
pub mod trace;

verus! {

/// What an instruction works on: a byte, an address, both or neither.
#[derive(Clone, Copy, Debug, PartialEq, Eq, Structural)]
pub struct OperandValue {
    pub value: Option<u8>,
    pub address: Option<u16>,
}

impl OperandValue {
    /// The byte of the operand; zero where it has none.
    pub open spec fn byte(self) -> u8 {
        match self.value {
            Some(value) => value,
            None => 0,
        }
    }

    /// The address of the operand; zero where it has none.
    pub open spec fn place(self) -> u16 {
        match self.address {
            Some(address) => address,
            None => 0,
        }
    }

    /// The byte of the operand; zero where it has none.
    pub fn get_byte(&self) -> (value: u8)
        ensures
            value == self.byte(),
    {
        match self.value {
            Some(value) => value,
            None => 0,
        }
    }

    /// The address of the operand; zero where it has none.
    pub fn get_place(&self) -> (address: u16)
        ensures
            address == self.place(),
    {
        match self.address {
            Some(address) => address,
            None => 0,
        }
    }
}

/// The processor with everything behind its bus but the picture unit.
#[derive(Debug)]
pub struct Cpu {
    accumulator: CpuRegister,
    x_register: CpuRegister,
    y_register: CpuRegister,
    stack_pointer: CpuRegister,
    program_counter: ProgramCounter,
    status_register: StatusRegister,
    current_instruction: Instruction,
    current_cycle: u8,
    instruction_cycle_count: u8,
    interrupt_polling_cycle: u8,
    interrupt_state: InterruptState,
    nmi_line_prev: bool,
    nmi_line_current: bool,
    nmi_line_triggered: bool,
    irq_line_triggered: bool,
    branch_success: bool,
    page_crossing: bool,
    memory: Memory,
    total_cycles: u64,
    instructions_executed: u64,
    debug: DebugMode,
}

impl CpuState {
    /// The processor when power comes on, before its first cycle.
    pub open spec fn power_on(memory: MemoryView) -> CpuState {
        CpuState {
            registers: Registers {
                a: 0,
                x: 0,
                y: 0,
                s: 0,
                pc: 0xFFFC,
                p: StatusRegister {
                    carry_bit: false,
                    zero_bit: false,
                    interrupt_bit: false,
                    decimal_bit: false,
                    overflow_bit: false,
                    negative_bit: false,
                },
            },
            memory,
            branch_success: false,
            page_crossing: false,
            current_instruction: Instruction {
                instruction_type: InstructionType::NOP,
                addressing_mode: AddressingMode::Absolute,
            },
            current_cycle: 1,
            instruction_cycle_count: 0,
            interrupt_polling_cycle: 0,
            interrupt_state: InterruptState::Uninitialized,
            nmi_line_prev: false,
            nmi_line_current: false,
            nmi_line_triggered: false,
            irq_line_triggered: false,
            total_cycles: 0,
            instructions_executed: 0,
            debug: DebugMode::No,
        }
    }
}

impl AddressingMode {
    /// Where an indirect mode finds its pointer.
    pub fn pointer(&self, low: u8, high: u8, x: u8) -> (pointer: Option<Pointer>)
        ensures
            pointer == self.pointer_spec(low, high, x),
    {
        match self {
            AddressingMode::Indirect => Some(
                Pointer { low: make_word(high, low), high: make_word(high, increment(low)) },
            ),
            AddressingMode::IndirectX => Some(
                Pointer {
                    low: (low as u16 + x as u16) % 256,
                    high: (low as u16 + x as u16 + 1) % 256,
                },
            ),
            AddressingMode::IndirectY => Some(
                Pointer { low: low as u16, high: increment(low) as u16 },
            ),
            _ => None,
        }
    }

    /// The effective address of an operand, and whether it lies across a
    /// page boundary from where the index was added.
    pub fn resolve(
        &self,
        low: u8,
        high: u8,
        x: u8,
        y: u8,
        pc: u16,
        pointer_low: u8,
        pointer_high: u8,
    ) -> (resolved: Resolved)
        ensures
            resolved == self.resolve_spec(low, high, x, y, pc, pointer_low, pointer_high),
    {
        match self {
            AddressingMode::Accumulator | AddressingMode::Immediate | AddressingMode::Implied => {
                Resolved { address: None, crossed: false }
            },
            AddressingMode::Absolute => direct(make_word(high, low)),
            AddressingMode::AbsoluteX => indexed(make_word(high, low), x),
            AddressingMode::AbsoluteY => indexed(make_word(high, low), y),
            AddressingMode::Indirect | AddressingMode::IndirectX => direct(
                make_word(pointer_high, pointer_low),
            ),
            AddressingMode::IndirectY => indexed(make_word(pointer_high, pointer_low), y),
            AddressingMode::Relative => relative(pc, low),
            AddressingMode::ZeroPage => direct(low as u16),
            AddressingMode::ZeroPageX => zero_page(low, x),
            AddressingMode::ZeroPageY => zero_page(low, y),
        }
    }
}

/// The sixteen-bit word with the given high and low bytes.
pub fn make_word(high: u8, low: u8) -> (value: u16)
    ensures
        value == word(high, low),
{
    (high as u16) * 256 + low as u16
}

fn direct(address: u16) -> (resolved: Resolved)
    ensures
        resolved == direct_spec(address),
{
    Resolved { address: Some(address), crossed: false }
}

fn indexed(base: u16, index: u8) -> (resolved: Resolved)
    ensures
        resolved == indexed_spec(base, index),
{
    let address: u16 = ((base as u32 + index as u32) % 0x10000) as u16;
    Resolved { address: Some(address), crossed: base / 256 != address / 256 }
}

fn relative(pc: u16, offset: u8) -> (resolved: Resolved)
    ensures
        resolved == relative_spec(pc, offset),
{
    let target: u16 = if offset >= 0x80 {
        ((pc as u32 + 0x10000 + offset as u32 - 256) % 0x10000) as u16
    } else {
        ((pc as u32 + offset as u32) % 0x10000) as u16
    };
    Resolved { address: Some(target), crossed: pc / 256 != target / 256 }
}

fn zero_page(base: u8, index: u8) -> (resolved: Resolved)
    ensures
        resolved == zero_page_spec(base, index),
{
    Resolved { address: Some((base as u16 + index as u16) % 256), crossed: false }
}

impl Cpu {
    pub closed spec fn view(&self) -> CpuState {
        CpuState {
            registers: Registers {
                a: self.accumulator@,
                x: self.x_register@,
                y: self.y_register@,
                s: self.stack_pointer@,
                pc: self.program_counter@,
                p: self.status_register,
            },
            memory: self.memory@,
            branch_success: self.branch_success,
            page_crossing: self.page_crossing,
            current_instruction: self.current_instruction,
            current_cycle: self.current_cycle,
            instruction_cycle_count: self.instruction_cycle_count,
            interrupt_polling_cycle: self.interrupt_polling_cycle,
            interrupt_state: self.interrupt_state,
            nmi_line_prev: self.nmi_line_prev,
            nmi_line_current: self.nmi_line_current,
            nmi_line_triggered: self.nmi_line_triggered,
            irq_line_triggered: self.irq_line_triggered,
            total_cycles: self.total_cycles,
            instructions_executed: self.instructions_executed,
            debug: self.debug,
        }
    }

    /// The internal memory of every processor has its 2 KiB.
    pub proof fn lemma_memory_is_well_formed(&self)
        ensures
            self@.memory.wf(),
    {
        self.memory.lemma_view_is_well_formed();
    }

    /// Builds a processor around a cartridge image. The image must begin
    /// with the signature, be exactly as long as its header says, and name
    /// mapper 0 or mapper 1.
    pub fn get_cpu(rom: &[u8]) -> (result: Result<Cpu, MyGetCpuError>)
        ensures
            match result {
                Ok(cpu) => is_valid_image(rom@) && cpu@ == CpuState::power_on(
                    MemoryView::power_on(rom@),
                ) && cpu@.wf(),
                Err(MyGetCpuError::RomError(error)) => refuses(error, rom@),
            },
    {
        let memory = match Memory::new(rom) {
            Ok(memory) => memory,
            Err(error) => {
                return Err(MyGetCpuError::RomError(error));
            },
        };
        Ok(
            Cpu {
                accumulator: CpuRegister::default(),
                x_register: CpuRegister::default(),
                y_register: CpuRegister::default(),
                stack_pointer: CpuRegister::default(),
                program_counter: ProgramCounter::new(),
                status_register: StatusRegister::default(),
                current_instruction: Instruction {
                    instruction_type: InstructionType::NOP,
                    addressing_mode: AddressingMode::Absolute,
                },
                current_cycle: 1,
                instruction_cycle_count: 0,
                interrupt_polling_cycle: 0,
                interrupt_state: InterruptState::Uninitialized,
                nmi_line_prev: false,
                nmi_line_current: false,
                nmi_line_triggered: false,
                irq_line_triggered: false,
                branch_success: false,
                page_crossing: false,
                total_cycles: 0,
                instructions_executed: 0,
                debug: DebugMode::No,
                memory,
            },
        )
    }

    /// The number of cycles since the reset.
    pub fn total_cycles(&self) -> (cycles: u64)
        ensures
            cycles == self@.total_cycles,
    {
        self.total_cycles
    }

    /// The number of instructions executed since the reset.
    pub fn instructions_executed(&self) -> (count: u64)
        ensures
            count == self@.instructions_executed,
    {
        self.instructions_executed
    }

    /// The cycles that the current instruction takes.
    pub fn instruction_cycle_count(&self) -> (cycles: u8)
        ensures
            cycles == self@.instruction_cycle_count,
    {
        self.instruction_cycle_count
    }

    /// The cycle within the current instruction that comes next.
    pub fn current_cycle(&self) -> (cycle: u8)
        ensures
            cycle == self@.current_cycle,
    {
        self.current_cycle
    }

    /// What the processor does when the current instruction ends.
    pub fn interrupt_state(&self) -> (state: InterruptState)
        ensures
            state == self@.interrupt_state,
    {
        self.interrupt_state
    }

    /// The instruction that was executed last.
    pub fn current_instruction(&self) -> (instruction: Instruction)
        ensures
            instruction == self@.current_instruction,
    {
        self.current_instruction
    }

    /// The kind of trace.
    pub fn debug_mode(&self) -> (debug: DebugMode)
        ensures
            debug == self@.debug,
    {
        self.debug
    }

    /// The mirroring that the header of the cartridge asks for.
    pub fn get_mirroring(&self) -> (mirroring: crate::memory::Mirroring)
        ensures
            mirroring == self@.memory.header.mirroring,
    {
        self.memory.get_mirroring()
    }

    /// Whether the next cycle can run: the counters of the driver are
    /// within their bounds and the count of cycles has room for one more.
    pub fn can_tick(&self) -> (ready: bool)
        ensures
            ready == (self@.wf() && self@.total_cycles < u64::MAX),
    {
        self.current_cycle <= 11 && self.instruction_cycle_count <= 10 && self.instructions_executed
            <= self.total_cycles && self.total_cycles < u64::MAX && (self.interrupt_state
            != InterruptState::Uninitialized || (self.total_cycles == 0
            && self.instruction_cycle_count == 0 && self.interrupt_polling_cycle == 0
            && self.current_cycle >= 1 && self.current_instruction.instruction_type
            != InstructionType::JAM))
    }

    /// Moves the program counter.
    pub fn set_program_counter(&mut self, value: u16)
        ensures
            final(self)@ == old(self)@.with_registers(
                Registers { pc: value, ..old(self)@.registers },
            ),
    {
        self.program_counter.set(value);
    }

    /// Chooses the kind of trace.
    pub fn set_debug(&mut self, debug: DebugMode)
        ensures
            final(self)@ == (CpuState { debug, ..old(self)@ }),
    {
        self.debug = debug;
    }

    /// Looks at an address without changing anything; zero where nothing
    /// answers.
    pub fn memory_read(&self, address: u16) -> (value: u8)
        ensures
            value == self@.memory.peek(address),
    {
        self.memory.peek(address)
    }

    /// Writes a byte of character data for the picture unit. A write that
    /// finds no character data is dropped.
    pub fn ppu_memory_write(&mut self, address: u16, value: u8)
        ensures
            final(self)@ == (CpuState {
                memory: MemoryView {
                    cartridge: match old(self)@.memory.cartridge.write_chr(address, value) {
                        Some(after) => after,
                        None => old(self)@.memory.cartridge,
                    },
                    ..old(self)@.memory
                },
                ..old(self)@
            }),
    {
        let _ = self.memory.write_ppu_byte(address, value);
    }

    /// Reads a byte of character data for the picture unit; zero where
    /// there is none.
    pub fn ppu_read_chr_rom(&self, offset: u16) -> (value: u8)
        ensures
            value == match self@.memory.cartridge.read_chr(offset) {
                Some(byte) => byte,
                None => 0u8,
            },
    {
        match self.memory.read_ppu_byte(offset) {
            Ok(value) => value,
            Err(_) => 0,
        }
    }

    /// The picture unit raises the non-maskable interrupt line for this
    /// cycle.
    pub fn non_maskable_interrupt(&mut self)
        ensures
            final(self)@ == (CpuState { nmi_line_current: true, ..old(self)@ }),
    {
        self.on_non_maskable_interrupt();
    }

    /// Raises the non-maskable interrupt line for this cycle.
    pub fn on_non_maskable_interrupt(&mut self)
        ensures
            final(self)@ == (CpuState { nmi_line_current: true, ..old(self)@ }),
    {
        self.nmi_line_current = true;
    }

    /// A device asks for an interrupt.
    pub fn interrupt_request(&mut self)
        ensures
            final(self)@ == (CpuState { irq_line_triggered: true, ..old(self)@ }),
    {
        self.irq_line_triggered = true;
    }

    /// Reads a byte from the bus. Where nothing answers, the byte is zero.
    /// A register of the picture unit answers whatever the unit holds.
    pub(crate) fn read_byte(&mut self, address: u16, ppu: &mut Ppu) -> (value: u8)
        ensures
            final(self)@ == (CpuState {
                memory: old(self)@.memory.after_read(
                    address,
                    final(self)@.memory.controller.buttons,
                ),
                ..old(self)@
            }),
            !is_ppu_register(address) ==> value == old(self)@.memory.peek(address),
    {
        match self.memory.read(address, ppu) {
            Ok(value) => value,
            Err(_) => 0,
        }
    }

    /// Writes a byte to the bus. Where nothing answers, the byte is lost.
    pub(crate) fn write_byte(&mut self, address: u16, value: u8, ppu: &mut Ppu)
        ensures
            final(self)@ == old(self)@.stored(
                address,
                value,
                final(self)@.memory.controller.buttons,
            ),
    {
        let _ = self.memory.write(address, value, ppu);
    }

    /// The six registers.
    pub fn registers(&self) -> (registers: Registers)
        ensures
            registers == self@.registers,
    {
        Registers {
            a: self.accumulator.get(),
            x: self.x_register.get(),
            y: self.y_register.get(),
            s: self.stack_pointer.get(),
            pc: self.program_counter.get(),
            p: self.status_register,
        }
    }

    /// Gives the six registers new contents.
    pub fn set_registers(&mut self, registers: Registers)
        ensures
            final(self)@ == old(self)@.with_registers(registers),
    {
        self.accumulator.set(registers.a);
        self.x_register.set(registers.x);
        self.y_register.set(registers.y);
        self.stack_pointer.set(registers.s);
        self.program_counter.set(registers.pc);
        self.status_register = registers.p;
    }

    /// Pushes a byte on the stack.
    pub(crate) fn push(&mut self, value: u8, ppu: &mut Ppu)
        ensures
            final(self)@ == old(self)@.pushed(value),
    {
        let address: u16 = 0x100 + self.stack_pointer.get() as u16;
        self.write_byte(address, value, ppu);
        self.stack_pointer.decrement();
    }

    /// Pulls a byte from the stack.
    pub(crate) fn pull(&mut self, ppu: &mut Ppu) -> (value: u8)
        ensures
            final(self)@ == old(self)@.pulled(),
            value == old(self)@.top(),
    {
        self.stack_pointer.increment();
        let address: u16 = 0x100 + self.stack_pointer.get() as u16;
        self.read_byte(address, ppu)
    }

    /// Reads the byte at the program counter and moves the counter on.
    pub fn read_next_value(&mut self, ppu: &mut Ppu) -> (value: u8)
        ensures
            final(self)@ == (CpuState {
                registers: Registers {
                    pc: state::wrap16(old(self)@.registers.pc + 1),
                    ..old(self)@.registers
                },
                memory: old(self)@.memory.after_read(
                    old(self)@.registers.pc,
                    final(self)@.memory.controller.buttons,
                ),
                ..old(self)@
            }),
            !is_ppu_register(old(self)@.registers.pc) ==> value == old(self)@.memory.peek(
                old(self)@.registers.pc,
            ),
    {
        let value = self.read_byte(self.program_counter.get(), ppu);
        self.program_counter.increment();
        value
    }

    /// Finds the operand of an instruction: consumes its operand bytes,
    /// works out the effective address and, unless the instruction only
    /// writes, reads the operand.
    ///
    /// The registers other than the program counter stay as they are, the
    /// counter moves past the operand bytes, and the operand has an address
    /// and a value where the mode supplies them. Where the fetch stays
    /// clear of the picture unit and the controller, the operand and the
    /// state are those of [`CpuState::fetch`].
    pub fn get_operand_value(
        &mut self,
        addressing_mode: &AddressingMode,
        ppu: &mut Ppu,
        write_only: bool,
    ) -> (operand: OperandValue)
        ensures
            old(self)@.fetches_to(*addressing_mode, final(self)@),
            operand.address is Some <==> addressing_mode.supplies_address(),
            operand.value is Some <==> addressing_mode.supplies_value() && !(write_only
                && addressing_mode.supplies_address()),
            old(self)@.fetch_is_quiet(*addressing_mode, write_only) ==> operand == old(
                self,
            )@.fetch(*addressing_mode, write_only).operand && final(self)@ == old(self)@.fetch(
                *addressing_mode,
                write_only,
            ).state,
    {
        let (low, high) = self.read_operand_bytes(addressing_mode, ppu);
        let x = self.x_register.get();
        let y = self.y_register.get();
        let pointer = addressing_mode.pointer(low, high, x);
        let (pointer_low, pointer_high) = self.read_pointer(pointer, ppu);
        let resolved = addressing_mode.resolve(
            low,
            high,
            x,
            y,
            self.program_counter.get(),
            pointer_low,
            pointer_high,
        );
        self.mark_crossing(resolved.crossed);
        let value = match addressing_mode {
            AddressingMode::Accumulator => Some(self.accumulator.get()),
            AddressingMode::Immediate => Some(low),
            AddressingMode::Implied | AddressingMode::Relative => None,
            _ => if write_only {
                None
            } else {
                Some(self.read_operand(resolved.address, ppu))
            },
        };
        let operand = OperandValue { value, address: resolved.address };
        proof {
            if old(self)@.fetch_is_quiet(*addressing_mode, write_only) {
                reveal(CpuState::fetch);
                reveal(CpuState::fetch_is_quiet);
                assert(operand == old(self)@.fetch(*addressing_mode, write_only).operand);
                assert(self@ == old(self)@.fetch(*addressing_mode, write_only).state);
            }
        }
        operand
    }

    /// Leaves a mark where an operand lay across a page boundary.
    fn mark_crossing(&mut self, crossed: bool)
        ensures
            final(self)@ == (CpuState {
                page_crossing: old(self)@.page_crossing || crossed,
                ..old(self)@
            }),
    {
        if crossed {
            self.page_crossing = true;
        }
    }

    /// Consumes the operand bytes of an instruction.
    fn read_operand_bytes(&mut self, addressing_mode: &AddressingMode, ppu: &mut Ppu) -> (bytes: (
        u8,
        u8,
    ))
        ensures
            final(self)@ == (CpuState {
                registers: Registers {
                    pc: state::wrap16(old(self)@.registers.pc + addressing_mode.operand_bytes()),
                    ..old(self)@.registers
                },
                memory: MemoryView {
                    controller: final(self)@.memory.controller,
                    ..old(self)@.memory
                },
                ..old(self)@
            }),
            addressing_mode.operand_bytes() == 0 ==> bytes == (0u8, 0u8) && final(self)@ == old(
                self,
            )@,
            addressing_mode.operand_bytes() == 1 && is_quiet(old(self)@.registers.pc) ==> bytes == (
                old(self)@.memory.peek(old(self)@.registers.pc),
                0u8,
            ) && final(self)@.memory == old(self)@.memory,
            addressing_mode.operand_bytes() == 2 && is_quiet(old(self)@.registers.pc) && is_quiet(
                state::wrap16(old(self)@.registers.pc + 1),
            ) ==> bytes == (
                old(self)@.memory.peek(old(self)@.registers.pc),
                old(self)@.memory.peek(state::wrap16(old(self)@.registers.pc + 1)),
            ) && final(self)@.memory == old(self)@.memory,
    {
        let length = addressing_mode.length();
        if length == 1 {
            (0, 0)
        } else if length == 2 {
            let low = self.read_next_value(ppu);
            (low, 0)
        } else {
            let low = self.read_next_value(ppu);
            let high = self.read_next_value(ppu);
            (low, high)
        }
    }

    /// Reads the two bytes of a pointer, if the mode has one.
    fn read_pointer(&mut self, pointer: Option<Pointer>, ppu: &mut Ppu) -> (bytes: (u8, u8))
        ensures
            final(self)@ == (CpuState {
                memory: MemoryView {
                    controller: final(self)@.memory.controller,
                    ..old(self)@.memory
                },
                ..old(self)@
            }),
            pointer is None ==> bytes == (0u8, 0u8) && final(self)@ == old(self)@,
            pointer matches Some(at) ==> (is_quiet(at.low) && is_quiet(at.high) ==> bytes == (
                old(self)@.memory.peek(at.low),
                old(self)@.memory.peek(at.high),
            ) && final(self)@ == old(self)@),
    {
        match pointer {
            Some(at) => {
                let low = self.read_byte(at.low, ppu);
                let high = self.read_byte(at.high, ppu);
                (low, high)
            },
            None => (0, 0),
        }
    }

    /// Reads the operand at its effective address.
    fn read_operand(&mut self, address: Option<u16>, ppu: &mut Ppu) -> (value: u8)
        ensures
            final(self)@ == (CpuState {
                memory: MemoryView {
                    controller: final(self)@.memory.controller,
                    ..old(self)@.memory
                },
                ..old(self)@
            }),
            address matches Some(at) ==> (is_quiet(at) ==> value == old(self)@.memory.peek(at)
                && final(self)@ == old(self)@),
    {
        match address {
            Some(at) => self.read_byte(at, ppu),
            None => 0,
        }
    }
}

} // verus!
