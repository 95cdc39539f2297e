//! The state of the processor as a mathematical value, and what each
//! instruction makes of it.

use crate::bits::has_bit;
use crate::cpu::alu::{
    add_spec, compare_spec, decremented, incremented, is_negative, shift_left_spec,
    shift_right_spec, signed, subtract_spec, Comparison, Shifted, Sum,
};
use crate::cpu::debug::DebugMode;
use crate::cpu::instructions::{
    cycle_table, decode_spec, AddressingMode, Instruction, InstructionType,
};
use crate::cpu::interrupt_handler::InterruptState;
use crate::cpu::registers::{word, StatusRegister};
use crate::cpu::OperandValue;
use crate::memory::controller::Buttons;
use crate::memory::{is_quiet, MemoryView};
use vstd::prelude::*;

verus! {

/// The constant that the unstable undocumented instructions mix into the
/// accumulator.
pub const MAGIC: u8 = 0xFF;

/// The address at which a non-maskable interrupt finds its handler.
pub const NMI_VECTOR: u16 = 0xFFFA;

/// The address at which a reset finds the first instruction.
pub const RESET_VECTOR: u16 = 0xFFFC;

/// The address at which an interrupt request and BRK find their handler.
pub const IRQ_VECTOR: u16 = 0xFFFE;

/// The number modulo `2^16`.
pub open spec fn wrap16(value: int) -> u16 {
    (value % 0x10000) as u16
}

/// Whether two addresses lie in different pages of 256 bytes.
pub open spec fn page_crossed(from: u16, to: u16) -> bool {
    from / 256 != to / 256
}

/// The address of the stack byte that a stack pointer points at.
pub open spec fn stack_address(pointer: u8) -> u16 {
    (0x100 + pointer) as u16
}

/// One more than the high byte of an address, modulo 256.
pub open spec fn high_byte_plus_one(address: u16) -> u8 {
    ((address / 256 + 1) % 256) as u8
}

/// An address with an index register added to it, the carry going into
/// the high byte, and whether that moved the address to another page.
pub open spec fn indexed_spec(base: u16, index: u8) -> Resolved {
    Resolved {
        address: Some(wrap16(base + index)),
        crossed: page_crossed(base, wrap16(base + index)),
    }
}

/// The target of a branch: the program counter behind the operand plus
/// the operand read as a signed byte, and whether the target lies in
/// another page.
pub open spec fn relative_spec(pc: u16, offset: u8) -> Resolved {
    Resolved {
        address: Some(wrap16(pc + signed(offset))),
        crossed: page_crossed(pc, wrap16(pc + signed(offset))),
    }
}

/// An address in the zero page with an index register added to it; the
/// sum stays in the zero page.
pub open spec fn zero_page_spec(base: u8, index: u8) -> Resolved {
    Resolved { address: Some(((base + index) % 256) as u16), crossed: false }
}

/// An address that needs no index.
pub open spec fn direct_spec(address: u16) -> Resolved {
    Resolved { address: Some(address), crossed: false }
}

/// The two addresses that hold a pointer.
#[derive(Clone, Copy, Debug, PartialEq, Eq, Structural)]
pub struct Pointer {
    pub low: u16,
    pub high: u16,
}

/// The effective address of an operand, and whether finding it crossed a
/// page.
#[derive(Clone, Copy, Debug, PartialEq, Eq, Structural)]
pub struct Resolved {
    pub address: Option<u16>,
    pub crossed: bool,
}

impl AddressingMode {
    /// Where an indirect mode finds its pointer, given the operand bytes
    /// `low` and `high` and the X register. The high byte of a pointer is
    /// taken from the page of its low byte: a pointer at `$xxFF` has its
    /// high byte at `$xx00`, and a pointer in the zero page stays there.
    pub open spec fn pointer_spec(self, low: u8, high: u8, x: u8) -> Option<Pointer> {
        match self {
            AddressingMode::Indirect => Some(
                Pointer { low: word(high, low), high: word(high, incremented(low)) },
            ),
            AddressingMode::IndirectX => Some(
                Pointer {
                    low: ((low + x) % 256) as u16,
                    high: ((low + x + 1) % 256) as u16,
                },
            ),
            AddressingMode::IndirectY => Some(
                Pointer { low: low as u16, high: incremented(low) as u16 },
            ),
            _ => None,
        }
    }

    /// The effective address, given the operand bytes, the index
    /// registers, the program counter behind the operand and, for the
    /// indirect modes, the two bytes of the pointer.
    pub open spec fn resolve_spec(
        self,
        low: u8,
        high: u8,
        x: u8,
        y: u8,
        pc: u16,
        pointer_low: u8,
        pointer_high: u8,
    ) -> Resolved {
        match self {
            AddressingMode::Accumulator | AddressingMode::Immediate | AddressingMode::Implied => {
                Resolved { address: None, crossed: false }
            },
            AddressingMode::Absolute => direct_spec(word(high, low)),
            AddressingMode::AbsoluteX => indexed_spec(word(high, low), x),
            AddressingMode::AbsoluteY => indexed_spec(word(high, low), y),
            AddressingMode::Indirect | AddressingMode::IndirectX => direct_spec(
                word(pointer_high, pointer_low),
            ),
            AddressingMode::IndirectY => indexed_spec(word(pointer_high, pointer_low), y),
            AddressingMode::Relative => relative_spec(pc, low),
            AddressingMode::ZeroPage => direct_spec(low as u16),
            AddressingMode::ZeroPageX => zero_page_spec(low, x),
            AddressingMode::ZeroPageY => zero_page_spec(low, y),
        }
    }
}

/// The six registers of the processor.
#[derive(Clone, Copy, Debug, PartialEq, Eq, Structural)]
pub struct Registers {
    pub a: u8,
    pub x: u8,
    pub y: u8,
    pub s: u8,
    pub pc: u16,
    pub p: StatusRegister,
}

/// A byte on its way to the bus.
#[derive(Clone, Copy, Debug, PartialEq, Eq, Structural)]
pub struct Store {
    pub address: u16,
    pub value: u8,
}

/// What an instruction that leaves the stack alone does: the registers
/// afterwards, the byte it writes to the bus if it writes one, and for a
/// conditional branch whether it was taken.
#[derive(Clone, Copy, Debug, PartialEq, Eq, Structural)]
pub struct Outcome {
    pub registers: Registers,
    pub store: Option<Store>,
    pub branch: Option<bool>,
}

impl Registers {
    /// The registers with the zero and negative flags set from a byte.
    pub open spec fn with_zn(self, value: u8) -> Registers {
        Registers { p: self.p.with_zn(value), ..self }
    }

    /// The registers with a byte in the accumulator and the flags set from
    /// it.
    pub open spec fn with_a(self, value: u8) -> Registers {
        Registers { a: value, ..self }.with_zn(value)
    }

    /// The registers with a byte in the X register and the flags set from
    /// it.
    pub open spec fn with_x(self, value: u8) -> Registers {
        Registers { x: value, ..self }.with_zn(value)
    }

    /// The registers with a byte in the Y register and the flags set from
    /// it.
    pub open spec fn with_y(self, value: u8) -> Registers {
        Registers { y: value, ..self }.with_zn(value)
    }

    /// The registers with the carry flag given.
    pub open spec fn with_carry(self, carry: bool) -> Registers {
        Registers { p: StatusRegister { carry_bit: carry, ..self.p }, ..self }
    }

    /// The registers after a sum has gone to the accumulator.
    pub open spec fn with_sum(self, sum: Sum) -> Registers {
        Registers {
            a: sum.value,
            p: StatusRegister {
                carry_bit: sum.carry,
                overflow_bit: sum.overflow,
                ..self.p.with_zn(sum.value)
            },
            ..self
        }
    }

    /// The registers with the flags of a comparison.
    pub open spec fn with_comparison(self, comparison: Comparison) -> Registers {
        Registers {
            p: StatusRegister {
                carry_bit: comparison.carry,
                zero_bit: comparison.zero,
                negative_bit: comparison.negative,
                ..self.p
            },
            ..self
        }
    }

    /// An outcome without a store.
    pub open spec fn kept(self) -> Outcome {
        Outcome { registers: self, store: None, branch: None }
    }

    /// An outcome with a store.
    pub open spec fn storing(self, address: u16, value: u8) -> Outcome {
        Outcome { registers: self, store: Some(Store { address, value }), branch: None }
    }

    /// The outcome of a shift or rotation: the result goes where the
    /// operand came from, memory or the accumulator.
    pub open spec fn shifting(self, shifted: Shifted, operand: OperandValue) -> Outcome {
        let flagged = self.with_carry(shifted.carry).with_zn(shifted.value);
        match operand.address {
            Some(address) => flagged.storing(address, shifted.value),
            None => Registers { a: shifted.value, ..flagged }.kept(),
        }
    }

    /// The outcome of a conditional branch.
    pub open spec fn branching(self, taken: bool, target: u16) -> Outcome {
        Outcome {
            registers: if taken {
                Registers { pc: target, ..self }
            } else {
                self
            },
            store: None,
            branch: Some(taken),
        }
    }

    /// What a load, a store or a register transfer does.
    #[verifier::opaque]
    pub open spec fn transfer(self, kind: InstructionType, operand: OperandValue) -> Outcome {
        let m = operand.byte();
        let address = operand.place();
        match kind {
            InstructionType::LDA => self.with_a(m).kept(),
            InstructionType::LDX => self.with_x(m).kept(),
            InstructionType::LDY => self.with_y(m).kept(),
            InstructionType::LAX => Registers { x: m, ..self }.with_a(m).kept(),
            InstructionType::STA => self.storing(address, self.a),
            InstructionType::STX => self.storing(address, self.x),
            InstructionType::STY => self.storing(address, self.y),
            InstructionType::SAX => self.storing(address, self.a & self.x),
            InstructionType::TAX => self.with_x(self.a).kept(),
            InstructionType::TAY => self.with_y(self.a).kept(),
            InstructionType::TSX => self.with_x(self.s).kept(),
            InstructionType::TXA => self.with_a(self.x).kept(),
            InstructionType::TXS => Registers { s: self.x, ..self }.kept(),
            InstructionType::TYA => self.with_a(self.y).kept(),
            _ => self.kept(),
        }
    }

    /// What a flag instruction does. NOP and JAM do nothing.
    #[verifier::opaque]
    pub open spec fn flag(self, kind: InstructionType) -> Outcome {
        match kind {
            InstructionType::CLC => self.with_carry(false).kept(),
            InstructionType::CLD => Registers {
                p: StatusRegister { decimal_bit: false, ..self.p },
                ..self
            }.kept(),
            InstructionType::CLI => Registers {
                p: StatusRegister { interrupt_bit: false, ..self.p },
                ..self
            }.kept(),
            InstructionType::CLV => Registers {
                p: StatusRegister { overflow_bit: false, ..self.p },
                ..self
            }.kept(),
            InstructionType::SEC => self.with_carry(true).kept(),
            InstructionType::SED => Registers {
                p: StatusRegister { decimal_bit: true, ..self.p },
                ..self
            }.kept(),
            InstructionType::SEI => Registers {
                p: StatusRegister { interrupt_bit: true, ..self.p },
                ..self
            }.kept(),
            _ => self.kept(),
        }
    }

    /// What an increment, a sum, a logic operation, a shift or a
    /// comparison does.
    #[verifier::opaque]
    pub open spec fn arithmetic(self, kind: InstructionType, operand: OperandValue) -> Outcome {
        let m = operand.byte();
        let address = operand.place();
        let carry = self.p.carry_bit;
        match kind {
            InstructionType::DEC => self.with_zn(decremented(m)).storing(address, decremented(m)),
            InstructionType::DEX => self.with_x(decremented(self.x)).kept(),
            InstructionType::DEY => self.with_y(decremented(self.y)).kept(),
            InstructionType::INC => self.with_zn(incremented(m)).storing(address, incremented(m)),
            InstructionType::INX => self.with_x(incremented(self.x)).kept(),
            InstructionType::INY => self.with_y(incremented(self.y)).kept(),
            InstructionType::ADC => self.with_sum(add_spec(self.a, m, carry)).kept(),
            InstructionType::SBC | InstructionType::USBC => self.with_sum(
                subtract_spec(self.a, m, carry),
            ).kept(),
            InstructionType::AND => self.with_a(self.a & m).kept(),
            InstructionType::EOR => self.with_a(self.a ^ m).kept(),
            InstructionType::ORA => self.with_a(self.a | m).kept(),
            InstructionType::ASL => self.shifting(shift_left_spec(m, false), operand),
            InstructionType::LSR => self.shifting(shift_right_spec(m, false), operand),
            InstructionType::ROL => self.shifting(shift_left_spec(m, carry), operand),
            InstructionType::ROR => self.shifting(shift_right_spec(m, carry), operand),
            InstructionType::CMP => self.with_comparison(compare_spec(self.a, m)).kept(),
            InstructionType::CPX => self.with_comparison(compare_spec(self.x, m)).kept(),
            InstructionType::CPY => self.with_comparison(compare_spec(self.y, m)).kept(),
            InstructionType::BIT => Registers {
                p: StatusRegister {
                    zero_bit: self.a & m == 0,
                    negative_bit: is_negative(m),
                    overflow_bit: has_bit(m, 64),
                    ..self.p
                },
                ..self
            }.kept(),
            _ => self.kept(),
        }
    }

    /// What a branch or a jump does.
    #[verifier::opaque]
    pub open spec fn branch(self, kind: InstructionType, operand: OperandValue) -> Outcome {
        let address = operand.place();
        match kind {
            InstructionType::BCC => self.branching(!self.p.carry_bit, address),
            InstructionType::BCS => self.branching(self.p.carry_bit, address),
            InstructionType::BEQ => self.branching(self.p.zero_bit, address),
            InstructionType::BMI => self.branching(self.p.negative_bit, address),
            InstructionType::BNE => self.branching(!self.p.zero_bit, address),
            InstructionType::BPL => self.branching(!self.p.negative_bit, address),
            InstructionType::BVC => self.branching(!self.p.overflow_bit, address),
            InstructionType::BVS => self.branching(self.p.overflow_bit, address),
            InstructionType::JMP => Registers { pc: address, ..self }.kept(),
            _ => self.kept(),
        }
    }

    /// What an undocumented instruction does. Most of them do the work of
    /// two documented ones on the same operand.
    #[verifier::opaque]
    pub open spec fn undocumented(self, kind: InstructionType, operand: OperandValue) -> Outcome {
        let m = operand.byte();
        let address = operand.place();
        let carry = self.p.carry_bit;
        match kind {
            InstructionType::ALR => self.with_a(shift_right_spec(self.a & m, false).value).with_carry(
                shift_right_spec(self.a & m, false).carry,
            ).kept(),
            InstructionType::ANC => self.with_a(self.a & m).with_carry(
                is_negative(self.a & m),
            ).kept(),
            InstructionType::ANE => self.with_a((self.a | MAGIC) & self.x & m).kept(),
            InstructionType::ARR => {
                let rotated = shift_right_spec(self.a & m, carry).value;
                Registers {
                    p: StatusRegister {
                        carry_bit: has_bit(rotated, 64),
                        overflow_bit: has_bit(rotated, 64) != has_bit(rotated, 32),
                        ..self.p.with_zn(rotated)
                    },
                    a: rotated,
                    ..self
                }.kept()
            },
            InstructionType::DCP => self.with_comparison(
                compare_spec(self.a, decremented(m)),
            ).storing(address, decremented(m)),
            InstructionType::ISC => self.with_sum(
                subtract_spec(self.a, incremented(m), carry),
            ).storing(address, incremented(m)),
            InstructionType::LAS => Registers { x: m & self.s, s: m & self.s, ..self }.with_a(
                m & self.s,
            ).kept(),
            InstructionType::LXA => Registers { x: (self.a | MAGIC) & m, ..self }.with_a(
                (self.a | MAGIC) & m,
            ).kept(),
            InstructionType::RLA => self.with_carry(shift_left_spec(m, carry).carry).with_a(
                self.a & shift_left_spec(m, carry).value,
            ).storing(address, shift_left_spec(m, carry).value),
            InstructionType::RRA => self.with_sum(
                add_spec(
                    self.a,
                    shift_right_spec(m, carry).value,
                    shift_right_spec(m, carry).carry,
                ),
            ).storing(address, shift_right_spec(m, carry).value),
            InstructionType::SBX => Registers {
                x: (((self.a & self.x) - m) % 256) as u8,
                ..self
            }.with_comparison(compare_spec(self.a & self.x, m)).kept(),
            InstructionType::SHA => self.storing(
                address,
                self.a & self.x & high_byte_plus_one(address),
            ),
            InstructionType::SHX => self.storing(address, self.x & high_byte_plus_one(address)),
            InstructionType::SHY => self.storing(address, self.y & high_byte_plus_one(address)),
            InstructionType::SLO => self.with_carry(shift_left_spec(m, false).carry).with_a(
                self.a | shift_left_spec(m, false).value,
            ).storing(address, shift_left_spec(m, false).value),
            InstructionType::SRE => self.with_carry(shift_right_spec(m, false).carry).with_a(
                self.a ^ shift_right_spec(m, false).value,
            ).storing(address, shift_right_spec(m, false).value),
            InstructionType::TAS => Registers { s: self.a & self.x, ..self }.storing(
                address,
                self.a & self.x & high_byte_plus_one(address),
            ),
            _ => self.kept(),
        }
    }

    /// What an instruction that leaves the stack alone does, given its
    /// operand.
    pub open spec fn compute_spec(self, kind: InstructionType, operand: OperandValue) -> Outcome {
        if kind.is_transfer() {
            self.transfer(kind, operand)
        } else if kind.is_flag_or_idle() {
            self.flag(kind)
        } else if kind.is_arithmetic() {
            self.arithmetic(kind, operand)
        } else if kind.is_branch() || kind == InstructionType::JMP {
            self.branch(kind, operand)
        } else {
            self.undocumented(kind, operand)
        }
    }
}

/// The processor and what is behind its bus.
pub struct CpuState {
    pub registers: Registers,
    pub memory: MemoryView,
    /// Whether the last branch was taken.
    pub branch_success: bool,
    /// Whether the last operand lay across a page boundary.
    pub page_crossing: bool,
    pub current_instruction: Instruction,
    pub current_cycle: u8,
    pub instruction_cycle_count: u8,
    pub interrupt_polling_cycle: u8,
    pub interrupt_state: InterruptState,
    pub nmi_line_prev: bool,
    pub nmi_line_current: bool,
    pub nmi_line_triggered: bool,
    pub irq_line_triggered: bool,
    pub total_cycles: u64,
    pub instructions_executed: u64,
    pub debug: DebugMode,
}

/// The part of the state that belongs to the cycle driver alone.
pub struct Driver {
    pub current_instruction: Instruction,
    pub current_cycle: u8,
    pub instruction_cycle_count: u8,
    pub interrupt_polling_cycle: u8,
    pub interrupt_state: InterruptState,
    pub nmi_line_prev: bool,
    pub nmi_line_current: bool,
    pub nmi_line_triggered: bool,
    pub irq_line_triggered: bool,
    pub total_cycles: u64,
    pub instructions_executed: u64,
    pub debug: DebugMode,
}

/// An operand and the state in which the processor holds it.
pub struct Fetched {
    pub operand: OperandValue,
    pub state: CpuState,
}

impl CpuState {
    /// Whether the counters of the driver are within their bounds, and a
    /// processor that has not been reset yet has not counted anything.
    pub open spec fn wf(self) -> bool {
        &&& self.current_cycle <= 11
        &&& self.instruction_cycle_count <= 10
        &&& self.instructions_executed <= self.total_cycles
        &&& self.interrupt_state == InterruptState::Uninitialized ==> {
            &&& self.total_cycles == 0
            &&& self.instruction_cycle_count == 0
            &&& self.interrupt_polling_cycle == 0
            &&& self.current_cycle >= 1
            &&& self.current_instruction.instruction_type != InstructionType::JAM
        }
    }

    /// What the cycle driver keeps for itself; no instruction touches it.
    pub open spec fn driver(self) -> Driver {
        Driver {
            current_instruction: self.current_instruction,
            current_cycle: self.current_cycle,
            instruction_cycle_count: self.instruction_cycle_count,
            interrupt_polling_cycle: self.interrupt_polling_cycle,
            interrupt_state: self.interrupt_state,
            nmi_line_prev: self.nmi_line_prev,
            nmi_line_current: self.nmi_line_current,
            nmi_line_triggered: self.nmi_line_triggered,
            irq_line_triggered: self.irq_line_triggered,
            total_cycles: self.total_cycles,
            instructions_executed: self.instructions_executed,
            debug: self.debug,
        }
    }

    /// The state with other registers.
    pub open spec fn with_registers(self, registers: Registers) -> CpuState {
        CpuState { registers, ..self }
    }

    /// The state after a byte has been written to the bus.
    pub open spec fn stored(self, address: u16, value: u8, joypad: Buttons) -> CpuState {
        CpuState { memory: self.memory.write(address, value, joypad), ..self }
    }

    /// The state after a byte has been pushed: the byte is in the internal
    /// memory where the stack pointer points, and the pointer has moved
    /// down.
    pub open spec fn pushed(self, value: u8) -> CpuState {
        CpuState {
            memory: MemoryView {
                ram: self.memory.ram.update(stack_address(self.registers.s) as int, value),
                ..self.memory
            },
            registers: Registers { s: decremented(self.registers.s), ..self.registers },
            ..self
        }
    }

    /// The byte that a pull yields: the one in the internal memory above
    /// the stack pointer.
    pub open spec fn top(self) -> u8 {
        self.memory.ram[stack_address(incremented(self.registers.s)) as int]
    }

    /// The state after a pull: the stack pointer has moved up.
    pub open spec fn pulled(self) -> CpuState {
        CpuState {
            registers: Registers { s: incremented(self.registers.s), ..self.registers },
            ..self
        }
    }

    /// The state with a program counter and status flags.
    pub open spec fn resumed(self, pc: u16, p: StatusRegister) -> CpuState {
        CpuState { registers: Registers { pc, p, ..self.registers }, ..self }
    }

    /// The address stored at a vector.
    pub open spec fn vector(self, vector: u16) -> u16 {
        word(self.memory.peek((vector + 1) as u16), self.memory.peek(vector))
    }

    /// The state after the program counter and the status byte have been
    /// pushed, the interrupt flag has been set and the program counter has
    /// been loaded from a vector.
    pub open spec fn interrupted(self, return_address: u16, status: u8, vector: u16) -> CpuState {
        let saved = self.pushed((return_address / 256) as u8).pushed(
            (return_address % 256) as u8,
        ).pushed(status);
        saved.resumed(
            saved.vector(vector),
            StatusRegister { interrupt_bit: true, ..saved.registers.p },
        )
    }

    /// What an instruction that pushes or pulls makes of the state: the
    /// stack instructions, the subroutine call and return, the break and
    /// the return from an interrupt.
    #[verifier::opaque]
    pub open spec fn apply_stack(self, kind: InstructionType, operand: OperandValue) -> CpuState {
        let registers = self.registers;
        match kind {
            InstructionType::PHA => self.pushed(registers.a),
            InstructionType::PHP => self.pushed(registers.p.stack_byte() as u8),
            InstructionType::PLA => self.pulled().with_registers(
                self.pulled().registers.with_a(self.top()),
            ),
            InstructionType::PLP => self.pulled().resumed(
                registers.pc,
                StatusRegister::from_byte(self.top()),
            ),
            InstructionType::JSR => self.pushed((wrap16(registers.pc - 1) / 256) as u8).pushed(
                (wrap16(registers.pc - 1) % 256) as u8,
            ).resumed(operand.place(), registers.p),
            InstructionType::RTS => self.pulled().pulled().resumed(
                wrap16(word(self.pulled().top(), self.top()) + 1),
                registers.p,
            ),
            InstructionType::BRK => self.interrupted(
                wrap16(registers.pc + 1),
                registers.p.stack_byte() as u8,
                IRQ_VECTOR,
            ),
            InstructionType::RTI => self.pulled().pulled().pulled().resumed(
                word(self.pulled().pulled().top(), self.pulled().top()),
                StatusRegister::from_byte(self.top()),
            ),
            _ => self,
        }
    }

    /// The state after an outcome has taken effect: the registers are
    /// those of the outcome, its byte is written, and a branch leaves word
    /// of whether it was taken. A branch not taken costs nothing for a
    /// page crossing.
    pub open spec fn committed(self, outcome: Outcome, joypad: Buttons) -> CpuState {
        let written = match outcome.store {
            Some(store) => self.memory.write(store.address, store.value, joypad),
            None => self.memory,
        };
        CpuState {
            registers: outcome.registers,
            memory: written,
            branch_success: match outcome.branch {
                Some(taken) => taken,
                None => self.branch_success,
            },
            page_crossing: self.page_crossing && outcome.branch != Some(false),
            ..self
        }
    }

    /// What an instruction makes of the state, given its operand. `joypad`
    /// is what the player holds; it shows in the result only when the
    /// instruction writes to the first controller with the strobe bit set.
    #[verifier::opaque]
    pub open spec fn apply(
        self,
        instruction: Instruction,
        operand: OperandValue,
        joypad: Buttons,
    ) -> CpuState {
        let kind = instruction.instruction_type;
        if kind.uses_stack() {
            self.apply_stack(kind, operand)
        } else {
            self.committed(self.registers.compute_spec(kind, operand), joypad)
        }
    }

    /// The operand that an addressing mode finds, and the state after the
    /// operand bytes have been consumed. This describes a fetch that stays
    /// clear of the picture unit and the controller, where a read finds
    /// what a look finds and changes nothing.
    #[verifier::opaque]
    pub open spec fn fetch(self, mode: AddressingMode, write_only: bool) -> Fetched {
        let low = if mode.operand_bytes() >= 1 {
            self.memory.peek(self.registers.pc)
        } else {
            0
        };
        let high = if mode.operand_bytes() == 2 {
            self.memory.peek(wrap16(self.registers.pc + 1))
        } else {
            0
        };
        let pc = wrap16(self.registers.pc + mode.operand_bytes());
        let pointer = mode.pointer_spec(low, high, self.registers.x);
        let pointer_low = match pointer {
            Some(pointer) => self.memory.peek(pointer.low),
            None => 0,
        };
        let pointer_high = match pointer {
            Some(pointer) => self.memory.peek(pointer.high),
            None => 0,
        };
        let resolved = mode.resolve_spec(
            low,
            high,
            self.registers.x,
            self.registers.y,
            pc,
            pointer_low,
            pointer_high,
        );
        Fetched {
            operand: OperandValue {
                value: match mode {
                    AddressingMode::Accumulator => Some(self.registers.a),
                    AddressingMode::Immediate => Some(low),
                    AddressingMode::Implied | AddressingMode::Relative => None,
                    _ => if write_only {
                        None
                    } else {
                        Some(self.memory.peek(resolved.address->0))
                    },
                },
                address: resolved.address,
            },
            state: CpuState {
                registers: Registers { pc, ..self.registers },
                page_crossing: self.page_crossing || resolved.crossed,
                ..self
            },
        }
    }

    /// Whether the fetch of an operand stays clear of the picture unit and
    /// the controller: the operand bytes, the pointer bytes and the operand
    /// itself are all read at quiet addresses.
    #[verifier::opaque]
    pub open spec fn fetch_is_quiet(self, mode: AddressingMode, write_only: bool) -> bool {
        let low = self.memory.peek(self.registers.pc);
        let high = if mode.operand_bytes() == 2 {
            self.memory.peek(wrap16(self.registers.pc + 1))
        } else {
            0
        };
        let pointer = mode.pointer_spec(low, high, self.registers.x);
        let fetched = self.fetch(mode, write_only);
        &&& mode.operand_bytes() >= 1 ==> is_quiet(self.registers.pc)
        &&& mode.operand_bytes() == 2 ==> is_quiet(wrap16(self.registers.pc + 1))
        &&& pointer matches Some(pointer) ==> is_quiet(pointer.low) && is_quiet(pointer.high)
        &&& (mode.supplies_address() && mode != AddressingMode::Relative && !write_only)
            ==> is_quiet(fetched.operand.address->0)
    }

    /// Whether `after` can be the state after some bytes have been read off
    /// the program counter and an operand has been found, whatever was
    /// read: the program counter has moved past the bytes, and nothing else
    /// has changed but the mark of a page crossing and the controller port.
    pub open spec fn advances_to(self, bytes: int, after: CpuState) -> bool {
        after == (CpuState {
            registers: Registers { pc: wrap16(self.registers.pc + bytes), ..self.registers },
            page_crossing: after.page_crossing,
            memory: MemoryView { controller: after.memory.controller, ..self.memory },
            ..self
        })
    }

    /// Whether `after` can be the state after the fetch of an operand in
    /// this state, whatever was read.
    pub open spec fn fetches_to(self, mode: AddressingMode, after: CpuState) -> bool {
        self.advances_to(mode.operand_bytes(), after)
    }

    /// Whether `after` can be the state after the next instruction has
    /// been fetched and executed and its cycles counted, whatever was
    /// read: some opcode has been decoded, the program counter has moved
    /// past the instruction, and the instruction has done its work on some
    /// operand.
    #[verifier::opaque]
    pub open spec fn steps_to(self, after: CpuState, joypad: Buttons) -> bool {
        exists|opcode: u8, fetched: CpuState, operand: OperandValue|
            self.advances_to(1 + decode_spec(opcode).addressing_mode.operand_bytes(), fetched)
                && after == (#[trigger] fetched.apply(
                decode_spec(opcode),
                operand,
                joypad,
            )).scheduled(opcode, decode_spec(opcode))
    }

    /// What the execution of an instruction makes of the state: the fetch
    /// of its operand, then its effect.
    pub open spec fn execute(self, instruction: Instruction, joypad: Buttons) -> CpuState {
        let fetched = self.fetch(
            instruction.addressing_mode,
            instruction.instruction_type.is_write_only(),
        );
        fetched.state.apply(instruction, fetched.operand, joypad)
    }

    /// The interrupt that waits to be served: a non-maskable interrupt
    /// before an interrupt request.
    pub open spec fn pending(self) -> InterruptState {
        if self.nmi_line_triggered {
            InterruptState::NMI
        } else if self.irq_line_triggered {
            InterruptState::IRQ
        } else {
            InterruptState::NormalOperation
        }
    }

    /// The state after the interrupt lines have been polled: both
    /// latches are clear.
    pub open spec fn polled(self) -> CpuState {
        CpuState { nmi_line_triggered: false, irq_line_triggered: false, ..self }
    }

    /// The first step of a cycle. On the polling cycle of the current
    /// instruction the interrupt lines are polled, and what waits there is
    /// what the processor does next; an interrupt request counts for
    /// nothing while the interrupt flag is set.
    pub open spec fn sampled(self) -> CpuState {
        if self.current_cycle == self.interrupt_polling_cycle {
            CpuState {
                interrupt_state: if self.pending() == InterruptState::IRQ
                    && self.registers.p.interrupt_bit {
                    InterruptState::NormalOperation
                } else {
                    self.pending()
                },
                ..self.polled()
            }
        } else {
            self
        }
    }

    /// The state after a reset: the program counter comes from the reset
    /// vector, the stack pointer is `$FD`, the interrupt flag is set and
    /// the counters start again. Nothing is pushed.
    pub open spec fn reset(self) -> CpuState {
        CpuState {
            registers: Registers {
                pc: self.vector(RESET_VECTOR),
                s: 0xFD,
                p: StatusRegister { interrupt_bit: true, ..self.registers.p },
                ..self.registers
            },
            interrupt_polling_cycle: 0,
            total_cycles: 0,
            instructions_executed: 0,
            interrupt_state: InterruptState::Booting,
            ..self
        }
    }

    /// The state after the processor has entered an interrupt handler
    /// through a vector: the program counter and the status byte, bit 4
    /// clear, are on the stack, and the sequence takes seven cycles.
    pub open spec fn served(self, vector: u16) -> CpuState {
        CpuState {
            instruction_cycle_count: 7,
            interrupt_state: InterruptState::NormalOperation,
            interrupt_polling_cycle: 0,
            ..self.interrupted(
                self.registers.pc,
                self.registers.p.interrupt_byte() as u8,
                vector,
            )
        }
    }

    /// The cycles that an instruction takes: the entry of the cycle table,
    /// one more if its operand lay across a page boundary and its count
    /// does not hold that cycle already, and one more if it is a branch
    /// that was taken.
    pub open spec fn cycles_needed(self, opcode: u8, instruction: Instruction) -> int {
        cycle_table(opcode) + (if self.page_crossing
            && !instruction.instruction_type.is_read_modify_write() {
            1int
        } else {
            0
        }) + (if self.branch_success {
            1int
        } else {
            0
        })
    }

    /// The state after the cycles of an executed instruction have been
    /// counted. Interrupts are polled on the last cycle but one, not
    /// counting the cycle that a taken branch adds.
    pub open spec fn scheduled(self, opcode: u8, instruction: Instruction) -> CpuState {
        CpuState {
            instruction_cycle_count: self.cycles_needed(opcode, instruction) as u8,
            interrupt_polling_cycle: (self.cycles_needed(opcode, instruction) - 1 - (
            if self.branch_success {
                1int
            } else {
                0
            })) as u8,
            branch_success: false,
            page_crossing: false,
            current_instruction: instruction,
            instructions_executed: (self.instructions_executed + 1) as u64,
            ..self
        }
    }

    /// The state with the opcode at the program counter consumed.
    pub open spec fn opcode_consumed(self) -> CpuState {
        CpuState {
            registers: Registers { pc: wrap16(self.registers.pc + 1), ..self.registers },
            ..self
        }
    }

    /// The state after the next instruction has been fetched, decoded and
    /// executed and its cycles counted. This describes an instruction
    /// whose fetch stays clear of the picture unit and the controller.
    pub open spec fn stepped(self, joypad: Buttons) -> CpuState {
        let opcode = self.memory.peek(self.registers.pc);
        let instruction = decode_spec(opcode);
        self.opcode_consumed().execute(instruction, joypad).scheduled(opcode, instruction)
    }

    /// Whether the fetch of the next instruction, opcode and operand,
    /// stays clear of the picture unit and the controller.
    pub open spec fn step_is_quiet(self) -> bool {
        let instruction = decode_spec(self.memory.peek(self.registers.pc));
        &&& is_quiet(self.registers.pc)
        &&& self.opcode_consumed().fetch_is_quiet(
            instruction.addressing_mode,
            instruction.instruction_type.is_write_only(),
        )
    }

    /// Whether the processor has halted on a JAM instruction.
    pub open spec fn is_jammed(self) -> bool {
        self.current_instruction.instruction_type == InstructionType::JAM
    }

    /// What the processor does when the current instruction has used up
    /// its cycles: a reset, a step of the reset sequence, an interrupt or
    /// the next instruction, after which the state is `stepped`. A halted
    /// processor does nothing.
    pub open spec fn proceeded_by(self, stepped: CpuState) -> CpuState {
        if self.is_jammed() {
            self
        } else {
            match self.interrupt_state {
                InterruptState::Uninitialized => self.reset(),
                InterruptState::Booting => if self.total_cycles == 6 {
                    CpuState { interrupt_state: InterruptState::NormalOperation, ..self }
                } else {
                    self
                },
                InterruptState::NMI => self.served(NMI_VECTOR),
                InterruptState::IRQ => self.served(IRQ_VECTOR),
                InterruptState::NormalOperation => stepped,
            }
        }
    }

    /// What the processor does when the current instruction has used up
    /// its cycles, where the next instruction is fetched clear of the
    /// picture unit and the controller.
    pub open spec fn proceeded(self, joypad: Buttons) -> CpuState {
        self.proceeded_by(self.stepped(joypad))
    }

    /// The second step of a cycle, taken when the current instruction has
    /// used up its cycles: the processor begins what it is to do next, and
    /// the count of cycles within the instruction starts again.
    pub open spec fn begun_by(self, stepped: CpuState) -> CpuState {
        CpuState { current_cycle: 1, ..self.proceeded_by(stepped) }
    }

    /// The second step of a cycle, where the next instruction is fetched
    /// clear of the picture unit and the controller.
    pub open spec fn begun(self, joypad: Buttons) -> CpuState {
        self.begun_by(self.stepped(joypad))
    }

    /// The state after an interrupt has taken over a BRK in flight: the
    /// program counter comes from the vector of the interrupt.
    pub open spec fn taken_over(self, vector: u16) -> CpuState {
        CpuState {
            registers: Registers { pc: self.vector(vector), ..self.registers },
            instruction_cycle_count: 7,
            interrupt_state: InterruptState::NormalOperation,
            interrupt_polling_cycle: 0,
            ..self
        }
    }

    /// The third step of a cycle. During the first three cycles of a BRK
    /// the interrupt lines are polled once more: a non-maskable interrupt
    /// takes the BRK over, and so does an interrupt request while the
    /// interrupt flag is clear.
    pub open spec fn hijacked(self) -> CpuState {
        if self.current_instruction.instruction_type == InstructionType::BRK && self.current_cycle
            < 4 {
            match self.pending() {
                InterruptState::NMI => self.polled().taken_over(NMI_VECTOR),
                InterruptState::IRQ => if self.registers.p.interrupt_bit {
                    self.polled()
                } else {
                    self.polled().taken_over(IRQ_VECTOR)
                },
                _ => self.polled(),
            }
        } else {
            self
        }
    }

    /// The last step of a cycle: a rising edge on the line of the
    /// non-maskable interrupt is latched, the cycle counters move on, and
    /// the line falls back.
    pub open spec fn ended(self) -> CpuState {
        CpuState {
            nmi_line_triggered: self.nmi_line_triggered || (self.nmi_line_current
                && !self.nmi_line_prev),
            current_cycle: (self.current_cycle + 1) as u8,
            total_cycles: (self.total_cycles + 1) as u64,
            nmi_line_prev: self.nmi_line_current,
            nmi_line_current: false,
            ..self
        }
    }

    /// Whether this cycle begins something new.
    pub open spec fn begins(self) -> bool {
        self.sampled().current_cycle > self.sampled().instruction_cycle_count
    }

    /// Whether this cycle executes an instruction.
    pub open spec fn executes(self) -> bool {
        self.begins() && !self.is_jammed() && self.sampled().interrupt_state
            == InterruptState::NormalOperation
    }

    /// The state after one cycle in which the execution of an
    /// instruction, if there is one, leads to the state `stepped`.
    pub open spec fn ticked_by(self, stepped: CpuState) -> CpuState {
        if self.begins() {
            self.sampled().begun_by(stepped).hijacked().ended()
        } else {
            self.sampled().hijacked().ended()
        }
    }

    /// The state after one cycle. This describes a cycle whose
    /// instruction, if it executes one, is fetched clear of the picture
    /// unit and the controller.
    pub open spec fn ticked(self, joypad: Buttons) -> CpuState {
        self.ticked_by(self.sampled().stepped(joypad))
    }
}

} // verus!
