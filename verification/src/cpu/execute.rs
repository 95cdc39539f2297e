//! The execution unit: what each instruction does to the processor.

use crate::bits::has_bit;
use crate::cpu::alu::{
    add_with_carry, compare, decrement, increment, shift_left, shift_right, subtract_with_borrow,
    Comparison, Shifted, Sum,
};
use crate::cpu::instructions::{Instruction, InstructionType};
use crate::cpu::registers::{word, StatusRegister};
use crate::cpu::state::{
    high_byte_plus_one, wrap16, CpuState, Outcome, Registers, Store, IRQ_VECTOR, MAGIC,
};
use crate::cpu::{make_word, Cpu, OperandValue};
use crate::error::MainError;
use crate::memory::controller::Buttons;
use tudelft_nes_ppu::Ppu;
use vstd::prelude::*;

verus! {

/// One more than the high byte of an address, modulo 256.
fn next_page(address: u16) -> (high: u8)
    ensures
        high == high_byte_plus_one(address),
{
    ((address / 256 + 1) % 256) as u8
}

/// The difference of two bytes modulo 256.
fn difference(from: u8, amount: u8) -> (result: u8)
    ensures
        result == ((from - amount) % 256) as u8,
{
    ((256 + from as u16 - amount as u16) % 256) as u8
}

impl Registers {
    fn zn(self, value: u8) -> (registers: Registers)
        ensures
            registers == self.with_zn(value),
    {
        let mut registers = self;
        registers.p.zero_bit = value == 0;
        registers.p.negative_bit = value >= 0x80;
        registers
    }

    fn load_a(self, value: u8) -> (registers: Registers)
        ensures
            registers == self.with_a(value),
    {
        let mut registers = self;
        registers.a = value;
        registers.zn(value)
    }

    fn load_x(self, value: u8) -> (registers: Registers)
        ensures
            registers == self.with_x(value),
    {
        let mut registers = self;
        registers.x = value;
        registers.zn(value)
    }

    fn load_y(self, value: u8) -> (registers: Registers)
        ensures
            registers == self.with_y(value),
    {
        let mut registers = self;
        registers.y = value;
        registers.zn(value)
    }

    fn carry(self, carry: bool) -> (registers: Registers)
        ensures
            registers == self.with_carry(carry),
    {
        let mut registers = self;
        registers.p.carry_bit = carry;
        registers
    }

    fn sum(self, sum: Sum) -> (registers: Registers)
        ensures
            registers == self.with_sum(sum),
    {
        let mut registers = self.zn(sum.value);
        registers.a = sum.value;
        registers.p.carry_bit = sum.carry;
        registers.p.overflow_bit = sum.overflow;
        registers
    }

    fn comparison(self, comparison: Comparison) -> (registers: Registers)
        ensures
            registers == self.with_comparison(comparison),
    {
        let mut registers = self;
        registers.p.carry_bit = comparison.carry;
        registers.p.zero_bit = comparison.zero;
        registers.p.negative_bit = comparison.negative;
        registers
    }

    fn keep(self) -> (outcome: Outcome)
        ensures
            outcome == self.kept(),
    {
        Outcome { registers: self, store: None, branch: None }
    }

    fn store(self, address: u16, value: u8) -> (outcome: Outcome)
        ensures
            outcome == self.storing(address, value),
    {
        Outcome { registers: self, store: Some(Store { address, value }), branch: None }
    }

    fn shift(self, shifted: Shifted, operand: OperandValue) -> (outcome: Outcome)
        ensures
            outcome == self.shifting(shifted, operand),
    {
        let flagged = self.carry(shifted.carry).zn(shifted.value);
        match operand.address {
            Some(address) => flagged.store(address, shifted.value),
            None => {
                let mut registers = flagged;
                registers.a = shifted.value;
                registers.keep()
            },
        }
    }

    fn branch_if(self, taken: bool, target: u16) -> (outcome: Outcome)
        ensures
            outcome == self.branching(taken, target),
    {
        let mut registers = self;
        if taken {
            registers.pc = target;
        }
        Outcome { registers, store: None, branch: Some(taken) }
    }

    /// The loads, stores and register transfers.
    fn compute_transfer(self, kind: InstructionType, operand: OperandValue) -> (outcome: Outcome)
        ensures
            outcome == self.transfer(kind, operand),
    {
        proof {
            reveal(Registers::transfer);
        }
        let m = operand.get_byte();
        let address = operand.get_place();
        match kind {
            InstructionType::LDA => self.load_a(m).keep(),
            InstructionType::LDX => self.load_x(m).keep(),
            InstructionType::LDY => self.load_y(m).keep(),
            InstructionType::LAX => {
                let mut registers = self;
                registers.x = m;
                registers.load_a(m).keep()
            },
            InstructionType::STA => self.store(address, self.a),
            InstructionType::STX => self.store(address, self.x),
            InstructionType::STY => self.store(address, self.y),
            InstructionType::SAX => self.store(address, self.a & self.x),
            InstructionType::TAX => self.load_x(self.a).keep(),
            InstructionType::TAY => self.load_y(self.a).keep(),
            InstructionType::TSX => self.load_x(self.s).keep(),
            InstructionType::TXA => self.load_a(self.x).keep(),
            InstructionType::TXS => {
                let mut registers = self;
                registers.s = self.x;
                registers.keep()
            },
            InstructionType::TYA => self.load_a(self.y).keep(),
            _ => self.keep(),
        }
    }

    /// The flag instructions, NOP and JAM.
    fn compute_flag(self, kind: InstructionType) -> (outcome: Outcome)
        ensures
            outcome == self.flag(kind),
    {
        proof {
            reveal(Registers::flag);
        }
        let mut registers = self;
        match kind {
            InstructionType::CLC => registers.p.carry_bit = false,
            InstructionType::CLD => registers.p.decimal_bit = false,
            InstructionType::CLI => registers.p.interrupt_bit = false,
            InstructionType::CLV => registers.p.overflow_bit = false,
            InstructionType::SEC => registers.p.carry_bit = true,
            InstructionType::SED => registers.p.decimal_bit = true,
            InstructionType::SEI => registers.p.interrupt_bit = true,
            _ => {},
        }
        registers.keep()
    }

    /// The increments, sums, logic operations, shifts and comparisons.
    fn compute_arithmetic(self, kind: InstructionType, operand: OperandValue) -> (outcome: Outcome)
        ensures
            outcome == self.arithmetic(kind, operand),
    {
        proof {
            reveal(Registers::arithmetic);
        }
        let m = operand.get_byte();
        let address = operand.get_place();
        let carry = self.p.carry_bit;
        match kind {
            InstructionType::DEC => self.zn(decrement(m)).store(address, decrement(m)),
            InstructionType::DEX => self.load_x(decrement(self.x)).keep(),
            InstructionType::DEY => self.load_y(decrement(self.y)).keep(),
            InstructionType::INC => self.zn(increment(m)).store(address, increment(m)),
            InstructionType::INX => self.load_x(increment(self.x)).keep(),
            InstructionType::INY => self.load_y(increment(self.y)).keep(),
            InstructionType::ADC => self.sum(add_with_carry(self.a, m, carry)).keep(),
            InstructionType::SBC | InstructionType::USBC => self.sum(
                subtract_with_borrow(self.a, m, carry),
            ).keep(),
            InstructionType::AND => self.load_a(self.a & m).keep(),
            InstructionType::EOR => self.load_a(self.a ^ m).keep(),
            InstructionType::ORA => self.load_a(self.a | m).keep(),
            InstructionType::ASL => self.shift(shift_left(m, false), operand),
            InstructionType::LSR => self.shift(shift_right(m, false), operand),
            InstructionType::ROL => self.shift(shift_left(m, carry), operand),
            InstructionType::ROR => self.shift(shift_right(m, carry), operand),
            InstructionType::CMP => self.comparison(compare(self.a, m)).keep(),
            InstructionType::CPX => self.comparison(compare(self.x, m)).keep(),
            InstructionType::CPY => self.comparison(compare(self.y, m)).keep(),
            InstructionType::BIT => {
                let mut registers = self;
                registers.p.zero_bit = self.a & m == 0;
                registers.p.negative_bit = m >= 0x80;
                registers.p.overflow_bit = (m / 64) % 2 == 1;
                registers.keep()
            },
            _ => self.keep(),
        }
    }

    /// The branches and the jump.
    fn compute_branch(self, kind: InstructionType, operand: OperandValue) -> (outcome: Outcome)
        ensures
            outcome == self.branch(kind, operand),
    {
        proof {
            reveal(Registers::branch);
        }
        let address = operand.get_place();
        match kind {
            InstructionType::BCC => self.branch_if(!self.p.carry_bit, address),
            InstructionType::BCS => self.branch_if(self.p.carry_bit, address),
            InstructionType::BEQ => self.branch_if(self.p.zero_bit, address),
            InstructionType::BMI => self.branch_if(self.p.negative_bit, address),
            InstructionType::BNE => self.branch_if(!self.p.zero_bit, address),
            InstructionType::BPL => self.branch_if(!self.p.negative_bit, address),
            InstructionType::BVC => self.branch_if(!self.p.overflow_bit, address),
            InstructionType::BVS => self.branch_if(self.p.overflow_bit, address),
            InstructionType::JMP => {
                let mut registers = self;
                registers.pc = address;
                registers.keep()
            },
            _ => self.keep(),
        }
    }

    /// The flags and the accumulator after ARR: carry from bit 6 of the
    /// result, overflow from bits 6 and 5.
    fn rotate_and(self, rotated: u8) -> (registers: Registers)
        ensures
            registers == (Registers {
                p: StatusRegister {
                    carry_bit: has_bit(rotated, 64),
                    overflow_bit: has_bit(rotated, 64) != has_bit(rotated, 32),
                    ..self.p.with_zn(rotated)
                },
                a: rotated,
                ..self
            }),
    {
        let mut registers = self.zn(rotated);
        registers.a = rotated;
        registers.p.carry_bit = (rotated / 64) % 2 == 1;
        registers.p.overflow_bit = ((rotated / 64) % 2 == 1) != ((rotated / 32) % 2 == 1);
        registers
    }

    /// The undocumented instructions.
    fn compute_undocumented(self, kind: InstructionType, operand: OperandValue) -> (outcome:
        Outcome)
        ensures
            outcome == self.undocumented(kind, operand),
    {
        proof {
            reveal(Registers::undocumented);
        }
        let m = operand.get_byte();
        let address = operand.get_place();
        let carry = self.p.carry_bit;
        let a = self.a;
        let x = self.x;
        let high = next_page(address);
        match kind {
            InstructionType::ALR => {
                let shifted = shift_right(a & m, false);
                self.load_a(shifted.value).carry(shifted.carry).keep()
            },
            InstructionType::ANC => self.load_a(a & m).carry((a & m) >= 0x80).keep(),
            InstructionType::ANE => self.load_a((a | MAGIC) & x & m).keep(),
            InstructionType::ARR => self.rotate_and(shift_right(a & m, carry).value).keep(),
            InstructionType::DCP => self.comparison(compare(a, decrement(m))).store(
                address,
                decrement(m),
            ),
            InstructionType::ISC => self.sum(subtract_with_borrow(a, increment(m), carry)).store(
                address,
                increment(m),
            ),
            InstructionType::LAS => {
                let mut registers = self;
                registers.x = m & self.s;
                registers.s = m & self.s;
                registers.load_a(m & self.s).keep()
            },
            InstructionType::LXA => {
                let mut registers = self;
                registers.x = (a | MAGIC) & m;
                registers.load_a((a | MAGIC) & m).keep()
            },
            InstructionType::RLA => {
                let shifted = shift_left(m, carry);
                self.carry(shifted.carry).load_a(a & shifted.value).store(address, shifted.value)
            },
            InstructionType::RRA => {
                let shifted = shift_right(m, carry);
                self.sum(add_with_carry(a, shifted.value, shifted.carry)).store(
                    address,
                    shifted.value,
                )
            },
            InstructionType::SBX => {
                let mut registers = self;
                registers.x = difference(a & x, m);
                registers.comparison(compare(a & x, m)).keep()
            },
            InstructionType::SHA => self.store(address, a & x & high),
            InstructionType::SHX => self.store(address, x & high),
            InstructionType::SHY => self.store(address, self.y & high),
            InstructionType::SLO => {
                let shifted = shift_left(m, false);
                self.carry(shifted.carry).load_a(a | shifted.value).store(address, shifted.value)
            },
            InstructionType::SRE => {
                let shifted = shift_right(m, false);
                self.carry(shifted.carry).load_a(a ^ shifted.value).store(address, shifted.value)
            },
            InstructionType::TAS => {
                let mut registers = self;
                registers.s = a & x;
                registers.store(address, a & x & high)
            },
            _ => self.keep(),
        }
    }

    /// Computes what an instruction that leaves the stack alone does,
    /// given its operand. An operand without a value counts as the byte
    /// zero, one without an address as the address zero.
    pub fn compute(&self, kind: InstructionType, operand: OperandValue) -> (outcome: Outcome)
        ensures
            outcome == self.compute_spec(kind, operand),
    {
        match kind {
            InstructionType::LDA
            | InstructionType::LDX
            | InstructionType::LDY
            | InstructionType::LAX
            | InstructionType::STA
            | InstructionType::STX
            | InstructionType::STY
            | InstructionType::SAX
            | InstructionType::TAX
            | InstructionType::TAY
            | InstructionType::TSX
            | InstructionType::TXA
            | InstructionType::TXS
            | InstructionType::TYA => self.compute_transfer(kind, operand),
            InstructionType::CLC
            | InstructionType::CLD
            | InstructionType::CLI
            | InstructionType::CLV
            | InstructionType::SEC
            | InstructionType::SED
            | InstructionType::SEI
            | InstructionType::NOP
            | InstructionType::JAM => self.compute_flag(kind),
            InstructionType::DEC
            | InstructionType::DEX
            | InstructionType::DEY
            | InstructionType::INC
            | InstructionType::INX
            | InstructionType::INY
            | InstructionType::ADC
            | InstructionType::SBC
            | InstructionType::USBC
            | InstructionType::AND
            | InstructionType::EOR
            | InstructionType::ORA
            | InstructionType::ASL
            | InstructionType::LSR
            | InstructionType::ROL
            | InstructionType::ROR
            | InstructionType::CMP
            | InstructionType::CPX
            | InstructionType::CPY
            | InstructionType::BIT => self.compute_arithmetic(kind, operand),
            InstructionType::BCC
            | InstructionType::BCS
            | InstructionType::BEQ
            | InstructionType::BMI
            | InstructionType::BNE
            | InstructionType::BPL
            | InstructionType::BVC
            | InstructionType::BVS
            | InstructionType::JMP => self.compute_branch(kind, operand),
            _ => self.compute_undocumented(kind, operand),
        }
    }
}

impl Cpu {
    /// Sets the program counter and the status flags.
    fn resume(&mut self, pc: u16, status: StatusRegister)
        ensures
            final(self)@ == old(self)@.resumed(pc, status),
    {
        self.program_counter.set(pc);
        self.status_register = status;
    }

    /// Reads the address stored at one of the three vectors.
    pub(crate) fn read_vector(&mut self, vector: u16, ppu: &mut Ppu) -> (address: u16)
        requires
            0x6000 <= vector < 0xFFFF,
        ensures
            final(self)@ == old(self)@,
            address == old(self)@.vector(vector),
    {
        let low = self.read_byte(vector, ppu);
        let high = self.read_byte(vector + 1, ppu);
        make_word(high, low)
    }

    /// Pushes the program counter, high byte first, and a status byte.
    pub fn push_pc_and_status_on_stack(&mut self, status: u8, ppu: &mut Ppu)
        ensures
            final(self)@ == old(self)@.pushed((old(self)@.registers.pc / 256) as u8).pushed(
                (old(self)@.registers.pc % 256) as u8,
            ).pushed(status),
    {
        self.push(self.program_counter.get_hibyte(), ppu);
        self.push(self.program_counter.get_lobyte(), ppu);
        self.push(status, ppu);
    }

    /// Saves the program counter and a status byte on the stack, sets the
    /// interrupt flag and jumps through a vector.
    pub(crate) fn interrupt(&mut self, status: u8, vector: u16, ppu: &mut Ppu)
        requires
            0x6000 <= vector < 0xFFFF,
        ensures
            final(self)@ == old(self)@.interrupted(old(self)@.registers.pc, status, vector),
    {
        self.push_pc_and_status_on_stack(status, ppu);
        let target = self.read_vector(vector, ppu);
        let mut flags = self.status_register;
        flags.interrupt_bit = true;
        self.resume(target, flags);
    }

    /// PLA: pulls the accumulator.
    fn pull_accumulator(&mut self, ppu: &mut Ppu)
        ensures
            final(self)@ == old(self)@.pulled().with_registers(
                old(self)@.pulled().registers.with_a(old(self)@.top()),
            ),
    {
        let value = self.pull(ppu);
        let registers = self.registers().load_a(value);
        self.set_registers(registers);
    }

    /// PLP: pulls the status flags.
    fn pull_status(&mut self, ppu: &mut Ppu)
        ensures
            final(self)@ == old(self)@.pulled().resumed(
                old(self)@.registers.pc,
                StatusRegister::from_byte(old(self)@.top()),
            ),
    {
        let value = self.pull(ppu);
        let mut status = self.status_register;
        status.set_from_stack(value);
        self.resume(self.program_counter.get(), status);
    }

    /// JSR: pushes the address of the last byte of the instruction, high
    /// byte first, and jumps.
    fn call(&mut self, target: u16, ppu: &mut Ppu)
        ensures
            final(self)@ == old(self)@.pushed(
                (wrap16(old(self)@.registers.pc - 1) / 256) as u8,
            ).pushed((wrap16(old(self)@.registers.pc - 1) % 256) as u8).resumed(
                target,
                old(self)@.registers.p,
            ),
    {
        let pc = self.program_counter.get();
        let return_address: u16 = if pc == 0 {
            0xFFFF
        } else {
            pc - 1
        };
        self.push((return_address / 256) as u8, ppu);
        self.push((return_address % 256) as u8, ppu);
        self.resume(target, self.status_register);
    }

    /// RTS: pulls an address, low byte first, and continues behind it.
    fn return_from_call(&mut self, ppu: &mut Ppu)
        ensures
            final(self)@ == old(self)@.pulled().pulled().resumed(
                wrap16(word(old(self)@.pulled().top(), old(self)@.top()) + 1),
                old(self)@.registers.p,
            ),
    {
        let low = self.pull(ppu);
        let high = self.pull(ppu);
        let address = make_word(high, low);
        let next: u16 = if address == 0xFFFF {
            0
        } else {
            address + 1
        };
        self.resume(next, self.status_register);
    }

    /// BRK: an interrupt by program, which pushes the address behind the
    /// byte that follows the opcode, and the status byte with bit 4 set.
    fn break_to_handler(&mut self, ppu: &mut Ppu)
        ensures
            final(self)@ == old(self)@.interrupted(
                wrap16(old(self)@.registers.pc + 1),
                old(self)@.registers.p.stack_byte() as u8,
                IRQ_VECTOR,
            ),
    {
        let status = self.status_register.get_for_stack();
        self.program_counter.increment();
        self.interrupt(status, IRQ_VECTOR, ppu);
    }

    /// RTI: pulls the status flags and an address, low byte first.
    fn return_from_interrupt(&mut self, ppu: &mut Ppu)
        ensures
            final(self)@ == old(self)@.pulled().pulled().pulled().resumed(
                word(old(self)@.pulled().pulled().top(), old(self)@.pulled().top()),
                StatusRegister::from_byte(old(self)@.top()),
            ),
    {
        let value = self.pull(ppu);
        let low = self.pull(ppu);
        let high = self.pull(ppu);
        let mut status = self.status_register;
        status.set_from_stack(value);
        self.resume(make_word(high, low), status);
    }

    /// The instructions that push or pull.
    fn apply_stack(&mut self, kind: InstructionType, operand: OperandValue, ppu: &mut Ppu)
        ensures
            final(self)@ == old(self)@.apply_stack(kind, operand),
    {
        proof {
            reveal(CpuState::apply_stack);
        }
        match kind {
            InstructionType::PHA => self.push(self.accumulator.get(), ppu),
            InstructionType::PHP => self.push(self.status_register.get_for_stack(), ppu),
            InstructionType::PLA => self.pull_accumulator(ppu),
            InstructionType::PLP => self.pull_status(ppu),
            InstructionType::JSR => self.call(operand.get_place(), ppu),
            InstructionType::RTS => self.return_from_call(ppu),
            InstructionType::BRK => self.break_to_handler(ppu),
            InstructionType::RTI => self.return_from_interrupt(ppu),
            _ => {},
        }
    }

    /// Leaves word of a branch for the driver.
    fn note_branch(&mut self, branch: Option<bool>)
        ensures
            final(self)@ == (CpuState {
                branch_success: match branch {
                    Some(taken) => taken,
                    None => old(self)@.branch_success,
                },
                page_crossing: old(self)@.page_crossing && branch != Some(false),
                ..old(self)@
            }),
    {
        match branch {
            Some(true) => {
                self.branch_success = true;
            },
            Some(false) => {
                self.branch_success = false;
                self.page_crossing = false;
            },
            None => {},
        }
    }

    /// Lets an outcome take effect.
    fn commit(&mut self, outcome: Outcome, ppu: &mut Ppu)
        ensures
            final(self)@ == old(self)@.committed(outcome, final(self)@.memory.controller.buttons),
    {
        self.set_registers(outcome.registers);
        self.note_branch(outcome.branch);
        match outcome.store {
            Some(store) => self.write_byte(store.address, store.value, ppu),
            None => {},
        }
    }

    /// Does what an instruction does, given its operand. An operand
    /// without a value counts as the byte zero, one without an address as
    /// the address zero.
    ///
    /// What the player holds is not known here; it shows in the result
    /// only when the instruction writes to the first controller with the
    /// strobe bit set, and then it is what the controller has latched.
    pub fn apply(&mut self, instruction: &Instruction, operand: OperandValue, ppu: &mut Ppu)
        ensures
            final(self)@ == old(self)@.apply(
                *instruction,
                operand,
                final(self)@.memory.controller.buttons,
            ),
    {
        proof {
            reveal(CpuState::apply);
        }
        let kind = instruction.instruction_type;
        match kind {
            InstructionType::PHA
            | InstructionType::PHP
            | InstructionType::PLA
            | InstructionType::PLP
            | InstructionType::JSR
            | InstructionType::RTS
            | InstructionType::BRK
            | InstructionType::RTI => self.apply_stack(kind, operand, ppu),
            _ => {
                let outcome = self.registers().compute(kind, operand);
                self.commit(outcome, ppu);
            },
        }
    }
}

impl Instruction {
    /// Whether the instruction is a store, which must not read its target.
    pub fn is_write_only(&self) -> (write_only: bool)
        ensures
            write_only == self.instruction_type.is_write_only(),
    {
        matches!(
            self.instruction_type,
            InstructionType::STA
                | InstructionType::STX
                | InstructionType::STY
                | InstructionType::SAX
        )
    }

    /// Executes the instruction: finds its operand, then does what the
    /// instruction does. Execution cannot fail.
    ///
    /// Whatever the fetch reads, the state afterwards is what the
    /// instruction makes of some operand in the state that the fetch has
    /// left. Unless the instruction is a jump, a branch, a call, a return
    /// or a break, the program counter moves past the operand bytes and no
    /// further. Where the fetch of the operand stays clear of the picture
    /// unit and the controller, the state afterwards is that of
    /// [`CpuState::execute`].
    pub fn execute(&self, cpu: &mut Cpu, ppu: &mut Ppu) -> (result: Result<(), MainError>)
        ensures
            result is Ok,
            exists|fetched: CpuState, operand: OperandValue|
                old(cpu)@.fetches_to(self.addressing_mode, fetched) && final(cpu)@
                    == #[trigger] fetched.apply(
                    *self,
                    operand,
                    final(cpu)@.memory.controller.buttons,
                ),
            !self.instruction_type.alters_flow() ==> final(cpu)@.registers.pc == wrap16(
                old(cpu)@.registers.pc + self.addressing_mode.operand_bytes(),
            ),
            old(cpu)@.fetch_is_quiet(self.addressing_mode, self.instruction_type.is_write_only())
                ==> final(cpu)@ == old(cpu)@.execute(
                *self,
                final(cpu)@.memory.controller.buttons,
            ),
            final(cpu)@.driver() == old(cpu)@.driver(),
    {
        let operand = cpu.get_operand_value(&self.addressing_mode, ppu, self.is_write_only());
        let ghost fetched = cpu@;
        cpu.apply(self, operand, ppu);
        proof {
            lemma_only_flow_moves_the_counter(
                fetched,
                *self,
                operand,
                cpu@.memory.controller.buttons,
            );
        }
        Ok(())
    }
}

/// A load, a store or a transfer leaves the program counter alone.
proof fn lemma_transfer_keeps_the_counter(
    registers: Registers,
    kind: InstructionType,
    operand: OperandValue,
)
    ensures
        registers.transfer(kind, operand).registers.pc == registers.pc,
        registers.transfer(kind, operand).branch is None,
{
    reveal(Registers::transfer);
}

/// A flag instruction leaves the program counter alone.
proof fn lemma_flag_keeps_the_counter(registers: Registers, kind: InstructionType)
    ensures
        registers.flag(kind).registers.pc == registers.pc,
        registers.flag(kind).branch is None,
{
    reveal(Registers::flag);
}

/// An arithmetic instruction leaves the program counter alone.
proof fn lemma_arithmetic_keeps_the_counter(
    registers: Registers,
    kind: InstructionType,
    operand: OperandValue,
)
    ensures
        registers.arithmetic(kind, operand).registers.pc == registers.pc,
        registers.arithmetic(kind, operand).branch is None,
{
    reveal(Registers::arithmetic);
}

/// An undocumented instruction leaves the program counter alone.
proof fn lemma_undocumented_keeps_the_counter(
    registers: Registers,
    kind: InstructionType,
    operand: OperandValue,
)
    ensures
        registers.undocumented(kind, operand).registers.pc == registers.pc,
        registers.undocumented(kind, operand).branch is None,
{
    reveal(Registers::undocumented);
}

/// The four instructions that only push or pull leave the program counter
/// alone.
proof fn lemma_stack_keeps_the_counter(state: CpuState, kind: InstructionType, operand: OperandValue)
    requires
        !kind.alters_flow(),
    ensures
        state.apply_stack(kind, operand).registers.pc == state.registers.pc,
{
    reveal(CpuState::apply_stack);
}

/// No instruction that pushes or pulls touches what the cycle driver keeps
/// for itself.
proof fn lemma_stack_keeps_the_driver(state: CpuState, kind: InstructionType, operand: OperandValue)
    ensures
        state.apply_stack(kind, operand).driver() == state.driver(),
{
    reveal(CpuState::apply_stack);
}

/// Only a jump, a branch, a call, a return or a break changes the program
/// counter, whatever the operand and whatever the player holds; and no
/// instruction touches what the cycle driver keeps for itself.
pub proof fn lemma_only_flow_moves_the_counter(
    state: CpuState,
    instruction: Instruction,
    operand: OperandValue,
    joypad: Buttons,
)
    ensures
        !instruction.instruction_type.alters_flow() ==> state.apply(
            instruction,
            operand,
            joypad,
        ).registers.pc == state.registers.pc,
        state.apply(instruction, operand, joypad).driver() == state.driver(),
{
    reveal(CpuState::apply);
    let kind = instruction.instruction_type;
    let registers = state.registers;
    if kind.uses_stack() {
        lemma_stack_keeps_the_driver(state, kind, operand);
        if !kind.alters_flow() {
            lemma_stack_keeps_the_counter(state, kind, operand);
        }
    } else if kind.is_transfer() {
        lemma_transfer_keeps_the_counter(registers, kind, operand);
    } else if kind.is_flag_or_idle() {
        lemma_flag_keeps_the_counter(registers, kind);
    } else if kind.is_arithmetic() {
        lemma_arithmetic_keeps_the_counter(registers, kind, operand);
    } else if kind.is_branch() || kind == InstructionType::JMP {
        reveal(Registers::branch);
    } else {
        lemma_undocumented_keeps_the_counter(registers, kind, operand);
    }
}

} // verus!
