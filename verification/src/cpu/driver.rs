//! The cycle driver: one call for each cycle of the master clock.

use crate::cpu::instructions::{decode_spec, AddressingMode, Instruction, InstructionType};
use crate::cpu::interrupt_handler::InterruptState;
use crate::cpu::state::{wrap16, CpuState, IRQ_VECTOR, NMI_VECTOR, RESET_VECTOR};
use crate::cpu::{Cpu, OperandValue};
use crate::error::MyTickError;
use crate::memory::is_quiet;
use tudelft_nes_ppu::Ppu;
use vstd::prelude::*;

verus! {

impl Cpu {
    /// Looks which interrupt waits and clears both latches. A
    /// non-maskable interrupt goes before an interrupt request.
    pub fn poll_interrupts(&mut self) -> (waiting: InterruptState)
        ensures
            waiting == old(self)@.pending(),
            final(self)@ == old(self)@.polled(),
    {
        let waiting = if self.nmi_line_triggered {
            InterruptState::NMI
        } else if self.irq_line_triggered {
            InterruptState::IRQ
        } else {
            InterruptState::NormalOperation
        };
        self.irq_line_triggered = false;
        self.nmi_line_triggered = false;
        waiting
    }

    fn set_interrupt_state(&mut self, state: InterruptState)
        ensures
            final(self)@ == (CpuState { interrupt_state: state, ..old(self)@ }),
    {
        self.interrupt_state = state;
    }

    /// The first step of a cycle: on the polling cycle of the current
    /// instruction, what waits on the interrupt lines becomes what the
    /// processor does next.
    fn sample(&mut self)
        ensures
            final(self)@ == old(self)@.sampled(),
    {
        if self.current_cycle == self.interrupt_polling_cycle {
            let masked = self.status_register.interrupt_bit;
            let waiting = self.poll_interrupts();
            if waiting == InterruptState::IRQ && masked {
                self.set_interrupt_state(InterruptState::NormalOperation);
            } else {
                self.set_interrupt_state(waiting);
            }
        }
    }

    /// Resets the processor: loads the program counter from the reset
    /// vector, sets the stack pointer and the interrupt flag, and starts
    /// the counters again.
    pub fn initialize_cpu(&mut self, ppu: &mut Ppu)
        ensures
            final(self)@ == old(self)@.reset(),
    {
        let target = self.read_vector(RESET_VECTOR, ppu);
        let mut registers = self.registers();
        registers.pc = target;
        registers.s = 0xFD;
        registers.p.interrupt_bit = true;
        self.set_registers(registers);
        self.interrupt_polling_cycle = 0;
        self.total_cycles = 0;
        self.instructions_executed = 0;
        self.interrupt_state = InterruptState::Booting;
    }

    fn set_sequence(&mut self)
        ensures
            final(self)@ == (CpuState {
                instruction_cycle_count: 7,
                interrupt_state: InterruptState::NormalOperation,
                interrupt_polling_cycle: 0,
                ..old(self)@
            }),
    {
        self.instruction_cycle_count = 7;
        self.interrupt_state = InterruptState::NormalOperation;
        self.interrupt_polling_cycle = 0;
    }

    /// Enters the handler of a hardware interrupt.
    fn serve(&mut self, vector: u16, ppu: &mut Ppu)
        requires
            0x6000 <= vector < 0xFFFF,
        ensures
            final(self)@ == old(self)@.served(vector),
    {
        self.interrupt(self.status_register.get_for_debug(), vector, ppu);
        self.set_sequence();
    }

    /// Counts the cycles of the instruction that has just been executed.
    fn schedule(&mut self, opcode: u8, instruction: Instruction)
        requires
            old(self)@.instructions_executed < u64::MAX,
        ensures
            final(self)@ == old(self)@.scheduled(opcode, instruction),
            final(self)@.instruction_cycle_count <= 10,
    {
        let mut cycles: u8 = match Instruction::get_instruction_duration(opcode) {
            Ok(cycles) => cycles,
            Err(_) => 2,
        };
        if !instruction.is_rmw() && self.page_crossing {
            cycles += 1;
        }
        self.interrupt_polling_cycle = cycles - 1;
        if self.branch_success {
            cycles += 1;
            self.branch_success = false;
        }
        self.instruction_cycle_count = cycles;
        self.page_crossing = false;
        self.current_instruction = instruction;
        self.instructions_executed += 1;
    }

    /// Reads the opcode at the program counter and decodes it.
    fn fetch_instruction(&mut self, ppu: &mut Ppu) -> (fetched: (u8, Instruction))
        ensures
            fetched.1 == decode_spec(fetched.0),
            is_quiet(old(self)@.registers.pc) ==> fetched.0 == old(self)@.memory.peek(
                old(self)@.registers.pc,
            ) && final(self)@ == old(self)@.opcode_consumed(),
            old(self)@.advances_to(1, final(self)@),
    {
        let opcode = self.read_next_value(ppu);
        let instruction = match Instruction::decode(opcode) {
            Ok(instruction) => instruction,
            Err(_) => Instruction::new(InstructionType::NOP, AddressingMode::Implied),
        };
        (opcode, instruction)
    }

    /// Fetches, decodes and executes the next instruction and counts its
    /// cycles.
    ///
    /// Whatever the fetch reads, some opcode is decoded, the program
    /// counter moves past the instruction, and the instruction does its
    /// work on some operand. Unless the instruction is a jump, a branch, a
    /// call, a return or a break, the program counter moves on by the
    /// length of the instruction. Where the fetch stays clear of the
    /// picture unit and the controller, the state afterwards is that of
    /// [`CpuState::stepped`].
    pub fn step(&mut self, ppu: &mut Ppu) -> (instruction: Instruction)
        requires
            old(self)@.instructions_executed < u64::MAX,
        ensures
            old(self)@.steps_to(final(self)@, final(self)@.memory.controller.buttons),
            is_quiet(old(self)@.registers.pc) ==> instruction == decode_spec(
                old(self)@.memory.peek(old(self)@.registers.pc),
            ),
            !instruction.instruction_type.alters_flow() ==> final(self)@.registers.pc == wrap16(
                old(self)@.registers.pc + 1 + instruction.addressing_mode.operand_bytes(),
            ),
            old(self)@.step_is_quiet() ==> final(self)@ == old(self)@.stepped(
                final(self)@.memory.controller.buttons,
            ),
            final(self)@.current_instruction == instruction,
            final(self)@.instruction_cycle_count <= 10,
            final(self)@.instructions_executed == old(self)@.instructions_executed + 1,
            final(self)@.current_cycle == old(self)@.current_cycle,
            final(self)@.total_cycles == old(self)@.total_cycles,
            final(self)@.interrupt_state == old(self)@.interrupt_state,
    {
        let (opcode, instruction) = self.fetch_instruction(ppu);
        let ghost consumed = self@;
        let _ = instruction.execute(self, ppu);
        let ghost executed = self@;
        self.schedule(opcode, instruction);
        proof {
            reveal(CpuState::steps_to);
            let joypad = self@.memory.controller.buttons;
            assert(executed.driver() == consumed.driver());
            let (fetched, operand) = choose|fetched: CpuState, operand: OperandValue|
                consumed.fetches_to(instruction.addressing_mode, fetched) && executed
                    == #[trigger] fetched.apply(instruction, operand, joypad);
            lemma_two_advances(
                old(self)@,
                1,
                consumed,
                instruction.addressing_mode.operand_bytes(),
                fetched,
            );
            assert(self@ == fetched.apply(decode_spec(opcode), operand, joypad).scheduled(
                opcode,
                decode_spec(opcode),
            ));
        }
        instruction
    }

    fn restart_cycle(&mut self)
        ensures
            final(self)@ == (CpuState { current_cycle: 1, ..old(self)@ }),
    {
        self.current_cycle = 1;
    }

    /// Ends the reset sequence after its sixth cycle.
    fn boot(&mut self)
        ensures
            final(self)@ == (if old(self)@.total_cycles == 6 {
                CpuState { interrupt_state: InterruptState::NormalOperation, ..old(self)@ }
            } else {
                old(self)@
            }),
    {
        if self.total_cycles == 6 {
            self.set_interrupt_state(InterruptState::NormalOperation);
        }
    }

    /// Does what is next when the current instruction has used up its
    /// cycles. The state that the execution of an instruction has led to,
    /// if there was one, is handed back for the proof.
    fn proceed(&mut self, ppu: &mut Ppu) -> (stepped: Ghost<CpuState>)
        requires
            old(self)@.wf(),
            old(self)@.total_cycles < u64::MAX,
        ensures
            final(self)@ == old(self)@.proceeded_by(stepped@),
            !old(self)@.is_jammed() && old(self)@.interrupt_state
                == InterruptState::NormalOperation ==> old(self)@.steps_to(
                stepped@,
                final(self)@.memory.controller.buttons,
            ),
            old(self)@.is_jammed() || old(self)@.interrupt_state != InterruptState::NormalOperation
                || old(self)@.step_is_quiet() ==> final(self)@ == old(self)@.proceeded(
                final(self)@.memory.controller.buttons,
            ),
            final(self)@.current_cycle == old(self)@.current_cycle,
            final(self)@.instruction_cycle_count <= 10,
            final(self)@.instructions_executed <= final(self)@.total_cycles + 1,
            final(self)@.interrupt_state != InterruptState::Uninitialized,
            final(self)@.total_cycles == old(self)@.total_cycles,
            final(self)@.memory.controller.buttons == stepped@.memory.controller.buttons
                || old(self)@.is_jammed() || old(self)@.interrupt_state
                != InterruptState::NormalOperation,
    {
        if self.current_instruction.instruction_type == InstructionType::JAM {
            return Ghost(self@);
        }
        match self.interrupt_state {
            InterruptState::Uninitialized => self.initialize_cpu(ppu),
            InterruptState::Booting => self.boot(),
            InterruptState::NMI => self.serve(NMI_VECTOR, ppu),
            InterruptState::IRQ => self.serve(IRQ_VECTOR, ppu),
            InterruptState::NormalOperation => {
                let _ = self.step(ppu);
            },
        }
        Ghost(self@)
    }

    /// The second step of a cycle: begins what the processor is to do
    /// next.
    fn begin(&mut self, ppu: &mut Ppu) -> (stepped: Ghost<CpuState>)
        requires
            old(self)@.wf(),
            old(self)@.total_cycles < u64::MAX,
        ensures
            final(self)@ == old(self)@.begun_by(stepped@),
            !old(self)@.is_jammed() && old(self)@.interrupt_state
                == InterruptState::NormalOperation ==> old(self)@.steps_to(
                stepped@,
                final(self)@.memory.controller.buttons,
            ),
            old(self)@.is_jammed() || old(self)@.interrupt_state != InterruptState::NormalOperation
                || old(self)@.step_is_quiet() ==> final(self)@ == old(self)@.begun(
                final(self)@.memory.controller.buttons,
            ),
            final(self)@.current_cycle == 1,
            final(self)@.instruction_cycle_count <= 10,
            final(self)@.instructions_executed <= final(self)@.total_cycles + 1,
            final(self)@.interrupt_state != InterruptState::Uninitialized,
            final(self)@.total_cycles == old(self)@.total_cycles,
    {
        let stepped = self.proceed(ppu);
        self.restart_cycle();
        stepped
    }

    /// Lets an interrupt take over a BRK: the program counter comes from
    /// the vector of the interrupt.
    fn take_over(&mut self, vector: u16, ppu: &mut Ppu)
        requires
            0x6000 <= vector < 0xFFFF,
        ensures
            final(self)@ == old(self)@.taken_over(vector),
    {
        let target = self.read_vector(vector, ppu);
        let mut registers = self.registers();
        registers.pc = target;
        self.set_registers(registers);
        self.set_sequence();
    }

    /// The third step of a cycle: during the first three cycles of a BRK,
    /// an interrupt that waits takes the BRK over.
    fn hijack(&mut self, ppu: &mut Ppu)
        ensures
            final(self)@ == old(self)@.hijacked(),
    {
        if self.current_instruction.instruction_type == InstructionType::BRK && self.current_cycle
            < 4 {
            let masked = self.status_register.interrupt_bit;
            match self.poll_interrupts() {
                InterruptState::NMI => self.take_over(NMI_VECTOR, ppu),
                InterruptState::IRQ => {
                    if !masked {
                        self.take_over(IRQ_VECTOR, ppu);
                    }
                },
                _ => {},
            }
        }
    }

    /// The last step of a cycle: latches a rising edge on the line of the
    /// non-maskable interrupt and moves the cycle counters on.
    fn end_cycle(&mut self)
        requires
            old(self)@.current_cycle < 255,
            old(self)@.total_cycles < u64::MAX,
        ensures
            final(self)@ == old(self)@.ended(),
    {
        if self.nmi_line_current && !self.nmi_line_prev {
            self.nmi_line_triggered = true;
        }
        self.current_cycle += 1;
        self.total_cycles += 1;
        self.nmi_line_prev = self.nmi_line_current;
        self.nmi_line_current = false;
    }

    /// Whether the next cycle executes an instruction: the current
    /// instruction has used up its cycles, no interrupt and no reset is due,
    /// and the processor has not halted.
    pub fn will_execute(&self) -> (executes: bool)
        ensures
            executes == self@.executes(),
    {
        let next = if self.current_cycle == self.interrupt_polling_cycle {
            if self.nmi_line_triggered {
                InterruptState::NMI
            } else if self.irq_line_triggered && !self.status_register.interrupt_bit {
                InterruptState::IRQ
            } else {
                InterruptState::NormalOperation
            }
        } else {
            self.interrupt_state
        };
        self.current_cycle > self.instruction_cycle_count
            && self.current_instruction.instruction_type != InstructionType::JAM && next
            == InterruptState::NormalOperation
    }

    /// One cycle. The state that the execution of an instruction has led
    /// to, if there was one, is handed back for the proof.
    fn cycle(&mut self, ppu: &mut Ppu) -> (stepped: Ghost<CpuState>)
        requires
            old(self)@.wf(),
            old(self)@.total_cycles < u64::MAX,
        ensures
            final(self)@ == old(self)@.ticked_by(stepped@),
            old(self)@.executes() ==> old(self)@.sampled().steps_to(
                stepped@,
                final(self)@.memory.controller.buttons,
            ),
            (old(self)@.executes() ==> old(self)@.sampled().step_is_quiet()) ==> final(self)@
                == old(self)@.ticked(final(self)@.memory.controller.buttons),
            final(self)@.wf(),
            final(self)@.total_cycles == old(self)@.total_cycles + 1,
    {
        self.sample();
        let stepped = if self.current_cycle > self.instruction_cycle_count {
            self.begin(ppu)
        } else {
            Ghost(self@)
        };
        self.hijack(ppu);
        self.end_cycle();
        stepped
    }

    /// Runs the processor for one cycle of the master clock. A cycle
    /// cannot fail: a read that nothing answers yields zero, a write that
    /// nothing takes is lost, and a halted processor only counts cycles.
    ///
    /// The count of cycles goes up by one. The state afterwards is that of
    /// [`CpuState::ticked_by`] for some state that the execution of the
    /// next instruction can lead to. Where the cycle executes an
    /// instruction whose fetch stays clear of the picture unit and the
    /// controller, and where it executes none, the state afterwards is
    /// that of [`CpuState::ticked`].
    pub fn tick(&mut self, ppu: &mut Ppu) -> (result: Result<(), MyTickError>)
        requires
            old(self)@.wf(),
            old(self)@.total_cycles < u64::MAX,
        ensures
            result is Ok,
            final(self)@.wf(),
            final(self)@.total_cycles == old(self)@.total_cycles + 1,
            exists|stepped: CpuState|
                (old(self)@.executes() ==> old(self)@.sampled().steps_to(
                    stepped,
                    final(self)@.memory.controller.buttons,
                )) && final(self)@ == #[trigger] old(self)@.ticked_by(stepped),
            (old(self)@.executes() ==> old(self)@.sampled().step_is_quiet()) ==> final(self)@
                == old(self)@.ticked(final(self)@.memory.controller.buttons),
    {
        let stepped = self.cycle(ppu);
        Ok(())
    }
}

/// Bytes read off the program counter in two goes are bytes read in one.
proof fn lemma_two_advances(
    start: CpuState,
    first: int,
    middle: CpuState,
    second: int,
    end: CpuState,
)
    requires
        0 <= first <= 3,
        0 <= second <= 3,
        start.advances_to(first, middle),
        middle.advances_to(second, end),
    ensures
        start.advances_to(first + second, end),
{
    assert(wrap16(wrap16(start.registers.pc + first) + second) == wrap16(
        start.registers.pc + first + second,
    ));
}

} // verus!
