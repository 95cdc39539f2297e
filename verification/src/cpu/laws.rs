//! What holds of the instruction set as a whole.

use crate::bits::has_bit;
use crate::cpu::alu::{
    carry_value, is_negative, lemma_add_identity, lemma_compare_is_subtraction,
    lemma_subtract_identity,
};
use crate::cpu::execute::lemma_only_flow_moves_the_counter;
use crate::cpu::instructions::{decode_spec, AddressingMode, Instruction, InstructionType};
use crate::cpu::registers::{lemma_stack_byte_round_trip, word, StatusRegister};
use crate::cpu::state::{wrap16, CpuState, Registers, IRQ_VECTOR};
use crate::cpu::OperandValue;
use crate::memory::controller::Buttons;
use vstd::prelude::*;

verus! {

/// An instruction without an operand.
pub open spec fn implied(kind: InstructionType) -> Instruction {
    Instruction { instruction_type: kind, addressing_mode: AddressingMode::Implied }
}

/// An instruction with an address as its operand.
pub open spec fn absolute(kind: InstructionType) -> Instruction {
    Instruction { instruction_type: kind, addressing_mode: AddressingMode::Absolute }
}

/// No operand.
pub open spec fn nothing() -> OperandValue {
    OperandValue { value: None, address: None }
}

/// The fetch of an operand moves the program counter past the operand
/// bytes and leaves the other registers alone.
pub proof fn lemma_fetch_moves_the_counter(state: CpuState, mode: AddressingMode, write_only: bool)
    ensures
        state.fetch(mode, write_only).state.registers == (Registers {
            pc: wrap16(state.registers.pc + mode.operand_bytes()),
            ..state.registers
        }),
{
    reveal(CpuState::fetch);
}

/// An instruction that is not a jump, a branch, a call, a return or a
/// break moves the program counter on by its length, opcode included, and
/// no further.
pub proof fn lemma_instruction_length(state: CpuState, joypad: Buttons)
    ensures
        ({
            let instruction = decode_spec(state.memory.peek(state.registers.pc));
            !instruction.instruction_type.alters_flow() ==> state.stepped(joypad).registers.pc
                == wrap16(state.registers.pc + 1 + instruction.addressing_mode.operand_bytes())
        }),
{
    let instruction = decode_spec(state.memory.peek(state.registers.pc));
    let mode = instruction.addressing_mode;
    let consumed = state.opcode_consumed();
    let fetched = consumed.fetch(mode, instruction.instruction_type.is_write_only());
    lemma_fetch_moves_the_counter(consumed, mode, instruction.instruction_type.is_write_only());
    lemma_only_flow_moves_the_counter(fetched.state, instruction, fetched.operand, joypad);
    assert(wrap16(wrap16(state.registers.pc + 1) + mode.operand_bytes()) == wrap16(
        state.registers.pc + 1 + mode.operand_bytes(),
    ));
}

/// What each of the eight instructions that push or pull makes of a
/// state.
pub proof fn lemma_stack_instructions(state: CpuState, operand: OperandValue, joypad: Buttons)
    ensures
        state.apply(implied(InstructionType::PHA), operand, joypad) == state.pushed(
            state.registers.a,
        ),
        state.apply(implied(InstructionType::PHP), operand, joypad) == state.pushed(
            state.registers.p.stack_byte() as u8,
        ),
        state.apply(implied(InstructionType::PLA), operand, joypad)
            == state.pulled().with_registers(state.pulled().registers.with_a(state.top())),
        state.apply(implied(InstructionType::PLP), operand, joypad) == state.pulled().resumed(
            state.registers.pc,
            StatusRegister::from_byte(state.top()),
        ),
        state.apply(absolute(InstructionType::JSR), operand, joypad) == state.pushed(
            (wrap16(state.registers.pc - 1) / 256) as u8,
        ).pushed((wrap16(state.registers.pc - 1) % 256) as u8).resumed(
            operand.place(),
            state.registers.p,
        ),
        state.apply(implied(InstructionType::RTS), operand, joypad)
            == state.pulled().pulled().resumed(
            wrap16(word(state.pulled().top(), state.top()) + 1),
            state.registers.p,
        ),
        state.apply(implied(InstructionType::BRK), operand, joypad) == state.interrupted(
            wrap16(state.registers.pc + 1),
            state.registers.p.stack_byte() as u8,
            IRQ_VECTOR,
        ),
        state.apply(implied(InstructionType::RTI), operand, joypad)
            == state.pulled().pulled().pulled().resumed(
            word(state.pulled().pulled().top(), state.pulled().top()),
            StatusRegister::from_byte(state.top()),
        ),
{
    reveal(CpuState::apply);
    reveal(CpuState::apply_stack);
}

/// A byte that has been pushed is the byte that a pull yields, and the
/// pull leaves the registers as they were before the push.
pub proof fn lemma_push_then_pull(state: CpuState, value: u8)
    requires
        state.memory.wf(),
    ensures
        state.pushed(value).memory.wf(),
        state.pushed(value).top() == value,
        state.pushed(value).pulled().registers == state.registers,
        state.pushed(value).pulled().memory == state.pushed(value).memory,
        state.pushed(value).driver() == state.driver(),
{
}

/// Two bytes that have been pushed come back in the opposite order.
pub proof fn lemma_two_pushes(state: CpuState, first: u8, second: u8)
    requires
        state.memory.wf(),
    ensures
        ({
            let full = state.pushed(first).pushed(second);
            &&& full.memory.wf()
            &&& full.top() == second
            &&& full.pulled().top() == first
            &&& full.pulled().pulled().registers == state.registers
        }),
{
    lemma_push_then_pull(state, first);
    lemma_push_then_pull(state.pushed(first), second);
}

/// Three bytes that have been pushed come back in the opposite order.
pub proof fn lemma_three_pushes(state: CpuState, first: u8, second: u8, third: u8)
    requires
        state.memory.wf(),
    ensures
        ({
            let full = state.pushed(first).pushed(second).pushed(third);
            &&& full.memory.wf()
            &&& full.top() == third
            &&& full.pulled().top() == second
            &&& full.pulled().pulled().top() == first
            &&& full.pulled().pulled().pulled().registers == state.registers
        }),
{
    lemma_two_pushes(state, first, second);
    lemma_push_then_pull(state.pushed(first).pushed(second), third);
    lemma_two_pushes(state.pushed(first), second, third);
}

/// PHA followed by PLA leaves the accumulator and the stack pointer as
/// they were, and the zero and negative flags say what the accumulator
/// holds.
pub proof fn lemma_pha_then_pla(state: CpuState, joypad: Buttons)
    requires
        state.memory.wf(),
    ensures
        ({
            let after = state.apply(implied(InstructionType::PHA), nothing(), joypad).apply(
                implied(InstructionType::PLA),
                nothing(),
                joypad,
            );
            &&& after.registers.a == state.registers.a
            &&& after.registers.s == state.registers.s
            &&& after.registers.p.zero_bit == (state.registers.a == 0)
            &&& after.registers.p.negative_bit == is_negative(state.registers.a)
        }),
{
    lemma_stack_instructions(state, nothing(), joypad);
    lemma_stack_instructions(state.pushed(state.registers.a), nothing(), joypad);
    lemma_push_then_pull(state, state.registers.a);
}

/// PHP followed by PLP leaves all six flags and the stack pointer as they
/// were.
pub proof fn lemma_php_then_plp(state: CpuState, joypad: Buttons)
    requires
        state.memory.wf(),
    ensures
        ({
            let after = state.apply(implied(InstructionType::PHP), nothing(), joypad).apply(
                implied(InstructionType::PLP),
                nothing(),
                joypad,
            );
            &&& after.registers.p == state.registers.p
            &&& after.registers.s == state.registers.s
        }),
{
    let status = state.registers.p.stack_byte() as u8;
    lemma_stack_instructions(state, nothing(), joypad);
    lemma_stack_instructions(state.pushed(status), nothing(), joypad);
    lemma_push_then_pull(state, status);
    lemma_stack_byte_round_trip(state.registers.p);
}

/// The two halves of a word make the word, and the address behind the
/// address before another is that other address.
pub proof fn lemma_words(value: u16)
    ensures
        word((value / 256) as u8, (value % 256) as u8) == value,
        wrap16(wrap16(value - 1) + 1) == value,
{
    if value == 0 {
        assert(wrap16(value - 1) == 0xFFFF);
    } else {
        assert(wrap16(value - 1) == value - 1);
    }
}

/// JSR followed at once by RTS continues at the instruction behind the
/// JSR, with the stack pointer as it was. The state is the one in which
/// JSR has its operand, so its program counter points behind the JSR.
pub proof fn lemma_jsr_then_rts(state: CpuState, target: u16, joypad: Buttons)
    requires
        state.memory.wf(),
    ensures
        ({
            let called = state.apply(
                absolute(InstructionType::JSR),
                OperandValue { value: None, address: Some(target) },
                joypad,
            );
            let after = called.apply(implied(InstructionType::RTS), nothing(), joypad);
            &&& called.registers.pc == target
            &&& after.registers.pc == state.registers.pc
            &&& after.registers.s == state.registers.s
        }),
{
    let operand = OperandValue { value: None, address: Some(target) };
    let back = wrap16(state.registers.pc - 1);
    let high = (back / 256) as u8;
    let low = (back % 256) as u8;
    let called = state.pushed(high).pushed(low).resumed(target, state.registers.p);
    lemma_stack_instructions(state, operand, joypad);
    lemma_stack_instructions(called, nothing(), joypad);
    lemma_two_pushes(state, high, low);
    lemma_words(back);
    lemma_words(state.registers.pc);
    assert(called.top() == low);
    assert(called.pulled().top() == high);
}

/// BRK followed at once by RTI continues behind the byte that follows the
/// BRK opcode, with all six flags and the stack pointer as they were. The
/// status byte that BRK pushed had bit 4 set; the flags that RTI pulled
/// have no such bit. The state is the one in which BRK has been fetched,
/// so its program counter points behind the opcode.
pub proof fn lemma_brk_then_rti(state: CpuState, joypad: Buttons)
    requires
        state.memory.wf(),
    ensures
        ({
            let broken = state.apply(implied(InstructionType::BRK), nothing(), joypad);
            let after = broken.apply(implied(InstructionType::RTI), nothing(), joypad);
            &&& broken.registers.p.interrupt_bit
            &&& has_bit(broken.top(), 16)
            &&& after.registers.pc == wrap16(state.registers.pc + 1)
            &&& after.registers.p == state.registers.p
            &&& after.registers.s == state.registers.s
        }),
{
    let back = wrap16(state.registers.pc + 1);
    let high = (back / 256) as u8;
    let low = (back % 256) as u8;
    let status = state.registers.p.stack_byte() as u8;
    let saved = state.pushed(high).pushed(low).pushed(status);
    let broken = state.interrupted(back, status, IRQ_VECTOR);
    lemma_stack_instructions(state, nothing(), joypad);
    lemma_stack_instructions(broken, nothing(), joypad);
    lemma_three_pushes(state, high, low, status);
    lemma_stack_byte_round_trip(state.registers.p);
    assert(broken.top() == saved.top());
    assert(broken.pulled().top() == saved.pulled().top());
    assert(broken.pulled().pulled().top() == saved.pulled().pulled().top());
    assert(word(high, low) == back);
}

/// No instruction changes the length of the internal memory.
pub proof fn lemma_memory_stays_well_formed(
    state: CpuState,
    instruction: Instruction,
    operand: OperandValue,
    joypad: Buttons,
)
    requires
        state.memory.wf(),
    ensures
        state.apply(instruction, operand, joypad).memory.wf(),
{
    reveal(CpuState::apply);
    if instruction.instruction_type.uses_stack() {
        reveal(CpuState::apply_stack);
    }
}

/// The status byte that PHP pushes has bits 4 and 5 set, whatever ran
/// before: no instruction can change what a later PHP and pull show in
/// these two bits.
pub proof fn lemma_bits_four_and_five(
    state: CpuState,
    instruction: Instruction,
    operand: OperandValue,
    joypad: Buttons,
)
    requires
        state.memory.wf(),
    ensures
        ({
            let before = state.apply(implied(InstructionType::PHP), nothing(), joypad).top();
            let after = state.apply(instruction, operand, joypad).apply(
                implied(InstructionType::PHP),
                nothing(),
                joypad,
            ).top();
            &&& has_bit(before, 16) == has_bit(after, 16)
            &&& has_bit(before, 32) == has_bit(after, 32)
            &&& has_bit(after, 16) && has_bit(after, 32)
        }),
{
    let changed = state.apply(instruction, operand, joypad);
    lemma_memory_stays_well_formed(state, instruction, operand, joypad);
    lemma_stack_instructions(state, nothing(), joypad);
    lemma_stack_instructions(changed, nothing(), joypad);
    lemma_stack_byte_round_trip(state.registers.p);
    lemma_stack_byte_round_trip(changed.registers.p);
    lemma_push_then_pull(state, state.registers.p.stack_byte() as u8);
    lemma_push_then_pull(changed, changed.registers.p.stack_byte() as u8);
}

/// ADC leaves `(A + M + carry) mod 256` in the accumulator and SBC
/// `(A - M - (1 - carry)) mod 256`; each sets the overflow flag by the
/// sign bits of the two inputs and the result.
pub proof fn lemma_adc_and_sbc(registers: Registers, operand: OperandValue)
    ensures
        ({
            let a = registers.a;
            let m = operand.byte();
            let carry = carry_value(registers.p.carry_bit);
            let added = registers.compute_spec(InstructionType::ADC, operand).registers;
            let subtracted = registers.compute_spec(InstructionType::SBC, operand).registers;
            &&& added.a == (a + m + carry) % 256
            &&& added.p.carry_bit == (a + m + carry > 255)
            &&& added.p.overflow_bit == (((a ^ added.a) & (m ^ added.a) & 0x80) != 0)
            &&& subtracted.a == (a - m - (1 - carry)) % 256
            &&& subtracted.p.carry_bit == (a - m - (1 - carry) >= 0)
            &&& subtracted.p.overflow_bit == (((a ^ m) & (a ^ subtracted.a) & 0x80) != 0)
        }),
{
    reveal(Registers::arithmetic);
    lemma_add_identity(registers.a, operand.byte(), registers.p.carry_bit);
    lemma_subtract_identity(registers.a, operand.byte(), registers.p.carry_bit);
}

/// CMP leaves the accumulator as it was and sets carry, zero and negative
/// as SBC does when it starts with the carry set; it leaves the overflow
/// flag alone.
pub proof fn lemma_cmp_is_sbc_without_store(
    state: CpuState,
    mode: AddressingMode,
    operand: OperandValue,
    joypad: Buttons,
)
    ensures
        ({
            let compared = state.apply(
                Instruction { instruction_type: InstructionType::CMP, addressing_mode: mode },
                operand,
                joypad,
            );
            let carried = state.with_registers(
                Registers {
                    p: StatusRegister { carry_bit: true, ..state.registers.p },
                    ..state.registers
                },
            );
            let subtracted = carried.apply(
                Instruction { instruction_type: InstructionType::SBC, addressing_mode: mode },
                operand,
                joypad,
            );
            &&& compared.registers.a == state.registers.a
            &&& compared.memory == state.memory
            &&& compared.registers.p.carry_bit == subtracted.registers.p.carry_bit
            &&& compared.registers.p.zero_bit == subtracted.registers.p.zero_bit
            &&& compared.registers.p.negative_bit == subtracted.registers.p.negative_bit
            &&& compared.registers.p.overflow_bit == state.registers.p.overflow_bit
        }),
{
    reveal(CpuState::apply);
    reveal(Registers::arithmetic);
    lemma_compare_is_subtraction(state.registers.a, operand.byte());
}

} // verus!
