use vstd::prelude::*;

use super::addressing_modes::{mode_model, operand_width, AddressMode};
use super::instructions::{descriptor, InstructionName};
use super::operations::{branch_target, op_model, Opcode};
use super::{
    clock_model, count_down, flag_set, high_byte, lemma_wrap16, lemma_wrap8, with_flag, with_zn,
    word, wrap16, wrap8, CpuState, Flag,
};

verus! {

/// Setting a flag gives it the new value and leaves every other flag as it was.
pub proof fn lemma_with_flag(status: u8, flag: Flag, value: bool, other: Flag)
    ensures
        flag_set(with_flag(status, flag, value), flag) == value,
        other != flag ==> flag_set(with_flag(status, flag, value), other) == flag_set(status, other),
{
    let m = flag.mask();
    let n = other.mask();
    assert(((status | m) & m != 0u8) && ((status & !m) & m == 0u8)) by (bit_vector)
        requires
            m == 1u8 || m == 2u8 || m == 4u8 || m == 8u8 || m == 16u8 || m == 32u8 || m == 64u8
                || m == 128u8,
    ;
    if other != flag {
        assert(m != n);
        assert(((status | m) & n != 0u8) == (status & n != 0u8) && ((status & !m) & n != 0u8) == (
        status & n != 0u8)) by (bit_vector)
            requires
                m == 1u8 || m == 2u8 || m == 4u8 || m == 8u8 || m == 16u8 || m == 32u8 || m
                    == 64u8 || m == 128u8,
                n == 1u8 || n == 2u8 || n == 4u8 || n == 8u8 || n == 16u8 || n == 32u8 || n
                    == 64u8 || n == 128u8,
                m != n,
        ;
    }
}

/// After an 8-bit result `v`, Zero tells whether it is zero and Negative
/// whether its bit 7 is set.
pub proof fn lemma_with_zn(status: u8, v: u8)
    ensures
        flag_set(with_zn(status, v), Flag::Zero) == (v == 0),
        flag_set(with_zn(status, v), Flag::Negative) == (v >= 128),
{
    lemma_with_flag(status, Flag::Zero, v == 0, Flag::Negative);
    lemma_with_flag(with_flag(status, Flag::Zero, v == 0), Flag::Negative, v >= 128, Flag::Zero);
}

/// Each addressing mode moves the program counter past exactly its operand bytes.
pub proof fn lemma_operand_width(s: CpuState, mem: Seq<u8>, mode: AddressMode)
    ensures
        mode_model(s, mem, mode).0.program_counter == wrap16(s.program_counter + operand_width(mode)),
{
    reveal(mode_model);
    lemma_wrap16(s.program_counter + 0);
}

/// Whether `op` is a conditional branch.
pub open spec fn is_branch(op: Opcode) -> bool {
    op == Opcode::BCC || op == Opcode::BCS || op == Opcode::BNE || op == Opcode::BEQ || op
        == Opcode::BPL || op == Opcode::BMI || op == Opcode::BVC || op == Opcode::BVS
}

/// The condition under which the branch `op` is taken.
pub open spec fn branch_taken(op: Opcode, status: u8) -> bool {
    match op {
        Opcode::BCC => !flag_set(status, Flag::Carry),
        Opcode::BCS => flag_set(status, Flag::Carry),
        Opcode::BNE => !flag_set(status, Flag::Zero),
        Opcode::BEQ => flag_set(status, Flag::Zero),
        Opcode::BPL => !flag_set(status, Flag::Negative),
        Opcode::BMI => flag_set(status, Flag::Negative),
        Opcode::BVC => !flag_set(status, Flag::Overflow),
        _ => flag_set(status, Flag::Overflow),
    }
}

/// A branch not taken costs no cycle and leaves the program counter; a
/// branch taken costs one cycle within the page and two across a page
/// boundary, and moves the program counter to the target.
pub proof fn lemma_branch_timing(op: Opcode, s: CpuState, mem: Seq<u8>)
    requires
        is_branch(op),
    ensures
        ({
            let after = op_model(op, s, mem).0;
            let t = branch_target(s);
            &&& !branch_taken(op, s.status) ==> after == s
            &&& branch_taken(op, s.status) && high_byte(t) == high_byte(s.program_counter)
                ==> after.remaining_cycles == wrap8(s.remaining_cycles + 1)
                && after.program_counter == t
            &&& branch_taken(op, s.status) && high_byte(t) != high_byte(s.program_counter)
                ==> after.remaining_cycles == wrap8(s.remaining_cycles + 2)
                && after.program_counter == t
        }),
{
    reveal(op_model);
}

/// Pushing the accumulator and pulling it back restores it and the stack
/// pointer, with Zero and Negative describing it.
pub proof fn lemma_push_pull_accumulator(s: CpuState, mem: Seq<u8>)
    requires
        mem.len() == 0x10000,
    ensures
        ({
            let pushed = op_model(Opcode::PHA, s, mem);
            let pulled = op_model(Opcode::PLA, pushed.0, pushed.1).0;
            &&& pulled.accumulator == s.accumulator
            &&& pulled.stack_pointer == s.stack_pointer
            &&& pulled.status == with_zn(s.status, s.accumulator)
        }),
{
    reveal(op_model);
    lemma_wrap8(s.stack_pointer - 1);
    lemma_wrap8(wrap8(s.stack_pointer - 1) + 1);
}

/// An indirect pointer whose low byte is 0xFF takes the high byte of its
/// target from the first byte of its own page, not of the next one.
pub proof fn lemma_indirect_page_wrap(s: CpuState, mem: Seq<u8>)
    requires
        mem[s.program_counter as int] == 0xFF,
    ensures
        ({
            let hi = mem[wrap16(s.program_counter + 1) as int];
            mode_model(s, mem, AddressMode::IND).0.address_absolute == word(
                mem[word(0xFF, hi) as int],
                mem[word(0, hi) as int],
            )
        }),
{
    reveal(mode_model);
}

/// An opcode without architectural effect changes no register, flag or
/// memory byte: the program counter moves past it and its base cycles are
/// counted down.
pub proof fn lemma_illegal_opcode(s: CpuState, mem: Seq<u8>)
    requires
        s.remaining_cycles == 0,
        descriptor(mem[s.program_counter as int]).operation == Opcode::XXX,
    ensures
        ({
            let ins = descriptor(mem[s.program_counter as int]);
            let after = clock_model(s, mem);
            &&& after.1 == mem
            &&& after.0.accumulator == s.accumulator
            &&& after.0.register_x == s.register_x
            &&& after.0.register_y == s.register_y
            &&& after.0.stack_pointer == s.stack_pointer
            &&& after.0.status == s.status
            &&& after.0.program_counter == wrap16(
                wrap16(s.program_counter + 1) + operand_width(ins.address_mode),
            )
            &&& after.0.remaining_cycles == count_down(ins.number_cycles)
        }),
{
    reveal(op_model);
    let ins = descriptor(mem[s.program_counter as int]);
    let d = CpuState {
        opcode: mem[s.program_counter as int],
        program_counter: wrap16(s.program_counter + 1),
        remaining_cycles: ins.number_cycles,
        ..s
    };
    lemma_operand_width(d, mem, ins.address_mode);
    let e = mode_model(d, mem, ins.address_mode).1;
    assert(e & 0u8 == 0u8) by (bit_vector);
    lemma_wrap8(ins.number_cycles + 0);
    reveal(mode_model);
}

/// Decrementing a register at 0 gives 255, which is negative and not zero;
/// incrementing it at 255 gives 0, which is zero.
pub proof fn lemma_register_wrap(s: CpuState, mem: Seq<u8>)
    ensures
        s.register_x == 0 ==> ({
            let after = op_model(Opcode::DEX, s, mem).0;
            after.register_x == 255 && flag_set(after.status, Flag::Negative) && !flag_set(
                after.status,
                Flag::Zero,
            )
        }),
        s.register_y == 0 ==> ({
            let after = op_model(Opcode::DEY, s, mem).0;
            after.register_y == 255 && flag_set(after.status, Flag::Negative) && !flag_set(
                after.status,
                Flag::Zero,
            )
        }),
        s.register_x == 255 ==> ({
            let after = op_model(Opcode::INX, s, mem).0;
            after.register_x == 0 && flag_set(after.status, Flag::Zero)
        }),
        s.register_y == 255 ==> ({
            let after = op_model(Opcode::INY, s, mem).0;
            after.register_y == 0 && flag_set(after.status, Flag::Zero)
        }),
{
    reveal(op_model);
    lemma_with_zn(s.status, 255);
    lemma_with_zn(s.status, 0);
    lemma_wrap8(-1);
    lemma_wrap8(256);
}

/// An undocumented opcode byte runs the illegal-instruction handler or a
/// no-operation: neither changes a register, a flag or memory.
pub proof fn lemma_undocumented_opcodes(opcode: u8)
    ensures
        descriptor(opcode).name == InstructionName::Unknown ==> descriptor(opcode).operation
            == Opcode::XXX || descriptor(opcode).operation == Opcode::NOP,
        descriptor(opcode).name != InstructionName::Unknown ==> descriptor(opcode).name
            == InstructionName::Known(descriptor(opcode).operation),
{
    reveal(descriptor);
}

} // verus!
