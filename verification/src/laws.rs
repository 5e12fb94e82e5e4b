//! Properties that relate several instructions or hold of every input,
//! stated and proved once over the model semantics of `model`.

use vstd::prelude::*;

verus! {

use crate::cpu::{AddressingMode, CARRY_FLAG, ZERO_FLAG, NEGATIVE_FLAG};
use crate::model::{CpuModel, MEMORY_SIZE, PROGRAM_BASE, RESET_VECTOR, StepResult, byte_at, flag_set,
    set_flag, take_steps, spec_step, with_zero_and_negative, wrapping_add_u16, word_at,
    mem_with_word, resolve, inx_model, dex_model, pha_model, pla_model, load_model,
    reset_model};

/// Setting one flag bit leaves every disjoint bit alone, and the bit itself
/// reads back as it was set.
proof fn lemma_flag_bits(status: u8, flag: u8, other: u8)
    by (bit_vector)
    requires
        flag & other == 0,
    ensures
        (status | flag) & flag == flag,
        (status & !flag) & flag == 0,
        (status | flag) & other == status & other,
        (status & !flag) & other == status & other,
{
}

/// The zero and negative flag bits occupy disjoint positions, and neither
/// mask is empty; the sign bit of a byte is set exactly on the values from
/// 0x80 up.
proof fn lemma_flag_layout(value: u8)
    by (bit_vector)
    ensures
        ZERO_FLAG & NEGATIVE_FLAG == 0,
        NEGATIVE_FLAG & ZERO_FLAG == 0,
        value & 0x80 != 0 <==> value >= 0x80,
{
}

/// The composite zero/negative update sets the zero flag exactly when the
/// value is zero and the negative flag exactly when bit 7 of the value is
/// set, whatever the prior status byte held.
pub proof fn lemma_update_zero_and_negative(status: u8, value: u8)
    ensures
        flag_set(with_zero_and_negative(status, value), ZERO_FLAG) <==> value == 0,
        flag_set(with_zero_and_negative(status, value), NEGATIVE_FLAG) <==> value >= 0x80,
{
    lemma_flag_layout(value);
    let after_zero = set_flag(status, ZERO_FLAG, value == 0);
    lemma_flag_bits(status, ZERO_FLAG, NEGATIVE_FLAG);
    lemma_flag_bits(after_zero, NEGATIVE_FLAG, ZERO_FLAG);
}

/// Loading an immediate value into the accumulator and then storing the
/// accumulator to a zero-page address leaves the byte at that address equal
/// to the value, for every starting state that holds that four-byte program
/// at its program counter.
pub proof fn lemma_load_store_round_trip(m: CpuModel, value: u8, address: u8)
    requires
        m.wf(),
        byte_at(m.memory, m.program_counter) == 0xa9,
        byte_at(m.memory, wrapping_add_u16(m.program_counter, 1)) == value,
        byte_at(m.memory, wrapping_add_u16(m.program_counter, 2)) == 0x85,
        byte_at(m.memory, wrapping_add_u16(m.program_counter, 3)) == address,
    ensures
        take_steps(m, 2) is Some,
        byte_at(take_steps(m, 2).unwrap().memory, address as u16) == value,
        take_steps(m, 2).unwrap().accumulator == value,
{
    match spec_step(m) {
        StepResult::KeepGoing(loaded) => {
            assert(take_steps(m, 2) == take_steps(loaded, 1));
            assert(loaded.accumulator == value);
            match spec_step(loaded) {
                StepResult::KeepGoing(stored) => {
                    assert(take_steps(loaded, 1) == take_steps(stored, 0));
                    assert(byte_at(stored.memory, address as u16) == value);
                },
                _ => {
                    assert(false);
                },
            }
        },
        _ => {
            assert(false);
        },
    }
}

/// Incrementing register X past its top value wraps to zero and sets the
/// zero flag.
pub proof fn lemma_increment_wraps(m: CpuModel)
    requires
        m.register_x == 0xff,
    ensures
        inx_model(m).register_x == 0x00,
        flag_set(inx_model(m).status, ZERO_FLAG),
{
    lemma_update_zero_and_negative(m.status, 0x00);
}

/// Decrementing register X past zero wraps to the top value and sets the
/// negative flag.
pub proof fn lemma_decrement_wraps(m: CpuModel)
    requires
        m.register_x == 0x00,
    ensures
        dex_model(m).register_x == 0xff,
        flag_set(dex_model(m).status, NEGATIVE_FLAG),
{
    lemma_update_zero_and_negative(m.status, 0xff);
}

/// Pushing the accumulator, overwriting it with any scratch value, and then
/// popping back into it restores both the accumulator and the stack
/// pointer.
pub proof fn lemma_stack_round_trip(m: CpuModel, scratch: u8)
    requires
        m.wf(),
    ensures
        ({
            let clobbered = CpuModel { accumulator: scratch, ..pha_model(m) };
            pla_model(clobbered).accumulator == m.accumulator
                && pla_model(clobbered).stack_pointer == m.stack_pointer
        }),
{
}

/// A little-endian word written to memory reads back as itself.
pub proof fn lemma_word_round_trip(memory: Seq<u8>, address: u16, value: u16)
    requires
        memory.len() == MEMORY_SIZE,
    ensures
        word_at(mem_with_word(memory, address, value), address) == value,
{
}

/// Loading a program image points the reset vector at the program base, so
/// that a reset begins execution exactly there.
pub proof fn lemma_reset_starts_at_program_base(m: CpuModel, program: Seq<u8>)
    requires
        m.wf(),
    ensures
        reset_model(load_model(m, program)).program_counter == PROGRAM_BASE,
{
    lemma_word_round_trip(load_model(m, program).memory, RESET_VECTOR, PROGRAM_BASE);
}

/// A branch that is not taken leaves the program counter advanced by
/// exactly the two-byte instruction length; a branch that is taken sets it
/// to the relative target and applies no generic advance on top. Stated for
/// the branch on carry clear; every branch goes through the same
/// `branch_model`.
pub proof fn lemma_branch_advance(m: CpuModel)
    requires
        m.wf(),
        byte_at(m.memory, m.program_counter) == 0x90,
    ensures
        flag_set(m.status, CARRY_FLAG) ==> spec_step(m) == StepResult::KeepGoing(
            CpuModel { program_counter: wrapping_add_u16(m.program_counter, 2), ..m },
        ),
        !flag_set(m.status, CARRY_FLAG) ==> spec_step(m) == StepResult::KeepGoing(
            CpuModel {
                program_counter: resolve(
                    CpuModel { program_counter: wrapping_add_u16(m.program_counter, 1), ..m },
                    AddressingMode::Relative,
                ),
                ..m
            },
        ),
{
    let fetched = CpuModel { program_counter: wrapping_add_u16(m.program_counter, 1), ..m };
    if flag_set(m.status, CARRY_FLAG) {
        assert(wrapping_add_u16(fetched.program_counter, 1) == wrapping_add_u16(
            m.program_counter,
            2,
        ));
    }
}

} // verus!
