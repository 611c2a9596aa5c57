//! General properties of the machine model, proved once and for all
//! inputs: the flag semantics of the zero/negative update and of
//! compares, the stack round trip, and the idempotence of reset.

use vstd::prelude::*;

use crate::flags::{spec_update_zero_and_negative, CARRY, NEGATIVE, ZERO};
use crate::model::{
    spec_compare_status, spec_reset, spec_stack_pop, spec_stack_pop_u16, spec_stack_push,
    spec_stack_push_u16, wf, Machine,
};

verus! {

/// For every 8-bit `value`, the zero/negative update sets Zero exactly
/// when `value` is zero, sets Negative exactly when `value` has bit 7
/// set (is at least `0x80`), and leaves every other status bit as it
/// was.
pub proof fn lemma_update_zero_and_negative(status: u8, value: u8)
    by (bit_vector)
    ensures
        (spec_update_zero_and_negative(status, value) & ZERO != 0) <==> value == 0,
        (spec_update_zero_and_negative(status, value) & NEGATIVE != 0) <==> value >= 0x80,
        spec_update_zero_and_negative(status, value) & !(ZERO | NEGATIVE) == status & !(ZERO
            | NEGATIVE),
{
}

/// Pushing a byte and immediately popping returns that byte and
/// restores the stack pointer, the registers, the flags and the
/// program counter.
pub proof fn lemma_stack_byte_round_trip(m: Machine, value: u8)
    requires
        wf(m),
    ensures
        ({
            let (m2, popped) = spec_stack_pop(spec_stack_push(m, value));
            popped == value && m2.sp == m.sp && m2.a == m.a && m2.x == m.x && m2.y == m.y
                && m2.status == m.status && m2.pc == m.pc
        }),
{
}

/// Pushing a 16-bit word and immediately popping returns that word and
/// restores the stack pointer, the registers, the flags and the
/// program counter.
pub proof fn lemma_stack_word_round_trip(m: Machine, value: u16)
    requires
        wf(m),
    ensures
        ({
            let (m2, popped) = spec_stack_pop_u16(spec_stack_push_u16(m, value));
            popped == value && m2.sp == m.sp && m2.a == m.a && m2.x == m.x && m2.y == m.y
                && m2.status == m.status && m2.pc == m.pc
        }),
{
}

/// A compare sets Carry exactly when the memory operand is at most the
/// register (the unsigned "no borrow" convention) and sets Zero
/// exactly when the two are equal; at the boundary `operand ==
/// register` both are set.
pub proof fn lemma_compare_flags(status: u8, register: u8, operand: u8)
    by (bit_vector)
    ensures
        (spec_compare_status(status, register, operand) & CARRY != 0) <==> operand <= register,
        (spec_compare_status(status, register, operand) & ZERO != 0) <==> operand == register,
{
}

/// Resetting twice in a row, with nothing in between, leaves exactly
/// the state one reset leaves: reset is determined by memory alone and
/// does not touch memory.
pub proof fn lemma_reset_idempotent(m: Machine)
    ensures
        spec_reset(spec_reset(m)) == spec_reset(m),
{
    assert(spec_reset(spec_reset(m)) =~= spec_reset(m));
}

} // verus!
