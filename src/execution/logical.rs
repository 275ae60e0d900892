//! ANA, XRA, ORA, CMP (and immediate forms), rotates, CMA, CMC, STC.
use vstd::prelude::*;
use crate::alu::{self, sub_spec};
use crate::condition_flags::ConditionFlags;
use crate::registers::Registers;
use crate::state::State;

verus! {

/// `s` with A holding `value`, S/Z/P describing it, C clear and AC as given.
pub open spec fn after_logical(s: State, value: u8, aux_carry: bool) -> State {
    State {
        registers: Registers { a: value, ..s.registers },
        condition_flags: ConditionFlags {
            carry: false,
            aux_carry: aux_carry,
            ..s.condition_flags.with_result(value)
        },
        ..s
    }
}

/// ANA: AC is bit 3 of the OR of the two operands.
pub open spec fn after_and(s: State, value: u8) -> State {
    after_logical(s, s.registers.a & value, ((s.registers.a | value) & 0x08) != 0)
}

pub open spec fn after_xor(s: State, value: u8) -> State {
    after_logical(s, s.registers.a ^ value, false)
}

pub open spec fn after_or(s: State, value: u8) -> State {
    after_logical(s, s.registers.a | value, false)
}

/// CMP: the flags of A - value; A is kept.
pub open spec fn after_compare(s: State, value: u8) -> State {
    let r = sub_spec(s.registers.a, value, false);
    s.with_flags(
        ConditionFlags { carry: r.1, aux_carry: r.2, ..s.condition_flags.with_result(r.0) },
    )
}

/// `s` with A holding `value` and C as given; no other flag changes.
pub open spec fn after_rotate(s: State, value: int, carry: bool) -> State {
    State {
        registers: Registers { a: value as u8, ..s.registers },
        condition_flags: ConditionFlags { carry: carry, ..s.condition_flags },
        ..s
    }
}

/// RLC: bit 7 goes to C and to bit 0.
pub open spec fn after_rotate_left(s: State) -> State {
    let a = s.registers.a;
    after_rotate(s, (a * 2) % 256 + a / 128, a >= 128)
}

/// RRC: bit 0 goes to C and to bit 7.
pub open spec fn after_rotate_right(s: State) -> State {
    let a = s.registers.a;
    after_rotate(s, a / 2 + (a % 2) * 128, a % 2 == 1)
}

/// RAL: the old C enters bit 0; bit 7 goes to C.
pub open spec fn after_rotate_left_through_carry(s: State) -> State {
    let a = s.registers.a;
    after_rotate(s, (a * 2) % 256 + (if s.condition_flags.carry { 1int } else { 0 }), a >= 128)
}

/// RAR: the old C enters bit 7; bit 0 goes to C.
pub open spec fn after_rotate_right_through_carry(s: State) -> State {
    let a = s.registers.a;
    after_rotate(s, a / 2 + (if s.condition_flags.carry { 128int } else { 0 }), a % 2 == 1)
}

fn update_state_from_value(state: &mut State, value: u8)
    ensures
        final(state).registers == (Registers { a: value, ..old(state).registers }),
        final(state).condition_flags == (ConditionFlags {
            carry: false,
            ..old(state).condition_flags.with_result(value)
        }),
        final(state).halted == old(state).halted,
        final(state).interrupt_enabled == old(state).interrupt_enabled,
        final(state).program_counter == old(state).program_counter,
        final(state).memory == old(state).memory,
        final(state).inputs == old(state).inputs,
        final(state).outputs == old(state).outputs,
{
    state.registers.a = value;
    state.condition_flags.set_zero_sign_parity_flags(value);
    state.condition_flags.carry = false;
}

pub fn execute_and(state: &mut State, value: u8)
    ensures
        *final(state) == after_and(*old(state), value),
{
    let accum_value = state.registers.a;
    update_state_from_value(state, accum_value & value);
    state.condition_flags.aux_carry = ((accum_value | value) & 0x08) != 0;
}

pub fn execute_xor(state: &mut State, value: u8)
    ensures
        *final(state) == after_xor(*old(state), value),
{
    let accum_value = state.registers.a;
    update_state_from_value(state, accum_value ^ value);
    state.condition_flags.aux_carry = false;
}

pub fn execute_or(state: &mut State, value: u8)
    ensures
        *final(state) == after_or(*old(state), value),
{
    let accum_value = state.registers.a;
    update_state_from_value(state, accum_value | value);
    state.condition_flags.aux_carry = false;
}

pub fn execute_compare(state: &mut State, value: u8)
    ensures
        *final(state) == after_compare(*old(state), value),
{
    let (difference, carry, aux_carry) = alu::sub(state.registers.a, value);
    state.condition_flags.set_zero_sign_parity_flags(difference);
    state.condition_flags.carry = carry;
    state.condition_flags.aux_carry = aux_carry;
}

pub fn execute_rotate_left(state: &mut State)
    ensures
        *final(state) == after_rotate_left(*old(state)),
{
    let a = state.registers.a;
    state.registers.a = (a % 128) * 2 + a / 128;
    state.condition_flags.carry = a >= 128;
}

pub fn execute_rotate_right(state: &mut State)
    ensures
        *final(state) == after_rotate_right(*old(state)),
{
    let a = state.registers.a;
    state.registers.a = a / 2 + (a % 2) * 128;
    state.condition_flags.carry = a % 2 == 1;
}

pub fn execute_rotate_left_through_carry(state: &mut State)
    ensures
        *final(state) == after_rotate_left_through_carry(*old(state)),
{
    let a = state.registers.a;
    let carry_in: u8 = if state.condition_flags.carry { 1 } else { 0 };
    state.registers.a = (a % 128) * 2 + carry_in;
    state.condition_flags.carry = a >= 128;
}

pub fn execute_rotate_right_through_carry(state: &mut State)
    ensures
        *final(state) == after_rotate_right_through_carry(*old(state)),
{
    let a = state.registers.a;
    let carry_in: u8 = if state.condition_flags.carry { 128 } else { 0 };
    state.registers.a = a / 2 + carry_in;
    state.condition_flags.carry = a % 2 == 1;
}

/// CMA: A becomes its complement; no flags.
pub fn execute_complement_accum(state: &mut State)
    ensures
        *final(state) == (State {
            registers: Registers { a: (255 - old(state).registers.a) as u8, ..old(state).registers },
            ..*old(state)
        }),
{
    state.registers.a = 255 - state.registers.a;
}

/// CMC: C becomes its complement.
pub fn execute_complement_carry(state: &mut State)
    ensures
        *final(state) == old(state).with_flags(
            ConditionFlags { carry: !old(state).condition_flags.carry, ..old(state).condition_flags },
        ),
{
    state.condition_flags.carry = !state.condition_flags.carry;
}

/// STC: C is set.
pub fn execute_set_carry(state: &mut State)
    ensures
        *final(state) == old(state).with_flags(
            ConditionFlags { carry: true, ..old(state).condition_flags },
        ),
{
    state.condition_flags.carry = true;
}

} // verus!
