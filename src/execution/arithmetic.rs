//! ADD, ADC, SUB, SBB (and their immediate forms), INR, DCR, INX, DCX, DAD, DAA.
use vstd::prelude::*;
use crate::alu::{self, add_spec, daa_spec, sub_spec};
use crate::condition_flags::ConditionFlags;
use crate::instructions::{Register, RegisterPair};
use crate::program_counter::offset;
use crate::registers::Registers;
use crate::state::State;

verus! {

/// `s` with A holding `result.0`, S/Z/P describing it, C = `result.1` and
/// AC = `result.2`.
pub open spec fn after_alu(s: State, result: (u8, bool, bool)) -> State {
    State {
        registers: Registers { a: result.0, ..s.registers },
        condition_flags: ConditionFlags {
            carry: result.1,
            aux_carry: result.2,
            ..s.condition_flags.with_result(result.0)
        },
        ..s
    }
}

/// `s` with operand `r` holding `result.0`, S/Z/P describing it and
/// AC = `result.2`; the carry is left alone.
pub open spec fn after_step(s: State, r: Register, result: (u8, bool, bool)) -> State {
    s.with_reg(r, result.0).with_flags(
        ConditionFlags { aux_carry: result.2, ..s.condition_flags.with_result(result.0) },
    )
}

pub open spec fn after_increment(s: State, r: Register) -> State {
    after_step(s, r, add_spec(s.reg(r), 1, false))
}

pub open spec fn after_decrement(s: State, r: Register) -> State {
    after_step(s, r, sub_spec(s.reg(r), 1, false))
}

/// DAD: HL + pair into HL; C is the carry out of bit 15.
pub open spec fn after_add_reg_pair_to_hl(s: State, rp: RegisterPair) -> State {
    let sum = s.hl() + s.pair(rp);
    s.with_pair(RegisterPair::HL, (sum % 65536) as u16).with_flags(
        ConditionFlags { carry: sum >= 65536, ..s.condition_flags },
    )
}

pub open spec fn after_decimal_adjust(s: State) -> State {
    after_alu(
        s,
        daa_spec(s.registers.a, s.condition_flags.carry, s.condition_flags.aux_carry),
    )
}

fn update_state_from_operation(state: &mut State, result: (u8, bool, bool))
    ensures
        *final(state) == after_alu(*old(state), result),
{
    state.registers.a = result.0;
    state.condition_flags.set_zero_sign_parity_flags(result.0);
    state.condition_flags.carry = result.1;
    state.condition_flags.aux_carry = result.2;
}

pub fn execute_add(state: &mut State, value: u8)
    ensures
        *final(state) == after_alu(*old(state), add_spec(old(state).registers.a, value, false)),
{
    let result = alu::add(state.registers.a, value);
    update_state_from_operation(state, result);
}

pub fn execute_add_with_carry(state: &mut State, value: u8)
    ensures
        *final(state) == after_alu(
            *old(state),
            add_spec(old(state).registers.a, value, old(state).condition_flags.carry),
        ),
{
    let result = alu::add_with_carry(state.registers.a, value, state.condition_flags.carry);
    update_state_from_operation(state, result);
}

pub fn execute_subtract(state: &mut State, value: u8)
    ensures
        *final(state) == after_alu(*old(state), sub_spec(old(state).registers.a, value, false)),
{
    let result = alu::sub(state.registers.a, value);
    update_state_from_operation(state, result);
}

pub fn execute_subtract_with_borrow(state: &mut State, value: u8)
    ensures
        *final(state) == after_alu(
            *old(state),
            sub_spec(old(state).registers.a, value, old(state).condition_flags.carry),
        ),
{
    let result = alu::sub_with_borrow(state.registers.a, value, state.condition_flags.carry);
    update_state_from_operation(state, result);
}

/// INR: the carry flag is not touched.
pub fn execute_increment(state: &mut State, register: &Register)
    ensures
        *final(state) == after_increment(*old(state), *register),
{
    let value = state.get_register(register);
    let (result, _, aux_carry) = alu::add(value, 1);
    state.set_register(register, result);
    state.condition_flags.set_zero_sign_parity_flags(result);
    state.condition_flags.aux_carry = aux_carry;
}

/// DCR: the carry flag is not touched.
pub fn execute_decrement(state: &mut State, register: &Register)
    ensures
        *final(state) == after_decrement(*old(state), *register),
{
    let value = state.get_register(register);
    let (result, _, aux_carry) = alu::sub(value, 1);
    state.set_register(register, result);
    state.condition_flags.set_zero_sign_parity_flags(result);
    state.condition_flags.aux_carry = aux_carry;
}

/// INX: no flags.
pub fn execute_increment_reg_pair(state: &mut State, register_pair: &RegisterPair)
    ensures
        *final(state) == old(state).with_pair(
            *register_pair,
            offset(old(state).pair(*register_pair), 1),
        ),
{
    let value = state.get_register_pair(register_pair);
    state.set_register_pair(register_pair, value.wrapping_add(1));
}

/// DCX: no flags.
pub fn execute_decrement_reg_pair(state: &mut State, register_pair: &RegisterPair)
    ensures
        *final(state) == old(state).with_pair(
            *register_pair,
            offset(old(state).pair(*register_pair), -1),
        ),
{
    let value = state.get_register_pair(register_pair);
    state.set_register_pair(register_pair, value.wrapping_sub(1));
}

pub fn execute_add_reg_pair_to_hl(state: &mut State, register_pair: &RegisterPair)
    ensures
        *final(state) == after_add_reg_pair_to_hl(*old(state), *register_pair),
{
    let hl_value = state.get_register_pair(&RegisterPair::HL);
    let value = state.get_register_pair(register_pair);
    let sum: u32 = hl_value as u32 + value as u32;
    state.set_register_pair(&RegisterPair::HL, (sum % 65536) as u16);
    state.condition_flags.carry = sum >= 65536;
}

pub fn execute_decimal_adjust(state: &mut State)
    ensures
        *final(state) == after_decimal_adjust(*old(state)),
{
    let result = alu::decimal_adjust(
        state.registers.a,
        state.condition_flags.carry,
        state.condition_flags.aux_carry,
    );
    update_state_from_operation(state, result);
}

} // verus!
