//! PUSH, POP (pairs and PSW), XTHL, SPHL, IN, OUT, EI, DI.
use vstd::prelude::*;
use crate::instructions::RegisterPair;
use crate::program_counter::offset;
use crate::registers::Registers;
use crate::state::State;

verus! {

pub open spec fn after_pop_reg_pair(s: State, rp: RegisterPair) -> State {
    s.popped().with_pair(rp, s.stack_top())
}

pub open spec fn after_pop_psw(s: State) -> State {
    s.popped().with_psw(s.stack_top())
}

/// XTHL: L trades with the byte at SP, H with the byte at SP + 1.
pub open spec fn after_exchange_stack_top_with_hl(s: State) -> State {
    let sp = s.sp();
    State {
        memory: s.memory.with(sp, s.registers.l).with(offset(sp, 1), s.registers.h),
        registers: Registers {
            l: s.memory.byte(sp),
            h: s.memory.byte(offset(sp, 1)),
            ..s.registers
        },
        ..s
    }
}

pub open spec fn after_input(s: State, port: u8) -> State {
    State { registers: Registers { a: s.inputs.byte(port), ..s.registers }, ..s }
}

pub open spec fn after_output(s: State, port: u8) -> State {
    State { outputs: s.outputs.with(port, s.registers.a), ..s }
}

pub fn execute_push_stack(state: &mut State, value: u16)
    ensures
        *final(state) == old(state).pushed(value),
{
    state.push_word_to_stack(value);
}

pub fn execute_pop_reg_pair(state: &mut State, register_pair: &RegisterPair)
    ensures
        *final(state) == after_pop_reg_pair(*old(state), *register_pair),
{
    let value = state.pop_word_from_stack();
    state.set_register_pair(register_pair, value);
}

pub fn execute_pop_psw(state: &mut State)
    ensures
        *final(state) == after_pop_psw(*old(state)),
{
    let value = state.pop_word_from_stack();
    state.set_psw(value);
}

pub fn execute_exchange_stack_top_with_hl(state: &mut State)
    ensures
        *final(state) == after_exchange_stack_top_with_hl(*old(state)),
{
    let l_address = state.registers.stack_pointer;
    let h_address = l_address.wrapping_add(1);
    let l_byte = state.memory.get(l_address);
    let h_byte = state.memory.get(h_address);
    let l = state.registers.l;
    let h = state.registers.h;
    state.memory.set(l_address, l);
    state.memory.set(h_address, h);
    state.registers.l = l_byte;
    state.registers.h = h_byte;
}

/// SPHL: SP takes the value of HL.
pub fn execute_move_hl_to_sp(state: &mut State)
    ensures
        *final(state) == old(state).with_pair(RegisterPair::SP, old(state).hl()),
{
    let hl = state.get_register_pair(&RegisterPair::HL);
    state.registers.stack_pointer = hl;
}

pub fn execute_input(state: &mut State, port: u8)
    ensures
        *final(state) == after_input(*old(state), port),
{
    state.registers.a = state.inputs.get(port);
}

pub fn execute_output(state: &mut State, port: u8)
    ensures
        *final(state) == after_output(*old(state), port),
{
    let value = state.registers.a;
    state.outputs.set(port, value);
}

/// EI (`true`) and DI (`false`); EI takes effect at once.
pub fn execute_set_interrupt(state: &mut State, value: bool)
    ensures
        *final(state) == (State { interrupt_enabled: value, ..*old(state) }),
{
    state.interrupt_enabled = value;
}

} // verus!
