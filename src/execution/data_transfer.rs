//! MOV, MVI, LXI, LDA, STA, LHLD, SHLD, LDAX, STAX, XCHG. No flag changes.
use vstd::prelude::*;
use crate::instructions::{Register, RegisterPair};
use crate::program_counter::offset;
use crate::registers::Registers;
use crate::state::State;

verus! {

pub open spec fn after_load_accum(s: State, address: u16) -> State {
    State { registers: Registers { a: s.memory.byte(address), ..s.registers }, ..s }
}

pub open spec fn after_store_accum(s: State, address: u16) -> State {
    State { memory: s.memory.with(address, s.registers.a), ..s }
}

/// LHLD: L from `address`, H from the next address (wrapping).
pub open spec fn after_load_hl(s: State, address: u16) -> State {
    State {
        registers: Registers {
            l: s.memory.byte(address),
            h: s.memory.byte(offset(address, 1)),
            ..s.registers
        },
        ..s
    }
}

/// SHLD: L to `address`, H to the next address (wrapping).
pub open spec fn after_store_hl(s: State, address: u16) -> State {
    State {
        memory: s.memory.with(address, s.registers.l).with(offset(address, 1), s.registers.h),
        ..s
    }
}

/// XCHG: HL and DE trade values.
pub open spec fn after_exchange_hl_with_de(s: State) -> State {
    State {
        registers: Registers {
            h: s.registers.d,
            l: s.registers.e,
            d: s.registers.h,
            e: s.registers.l,
            ..s.registers
        },
        ..s
    }
}

pub fn execute_move(state: &mut State, destination: &Register, value: u8)
    ensures
        *final(state) == old(state).with_reg(*destination, value),
{
    state.set_register(destination, value);
}

pub fn execute_load_reg_pair_immediate(state: &mut State, register_pair: &RegisterPair, value: u16)
    ensures
        *final(state) == old(state).with_pair(*register_pair, value),
{
    state.set_register_pair(register_pair, value);
}

pub fn execute_load_accum_direct(state: &mut State, address: u16)
    ensures
        *final(state) == after_load_accum(*old(state), address),
{
    state.registers.a = state.memory.get(address);
}

pub fn execute_store_accum_direct(state: &mut State, address: u16)
    ensures
        *final(state) == after_store_accum(*old(state), address),
{
    let value = state.registers.a;
    state.memory.set(address, value);
}

pub fn execute_load_hl_direct(state: &mut State, address: u16)
    ensures
        *final(state) == after_load_hl(*old(state), address),
{
    let l_value = state.memory.get(address);
    let h_value = state.memory.get(address.wrapping_add(1));
    state.registers.l = l_value;
    state.registers.h = h_value;
}

pub fn execute_store_hl_direct(state: &mut State, address: u16)
    ensures
        *final(state) == after_store_hl(*old(state), address),
{
    let l_value = state.registers.l;
    let h_value = state.registers.h;
    state.memory.set(address, l_value);
    state.memory.set(address.wrapping_add(1), h_value);
}

/// LDAX: A from the address held in the pair.
pub fn execute_load_accum_indirect(state: &mut State, register_pair: &RegisterPair)
    ensures
        *final(state) == after_load_accum(*old(state), old(state).pair(*register_pair)),
{
    let address = state.get_register_pair(register_pair);
    execute_load_accum_direct(state, address);
}

/// STAX: A to the address held in the pair.
pub fn execute_store_accum_indirect(state: &mut State, register_pair: &RegisterPair)
    ensures
        *final(state) == after_store_accum(*old(state), old(state).pair(*register_pair)),
{
    let address = state.get_register_pair(register_pair);
    execute_store_accum_direct(state, address);
}

pub fn execute_exchange_hl_with_de(state: &mut State)
    ensures
        *final(state) == after_exchange_hl_with_de(*old(state)),
{
    let h = state.registers.h;
    let l = state.registers.l;
    state.registers.h = state.registers.d;
    state.registers.l = state.registers.e;
    state.registers.d = h;
    state.registers.e = l;
}

} // verus!
