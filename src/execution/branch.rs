//! JMP, CALL, RET (plain and conditional), RST, PCHL.
use vstd::prelude::*;
use crate::state::State;

verus! {

/// CALL, when taken: the address of the next instruction (the program
/// counter, already past the call) is pushed and control goes to `address`.
pub open spec fn after_call(s: State, address: u16) -> State {
    s.pushed(s.pc()).with_pc(address)
}

/// RET, when taken: control goes to the popped address.
pub open spec fn after_return(s: State) -> State {
    s.popped().with_pc(s.stack_top())
}

/// RST n: a one-byte call to `n * 8`.
pub open spec fn after_restart(s: State, n: u8) -> State {
    s.pushed(s.pc()).with_pc((n * 8) as u16)
}

pub fn execute_jump(state: &mut State, address: u16, condition: bool)
    ensures
        *final(state) == if condition { old(state).with_pc(address) } else { *old(state) },
{
    if condition {
        state.program_counter.set(address);
    }
}

pub fn execute_call(state: &mut State, address: u16, condition: bool)
    ensures
        *final(state) == if condition { after_call(*old(state), address) } else { *old(state) },
{
    if condition {
        let return_address = state.program_counter.get();
        state.push_word_to_stack(return_address);
        state.program_counter.set(address);
    }
}

pub fn execute_return(state: &mut State, condition: bool)
    ensures
        *final(state) == if condition { after_return(*old(state)) } else { *old(state) },
{
    if condition {
        let address = state.pop_word_from_stack();
        state.program_counter.set(address);
    }
}

pub fn execute_restart(state: &mut State, n: u8)
    ensures
        *final(state) == after_restart(*old(state), n),
{
    let return_address = state.program_counter.get();
    state.push_word_to_stack(return_address);
    state.program_counter.set(n as u16 * 8);
}

} // verus!
