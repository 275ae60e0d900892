//! A harness for CP/M test programs: a HLT at 0x0000 ends the program when it
//! returns, and the BDOS entry at 0x0005 is `OUT 0; RET`, whose output the
//! harness turns into console text (operation 2: the character in E;
//! operation 9: the `$`-terminated string at DE).
use vstd::prelude::*;
use crate::instructions::{Instruction, Register, RegisterPair};
use crate::memory::{loaded, InternalMemory};
use crate::program_counter::{instruction_at, offset};
use crate::state::State;
use crate::system::{fetch_and_execute, step_spec};

verus! {

/// Address at which CP/M programs are loaded and started.
pub const PROGRAM_START: u16 = 0x100;

/// The byte that ends a string printed by operation 9.
pub const STRING_END: u8 = 0x24;

pub struct TestSystem {
    pub state: State,
}

/// Whether `text` is the string at `start`: the bytes up to the first `$`
/// (not included), wrapping at the top of memory; at most all of memory.
pub open spec fn is_string_at(memory: InternalMemory, start: u16, text: Seq<u8>) -> bool {
    &&& text.len() <= 65536
    &&& forall|k: int|
        0 <= k < text.len() ==> text[k] == memory.byte(offset(start, k)) && text[k] != STRING_END
    &&& text.len() < 65536 ==> memory.byte(offset(start, text.len() as int)) == STRING_END
}

/// Whether `text` is what a BDOS call in state `s` prints.
pub open spec fn is_console_output(s: State, text: Seq<u8>) -> bool {
    if s.registers.c == 2 {
        text == seq![s.registers.e]
    } else if s.registers.c == 9 {
        is_string_at(s.memory, s.pair(RegisterPair::DE), text)
    } else {
        text.len() == 0
    }
}

/// The text that the BDOS call in `state` prints.
pub fn console_output(state: &State) -> (r: Vec<u8>)
    ensures
        is_console_output(*state, r@),
{
    let operation = state.get_register(&Register::C);
    let mut text: Vec<u8> = Vec::new();
    if operation == 2 {
        text.push(state.get_register(&Register::E));
    } else if operation == 9 {
        let start = state.get_register_pair(&RegisterPair::DE);
        let mut address: u16 = start;
        let mut count: u32 = 0;
        let mut at_end = false;
        while !at_end && count < 65536
            invariant
                count <= 65536,
                at_end ==> count < 65536 && state.memory.byte(offset(start, count as int)) == STRING_END,
                text@.len() == count,
                address == offset(start, count as int),
                forall|k: int|
                    0 <= k < text@.len() ==> text@[k] == state.memory.byte(offset(start, k))
                        && text@[k] != STRING_END,
            decreases 65536 - count + (if at_end { 0int } else { 1 }),
        {
            let value = state.memory.get(address);
            if value == STRING_END {
                at_end = true;
            } else {
                text.push(value);
                address = address.wrapping_add(1);
                count = count + 1;
            }
        }
    }
    text
}

impl TestSystem {
    /// A fresh machine with the program counter at 0x0100, HLT at 0x0000
    /// and `OUT 0; RET` at 0x0005.
    pub fn new() -> (r: Self)
        ensures
            r.state.pc() == PROGRAM_START,
            !r.state.halted,
            r.state.interrupt_enabled,
            r.state.registers.stack_pointer == 0,
            r.state.memory.byte(0) == 0x76,
            r.state.memory.byte(5) == 0xD3,
            r.state.memory.byte(6) == 0x00,
            r.state.memory.byte(7) == 0xC9,
            forall|a: u16| a != 0 && a != 5 && a != 6 && a != 7 ==> r.state.memory.byte(a) == 0,
    {
        broadcast use crate::memory::lemma_byte_with;

        let mut state = State::new();
        state.program_counter.set(PROGRAM_START);
        state.memory.set(0x0000, 0x76);
        state.memory.set(0x0005, 0xD3);
        state.memory.set(0x0006, 0x00);
        state.memory.set(0x0007, 0xC9);
        TestSystem { state }
    }

    /// Copies the program into memory from 0x0100.
    pub fn load_test_program(&mut self, program_bytecode: Vec<u8>)
        ensures
            final(self).state == (State {
                memory: loaded(old(self).state.memory, program_bytecode@, PROGRAM_START),
                ..old(self).state
            }),
    {
        self.state.memory.store_bytes(program_bytecode.as_slice(), program_bytecode.len(), PROGRAM_START);
        assert(program_bytecode@.take(program_bytecode@.len() as int) == program_bytecode@);
    }

    /// Executes the instruction at PC and returns the console text that it
    /// prints: for an `OUT`, the BDOS output of the resulting state, else none.
    pub fn run_current_instruction(&mut self) -> (r: Vec<u8>)
        ensures
            final(self).state == step_spec(old(self).state),
            instruction_at(old(self).state.memory, old(self).state.pc()) is Output
                ==> is_console_output(final(self).state, r@),
            !(instruction_at(old(self).state.memory, old(self).state.pc()) is Output)
                ==> r@.len() == 0,
    {
        let (instruction, _) = fetch_and_execute(&mut self.state);
        match instruction {
            Instruction::Output(_) => console_output(&self.state),
            _ => Vec::new(),
        }
    }
}

} // verus!
