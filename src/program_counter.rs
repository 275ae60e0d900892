//! The program counter and instruction fetch.
use vstd::prelude::*;
use crate::decoder::decode;
use crate::instructions::{decoded, Instruction};
use crate::memory::InternalMemory;

verus! {

#[derive(Debug, Clone, Copy, PartialEq, Eq, Structural)]
pub struct ProgramCounter(pub u16);

/// `address + offset`, wrapping at 16 bits.
pub open spec fn offset(address: u16, offset: int) -> u16 {
    ((address + offset) % 65536) as u16
}

/// The instruction stored at `address`, read from the bytes at `address`,
/// `address + 1` and `address + 2` (wrapping).
pub open spec fn is_instruction_at(i: Instruction, memory: InternalMemory, address: u16) -> bool {
    i.is_encoded_by(
        memory.byte(address),
        memory.byte(offset(address, 1)),
        memory.byte(offset(address, 2)),
    )
}

/// The instruction stored at `address`, as a function of memory.
pub open spec fn instruction_at(memory: InternalMemory, address: u16) -> Instruction {
    decoded(
        memory.byte(address),
        memory.byte(offset(address, 1)),
        memory.byte(offset(address, 2)),
    )
}

impl ProgramCounter {
    pub fn new() -> (r: Self)
        ensures
            r.0 == 0,
    {
        ProgramCounter(0)
    }

    pub fn get(&self) -> (r: u16)
        ensures
            r == self.0,
    {
        self.0
    }

    pub fn set(&mut self, address: u16)
        ensures
            final(self).0 == address,
    {
        self.0 = address;
    }

    /// Decodes the instruction at the counter and moves the counter past it.
    pub fn get_next_instruction(&mut self, memory: &InternalMemory) -> (r: Instruction)
        ensures
            is_instruction_at(r, *memory, old(self).0),
            r == instruction_at(*memory, old(self).0),
            final(self).0 == offset(old(self).0, r.size() as int),
    {
        let address = self.0;
        let b0 = memory.get(address);
        let b1 = memory.get(address.wrapping_add(1));
        let b2 = memory.get(address.wrapping_add(2));
        let instruction = decode(b0, b1, b2);
        self.0 = address.wrapping_add(instruction.length());
        instruction
    }
}

} // verus!
