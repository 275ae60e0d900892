//! The architectural state of the processor.
use vstd::prelude::*;
use crate::condition_flags::ConditionFlags;
use crate::instructions::{Register, RegisterPair};
use crate::memory::{IOMemory, InternalMemory};
use crate::program_counter::{offset, ProgramCounter};
use crate::registers::{word, Registers};

verus! {

/// Registers, flags, memory, ports, program counter and the two latches.
/// `halted` is the halt latch: while it is set the stepper issues nothing.
#[derive(Debug)]
pub struct State {
    pub halted: bool,
    pub interrupt_enabled: bool,
    pub program_counter: ProgramCounter,
    pub registers: Registers,
    pub condition_flags: ConditionFlags,
    pub memory: InternalMemory,
    pub inputs: IOMemory,
    pub outputs: IOMemory,
}

impl State {
    pub open spec fn pc(self) -> u16 {
        self.program_counter.0
    }

    pub open spec fn sp(self) -> u16 {
        self.registers.stack_pointer
    }

    /// The address held in HL, which the `Memory` operand names.
    pub open spec fn hl(self) -> u16 {
        self.registers.pair_value(RegisterPair::HL)
    }

    /// The value of operand `r`: a register, or the byte at HL.
    pub open spec fn reg(self, r: Register) -> u8 {
        if r == Register::Memory {
            self.memory.byte(self.hl())
        } else {
            self.registers.value(r)
        }
    }

    /// This state with operand `r` holding `v`.
    pub open spec fn with_reg(self, r: Register, v: u8) -> State {
        if r == Register::Memory {
            State { memory: self.memory.with(self.hl(), v), ..self }
        } else {
            State { registers: self.registers.with(r, v), ..self }
        }
    }

    pub open spec fn pair(self, rp: RegisterPair) -> u16 {
        self.registers.pair_value(rp)
    }

    pub open spec fn with_pair(self, rp: RegisterPair, v: u16) -> State {
        State { registers: self.registers.with_pair(rp, v), ..self }
    }

    pub open spec fn with_flags(self, flags: ConditionFlags) -> State {
        State { condition_flags: flags, ..self }
    }

    pub open spec fn with_pc(self, address: u16) -> State {
        State { program_counter: ProgramCounter(address), ..self }
    }

    /// The program status word: A in the high byte, the flags byte low.
    pub open spec fn psw(self) -> u16 {
        word(self.registers.a, self.condition_flags.byte())
    }

    /// This state with A and the flags unpacked from a program status word.
    pub open spec fn with_psw(self, psw: u16) -> State {
        State {
            registers: Registers { a: (psw / 256) as u8, ..self.registers },
            condition_flags: ConditionFlags::from_byte((psw % 256) as u8),
            ..self
        }
    }

    /// This state after pushing `value`: its high byte at SP - 1, its low
    /// byte at SP - 2, and SP lowered by 2.
    pub open spec fn pushed(self, value: u16) -> State {
        State {
            memory: self.memory.with(offset(self.sp(), -1), (value / 256) as u8).with(
                offset(self.sp(), -2),
                (value % 256) as u8,
            ),
            registers: Registers { stack_pointer: offset(self.sp(), -2), ..self.registers },
            ..self
        }
    }

    /// The word on top of the stack: low byte at SP, high byte at SP + 1.
    pub open spec fn stack_top(self) -> u16 {
        word(self.memory.byte(offset(self.sp(), 1)), self.memory.byte(self.sp()))
    }

    /// This state after popping a word: SP raised by 2.
    pub open spec fn popped(self) -> State {
        State {
            registers: Registers { stack_pointer: offset(self.sp(), 2), ..self.registers },
            ..self
        }
    }

    /// Whether this is a freshly reset machine (whatever its program
    /// counter): registers, flags, memory and ports zero, interrupts enabled,
    /// not halted.
    pub open spec fn is_reset(self) -> bool {
        &&& !self.halted
        &&& self.interrupt_enabled
        &&& self.registers == (Registers { a: 0, b: 0, c: 0, d: 0, e: 0, h: 0, l: 0, stack_pointer: 0 })
        &&& self.condition_flags == (ConditionFlags {
            sign: false,
            zero: false,
            parity: false,
            carry: false,
            aux_carry: false,
        })
        &&& forall|a: u16| self.memory.byte(a) == 0
        &&& forall|p: u8| self.inputs.byte(p) == 0
        &&& forall|p: u8| self.outputs.byte(p) == 0
    }

    /// The power-on state: everything zero, interrupts enabled, not halted.
    pub fn new() -> (r: Self)
        ensures
            r.is_reset(),
            r.pc() == 0,
    {
        State {
            halted: false,
            interrupt_enabled: true,
            program_counter: ProgramCounter::new(),
            registers: Registers { a: 0, b: 0, c: 0, d: 0, e: 0, h: 0, l: 0, stack_pointer: 0 },
            condition_flags: ConditionFlags {
                sign: false,
                zero: false,
                parity: false,
                carry: false,
                aux_carry: false,
            },
            memory: InternalMemory::new(),
            inputs: IOMemory::new(),
            outputs: IOMemory::new(),
        }
    }

    pub fn increment_program_counter(&mut self)
        ensures
            *final(self) == old(self).with_pc(offset(old(self).pc(), 1)),
    {
        self.program_counter.0 = self.program_counter.0.wrapping_add(1);
    }

    pub fn increment_program_counter_by(&mut self, by: u16)
        ensures
            *final(self) == old(self).with_pc(offset(old(self).pc(), by as int)),
    {
        self.program_counter.0 = self.program_counter.0.wrapping_add(by);
    }

    /// The byte at HL.
    pub fn get_memory_value(&self) -> (r: u8)
        ensures
            r == self.memory.byte(self.hl()),
    {
        let address = self.registers.get_memory_address();
        self.memory.get(address)
    }

    /// Stores `value` at HL.
    pub fn set_memory_value(&mut self, value: u8)
        ensures
            *final(self) == old(self).with_reg(Register::Memory, value),
    {
        let address = self.registers.get_memory_address();
        self.memory.set(address, value);
    }

    pub fn get_register(&self, register: &Register) -> (r: u8)
        ensures
            r == self.reg(*register),
    {
        match register {
            Register::Memory => self.get_memory_value(),
            _ => self.registers.get(register),
        }
    }

    pub fn set_register(&mut self, register: &Register, value: u8)
        ensures
            *final(self) == old(self).with_reg(*register, value),
    {
        match register {
            Register::Memory => self.set_memory_value(value),
            _ => self.registers.set(register, value),
        }
    }

    pub fn get_register_pair(&self, register_pair: &RegisterPair) -> (r: u16)
        ensures
            r == self.pair(*register_pair),
    {
        self.registers.get_pair(register_pair)
    }

    pub fn set_register_pair(&mut self, register_pair: &RegisterPair, value: u16)
        ensures
            *final(self) == old(self).with_pair(*register_pair, value),
    {
        self.registers.set_pair(register_pair, value);
    }

    pub fn get_psw(&self) -> (r: u16)
        ensures
            r == self.psw(),
    {
        self.registers.a as u16 * 256 + self.condition_flags.get_byte() as u16
    }

    pub fn set_psw(&mut self, psw: u16)
        ensures
            *final(self) == old(self).with_psw(psw),
    {
        self.registers.a = (psw / 256) as u8;
        self.condition_flags.set_from_byte((psw % 256) as u8);
    }

    pub fn push_word_to_stack(&mut self, value: u16)
        ensures
            *final(self) == old(self).pushed(value),
    {
        let high_address = self.registers.stack_pointer.wrapping_sub(1);
        let low_address = self.registers.stack_pointer.wrapping_sub(2);
        self.memory.set(high_address, (value / 256) as u8);
        self.memory.set(low_address, (value % 256) as u8);
        self.registers.stack_pointer = low_address;
    }

    pub fn pop_word_from_stack(&mut self) -> (r: u16)
        ensures
            r == old(self).stack_top(),
            *final(self) == old(self).popped(),
    {
        let low_byte = self.memory.get(self.registers.stack_pointer);
        let high_byte = self.memory.get(self.registers.stack_pointer.wrapping_add(1));
        self.registers.stack_pointer = self.registers.stack_pointer.wrapping_add(2);
        high_byte as u16 * 256 + low_byte as u16
    }
}

} // verus!
