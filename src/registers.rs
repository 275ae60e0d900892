//! The seven 8-bit registers and the stack pointer.
use vstd::prelude::*;
use crate::instructions::{Register, RegisterPair};

verus! {

#[derive(Debug, Clone, Copy, PartialEq, Eq, Structural, Default)]
pub struct Registers {
    pub a: u8,
    pub b: u8,
    pub c: u8,
    pub d: u8,
    pub e: u8,
    pub h: u8,
    pub l: u8,
    pub stack_pointer: u16,
}

/// The word whose high byte is `high` and low byte is `low`.
pub open spec fn word(high: u8, low: u8) -> u16 {
    (high * 256 + low) as u16
}

impl Registers {
    /// The value of register `r` (`Memory` names no register: 0).
    pub open spec fn value(self, r: Register) -> u8 {
        match r {
            Register::A => self.a,
            Register::B => self.b,
            Register::C => self.c,
            Register::D => self.d,
            Register::E => self.e,
            Register::H => self.h,
            Register::L => self.l,
            Register::Memory => 0,
        }
    }

    /// These registers with `r` holding `v` (unchanged for `Memory`).
    pub open spec fn with(self, r: Register, v: u8) -> Registers {
        match r {
            Register::A => Registers { a: v, ..self },
            Register::B => Registers { b: v, ..self },
            Register::C => Registers { c: v, ..self },
            Register::D => Registers { d: v, ..self },
            Register::E => Registers { e: v, ..self },
            Register::H => Registers { h: v, ..self },
            Register::L => Registers { l: v, ..self },
            Register::Memory => self,
        }
    }

    /// The value of a register pair: (first << 8) | second, or SP.
    pub open spec fn pair_value(self, rp: RegisterPair) -> u16 {
        match rp {
            RegisterPair::BC => word(self.b, self.c),
            RegisterPair::DE => word(self.d, self.e),
            RegisterPair::HL => word(self.h, self.l),
            RegisterPair::SP => self.stack_pointer,
        }
    }

    /// These registers with pair `rp` holding `v`: the high byte goes to
    /// the first register, the low byte to the second.
    pub open spec fn with_pair(self, rp: RegisterPair, v: u16) -> Registers {
        let high = (v / 256) as u8;
        let low = (v % 256) as u8;
        match rp {
            RegisterPair::BC => Registers { b: high, c: low, ..self },
            RegisterPair::DE => Registers { d: high, e: low, ..self },
            RegisterPair::HL => Registers { h: high, l: low, ..self },
            RegisterPair::SP => Registers { stack_pointer: v, ..self },
        }
    }

    pub fn get(&self, register: &Register) -> (r: u8)
        requires
            *register != Register::Memory,
        ensures
            r == self.value(*register),
    {
        match register {
            Register::A => self.a,
            Register::B => self.b,
            Register::C => self.c,
            Register::D => self.d,
            Register::E => self.e,
            Register::H => self.h,
            _ => self.l,
        }
    }

    pub fn set(&mut self, register: &Register, value: u8)
        requires
            *register != Register::Memory,
        ensures
            *final(self) == old(self).with(*register, value),
    {
        match register {
            Register::A => self.a = value,
            Register::B => self.b = value,
            Register::C => self.c = value,
            Register::D => self.d = value,
            Register::E => self.e = value,
            Register::H => self.h = value,
            _ => self.l = value,
        }
    }

    pub fn get_pair(&self, register_pair: &RegisterPair) -> (r: u16)
        ensures
            r == self.pair_value(*register_pair),
    {
        match register_pair {
            RegisterPair::BC => self.b as u16 * 256 + self.c as u16,
            RegisterPair::DE => self.d as u16 * 256 + self.e as u16,
            RegisterPair::HL => self.h as u16 * 256 + self.l as u16,
            RegisterPair::SP => self.stack_pointer,
        }
    }

    pub fn set_pair(&mut self, register_pair: &RegisterPair, value: u16)
        ensures
            *final(self) == old(self).with_pair(*register_pair, value),
    {
        let high = (value / 256) as u8;
        let low = (value % 256) as u8;
        match register_pair {
            RegisterPair::BC => {
                self.b = high;
                self.c = low;
            },
            RegisterPair::DE => {
                self.d = high;
                self.e = low;
            },
            RegisterPair::HL => {
                self.h = high;
                self.l = low;
            },
            RegisterPair::SP => self.stack_pointer = value,
        }
    }

    /// The address that the `Memory` operand names: HL.
    pub fn get_memory_address(&self) -> (r: u16)
        ensures
            r == self.pair_value(RegisterPair::HL),
    {
        self.get_pair(&RegisterPair::HL)
    }
}

} // verus!
