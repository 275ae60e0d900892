//! The five condition flags and their packing into the flags byte.
use vstd::prelude::*;
use crate::alu::{even_parity, even_parity_spec};
use crate::instructions::Condition;

verus! {

/// Sign, Zero, Parity (even), Carry and Auxiliary (half) Carry.
#[derive(Debug, Clone, Copy, PartialEq, Eq, Structural, Default)]
pub struct ConditionFlags {
    pub sign: bool,
    pub zero: bool,
    pub parity: bool,
    pub carry: bool,
    pub aux_carry: bool,
}

/// Whether bit `position` of `byte` is set.
pub open spec fn bit_set(byte: u8, position: nat) -> bool {
    (byte as int / vstd::arithmetic::power2::pow2(position) as int) % 2 == 1
}

impl ConditionFlags {
    /// These flags with S, Z and P describing `value` (C and AC kept).
    pub open spec fn with_result(self, value: u8) -> ConditionFlags {
        ConditionFlags {
            sign: value >= 128,
            zero: value == 0,
            parity: even_parity_spec(value),
            ..self
        }
    }

    /// The flags byte: C at bit 0, P at bit 2, AC at bit 4, Z at bit 6,
    /// S at bit 7; bit 1 is always set, bits 3 and 5 always clear.
    pub open spec fn byte(self) -> u8 {
        (2 + (if self.carry { 1int } else { 0 }) + (if self.parity { 4int } else { 0 })
            + (if self.aux_carry { 16int } else { 0 }) + (if self.zero { 64int } else { 0 })
            + (if self.sign { 128int } else { 0 })) as u8
    }

    /// The flags that a flags byte packs (the fixed bits are ignored).
    pub open spec fn from_byte(byte: u8) -> ConditionFlags {
        ConditionFlags {
            carry: byte % 2 == 1,
            parity: (byte / 4) % 2 == 1,
            aux_carry: (byte / 16) % 2 == 1,
            zero: (byte / 64) % 2 == 1,
            sign: byte / 128 == 1,
        }
    }

    /// Whether `condition` holds under these flags.
    pub open spec fn holds(self, condition: Condition) -> bool {
        match condition {
            Condition::NotZero => !self.zero,
            Condition::Zero => self.zero,
            Condition::NoCarry => !self.carry,
            Condition::Carry => self.carry,
            Condition::OddParity => !self.parity,
            Condition::EvenParity => self.parity,
            Condition::Plus => !self.sign,
            Condition::Minus => self.sign,
        }
    }

    /// Sets S, Z and P from `value`; C and AC are left alone.
    pub fn set_zero_sign_parity_flags(&mut self, value: u8)
        ensures
            *final(self) == old(self).with_result(value),
    {
        self.zero = value == 0;
        self.sign = value >= 128;
        self.parity = even_parity(value);
    }

    pub fn get_byte(&self) -> (r: u8)
        ensures
            r == self.byte(),
    {
        let carry_bit: u8 = if self.carry { 1 } else { 0 };
        let parity_bit: u8 = if self.parity { 4 } else { 0 };
        let aux_carry_bit: u8 = if self.aux_carry { 16 } else { 0 };
        let zero_bit: u8 = if self.zero { 64 } else { 0 };
        let sign_bit: u8 = if self.sign { 128 } else { 0 };
        2 + carry_bit + parity_bit + aux_carry_bit + zero_bit + sign_bit
    }

    pub fn set_from_byte(&mut self, flag_byte: u8)
        ensures
            *final(self) == ConditionFlags::from_byte(flag_byte),
    {
        self.carry = flag_byte % 2 == 1;
        self.parity = (flag_byte / 4) % 2 == 1;
        self.aux_carry = (flag_byte / 16) % 2 == 1;
        self.zero = (flag_byte / 64) % 2 == 1;
        self.sign = flag_byte / 128 == 1;
    }

    pub fn is_condition_fulfilled(&self, condition: &Condition) -> (r: bool)
        ensures
            r == self.holds(*condition),
    {
        match condition {
            Condition::NotZero => !self.zero,
            Condition::Zero => self.zero,
            Condition::NoCarry => !self.carry,
            Condition::Carry => self.carry,
            Condition::OddParity => !self.parity,
            Condition::EvenParity => self.parity,
            Condition::Plus => !self.sign,
            Condition::Minus => self.sign,
        }
    }
}

} // verus!
