//! The cabinet's 16-bit shift register: bytes are pushed in at the top, and
//! a byte is read out from a window that an offset moves.
use vstd::prelude::*;

verus! {

pub struct ShiftRegister {
    pub offset: u8,
    pub state: u16,
}

impl ShiftRegister {
    pub fn new() -> (r: Self)
        ensures
            r.offset == 0,
            r.state == 0,
    {
        ShiftRegister { offset: 0, state: 0 }
    }

    pub fn set_offset(&mut self, value: u8)
        ensures
            final(self).offset == value,
            final(self).state == old(self).state,
    {
        self.offset = value;
    }

    /// The new byte becomes the high byte; the old high byte moves down.
    pub fn push_value(&mut self, value: u8)
        ensures
            final(self).state == value * 256 + old(self).state / 256,
            final(self).offset == old(self).offset,
    {
        self.state = value as u16 * 256 + self.state / 256;
    }

    /// The byte `offset` bits below the top of the register.
    pub fn get_shifted_value(&self) -> (r: u8)
        requires
            self.offset < 16,
        ensures
            r == (((self.state << self.offset) as u16) >> 8u16) as u8,
    {
        ((self.state << self.offset) >> 8u16) as u8
    }
}

} // verus!
