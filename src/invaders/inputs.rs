//! The control panel: credit, and start / shoot / left / right for each
//! player, packed into the bits of input ports 1 and 2.
use vstd::prelude::*;

verus! {

#[derive(Debug, Clone, Copy, PartialEq, Eq, Structural)]
pub enum Player {
    Player1,
    Player2,
}

#[derive(Debug, Clone, Copy, PartialEq, Eq, Structural, Default)]
pub struct PlayerInputs {
    pub start: bool,
    pub shoot: bool,
    pub left: bool,
    pub right: bool,
}

#[derive(Debug, Clone, Copy, PartialEq, Eq, Structural, Default)]
pub struct Inputs {
    pub credit: bool,
    pub p1_inputs: PlayerInputs,
    pub p2_inputs: PlayerInputs,
    pub shift_register_data: u8,
}

/// `weight` when `b` holds, else 0.
pub open spec fn bit(b: bool, weight: int) -> int {
    if b {
        weight
    } else {
        0
    }
}

pub open spec fn released() -> PlayerInputs {
    PlayerInputs { start: false, shoot: false, left: false, right: false }
}

impl PlayerInputs {
    pub fn reset(&mut self)
        ensures
            *final(self) == released(),
    {
        self.start = false;
        self.shoot = false;
        self.left = false;
        self.right = false;
    }
}

impl Inputs {
    /// The inputs of `player`.
    pub open spec fn player(self, player: Player) -> PlayerInputs {
        match player {
            Player::Player1 => self.p1_inputs,
            Player::Player2 => self.p2_inputs,
        }
    }

    /// These inputs with `player`'s replaced.
    pub open spec fn with_player(self, player: Player, p: PlayerInputs) -> Inputs {
        match player {
            Player::Player1 => Inputs { p1_inputs: p, ..self },
            Player::Player2 => Inputs { p2_inputs: p, ..self },
        }
    }

    /// Port 1: bit 0 credit, bit 1 player 2 start, bit 2 player 1 start, bit 3 always
    /// set, bit 4 player 1 shoot, bit 5 player 1 left, bit 6 player 1 right.
    pub open spec fn port_1(self) -> u8 {
        (bit(self.credit, 1) + bit(self.p2_inputs.start, 2) + bit(self.p1_inputs.start, 4) + 8
            + bit(self.p1_inputs.shoot, 16) + bit(self.p1_inputs.left, 32) + bit(
            self.p1_inputs.right,
            64,
        )) as u8
    }

    /// Port 2: bit 4 player 2 shoot, bit 5 player 2 left, bit 6 player 2 right.
    pub open spec fn port_2(self) -> u8 {
        (bit(self.p2_inputs.shoot, 16) + bit(self.p2_inputs.left, 32) + bit(
            self.p2_inputs.right,
            64,
        )) as u8
    }

    /// Nothing pressed, no shift-register data.
    pub fn new() -> (r: Self)
        ensures
            !r.credit,
            r.p1_inputs == released(),
            r.p2_inputs == released(),
            r.shift_register_data == 0,
    {
        Inputs {
            credit: false,
            p1_inputs: PlayerInputs { start: false, shoot: false, left: false, right: false },
            p2_inputs: PlayerInputs { start: false, shoot: false, left: false, right: false },
            shift_register_data: 0,
        }
    }

    pub fn reset(&mut self)
        ensures
            !final(self).credit,
            final(self).p1_inputs == released(),
            final(self).p2_inputs == released(),
            final(self).shift_register_data == 0,
    {
        self.credit = false;
        self.p1_inputs.reset();
        self.p2_inputs.reset();
        self.shift_register_data = 0;
    }

    pub fn set_credit(&mut self)
        ensures
            *final(self) == (Inputs { credit: true, ..*old(self) }),
    {
        self.credit = true;
    }

    pub fn set_player_start(&mut self, player: Player)
        ensures
            *final(self) == old(self).with_player(
                player,
                PlayerInputs { start: true, ..old(self).player(player) },
            ),
    {
        match player {
            Player::Player1 => self.p1_inputs.start = true,
            Player::Player2 => self.p2_inputs.start = true,
        }
    }

    pub fn set_player_shoot(&mut self, player: Player)
        ensures
            *final(self) == old(self).with_player(
                player,
                PlayerInputs { shoot: true, ..old(self).player(player) },
            ),
    {
        match player {
            Player::Player1 => self.p1_inputs.shoot = true,
            Player::Player2 => self.p2_inputs.shoot = true,
        }
    }

    pub fn set_player_left(&mut self, player: Player)
        ensures
            *final(self) == old(self).with_player(
                player,
                PlayerInputs { left: true, ..old(self).player(player) },
            ),
    {
        match player {
            Player::Player1 => self.p1_inputs.left = true,
            Player::Player2 => self.p2_inputs.left = true,
        }
    }

    pub fn set_player_right(&mut self, player: Player)
        ensures
            *final(self) == old(self).with_player(
                player,
                PlayerInputs { right: true, ..old(self).player(player) },
            ),
    {
        match player {
            Player::Player1 => self.p1_inputs.right = true,
            Player::Player2 => self.p2_inputs.right = true,
        }
    }

    pub fn set_shift_register_data(&mut self, data: u8)
        ensures
            *final(self) == (Inputs { shift_register_data: data, ..*old(self) }),
    {
        self.shift_register_data = data;
    }

    pub fn get_port_1(&self) -> (r: u8)
        ensures
            r == self.port_1(),
    {
        let bit_0: u8 = if self.credit { 1 } else { 0 };
        let bit_1: u8 = if self.p2_inputs.start { 2 } else { 0 };
        let bit_2: u8 = if self.p1_inputs.start { 4 } else { 0 };
        let bit_4: u8 = if self.p1_inputs.shoot { 16 } else { 0 };
        let bit_5: u8 = if self.p1_inputs.left { 32 } else { 0 };
        let bit_6: u8 = if self.p1_inputs.right { 64 } else { 0 };
        bit_0 + bit_1 + bit_2 + 8 + bit_4 + bit_5 + bit_6
    }

    pub fn get_port_2(&self) -> (r: u8)
        ensures
            r == self.port_2(),
    {
        let bit_4: u8 = if self.p2_inputs.shoot { 16 } else { 0 };
        let bit_5: u8 = if self.p2_inputs.left { 32 } else { 0 };
        let bit_6: u8 = if self.p2_inputs.right { 64 } else { 0 };
        bit_4 + bit_5 + bit_6
    }

    /// Port 3: the byte read from the shift register.
    pub fn get_port_3(&self) -> (r: u8)
        ensures
            r == self.shift_register_data,
    {
        self.shift_register_data
    }
}

} // verus!
