use emulator_8080::invaders::inputs::{Inputs, Player, PlayerInputs};
use emulator_8080::invaders::shift_register::ShiftRegister;

#[test]
fn port_one_packs_credit_and_player_one() {
    let mut inputs = Inputs::new();
    assert_eq!(inputs.get_port_1(), 0b0000_1000);
    inputs.set_credit();
    inputs.set_player_start(Player::Player1);
    inputs.set_player_start(Player::Player2);
    inputs.set_player_left(Player::Player1);
    assert_eq!(inputs.get_port_1(), 0b0010_1111);
    inputs.set_player_shoot(Player::Player1);
    inputs.set_player_right(Player::Player1);
    assert_eq!(inputs.get_port_1(), 0b0111_1111);
}

#[test]
fn port_two_packs_player_two() {
    let mut inputs = Inputs::new();
    inputs.set_player_shoot(Player::Player2);
    inputs.set_player_right(Player::Player2);
    assert_eq!(inputs.get_port_2(), 0b0101_0000);
    inputs.set_player_left(Player::Player2);
    assert_eq!(inputs.get_port_2(), 0b0111_0000);
    inputs.set_shift_register_data(0xA5);
    assert_eq!(inputs.get_port_3(), 0xA5);
    inputs.reset();
    assert_eq!(inputs.get_port_2(), 0);
    assert_eq!(inputs.get_port_3(), 0);
    assert_eq!(inputs.p2_inputs, PlayerInputs::default());
}

#[test]
fn shift_register_reads_a_window() {
    let mut register = ShiftRegister::new();
    register.push_value(0xAB);
    register.push_value(0xCD);
    assert_eq!(register.get_shifted_value(), 0xCD);
    register.set_offset(4);
    assert_eq!(register.get_shifted_value(), 0xDA);
}
