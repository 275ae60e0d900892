//! Peripherals of the Space Invaders cabinet that the host wires to the
//! processor's ports: the control panel, the external shift register and
//! the picture.
pub mod display;
pub mod inputs;
pub mod shift_register;
