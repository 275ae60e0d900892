use emulator_8080::execution::execute_instruction;
use emulator_8080::instructions::{Instruction as I, RegisterPair};
use emulator_8080::invaders::display::paint_frame;
use emulator_8080::system::System;
use emulator_8080::test_system::TestSystem;

fn step_from(program: Vec<u8>, zero: bool) -> (u16, u16) {
    let mut system = TestSystem::new();
    system.load_test_program(program);
    system.state.registers.stack_pointer = 0x2400;
    system.state.condition_flags.zero = zero;
    system.run_current_instruction();
    (system.state.program_counter.get(), system.state.registers.stack_pointer)
}

#[test]
fn program_counter_moves_by_length_or_to_the_target() {
    // MVI B, 1: two bytes.
    assert_eq!(step_from(vec![0x06, 0x01], false), (0x0102, 0x2400));
    // LXI H, 0x1234: three bytes.
    assert_eq!(step_from(vec![0x21, 0x34, 0x12], false), (0x0103, 0x2400));
    // JNZ 0x2000, taken and not taken.
    assert_eq!(step_from(vec![0xC2, 0x00, 0x20], false), (0x2000, 0x2400));
    assert_eq!(step_from(vec![0xC2, 0x00, 0x20], true), (0x0103, 0x2400));
    // CZ 0x2000, not taken and taken (return address pushed).
    assert_eq!(step_from(vec![0xCC, 0x00, 0x20], false), (0x0103, 0x2400));
    assert_eq!(step_from(vec![0xCC, 0x00, 0x20], true), (0x2000, 0x23FE));
    // RST 3: to 0x18, return address pushed.
    assert_eq!(step_from(vec![0xDF], false), (0x0018, 0x23FE));
    // HLT still moves past itself.
    assert_eq!(step_from(vec![0x76], false), (0x0101, 0x2400));
}

#[test]
fn call_then_return_restores_the_stack_pointer() {
    let mut system = System::new();
    system.state.registers.stack_pointer = 0x3000;
    system.state.program_counter.set(0x0123);
    execute_instruction(&mut system.state, &I::Call(0x0400));
    assert_eq!(system.state.registers.stack_pointer, 0x2FFE);
    execute_instruction(&mut system.state, &I::IncrementRegPair(RegisterPair::BC));
    execute_instruction(&mut system.state, &I::Return);
    assert_eq!(system.state.registers.stack_pointer, 0x3000);
    assert_eq!(system.state.program_counter.get(), 0x0123);
}

#[test]
fn paint_frame_rotates_the_picture() {
    // A frame 2 pixels wide (pitch 6) and 4 rows high; one video byte covers
    // the first two columns from the bottom up.
    let mut pixels = vec![9u8; 24];
    paint_frame(&mut pixels, 6, &[0b1000_0001], (1, 2, 3));
    // bit 0: column 0, bottom row (row 3) -> lit
    assert_eq!(&pixels[18..21], &[1, 2, 3]);
    // bit 1: column 0, row 2 -> black
    assert_eq!(&pixels[12..15], &[0, 0, 0]);
    // bit 7: column 1, top row (row 0) -> lit
    assert_eq!(&pixels[3..6], &[1, 2, 3]);
    // bit 4: column 1, bottom row -> black
    assert_eq!(&pixels[21..24], &[0, 0, 0]);
}
