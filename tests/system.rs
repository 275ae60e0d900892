use emulator_8080::system::System;
use emulator_8080::test_system::{console_output, TestSystem};
use emulator_8080::state::State;
use emulator_8080::timing::get_instruction_timing;
use emulator_8080::instructions::{Condition, Instruction as I, Register};

#[test]
fn halt_stops_the_stepper() {
    let mut system = System::new();
    system.load_program(vec![0x76]);
    let cycles = system.run(100);
    assert!(system.state.halted);
    assert_eq!(system.state.program_counter.get(), 0x0001);
    assert_eq!(cycles, 7);
    assert_eq!(system.run(100), 0);
}

#[test]
fn move_immediate_then_add() {
    let mut system = System::new();
    system.load_program(vec![0x3E, 0x05, 0x06, 0x03, 0x80, 0x76]);
    let cycles = system.run(1000);
    assert_eq!(cycles, 7 + 7 + 4 + 7);
    assert_eq!(system.state.registers.a, 0x08);
    let flags = system.state.condition_flags;
    assert!(!flags.zero);
    assert!(!flags.sign);
    assert!(!flags.parity);
    assert!(!flags.carry);
    assert!(!flags.aux_carry);
}

#[test]
fn subtract_with_borrow_program() {
    let mut system = System::new();
    system.load_program(vec![0xDE, 0x01, 0x76]);
    system.state.registers.a = 0x02;
    system.state.condition_flags.carry = true;
    system.run(100);
    assert_eq!(system.state.registers.a, 0x00);
    assert!(system.state.condition_flags.zero);
    assert!(!system.state.condition_flags.carry);
    assert!(system.state.condition_flags.aux_carry);
}

#[test]
fn stack_round_trip_program() {
    let mut system = System::new();
    // PUSH PSW; MVI A, 0; POP PSW; HLT
    system.load_program(vec![0xF5, 0x3E, 0x00, 0xF1, 0x76]);
    system.state.registers.stack_pointer = 0x2400;
    system.state.registers.a = 0xAB;
    system.state.condition_flags.zero = true;
    system.state.condition_flags.carry = true;
    system.state.condition_flags.parity = true;
    system.run(100);
    assert_eq!(system.state.registers.a, 0xAB);
    let flags = system.state.condition_flags;
    assert!(flags.zero && flags.carry && flags.parity && !flags.sign && !flags.aux_carry);
    assert_eq!(system.state.registers.stack_pointer, 0x2400);
}

#[test]
fn call_and_return() {
    let mut system = System::new();
    system.load_program(vec![0xCD, 0x10, 0x00, 0x76]);
    system.load_program_at(vec![0x3E, 0x42, 0xC9], 0x0010);
    system.state.registers.stack_pointer = 0x2400;
    let cycles = system.run(1000);
    assert_eq!(system.state.registers.a, 0x42);
    assert_eq!(system.state.program_counter.get(), 0x0004);
    assert_eq!(system.state.registers.stack_pointer, 0x2400);
    assert!(system.state.halted);
    assert_eq!(cycles, 17 + 7 + 10 + 7);
}

#[test]
fn interrupt_injection() {
    let mut system = System::new();
    // EI; JMP 0x0000
    system.load_program(vec![0xFB, 0xC3, 0x00, 0x00]);
    system.run(100);
    assert!(system.state.interrupt_enabled);
    system.interrupt(2);
    let cycles = system.run(1);
    assert_eq!(cycles, 11);
    assert_eq!(system.state.program_counter.get(), 0x0010);
    assert!(!system.state.interrupt_enabled);
    assert_eq!(system.pending_interrupt, None);
    assert_eq!(system.state.registers.stack_pointer, 0xFFFE);
    let return_address = system.read_memory_region(0xFFFE, 0xFFFF);
    assert_eq!(return_address[1], 0x00);
    assert!(return_address[0] == 0x00 || return_address[0] == 0x01);
}

#[test]
fn interrupt_waits_while_disabled() {
    let mut system = System::new();
    // DI; JMP 0x0001
    system.load_program(vec![0xF3, 0xC3, 0x01, 0x00]);
    system.run(10);
    system.interrupt(1);
    system.run(100);
    assert_eq!(system.pending_interrupt, Some(1));
    assert!(system.state.program_counter.get() <= 0x0004);
}

#[test]
fn interrupt_wakes_a_halted_processor() {
    let mut system = System::new();
    system.load_program(vec![0x76]);
    system.run(100);
    assert!(system.state.halted);
    system.interrupt(1);
    system.run(11);
    assert!(!system.state.halted);
    assert_eq!(system.state.program_counter.get(), 0x0008);
}

#[test]
fn run_stops_once_the_budget_is_met() {
    let mut system = System::new();
    // JMP 0x0000 forever: 10 cycles each.
    system.load_program(vec![0xC3, 0x00, 0x00]);
    assert_eq!(system.run(25), 30);
    assert!(!system.state.halted);
}

#[test]
fn ports_and_memory_regions() {
    let mut system = System::new();
    // IN 1; OUT 2; HLT
    system.load_program(vec![0xDB, 0x01, 0xD3, 0x02, 0x76]);
    system.set_input(1, 0x5A);
    system.run(100);
    assert_eq!(system.get_output(2), 0x5A);
    assert_eq!(system.read_memory_region(0, 4), vec![0xDB, 0x01, 0xD3, 0x02, 0x76]);
    system.set_program_counter(0x0002);
    assert_eq!(system.state.program_counter.get(), 0x0002);
}

#[test]
fn loading_wraps_past_the_top_of_memory() {
    let mut system = System::new();
    system.load_program_at(vec![1, 2, 3], 0xFFFE);
    assert_eq!(system.read_memory_region(0xFFFE, 0xFFFF), vec![1, 2]);
    assert_eq!(system.read_memory_region(0x0000, 0x0000), vec![3]);
}

#[test]
fn conditional_timing_depends_on_the_flags() {
    let mut state = State::new();
    assert_eq!(get_instruction_timing(&state, &I::ConditionalCall(Condition::Zero, 0)), 11);
    assert_eq!(get_instruction_timing(&state, &I::ConditionalReturn(Condition::Zero)), 5);
    state.condition_flags.zero = true;
    assert_eq!(get_instruction_timing(&state, &I::ConditionalCall(Condition::Zero, 0)), 17);
    assert_eq!(get_instruction_timing(&state, &I::ConditionalReturn(Condition::Zero)), 11);
    assert_eq!(get_instruction_timing(&state, &I::Move(Register::B, Register::C)), 5);
    assert_eq!(get_instruction_timing(&state, &I::Move(Register::Memory, Register::C)), 7);
    assert_eq!(get_instruction_timing(&state, &I::ExchangeStackTopWithHL), 18);
}

#[test]
fn test_system_prints_a_character() {
    let mut system = TestSystem::new();
    // MVI C, 2; MVI E, 'A'; LXI SP, 0x2400; CALL 5; JMP 0
    system.load_test_program(vec![
        0x0E, 0x02, 0x1E, 0x41, 0x31, 0x00, 0x24, 0xCD, 0x05, 0x00, 0xC3, 0x00, 0x00,
    ]);
    let mut output: Vec<u8> = Vec::new();
    while !system.state.halted {
        output.extend(system.run_current_instruction());
    }
    assert_eq!(output, b"A".to_vec());
    assert_eq!(system.state.program_counter.get(), 0x0001);
}

#[test]
fn test_system_prints_a_string() {
    let mut system = TestSystem::new();
    // LXI D, 0x0110; MVI C, 9; CALL 5; JMP 0; then the string at 0x0110.
    let mut program = vec![0x11, 0x10, 0x01, 0x0E, 0x09, 0xCD, 0x05, 0x00, 0xC3, 0x00, 0x00];
    program.resize(0x10, 0);
    program.extend_from_slice(b"OK$");
    system.load_test_program(program);
    let mut output: Vec<u8> = Vec::new();
    while !system.state.halted {
        output.extend(system.run_current_instruction());
    }
    assert_eq!(output, b"OK".to_vec());
}

#[test]
fn console_output_ignores_other_operations() {
    let mut state = State::new();
    state.registers.c = 5;
    assert!(console_output(&state).is_empty());
}
