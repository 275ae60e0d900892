use emulator_8080::condition_flags::ConditionFlags;
use emulator_8080::execution::execute_instruction;
use emulator_8080::instructions::{Condition, Instruction as I, Register, RegisterPair};
use emulator_8080::state::State;

fn flags(sign: bool, zero: bool, parity: bool, carry: bool, aux_carry: bool) -> ConditionFlags {
    ConditionFlags { sign, zero, parity, carry, aux_carry }
}

#[test]
fn subtract_immediate_with_borrow_reaches_zero() {
    let mut state = State::new();
    state.registers.a = 0x02;
    state.condition_flags.carry = true;
    execute_instruction(&mut state, &I::SubtractImmediateWithBorrow(0x01));
    assert_eq!(state.registers.a, 0x00);
    assert!(state.condition_flags.zero);
    assert!(!state.condition_flags.carry);
    assert!(state.condition_flags.aux_carry);
}

#[test]
fn sign_flag_is_bit_seven() {
    let mut state = State::new();
    state.registers.a = 0x7F;
    execute_instruction(&mut state, &I::AddImmediate(0x01));
    assert_eq!(state.registers.a, 0x80);
    assert!(state.condition_flags.sign);
    assert!(!state.condition_flags.zero);
    assert!(!state.condition_flags.parity);
    execute_instruction(&mut state, &I::AddImmediate(0x01));
    assert!(state.condition_flags.sign);
    assert!(state.condition_flags.parity);
}

#[test]
fn increment_and_decrement_keep_carry() {
    for carry in [false, true] {
        for value in [0x00u8, 0x0F, 0x7F, 0xFF] {
            let mut state = State::new();
            state.condition_flags.carry = carry;
            state.registers.b = value;
            execute_instruction(&mut state, &I::Increment(Register::B));
            assert_eq!(state.registers.b, value.wrapping_add(1));
            assert_eq!(state.condition_flags.carry, carry);
            execute_instruction(&mut state, &I::Decrement(Register::B));
            execute_instruction(&mut state, &I::Decrement(Register::B));
            assert_eq!(state.registers.b, value.wrapping_sub(1));
            assert_eq!(state.condition_flags.carry, carry);
        }
    }
}

#[test]
fn increment_sets_half_carry_and_zero() {
    let mut state = State::new();
    state.registers.c = 0xFF;
    execute_instruction(&mut state, &I::Increment(Register::C));
    assert_eq!(state.registers.c, 0x00);
    assert!(state.condition_flags.zero);
    assert!(state.condition_flags.aux_carry);
    assert!(!state.condition_flags.carry);
}

#[test]
fn increment_memory_operand_uses_hl() {
    let mut state = State::new();
    state.registers.h = 0x20;
    state.registers.l = 0x10;
    state.memory.set(0x2010, 0x41);
    execute_instruction(&mut state, &I::Increment(Register::Memory));
    assert_eq!(state.memory.get(0x2010), 0x42);
}

#[test]
fn logical_operations_clear_carry() {
    for instruction in [I::AndImmediate(0x0F), I::XorImmediate(0x0F), I::OrImmediate(0x0F)] {
        let mut state = State::new();
        state.registers.a = 0xF3;
        state.condition_flags.carry = true;
        execute_instruction(&mut state, &instruction);
        assert!(!state.condition_flags.carry);
    }
    let mut state = State::new();
    state.registers.a = 0xF3;
    state.registers.b = 0x0F;
    state.condition_flags.carry = true;
    execute_instruction(&mut state, &I::And(Register::B));
    assert_eq!(state.registers.a, 0x03);
    assert!(!state.condition_flags.carry);
    assert!(state.condition_flags.aux_carry);
}

#[test]
fn logical_results() {
    let mut state = State::new();
    state.registers.a = 0b1100;
    execute_instruction(&mut state, &I::XorImmediate(0b1010));
    assert_eq!(state.registers.a, 0b0110);
    assert!(state.condition_flags.parity);
    execute_instruction(&mut state, &I::OrImmediate(0b1000_0000));
    assert_eq!(state.registers.a, 0b1000_0110);
    assert!(state.condition_flags.sign);
    assert!(!state.condition_flags.aux_carry);
}

#[test]
fn compare_sets_zero_and_carry() {
    for (a, x) in [(0x10u8, 0x10u8), (0x05, 0x10), (0x10, 0x05), (0x00, 0xFF), (0xFF, 0x00)] {
        let mut state = State::new();
        state.registers.a = a;
        execute_instruction(&mut state, &I::CompareImmediate(x));
        assert_eq!(state.condition_flags.zero, a == x);
        assert_eq!(state.condition_flags.carry, a < x);
        assert_eq!(state.registers.a, a);
    }
    let mut state = State::new();
    state.registers.a = 0x05;
    state.registers.e = 0x06;
    execute_instruction(&mut state, &I::Compare(Register::E));
    assert!(state.condition_flags.carry);
    assert!(!state.condition_flags.zero);
}

#[test]
fn rotates_move_bits_through_carry() {
    let mut state = State::new();
    state.registers.a = 0b1000_0001;
    execute_instruction(&mut state, &I::RotateLeft);
    assert_eq!(state.registers.a, 0b0000_0011);
    assert!(state.condition_flags.carry);
    execute_instruction(&mut state, &I::RotateRight);
    assert_eq!(state.registers.a, 0b1000_0001);
    assert!(state.condition_flags.carry);
    state.condition_flags.carry = false;
    execute_instruction(&mut state, &I::RotateLeftThroughCarry);
    assert_eq!(state.registers.a, 0b0000_0010);
    assert!(state.condition_flags.carry);
    execute_instruction(&mut state, &I::RotateRightThroughCarry);
    assert_eq!(state.registers.a, 0b1000_0001);
    assert!(!state.condition_flags.carry);
}

#[test]
fn complement_and_carry_instructions() {
    let mut state = State::new();
    state.registers.a = 0x51;
    execute_instruction(&mut state, &I::ComplementAccum);
    assert_eq!(state.registers.a, 0xAE);
    assert_eq!(state.condition_flags, ConditionFlags::default());
    execute_instruction(&mut state, &I::SetCarry);
    assert!(state.condition_flags.carry);
    execute_instruction(&mut state, &I::ComplementCarry);
    assert!(!state.condition_flags.carry);
}

#[test]
fn add_register_pair_to_hl_sets_carry_only() {
    let mut state = State::new();
    state.set_register_pair(&RegisterPair::HL, 0xFFFF);
    state.set_register_pair(&RegisterPair::BC, 0x0002);
    execute_instruction(&mut state, &I::AddRegPairToHL(RegisterPair::BC));
    assert_eq!(state.get_register_pair(&RegisterPair::HL), 0x0001);
    assert!(state.condition_flags.carry);
    assert!(!state.condition_flags.zero);
}

#[test]
fn increment_and_decrement_pairs_wrap() {
    let mut state = State::new();
    state.set_register_pair(&RegisterPair::DE, 0xFFFF);
    execute_instruction(&mut state, &I::IncrementRegPair(RegisterPair::DE));
    assert_eq!((state.registers.d, state.registers.e), (0x00, 0x00));
    execute_instruction(&mut state, &I::DecrementRegPair(RegisterPair::SP));
    assert_eq!(state.registers.stack_pointer, 0xFFFF);
    assert_eq!(state.condition_flags, ConditionFlags::default());
}

#[test]
fn psw_round_trip_restores_accumulator_and_flags() {
    let mut state = State::new();
    state.registers.stack_pointer = 0x2400;
    state.registers.a = 0xAB;
    state.condition_flags = flags(false, true, true, true, false);
    execute_instruction(&mut state, &I::PushPSW);
    assert_eq!(state.memory.get(0x23FF), 0xAB);
    assert_eq!(state.memory.get(0x23FE), 0b0100_0111);
    execute_instruction(&mut state, &I::MoveImmediate(Register::A, 0));
    execute_instruction(&mut state, &I::SubtractImmediate(1));
    execute_instruction(&mut state, &I::PopPSW);
    assert_eq!(state.registers.a, 0xAB);
    assert_eq!(state.condition_flags, flags(false, true, true, true, false));
    assert_eq!(state.registers.stack_pointer, 0x2400);
}

#[test]
fn flags_byte_has_fixed_bits() {
    for bits in 0u8..32 {
        let f = flags(bits & 1 != 0, bits & 2 != 0, bits & 4 != 0, bits & 8 != 0, bits & 16 != 0);
        let byte = f.get_byte();
        assert_eq!(byte & 0b0010_1010, 0b0000_0010);
        let mut g = ConditionFlags::default();
        g.set_from_byte(byte);
        assert_eq!(g, f);
    }
}

#[test]
fn push_and_pop_register_pair() {
    let mut state = State::new();
    state.registers.stack_pointer = 0x0001;
    state.set_register_pair(&RegisterPair::BC, 0x1234);
    execute_instruction(&mut state, &I::PushRegPair(RegisterPair::BC));
    assert_eq!(state.registers.stack_pointer, 0xFFFF);
    assert_eq!(state.memory.get(0x0000), 0x12);
    assert_eq!(state.memory.get(0xFFFF), 0x34);
    execute_instruction(&mut state, &I::PopRegPair(RegisterPair::DE));
    assert_eq!(state.get_register_pair(&RegisterPair::DE), 0x1234);
    assert_eq!(state.registers.stack_pointer, 0x0001);
}

#[test]
fn exchange_hl_with_de_twice_restores() {
    let mut state = State::new();
    state.set_register_pair(&RegisterPair::HL, 0x1122);
    state.set_register_pair(&RegisterPair::DE, 0x3344);
    execute_instruction(&mut state, &I::ExchangeHLWithDE);
    assert_eq!(state.get_register_pair(&RegisterPair::HL), 0x3344);
    assert_eq!(state.get_register_pair(&RegisterPair::DE), 0x1122);
    execute_instruction(&mut state, &I::ExchangeHLWithDE);
    assert_eq!(state.get_register_pair(&RegisterPair::HL), 0x1122);
    assert_eq!(state.get_register_pair(&RegisterPair::DE), 0x3344);
}

#[test]
fn exchange_stack_top_swaps_both_sides() {
    let mut state = State::new();
    state.registers.stack_pointer = 0x3000;
    state.memory.set(0x3000, 0xCD);
    state.memory.set(0x3001, 0xAB);
    state.set_register_pair(&RegisterPair::HL, 0x1234);
    execute_instruction(&mut state, &I::ExchangeStackTopWithHL);
    assert_eq!(state.get_register_pair(&RegisterPair::HL), 0xABCD);
    assert_eq!(state.memory.get(0x3000), 0x34);
    assert_eq!(state.memory.get(0x3001), 0x12);
    execute_instruction(&mut state, &I::ExchangeStackTopWithHL);
    assert_eq!(state.get_register_pair(&RegisterPair::HL), 0x1234);
    assert_eq!(state.memory.get(0x3000), 0xCD);
    assert_eq!(state.memory.get(0x3001), 0xAB);
}

#[test]
fn load_and_store_hl_wrap_at_the_top() {
    let mut state = State::new();
    state.memory.set(0xFFFF, 0x11);
    state.memory.set(0x0000, 0x22);
    execute_instruction(&mut state, &I::LoadHLDirect(0xFFFF));
    assert_eq!((state.registers.h, state.registers.l), (0x22, 0x11));
    state.set_register_pair(&RegisterPair::HL, 0xBEEF);
    execute_instruction(&mut state, &I::StoreHLDirect(0xFFFF));
    assert_eq!(state.memory.get(0xFFFF), 0xEF);
    assert_eq!(state.memory.get(0x0000), 0xBE);
}

#[test]
fn store_accumulator_at_the_top_leaves_address_zero() {
    let mut state = State::new();
    state.memory.set(0x0000, 0x5A);
    state.registers.a = 0x99;
    execute_instruction(&mut state, &I::StoreAccumDirect(0xFFFF));
    assert_eq!(state.memory.get(0xFFFF), 0x99);
    assert_eq!(state.memory.get(0x0000), 0x5A);
    execute_instruction(&mut state, &I::LoadAccumDirect(0x0000));
    assert_eq!(state.registers.a, 0x5A);
}

#[test]
fn indirect_loads_and_stores() {
    let mut state = State::new();
    state.set_register_pair(&RegisterPair::BC, 0x1000);
    state.set_register_pair(&RegisterPair::DE, 0x2000);
    state.registers.a = 0x77;
    execute_instruction(&mut state, &I::StoreAccumIndirect(RegisterPair::BC));
    execute_instruction(&mut state, &I::MoveImmediate(Register::A, 0));
    state.memory.set(0x2000, 0x66);
    execute_instruction(&mut state, &I::LoadAccumIndirect(RegisterPair::DE));
    assert_eq!(state.memory.get(0x1000), 0x77);
    assert_eq!(state.registers.a, 0x66);
}

#[test]
fn move_between_registers_and_memory() {
    let mut state = State::new();
    state.set_register_pair(&RegisterPair::HL, 0x4000);
    state.registers.b = 0x3C;
    execute_instruction(&mut state, &I::Move(Register::B, Register::Memory));
    assert_eq!(state.memory.get(0x4000), 0x3C);
    execute_instruction(&mut state, &I::Move(Register::Memory, Register::E));
    assert_eq!(state.registers.e, 0x3C);
    execute_instruction(&mut state, &I::Move(Register::E, Register::A));
    assert_eq!(state.get_register(&Register::A), 0x3C);
}

#[test]
fn branches_assign_the_program_counter() {
    let mut state = State::new();
    state.program_counter.set(0x0103);
    execute_instruction(&mut state, &I::ConditionalJump(Condition::Zero, 0x2000));
    assert_eq!(state.program_counter.get(), 0x0103);
    state.condition_flags.zero = true;
    execute_instruction(&mut state, &I::ConditionalJump(Condition::Zero, 0x2000));
    assert_eq!(state.program_counter.get(), 0x2000);
    state.set_register_pair(&RegisterPair::HL, 0x1234);
    execute_instruction(&mut state, &I::JumpHLIndirect);
    assert_eq!(state.program_counter.get(), 0x1234);
}

#[test]
fn parity_conditions_test_the_parity_flag() {
    let mut state = State::new();
    state.condition_flags.parity = true;
    assert!(state.condition_flags.is_condition_fulfilled(&Condition::EvenParity));
    assert!(!state.condition_flags.is_condition_fulfilled(&Condition::OddParity));
    state.condition_flags.carry = true;
    state.condition_flags.parity = false;
    assert!(state.condition_flags.is_condition_fulfilled(&Condition::OddParity));
}

#[test]
fn restart_pushes_and_jumps() {
    let mut state = State::new();
    state.registers.stack_pointer = 0x2400;
    state.program_counter.set(0x0457);
    execute_instruction(&mut state, &I::Restart(7));
    assert_eq!(state.program_counter.get(), 0x0038);
    assert_eq!(state.registers.stack_pointer, 0x23FE);
    assert_eq!(state.pop_word_from_stack(), 0x0457);
}

#[test]
fn input_output_and_interrupt_latch() {
    let mut state = State::new();
    state.inputs.set(3, 0x5C);
    execute_instruction(&mut state, &I::Input(3));
    assert_eq!(state.registers.a, 0x5C);
    execute_instruction(&mut state, &I::Output(9));
    assert_eq!(state.outputs.get(9), 0x5C);
    execute_instruction(&mut state, &I::DisableInterrupts);
    assert!(!state.interrupt_enabled);
    execute_instruction(&mut state, &I::EnableInterrupts);
    assert!(state.interrupt_enabled);
    execute_instruction(&mut state, &I::Halt);
    assert!(state.halted);
}

#[test]
fn move_hl_to_sp() {
    let mut state = State::new();
    state.set_register_pair(&RegisterPair::HL, 0x2400);
    execute_instruction(&mut state, &I::MoveHLToSP);
    assert_eq!(state.registers.stack_pointer, 0x2400);
}

#[test]
fn decimal_adjust_instruction_updates_flags() {
    let mut state = State::new();
    state.registers.a = 0x9B;
    execute_instruction(&mut state, &I::DecimalAdjustAccum);
    assert_eq!(state.registers.a, 0x01);
    assert!(state.condition_flags.carry);
    assert!(state.condition_flags.aux_carry);
    assert!(!state.condition_flags.zero);
}
