//! The executor: what each instruction does to the state.
//!
//! The program counter is expected to point past the instruction already
//! (fetch moves it); only branches that are taken assign it.
use vstd::prelude::*;
use crate::alu::{add_spec, sub_spec};
use crate::condition_flags::ConditionFlags;
use crate::instructions::{Instruction, RegisterPair};
use crate::program_counter::offset;
use crate::registers::Registers;
use crate::state::State;
use arithmetic::{
    after_alu,
    after_increment,
    after_decrement,
    after_add_reg_pair_to_hl,
    after_decimal_adjust,
    execute_add,
    execute_add_with_carry,
    execute_subtract,
    execute_subtract_with_borrow,
    execute_increment,
    execute_decrement,
    execute_increment_reg_pair,
    execute_decrement_reg_pair,
    execute_add_reg_pair_to_hl,
    execute_decimal_adjust,
};
use branch::{
    after_call,
    after_return,
    after_restart,
    execute_jump,
    execute_call,
    execute_return,
    execute_restart,
};
use data_transfer::{
    after_load_accum,
    after_store_accum,
    after_load_hl,
    after_store_hl,
    after_exchange_hl_with_de,
    execute_move,
    execute_load_reg_pair_immediate,
    execute_load_accum_direct,
    execute_store_accum_direct,
    execute_load_hl_direct,
    execute_store_hl_direct,
    execute_load_accum_indirect,
    execute_store_accum_indirect,
    execute_exchange_hl_with_de,
};
use logical::{
    after_and,
    after_xor,
    after_or,
    after_compare,
    after_rotate_left,
    after_rotate_right,
    after_rotate_left_through_carry,
    after_rotate_right_through_carry,
    execute_and,
    execute_xor,
    execute_or,
    execute_compare,
    execute_rotate_left,
    execute_rotate_right,
    execute_rotate_left_through_carry,
    execute_rotate_right_through_carry,
    execute_complement_accum,
    execute_complement_carry,
    execute_set_carry,
};
use machine_control::{
    after_pop_reg_pair,
    after_pop_psw,
    after_exchange_stack_top_with_hl,
    after_input,
    after_output,
    execute_push_stack,
    execute_pop_reg_pair,
    execute_pop_psw,
    execute_exchange_stack_top_with_hl,
    execute_move_hl_to_sp,
    execute_input,
    execute_output,
    execute_set_interrupt,
};

pub mod arithmetic;
pub mod branch;
pub mod data_transfer;
pub mod logical;
pub mod machine_control;

verus! {

/// The state after executing `i` in state `s`.
pub open spec fn execute_spec(s: State, i: Instruction) -> State {
    let a = s.registers.a;
    let flags = s.condition_flags;
    match i {
        Instruction::Move(src, dst) => s.with_reg(dst, s.reg(src)),
        Instruction::MoveImmediate(dst, v) => s.with_reg(dst, v),
        Instruction::LoadRegisterPairImmediate(rp, v) => s.with_pair(rp, v),
        Instruction::LoadAccumDirect(addr) => after_load_accum(s, addr),
        Instruction::StoreAccumDirect(addr) => after_store_accum(s, addr),
        Instruction::LoadHLDirect(addr) => after_load_hl(s, addr),
        Instruction::StoreHLDirect(addr) => after_store_hl(s, addr),
        Instruction::LoadAccumIndirect(rp) => after_load_accum(s, s.pair(rp)),
        Instruction::StoreAccumIndirect(rp) => after_store_accum(s, s.pair(rp)),
        Instruction::ExchangeHLWithDE => after_exchange_hl_with_de(s),
        Instruction::Add(r) => after_alu(s, add_spec(a, s.reg(r), false)),
        Instruction::AddImmediate(v) => after_alu(s, add_spec(a, v, false)),
        Instruction::AddWithCarry(r) => after_alu(s, add_spec(a, s.reg(r), flags.carry)),
        Instruction::AddImmediateWithCarry(v) => after_alu(s, add_spec(a, v, flags.carry)),
        Instruction::Subtract(r) => after_alu(s, sub_spec(a, s.reg(r), false)),
        Instruction::SubtractImmediate(v) => after_alu(s, sub_spec(a, v, false)),
        Instruction::SubtractWithBorrow(r) => after_alu(s, sub_spec(a, s.reg(r), flags.carry)),
        Instruction::SubtractImmediateWithBorrow(v) => after_alu(s, sub_spec(a, v, flags.carry)),
        Instruction::Increment(r) => after_increment(s, r),
        Instruction::Decrement(r) => after_decrement(s, r),
        Instruction::IncrementRegPair(rp) => s.with_pair(rp, offset(s.pair(rp), 1)),
        Instruction::DecrementRegPair(rp) => s.with_pair(rp, offset(s.pair(rp), -1)),
        Instruction::AddRegPairToHL(rp) => after_add_reg_pair_to_hl(s, rp),
        Instruction::DecimalAdjustAccum => after_decimal_adjust(s),
        Instruction::And(r) => after_and(s, s.reg(r)),
        Instruction::AndImmediate(v) => after_and(s, v),
        Instruction::Xor(r) => after_xor(s, s.reg(r)),
        Instruction::XorImmediate(v) => after_xor(s, v),
        Instruction::Or(r) => after_or(s, s.reg(r)),
        Instruction::OrImmediate(v) => after_or(s, v),
        Instruction::Compare(r) => after_compare(s, s.reg(r)),
        Instruction::CompareImmediate(v) => after_compare(s, v),
        Instruction::RotateLeft => after_rotate_left(s),
        Instruction::RotateRight => after_rotate_right(s),
        Instruction::RotateLeftThroughCarry => after_rotate_left_through_carry(s),
        Instruction::RotateRightThroughCarry => after_rotate_right_through_carry(s),
        Instruction::ComplementAccum => State {
            registers: Registers { a: (255 - a) as u8, ..s.registers },
            ..s
        },
        Instruction::ComplementCarry => s.with_flags(ConditionFlags { carry: !flags.carry, ..flags }),
        Instruction::SetCarry => s.with_flags(ConditionFlags { carry: true, ..flags }),
        Instruction::Jump(addr) => s.with_pc(addr),
        Instruction::ConditionalJump(c, addr) => if flags.holds(c) { s.with_pc(addr) } else { s },
        Instruction::Call(addr) => after_call(s, addr),
        Instruction::ConditionalCall(c, addr) => if flags.holds(c) { after_call(s, addr) } else { s },
        Instruction::Return => after_return(s),
        Instruction::ConditionalReturn(c) => if flags.holds(c) { after_return(s) } else { s },
        Instruction::Restart(n) => after_restart(s, n),
        Instruction::JumpHLIndirect => s.with_pc(s.hl()),
        Instruction::PushRegPair(rp) => s.pushed(s.pair(rp)),
        Instruction::PushPSW => s.pushed(s.psw()),
        Instruction::PopRegPair(rp) => after_pop_reg_pair(s, rp),
        Instruction::PopPSW => after_pop_psw(s),
        Instruction::ExchangeStackTopWithHL => after_exchange_stack_top_with_hl(s),
        Instruction::MoveHLToSP => s.with_pair(RegisterPair::SP, s.hl()),
        Instruction::Input(port) => after_input(s, port),
        Instruction::Output(port) => after_output(s, port),
        Instruction::EnableInterrupts => State { interrupt_enabled: true, ..s },
        Instruction::DisableInterrupts => State { interrupt_enabled: false, ..s },
        Instruction::Halt => State { halted: true, ..s },
        Instruction::NoOp => s,
    }
}

pub fn execute_data_transfer_instruction(state: &mut State, instruction: &Instruction)
    requires
        instruction.is_data_transfer(),
    ensures
        *final(state) == execute_spec(*old(state), *instruction),
{
    match instruction {
        Instruction::Move(source, destination) => {
            let value = state.get_register(source);
            execute_move(state, destination, value)
        },
        Instruction::MoveImmediate(destination, value) => execute_move(state, destination, *value),
        Instruction::LoadRegisterPairImmediate(register_pair, value) => {
            execute_load_reg_pair_immediate(state, register_pair, *value)
        },
        Instruction::LoadAccumDirect(address) => execute_load_accum_direct(state, *address),
        Instruction::StoreAccumDirect(address) => execute_store_accum_direct(state, *address),
        Instruction::LoadHLDirect(address) => execute_load_hl_direct(state, *address),
        Instruction::StoreHLDirect(address) => execute_store_hl_direct(state, *address),
        Instruction::LoadAccumIndirect(register_pair) => {
            execute_load_accum_indirect(state, register_pair)
        },
        Instruction::StoreAccumIndirect(register_pair) => {
            execute_store_accum_indirect(state, register_pair)
        },
        Instruction::ExchangeHLWithDE => execute_exchange_hl_with_de(state),
        _ => {},
    }
}

pub fn execute_arithmetic_instruction(state: &mut State, instruction: &Instruction)
    requires
        instruction.is_arithmetic(),
    ensures
        *final(state) == execute_spec(*old(state), *instruction),
{
    match instruction {
        Instruction::Add(register) => {
            let value = state.get_register(register);
            execute_add(state, value)
        },
        Instruction::AddImmediate(value) => execute_add(state, *value),
        Instruction::AddWithCarry(register) => {
            let value = state.get_register(register);
            execute_add_with_carry(state, value)
        },
        Instruction::AddImmediateWithCarry(value) => execute_add_with_carry(state, *value),
        Instruction::Subtract(register) => {
            let value = state.get_register(register);
            execute_subtract(state, value)
        },
        Instruction::SubtractImmediate(value) => execute_subtract(state, *value),
        Instruction::SubtractWithBorrow(register) => {
            let value = state.get_register(register);
            execute_subtract_with_borrow(state, value)
        },
        Instruction::SubtractImmediateWithBorrow(value) => {
            execute_subtract_with_borrow(state, *value)
        },
        Instruction::Increment(register) => execute_increment(state, register),
        Instruction::Decrement(register) => execute_decrement(state, register),
        Instruction::IncrementRegPair(register_pair) => {
            execute_increment_reg_pair(state, register_pair)
        },
        Instruction::DecrementRegPair(register_pair) => {
            execute_decrement_reg_pair(state, register_pair)
        },
        Instruction::AddRegPairToHL(register_pair) => {
            execute_add_reg_pair_to_hl(state, register_pair)
        },
        Instruction::DecimalAdjustAccum => execute_decimal_adjust(state),
        _ => {},
    }
}

pub fn execute_logical_instruction(state: &mut State, instruction: &Instruction)
    requires
        instruction.is_logical(),
    ensures
        *final(state) == execute_spec(*old(state), *instruction),
{
    match instruction {
        Instruction::And(register) => {
            let value = state.get_register(register);
            execute_and(state, value)
        },
        Instruction::AndImmediate(value) => execute_and(state, *value),
        Instruction::Xor(register) => {
            let value = state.get_register(register);
            execute_xor(state, value)
        },
        Instruction::XorImmediate(value) => execute_xor(state, *value),
        Instruction::Or(register) => {
            let value = state.get_register(register);
            execute_or(state, value)
        },
        Instruction::OrImmediate(value) => execute_or(state, *value),
        Instruction::Compare(register) => {
            let value = state.get_register(register);
            execute_compare(state, value)
        },
        Instruction::CompareImmediate(value) => execute_compare(state, *value),
        Instruction::RotateLeft => execute_rotate_left(state),
        Instruction::RotateRight => execute_rotate_right(state),
        Instruction::RotateLeftThroughCarry => execute_rotate_left_through_carry(state),
        Instruction::RotateRightThroughCarry => execute_rotate_right_through_carry(state),
        Instruction::ComplementAccum => execute_complement_accum(state),
        Instruction::ComplementCarry => execute_complement_carry(state),
        Instruction::SetCarry => execute_set_carry(state),
        _ => {},
    }
}

pub fn execute_branch_instruction(state: &mut State, instruction: &Instruction)
    requires
        instruction.is_branch(),
    ensures
        *final(state) == execute_spec(*old(state), *instruction),
{
    match instruction {
        Instruction::Jump(address) => execute_jump(state, *address, true),
        Instruction::ConditionalJump(condition, address) => {
            let taken = state.condition_flags.is_condition_fulfilled(condition);
            execute_jump(state, *address, taken)
        },
        Instruction::Call(address) => execute_call(state, *address, true),
        Instruction::ConditionalCall(condition, address) => {
            let taken = state.condition_flags.is_condition_fulfilled(condition);
            execute_call(state, *address, taken)
        },
        Instruction::Return => execute_return(state, true),
        Instruction::ConditionalReturn(condition) => {
            let taken = state.condition_flags.is_condition_fulfilled(condition);
            execute_return(state, taken)
        },
        Instruction::Restart(n) => execute_restart(state, *n),
        Instruction::JumpHLIndirect => {
            let address = state.get_register_pair(&RegisterPair::HL);
            execute_jump(state, address, true)
        },
        _ => {},
    }
}

pub fn execute_machine_control_instruction(state: &mut State, instruction: &Instruction)
    requires
        instruction.is_machine_control(),
    ensures
        *final(state) == execute_spec(*old(state), *instruction),
{
    match instruction {
        Instruction::PushRegPair(register_pair) => {
            let value = state.get_register_pair(register_pair);
            execute_push_stack(state, value)
        },
        Instruction::PushPSW => {
            let value = state.get_psw();
            execute_push_stack(state, value)
        },
        Instruction::PopRegPair(register_pair) => execute_pop_reg_pair(state, register_pair),
        Instruction::PopPSW => execute_pop_psw(state),
        Instruction::ExchangeStackTopWithHL => execute_exchange_stack_top_with_hl(state),
        Instruction::MoveHLToSP => execute_move_hl_to_sp(state),
        Instruction::Input(port) => execute_input(state, *port),
        Instruction::Output(port) => execute_output(state, *port),
        Instruction::EnableInterrupts => execute_set_interrupt(state, true),
        Instruction::DisableInterrupts => execute_set_interrupt(state, false),
        Instruction::Halt => state.halted = true,
        Instruction::NoOp => {},
        _ => {},
    }
}

pub fn execute_instruction(state: &mut State, instruction: &Instruction)
    ensures
        *final(state) == execute_spec(*old(state), *instruction),
{
    match instruction {
        Instruction::Move(..) | Instruction::MoveImmediate(..)
        | Instruction::LoadRegisterPairImmediate(..) | Instruction::LoadAccumDirect(_)
        | Instruction::StoreAccumDirect(_) | Instruction::LoadHLDirect(_)
        | Instruction::StoreHLDirect(_) | Instruction::LoadAccumIndirect(_)
        | Instruction::StoreAccumIndirect(_) | Instruction::ExchangeHLWithDE => execute_data_transfer_instruction(state, instruction),
        Instruction::Add(_) | Instruction::AddImmediate(_) | Instruction::AddWithCarry(_)
        | Instruction::AddImmediateWithCarry(_) | Instruction::Subtract(_)
        | Instruction::SubtractImmediate(_) | Instruction::SubtractWithBorrow(_)
        | Instruction::SubtractImmediateWithBorrow(_) | Instruction::Increment(_)
        | Instruction::Decrement(_) | Instruction::IncrementRegPair(_)
        | Instruction::DecrementRegPair(_) | Instruction::AddRegPairToHL(_)
        | Instruction::DecimalAdjustAccum => execute_arithmetic_instruction(state, instruction),
        Instruction::And(_) | Instruction::AndImmediate(_) | Instruction::Xor(_)
        | Instruction::XorImmediate(_) | Instruction::Or(_) | Instruction::OrImmediate(_)
        | Instruction::Compare(_) | Instruction::CompareImmediate(_)
        | Instruction::RotateLeft | Instruction::RotateRight
        | Instruction::RotateLeftThroughCarry | Instruction::RotateRightThroughCarry
        | Instruction::ComplementAccum | Instruction::ComplementCarry
        | Instruction::SetCarry => execute_logical_instruction(state, instruction),
        Instruction::Jump(_) | Instruction::ConditionalJump(..) | Instruction::Call(_)
        | Instruction::ConditionalCall(..) | Instruction::Return
        | Instruction::ConditionalReturn(_) | Instruction::Restart(_)
        | Instruction::JumpHLIndirect => execute_branch_instruction(state, instruction),
        _ => execute_machine_control_instruction(state, instruction),
    }
}

} // verus!
