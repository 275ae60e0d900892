//! Clock cycles per instruction.
use vstd::prelude::*;
use crate::condition_flags::ConditionFlags;
use crate::instructions::{Instruction as I, Register};
use crate::state::State;

verus! {

/// The clock cycles that `i` takes; conditional calls and returns take more
/// when their condition holds under `flags`.
pub open spec fn cycles(i: I, flags: ConditionFlags) -> nat {
    match i {
        I::Move(Register::Memory, _) | I::Move(_, Register::Memory) => 7,
        I::Move(_, _) => 5,
        I::MoveImmediate(Register::Memory, _) => 10,
        I::MoveImmediate(_, _) => 7,
        I::LoadRegisterPairImmediate(_, _) => 10,
        I::LoadAccumDirect(_) | I::StoreAccumDirect(_) => 13,
        I::LoadHLDirect(_) | I::StoreHLDirect(_) => 16,
        I::LoadAccumIndirect(_) | I::StoreAccumIndirect(_) => 7,
        I::ExchangeHLWithDE => 4,
        I::Add(r) | I::AddWithCarry(r) | I::Subtract(r) | I::SubtractWithBorrow(r) | I::And(r)
        | I::Xor(r) | I::Or(r) | I::Compare(r) => if r == Register::Memory { 7 } else { 4 },
        I::AddImmediate(_) | I::AddImmediateWithCarry(_) | I::SubtractImmediate(_)
        | I::SubtractImmediateWithBorrow(_) | I::AndImmediate(_) | I::XorImmediate(_)
        | I::OrImmediate(_) | I::CompareImmediate(_) => 7,
        I::Increment(r) | I::Decrement(r) => if r == Register::Memory { 10 } else { 5 },
        I::IncrementRegPair(_) | I::DecrementRegPair(_) => 5,
        I::AddRegPairToHL(_) => 10,
        I::DecimalAdjustAccum => 4,
        I::RotateLeft | I::RotateLeftThroughCarry | I::RotateRight | I::RotateRightThroughCarry
        | I::ComplementAccum | I::ComplementCarry | I::SetCarry => 4,
        I::Jump(_) | I::ConditionalJump(_, _) => 10,
        I::Call(_) => 17,
        I::ConditionalCall(c, _) => if flags.holds(c) { 17 } else { 11 },
        I::Return => 10,
        I::ConditionalReturn(c) => if flags.holds(c) { 11 } else { 5 },
        I::Restart(_) => 11,
        I::JumpHLIndirect => 5,
        I::PushRegPair(_) | I::PushPSW => 11,
        I::PopRegPair(_) | I::PopPSW => 10,
        I::ExchangeStackTopWithHL => 18,
        I::MoveHLToSP => 5,
        I::Input(_) | I::Output(_) => 10,
        I::EnableInterrupts | I::DisableInterrupts => 4,
        I::Halt => 7,
        I::NoOp => 4,
    }
}

/// The clock cycles of `instruction` when executed in `state`.
pub fn get_instruction_timing(state: &State, instruction: &I) -> (r: usize)
    ensures
        r == cycles(*instruction, state.condition_flags),
        4 <= r <= 18,
{
    match instruction {
        I::Move(Register::Memory, _) | I::Move(_, Register::Memory) => 7,
        I::Move(_, _) => 5,
        I::MoveImmediate(Register::Memory, _) => 10,
        I::MoveImmediate(_, _) => 7,
        I::LoadRegisterPairImmediate(_, _) => 10,
        I::LoadAccumDirect(_) | I::StoreAccumDirect(_) => 13,
        I::LoadHLDirect(_) | I::StoreHLDirect(_) => 16,
        I::LoadAccumIndirect(_) | I::StoreAccumIndirect(_) => 7,
        I::ExchangeHLWithDE => 4,
        I::Add(Register::Memory) | I::AddWithCarry(Register::Memory)
        | I::Subtract(Register::Memory) | I::SubtractWithBorrow(Register::Memory)
        | I::And(Register::Memory) | I::Xor(Register::Memory) | I::Or(Register::Memory)
        | I::Compare(Register::Memory) => 7,
        I::Add(_) | I::AddWithCarry(_) | I::Subtract(_) | I::SubtractWithBorrow(_) | I::And(_)
        | I::Xor(_) | I::Or(_) | I::Compare(_) => 4,
        I::AddImmediate(_) | I::AddImmediateWithCarry(_) | I::SubtractImmediate(_)
        | I::SubtractImmediateWithBorrow(_) | I::AndImmediate(_) | I::XorImmediate(_)
        | I::OrImmediate(_) | I::CompareImmediate(_) => 7,
        I::Increment(Register::Memory) | I::Decrement(Register::Memory) => 10,
        I::Increment(_) | I::Decrement(_) => 5,
        I::IncrementRegPair(_) | I::DecrementRegPair(_) => 5,
        I::AddRegPairToHL(_) => 10,
        I::DecimalAdjustAccum => 4,
        I::RotateLeft | I::RotateLeftThroughCarry | I::RotateRight | I::RotateRightThroughCarry
        | I::ComplementAccum | I::ComplementCarry | I::SetCarry => 4,
        I::Jump(_) | I::ConditionalJump(_, _) => 10,
        I::Call(_) => 17,
        I::ConditionalCall(condition, _) => {
            if state.condition_flags.is_condition_fulfilled(condition) {
                17
            } else {
                11
            }
        },
        I::Return => 10,
        I::ConditionalReturn(condition) => {
            if state.condition_flags.is_condition_fulfilled(condition) {
                11
            } else {
                5
            }
        },
        I::Restart(_) => 11,
        I::JumpHLIndirect => 5,
        I::PushRegPair(_) | I::PushPSW => 11,
        I::PopRegPair(_) | I::PopPSW => 10,
        I::ExchangeStackTopWithHL => 18,
        I::MoveHLToSP => 5,
        I::Input(_) | I::Output(_) => 10,
        I::EnableInterrupts | I::DisableInterrupts => 4,
        I::Halt => 7,
        I::NoOp => 4,
    }
}

} // verus!
