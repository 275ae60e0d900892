//! Properties that hold of every state and instruction, proved from the
//! executor's specification.
use vstd::prelude::*;
use crate::condition_flags::{bit_set, ConditionFlags};
use crate::execution::execute_spec;
use crate::instructions::{Instruction, Register};
use crate::program_counter::{instruction_at, offset};
use crate::state::State;
use crate::system::step_spec;

verus! {

broadcast use crate::memory::lemma_byte_with;

/// Whether branch instruction `i` transfers control under `flags`.
pub open spec fn branch_taken(i: Instruction, flags: ConditionFlags) -> bool {
    match i {
        Instruction::Jump(_) | Instruction::Call(_) | Instruction::Return
        | Instruction::Restart(_) | Instruction::JumpHLIndirect => true,
        Instruction::ConditionalJump(c, _) | Instruction::ConditionalCall(c, _)
        | Instruction::ConditionalReturn(c) => flags.holds(c),
        _ => false,
    }
}

/// Where branch instruction `i` transfers control in state `s`: its
/// address, the popped return address, `n * 8` for RST n, or HL.
pub open spec fn branch_target(i: Instruction, s: State) -> u16 {
    match i {
        Instruction::Jump(a) | Instruction::ConditionalJump(_, a) | Instruction::Call(a)
        | Instruction::ConditionalCall(_, a) => a,
        Instruction::Return | Instruction::ConditionalReturn(_) => s.stack_top(),
        Instruction::Restart(n) => (n * 8) as u16,
        Instruction::JumpHLIndirect => s.hl(),
        _ => s.pc(),
    }
}

/// After any instruction, the program counter has moved past the instruction
/// (its encoded length) unless a branch was taken; a taken branch leaves it
/// at the target. A call or RST leaves the address after it on the stack.
pub proof fn lemma_program_counter_advance(s: State)
    ensures
        ({
            let i = instruction_at(s.memory, s.pc());
            let next = offset(s.pc(), i.size() as int);
            let t = step_spec(s);
            &&& !branch_taken(i, s.condition_flags) ==> t.pc() == next
            &&& branch_taken(i, s.condition_flags) ==> t.pc() == branch_target(i, s)
            &&& (branch_taken(i, s.condition_flags) && (i is Call || i is ConditionalCall
                || i is Restart)) ==> t.stack_top() == next && t.sp() == offset(s.sp(), -2)
        }),
{
    let i = instruction_at(s.memory, s.pc());
    let next = offset(s.pc(), i.size() as int);
    let u = s.with_pc(next);
    let p = u.pushed(next);
    assert(offset(offset(s.sp(), -2), 1) == offset(s.sp(), -1));
    assert(p.stack_top() == next);
}

/// Whether `t` holds the same stack as `s`: the same stack pointer and the
/// same word on top (no stack operation came between).
pub open spec fn same_stack_top(s: State, t: State) -> bool {
    &&& t.sp() == s.sp()
    &&& t.memory.byte(t.sp()) == s.memory.byte(s.sp())
    &&& t.memory.byte(offset(t.sp(), 1)) == s.memory.byte(offset(s.sp(), 1))
}

/// A CALL followed (with no stack operation between) by a RET restores the
/// stack pointer and returns to the address after the call.
pub proof fn lemma_call_return(s: State, address: u16, t: State)
    requires
        same_stack_top(execute_spec(s, Instruction::Call(address)), t),
    ensures
        execute_spec(t, Instruction::Return).sp() == s.sp(),
        execute_spec(t, Instruction::Return).pc() == s.pc(),
{
    assert(offset(offset(s.sp(), -2), 1) == offset(s.sp(), -1));
    assert(offset(offset(s.sp(), -2), 2) == s.sp());
}

/// Unpacking a packed flags byte gives back the same five flags.
pub proof fn lemma_flags_byte_round_trip(f: ConditionFlags)
    ensures
        ConditionFlags::from_byte(f.byte()) == f,
{
}

/// The flags byte always has bit 1 set and bits 3 and 5 clear.
pub proof fn lemma_flags_byte_fixed_bits(f: ConditionFlags)
    ensures
        bit_set(f.byte(), 1),
        !bit_set(f.byte(), 3),
        !bit_set(f.byte(), 5),
{
    vstd::arithmetic::power2::lemma2_to64();
}

/// PUSH PSW followed (with no stack operation between) by POP PSW restores
/// A, all five flags and the stack pointer.
pub proof fn lemma_psw_round_trip(s: State, t: State)
    requires
        same_stack_top(execute_spec(s, Instruction::PushPSW), t),
    ensures
        execute_spec(t, Instruction::PopPSW).registers.a == s.registers.a,
        execute_spec(t, Instruction::PopPSW).condition_flags == s.condition_flags,
        execute_spec(t, Instruction::PopPSW).sp() == s.sp(),
{
    lemma_flags_byte_round_trip(s.condition_flags);
    assert(offset(offset(s.sp(), -2), 1) == offset(s.sp(), -1));
    assert(offset(offset(s.sp(), -2), 2) == s.sp());
}

/// DAA leaves a valid BCD accumulator (both digits at most 9) unchanged
/// when C and AC are clear.
pub proof fn lemma_daa_keeps_bcd(s: State)
    requires
        s.registers.a / 16 <= 9,
        s.registers.a % 16 <= 9,
        !s.condition_flags.carry,
        !s.condition_flags.aux_carry,
    ensures
        execute_spec(s, Instruction::DecimalAdjustAccum).registers.a == s.registers.a,
{
}

/// INR and DCR never change the carry flag.
pub proof fn lemma_increment_decrement_keep_carry(s: State, r: Register)
    ensures
        execute_spec(s, Instruction::Increment(r)).condition_flags.carry == s.condition_flags.carry,
        execute_spec(s, Instruction::Decrement(r)).condition_flags.carry == s.condition_flags.carry,
{
}

/// ANA, XRA and ORA (and their immediate forms) clear the carry flag.
pub proof fn lemma_logical_clear_carry(s: State, r: Register, v: u8)
    ensures
        !execute_spec(s, Instruction::And(r)).condition_flags.carry,
        !execute_spec(s, Instruction::Xor(r)).condition_flags.carry,
        !execute_spec(s, Instruction::Or(r)).condition_flags.carry,
        !execute_spec(s, Instruction::AndImmediate(v)).condition_flags.carry,
        !execute_spec(s, Instruction::XorImmediate(v)).condition_flags.carry,
        !execute_spec(s, Instruction::OrImmediate(v)).condition_flags.carry,
{
}

/// Comparing A with `x` sets Z exactly when A == x and C exactly when
/// A < x (unsigned), and keeps A.
pub proof fn lemma_compare(s: State, x: u8)
    ensures
        execute_spec(s, Instruction::CompareImmediate(x)).condition_flags.zero
            <==> s.registers.a == x,
        execute_spec(s, Instruction::CompareImmediate(x)).condition_flags.carry
            <==> s.registers.a < x,
        execute_spec(s, Instruction::CompareImmediate(x)).registers == s.registers,
{
}

/// CMP r compares A with the operand's value, as CPI does.
pub proof fn lemma_compare_register(s: State, r: Register)
    ensures
        execute_spec(s, Instruction::Compare(r)).condition_flags.zero <==> s.registers.a == s.reg(r),
        execute_spec(s, Instruction::Compare(r)).condition_flags.carry <==> s.registers.a < s.reg(r),
{
    lemma_compare(s, s.reg(r));
}

/// XCHG undoes itself.
pub proof fn lemma_exchange_hl_de_involution(s: State)
    ensures
        execute_spec(execute_spec(s, Instruction::ExchangeHLWithDE), Instruction::ExchangeHLWithDE)
            == s,
{
}

/// XTHL undoes itself.
pub proof fn lemma_exchange_stack_top_involution(s: State)
    ensures
        execute_spec(
            execute_spec(s, Instruction::ExchangeStackTopWithHL),
            Instruction::ExchangeStackTopWithHL,
        ) == s,
{
    let t = execute_spec(
        execute_spec(s, Instruction::ExchangeStackTopWithHL),
        Instruction::ExchangeStackTopWithHL,
    );
    assert(t.memory.0 =~= s.memory.0);
}

/// Memory wraps only where an access spans two addresses: LHLD at 0xFFFF
/// reads 0xFFFF and 0x0000, SHLD at 0xFFFF writes H to 0x0000, while STA at
/// 0xFFFF leaves 0x0000 alone.
pub proof fn lemma_memory_wraparound(s: State)
    ensures
        execute_spec(s, Instruction::LoadHLDirect(0xFFFF)).registers.l == s.memory.byte(0xFFFF),
        execute_spec(s, Instruction::LoadHLDirect(0xFFFF)).registers.h == s.memory.byte(0),
        execute_spec(s, Instruction::StoreHLDirect(0xFFFF)).memory.byte(0xFFFF) == s.registers.l,
        execute_spec(s, Instruction::StoreHLDirect(0xFFFF)).memory.byte(0) == s.registers.h,
        execute_spec(s, Instruction::StoreAccumDirect(0xFFFF)).memory.byte(0xFFFF) == s.registers.a,
        execute_spec(s, Instruction::StoreAccumDirect(0xFFFF)).memory.byte(0) == s.memory.byte(0),
{
}

} // verus!

